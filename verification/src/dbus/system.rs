//! The System interface's computations: battery information from the
//! power-supply attributes, battery cycle counts and CPU frequencies.
use crate::dbus_types::BatteryInfoResponse;
use crate::error::{IoError, IoErrorKind};
use crate::text::{parse_i32, parse_signed_spec, parse_unsigned, parse_unsigned_spec, same_text};
use vstd::prelude::*;

verus! {

/// The attributes of a battery, each trimmed (empty when unreadable).
#[derive(Debug, Clone)]
pub struct BatteryReadings {
    pub capacity: String,
    pub status: String,
    pub cycle_count: String,
    pub charge_now: String,
    pub charge_full: String,
    pub charge_full_design: String,
    pub current_now: String,
    pub voltage_now: String,
    pub voltage_min_design: String,
    pub technology: String,
    pub manufacturer: String,
    pub model_name: String,
    /// A burst of readings of the battery's raw cycle counter.
    pub raw_cycle_samples: Vec<String>,
    /// The platform's raw cycle counter.
    pub platform_raw_cycle_count: String,
}

/// A `u32` attribute, or 0 when it does not parse.
pub open spec fn u32_or_zero(s: Seq<char>) -> u32 {
    match parse_unsigned_spec(s, u32::MAX as int) {
        Some(v) => v as u32,
        None => 0,
    }
}

/// An `i32` attribute, or 0 when it does not parse.
pub open spec fn i32_or_zero(s: Seq<char>) -> i32 {
    match parse_signed_spec(s, 2147483648, 2147483647) {
        Some(v) => v as i32,
        None => 0,
    }
}

/// A `u32` attribute, or 0 when it does not parse.
pub fn parse_u32_or_zero(s: &str) -> (r: u32)
    ensures
        r == u32_or_zero(s@),
{
    match parse_unsigned(s, u32::MAX as u64) {
        Some(v) => v as u32,
        None => 0,
    }
}

/// An `i32` attribute, or 0 when it does not parse.
pub fn parse_i32_or_zero(s: &str) -> (r: i32)
    ensures
        r == i32_or_zero(s@),
{
    match parse_i32(s) {
        Some(v) => v,
        None => 0,
    }
}

/// A raw cycle counter without the packed encoding that some firmware
/// reports: above 255 with a non-zero low byte, the low byte is the count.
pub open spec fn normalize_raw_cycle_count_spec(raw: u32) -> u32 {
    if raw > 255 && raw % 256 > 0 {
        (raw % 256) as u32
    } else {
        raw
    }
}

/// Normalize flaky raw cycle counters seen on some Uniwill firmware.
///
/// Some systems occasionally return a 16-bit packed value where the real
/// cycle count is in the low byte (e.g. 12836 -> 36, 13348 -> 36).
pub fn normalize_raw_cycle_count(raw: u32) -> (r: u32)
    ensures
        r == normalize_raw_cycle_count_spec(raw),
{
    if raw == 0 {
        return 0;
    }
    if raw > 255 {
        let low = raw % 256;
        if low > 0 {
            return low;
        }
    }
    raw
}

/// The smallest non-zero normalized sample, or 0 when there is none.
pub open spec fn stable_cycle_count_spec(samples: Seq<Seq<char>>) -> u32
    decreases samples.len(),
{
    if samples.len() == 0 {
        0
    } else {
        let prev = stable_cycle_count_spec(samples.drop_last());
        let v = normalize_raw_cycle_count_spec(u32_or_zero(samples.last()));
        if v == 0 {
            prev
        } else if prev == 0 || v < prev {
            v
        } else {
            prev
        }
    }
}

/// A stable raw cycle count from a burst of readings: the smallest
/// non-zero normalized reading, which rejects transient spikes.
pub fn stable_raw_cycle_count(samples: &Vec<String>) -> (r: u32)
    ensures
        r == stable_cycle_count_spec(samples@.map_values(|s: String| s@)),
{
    let ghost ss = samples@.map_values(|s: String| s@);
    let n = samples.len();
    let mut best: u32 = 0;
    let mut i: usize = 0;
    while i < n
        invariant
            n == samples@.len(),
            ss == samples@.map_values(|s: String| s@),
            i <= n,
            best == stable_cycle_count_spec(ss.subrange(0, i as int)),
        decreases n - i,
    {
        proof {
            assert(ss.subrange(0, i + 1).drop_last() =~= ss.subrange(0, i as int));
            assert(ss.subrange(0, i + 1).last() == samples@[i as int]@);
        }
        let v = normalize_raw_cycle_count(parse_u32_or_zero(samples[i].as_str()));
        if v > 0 && (best == 0 || v < best) {
            best = v;
        }
        i = i + 1;
    }
    assert(ss.subrange(0, n as int) =~= ss);
    best
}

/// The cycle count: the battery's raw counter, else the platform's, else
/// the legacy attribute.
pub open spec fn cycle_count_spec(r: BatteryReadings) -> u32 {
    let bat = stable_cycle_count_spec(r.raw_cycle_samples@.map_values(|s: String| s@));
    if bat > 0 {
        bat
    } else if u32_or_zero(r.platform_raw_cycle_count@) > 0 {
        u32_or_zero(r.platform_raw_cycle_count@)
    } else {
        u32_or_zero(r.cycle_count@)
    }
}

/// The magnitude of a current in mA (from µA), negative while
/// discharging.
pub open spec fn signed_current_spec(current_ua: i32, status: Seq<char>) -> int {
    let magnitude: int = (if current_ua < 0 {
        -current_ua
    } else {
        current_ua as int
    }) / 1000;
    if status == "Discharging"@ {
        -magnitude
    } else {
        magnitude
    }
}

/// The battery's health: the full charge as a percentage of the design
/// capacity (0 without a design capacity).
pub open spec fn health_percent_spec(full_mah: u32, design_mah: u32) -> u32 {
    if design_mah > 0 {
        ((full_mah as int * 100) / design_mah as int) as u32
    } else {
        0
    }
}

/// The battery's health: the full charge as a percentage of the design
/// capacity.
pub fn health_percent(full_mah: u32, design_mah: u32) -> (r: u32)
    ensures
        r == health_percent_spec(full_mah, design_mah),
{
    if design_mah > 0 {
        let q: u64 = (full_mah as u64 * 100) / design_mah as u64;
        q as u32
    } else {
        0
    }
}

/// The signed current in mA from the current in µA and the status.
pub fn signed_current_ma(current_ua: i32, status: &str) -> (r: i32)
    ensures
        r == signed_current_spec(current_ua, status@),
{
    let magnitude: i64 = if current_ua < 0 {
        0 - current_ua as i64
    } else {
        current_ua as i64
    };
    let ma: i64 = magnitude / 1000;
    if same_text(status, "Discharging") {
        (0 - ma) as i32
    } else {
        ma as i32
    }
}

/// The battery information that the readings describe.
pub open spec fn battery_info_spec(r: BatteryReadings, b: BatteryInfoResponse) -> bool {
    let full = u32_or_zero(r.charge_full@) / 1000;
    let design = u32_or_zero(r.charge_full_design@) / 1000;
    &&& b.present
    &&& b.capacity_percent == u32_or_zero(r.capacity@)
    &&& b.status@ == r.status@
    &&& b.cycle_count == cycle_count_spec(r)
    &&& b.charge_now_mah == u32_or_zero(r.charge_now@) / 1000
    &&& b.charge_full_mah == full
    &&& b.charge_full_design_mah == design
    &&& b.current_now_ma == signed_current_spec(i32_or_zero(r.current_now@), r.status@)
    &&& b.voltage_now_mv == u32_or_zero(r.voltage_now@) / 1000
    &&& b.voltage_design_mv == u32_or_zero(r.voltage_min_design@) / 1000
    &&& b.technology@ == r.technology@
    &&& b.manufacturer@ == r.manufacturer@
    &&& b.model_name@ == r.model_name@
    &&& b.health_percent == health_percent_spec(full as u32, design as u32)
}

/// The battery information that a battery's attributes describe
/// (µAh, µA and µV become mAh, mA and mV).
pub fn battery_info(r: &BatteryReadings) -> (b: BatteryInfoResponse)
    ensures
        battery_info_spec(*r, b),
{
    let charge_now_mah = parse_u32_or_zero(r.charge_now.as_str()) / 1000;
    let charge_full_mah = parse_u32_or_zero(r.charge_full.as_str()) / 1000;
    let charge_full_design_mah = parse_u32_or_zero(r.charge_full_design.as_str()) / 1000;
    let current_now_ma = signed_current_ma(parse_i32_or_zero(r.current_now.as_str()), r.status.as_str());
    let bat_raw = stable_raw_cycle_count(&r.raw_cycle_samples);
    let cycle_count = if bat_raw > 0 {
        bat_raw
    } else {
        let platform = parse_u32_or_zero(r.platform_raw_cycle_count.as_str());
        if platform > 0 {
            platform
        } else {
            parse_u32_or_zero(r.cycle_count.as_str())
        }
    };
    BatteryInfoResponse {
        present: true,
        capacity_percent: parse_u32_or_zero(r.capacity.as_str()),
        status: r.status.clone(),
        cycle_count,
        charge_now_mah,
        charge_full_mah,
        charge_full_design_mah,
        current_now_ma,
        voltage_now_mv: parse_u32_or_zero(r.voltage_now.as_str()) / 1000,
        voltage_design_mv: parse_u32_or_zero(r.voltage_min_design.as_str()) / 1000,
        technology: r.technology.clone(),
        manufacturer: r.manufacturer.clone(),
        model_name: r.model_name.clone(),
        health_percent: health_percent(charge_full_mah, charge_full_design_mah),
    }
}

/// The sum of the readings.
pub open spec fn sum_spec(v: Seq<u64>) -> int
    decreases v.len(),
{
    if v.len() == 0 {
        0
    } else {
        sum_spec(v.drop_last()) + v.last()
    }
}

/// The average CPU frequency in MHz of per-CPU readings in kHz, or `None`
/// without readings.
pub fn average_frequency_mhz(khz: &Vec<u64>) -> (r: Option<u32>)
    requires
        sum_spec(khz@) <= u64::MAX,
    ensures
        khz@.len() == 0 ==> r is None,
        khz@.len() > 0 ==> r == Some(((sum_spec(khz@) / khz@.len() as int) / 1000) as u32),
{
    let n = khz.len();
    if n == 0 {
        return None;
    }
    let mut total: u64 = 0;
    let mut i: usize = 0;
    while i < n
        invariant
            n == khz@.len(),
            i <= n,
            sum_spec(khz@) <= u64::MAX,
            total == sum_spec(khz@.subrange(0, i as int)),
        decreases n - i,
    {
        proof {
            assert(khz@.subrange(0, i + 1).drop_last() =~= khz@.subrange(0, i as int));
            lemma_sum_prefix(khz@, i + 1);
        }
        total = total + khz[i];
        i = i + 1;
    }
    assert(khz@.subrange(0, n as int) =~= khz@);
    Some((total / n as u64 / 1000) as u32)
}

/// A prefix sums to at most the whole (the readings are not negative).
proof fn lemma_sum_prefix(v: Seq<u64>, k: int)
    requires
        0 <= k <= v.len(),
    ensures
        sum_spec(v.subrange(0, k)) <= sum_spec(v),
    decreases v.len() - k,
{
    if k < v.len() {
        lemma_sum_prefix(v, k + 1);
        assert(v.subrange(0, k + 1).drop_last() =~= v.subrange(0, k));
    } else {
        assert(v.subrange(0, k) =~= v);
    }
}

/// A per-core reading in MHz: the core's index and its kHz reading
/// divided by 1000.
pub open spec fn mhz_reading(r: (u32, u64)) -> (u32, u32) {
    (r.0, (r.1 / 1000) as u32)
}

/// Readings in ascending core order.
pub open spec fn sorted_by_core(s: Seq<(u32, u32)>) -> bool {
    forall|i: int, j: int| 0 <= i <= j < s.len() ==> s[i].0 <= s[j].0
}

/// The frequencies of `readings` ordered by core index.
pub open spec fn frequencies_by_core(readings: Seq<(u32, u64)>, r: Seq<u32>) -> bool {
    exists|sorted: Seq<(u32, u32)>|
        #![trigger sorted_by_core(sorted)]
        sorted_by_core(sorted) && sorted.to_multiset() == readings.map_values(|x: (u32, u64)| mhz_reading(x)).to_multiset()
            && r == sorted.map_values(|p: (u32, u32)| p.1)
}

/// The per-core frequencies in MHz of `(core index, kHz)` readings, in
/// ascending core order; a not-found error without readings.
pub fn per_core_frequencies_mhz(readings: &Vec<(u32, u64)>) -> (r: Result<Vec<u32>, IoError>)
    ensures
        readings@.len() == 0 ==> (r matches Err(e) && e.kind == IoErrorKind::NotFound && e.message@
            == "no CPU frequency data found"@),
        readings@.len() > 0 ==> (r matches Ok(v) && frequencies_by_core(readings@, v@)),
{
    broadcast use vstd::seq_lib::group_to_multiset_ensures;

    let n = readings.len();
    if n == 0 {
        return Err(IoError { kind: IoErrorKind::NotFound, message: "no CPU frequency data found".to_owned() });
    }
    let ghost mapped = readings@.map_values(|x: (u32, u64)| mhz_reading(x));
    let mut cores: Vec<(u32, u32)> = Vec::new();
    let mut i: usize = 0;
    while i < n
        invariant
            n == readings@.len(),
            i <= n,
            mapped == readings@.map_values(|x: (u32, u64)| mhz_reading(x)),
            sorted_by_core(cores@),
            cores@.to_multiset() == mapped.subrange(0, i as int).to_multiset(),
        decreases n - i,
    {
        let (index, khz) = readings[i];
        let pair: (u32, u32) = (index, #[verifier::truncate] ((khz / 1000) as u32));
        assert(pair == mapped[i as int]);
        let mut pos: usize = 0;
        while pos < cores.len() && cores[pos].0 <= index
            invariant
                pos <= cores@.len(),
                forall|k: int| 0 <= k < pos ==> cores@[k].0 <= index,
            decreases cores@.len() - pos,
        {
            pos = pos + 1;
        }
        let ghost before = cores@;
        proof {
            assert forall|k: int| pos <= k < before.len() implies before[k].0 > index by {
                assert(before[pos as int].0 > index);
                assert(before[pos as int].0 <= before[k].0);
            }
        }
        cores.insert(pos, pair);
        proof {
            assert(cores@ == before.insert(pos as int, pair));
            assert(sorted_by_core(cores@)) by {
                assert forall|a: int, b: int| 0 <= a <= b < cores@.len() implies cores@[a].0 <= cores@[b].0 by {
                    if a < pos && b < pos {
                    } else if a < pos && b == pos {
                    } else if a < pos && b > pos {
                        assert(cores@[b] == before[b - 1]);
                    } else if a == pos && b == pos {
                    } else if a == pos {
                        assert(cores@[b] == before[b - 1]);
                    } else {
                        assert(cores@[a] == before[a - 1]);
                        assert(cores@[b] == before[b - 1]);
                    }
                }
            }
            assert(mapped.subrange(0, i + 1) =~= mapped.subrange(0, i as int).push(pair));
            vstd::seq_lib::to_multiset_insert(before, pos as int, pair);
            vstd::seq_lib::to_multiset_build(mapped.subrange(0, i as int), pair);
        }
        i = i + 1;
    }
    assert(mapped.subrange(0, n as int) =~= mapped);
    let mut out: Vec<u32> = Vec::new();
    let mut j: usize = 0;
    while j < cores.len()
        invariant
            j <= cores@.len(),
            out@ == cores@.subrange(0, j as int).map_values(|p: (u32, u32)| p.1),
        decreases cores@.len() - j,
    {
        out.push(cores[j].1);
        proof {
            assert(cores@.subrange(0, j + 1).map_values(|p: (u32, u32)| p.1) =~= cores@.subrange(
                0,
                j as int,
            ).map_values(|p: (u32, u32)| p.1).push(cores@[j as int].1));
        }
        j = j + 1;
    }
    assert(cores@.subrange(0, cores@.len() as int) =~= cores@);
    assert(sorted_by_core(cores@));
    Ok(out)
}

} // verus!
