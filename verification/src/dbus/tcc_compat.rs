//! The data model of the legacy TCC D-Bus interface and the conversion of
//! a profile into it.
use crate::backend::fan::FanBackend;
use crate::charging::{ChargingBackend, ChargingRequest};
use crate::dbus::charging::asked_once;
use crate::config::ProfileAssignments;
use crate::error::IoError;
use crate::dbus::profile::{
    active_profile_id, assign_profile, assigned_id, find_profile_by_id, find_profile_by_name, has_id,
    has_name, PowerState,
};
use crate::fan_curve::{FanCurvePoint, FanMode};
use crate::hid::{KeyboardLed, LedRequest, Rgb};
use crate::request_log::requests_of;
use crate::profile::TuxProfile;
use crate::text::{same_text, trim, trim_spec};
use vstd::prelude::*;

verus! {

/// A D-Bus variant holding a 64-bit integer, as TCC encodes timestamps.
#[derive(Debug, Clone, PartialEq)]
pub struct TccDbusVariant {
    pub signature: String,
    pub value: i64,
}

/// Matches TCC's `ITccProfile`.
#[derive(Debug, Clone, PartialEq)]
pub struct TccProfile {
    pub id: String,
    pub name: String,
    pub description: String,
    pub display: TccDisplay,
    pub cpu: TccCpu,
    pub webcam: TccWebcam,
    pub fan: TccFanControl,
    pub odm_profile: TccOdmProfile,
    pub odm_power_limits: TccOdmPowerLimits,
    pub nvidia_power_ctrl_profile: TccNvidiaPowerCtrl,
}

#[derive(Debug, Clone, Copy, PartialEq, Eq, Structural)]
pub struct TccDisplay {
    pub brightness: i32,
    pub use_brightness: bool,
    pub refresh_rate: i32,
    pub use_ref_rate: bool,
    pub x_resolution: i32,
    pub y_resolution: i32,
    pub use_resolution: bool,
}

#[derive(Debug, Clone, PartialEq)]
pub struct TccCpu {
    pub online_cores: i32,
    pub use_max_perf_gov: bool,
    pub scaling_min_frequency: i32,
    pub scaling_max_frequency: i32,
    pub governor: String,
    pub energy_performance_preference: String,
    pub no_turbo: bool,
}

#[derive(Debug, Clone, Copy, PartialEq, Eq, Structural)]
pub struct TccWebcam {
    pub status: bool,
    pub use_status: bool,
}

#[derive(Debug, Clone, PartialEq)]
pub struct TccFanControl {
    pub use_control: bool,
    pub fan_profile: String,
    pub minimum_fanspeed: i32,
    pub maximum_fanspeed: i32,
    pub offset_fanspeed: i32,
    pub custom_fan_curve: TccFanProfile,
}

#[derive(Debug, Clone, PartialEq)]
pub struct TccFanProfile {
    pub name: Option<String>,
    pub table_cpu: Option<Vec<TccFanTableEntry>>,
    pub table_gpu: Option<Vec<TccFanTableEntry>>,
}

#[derive(Debug, Clone, Copy, PartialEq, Eq, Structural)]
pub struct TccFanTableEntry {
    pub temp: i32,
    pub speed: i32,
}

#[derive(Debug, Clone, PartialEq)]
pub struct TccOdmProfile {
    pub name: String,
}

#[derive(Debug, Clone, PartialEq)]
pub struct TccOdmPowerLimits {
    pub tdp_values: Vec<i32>,
}

#[derive(Debug, Clone, Copy, PartialEq, Eq, Structural)]
pub struct TccNvidiaPowerCtrl {
    pub ctgp_offset: i32,
}

/// Which profile applies on AC and on battery.
#[derive(Debug, Clone, PartialEq)]
pub struct TccStateMap {
    pub power_ac: String,
    pub power_bat: String,
}

/// Matches TCC's `KeyboardBacklightStateInterface`.
#[derive(Debug, Clone, Copy, PartialEq, Eq, Structural)]
pub struct TccKeyboardBacklightState {
    pub mode: i32,
    pub brightness: i32,
    pub red: i32,
    pub green: i32,
    pub blue: i32,
}

/// Matches TCC's `KeyboardBacklightCapabilitiesInterface`.
#[derive(Debug, Clone, PartialEq)]
pub struct TccKeyboardCapabilities {
    pub modes: Vec<i32>,
    pub zones: i32,
    pub max_brightness: i32,
    pub max_red: i32,
    pub max_green: i32,
    pub max_blue: i32,
}

/// The variant name of a fan mode, as its debug form shows it.
pub open spec fn fan_mode_name(m: FanMode) -> Seq<char> {
    match m {
        FanMode::Auto => "Auto"@,
        FanMode::Manual => "Manual"@,
        FanMode::CustomCurve => "CustomCurve"@,
    }
}

/// The fan table of a curve.
pub open spec fn fan_table_spec(curve: Seq<FanCurvePoint>) -> Seq<TccFanTableEntry> {
    Seq::new(
        curve.len(),
        |i: int| TccFanTableEntry { temp: curve[i].temp as i32, speed: curve[i].speed as i32 },
    )
}

/// The TDP values of a profile: PL1 then PL2, those that are set.
pub open spec fn tdp_values_spec(p: TuxProfile) -> Seq<i32> {
    match p.tdp {
        Some(t) => {
            let a: Seq<i32> = match t.pl1 {
                Some(v) => seq![v as i32],
                None => seq![],
            };
            let b: Seq<i32> = match t.pl2 {
                Some(v) => seq![v as i32],
                None => seq![],
            };
            a + b
        },
        None => seq![],
    }
}

/// A text that holds `o`'s value, or is empty when `o` is `None`.
pub open spec fn text_or_empty(o: Option<String>) -> Seq<char> {
    match o {
        Some(s) => s@,
        None => seq![],
    }
}

/// `t` is the TCC form of profile `p`.
pub open spec fn tcc_profile_of(p: TuxProfile, t: TccProfile) -> bool {
    &&& t.id@ == p.id@
    &&& t.name@ == p.name@
    &&& t.description@ == p.description@
    &&& t.display == TccDisplay {
        brightness: match p.display.brightness {
            Some(b) => b as i32,
            None => 100i32,
        },
        use_brightness: p.display.brightness is Some,
        refresh_rate: -1i32,
        use_ref_rate: false,
        x_resolution: -1i32,
        y_resolution: -1i32,
        use_resolution: false,
    }
    &&& t.cpu.online_cores == -1
    &&& t.cpu.use_max_perf_gov == (p.cpu.governor@ == "performance"@)
    &&& t.cpu.scaling_min_frequency == -1
    &&& t.cpu.scaling_max_frequency == -1
    &&& t.cpu.governor@ == p.cpu.governor@
    &&& t.cpu.energy_performance_preference@ == text_or_empty(p.cpu.energy_performance_preference)
    &&& t.cpu.no_turbo == p.cpu.no_turbo
    &&& t.webcam == TccWebcam { status: true, use_status: false }
    &&& t.fan.use_control == p.fan.enabled
    &&& t.fan.fan_profile@ == fan_mode_name(p.fan.mode)
    &&& t.fan.minimum_fanspeed == p.fan.min_speed_percent as i32
    &&& t.fan.maximum_fanspeed == p.fan.max_speed_percent as i32
    &&& t.fan.offset_fanspeed == 0
    &&& t.fan.custom_fan_curve.name matches Some(n) && n@ == "custom"@
    &&& t.fan.custom_fan_curve.table_cpu matches Some(c) && c@ == fan_table_spec(p.fan.curve@)
    &&& t.fan.custom_fan_curve.table_gpu matches Some(g) && g@ == fan_table_spec(p.fan.curve@)
    &&& t.odm_profile.name@ == text_or_empty(p.odm_profile)
    &&& t.odm_power_limits.tdp_values@ == tdp_values_spec(p)
    &&& t.nvidia_power_ctrl_profile.ctgp_offset == (match p.gpu {
        Some(g) => match g.ctgp_offset {
            Some(v) => v as i32,
            None => 0i32,
        },
        None => 0i32,
    })
}

/// The variant name of a fan mode.
fn fan_mode_str(m: FanMode) -> (r: &'static str)
    ensures
        r@ == fan_mode_name(m),
{
    match m {
        FanMode::Auto => "Auto",
        FanMode::Manual => "Manual",
        FanMode::CustomCurve => "CustomCurve",
    }
}

/// The fan table of a curve.
fn fan_table(curve: &Vec<FanCurvePoint>) -> (r: Vec<TccFanTableEntry>)
    ensures
        r@ == fan_table_spec(curve@),
{
    let mut out: Vec<TccFanTableEntry> = Vec::new();
    let n = curve.len();
    let mut i: usize = 0;
    while i < n
        invariant
            n == curve@.len(),
            i <= n,
            out@ == fan_table_spec(curve@.subrange(0, i as int)),
        decreases n - i,
    {
        let pt = curve[i];
        out.push(TccFanTableEntry { temp: pt.temp as i32, speed: pt.speed as i32 });
        i = i + 1;
        assert(out@ =~= fan_table_spec(curve@.subrange(0, i as int)));
    }
    assert(curve@.subrange(0, n as int) =~= curve@);
    out
}

/// The text of an optional string, or an empty one.
fn owned_or_empty(o: &Option<String>) -> (r: String)
    ensures
        r@ == text_or_empty(*o),
{
    match o {
        Some(s) => s.clone(),
        None => String::new(),
    }
}

/// The TCC form of a profile.
pub fn profile_to_tcc(p: &TuxProfile) -> (r: TccProfile)
    ensures
        tcc_profile_of(*p, r),
{
    let table_cpu = fan_table(&p.fan.curve);
    let table_gpu = fan_table(&p.fan.curve);
    let mut tdp_values: Vec<i32> = Vec::new();
    match p.tdp {
        Some(t) => {
            if let Some(pl1) = t.pl1 {
                tdp_values.push(pl1 as i32);
            }
            if let Some(pl2) = t.pl2 {
                tdp_values.push(pl2 as i32);
            }
        },
        None => {},
    }
    assert(tdp_values@ =~= tdp_values_spec(*p));
    let ctgp_offset: i32 = match p.gpu {
        Some(g) => match g.ctgp_offset {
            Some(v) => v as i32,
            None => 0,
        },
        None => 0,
    };
    let performance = "performance".to_owned();
    TccProfile {
        id: p.id.clone(),
        name: p.name.clone(),
        description: p.description.clone(),
        display: TccDisplay {
            brightness: match p.display.brightness {
                Some(b) => b as i32,
                None => 100,
            },
            use_brightness: p.display.brightness.is_some(),
            refresh_rate: -1,
            use_ref_rate: false,
            x_resolution: -1,
            y_resolution: -1,
            use_resolution: false,
        },
        cpu: TccCpu {
            online_cores: -1,
            use_max_perf_gov: p.cpu.governor == performance,
            scaling_min_frequency: -1,
            scaling_max_frequency: -1,
            governor: p.cpu.governor.clone(),
            energy_performance_preference: owned_or_empty(&p.cpu.energy_performance_preference),
            no_turbo: p.cpu.no_turbo,
        },
        webcam: TccWebcam { status: true, use_status: false },
        fan: TccFanControl {
            use_control: p.fan.enabled,
            fan_profile: fan_mode_str(p.fan.mode).to_owned(),
            minimum_fanspeed: p.fan.min_speed_percent as i32,
            maximum_fanspeed: p.fan.max_speed_percent as i32,
            offset_fanspeed: 0,
            custom_fan_curve: TccFanProfile {
                name: Some("custom".to_owned()),
                table_cpu: Some(table_cpu),
                table_gpu: Some(table_gpu),
            },
        },
        odm_profile: TccOdmProfile { name: owned_or_empty(&p.odm_profile) },
        odm_power_limits: TccOdmPowerLimits { tdp_values },
        nvidia_power_ctrl_profile: TccNvidiaPowerCtrl { ctgp_offset },
    }
}

// ── Operations of the legacy interface ──────────────────────────────────

/// Sensor readings for `GetFanDataJSON`; -1 means not available.
#[derive(Debug, Clone, Copy, PartialEq, Eq, Structural)]
pub struct TccFanReadings {
    pub cpu_speed: i64,
    pub cpu_temp: i64,
    pub gpu1_speed: i64,
}

/// The readings TCC is told of, from the first fan's RPM read, the
/// temperature read and, when there is a second fan, its RPM read: a failed
/// read counts as 0, a missing second fan as -1.
pub open spec fn tcc_readings_spec(
    rpm0: Result<u16, IoError>,
    temp: Result<u8, IoError>,
    rpm1: Option<Result<u16, IoError>>,
) -> TccFanReadings {
    TccFanReadings {
        cpu_speed: match rpm0 {
            Ok(v) => v as i64,
            Err(_) => 0i64,
        },
        cpu_temp: match temp {
            Ok(v) => v as i64,
            Err(_) => 0i64,
        },
        gpu1_speed: match rpm1 {
            Some(Ok(v)) => v as i64,
            Some(Err(_)) => 0i64,
            None => -1i64,
        },
    }
}

/// The readings TCC is told of, from the results of the reads; see
/// `tcc_readings_spec`.
pub fn tcc_readings(
    rpm0: Result<u16, IoError>,
    temp: Result<u8, IoError>,
    rpm1: Option<Result<u16, IoError>>,
) -> (r: TccFanReadings)
    ensures
        r == tcc_readings_spec(rpm0, temp, rpm1),
{
    let speed: i64 = match rpm0 {
        Ok(v) => v as i64,
        Err(_) => 0,
    };
    let t: i64 = match temp {
        Ok(v) => v as i64,
        Err(_) => 0,
    };
    let gpu1: i64 = match rpm1 {
        Some(Ok(v)) => v as i64,
        Some(Err(_)) => 0,
        None => -1,
    };
    TccFanReadings { cpu_speed: speed, cpu_temp: t, gpu1_speed: gpu1 }
}

/// The readings of the fan backend: the first fan's RPM and the CPU
/// temperature (0 when a read fails), and the second fan's RPM when there
/// is a second fan; all -1 without a fan backend.
pub fn fan_readings<B: FanBackend>(fan: &Option<B>) -> (r: TccFanReadings)
    ensures
        fan is None ==> r == (TccFanReadings { cpu_speed: -1i64, cpu_temp: -1i64, gpu1_speed: -1i64 }),
        B::obeys_fan_model() && fan is Some ==> exists|
            rpm0: Result<u16, IoError>,
            temp: Result<u8, IoError>,
            rpm1: Option<Result<u16, IoError>>,
        |
            r == #[trigger] tcc_readings_spec(rpm0, temp, rpm1) && fan->Some_0.rpm_outcome(0, rpm0)
                && fan->Some_0.temp_outcome(temp) && (if fan->Some_0.fan_count() > 1 {
                rpm1 matches Some(x) && fan->Some_0.rpm_outcome(1, x)
            } else {
                rpm1 is None
            }),
        B::obeys_fan_model() && fan is Some ==> (r.gpu1_speed != -1 <==> fan->Some_0.fan_count() > 1),
{
    match fan {
        None => TccFanReadings { cpu_speed: -1, cpu_temp: -1, gpu1_speed: -1 },
        Some(b) => {
            let rpm0 = b.read_fan_rpm(0);
            let temp = b.read_temp();
            let rpm1 = if b.num_fans() > 1 {
                Some(b.read_fan_rpm(1))
            } else {
                None
            };
            let ghost (g0, gt, g1) = (rpm0, temp, rpm1);
            let r = tcc_readings(rpm0, temp, rpm1);
            assert(r == tcc_readings_spec(g0, gt, g1));
            r
        },
    }
}

/// The profiles whose default flag is `flag`, in order.
pub open spec fn profiles_flagged(ps: Seq<TuxProfile>, flag: bool) -> Seq<TuxProfile>
    decreases ps.len(),
{
    if ps.len() == 0 {
        Seq::empty()
    } else {
        let rest = profiles_flagged(ps.drop_last(), flag);
        if ps.last().is_default == flag {
            rest.push(ps.last())
        } else {
            rest
        }
    }
}

/// `ts` is the TCC form of `ps`, element by element.
pub open spec fn tcc_profiles_of(ps: Seq<TuxProfile>, ts: Seq<TccProfile>) -> bool {
    &&& ps.len() == ts.len()
    &&& forall|i: int| 0 <= i < ps.len() ==> tcc_profile_of(#[trigger] ps[i], ts[i])
}

/// The TCC form of every profile, in order.
pub fn profiles_to_tcc(profiles: &Vec<TuxProfile>) -> (r: Vec<TccProfile>)
    ensures
        tcc_profiles_of(profiles@, r@),
{
    let mut out: Vec<TccProfile> = Vec::new();
    let n = profiles.len();
    let mut i: usize = 0;
    while i < n
        invariant
            n == profiles@.len(),
            i <= n,
            tcc_profiles_of(profiles@.subrange(0, i as int), out@),
        decreases n - i,
    {
        out.push(profile_to_tcc(&profiles[i]));
        i = i + 1;
        assert forall|j: int| 0 <= j < i implies tcc_profile_of(
            #[trigger] profiles@.subrange(0, i as int)[j],
            out@[j],
        ) by {
            if j < i - 1 {
                assert(profiles@.subrange(0, i as int)[j] == profiles@.subrange(0, i - 1)[j]);
            }
        }
    }
    assert(profiles@.subrange(0, n as int) =~= profiles@);
    out
}

/// The TCC form of the profiles whose default flag is `flag`, in order.
pub fn flagged_profiles_to_tcc(profiles: &Vec<TuxProfile>, flag: bool) -> (r: Vec<TccProfile>)
    ensures
        tcc_profiles_of(profiles_flagged(profiles@, flag), r@),
{
    let mut out: Vec<TccProfile> = Vec::new();
    let n = profiles.len();
    let mut i: usize = 0;
    while i < n
        invariant
            n == profiles@.len(),
            i <= n,
            tcc_profiles_of(profiles_flagged(profiles@.subrange(0, i as int), flag), out@),
        decreases n - i,
    {
        let ghost before = out@;
        proof {
            assert(profiles@.subrange(0, i + 1).drop_last() =~= profiles@.subrange(0, i as int));
            assert(profiles@.subrange(0, i + 1).last() == profiles@[i as int]);
        }
        if profiles[i].is_default == flag {
            out.push(profile_to_tcc(&profiles[i]));
            proof {
                let sel = profiles_flagged(profiles@.subrange(0, i + 1), flag);
                let prev = profiles_flagged(profiles@.subrange(0, i as int), flag);
                assert(sel == prev.push(profiles@[i as int]));
                assert forall|j: int| 0 <= j < sel.len() implies tcc_profile_of(#[trigger] sel[j], out@[j]) by {
                    if j < prev.len() {
                        assert(sel[j] == prev[j]);
                        assert(out@[j] == before[j]);
                    }
                }
            }
        }
        i = i + 1;
    }
    assert(profiles@.subrange(0, n as int) =~= profiles@);
    out
}

/// The TCC form of the first default profile, if any.
pub fn default_values_profile(profiles: &Vec<TuxProfile>) -> (r: Option<TccProfile>)
    ensures
        r is None <==> forall|i: int| 0 <= i < profiles@.len() ==> !(#[trigger] profiles@[i]).is_default,
        r matches Some(t) ==> exists|i: int|
            0 <= i < profiles@.len() && profiles@[i].is_default && tcc_profile_of(profiles@[i], t)
                && forall|j: int| 0 <= j < i ==> !(#[trigger] profiles@[j]).is_default,
{
    let n = profiles.len();
    let mut i: usize = 0;
    while i < n
        invariant
            n == profiles@.len(),
            i <= n,
            forall|j: int| 0 <= j < i ==> !(#[trigger] profiles@[j]).is_default,
        decreases n - i,
    {
        if profiles[i].is_default {
            let t = profile_to_tcc(&profiles[i]);
            assert(profiles@[i as int].is_default && tcc_profile_of(profiles@[i as int], t));
            return Some(t);
        }
        i = i + 1;
    }
    None
}

/// The TCC form of the profile active in this power state, if it exists.
pub fn active_tcc_profile(profiles: &Vec<TuxProfile>, a: &ProfileAssignments, power: PowerState) -> (r:
    Option<TccProfile>)
    ensures
        r is None <==> !has_id(profiles@, assigned_id(*a, power)),
        r matches Some(t) ==> exists|i: int|
            0 <= i < profiles@.len() && profiles@[i].id@ == assigned_id(*a, power) && tcc_profile_of(
                profiles@[i],
                t,
            ),
{
    let id = active_profile_id(a, power);
    match find_profile_by_id(profiles, id.as_str()) {
        Some(i) => Some(profile_to_tcc(&profiles[i])),
        None => None,
    }
}

/// Activate, for the current power state, the first profile with this
/// name; false when no profile has it.
pub fn set_temp_profile(
    a: &mut ProfileAssignments,
    profiles: &Vec<TuxProfile>,
    power: PowerState,
    name: &str,
) -> (r: bool)
    ensures
        r == has_name(profiles@, name@),
        !r ==> *final(a) == *old(a),
        r ==> exists|i: int|
            0 <= i < profiles@.len() && profiles@[i].name@ == name@ && assigned_id(*final(a), power)
                == profiles@[i].id@,
        forall|other: PowerState| other != power ==> assigned_id(*final(a), other) == assigned_id(*old(a), other),
{
    match find_profile_by_name(profiles, name) {
        Some(i) => {
            assign_profile(a, power, profiles[i].id.as_str());
            true
        },
        None => false,
    }
}

/// Activate, for the current power state, the profile with this ID; false
/// when no profile has it.
pub fn set_temp_profile_by_id(
    a: &mut ProfileAssignments,
    profiles: &Vec<TuxProfile>,
    power: PowerState,
    id: &str,
) -> (r: bool)
    ensures
        r == has_id(profiles@, id@),
        !r ==> *final(a) == *old(a),
        r ==> assigned_id(*final(a), power) == id@,
        forall|other: PowerState| other != power ==> assigned_id(*final(a), other) == assigned_id(*old(a), other),
{
    if find_profile_by_id(profiles, id).is_none() {
        return false;
    }
    assign_profile(a, power, id);
    true
}

/// The profile assignment as TCC's state map.
pub fn state_map(a: &ProfileAssignments) -> (r: TccStateMap)
    ensures
        r.power_ac@ == a.ac_profile@,
        r.power_bat@ == a.battery_profile@,
{
    TccStateMap { power_ac: a.ac_profile.clone(), power_bat: a.battery_profile.clone() }
}

/// The keyboard capabilities TCC is told of: two modes, full 8-bit ranges,
/// and the zones of the first keyboard; none without a keyboard.
pub fn keyboard_capabilities<K: KeyboardLed>(keyboards: &Vec<K>) -> (r: Option<TccKeyboardCapabilities>)
    ensures
        r is None <==> keyboards@.len() == 0,
        r matches Some(c) ==> c.modes@ == seq![0i32, 1i32] && 0 <= c.zones <= 255 && c.max_brightness == 255
            && c.max_red == 255 && c.max_green == 255 && c.max_blue == 255,
{
    if keyboards.len() == 0 {
        return None;
    }
    let zones = keyboards[0].zone_count();
    let modes: Vec<i32> = vec![0, 1];
    assert(modes@ =~= seq![0i32, 1i32]);
    Some(
        TccKeyboardCapabilities {
            modes,
            zones: zones as i32,
            max_brightness: 255,
            max_red: 255,
            max_green: 255,
            max_blue: 255,
        },
    )
}

/// A value clamped to 0..=255.
pub open spec fn clamp_byte_spec(v: i32) -> u8 {
    if v < 0 {
        0
    } else if v > 255 {
        255
    } else {
        v as u8
    }
}

/// A value clamped to 0..=255.
pub fn clamp_byte(v: i32) -> (r: u8)
    ensures
        r == clamp_byte_spec(v),
{
    if v < 0 {
        0
    } else if v > 255 {
        255
    } else {
        v as u8
    }
}

/// A value clamped to 0..=100.
pub open spec fn clamp_percent_spec(v: i32) -> u8 {
    if v < 0 {
        0
    } else if v > 100 {
        100
    } else {
        v as u8
    }
}

/// A value clamped to 0..=100.
pub fn clamp_percent(v: i32) -> (r: u8)
    ensures
        r == clamp_percent_spec(v),
{
    if v < 0 {
        0
    } else if v > 100 {
        100
    } else {
        v as u8
    }
}

/// The requests that applying TCC keyboard states makes, in order: for
/// each state its brightness and, on a keyboard with zones, the color of
/// zone 0, all values clamped to 0–255.
pub open spec fn tcc_state_requests(states: Seq<TccKeyboardBacklightState>, zoned: bool) -> Seq<LedRequest>
    decreases states.len(),
{
    if states.len() == 0 {
        Seq::empty()
    } else {
        let st = states.last();
        let brightness = LedRequest::SetBrightness(clamp_byte_spec(st.brightness));
        let color = Rgb { r: clamp_byte_spec(st.red), g: clamp_byte_spec(st.green), b: clamp_byte_spec(st.blue) };
        tcc_state_requests(states.drop_last(), zoned) + if zoned {
            seq![brightness, LedRequest::SetColor(0, color)]
        } else {
            seq![brightness]
        }
    }
}

/// Apply TCC keyboard states to a keyboard, in order, then flush it (see
/// `tcc_state_requests`). Failures are ignored.
pub fn apply_keyboard_states<K: KeyboardLed>(kb: &mut K, states: &Vec<TccKeyboardBacklightState>)
    ensures
        K::obeys_led_model() ==> requests_of(final(kb).requests()) == requests_of(old(kb).requests())
            + tcc_state_requests(states@, old(kb).zones() > 0).push(LedRequest::Flush),
        K::obeys_led_model() ==> final(kb).zones() == old(kb).zones(),
{
    let ghost zoned = kb.zones() > 0;
    let ghost start = requests_of(kb.requests());
    let n = states.len();
    let mut i: usize = 0;
    assert(states@.take(0) =~= Seq::<TccKeyboardBacklightState>::empty());
    assert(start + tcc_state_requests(states@.take(0), zoned) =~= start);
    while i < n
        invariant
            n == states@.len(),
            i <= n,
            zoned == (old(kb).zones() > 0),
            start == requests_of(old(kb).requests()),
            K::obeys_led_model() ==> kb.zones() == old(kb).zones(),
            K::obeys_led_model() ==> requests_of(kb.requests()) == start + tcc_state_requests(
                states@.take(i as int),
                zoned,
            ),
        decreases n - i,
    {
        let st = states[i];
        let ghost log = kb.requests();
        let _ = kb.set_brightness(clamp_byte(st.brightness));
        proof {
            if K::obeys_led_model() {
                assert(requests_of(kb.requests()) =~= requests_of(log).push(
                    LedRequest::SetBrightness(clamp_byte_spec(st.brightness)),
                ));
            }
        }
        if kb.zone_count() > 0 {
            let color = Rgb::new(clamp_byte(st.red), clamp_byte(st.green), clamp_byte(st.blue));
            let ghost log2 = kb.requests();
            let _ = kb.set_color(0, color);
            proof {
                if K::obeys_led_model() {
                    assert(requests_of(kb.requests()) =~= requests_of(log2).push(
                        LedRequest::SetColor(0, color),
                    ));
                }
            }
        }
        proof {
            let t = states@.take(i + 1);
            assert(t.drop_last() =~= states@.take(i as int));
            assert(t.last() == st);
            if K::obeys_led_model() {
                assert(requests_of(kb.requests()) =~= start + tcc_state_requests(t, zoned));
            }
        }
        i = i + 1;
    }
    let ghost log = kb.requests();
    let _ = kb.flush();
    proof {
        assert(states@.take(n as int) =~= states@);
        if K::obeys_led_model() {
            assert(requests_of(kb.requests()) =~= requests_of(log).push(LedRequest::Flush));
        }
    }
}

/// A threshold read as TCC reports it: the value read, or `fallback` when
/// the read failed.
pub open spec fn tcc_threshold_spec(read: Result<u8, IoError>, fallback: i32) -> i32 {
    match read {
        Ok(v) => v as i32,
        Err(_) => fallback,
    }
}

/// A threshold read as TCC reports it; see `tcc_threshold_spec`.
pub fn tcc_threshold(read: Result<u8, IoError>, fallback: i32) -> (r: i32)
    ensures
        r == tcc_threshold_spec(read, fallback),
{
    match read {
        Ok(v) => v as i32,
        Err(_) => fallback,
    }
}

/// The start threshold for TCC: 0 without a backend or when reading fails.
pub fn charge_start_threshold<C: ChargingBackend>(c: &Option<C>) -> (r: i32)
    ensures
        c is None ==> r == 0,
        0 <= r <= 255,
        C::obeys_charging_model() && c is Some ==> exists|t: Result<u8, IoError>|
            #[trigger] c->Some_0.start_outcome(t) && r == tcc_threshold_spec(t, 0),
{
    match c {
        Some(b) => {
            let t = b.get_start_threshold();
            let ghost g = t;
            let r = tcc_threshold(t, 0);
            proof {
                if C::obeys_charging_model() {
                    assert(b.start_outcome(g) && r == tcc_threshold_spec(g, 0));
                }
            }
            r
        },
        None => 0,
    }
}

/// The end threshold for TCC: 100 without a backend or when reading fails.
pub fn charge_end_threshold<C: ChargingBackend>(c: &Option<C>) -> (r: i32)
    ensures
        c is None ==> r == 100,
        0 <= r <= 255,
        C::obeys_charging_model() && c is Some ==> exists|t: Result<u8, IoError>|
            #[trigger] c->Some_0.end_outcome(t) && r == tcc_threshold_spec(t, 100),
{
    match c {
        Some(b) => {
            let t = b.get_end_threshold();
            let ghost g = t;
            let r = tcc_threshold(t, 100);
            proof {
                if C::obeys_charging_model() {
                    assert(b.end_outcome(g) && r == tcc_threshold_spec(g, 100));
                }
            }
            r
        },
        None => 100,
    }
}

/// Set the start threshold, clamped to 0–100; false without a backend or
/// on failure.
pub fn set_charge_start_threshold<C: ChargingBackend>(c: &mut Option<C>, value: i32) -> (r: bool)
    ensures
        *old(c) is None ==> !r,
        C::obeys_charging_model() ==> asked_once(*old(c), *final(c), ChargingRequest::StartThreshold(clamp_percent_spec(value)), r),
{
    match c {
        Some(b) => b.set_start_threshold(clamp_percent(value)).is_ok(),
        None => false,
    }
}

/// Set the end threshold, clamped to 0–100; false without a backend or on
/// failure.
pub fn set_charge_end_threshold<C: ChargingBackend>(c: &mut Option<C>, value: i32) -> (r: bool)
    ensures
        *old(c) is None ==> !r,
        C::obeys_charging_model() ==> asked_once(*old(c), *final(c), ChargingRequest::EndThreshold(clamp_percent_spec(value)), r),
{
    match c {
        Some(b) => b.set_end_threshold(clamp_percent(value)).is_ok(),
        None => false,
    }
}

/// A profile or priority read as TCC reports it: the value read, or the
/// empty string when there is none or the read failed.
pub open spec fn tcc_text_spec(read: Result<Option<String>, IoError>) -> Seq<char> {
    match read {
        Ok(Some(p)) => p@,
        _ => Seq::empty(),
    }
}

/// A profile or priority read as TCC reports it; see `tcc_text_spec`.
pub fn tcc_text(read: Result<Option<String>, IoError>) -> (r: String)
    ensures
        r@ == tcc_text_spec(read),
{
    match read {
        Ok(Some(p)) => p,
        _ => String::new(),
    }
}

/// The current charge profile, or the empty string when there is none or
/// it cannot be read.
pub fn current_charging_profile<C: ChargingBackend>(c: &Option<C>) -> (r: String)
    ensures
        c is None ==> r@.len() == 0,
        C::obeys_charging_model() && c is Some ==> exists|t: Result<Option<String>, IoError>|
            #[trigger] c->Some_0.profile_outcome(t) && r@ == tcc_text_spec(t),
{
    match c {
        Some(b) => {
            let t = b.get_profile();
            let ghost g = t;
            let r = tcc_text(t);
            proof {
                if C::obeys_charging_model() {
                    assert(b.profile_outcome(g) && r@ == tcc_text_spec(g));
                }
            }
            r
        },
        None => String::new(),
    }
}

/// The current charge priority, or the empty string when there is none or
/// it cannot be read.
pub fn current_charging_priority<C: ChargingBackend>(c: &Option<C>) -> (r: String)
    ensures
        c is None ==> r@.len() == 0,
        C::obeys_charging_model() && c is Some ==> exists|t: Result<Option<String>, IoError>|
            #[trigger] c->Some_0.priority_outcome(t) && r@ == tcc_text_spec(t),
{
    match c {
        Some(b) => {
            let t = b.get_priority();
            let ghost g = t;
            let r = tcc_text(t);
            proof {
                if C::obeys_charging_model() {
                    assert(b.priority_outcome(g) && r@ == tcc_text_spec(g));
                }
            }
            r
        },
        None => String::new(),
    }
}

/// Set the charge profile; false without a backend or on failure.
pub fn set_charging_profile<C: ChargingBackend>(c: &mut Option<C>, descriptor: &str) -> (r: bool)
    ensures
        *old(c) is None ==> !r,
        C::obeys_charging_model() ==> asked_once(*old(c), *final(c), ChargingRequest::Profile(descriptor@), r),
{
    match c {
        Some(b) => b.set_profile(descriptor).is_ok(),
        None => false,
    }
}

/// Set the charge priority; false without a backend or on failure.
pub fn set_charging_priority<C: ChargingBackend>(c: &mut Option<C>, descriptor: &str) -> (r: bool)
    ensures
        *old(c) is None ==> !r,
        C::obeys_charging_model() ==> asked_once(*old(c), *final(c), ChargingRequest::Priority(descriptor@), r),
{
    match c {
        Some(b) => b.set_priority(descriptor).is_ok(),
        None => false,
    }
}

/// The thresholds TCC may choose from: 1 to 100.
pub fn available_thresholds() -> (r: Vec<i32>)
    ensures
        r@ == Seq::new(100, |i: int| (i + 1) as i32),
{
    let mut out: Vec<i32> = Vec::new();
    let mut v: i32 = 1;
    while v <= 100
        invariant
            1 <= v <= 101,
            out@ == Seq::new((v - 1) as nat, |i: int| (i + 1) as i32),
        decreases 101 - v,
    {
        out.push(v);
        v = v + 1;
        assert(out@ =~= Seq::new((v - 1) as nat, |i: int| (i + 1) as i32));
    }
    out
}

/// Read and clear a pending flag.
pub fn consume_flag(flag: &mut bool) -> (r: bool)
    ensures
        r == *old(flag),
        !*final(flag),
{
    let was = *flag;
    *flag = false;
    was
}

/// Whether the text of the `fn_lock` attribute says it is locked.
pub fn fn_lock_from_text(text: &str) -> (r: bool)
    ensures
        r == (trim_spec(text@) == "1"@),
{
    let t = trim(text);
    same_text(t.as_str(), "1")
}

/// The `fn_lock` attribute text for a lock state.
pub fn fn_lock_text(locked: bool) -> (r: &'static str)
    ensures
        r@ == (if locked {
            "1"@
        } else {
            "0"@
        }),
{
    if locked {
        "1"
    } else {
        "0"
    }
}

} // verus!
