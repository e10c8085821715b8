//! Fan curves: temperature → speed interpolation, PWM conversion and the
//! EC fan-table sampling used by firmware-driven fan control.
use vstd::prelude::*;

verus! {

/// A single point on a fan curve: temperature → fan speed.
#[derive(Debug, Clone, Copy, PartialEq, Eq, Structural)]
pub struct FanCurvePoint {
    /// Temperature threshold in °C.
    pub temp: u8,
    /// Fan speed as a percentage (0–100).
    pub speed: u8,
}

/// Fan operating mode.
#[derive(Debug, Clone, Copy, PartialEq, Eq, Structural)]
pub enum FanMode {
    /// Restore hardware/firmware automatic fan control.
    Auto,
    /// User-set static PWM — daemon does not intervene.
    Manual,
    /// Poll temperature → interpolate curve → write PWM.
    CustomCurve,
}

/// Configuration for the fan curve engine.
#[derive(Debug)]
pub struct FanConfig {
    pub mode: FanMode,
    /// Minimum fan speed in percent (applied after interpolation).
    pub min_speed_percent: u8,
    /// Fan curve points (sorted by temperature ascending).
    pub curve: Vec<FanCurvePoint>,
    /// Poll interval in milliseconds when temperature is changing.
    pub active_poll_ms: u64,
    /// Poll interval in milliseconds when temperature is stable.
    pub idle_poll_ms: u64,
    /// Hysteresis in °C — skip update if temp change is smaller.
    pub hysteresis_degrees: u8,
}

/// Minimum poll interval to prevent busy-looping.
pub const MIN_POLL_MS: u64 = 10;

/// Safety fallback speed (100%) when the curve is empty or not covering a temperature.
pub const SAFETY_FALLBACK_SPEED: u8 = 100;

/// Uniwill EC PWM scale maximum.
pub const EC_PWM_MAX: u16 = 200;

/// Lowest speed value the EC accepts in its fan table.
pub const EC_MIN_SPEED: u8 = 20;

/// Number of zones in a generated EC fan table.
pub const EC_ZONE_COUNT: u8 = 16;

/// Width of one EC fan-table zone in °C.
pub const EC_ZONE_STEP: u8 = 7;

/// Upper temperature bound of the last EC fan-table zone.
pub const EC_LAST_ZONE_END: u8 = 115;

// ── Specification ────────────────────────────────────────────────────────

/// The curve's points as a sequence.
pub open spec fn points(curve: &Vec<FanCurvePoint>) -> Seq<FanCurvePoint> {
    curve@
}

/// Every speed of the curve is a percentage.
pub open spec fn speeds_are_percentages(curve: Seq<FanCurvePoint>) -> bool {
    forall|i: int| 0 <= i < curve.len() ==> #[trigger] curve[i].speed <= 100
}

/// Neighbouring points are in ascending temperature order.
pub open spec fn adjacent_sorted(curve: Seq<FanCurvePoint>) -> bool {
    forall|i: int| 0 <= i < curve.len() - 1 ==> #[trigger] curve[i].temp <= curve[i + 1].temp
}

/// Any two points are in ascending temperature order.
pub open spec fn sorted_by_temp(curve: Seq<FanCurvePoint>) -> bool {
    forall|i: int, j: int| 0 <= i <= j < curve.len() ==> curve[i].temp <= curve[j].temp
}

/// Any two points are in ascending speed order.
pub open spec fn speeds_non_decreasing(curve: Seq<FanCurvePoint>) -> bool {
    forall|i: int, j: int| 0 <= i <= j < curve.len() ==> curve[i].speed <= curve[j].speed
}

/// The first validation failure of a configuration, by the order in which
/// the checks are made; `None` when the configuration is valid.
pub open spec fn validation_error(c: FanConfig) -> Option<Seq<char>> {
    if c.active_poll_ms < MIN_POLL_MS {
        Some("active_poll_ms too low (min 10)"@)
    } else if c.idle_poll_ms < MIN_POLL_MS {
        Some("idle_poll_ms too low (min 10)"@)
    } else if c.min_speed_percent > 100 {
        Some("min_speed_percent must be 0–100"@)
    } else if !speeds_are_percentages(c.curve@) {
        Some("curve speed must be 0–100"@)
    } else if !adjacent_sorted(c.curve@) {
        Some("curve must be sorted by temperature ascending"@)
    } else {
        None
    }
}

/// A configuration that `validate` accepts.
pub open spec fn config_is_valid(c: FanConfig) -> bool {
    validation_error(c) is None
}

/// Rust's integer division of `a` by a positive `b`: rounds toward zero.
pub open spec fn trunc_div(a: int, b: int) -> int {
    if a >= 0 {
        a / b
    } else {
        -((-a) / b)
    }
}

/// `x` limited to `[lo, hi]`.
pub open spec fn clamp_int(x: int, lo: int, hi: int) -> int {
    if x < lo {
        lo
    } else if x > hi {
        hi
    } else {
        x
    }
}

/// Segment `i` (between points `i` and `i + 1`) contains `t`.
pub open spec fn segment_contains(curve: Seq<FanCurvePoint>, i: int, t: int) -> bool {
    curve[i].temp <= t <= curve[i + 1].temp
}

/// Index of the first segment at or after `from` that contains `t`, or -1.
pub open spec fn first_segment(curve: Seq<FanCurvePoint>, t: int, from: int) -> int
    decreases curve.len() - from,
{
    if from < 0 || from >= curve.len() - 1 {
        -1
    } else if segment_contains(curve, from, t) {
        from
    } else {
        first_segment(curve, t, from + 1)
    }
}

/// Linear interpolation on the segment from `lo` to `hi` at `t`, with
/// Rust's truncating division, clamped to 0–100.
pub open spec fn segment_value(lo: FanCurvePoint, hi: FanCurvePoint, t: int) -> int {
    if hi.temp == lo.temp {
        hi.speed as int
    } else {
        clamp_int(
            lo.speed + trunc_div(
                (hi.speed - lo.speed) * (t - lo.temp),
                hi.temp - lo.temp,
            ),
            0,
            100,
        )
    }
}

/// The fan speed (percent) that the curve gives at temperature `t`.
pub open spec fn interpolate_spec(curve: Seq<FanCurvePoint>, t: int) -> int {
    if curve.len() == 0 {
        SAFETY_FALLBACK_SPEED as int
    } else if t <= curve[0].temp {
        curve[0].speed as int
    } else if t >= curve[curve.len() - 1].temp {
        curve[curve.len() - 1].speed as int
    } else {
        let i = first_segment(curve, t, 0);
        if i < 0 {
            SAFETY_FALLBACK_SPEED as int
        } else {
            segment_value(curve[i], curve[i + 1], t)
        }
    }
}

/// PWM duty (0–255) for a percentage, rounded, with percentages above 100
/// treated as 100.
pub open spec fn percent_to_pwm_spec(percent: int) -> int {
    (clamp_int(percent, 0, 100) * 255 + 50) / 100
}

/// Upper temperature of EC zone `i`.
pub open spec fn zone_end(i: int) -> int {
    if i == EC_ZONE_COUNT - 1 {
        EC_LAST_ZONE_END as int
    } else {
        (i + 1) * EC_ZONE_STEP
    }
}

/// Temperature at which EC zone `i` samples the curve (the zone's midpoint).
pub open spec fn zone_sample_temp(i: int) -> int {
    i * EC_ZONE_STEP + (zone_end(i) - i * EC_ZONE_STEP) / 2
}

/// The larger of two integers.
pub open spec fn max_int(a: int, b: int) -> int {
    if a >= b {
        a
    } else {
        b
    }
}

/// Percentage → EC scale (0–200), rounded and kept to its low byte as an
/// `as u8` conversion does, then raised to the EC minimum.
pub open spec fn ec_speed(percent: int) -> int {
    max_int(((percent * EC_PWM_MAX + 50) / 100) % 256, EC_MIN_SPEED as int)
}

/// Speed of EC zone `i` for a curve and a minimum speed.
pub open spec fn zone_speed(curve: Seq<FanCurvePoint>, min_speed: int, i: int) -> int {
    ec_speed(max_int(interpolate_spec(curve, zone_sample_temp(i)), min_speed))
}

/// The EC fan table that a curve and a minimum speed give.
pub open spec fn ec_zones_spec(curve: Seq<FanCurvePoint>, min_speed: int) -> Seq<(u8, u8)> {
    if curve.len() == 0 {
        seq![(EC_LAST_ZONE_END, EC_PWM_MAX as u8)]
    } else {
        Seq::new(
            EC_ZONE_COUNT as nat,
            |i: int| (zone_end(i) as u8, zone_speed(curve, min_speed, i) as u8),
        )
    }
}

/// The default fan curve.
pub open spec fn default_curve_spec() -> Seq<FanCurvePoint> {
    seq![
        FanCurvePoint { temp: 0, speed: 0 },
        FanCurvePoint { temp: 25, speed: 10 },
        FanCurvePoint { temp: 50, speed: 30 },
        FanCurvePoint { temp: 75, speed: 70 },
        FanCurvePoint { temp: 100, speed: 100 },
    ]
}

// ── Implementation ───────────────────────────────────────────────────────

impl FanConfig {
    /// Validate the configuration, returning an error message if invalid.
    pub fn validate(&self) -> (r: Result<(), &'static str>)
        ensures
            r is Ok <==> config_is_valid(*self),
            r matches Err(msg) ==> validation_error(*self) == Some(msg@),
    {
        if self.active_poll_ms < MIN_POLL_MS {
            return Err("active_poll_ms too low (min 10)");
        }
        if self.idle_poll_ms < MIN_POLL_MS {
            return Err("idle_poll_ms too low (min 10)");
        }
        if self.min_speed_percent > 100 {
            return Err("min_speed_percent must be 0–100");
        }
        let n = self.curve.len();
        let mut i: usize = 0;
        while i < n
            invariant
                n == self.curve@.len(),
                i <= n,
                self.active_poll_ms >= MIN_POLL_MS,
                self.idle_poll_ms >= MIN_POLL_MS,
                self.min_speed_percent <= 100,
                forall|k: int| 0 <= k < i ==> #[trigger] self.curve@[k].speed <= 100,
            decreases n - i,
        {
            if self.curve[i].speed > 100 {
                assert(self.curve@[i as int].speed > 100);
                return Err("curve speed must be 0–100");
            }
            i = i + 1;
        }
        let mut j: usize = 0;
        while j + 1 < n
            invariant
                n == self.curve@.len(),
                j + 1 <= n || n == 0,
                j <= n,
                self.active_poll_ms >= MIN_POLL_MS,
                self.idle_poll_ms >= MIN_POLL_MS,
                self.min_speed_percent <= 100,
                speeds_are_percentages(self.curve@),
                forall|k: int| 0 <= k < j ==> #[trigger] self.curve@[k].temp
                    <= self.curve@[k + 1].temp,
            decreases n - j,
        {
            if self.curve[j + 1].temp < self.curve[j].temp {
                assert(!(self.curve@[j as int].temp <= self.curve@[j as int + 1].temp));
                return Err("curve must be sorted by temperature ascending");
            }
            j = j + 1;
        }
        Ok(())
    }

    /// Whether two configurations hold the same values.
    pub fn same_as(&self, other: &FanConfig) -> (r: bool)
        ensures
            r <==> (self.mode == other.mode && self.min_speed_percent == other.min_speed_percent
                && self.curve@ == other.curve@ && self.active_poll_ms == other.active_poll_ms
                && self.idle_poll_ms == other.idle_poll_ms && self.hysteresis_degrees
                == other.hysteresis_degrees),
    {
        if self.mode != other.mode || self.min_speed_percent != other.min_speed_percent
            || self.active_poll_ms != other.active_poll_ms || self.idle_poll_ms
            != other.idle_poll_ms || self.hysteresis_degrees != other.hysteresis_degrees {
            return false;
        }
        let n = self.curve.len();
        if n != other.curve.len() {
            return false;
        }
        let mut i: usize = 0;
        while i < n
            invariant
                n == self.curve@.len(),
                n == other.curve@.len(),
                i <= n,
                forall|k: int| 0 <= k < i ==> #[trigger] self.curve@[k] == other.curve@[k],
            decreases n - i,
        {
            if self.curve[i] != other.curve[i] {
                return false;
            }
            i = i + 1;
        }
        assert(self.curve@ =~= other.curve@);
        true
    }

    /// A copy of this configuration.
    pub fn duplicate(&self) -> (r: FanConfig)
        ensures
            r.mode == self.mode,
            r.min_speed_percent == self.min_speed_percent,
            r.curve@ == self.curve@,
            r.active_poll_ms == self.active_poll_ms,
            r.idle_poll_ms == self.idle_poll_ms,
            r.hysteresis_degrees == self.hysteresis_degrees,
    {
        FanConfig {
            mode: self.mode,
            min_speed_percent: self.min_speed_percent,
            curve: copy_curve(&self.curve),
            active_poll_ms: self.active_poll_ms,
            idle_poll_ms: self.idle_poll_ms,
            hysteresis_degrees: self.hysteresis_degrees,
        }
    }
}

/// A copy of a list of curve points.
pub fn copy_curve(curve: &Vec<FanCurvePoint>) -> (r: Vec<FanCurvePoint>)
    ensures
        r@ == curve@,
{
    let mut out: Vec<FanCurvePoint> = Vec::new();
    let n = curve.len();
    let mut i: usize = 0;
    while i < n
        invariant
            n == curve@.len(),
            i <= n,
            out@ == curve@.subrange(0, i as int),
        decreases n - i,
    {
        out.push(curve[i]);
        i = i + 1;
        assert(out@ =~= curve@.subrange(0, i as int));
    }
    assert(out@ =~= curve@);
    out
}

/// The default fan curve.
pub fn default_curve() -> (r: Vec<FanCurvePoint>)
    ensures
        r@ == default_curve_spec(),
{
    let r = vec![
        FanCurvePoint { temp: 0, speed: 0 },
        FanCurvePoint { temp: 25, speed: 10 },
        FanCurvePoint { temp: 50, speed: 30 },
        FanCurvePoint { temp: 75, speed: 70 },
        FanCurvePoint { temp: 100, speed: 100 },
    ];
    assert(r@ =~= default_curve_spec());
    r
}

impl Default for FanConfig {
    fn default() -> (r: FanConfig)
        ensures
            r.mode == FanMode::CustomCurve,
            r.min_speed_percent == 25,
            r.curve@ == default_curve_spec(),
            r.active_poll_ms == 2000,
            r.idle_poll_ms == 1000,
            r.hysteresis_degrees == 3,
    {
        FanConfig {
            mode: FanMode::CustomCurve,
            min_speed_percent: 25,
            curve: default_curve(),
            active_poll_ms: 2000,
            idle_poll_ms: 1000,
            hysteresis_degrees: 3,
        }
    }
}

/// A share `b / c` (at most one) of `a` is at most `a`.
proof fn lemma_scaled_le(a: int, b: int, c: int)
    requires
        0 <= a,
        0 <= b <= c,
        c > 0,
    ensures
        0 <= (a * b) / c <= a,
{
    assert(a * b <= c * a) by (nonlinear_arith)
        requires
            0 <= a,
            b <= c,
    ;
    assert(0 <= a * b) by (nonlinear_arith)
        requires
            0 <= a,
            0 <= b,
    ;
    vstd::arithmetic::div_mod::lemma_div_is_ordered(a * b, c * a, c);
    vstd::arithmetic::div_mod::lemma_div_multiples_vanish(a, c);
    vstd::arithmetic::div_mod::lemma_div_pos_is_pos(a * b, c);
}

/// Value of the segment from `lo` to `hi` at `temp`, for `lo.temp <= temp <= hi.temp`.
fn segment_at(lo: FanCurvePoint, hi: FanCurvePoint, temp: u8) -> (r: u8)
    requires
        lo.temp <= temp <= hi.temp,
    ensures
        r as int == segment_value(lo, hi, temp as int),
{
    if hi.temp == lo.temp {
        return hi.speed;
    }
    let dt: u32 = (hi.temp - lo.temp) as u32;
    let off: u32 = (temp - lo.temp) as u32;
    if hi.speed >= lo.speed {
        let ds: u32 = (hi.speed - lo.speed) as u32;
        assert(ds * off <= 255 * 255) by (nonlinear_arith)
            requires
                ds <= 255,
                off <= 255,
        ;
        let q: u32 = ds * off / dt;
        proof {
            lemma_scaled_le(ds as int, off as int, dt as int);
        }
        let v: u32 = lo.speed as u32 + q;
        if v > 100 {
            100
        } else {
            v as u8
        }
    } else {
        let ds: u32 = (lo.speed - hi.speed) as u32;
        assert(ds * off <= 255 * 255) by (nonlinear_arith)
            requires
                ds <= 255,
                off <= 255,
        ;
        let q: u32 = ds * off / dt;
        proof {
            lemma_scaled_le(ds as int, off as int, dt as int);
        }
        assert((hi.speed - lo.speed) * (temp - lo.temp) == -(ds * off)) by (nonlinear_arith)
            requires
                ds == lo.speed - hi.speed,
                off == temp - lo.temp,
        ;
        let v: u32 = lo.speed as u32 - q;
        if v > 100 {
            100
        } else {
            v as u8
        }
    }
}

/// Linear interpolation between curve points.
///
/// - Below the first point → first point's speed.
/// - Above the last point  → last point's speed.
/// - Empty curve → 100 (safety fallback).
/// - Points are assumed sorted by `temp` ascending.
pub fn interpolate(curve: &[FanCurvePoint], temp: u8) -> (r: u8)
    ensures
        r as int == interpolate_spec(curve@, temp as int),
{
    let n = curve.len();
    if n == 0 {
        return SAFETY_FALLBACK_SPEED;
    }
    if temp <= curve[0].temp {
        return curve[0].speed;
    }
    if temp >= curve[n - 1].temp {
        return curve[n - 1].speed;
    }
    let mut i: usize = 0;
    while i + 1 < n
        invariant
            n == curve@.len(),
            n >= 1,
            i + 1 <= n,
            curve@[0].temp < temp < curve@[n - 1].temp,
            first_segment(curve@, temp as int, 0) == first_segment(curve@, temp as int, i as int),
        decreases n - i,
    {
        let lo = curve[i];
        let hi = curve[i + 1];
        if temp >= lo.temp && temp <= hi.temp {
            assert(first_segment(curve@, temp as int, i as int) == i as int);
            return segment_at(lo, hi, temp);
        }
        i = i + 1;
    }
    SAFETY_FALLBACK_SPEED
}

/// Convert a percentage (0–100) to a PWM value (0–255).
pub fn percent_to_pwm(percent: u8) -> (r: u8)
    ensures
        r as int == percent_to_pwm_spec(percent as int),
{
    let p: u16 = if percent > 100 { 100 } else { percent as u16 };
    ((p * 255 + 50) / 100) as u8
}

/// Convert a fan curve + min_speed into EC fan table zones.
///
/// Samples the interpolated curve at regular temperature intervals to
/// generate 16 `(end_temp, ec_speed)` zones suitable for programming the
/// Uniwill EC's native fan table.
pub fn curve_to_ec_zones(curve: &[FanCurvePoint], min_speed_percent: u8) -> (r: Vec<(u8, u8)>)
    ensures
        r@ == ec_zones_spec(curve@, min_speed_percent as int),
{
    if curve.len() == 0 {
        let r = vec![(EC_LAST_ZONE_END, EC_PWM_MAX as u8)];
        assert(r@ =~= ec_zones_spec(curve@, min_speed_percent as int));
        return r;
    }
    let mut zones: Vec<(u8, u8)> = Vec::new();
    let mut i: u8 = 0;
    while i < EC_ZONE_COUNT
        invariant
            curve@.len() > 0,
            i <= EC_ZONE_COUNT,
            zones@.len() == i,
            forall|k: int| 0 <= k < i ==> #[trigger] zones@[k] == (zone_end(k) as u8, zone_speed(curve@, min_speed_percent as int, k) as u8),
        decreases EC_ZONE_COUNT - i,
    {
        let end_temp: u8 = if i == EC_ZONE_COUNT - 1 {
            EC_LAST_ZONE_END
        } else {
            (i + 1) * EC_ZONE_STEP
        };
        let start_temp: u8 = i * EC_ZONE_STEP;
        let mid_temp: u8 = start_temp + (end_temp - start_temp) / 2;
        let interp = interpolate(curve, mid_temp);
        let speed_pct: u8 = if interp >= min_speed_percent { interp } else { min_speed_percent };
        let wide: u16 = (speed_pct as u16 * EC_PWM_MAX + 50) / 100;
        let ec: u8 = (wide % 256) as u8;
        let ec: u8 = if ec >= EC_MIN_SPEED { ec } else { EC_MIN_SPEED };
        zones.push((end_temp, ec));
        i = i + 1;
    }
    assert(zones@ =~= ec_zones_spec(curve@, min_speed_percent as int));
    zones
}


// ── Laws ─────────────────────────────────────────────────────────────────

/// Scanning for a segment from `from` returns -1 or an index `r >= from`
/// whose segment contains `t`, and no segment in `[from, r)` contains `t`.
pub proof fn lemma_first_segment_is_first(curve: Seq<FanCurvePoint>, t: int, from: int)
    requires
        0 <= from,
    ensures
        first_segment(curve, t, from) == -1 || (from <= first_segment(curve, t, from) < curve.len() - 1
            && segment_contains(curve, first_segment(curve, t, from), t)),
        forall|k: int|
            from <= k < (if first_segment(curve, t, from) == -1 {
                curve.len() - 1
            } else {
                first_segment(curve, t, from)
            }) ==> !#[trigger] segment_contains(curve, k, t),
    decreases curve.len() - from,
{
    if from >= curve.len() - 1 {
    } else if segment_contains(curve, from, t) {
    } else {
        lemma_first_segment_is_first(curve, t, from + 1);
    }
}

/// On a curve sorted by temperature, a temperature between the first and the
/// last point lies in some segment.
pub proof fn lemma_first_segment_exists(curve: Seq<FanCurvePoint>, t: int, from: int)
    requires
        sorted_by_temp(curve),
        0 <= from < curve.len() - 1,
        curve[from].temp <= t <= curve[curve.len() - 1].temp,
    ensures
        from <= first_segment(curve, t, from) < curve.len() - 1,
        segment_contains(curve, first_segment(curve, t, from), t),
    decreases curve.len() - from,
{
    if segment_contains(curve, from, t) {
    } else {
        assert(t > curve[from + 1].temp);
        if from + 1 == curve.len() - 1 {
        } else {
            lemma_first_segment_exists(curve, t, from + 1);
        }
    }
}

/// On a segment whose speeds are non-decreasing percentages, the value lies
/// between the two speeds.
pub proof fn lemma_segment_value_between(lo: FanCurvePoint, hi: FanCurvePoint, t: int)
    requires
        lo.temp <= t <= hi.temp,
        lo.speed <= hi.speed <= 100,
    ensures
        lo.speed <= segment_value(lo, hi, t) <= hi.speed,
{
    if hi.temp != lo.temp {
        lemma_scaled_le(hi.speed - lo.speed, t - lo.temp, hi.temp - lo.temp);
    }
}

/// On a segment whose speeds are non-decreasing percentages, the value does
/// not fall as the temperature rises.
pub proof fn lemma_segment_value_monotone(lo: FanCurvePoint, hi: FanCurvePoint, t1: int, t2: int)
    requires
        lo.temp <= t1 <= t2 <= hi.temp,
        lo.speed <= hi.speed <= 100,
    ensures
        segment_value(lo, hi, t1) <= segment_value(lo, hi, t2),
{
    lemma_segment_value_between(lo, hi, t1);
    lemma_segment_value_between(lo, hi, t2);
    if hi.temp != lo.temp {
        let ds = hi.speed - lo.speed;
        assert(ds * (t1 - lo.temp) <= ds * (t2 - lo.temp)) by (nonlinear_arith)
            requires
                ds >= 0,
                t1 <= t2,
        ;
        assert(0 <= ds * (t1 - lo.temp)) by (nonlinear_arith)
            requires
                ds >= 0,
                t1 >= lo.temp,
        ;
        vstd::arithmetic::div_mod::lemma_div_is_ordered(
            ds * (t1 - lo.temp),
            ds * (t2 - lo.temp),
            hi.temp - lo.temp,
        );
    }
}

/// Law: when every speed of the curve is a percentage, so is the
/// interpolated speed at any temperature.
pub proof fn law_interpolate_is_percentage(curve: Seq<FanCurvePoint>, t: int)
    requires
        speeds_are_percentages(curve),
    ensures
        0 <= interpolate_spec(curve, t) <= 100,
{
    if curve.len() > 0 && t > curve[0].temp && t < curve[curve.len() - 1].temp {
        let i = first_segment(curve, t, 0);
        lemma_first_segment_is_first(curve, t, 0);
        if i >= 0 {
            assert(curve[i].speed <= 100);
            assert(curve[i + 1].speed <= 100);
        }
    } else if curve.len() > 0 {
        assert(curve[0].speed <= 100);
        assert(curve[curve.len() - 1].speed <= 100);
    }
}

/// Where a sorted, non-decreasing curve places `t`: its value lies between
/// the first point's speed and the last point's speed, and at a temperature
/// strictly inside the curve it lies between the speeds of the segment found.
proof fn lemma_interpolate_inner(curve: Seq<FanCurvePoint>, t: int)
    requires
        sorted_by_temp(curve),
        speeds_non_decreasing(curve),
        speeds_are_percentages(curve),
        curve.len() > 0,
        curve[0].temp < t < curve[curve.len() - 1].temp,
    ensures
        0 <= first_segment(curve, t, 0) < curve.len() - 1,
        segment_contains(curve, first_segment(curve, t, 0), t),
        interpolate_spec(curve, t) == segment_value(
            curve[first_segment(curve, t, 0)],
            curve[first_segment(curve, t, 0) + 1],
            t,
        ),
        curve[first_segment(curve, t, 0)].speed <= interpolate_spec(curve, t)
            <= curve[first_segment(curve, t, 0) + 1].speed,
{
    lemma_first_segment_exists(curve, t, 0);
    let i = first_segment(curve, t, 0);
    assert(curve[i].speed <= curve[i + 1].speed);
    assert(curve[i + 1].speed <= 100);
    lemma_segment_value_between(curve[i], curve[i + 1], t);
}

/// Law: outside the curve the speed is held: at or below the first point
/// the first point's speed, at or above the last point the last point's
/// speed, and an empty curve runs the fans at full speed.
pub proof fn law_interpolate_holds_ends(curve: Seq<FanCurvePoint>, t: int)
    ensures
        curve.len() == 0 ==> interpolate_spec(curve, t) == 100,
        curve.len() > 0 && t <= curve[0].temp ==> interpolate_spec(curve, t) == curve[0].speed,
        curve.len() > 0 && t >= curve[curve.len() - 1].temp && t > curve[0].temp ==> interpolate_spec(curve, t)
            == curve[curve.len() - 1].speed,
{
}

/// Law: on a curve sorted by temperature whose speeds are non-decreasing
/// percentages, a higher temperature never gives a lower speed.
pub proof fn law_interpolate_monotone(curve: Seq<FanCurvePoint>, t1: int, t2: int)
    requires
        sorted_by_temp(curve),
        speeds_non_decreasing(curve),
        speeds_are_percentages(curve),
        t1 <= t2,
    ensures
        interpolate_spec(curve, t1) <= interpolate_spec(curve, t2),
{
    if curve.len() == 0 {
        return;
    }
    let n = curve.len();
    let first = curve[0];
    let last = curve[n - 1];
    assert(first.speed <= last.speed);
    if t1 <= first.temp {
        if t2 <= first.temp {
        } else if t2 >= last.temp {
        } else {
            lemma_interpolate_inner(curve, t2);
            let j = first_segment(curve, t2, 0);
            assert(first.speed <= curve[j].speed);
        }
    } else if t1 >= last.temp {
        assert(t2 >= last.temp);
    } else {
        lemma_interpolate_inner(curve, t1);
        let i = first_segment(curve, t1, 0);
        if t2 >= last.temp {
            assert(curve[i + 1].speed <= last.speed);
        } else {
            lemma_interpolate_inner(curve, t2);
            lemma_first_segment_is_first(curve, t1, 0);
            lemma_first_segment_is_first(curve, t2, 0);
            let j = first_segment(curve, t2, 0);
            if i == j {
                lemma_segment_value_monotone(curve[i], curve[i + 1], t1, t2);
            } else if i < j {
                assert(curve[i + 1].speed <= curve[j].speed);
            } else {
                // Segment j contains t2 but not t1, so t1 lies below it; then
                // segment i (after j) cannot contain t1.
                assert(!segment_contains(curve, j, t1));
                assert(curve[j].temp <= curve[i].temp);
                assert(false);
            }
        }
    }
}

/// Law: on a curve with strictly increasing temperatures and percentage
/// speeds, interpolating at a point's own temperature gives that point's speed.
pub proof fn law_interpolate_hits_points(curve: Seq<FanCurvePoint>, k: int)
    requires
        forall|i: int, j: int| 0 <= i < j < curve.len() ==> curve[i].temp < curve[j].temp,
        speeds_are_percentages(curve),
        0 <= k < curve.len(),
    ensures
        interpolate_spec(curve, curve[k].temp as int) == curve[k].speed,
{
    let n = curve.len();
    let t = curve[k].temp as int;
    if k == 0 || k == n - 1 {
        if k == n - 1 && k != 0 {
            assert(curve[0].temp < curve[k].temp);
        }
        return;
    }
    assert(curve[0].temp < t);
    assert(t < curve[n - 1].temp);
    lemma_first_segment_is_first(curve, t, 0);
    assert(segment_contains(curve, k - 1, t));
    let i = first_segment(curve, t, 0);
    assert(i != -1);
    if i < k - 1 {
        assert(curve[i + 1].temp < curve[k].temp);
        assert(false);
    }
    if i > k - 1 {
        assert(false);
    }
    assert(i == k - 1);
    let lo = curve[k - 1];
    let hi = curve[k];
    assert(lo.temp < hi.temp);
    let dt = hi.temp - lo.temp;
    let ds = hi.speed - lo.speed;
    if ds >= 0 {
        vstd::arithmetic::div_mod::lemma_div_multiples_vanish(ds, dt);
        assert(ds * dt == dt * ds) by (nonlinear_arith);
    } else {
        vstd::arithmetic::div_mod::lemma_div_multiples_vanish(-ds, dt);
        assert((-ds) * dt == dt * (-ds)) by (nonlinear_arith);
        assert(ds * dt == -((-ds) * dt)) by (nonlinear_arith);
    }
    assert(hi.speed <= 100);
}

/// Speeds below 101 are converted to the EC scale without wrapping, and the
/// conversion preserves order.
proof fn lemma_ec_speed_monotone(p1: int, p2: int)
    requires
        0 <= p1 <= p2 <= 100,
    ensures
        ec_speed(p1) <= ec_speed(p2),
        EC_MIN_SPEED <= ec_speed(p2) <= EC_PWM_MAX,
        ec_speed(p2) == max_int((p2 * 200 + 50) / 100, EC_MIN_SPEED as int),
{
    assert(p1 * 200 + 50 <= p2 * 200 + 50);
    vstd::arithmetic::div_mod::lemma_div_is_ordered(p1 * 200 + 50, p2 * 200 + 50, 100);
    assert((p2 * 200 + 50) / 100 <= 200);
    assert(0 <= (p1 * 200 + 50) / 100);
    vstd::arithmetic::div_mod::lemma_small_mod(((p1 * 200 + 50) / 100) as nat, 256);
    vstd::arithmetic::div_mod::lemma_small_mod(((p2 * 200 + 50) / 100) as nat, 256);
}

/// Law: for a non-empty curve of percentage speeds and a minimum speed of
/// at most 100%, every zone of the EC fan table has a speed between the EC
/// minimum (20) and the EC maximum (200), at least the minimum speed's EC
/// value, and zone temperatures rise from zone to zone.
pub proof fn law_ec_zones_in_range(curve: Seq<FanCurvePoint>, min_speed: int, i: int)
    requires
        curve.len() > 0,
        speeds_are_percentages(curve),
        0 <= min_speed <= 100,
        0 <= i < EC_ZONE_COUNT,
    ensures
        EC_MIN_SPEED <= ec_zones_spec(curve, min_speed)[i].1 <= EC_PWM_MAX,
        ec_zones_spec(curve, min_speed)[i].1 >= ec_speed(min_speed),
        ec_zones_spec(curve, min_speed).len() == EC_ZONE_COUNT,
        i + 1 < EC_ZONE_COUNT ==> ec_zones_spec(curve, min_speed)[i].0 < ec_zones_spec(
            curve,
            min_speed,
        )[i + 1].0,
        ec_zones_spec(curve, min_speed)[EC_ZONE_COUNT - 1].0 == EC_LAST_ZONE_END,
{
    law_interpolate_is_percentage(curve, zone_sample_temp(i));
    let p = max_int(interpolate_spec(curve, zone_sample_temp(i)), min_speed);
    lemma_ec_speed_monotone(min_speed, p);
}

/// Law: for a curve sorted by temperature with non-decreasing percentage
/// speeds, the EC fan table's speeds never fall from one zone to the next.
pub proof fn law_ec_zones_non_decreasing(curve: Seq<FanCurvePoint>, min_speed: int, i: int)
    requires
        curve.len() > 0,
        sorted_by_temp(curve),
        speeds_non_decreasing(curve),
        speeds_are_percentages(curve),
        0 <= min_speed <= 100,
        0 <= i < EC_ZONE_COUNT - 1,
    ensures
        ec_zones_spec(curve, min_speed)[i].1 <= ec_zones_spec(curve, min_speed)[i + 1].1,
{
    let t1 = zone_sample_temp(i);
    let t2 = zone_sample_temp(i + 1);
    assert(t1 <= t2);
    law_interpolate_monotone(curve, t1, t2);
    law_interpolate_is_percentage(curve, t1);
    law_interpolate_is_percentage(curve, t2);
    let p1 = max_int(interpolate_spec(curve, t1), min_speed);
    let p2 = max_int(interpolate_spec(curve, t2), min_speed);
    lemma_ec_speed_monotone(p1, p2);
}

/// Law: `validate` accepts every configuration whose curve it accepts, and
/// an accepted curve is sorted by temperature between any two points.
pub proof fn law_valid_curve_is_sorted(c: FanConfig)
    requires
        config_is_valid(c),
    ensures
        sorted_by_temp(c.curve@),
        speeds_are_percentages(c.curve@),
{
    lemma_adjacent_sorted_implies_sorted(c.curve@);
}

/// Adjacent order implies pairwise order.
pub proof fn lemma_adjacent_sorted_implies_sorted(curve: Seq<FanCurvePoint>)
    requires
        adjacent_sorted(curve),
    ensures
        sorted_by_temp(curve),
{
    assert forall|i: int, j: int| 0 <= i <= j < curve.len() implies curve[i].temp
        <= curve[j].temp by {
        lemma_adjacent_chain(curve, i, j);
    }
}

proof fn lemma_adjacent_chain(curve: Seq<FanCurvePoint>, i: int, j: int)
    requires
        adjacent_sorted(curve),
        0 <= i <= j < curve.len(),
    ensures
        curve[i].temp <= curve[j].temp,
    decreases j - i,
{
    if i < j {
        lemma_adjacent_chain(curve, i, j - 1);
        assert(curve[j - 1].temp <= curve[j].temp);
    }
}

/// Law: PWM conversion maps 0% to 0, 100% to 255, stays within 0–255 and
/// preserves order.
pub proof fn law_percent_to_pwm(p1: int, p2: int)
    requires
        0 <= p1 <= p2 <= 255,
    ensures
        percent_to_pwm_spec(0) == 0,
        percent_to_pwm_spec(100) == 255,
        0 <= percent_to_pwm_spec(p1) <= percent_to_pwm_spec(p2) <= 255,
{
    let c1 = clamp_int(p1, 0, 100);
    let c2 = clamp_int(p2, 0, 100);
    vstd::arithmetic::div_mod::lemma_div_is_ordered(c1 * 255 + 50, c2 * 255 + 50, 100);
    vstd::arithmetic::div_mod::lemma_div_is_ordered(c2 * 255 + 50, 25550int, 100);
}

/// Law: every zone of the EC fan table takes its speed from the curve at a
/// temperature inside that zone, from its start `7 * i` to its end, raised
/// to the minimum speed.
pub proof fn law_ec_zone_samples_its_own_zone(curve: Seq<FanCurvePoint>, min_speed: int, i: int)
    requires
        curve.len() > 0,
        0 <= i < EC_ZONE_COUNT,
    ensures
        exists|t: int|
            i * EC_ZONE_STEP <= t <= ec_zones_spec(curve, min_speed)[i].0 && ec_zones_spec(curve, min_speed)[i].1
                == ec_speed(max_int(#[trigger] interpolate_spec(curve, t), min_speed)) as u8,
{
    let t = zone_sample_temp(i);
    assert(i * EC_ZONE_STEP <= t <= zone_end(i));
    assert(ec_zones_spec(curve, min_speed)[i].0 == zone_end(i) as u8);
    assert(ec_zones_spec(curve, min_speed)[i].1 == ec_speed(max_int(interpolate_spec(curve, t), min_speed)) as u8);
}

} // verus!
