//! The Fan interface: fan speed and temperature readings, fan mode
//! requests and the fan engine's health.
use crate::backend::fan::FanBackend;
use crate::dbus::{failed, BusError};
use crate::dbus_types::{FanHealthResponse, FanInfoResponse};
use crate::error::{IoError, IoErrorKind};
use crate::fan_curve::FanMode;
use crate::text::{concat, same_text};
use vstd::prelude::*;

verus! {

/// Approximate maximum fan speed reported for every platform, in RPM.
pub const MAX_RPM: u32 = 6000;

/// A fan index as the backend takes it; indices above 255 are invalid.
pub fn check_fan_index(fan_index: u32) -> (r: Result<u8, BusError>)
    ensures
        fan_index <= 255 ==> r == Ok::<u8, BusError>(fan_index as u8),
        fan_index > 255 ==> (r matches Err(BusError::InvalidArgs(m)) && m@
            == "fan_index out of range"@),
{
    if fan_index <= 255 {
        Ok(fan_index as u8)
    } else {
        Err(BusError::InvalidArgs("fan_index out of range".to_owned()))
    }
}

/// A speed derived from a PWM duty (0–255) on the 0–6000 RPM scale,
/// rounded to nearest.
pub open spec fn synthetic_rpm_spec(pwm: u8) -> int {
    (pwm as int * 6000 + 127) / 255
}

/// The speed that a fan reports: its RPM when the sensor gives one,
/// otherwise a speed derived from its PWM duty.
pub open spec fn fan_speed_spec(rpm: u16, pwm: u8) -> int {
    if rpm > 0 {
        rpm as int
    } else {
        synthetic_rpm_spec(pwm)
    }
}

/// A speed derived from a PWM duty (0–255) on the 0–6000 RPM scale.
pub fn synthetic_rpm(pwm: u8) -> (r: u32)
    ensures
        r == synthetic_rpm_spec(pwm),
        r <= MAX_RPM,
{
    (pwm as u32 * MAX_RPM + 127) / 255
}

/// The speed that a fan reports from its RPM and PWM readings.
pub fn fan_speed_from(rpm: u16, pwm: u8) -> (r: u32)
    ensures
        r == fan_speed_spec(rpm, pwm),
{
    if rpm > 0 {
        rpm as u32
    } else {
        synthetic_rpm(pwm)
    }
}

/// An RPM reading: a backend without an RPM counter reads 0; other
/// failures fail the call.
pub fn rpm_reading(reading: Result<u16, IoError>) -> (r: Result<u16, BusError>)
    ensures
        reading matches Ok(v) ==> r == Ok::<u16, BusError>(v),
        reading matches Err(e) ==> (if e.kind == IoErrorKind::Unsupported {
            r == Ok::<u16, BusError>(0)
        } else {
            r matches Err(x) && crate::dbus::is_failed_with(x, e.message@)
        }),
{
    match reading {
        Ok(v) => Ok(v),
        Err(e) => if e.kind == IoErrorKind::Unsupported {
            Ok(0)
        } else {
            Err(failed(e))
        },
    }
}

/// Whether an RPM reading settles the speed request without a PWM read:
/// a positive RPM, or a failure other than a missing RPM counter.
pub open spec fn rpm_settles(rpm: Result<u16, IoError>) -> bool {
    match rpm {
        Ok(v) => v > 0,
        Err(e) => e.kind != IoErrorKind::Unsupported,
    }
}

/// `r` answers with the speed `v`.
pub open spec fn answers_speed(r: Result<u32, BusError>, v: int) -> bool {
    r matches Ok(x) && x == v
}

/// `r` is the failure of a read that gave `e`.
pub open spec fn answers_failure<T>(r: Result<T, BusError>, e: IoError) -> bool {
    r matches Err(x) && crate::dbus::is_failed_with(x, e.message@)
}

/// The answer to a speed request settled by the RPM reading.
pub open spec fn speed_from_rpm(r: Result<u32, BusError>, rpm: Result<u16, IoError>) -> bool {
    match rpm {
        Ok(v) => answers_speed(r, v as int),
        Err(e) => answers_failure(r, e),
    }
}

/// The answer to a speed request when the RPM is 0 or unknown: the speed
/// derived from the PWM reading.
pub open spec fn speed_from_pwm(r: Result<u32, BusError>, pwm: Result<u8, IoError>) -> bool {
    match pwm {
        Ok(p) => answers_speed(r, synthetic_rpm_spec(p)),
        Err(e) => answers_failure(r, e),
    }
}

/// Read a fan's speed: its RPM if available, otherwise a speed derived
/// from its PWM duty.
pub fn get_fan_speed<B: FanBackend>(backend: &B, fan_index: u32) -> (r: Result<u32, BusError>)
    ensures
        fan_index > 255 ==> (r matches Err(BusError::InvalidArgs(m)) && m@
            == "fan_index out of range"@),
        B::obeys_fan_model() && fan_index <= 255 ==> exists|rpm: Result<u16, IoError>|
            #[trigger] backend.rpm_outcome(fan_index as u8, rpm) && if rpm_settles(rpm) {
                speed_from_rpm(r, rpm)
            } else {
                exists|pwm: Result<u8, IoError>|
                    #[trigger] backend.pwm_outcome(fan_index as u8, pwm) && speed_from_pwm(r, pwm)
            },
        r matches Ok(v) ==> v <= u16::MAX,
{
    let idx = match check_fan_index(fan_index) {
        Ok(i) => i,
        Err(e) => return Err(e),
    };
    let raw = backend.read_fan_rpm(idx);
    let ghost g_rpm = raw;
    let rpm = match rpm_reading(raw) {
        Ok(r) => r,
        Err(e) => {
            assert(speed_from_rpm(Err(e), g_rpm));
            return Err(e);
        },
    };
    if rpm > 0 {
        assert(speed_from_rpm(Ok(rpm as u32), g_rpm));
        return Ok(rpm as u32);
    }
    let pr = backend.read_pwm(idx);
    let ghost g_pwm = pr;
    let r = match pr {
        Ok(pwm) => Ok(fan_speed_from(rpm, pwm)),
        Err(e) => Err(failed(e)),
    };
    assert(speed_from_pwm(r, g_pwm));
    r
}

/// A temperature in °C as millidegrees.
pub fn millidegrees(celsius: u8) -> (r: i32)
    ensures
        r == celsius as int * 1000,
{
    celsius as i32 * 1000
}

/// `r` answers a temperature request from the reading `t`: the reading
/// in millidegrees, or its failure.
pub open spec fn temperature_from(r: Result<i32, BusError>, t: Result<u8, IoError>) -> bool {
    match t {
        Ok(c) => r matches Ok(v) && v == c as int * 1000,
        Err(e) => answers_failure(r, e),
    }
}

/// Read the CPU temperature in millidegrees Celsius; only sensor 0 (CPU)
/// exists.
pub fn get_temperature<B: FanBackend>(backend: &B, sensor_index: u32) -> (r: Result<i32, BusError>)
    ensures
        sensor_index > 0 ==> (r matches Err(BusError::InvalidArgs(m)) && m@
            == "only sensor_index 0 (CPU) is supported"@),
        B::obeys_fan_model() && sensor_index == 0 ==> exists|t: Result<u8, IoError>|
            #[trigger] backend.temp_outcome(t) && temperature_from(r, t),
        r matches Ok(v) ==> 0 <= v <= 255000 && v % 1000 == 0,
{
    if sensor_index > 0 {
        return Err(BusError::InvalidArgs("only sensor_index 0 (CPU) is supported".to_owned()));
    }
    let t = backend.read_temp();
    let ghost g = t;
    let r = match t {
        Ok(c) => Ok(millidegrees(c)),
        Err(e) => Err(failed(e)),
    };
    assert(temperature_from(r, g));
    r
}

/// Fan hardware info: 6000 RPM maximum, 0 minimum, and the fan count.
pub fn fan_info(num_fans: u8) -> (r: FanInfoResponse)
    ensures
        r == (FanInfoResponse {
            max_rpm: 6000,
            min_rpm: 0,
            multi_fan: num_fans > 1,
            num_fans,
        }),
{
    FanInfoResponse { max_rpm: MAX_RPM, min_rpm: 0, multi_fan: num_fans > 1, num_fans }
}

/// The fan mode that a mode name requests.
pub open spec fn fan_mode_spec(mode: Seq<char>) -> Option<FanMode> {
    if mode == "auto"@ {
        Some(FanMode::Auto)
    } else if mode == "manual"@ {
        Some(FanMode::Manual)
    } else if mode == "custom"@ || mode == "custom-curve"@ {
        Some(FanMode::CustomCurve)
    } else {
        None
    }
}

/// Parse a fan mode name: "auto", "manual", "custom" or "custom-curve".
pub fn parse_fan_mode(mode: &str) -> (r: Result<FanMode, BusError>)
    ensures
        fan_mode_spec(mode@) matches Some(m) ==> r == Ok::<FanMode, BusError>(m),
        fan_mode_spec(mode@) is None ==> (r matches Err(BusError::InvalidArgs(m)) && m@
            == "unknown mode: "@ + mode@),
{
    if same_text(mode, "auto") {
        Ok(FanMode::Auto)
    } else if same_text(mode, "manual") {
        Ok(FanMode::Manual)
    } else if same_text(mode, "custom") || same_text(mode, "custom-curve") {
        Ok(FanMode::CustomCurve)
    } else {
        Err(BusError::InvalidArgs(concat("unknown mode: ", mode)))
    }
}

/// The health status for a count of consecutive failures.
pub open spec fn health_status_spec(failures: u32) -> Seq<char> {
    if failures >= 30 {
        "failed"@
    } else if failures >= 5 {
        "degraded"@
    } else {
        "ok"@
    }
}

/// Fan engine health: "ok" below 5 consecutive failures, "degraded" from
/// 5 to 29, "failed" from 30.
pub fn fan_health(failures: u32) -> (r: FanHealthResponse)
    ensures
        r.status@ == health_status_spec(failures),
        r.consecutive_failures == failures,
{
    let status = if failures >= 30 {
        "failed"
    } else if failures >= 5 {
        "degraded"
    } else {
        "ok"
    };
    FanHealthResponse { status: status.to_owned(), consecutive_failures: failures }
}

/// Record a manual PWM setpoint for fan `idx`: the list grows to cover
/// the fan, new entries holding 128, and the fan's entry becomes `pwm`.
pub fn record_manual_pwm(pwms: &mut Vec<u8>, idx: u8, pwm: u8)
    ensures
        final(pwms)@.len() == (if old(pwms)@.len() > idx as int {
            old(pwms)@.len() as int
        } else {
            idx as int + 1
        }),
        final(pwms)@[idx as int] == pwm,
        forall|i: int|
            0 <= i < final(pwms)@.len() && i != idx ==> #[trigger] final(pwms)@[i] == (if i
                < old(pwms)@.len() {
                old(pwms)@[i]
            } else {
                128u8
            }),
{
    let needed: usize = idx as usize + 1;
    while pwms.len() < needed
        invariant
            needed == idx as usize + 1,
            old(pwms)@.len() <= pwms@.len() <= (if old(pwms)@.len() > needed {
                old(pwms)@.len() as int
            } else {
                needed as int
            }),
            forall|i: int|
                0 <= i < pwms@.len() ==> #[trigger] pwms@[i] == (if i < old(pwms)@.len() {
                    old(pwms)@[i]
                } else {
                    128u8
                }),
        decreases needed - pwms.len(),
    {
        pwms.push(128);
    }
    pwms.set(idx as usize, pwm);
}

} // verus!
