//! Hardware abstraction for fan control.
use crate::error::{IoError, IoErrorKind};
use vstd::prelude::*;

verus! {

/// A request that changes how a fan is driven.
pub enum FanRequest {
    /// A PWM duty for a fan, which leaves automatic control.
    WritePwm(u8, u8),
    /// Automatic (firmware) control for a fan.
    SetAuto(u8),
}

/// Hardware abstraction for fan control.
///
/// Platform backends (Uniwill, Clevo, NB04, NB05, Tuxi) implement this trait
/// to provide fan speed control and temperature/RPM reading via their respective
/// sysfs interfaces.
///
/// `fan_requests` is the history of the requests that change how the fans
/// are driven, each with whether it succeeded; `fan_count` is the number
/// of fans, which those requests keep. `temp_outcome`, `rpm_outcome` and
/// `pwm_outcome` say which results a read may give: a reading changes with
/// time, so a read is tied to what it reads, not to one value. These
/// contracts bind a type only where `obeys_fan_model` holds: the mock
/// backend of this crate says so and defines them all; a type that keeps
/// the defaults (the daemon's hardware backends, test doubles) promises
/// nothing by them.
pub trait FanBackend {
    /// Whether this type keeps the contracts stated over the spec functions below;
    /// a type that does not say so promises nothing by them.
    closed spec fn obeys_fan_model() -> bool {
        false
    }

    /// The PWM and automatic-mode requests made so far, in order, each with
    /// whether it succeeded.
    closed spec fn fan_requests(&self) -> Seq<(FanRequest, bool)> {
        arbitrary()
    }

    /// The number of fans.
    closed spec fn fan_count(&self) -> u8 {
        arbitrary()
    }

    /// Whether `r` is a result that reading the CPU temperature may give.
    closed spec fn temp_outcome(&self, r: Result<u8, IoError>) -> bool {
        arbitrary()
    }

    /// Whether `r` is a result that reading the RPM of fan `fan` may give.
    closed spec fn rpm_outcome(&self, fan: u8, r: Result<u16, IoError>) -> bool {
        arbitrary()
    }

    /// Whether `r` is a result that reading the PWM duty of fan `fan` may
    /// give.
    closed spec fn pwm_outcome(&self, fan: u8, r: Result<u8, IoError>) -> bool {
        arbitrary()
    }

    /// Read the primary CPU temperature in °C.
    fn read_temp(&self) -> (r: Result<u8, IoError>)
        ensures
            Self::obeys_fan_model() ==> (self.temp_outcome(r)),
    ;

    /// Write a PWM duty value (0–255) to a specific fan.
    fn write_pwm(&mut self, fan_index: u8, pwm: u8) -> (r: Result<(), IoError>)
        ensures
            Self::obeys_fan_model() ==> final(self).fan_requests() == old(self).fan_requests().push(
                (FanRequest::WritePwm(fan_index, pwm), r is Ok),
            ),
            Self::obeys_fan_model() ==> (final(self).fan_count() == old(self).fan_count()),
    ;

    /// Read the current PWM duty value for a specific fan.
    fn read_pwm(&self, fan_index: u8) -> (r: Result<u8, IoError>)
        ensures
            Self::obeys_fan_model() ==> (self.pwm_outcome(fan_index, r)),
    ;

    /// Restore automatic (firmware-controlled) fan mode for a specific fan.
    fn set_auto(&mut self, fan_index: u8) -> (r: Result<(), IoError>)
        ensures
            Self::obeys_fan_model() ==> final(self).fan_requests() == old(self).fan_requests().push(
                (FanRequest::SetAuto(fan_index), r is Ok),
            ),
            Self::obeys_fan_model() ==> (final(self).fan_count() == old(self).fan_count()),
    ;

    /// Read RPM for a specific fan.
    fn read_fan_rpm(&self, fan_index: u8) -> (r: Result<u16, IoError>)
        ensures
            Self::obeys_fan_model() ==> (self.rpm_outcome(fan_index, r)),
    ;

    /// Number of fans on this platform.
    fn num_fans(&self) -> (r: u8)
        ensures
            Self::obeys_fan_model() ==> (r == self.fan_count()),
    ;

    /// Whether the backend requires the engine to re-write manual PWM setpoints
    /// on every idle tick.
    ///
    /// Some EC firmware periodically restores its own stored fan table,
    /// overriding any one-shot PWM write within seconds. Backends that
    /// experience this return `true` so the engine's Manual mode loop
    /// re-applies the user's setpoint on every `idle_poll_ms` tick.
    fn requires_manual_reapply(&self) -> bool {
        false
    }

    /// Whether the backend supports programming a native EC fan table.
    ///
    /// When true, the fan engine can program the curve once and let the
    /// EC enforce it, avoiding per-tick PWM writes.
    fn supports_fan_table(&self) -> bool {
        false
    }

    /// Program the EC's native fan table with zone entries.
    ///
    /// Each entry is `(end_temp_celsius, speed_ec_scale)`. The EC maps
    /// temperature ranges to fan speeds internally — no polling needed.
    ///
    /// A backend without a fan table keeps this default, which refuses.
    fn write_fan_table(&mut self, zones: &[(u8, u8)]) -> (r: Result<(), IoError>)
        default_ensures
            r matches Err(e) && e.kind == IoErrorKind::Unsupported && e.message@
                == "fan table not supported by this backend"@,
    {
        Err(
            IoError {
                kind: IoErrorKind::Unsupported,
                message: "fan table not supported by this backend".to_owned(),
            },
        )
    }
}

} // verus!
