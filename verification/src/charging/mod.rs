//! Charging threshold and profile control.
use crate::error::{IoError, IoErrorKind};
use crate::text::{concat, same_text};
use vstd::prelude::*;

verus! {

/// A request that changes a charging setting.
pub enum ChargingRequest {
    StartThreshold(u8),
    EndThreshold(u8),
    Profile(Seq<char>),
    Priority(Seq<char>),
}

/// Backend for controlling battery charging behaviour.
///
/// Two strategies exist:
/// - **Flexicharger** (Clevo): start/end thresholds as percentages (0–100%).
/// - **EC Profile+Priority** (Uniwill): named charge profiles + priority setting.
///
/// `charging_requests` is the history of the setting changes requested of
/// the backend, each with whether it succeeded; every setter adds exactly
/// its request. The `*_outcome` functions say which results a read may
/// give. These contracts bind a type only where `obeys_charging_model`
/// holds; a type that keeps the defaults (the daemon's hardware backends,
/// test doubles) promises nothing by them.
pub trait ChargingBackend {
    /// Whether this type keeps the contracts stated over the spec functions below;
    /// a type that does not say so promises nothing by them.
    closed spec fn obeys_charging_model() -> bool {
        false
    }

    /// The setting changes requested so far, in order, each with whether
    /// it succeeded.
    closed spec fn charging_requests(&self) -> Seq<(ChargingRequest, bool)> {
        arbitrary()
    }

    /// Whether `r` is a result that reading the start threshold may give.
    closed spec fn start_outcome(&self, r: Result<u8, IoError>) -> bool {
        arbitrary()
    }

    /// Whether `r` is a result that reading the end threshold may give.
    closed spec fn end_outcome(&self, r: Result<u8, IoError>) -> bool {
        arbitrary()
    }

    /// Whether `r` is a result that reading the charge profile may give.
    closed spec fn profile_outcome(&self, r: Result<Option<String>, IoError>) -> bool {
        arbitrary()
    }

    /// Whether `r` is a result that reading the charge priority may give.
    closed spec fn priority_outcome(&self, r: Result<Option<String>, IoError>) -> bool {
        arbitrary()
    }

    /// Get the start threshold (0–100%). Charging begins when battery drops below this.
    fn get_start_threshold(&self) -> (r: Result<u8, IoError>)
        ensures
            Self::obeys_charging_model() ==> (self.start_outcome(r)),
    ;

    /// Set the start threshold (0–100%).
    fn set_start_threshold(&mut self, pct: u8) -> (r: Result<(), IoError>)
        ensures
            Self::obeys_charging_model() ==> final(self).charging_requests() == old(self).charging_requests().push(
                (ChargingRequest::StartThreshold(pct), r is Ok),
            ),
    ;

    /// Get the end threshold (0–100%). Charging stops when battery reaches this.
    fn get_end_threshold(&self) -> (r: Result<u8, IoError>)
        ensures
            Self::obeys_charging_model() ==> (self.end_outcome(r)),
    ;

    /// Set the end threshold (0–100%).
    fn set_end_threshold(&mut self, pct: u8) -> (r: Result<(), IoError>)
        ensures
            Self::obeys_charging_model() ==> final(self).charging_requests() == old(self).charging_requests().push(
                (ChargingRequest::EndThreshold(pct), r is Ok),
            ),
    ;

    /// Get the current charge profile name, if applicable.
    fn get_profile(&self) -> (r: Result<Option<String>, IoError>)
        ensures
            Self::obeys_charging_model() ==> (self.profile_outcome(r)),
    ;

    /// Set the charge profile by name, if applicable.
    fn set_profile(&mut self, profile: &str) -> (r: Result<(), IoError>)
        ensures
            Self::obeys_charging_model() ==> final(self).charging_requests() == old(self).charging_requests().push(
                (ChargingRequest::Profile(profile@), r is Ok),
            ),
    ;

    /// Get the current charge priority, if applicable.
    fn get_priority(&self) -> (r: Result<Option<String>, IoError>)
        ensures
            Self::obeys_charging_model() ==> (self.priority_outcome(r)),
    ;

    /// Set the charge priority, if applicable.
    fn set_priority(&mut self, priority: &str) -> (r: Result<(), IoError>)
        ensures
            Self::obeys_charging_model() ==> final(self).charging_requests() == old(self).charging_requests().push(
                (ChargingRequest::Priority(priority@), r is Ok),
            ),
    ;
}

/// A threshold percentage capped at 100.
pub fn clamp_pct(pct: u8) -> (r: u8)
    ensures
        r == (if pct > 100 {
            100
        } else {
            pct
        }),
{
    if pct > 100 {
        100
    } else {
        pct
    }
}

/// The Uniwill charge profiles.
pub open spec fn valid_profile_spec(p: Seq<char>) -> bool {
    p == "high_capacity"@ || p == "balanced"@ || p == "stationary"@
}

/// The Uniwill charge priorities.
pub open spec fn valid_priority_spec(p: Seq<char>) -> bool {
    p == "charge_battery"@ || p == "performance"@
}

/// Check a Uniwill charge profile name.
pub fn validate_profile(profile: &str) -> (r: Result<(), IoError>)
    ensures
        r is Ok <==> valid_profile_spec(profile@),
        r matches Err(e) ==> e.kind == IoErrorKind::InvalidInput && e.message@ == "invalid charge profile '"@
            + profile@ + "', expected one of: high_capacity, balanced, stationary"@,
{
    if same_text(profile, "high_capacity") || same_text(profile, "balanced") || same_text(
        profile,
        "stationary",
    ) {
        Ok(())
    } else {
        let a = concat("invalid charge profile '", profile);
        Err(
            IoError {
                kind: IoErrorKind::InvalidInput,
                message: concat(a.as_str(), "', expected one of: high_capacity, balanced, stationary"),
            },
        )
    }
}

/// Check a Uniwill charge priority name.
pub fn validate_priority(priority: &str) -> (r: Result<(), IoError>)
    ensures
        r is Ok <==> valid_priority_spec(priority@),
        r matches Err(e) ==> e.kind == IoErrorKind::InvalidInput && e.message@ == "invalid charge priority '"@
            + priority@ + "', expected one of: charge_battery, performance"@,
{
    if same_text(priority, "charge_battery") || same_text(priority, "performance") {
        Ok(())
    } else {
        let a = concat("invalid charge priority '", priority);
        Err(
            IoError {
                kind: IoErrorKind::InvalidInput,
                message: concat(a.as_str(), "', expected one of: charge_battery, performance"),
            },
        )
    }
}

/// Whether a failed charging access is worth retrying: a generic failure
/// or an EIO (OS error 5).
pub fn is_transient_io_error(kind: IoErrorKind, os_code: Option<i32>) -> (r: bool)
    ensures
        r == (kind == IoErrorKind::Other || os_code == Some(5i32)),
{
    kind == IoErrorKind::Other || os_code == Some(5i32)
}

/// Whether the Uniwill charging attributes make a usable backend: at least
/// one of them exists and can be read.
pub fn uniwill_backend_usable(
    has_profile: bool,
    has_prio: bool,
    profile_readable: bool,
    prio_readable: bool,
) -> (r: bool)
    ensures
        r == ((has_profile && profile_readable) || (has_prio && prio_readable)),
{
    if !has_profile && !has_prio {
        false
    } else {
        (has_profile && profile_readable) || (has_prio && prio_readable)
    }
}

/// What to do after a failed hardware access.
#[derive(Debug)]
pub enum RetryDecision {
    /// A transient failure: wait this many milliseconds, then try again if
    /// attempts remain.
    Wait(u64),
    /// A lasting failure: give up with this error now.
    Fail(IoError),
}

/// A bounded number of attempts at an access that may fail transiently,
/// with a fixed pause after each transient failure.
pub struct RetryBudget {
    remaining: u32,
    delay_ms: u64,
    last_err: Option<IoError>,
}

impl RetryBudget {
    /// Attempts that are still allowed.
    pub closed spec fn remaining_spec(&self) -> nat {
        self.remaining as nat
    }

    /// The pause after a transient failure.
    pub closed spec fn delay_spec(&self) -> u64 {
        self.delay_ms
    }

    /// The kind and message of the last transient failure, if any.
    pub closed spec fn last_error_spec(&self) -> Option<(IoErrorKind, Seq<char>)> {
        match self.last_err {
            Some(e) => Some((e.kind, e.message@)),
            None => None,
        }
    }

    /// A budget of `attempts` attempts with `delay_ms` between them.
    pub fn new(attempts: u32, delay_ms: u64) -> (r: RetryBudget)
        ensures
            r.remaining_spec() == attempts,
            r.delay_spec() == delay_ms,
            r.last_error_spec() is None,
    {
        RetryBudget { remaining: attempts, delay_ms, last_err: None }
    }

    /// Whether another attempt may be made.
    pub fn attempt_allowed(&self) -> (r: bool)
        ensures
            r == (self.remaining_spec() > 0),
    {
        self.remaining > 0
    }

    /// Record a failed attempt. A transient failure uses up the attempt and
    /// asks for a pause; any other failure ends the retries with its error.
    pub fn on_failure(&mut self, e: IoError, transient: bool) -> (d: RetryDecision)
        requires
            old(self).remaining_spec() > 0,
        ensures
            final(self).delay_spec() == old(self).delay_spec(),
            transient ==> d == RetryDecision::Wait(old(self).delay_spec())
                && final(self).remaining_spec() == old(self).remaining_spec() - 1
                && final(self).last_error_spec() == Some((e.kind, e.message@)),
            !transient ==> (d matches RetryDecision::Fail(x) && x.kind == e.kind && x.message@ == e.message@)
                && final(self).remaining_spec() == old(self).remaining_spec(),
    {
        if transient {
            self.remaining = self.remaining - 1;
            self.last_err = Some(e);
            RetryDecision::Wait(self.delay_ms)
        } else {
            RetryDecision::Fail(e)
        }
    }

    /// The error to report once every attempt failed: the last transient
    /// failure, or a generic failure with `message` if there was none.
    pub fn exhausted_error(self, message: &str) -> (r: IoError)
        ensures
            self.last_error_spec() matches Some(x) ==> r.kind == x.0 && r.message@ == x.1,
            self.last_error_spec() is None ==> r.kind == IoErrorKind::Other && r.message@ == message@,
    {
        match self.last_err {
            Some(e) => e,
            None => IoError { kind: IoErrorKind::Other, message: message.to_owned() },
        }
    }
}

/// The attempts at a Uniwill charging attribute: ten, 100 ms apart.
pub fn uniwill_retry_budget() -> (r: RetryBudget)
    ensures
        r.remaining_spec() == 10,
        r.delay_spec() == 100,
        r.last_error_spec() is None,
{
    RetryBudget::new(10, 100)
}

} // verus!
