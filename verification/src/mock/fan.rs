//! In-memory fan backend for testing.
use crate::backend::fan::{FanBackend, FanRequest};
use crate::error::{IoError, IoErrorKind};
use crate::text::{concat, decimal, decimal_text};
use vstd::prelude::*;

verus! {

/// In-memory fan backend for testing.
pub struct MockFanBackend {
    temp: u8,
    pwm: Vec<u8>,
    rpm: Vec<u16>,
    auto_mode: Vec<bool>,
    fail_temp: bool,
    num_fans: u8,
    /// The PWM and automatic-mode requests made so far, with their outcomes.
    requests: Ghost<Seq<(FanRequest, bool)>>,
}

/// The message of an out-of-range fan index.
pub open spec fn range_error_text(fan_index: u8, num_fans: u8) -> Seq<char> {
    "fan index "@ + decimal_text(fan_index as nat) + " out of range (max "@ + decimal_text(
        num_fans as nat,
    ) + ")"@
}

/// The error of an out-of-range fan index.
pub open spec fn is_range_error(e: IoError, fan_index: u8, num_fans: u8) -> bool {
    e.kind == IoErrorKind::InvalidInput && e.message@ == range_error_text(fan_index, num_fans)
}

/// The error for an out-of-range fan index.
fn range_error(fan_index: u8, num_fans: u8) -> (e: IoError)
    ensures
        is_range_error(e, fan_index, num_fans),
{
    let a = concat("fan index ", decimal(fan_index as u64).as_str());
    let b = concat(a.as_str(), " out of range (max ");
    let c = concat(b.as_str(), decimal(num_fans as u64).as_str());
    IoError { kind: IoErrorKind::InvalidInput, message: concat(c.as_str(), ")") }
}

/// `n` copies of `v`.
fn filled<T: Copy>(n: u8, v: T) -> (r: Vec<T>)
    ensures
        r@ == Seq::new(n as nat, |i: int| v),
{
    let mut out: Vec<T> = Vec::new();
    let mut i: u8 = 0;
    while i < n
        invariant
            i <= n,
            out@ == Seq::new(i as nat, |k: int| v),
        decreases n - i,
    {
        out.push(v);
        i = i + 1;
        assert(out@ =~= Seq::new(i as nat, |k: int| v));
    }
    out
}

impl MockFanBackend {
    #[verifier::type_invariant]
    spec fn well_formed(self) -> bool {
        &&& self.pwm@.len() == self.num_fans
        &&& self.rpm@.len() == self.num_fans
        &&& self.auto_mode@.len() == self.num_fans
    }

    /// The temperature that `read_temp` reports.
    pub closed spec fn temp_spec(&self) -> u8 {
        self.temp
    }

    /// The PWM value of each fan.
    pub closed spec fn pwm_spec(&self) -> Seq<u8> {
        self.pwm@
    }

    /// The RPM of each fan.
    pub closed spec fn rpm_spec(&self) -> Seq<u16> {
        self.rpm@
    }

    /// Whether each fan is under automatic (firmware) control.
    pub closed spec fn auto_spec(&self) -> Seq<bool> {
        self.auto_mode@
    }

    /// Whether temperature reads fail.
    pub closed spec fn fails_temp(&self) -> bool {
        self.fail_temp
    }

    /// The number of fans.
    pub closed spec fn count_spec(&self) -> u8 {
        self.num_fans
    }

    /// The per-fan values hold one entry per fan.
    pub open spec fn shaped(&self) -> bool {
        &&& self.pwm_spec().len() == self.count_spec()
        &&& self.rpm_spec().len() == self.count_spec()
        &&& self.auto_spec().len() == self.count_spec()
    }

    /// `self` and `other` agree on everything but the values named by the
    /// flags; the fan count is always the same.
    pub open spec fn same_except(
        &self,
        other: &Self,
        temp: bool,
        pwm: bool,
        rpm: bool,
        auto_mode: bool,
        fail_temp: bool,
    ) -> bool {
        &&& (!temp ==> self.temp_spec() == other.temp_spec())
        &&& (!pwm ==> self.pwm_spec() == other.pwm_spec())
        &&& (!rpm ==> self.rpm_spec() == other.rpm_spec())
        &&& (!auto_mode ==> self.auto_spec() == other.auto_spec())
        &&& (!fail_temp ==> self.fails_temp() == other.fails_temp())
        &&& self.count_spec() == other.count_spec()
    }

    /// A backend with `num_fans` fans, all under automatic control at PWM 0
    /// and 0 RPM, reporting 40 °C.
    pub fn new(num_fans: u8) -> (r: Self)
        ensures
            r.count_spec() == num_fans,
            r.temp_spec() == 40,
            !r.fails_temp(),
            r.pwm_spec() == Seq::new(num_fans as nat, |i: int| 0u8),
            r.rpm_spec() == Seq::new(num_fans as nat, |i: int| 0u16),
            r.auto_spec() == Seq::new(num_fans as nat, |i: int| true),
            r.shaped(),
    {
        MockFanBackend {
            temp: 40,
            pwm: filled(num_fans, 0u8),
            rpm: filled(num_fans, 0u16),
            auto_mode: filled(num_fans, true),
            fail_temp: false,
            num_fans,
            requests: Ghost(Seq::empty()),
        }
    }

    /// Set the temperature that `read_temp` reports.
    pub fn set_temp(&mut self, temp: u8)
        ensures
            final(self).temp_spec() == temp,
            final(self).same_except(&*old(self), true, false, false, false, false),
            final(self).shaped(),
    {
        proof {
            use_type_invariant(&*self);
        }
        self.temp = temp;
    }

    /// When set to true, `read_temp()` will return an error.
    pub fn set_fail_temp(&mut self, fail: bool)
        ensures
            final(self).fails_temp() == fail,
            final(self).same_except(&*old(self), false, false, false, false, true),
            final(self).shaped(),
    {
        proof {
            use_type_invariant(&*self);
        }
        self.fail_temp = fail;
    }

    /// Set the RPM that fan `fan` reports; an unknown fan is ignored.
    pub fn set_rpm(&mut self, fan: u8, rpm: u16)
        ensures
            final(self).rpm_spec() == (if fan < old(self).count_spec() {
                old(self).rpm_spec().update(fan as int, rpm)
            } else {
                old(self).rpm_spec()
            }),
            final(self).same_except(&*old(self), false, false, true, false, false),
            final(self).shaped(),
    {
        proof {
            use_type_invariant(&*self);
        }
        if fan < self.num_fans {
            self.rpm[fan as usize] = rpm;
        }
    }

    /// Whether fan `fan` is under automatic control; `false` for an unknown
    /// fan.
    pub fn is_auto(&self, fan: u8) -> (r: bool)
        ensures
            r == (fan < self.count_spec() && self.auto_spec()[fan as int]),
            self.shaped(),
    {
        proof {
            use_type_invariant(self);
        }
        if fan < self.num_fans {
            self.auto_mode[fan as usize]
        } else {
            false
        }
    }
}

impl FanBackend for MockFanBackend {
    open spec fn obeys_fan_model() -> bool {
        true
    }

    closed spec fn fan_requests(&self) -> Seq<(FanRequest, bool)> {
        self.requests@
    }

    open spec fn fan_count(&self) -> u8 {
        self.count_spec()
    }

    open spec fn temp_outcome(&self, r: Result<u8, IoError>) -> bool {
        if self.fails_temp() {
            r matches Err(e) && e.kind == IoErrorKind::Other && e.message@ == "simulated temp read failure"@
        } else {
            r == Ok::<u8, IoError>(self.temp_spec())
        }
    }

    open spec fn pwm_outcome(&self, fan: u8, r: Result<u8, IoError>) -> bool {
        if fan < self.count_spec() {
            r == Ok::<u8, IoError>(self.pwm_spec()[fan as int])
        } else {
            r matches Err(e) && is_range_error(e, fan, self.count_spec())
        }
    }

    open spec fn rpm_outcome(&self, fan: u8, r: Result<u16, IoError>) -> bool {
        if fan < self.count_spec() {
            r == Ok::<u16, IoError>(self.rpm_spec()[fan as int])
        } else {
            r matches Err(e) && is_range_error(e, fan, self.count_spec())
        }
    }

    fn read_temp(&self) -> (r: Result<u8, IoError>)
        ensures
            self.fails_temp() ==> (r matches Err(e) && e.kind == IoErrorKind::Other && e.message@
                == "simulated temp read failure"@),
            !self.fails_temp() ==> r == Ok::<u8, IoError>(self.temp_spec()),
    {
        if self.fail_temp {
            return Err(
                IoError {
                    kind: IoErrorKind::Other,
                    message: "simulated temp read failure".to_owned(),
                },
            );
        }
        Ok(self.temp)
    }

    fn write_pwm(&mut self, fan_index: u8, pwm: u8) -> (r: Result<(), IoError>)
        ensures
            fan_index >= old(self).count_spec() ==> (r matches Err(e) && is_range_error(
                e,
                fan_index,
                old(self).count_spec(),
            ) && final(self).same_except(&*old(self), false, false, false, false, false)),
            fan_index < old(self).count_spec() ==> {
                &&& r is Ok
                &&& final(self).pwm_spec() == old(self).pwm_spec().update(fan_index as int, pwm)
                &&& final(self).auto_spec() == old(self).auto_spec().update(
                    fan_index as int,
                    false,
                )
                &&& final(self).same_except(&*old(self), false, true, false, true, false)
            },
            final(self).shaped(),
    {
        proof {
            use_type_invariant(&*self);
        }
        let ghost log = self.requests@;
        let r = if fan_index >= self.num_fans {
            Err(range_error(fan_index, self.num_fans))
        } else {
            let idx = fan_index as usize;
            self.pwm[idx] = pwm;
            self.auto_mode[idx] = false;
            Ok(())
        };
        self.requests = Ghost(log.push((FanRequest::WritePwm(fan_index, pwm), r is Ok)));
        r
    }

    fn read_pwm(&self, fan_index: u8) -> (r: Result<u8, IoError>)
        ensures
            fan_index >= self.count_spec() ==> (r matches Err(e) && is_range_error(
                e,
                fan_index,
                self.count_spec(),
            )),
            fan_index < self.count_spec() ==> r == Ok::<u8, IoError>(
                self.pwm_spec()[fan_index as int],
            ),
    {
        proof {
            use_type_invariant(self);
        }
        if fan_index >= self.num_fans {
            return Err(range_error(fan_index, self.num_fans));
        }
        Ok(self.pwm[fan_index as usize])
    }

    fn set_auto(&mut self, fan_index: u8) -> (r: Result<(), IoError>)
        ensures
            fan_index >= old(self).count_spec() ==> (r matches Err(e) && is_range_error(
                e,
                fan_index,
                old(self).count_spec(),
            ) && final(self).same_except(&*old(self), false, false, false, false, false)),
            fan_index < old(self).count_spec() ==> {
                &&& r is Ok
                &&& final(self).pwm_spec() == old(self).pwm_spec().update(fan_index as int, 0)
                &&& final(self).auto_spec() == old(self).auto_spec().update(
                    fan_index as int,
                    true,
                )
                &&& final(self).same_except(&*old(self), false, true, false, true, false)
            },
            final(self).shaped(),
    {
        proof {
            use_type_invariant(&*self);
        }
        let ghost log = self.requests@;
        let r = if fan_index >= self.num_fans {
            Err(range_error(fan_index, self.num_fans))
        } else {
            let idx = fan_index as usize;
            self.auto_mode[idx] = true;
            self.pwm[idx] = 0;
            Ok(())
        };
        self.requests = Ghost(log.push((FanRequest::SetAuto(fan_index), r is Ok)));
        r
    }

    fn read_fan_rpm(&self, fan_index: u8) -> (r: Result<u16, IoError>)
        ensures
            fan_index >= self.count_spec() ==> (r matches Err(e) && is_range_error(
                e,
                fan_index,
                self.count_spec(),
            )),
            fan_index < self.count_spec() ==> r == Ok::<u16, IoError>(
                self.rpm_spec()[fan_index as int],
            ),
    {
        proof {
            use_type_invariant(self);
        }
        if fan_index >= self.num_fans {
            return Err(range_error(fan_index, self.num_fans));
        }
        Ok(self.rpm[fan_index as usize])
    }

    fn num_fans(&self) -> (r: u8)
        ensures
            r == self.count_spec(),
            self.shaped(),
    {
        proof {
            use_type_invariant(self);
        }
        self.num_fans
    }
}

/// Law: after `set_rpm(fan, rpm)` (whose effect `before` and `after`
/// describe), reading that fan gives `rpm` when the fan exists, and reading
/// any other fan gives what it gave before.
pub proof fn law_set_rpm_reads_back(before: MockFanBackend, after: MockFanBackend, fan: u8, rpm: u16)
    requires
        before.shaped(),
        after.rpm_spec() == (if fan < before.count_spec() {
            before.rpm_spec().update(fan as int, rpm)
        } else {
            before.rpm_spec()
        }),
        after.same_except(&before, false, false, true, false, false),
    ensures
        fan < before.count_spec() ==> after.rpm_outcome(fan, Ok(rpm)),
        forall|other: u8, r: Result<u16, IoError>|
            other != fan ==> (#[trigger] after.rpm_outcome(other, r) <==> before.rpm_outcome(other, r)),
{
}

} // verus!
