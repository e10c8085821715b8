//! The Charging interface: battery thresholds and charge profile/priority,
//! with the last known settings kept for when the hardware cannot be read.
use crate::charging::{ChargingBackend, ChargingRequest, RetryBudget};
use crate::request_log::{
    lemma_plan_done, lemma_plan_start, lemma_plan_step, lemma_succeeded_push, ran_until_failure, requests_of,
    succeeded_from,
};
use crate::dbus::{failed, is_failed_with, BusError};
use crate::error::IoError;
use crate::profile::ChargingSettings;
use vstd::prelude::*;

verus! {

/// An optional text by its characters.
pub open spec fn opt_text(o: Option<String>) -> Option<Seq<char>> {
    match o {
        Some(s) => Some(s@),
        None => None,
    }
}

/// Charging settings as plain values: profile, priority, start and end
/// thresholds.
pub open spec fn charging_view(c: ChargingSettings) -> (
    Option<Seq<char>>,
    Option<Seq<char>>,
    Option<u8>,
    Option<u8>,
) {
    (opt_text(c.profile), opt_text(c.priority), c.start_threshold, c.end_threshold)
}

/// The view of settings without any value.
pub open spec fn unset_view() -> (Option<Seq<char>>, Option<Seq<char>>, Option<u8>, Option<u8>) {
    (None, None, None, None)
}

/// The settings answered after the reads: what was read if a read
/// succeeded, else the last known settings, else the configured ones, else
/// no settings.
pub open spec fn resolved_view(
    read: Option<ChargingSettings>,
    last_known: Option<(Option<Seq<char>>, Option<Seq<char>>, Option<u8>, Option<u8>)>,
    configured: Option<(Option<Seq<char>>, Option<Seq<char>>, Option<u8>, Option<u8>)>,
) -> (Option<Seq<char>>, Option<Seq<char>>, Option<u8>, Option<u8>) {
    match read {
        Some(s) => charging_view(s),
        None => match last_known {
            Some(v) => v,
            None => match configured {
                Some(v) => v,
                None => unset_view(),
            },
        },
    }
}

/// A copy of an optional text.
pub fn copy_text(o: &Option<String>) -> (r: Option<String>)
    ensures
        opt_text(r) == opt_text(*o),
{
    match o {
        Some(s) => Some(s.as_str().to_owned()),
        None => None,
    }
}

/// A copy of charging settings.
pub fn copy_charging(c: &ChargingSettings) -> (r: ChargingSettings)
    ensures
        charging_view(r) == charging_view(*c),
{
    ChargingSettings {
        profile: copy_text(&c.profile),
        priority: copy_text(&c.priority),
        start_threshold: c.start_threshold,
        end_threshold: c.end_threshold,
    }
}

/// A threshold as read from the hardware: 0 means unsupported.
pub open spec fn threshold_setting(v: u8) -> Option<u8> {
    if v > 0 {
        Some(v)
    } else {
        None
    }
}

/// The settings of one complete read of the four values.
pub fn settings_from_readings(start: u8, end: u8, profile: Option<String>, priority: Option<String>) -> (r:
    ChargingSettings)
    ensures
        charging_view(r) == (opt_text(profile), opt_text(priority), threshold_setting(start), threshold_setting(
            end,
        )),
{
    ChargingSettings {
        profile,
        priority,
        start_threshold: if start > 0 {
            Some(start)
        } else {
            None
        },
        end_threshold: if end > 0 {
            Some(end)
        } else {
            None
        },
    }
}

/// The settings read once the four readings succeeded: the profile, the
/// priority and the thresholds, where a threshold of 0 is unset.
pub open spec fn settings_read_as(
    r: Result<ChargingSettings, IoError>,
    start: u8,
    end: u8,
    profile: Option<String>,
    priority: Option<String>,
) -> bool {
    r matches Ok(s) && charging_view(s) == (opt_text(profile), opt_text(priority), threshold_setting(start),
        threshold_setting(end))
}

/// Read the start and end thresholds, the profile and the priority, in that
/// order, stopping at the first failure, whose error is returned. A
/// threshold that reads 0 is unset.
pub fn read_settings_once<B: ChargingBackend>(backend: &B) -> (r: Result<ChargingSettings, IoError>)
    ensures
        r matches Ok(s) ==> s.start_threshold != Some(0u8) && s.end_threshold != Some(0u8),
        B::obeys_charging_model() ==> exists|st: Result<u8, IoError>|
            #[trigger] backend.start_outcome(st) && match st {
                Err(e) => r == Err::<ChargingSettings, IoError>(e),
                Ok(sv) => exists|en: Result<u8, IoError>|
                    #[trigger] backend.end_outcome(en) && match en {
                        Err(e) => r == Err::<ChargingSettings, IoError>(e),
                        Ok(ev) => exists|pr: Result<Option<String>, IoError>|
                            #[trigger] backend.profile_outcome(pr) && match pr {
                                Err(e) => r == Err::<ChargingSettings, IoError>(e),
                                Ok(p) => exists|pi: Result<Option<String>, IoError>|
                                    #[trigger] backend.priority_outcome(pi) && match pi {
                                        Err(e) => r == Err::<ChargingSettings, IoError>(e),
                                        Ok(q) => settings_read_as(r, sv, ev, p, q),
                                    },
                            },
                    },
            },
{
    let a = backend.get_start_threshold();
    let ghost ga = a;
    let start = match a {
        Ok(v) => v,
        Err(e) => return Err(e),
    };
    let b = backend.get_end_threshold();
    let ghost gb = b;
    let end = match b {
        Ok(v) => v,
        Err(e) => {
            proof {
                if B::obeys_charging_model() {
                    assert(backend.start_outcome(ga));
                }
            }
            return Err(e);
        },
    };
    let c = backend.get_profile();
    let ghost gc = c;
    let profile = match c {
        Ok(v) => v,
        Err(e) => {
            proof {
                if B::obeys_charging_model() {
                    assert(backend.start_outcome(ga) && backend.end_outcome(gb));
                }
            }
            return Err(e);
        },
    };
    let d = backend.get_priority();
    let ghost gd = d;
    let priority = match d {
        Ok(v) => v,
        Err(e) => {
            proof {
                if B::obeys_charging_model() {
                    assert(backend.start_outcome(ga) && backend.end_outcome(gb) && backend.profile_outcome(gc));
                }
            }
            return Err(e);
        },
    };
    let r = Ok(settings_from_readings(start, end, profile, priority));
    proof {
        if B::obeys_charging_model() {
            assert(backend.start_outcome(ga) && backend.end_outcome(gb) && backend.profile_outcome(gc)
        && backend.priority_outcome(gd));
        }
    }
    r
}

/// How many of the four settings are given.
pub open spec fn given_count(c: ChargingSettings) -> int {
    (if c.start_threshold is Some { 1int } else { 0 }) + (if c.end_threshold is Some { 1int } else { 0 }) + (
    if c.profile is Some { 1int } else { 0 }) + (if c.priority is Some { 1int } else { 0 })
}

/// A one-request plan for an optional value.
pub open spec fn optional_request<T>(v: Option<T>, f: spec_fn(T) -> ChargingRequest) -> Seq<ChargingRequest> {
    match v {
        Some(x) => seq![f(x)],
        None => seq![],
    }
}

/// The setting changes that applying `c` requests, in order: start
/// threshold, end threshold, profile, priority, each only where given.
pub open spec fn settings_requests(c: ChargingSettings) -> Seq<ChargingRequest> {
    optional_request(c.start_threshold, |v: u8| ChargingRequest::StartThreshold(v)) + optional_request(
        c.end_threshold,
        |v: u8| ChargingRequest::EndThreshold(v),
    ) + optional_request(c.profile, |p: String| ChargingRequest::Profile(p@)) + optional_request(
        c.priority,
        |p: String| ChargingRequest::Priority(p@),
    )
}

/// Write every given setting to the backend (start threshold, end
/// threshold, profile, priority, in that order), carrying on past failures;
/// the failures, in order.
pub fn apply_settings<B: ChargingBackend>(backend: &mut B, settings: &ChargingSettings) -> (r: Vec<IoError>)
    ensures
        B::obeys_charging_model() ==> requests_of(final(backend).charging_requests()) == requests_of(
            old(backend).charging_requests(),
        ) + settings_requests(*settings),
        B::obeys_charging_model() ==> final(backend).charging_requests().subrange(
            0,
            old(backend).charging_requests().len() as int,
        ) == old(backend).charging_requests(),
        r@.len() <= given_count(*settings),
        B::obeys_charging_model() ==> (r@.len() == 0 <==> succeeded_from(
            final(backend).charging_requests(),
            old(backend).charging_requests().len() as int,
        )),
{
    let ghost before = backend.charging_requests();
    let ghost n = before.len() as int;
    let ghost p1 = optional_request(settings.start_threshold, |v: u8| ChargingRequest::StartThreshold(v));
    let ghost p2 = optional_request(settings.end_threshold, |v: u8| ChargingRequest::EndThreshold(v));
    let ghost p3 = optional_request(settings.profile, |p: String| ChargingRequest::Profile(p@));
    let ghost p4 = optional_request(settings.priority, |p: String| ChargingRequest::Priority(p@));
    let mut errs: Vec<IoError> = Vec::new();
    assert(requests_of(before) + Seq::<ChargingRequest>::empty() =~= requests_of(before));
    assert(before.subrange(0, n) =~= before);
    if let Some(start) = settings.start_threshold {
        let ghost log = backend.charging_requests();
        let res = backend.set_start_threshold(start);
        proof {
            if B::obeys_charging_model() {
                assert(requests_of(backend.charging_requests()) =~= requests_of(log).push(
                    ChargingRequest::StartThreshold(start),
                ));
                assert(backend.charging_requests().subrange(0, n) =~= log.subrange(0, n));
                lemma_succeeded_push(log, n, ChargingRequest::StartThreshold(start), res is Ok);
            }
        }
        if let Err(e) = res {
            errs.push(e);
        }
    }
    proof {
        if B::obeys_charging_model() {
            assert(requests_of(backend.charging_requests()) =~= requests_of(before) + p1);
        }
    }
    if let Some(end) = settings.end_threshold {
        let ghost log = backend.charging_requests();
        let res = backend.set_end_threshold(end);
        proof {
            if B::obeys_charging_model() {
                assert(requests_of(backend.charging_requests()) =~= requests_of(log).push(
                    ChargingRequest::EndThreshold(end),
                ));
                assert(backend.charging_requests().subrange(0, n) =~= log.subrange(0, n));
                lemma_succeeded_push(log, n, ChargingRequest::EndThreshold(end), res is Ok);
            }
        }
        if let Err(e) = res {
            errs.push(e);
        }
    }
    proof {
        if B::obeys_charging_model() {
            assert(requests_of(backend.charging_requests()) =~= requests_of(before) + p1 + p2);
        }
    }
    if let Some(profile) = &settings.profile {
        let ghost log = backend.charging_requests();
        let res = backend.set_profile(profile.as_str());
        proof {
            if B::obeys_charging_model() {
                assert(requests_of(backend.charging_requests()) =~= requests_of(log).push(
                    ChargingRequest::Profile(profile@),
                ));
                assert(backend.charging_requests().subrange(0, n) =~= log.subrange(0, n));
                lemma_succeeded_push(log, n, ChargingRequest::Profile(profile@), res is Ok);
            }
        }
        if let Err(e) = res {
            errs.push(e);
        }
    }
    proof {
        if B::obeys_charging_model() {
            assert(requests_of(backend.charging_requests()) =~= requests_of(before) + p1 + p2 + p3);
        }
    }
    if let Some(priority) = &settings.priority {
        let ghost log = backend.charging_requests();
        let res = backend.set_priority(priority.as_str());
        proof {
            if B::obeys_charging_model() {
                assert(requests_of(backend.charging_requests()) =~= requests_of(log).push(
                    ChargingRequest::Priority(priority@),
                ));
                assert(backend.charging_requests().subrange(0, n) =~= log.subrange(0, n));
                lemma_succeeded_push(log, n, ChargingRequest::Priority(priority@), res is Ok);
            }
        }
        if let Err(e) = res {
            errs.push(e);
        }
    }
    proof {
        if B::obeys_charging_model() {
            assert(requests_of(backend.charging_requests()) =~= requests_of(before) + (p1 + p2 + p3 + p4));
        }
    }
    assert(settings_requests(*settings) == p1 + p2 + p3 + p4);
    errs
}

/// `after` is `before` with `request` made of the backend, with outcome
/// `ok`; without a backend both are `None`.
pub open spec fn asked_once<B: ChargingBackend>(
    before: Option<B>,
    after: Option<B>,
    request: ChargingRequest,
    ok: bool,
) -> bool {
    match (before, after) {
        (Some(b0), Some(b1)) => b1.charging_requests() == b0.charging_requests().push((request, ok)),
        (None, None) => true,
        _ => false,
    }
}

/// The backend carried out `plan` until the first failure (see
/// `ran_until_failure`); `ok` says that nothing failed.
pub open spec fn backend_ran<B: ChargingBackend>(
    before: Option<B>,
    after: Option<B>,
    plan: Seq<ChargingRequest>,
    ok: bool,
) -> bool {
    match (before, after) {
        (Some(b0), Some(b1)) => ran_until_failure(b0.charging_requests(), b1.charging_requests(), plan, ok),
        _ => false,
    }
}

/// Whether both thresholds, where both are given, are in order.
pub open spec fn thresholds_ordered(c: ChargingSettings) -> bool {
    match (c.start_threshold, c.end_threshold) {
        (Some(s), Some(e)) => s < e,
        _ => true,
    }
}

/// The message when no charging backend exists.
pub open spec fn no_hardware_message() -> Seq<char> {
    "charging hardware not available"@
}

/// The message for a start threshold that is not below the end threshold.
pub open spec fn misordered_message() -> Seq<char> {
    "start threshold must be less than end threshold"@
}

/// The attempts at reading the charging settings: five, 200 ms apart.
pub fn settings_read_budget() -> (r: RetryBudget)
    ensures
        r.remaining_spec() == 5,
        r.delay_spec() == 200,
        r.last_error_spec() is None,
{
    RetryBudget::new(5, 200)
}

/// The answer to a read of the charge profile or priority: the name read,
/// the empty string when the hardware has none, or the read's failure.
pub open spec fn text_answer_spec(read: Result<Option<String>, IoError>) -> Result<Seq<char>, Seq<char>> {
    match read {
        Ok(Some(p)) => Ok(p@),
        Ok(None) => Ok(Seq::empty()),
        Err(e) => Err(e.message@),
    }
}

/// `r` answers a threshold request from the reading `t`: the value read,
/// or the read's failure.
pub open spec fn answers_threshold(r: Result<u8, BusError>, t: Result<u8, IoError>) -> bool {
    match t {
        Ok(v) => r == Ok::<u8, BusError>(v),
        Err(e) => r matches Err(x) && is_failed_with(x, e.message@),
    }
}

/// `r` answers a profile or priority request from the reading `t` as
/// `text_answer_spec` says.
pub open spec fn answers_text(r: Result<String, BusError>, t: Result<Option<String>, IoError>) -> bool {
    match text_answer_spec(t) {
        Ok(x) => r matches Ok(s) && s@ == x,
        Err(m) => r matches Err(e) && is_failed_with(e, m),
    }
}

/// The answer to a read of the charge profile or priority; see
/// `text_answer_spec`.
pub fn text_answer(read: Result<Option<String>, IoError>) -> (r: Result<String, BusError>)
    ensures
        match text_answer_spec(read) {
            Ok(t) => r matches Ok(s) && s@ == t,
            Err(m) => r matches Err(e) && is_failed_with(e, m),
        },
{
    match read {
        Ok(Some(p)) => Ok(p),
        Ok(None) => Ok(String::new()),
        Err(e) => Err(failed(e)),
    }
}

/// D-Bus object implementing the Charging interface.
pub struct ChargingInterface<B: ChargingBackend> {
    backend: Option<B>,
    /// The charging section of the daemon configuration.
    configured: Option<ChargingSettings>,
    /// The settings last read or written.
    last_known: Option<ChargingSettings>,
}

/// The view of optional settings.
pub open spec fn opt_charging_view(o: Option<ChargingSettings>) -> Option<
    (Option<Seq<char>>, Option<Seq<char>>, Option<u8>, Option<u8>),
> {
    match o {
        Some(c) => Some(charging_view(c)),
        None => None,
    }
}

/// A copy of optional settings.
fn copy_opt_charging(o: &Option<ChargingSettings>) -> (r: Option<ChargingSettings>)
    ensures
        opt_charging_view(r) == opt_charging_view(*o),
{
    match o {
        Some(c) => Some(copy_charging(c)),
        None => None,
    }
}

impl<B: ChargingBackend> ChargingInterface<B> {
    /// The backend, if charging hardware exists.
    pub closed spec fn backend_spec(&self) -> Option<B> {
        self.backend
    }

    /// The configured charging settings.
    pub closed spec fn configured_spec(
        &self,
    ) -> Option<(Option<Seq<char>>, Option<Seq<char>>, Option<u8>, Option<u8>)> {
        opt_charging_view(self.configured)
    }

    /// The settings last read or written.
    pub closed spec fn last_known_spec(
        &self,
    ) -> Option<(Option<Seq<char>>, Option<Seq<char>>, Option<u8>, Option<u8>)> {
        opt_charging_view(self.last_known)
    }

    /// The interface over `backend`; the configured settings are also the
    /// last known ones.
    pub fn new(backend: Option<B>, configured: Option<ChargingSettings>) -> (r: Self)
        ensures
            r.backend_spec() == backend,
            r.configured_spec() == opt_charging_view(configured),
            r.last_known_spec() == opt_charging_view(configured),
    {
        let last_known = copy_opt_charging(&configured);
        ChargingInterface { backend, configured, last_known }
    }

    /// The backend, or the failure that no charging hardware exists.
    pub fn backend(&self) -> (r: Result<&B, BusError>)
        ensures
            self.backend_spec() matches Some(b) ==> r == Ok::<&B, BusError>(&b),
            self.backend_spec() is None ==> (r matches Err(e) && is_failed_with(e, no_hardware_message())),
    {
        match &self.backend {
            Some(b) => Ok(b),
            None => Err(BusError::Failed("charging hardware not available".to_owned())),
        }
    }

    /// The configured charging settings, to be persisted.
    pub fn configured(&self) -> (r: &Option<ChargingSettings>)
        ensures
            opt_charging_view(*r) == self.configured_spec(),
    {
        &self.configured
    }

    /// The settings last read or written.
    pub fn last_known(&self) -> (r: &Option<ChargingSettings>)
        ensures
            opt_charging_view(*r) == self.last_known_spec(),
    {
        &self.last_known
    }

    /// The settings to answer with after the reads: what was read if a read
    /// succeeded, else the last known settings, else the configured ones,
    /// else no settings. The answer becomes the last known settings.
    pub fn resolve_settings(&mut self, read: Option<ChargingSettings>) -> (r: ChargingSettings)
        ensures
            final(self).backend_spec() == old(self).backend_spec(),
            final(self).configured_spec() == old(self).configured_spec(),
            charging_view(r) == resolved_view(read, old(self).last_known_spec(), old(self).configured_spec()),
            final(self).last_known_spec() == Some(charging_view(r)),
    {
        let settings = match read {
            Some(s) => s,
            None => match &self.last_known {
                Some(c) => copy_charging(c),
                None => match &self.configured {
                    Some(c) => copy_charging(c),
                    None => ChargingSettings::default(),
                },
            },
        };
        self.last_known = Some(copy_charging(&settings));
        settings
    }

    /// Apply settings: thresholds, then profile, then priority, each only
    /// where given. Refused without hardware, or when both thresholds are
    /// given and the start is not below the end. A backend failure ends the
    /// call with its message and changes no stored settings; on success the
    /// settings become both the last known and the configured ones.
    pub fn set_charging_settings(&mut self, settings: ChargingSettings) -> (r: Result<(), BusError>)
        ensures
            old(self).backend_spec() is None ==> (r matches Err(e) && is_failed_with(e, no_hardware_message()))
                && final(self).backend_spec() is None,
            old(self).backend_spec() is Some && !thresholds_ordered(settings) ==> (r matches Err(e)
                && is_failed_with(e, misordered_message())) && final(self).backend_spec() == old(
                self,
            ).backend_spec(),
            B::obeys_charging_model() && old(self).backend_spec() is Some && thresholds_ordered(settings) ==> backend_ran(
                old(self).backend_spec(),
                final(self).backend_spec(),
                settings_requests(settings),
                r is Ok,
            ),
            r is Ok ==> old(self).backend_spec() is Some && thresholds_ordered(settings)
                && final(self).last_known_spec() == Some(charging_view(settings))
                && final(self).configured_spec() == Some(charging_view(settings)),
            r is Err ==> final(self).last_known_spec() == old(self).last_known_spec()
                && final(self).configured_spec() == old(self).configured_spec(),
            r matches Err(e) ==> e is Failed,
    {
        let ghost plan = settings_requests(settings);
        let ghost p1 = optional_request(settings.start_threshold, |v: u8| ChargingRequest::StartThreshold(v));
        let ghost p2 = optional_request(settings.end_threshold, |v: u8| ChargingRequest::EndThreshold(v));
        let ghost p3 = optional_request(settings.profile, |p: String| ChargingRequest::Profile(p@));
        let ghost p4 = optional_request(settings.priority, |p: String| ChargingRequest::Priority(p@));
        assert(plan == p1 + p2 + p3 + p4);
        let backend = match &mut self.backend {
            Some(b) => b,
            None => return Err(BusError::Failed("charging hardware not available".to_owned())),
        };
        if let (Some(start), Some(end)) = (settings.start_threshold, settings.end_threshold) {
            if start >= end {
                return Err(BusError::Failed("start threshold must be less than end threshold".to_owned()));
            }
        }
        let ghost before = backend.charging_requests();
        proof {
            if B::obeys_charging_model() {
                lemma_plan_start(before, plan);
            }
        }
        let ghost mut m: int = 0;
        if let Some(start) = settings.start_threshold {
            let ghost log = backend.charging_requests();
            let res = backend.set_start_threshold(start);
            proof {
                assert(plan[m] == ChargingRequest::StartThreshold(start));
                if B::obeys_charging_model() {
                    lemma_plan_step(before, log, plan, m, res is Ok);
                }
            }
            if let Err(e) = res {
                return Err(failed(e));
            }
            proof {
                m = m + 1;
            }
        }
        assert(m == p1.len());
        if let Some(end) = settings.end_threshold {
            let ghost log = backend.charging_requests();
            let res = backend.set_end_threshold(end);
            proof {
                assert(plan[m] == ChargingRequest::EndThreshold(end));
                if B::obeys_charging_model() {
                    lemma_plan_step(before, log, plan, m, res is Ok);
                }
            }
            if let Err(e) = res {
                return Err(failed(e));
            }
            proof {
                m = m + 1;
            }
        }
        assert(m == p1.len() + p2.len());
        if let Some(profile) = &settings.profile {
            let ghost log = backend.charging_requests();
            let res = backend.set_profile(profile.as_str());
            proof {
                assert(plan[m] == ChargingRequest::Profile(profile@));
                if B::obeys_charging_model() {
                    lemma_plan_step(before, log, plan, m, res is Ok);
                }
            }
            if let Err(e) = res {
                return Err(failed(e));
            }
            proof {
                m = m + 1;
            }
        }
        assert(m == p1.len() + p2.len() + p3.len());
        if let Some(priority) = &settings.priority {
            let ghost log = backend.charging_requests();
            let res = backend.set_priority(priority.as_str());
            proof {
                assert(plan[m] == ChargingRequest::Priority(priority@));
                if B::obeys_charging_model() {
                    lemma_plan_step(before, log, plan, m, res is Ok);
                }
            }
            if let Err(e) = res {
                return Err(failed(e));
            }
            proof {
                m = m + 1;
            }
        }
        proof {
            if B::obeys_charging_model() {
                lemma_plan_done(before, backend.charging_requests(), plan);
            }
        }
        self.last_known = Some(copy_charging(&settings));
        self.configured = Some(settings);
        Ok(())
    }

    /// The start threshold (0–100%), 0 if unsupported.
    pub fn get_start_threshold(&self) -> (r: Result<u8, BusError>)
        ensures
            self.backend_spec() is None ==> (r matches Err(e) && is_failed_with(e, no_hardware_message())),
            B::obeys_charging_model() && self.backend_spec() is Some ==> exists|t: Result<u8, IoError>|
                #[trigger] self.backend_spec()->Some_0.start_outcome(t) && answers_threshold(r, t),
            r matches Err(e) ==> e is Failed,
    {
        let backend = self.backend()?;
        let t = backend.get_start_threshold();
        let ghost g = t;
        let r = match t {
            Ok(v) => Ok(v),
            Err(e) => Err(failed(e)),
        };
        assert(answers_threshold(r, g));
        r
    }

    /// Set the start threshold (0–100%).
    pub fn set_start_threshold(&mut self, pct: u8) -> (r: Result<(), BusError>)
        ensures
            old(self).backend_spec() is None ==> (r matches Err(e) && is_failed_with(e, no_hardware_message())),
            r matches Err(e) ==> e is Failed,
            B::obeys_charging_model() ==> asked_once(old(self).backend_spec(), final(self).backend_spec(), ChargingRequest::StartThreshold(pct), r is Ok),
            final(self).last_known_spec() == old(self).last_known_spec(),
            final(self).configured_spec() == old(self).configured_spec(),
    {
        match &mut self.backend {
            Some(b) => match b.set_start_threshold(pct) {
                Ok(()) => Ok(()),
                Err(e) => Err(failed(e)),
            },
            None => Err(BusError::Failed("charging hardware not available".to_owned())),
        }
    }

    /// The end threshold (0–100%), 0 if unsupported.
    pub fn get_end_threshold(&self) -> (r: Result<u8, BusError>)
        ensures
            self.backend_spec() is None ==> (r matches Err(e) && is_failed_with(e, no_hardware_message())),
            B::obeys_charging_model() && self.backend_spec() is Some ==> exists|t: Result<u8, IoError>|
                #[trigger] self.backend_spec()->Some_0.end_outcome(t) && answers_threshold(r, t),
            r matches Err(e) ==> e is Failed,
    {
        let backend = self.backend()?;
        let t = backend.get_end_threshold();
        let ghost g = t;
        let r = match t {
            Ok(v) => Ok(v),
            Err(e) => Err(failed(e)),
        };
        assert(answers_threshold(r, g));
        r
    }

    /// Set the end threshold (0–100%).
    pub fn set_end_threshold(&mut self, pct: u8) -> (r: Result<(), BusError>)
        ensures
            old(self).backend_spec() is None ==> (r matches Err(e) && is_failed_with(e, no_hardware_message())),
            r matches Err(e) ==> e is Failed,
            B::obeys_charging_model() ==> asked_once(old(self).backend_spec(), final(self).backend_spec(), ChargingRequest::EndThreshold(pct), r is Ok),
            final(self).last_known_spec() == old(self).last_known_spec(),
            final(self).configured_spec() == old(self).configured_spec(),
    {
        match &mut self.backend {
            Some(b) => match b.set_end_threshold(pct) {
                Ok(()) => Ok(()),
                Err(e) => Err(failed(e)),
            },
            None => Err(BusError::Failed("charging hardware not available".to_owned())),
        }
    }

    /// The charge profile name, or the empty string if unsupported.
    pub fn get_charge_profile(&self) -> (r: Result<String, BusError>)
        ensures
            self.backend_spec() is None ==> (r matches Err(e) && is_failed_with(e, no_hardware_message())),
            B::obeys_charging_model() && self.backend_spec() is Some ==> exists|t: Result<Option<String>, IoError>|
                #[trigger] self.backend_spec()->Some_0.profile_outcome(t) && answers_text(r, t),
            r matches Err(e) ==> e is Failed,
    {
        let backend = self.backend()?;
        let t = backend.get_profile();
        let ghost g = t;
        let r = text_answer(t);
        assert(answers_text(r, g));
        r
    }

    /// Set the charge profile; on success it becomes the profile of the last
    /// known settings (starting from no settings if there were none).
    pub fn set_charge_profile(&mut self, profile: &str) -> (r: Result<(), BusError>)
        ensures
            B::obeys_charging_model() ==> asked_once(old(self).backend_spec(), final(self).backend_spec(), ChargingRequest::Profile(profile@), r is Ok),
            final(self).configured_spec() == old(self).configured_spec(),
            old(self).backend_spec() is None ==> (r matches Err(e) && is_failed_with(e, no_hardware_message())),
            r matches Err(e) ==> e is Failed,
            r is Err ==> final(self).last_known_spec() == old(self).last_known_spec(),
            r is Ok ==> final(self).last_known_spec() == Some(
                ({
                    let base = match old(self).last_known_spec() {
                        Some(v) => v,
                        None => unset_view(),
                    };
                    (Some(profile@), base.1, base.2, base.3)
                }),
            ),
    {
        let result = match &mut self.backend {
            Some(b) => b.set_profile(profile),
            None => return Err(BusError::Failed("charging hardware not available".to_owned())),
        };
        if let Err(e) = result {
            return Err(failed(e));
        }
        let mut s = match &self.last_known {
            Some(c) => copy_charging(c),
            None => ChargingSettings::default(),
        };
        s.profile = Some(profile.to_owned());
        self.last_known = Some(s);
        Ok(())
    }

    /// The charge priority, or the empty string if unsupported.
    pub fn get_charge_priority(&self) -> (r: Result<String, BusError>)
        ensures
            self.backend_spec() is None ==> (r matches Err(e) && is_failed_with(e, no_hardware_message())),
            B::obeys_charging_model() && self.backend_spec() is Some ==> exists|t: Result<Option<String>, IoError>|
                #[trigger] self.backend_spec()->Some_0.priority_outcome(t) && answers_text(r, t),
            r matches Err(e) ==> e is Failed,
    {
        let backend = self.backend()?;
        let t = backend.get_priority();
        let ghost g = t;
        let r = text_answer(t);
        assert(answers_text(r, g));
        r
    }

    /// Set the charge priority; on success it becomes the priority of the
    /// last known settings (starting from no settings if there were none).
    pub fn set_charge_priority(&mut self, priority: &str) -> (r: Result<(), BusError>)
        ensures
            B::obeys_charging_model() ==> asked_once(old(self).backend_spec(), final(self).backend_spec(), ChargingRequest::Priority(priority@), r is Ok),
            final(self).configured_spec() == old(self).configured_spec(),
            old(self).backend_spec() is None ==> (r matches Err(e) && is_failed_with(e, no_hardware_message())),
            r matches Err(e) ==> e is Failed,
            r is Err ==> final(self).last_known_spec() == old(self).last_known_spec(),
            r is Ok ==> final(self).last_known_spec() == Some(
                ({
                    let base = match old(self).last_known_spec() {
                        Some(v) => v,
                        None => unset_view(),
                    };
                    (base.0, Some(priority@), base.2, base.3)
                }),
            ),
    {
        let result = match &mut self.backend {
            Some(b) => b.set_priority(priority),
            None => return Err(BusError::Failed("charging hardware not available".to_owned())),
        };
        if let Err(e) = result {
            return Err(failed(e));
        }
        let mut s = match &self.last_known {
            Some(c) => copy_charging(c),
            None => ChargingSettings::default(),
        };
        s.priority = Some(priority.to_owned());
        self.last_known = Some(s);
        Ok(())
    }
}

// ── Laws ─────────────────────────────────────────────────────────────────

/// Law: once settings were written (or answered), a read that fails
/// answers with them, whatever was configured; and the answer is what the
/// next failed read answers again.
pub proof fn law_failed_read_answers_last_settings(
    last: ChargingSettings,
    configured: Option<(Option<Seq<char>>, Option<Seq<char>>, Option<u8>, Option<u8>)>,
)
    ensures
        resolved_view(None, Some(charging_view(last)), configured) == charging_view(last),
        ({
            let answer = resolved_view(None, Some(charging_view(last)), configured);
            resolved_view(None, Some(answer), configured) == answer
        }),
{
}

/// Law: a read that succeeds is answered as read, whatever was known
/// before.
pub proof fn law_successful_read_answers_reading(
    read: ChargingSettings,
    last_known: Option<(Option<Seq<char>>, Option<Seq<char>>, Option<u8>, Option<u8>)>,
    configured: Option<(Option<Seq<char>>, Option<Seq<char>>, Option<u8>, Option<u8>)>,
)
    ensures
        resolved_view(Some(read), last_known, configured) == charging_view(read),
{
}

} // verus!
