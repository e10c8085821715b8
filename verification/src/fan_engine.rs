//! The fan curve engine: temperature polling, curve interpolation and PWM
//! control.
//!
//! Each iteration of the engine loop takes the current configuration,
//! reads the temperature, writes PWM and answers how long to wait. Waiting,
//! and waking early on a configuration change or shutdown, is the caller's.
use crate::backend::fan::{FanBackend, FanRequest};
use crate::error::IoError;
use crate::request_log::requests_of;
use crate::fan_curve::{
    interpolate, interpolate_spec, max_int, percent_to_pwm, percent_to_pwm_spec, FanConfig, FanMode,
};
use vstd::prelude::*;

verus! {

/// Whether the engine must hand the fans back to firmware control.
#[derive(Debug, Clone, Copy, PartialEq, Eq, Structural)]
pub enum ModeAction {
    /// Restore automatic (firmware) control on every fan.
    RestoreAuto,
    /// Nothing to do for the mode.
    Keep,
}

/// What one custom-curve tick decided.
#[derive(Debug, Clone, Copy, PartialEq, Eq, Structural)]
pub struct TickDecision {
    /// PWM duty to write to every fan.
    pub pwm: u8,
    /// Milliseconds to wait before the next iteration.
    pub poll_ms: u64,
}

/// State that the engine keeps between iterations.
#[derive(Debug, Clone, Copy, PartialEq, Eq, Structural)]
pub struct FanEngineState {
    /// The mode the engine currently runs in.
    pub current_mode: FanMode,
    /// Temperature at which the speed was last computed.
    pub last_temp: Option<u8>,
    /// PWM duty last written by the custom curve.
    pub last_pwm: Option<u8>,
}

/// PWM duty the curve of `config` gives at temperature `t`, with the
/// configured minimum speed applied.
pub open spec fn curve_pwm(config: FanConfig, t: int) -> int {
    percent_to_pwm_spec(max_int(interpolate_spec(config.curve@, t), config.min_speed_percent as int))
}

/// Distance between two temperatures.
pub open spec fn temp_distance(a: int, b: int) -> int {
    if a >= b {
        a - b
    } else {
        b - a
    }
}

/// Result of one custom-curve tick from state `s` with temperature reading
/// `reading` (`None` when the read failed).
pub open spec fn tick_spec(s: FanEngineState, config: FanConfig, reading: Option<u8>) -> (
    FanEngineState,
    TickDecision,
) {
    match reading {
        None => (s, TickDecision { pwm: 255, poll_ms: config.active_poll_ms }),
        Some(t) => {
            let within_hysteresis = s.last_temp matches Some(prev) && temp_distance(
                t as int,
                prev as int,
            ) < config.hysteresis_degrees;
            if within_hysteresis {
                let pwm: u8 = match s.last_pwm {
                    Some(p) => p,
                    None => curve_pwm(config, t as int) as u8,
                };
                (
                    FanEngineState { last_pwm: Some(pwm), ..s },
                    TickDecision { pwm, poll_ms: config.idle_poll_ms },
                )
            } else {
                let pwm = curve_pwm(config, t as int) as u8;
                (
                    FanEngineState { last_temp: Some(t), last_pwm: Some(pwm), ..s },
                    TickDecision { pwm, poll_ms: config.active_poll_ms },
                )
            }
        },
    }
}

/// State and action after an iteration starts with `config`;
/// `config_changed` tells whether its values differ from the previous
/// iteration's.
pub open spec fn begin_spec(s: FanEngineState, config: FanConfig, config_changed: bool) -> (
    FanEngineState,
    ModeAction,
) {
    let s1 = if config_changed {
        FanEngineState { last_temp: None, last_pwm: None, ..s }
    } else {
        s
    };
    if config.mode != s1.current_mode {
        let s2 = FanEngineState { current_mode: config.mode, ..s1 };
        match config.mode {
            FanMode::Auto => (s2, ModeAction::RestoreAuto),
            FanMode::Manual => (s2, ModeAction::Keep),
            FanMode::CustomCurve => (
                FanEngineState { last_temp: None, last_pwm: None, ..s2 },
                ModeAction::Keep,
            ),
        }
    } else {
        (s1, ModeAction::Keep)
    }
}

impl FanEngineState {
    /// The state the engine starts in.
    pub fn new() -> (r: FanEngineState)
        ensures
            r == (FanEngineState { current_mode: FanMode::Auto, last_temp: None, last_pwm: None }),
    {
        FanEngineState { current_mode: FanMode::Auto, last_temp: None, last_pwm: None }
    }

    /// Start an iteration with `config`. A changed configuration forgets the
    /// hysteresis reference; a mode change to `Auto` asks for firmware control
    /// and a mode change to `CustomCurve` also forgets the reference.
    pub fn begin_iteration(&mut self, config: &FanConfig, config_changed: bool) -> (r: ModeAction)
        ensures
            (*final(self), r) == begin_spec(*old(self), *config, config_changed),
    {
        if config_changed {
            self.last_temp = None;
            self.last_pwm = None;
        }
        if config.mode != self.current_mode {
            self.current_mode = config.mode;
            match config.mode {
                FanMode::Auto => {
                    return ModeAction::RestoreAuto;
                },
                FanMode::Manual => {},
                FanMode::CustomCurve => {
                    self.last_temp = None;
                    self.last_pwm = None;
                },
            }
        }
        ModeAction::Keep
    }

    /// The engine was told that the configuration changed while it waited:
    /// the next tick recomputes the speed.
    pub fn on_config_notified(&mut self)
        ensures
            *final(self) == (FanEngineState { last_temp: None, last_pwm: None, ..*old(self) }),
    {
        self.last_temp = None;
        self.last_pwm = None;
    }

    /// Whether this iteration reads the temperature and ticks the curve.
    pub fn runs_curve(&self) -> (r: bool)
        ensures
            r == (self.current_mode == FanMode::CustomCurve),
    {
        self.current_mode == FanMode::CustomCurve
    }

    /// Wait in `Auto` and `Manual` modes.
    pub fn idle_poll_ms(&self, config: &FanConfig) -> (r: u64)
        ensures
            r == config.idle_poll_ms,
    {
        config.idle_poll_ms
    }

    /// Execute one CustomCurve tick with the temperature that was read
    /// (`None` when reading failed).
    ///
    /// A failed read asks for 100% (PWM 255). Otherwise the speed is
    /// recomputed from the curve unless the temperature moved less than the
    /// hysteresis since the last computation, in which case the last PWM is
    /// kept. The PWM is written on every tick, recomputed or not.
    pub fn tick_custom_curve(&mut self, config: &FanConfig, reading: Option<u8>) -> (r: TickDecision)
        ensures
            (*final(self), r) == tick_spec(*old(self), *config, reading),
    {
        let temp = match reading {
            None => {
                return TickDecision { pwm: percent_to_pwm(100), poll_ms: config.active_poll_ms };
            },
            Some(t) => t,
        };
        let within = match self.last_temp {
            Some(prev) => {
                let diff: u8 = if temp >= prev {
                    temp - prev
                } else {
                    prev - temp
                };
                diff < config.hysteresis_degrees
            },
            None => false,
        };
        if within {
            let pwm = match self.last_pwm {
                Some(p) => p,
                None => curve_pwm_exec(config, temp),
            };
            self.last_pwm = Some(pwm);
            TickDecision { pwm, poll_ms: config.idle_poll_ms }
        } else {
            let pwm = curve_pwm_exec(config, temp);
            self.last_temp = Some(temp);
            self.last_pwm = Some(pwm);
            TickDecision { pwm, poll_ms: config.active_poll_ms }
        }
    }

    /// On shutdown the fans go back to firmware control.
    pub fn on_shutdown(&self) -> (r: ModeAction)
        ensures
            r == ModeAction::RestoreAuto,
    {
        ModeAction::RestoreAuto
    }
}

/// PWM duty the curve of `config` gives at `temp`, with the minimum speed.
pub fn curve_pwm_exec(config: &FanConfig, temp: u8) -> (r: u8)
    ensures
        r as int == curve_pwm(*config, temp as int),
{
    let speed = interpolate(config.curve.as_slice(), temp);
    let speed = if speed >= config.min_speed_percent {
        speed
    } else {
        config.min_speed_percent
    };
    percent_to_pwm(speed)
}

/// A fan configuration as plain values.
pub open spec fn config_view(c: FanConfig) -> (FanMode, u8, Seq<crate::fan_curve::FanCurvePoint>, u64, u64, u8) {
    (c.mode, c.min_speed_percent, c.curve@, c.active_poll_ms, c.idle_poll_ms, c.hysteresis_degrees)
}

/// Whether `config` differs from the configuration seen at the previous
/// iteration (always, at the first one).
pub open spec fn config_changed_spec(seen: Option<FanConfig>, config: FanConfig) -> bool {
    match seen {
        None => true,
        Some(c) => config_view(c) != config_view(config),
    }
}

/// The reading that a temperature read gives the curve: the value, or
/// `None` when the read failed.
pub open spec fn temperature_reading(t: Result<u8, IoError>) -> Option<u8> {
    match t {
        Ok(v) => Some(v),
        Err(_) => None,
    }
}

/// Automatic control for each of `n` fans, in fan order.
pub open spec fn auto_requests(n: u8) -> Seq<FanRequest> {
    Seq::new(n as nat, |i: int| FanRequest::SetAuto(i as u8))
}

/// PWM duty `pwm` for each of `n` fans, in fan order.
pub open spec fn pwm_requests(n: u8, pwm: u8) -> Seq<FanRequest> {
    Seq::new(n as nat, |i: int| FanRequest::WritePwm(i as u8, pwm))
}

/// The fan curve engine: the fan backend it drives and the state it keeps
/// between iterations.
pub struct FanCurveEngine<B: FanBackend> {
    backend: B,
    state: FanEngineState,
    last_config: Option<FanConfig>,
}

impl<B: FanBackend> FanCurveEngine<B> {
    /// The fan backend.
    pub closed spec fn backend_spec(&self) -> B {
        self.backend
    }

    /// The state kept between iterations.
    pub closed spec fn state_spec(&self) -> FanEngineState {
        self.state
    }

    /// The configuration seen at the last iteration.
    pub closed spec fn seen_config(&self) -> Option<FanConfig> {
        self.last_config
    }

    /// An engine that has not run yet: fans in firmware control.
    pub fn new(backend: B) -> (r: Self)
        ensures
            r.backend_spec() == backend,
            r.state_spec() == (FanEngineState { current_mode: FanMode::Auto, last_temp: None, last_pwm: None }),
            r.seen_config() is None,
    {
        FanCurveEngine { backend, state: FanEngineState::new(), last_config: None }
    }

    /// The fan backend.
    pub fn backend(&self) -> (r: &B)
        ensures
            *r == self.backend_spec(),
    {
        &self.backend
    }

    /// The fan backend, for changes between iterations.
    pub fn backend_mut(&mut self) -> (r: &mut B)
        ensures
            *r == old(self).backend_spec(),
            final(self).backend_spec() == *final(r),
            final(self).state_spec() == old(self).state_spec(),
            final(self).seen_config() == old(self).seen_config(),
    {
        &mut self.backend
    }

    /// The state kept between iterations.
    pub fn state(&self) -> (r: FanEngineState)
        ensures
            r == self.state_spec(),
    {
        self.state
    }

    /// Restore firmware control on every fan, ignoring failures.
    fn set_all_auto(&mut self)
        ensures
            final(self).state_spec() == old(self).state_spec(),
            final(self).seen_config() == old(self).seen_config(),
            B::obeys_fan_model() ==> final(self).backend_spec().fan_count() == old(
                self,
            ).backend_spec().fan_count(),
            B::obeys_fan_model() ==> requests_of(final(self).backend_spec().fan_requests()) == requests_of(
                old(self).backend_spec().fan_requests(),
            ) + auto_requests(old(self).backend_spec().fan_count()),
    {
        let n = self.backend.num_fans();
        let ghost start = requests_of(self.backend.fan_requests());
        let mut i: u8 = 0;
        assert(start + auto_requests(n).take(0) =~= start);
        while i < n
            invariant
                i <= n,
                start == requests_of(old(self).backend.fan_requests()),
                B::obeys_fan_model() ==> n == old(self).backend.fan_count(),
                B::obeys_fan_model() ==> self.backend.fan_count() == n,
                B::obeys_fan_model() ==> requests_of(self.backend.fan_requests()) == start + auto_requests(n).take(i as int),
                self.state == old(self).state,
                self.last_config == old(self).last_config,
            decreases n - i,
        {
            let ghost log = self.backend.fan_requests();
            let _ = self.backend.set_auto(i);
            proof {
                if B::obeys_fan_model() {
                    assert(requests_of(self.backend.fan_requests()) =~= requests_of(log).push(
                        FanRequest::SetAuto(i),
                    ));
                }
                assert(auto_requests(n).take(i + 1) =~= auto_requests(n).take(i as int).push(FanRequest::SetAuto(i)));
            }
            i = i + 1;
        }
        assert(auto_requests(n).take(n as int) =~= auto_requests(n));
    }

    /// Write one PWM duty to every fan, ignoring failures.
    fn set_all_pwm(&mut self, pwm: u8)
        ensures
            final(self).state_spec() == old(self).state_spec(),
            final(self).seen_config() == old(self).seen_config(),
            B::obeys_fan_model() ==> final(self).backend_spec().fan_count() == old(
                self,
            ).backend_spec().fan_count(),
            B::obeys_fan_model() ==> requests_of(final(self).backend_spec().fan_requests()) == requests_of(
                old(self).backend_spec().fan_requests(),
            ) + pwm_requests(old(self).backend_spec().fan_count(), pwm),
    {
        let n = self.backend.num_fans();
        let ghost start = requests_of(self.backend.fan_requests());
        let mut i: u8 = 0;
        assert(start + pwm_requests(n, pwm).take(0) =~= start);
        while i < n
            invariant
                i <= n,
                start == requests_of(old(self).backend.fan_requests()),
                B::obeys_fan_model() ==> n == old(self).backend.fan_count(),
                B::obeys_fan_model() ==> self.backend.fan_count() == n,
                B::obeys_fan_model() ==> requests_of(self.backend.fan_requests()) == start + pwm_requests(n, pwm).take(i as int),
                self.state == old(self).state,
                self.last_config == old(self).last_config,
            decreases n - i,
        {
            let ghost log = self.backend.fan_requests();
            let _ = self.backend.write_pwm(i, pwm);
            proof {
                if B::obeys_fan_model() {
                    assert(requests_of(self.backend.fan_requests()) =~= requests_of(log).push(
                        FanRequest::WritePwm(i, pwm),
                    ));
                }
                assert(pwm_requests(n, pwm).take(i + 1) =~= pwm_requests(n, pwm).take(i as int).push(
                    FanRequest::WritePwm(i, pwm),
                ));
            }
            i = i + 1;
        }
        assert(pwm_requests(n, pwm).take(n as int) =~= pwm_requests(n, pwm));
    }

    /// One iteration with the configuration as it is now. A changed
    /// configuration resets the hysteresis; a mode change is handled as
    /// `begin_spec` says (switching to `Auto` restores firmware control).
    /// In `CustomCurve` mode the temperature is read and the curve ticked as
    /// `tick_spec` says, whatever the reading was, and the tick's PWM is
    /// written to every fan. Returns the milliseconds to wait.
    pub fn run_iteration(&mut self, config: &FanConfig) -> (r: u64)
        ensures
            ({
                let changed = config_changed_spec(old(self).seen_config(), *config);
                let s1 = begin_spec(old(self).state_spec(), *config, changed).0;
                if s1.current_mode == FanMode::CustomCurve {
                    exists|reading: Option<u8>|
                        #![trigger tick_spec(s1, *config, reading)]
                        (final(self).state_spec(), r) == (
                            tick_spec(s1, *config, reading).0,
                            tick_spec(s1, *config, reading).1.poll_ms,
                        )
                } else {
                    final(self).state_spec() == s1 && r == config.idle_poll_ms
                }
            }),
            B::obeys_fan_model() ==> ({
                let changed = config_changed_spec(old(self).seen_config(), *config);
                let s1 = begin_spec(old(self).state_spec(), *config, changed).0;
                let n = old(self).backend_spec().fan_count();
                let restored = if begin_spec(old(self).state_spec(), *config, changed).1
                    == ModeAction::RestoreAuto {
                    auto_requests(n)
                } else {
                    Seq::empty()
                };
                let before = requests_of(old(self).backend_spec().fan_requests()) + restored;
                let after = requests_of(final(self).backend_spec().fan_requests());
                if s1.current_mode == FanMode::CustomCurve {
                    exists|t: Result<u8, IoError>|
                        #![trigger old(self).backend_spec().temp_outcome(t)]
                        old(self).backend_spec().temp_outcome(t) && ({
                            let reading = temperature_reading(t);
                            (final(self).state_spec(), r) == (
                                tick_spec(s1, *config, reading).0,
                                tick_spec(s1, *config, reading).1.poll_ms,
                            ) && after == before + pwm_requests(n, tick_spec(s1, *config, reading).1.pwm)
                        })
                } else {
                    after == before
                }
            }),
            B::obeys_fan_model() ==> final(self).backend_spec().fan_count() == old(self).backend_spec().fan_count(),
            final(self).seen_config() matches Some(c) && config_view(c) == config_view(*config),
    {
        let changed = match &self.last_config {
            None => true,
            Some(c) => !c.same_as(config),
        };
        if changed {
            self.last_config = Some(config.duplicate());
        }
        let action = self.state.begin_iteration(config, changed);
        if action == ModeAction::RestoreAuto {
            self.set_all_auto();
        } else {
            assert(requests_of(self.backend.fan_requests()) =~= requests_of(
                old(self).backend.fan_requests(),
            ) + Seq::<FanRequest>::empty());
        }
        if !self.state.runs_curve() {
            return self.state.idle_poll_ms(config);
        }
        assert(self.backend == old(self).backend);
        let read = self.backend.read_temp();
        let ghost t = read;
        let reading = match read {
            Ok(t) => Some(t),
            Err(_) => None,
        };
        assert(reading == temperature_reading(t));
        let ghost s1 = self.state;
        let decision = self.state.tick_custom_curve(config, reading);
        self.set_all_pwm(decision.pwm);
        assert(tick_spec(s1, *config, reading).1.poll_ms == decision.poll_ms);
        proof {
            if B::obeys_fan_model() {
                assert(old(self).backend_spec().temp_outcome(t));
            }
        }
        decision.poll_ms
    }

    /// The configuration changed while waiting: the next tick recomputes the
    /// speed.
    pub fn on_config_notified(&mut self)
        ensures
            final(self).state_spec() == (FanEngineState {
                last_temp: None,
                last_pwm: None,
                ..old(self).state_spec()
            }),
            final(self).seen_config() == old(self).seen_config(),
    {
        self.state.on_config_notified();
    }

    /// Shut down: restore firmware control on every fan.
    pub fn shutdown(&mut self)
        ensures
            final(self).state_spec() == old(self).state_spec(),
            final(self).seen_config() == old(self).seen_config(),
            B::obeys_fan_model() ==> final(self).backend_spec().fan_count() == old(self).backend_spec().fan_count(),
            B::obeys_fan_model() ==> requests_of(final(self).backend_spec().fan_requests()) == requests_of(
                old(self).backend_spec().fan_requests(),
            ) + auto_requests(old(self).backend_spec().fan_count()),
    {
        self.set_all_auto();
    }
}

// ── Laws ─────────────────────────────────────────────────────────────────

/// Law: a failed temperature read always asks for full speed (PWM 255) and
/// leaves the engine state as it was.
pub proof fn law_failed_read_runs_full_speed(s: FanEngineState, config: FanConfig)
    ensures
        tick_spec(s, config, None).1.pwm == 255,
        tick_spec(s, config, None).0 == s,
{
}

/// Law: with a hysteresis of at least one degree, ticking twice at the same
/// temperature writes the same PWM both times.
pub proof fn law_steady_temperature_keeps_pwm(
    s: FanEngineState,
    config: FanConfig,
    t: u8,
)
    requires
        config.hysteresis_degrees >= 1,
    ensures
        tick_spec(tick_spec(s, config, Some(t)).0, config, Some(t)).1.pwm == tick_spec(
            s,
            config,
            Some(t),
        ).1.pwm,
{
}

/// Law: a temperature change smaller than the hysteresis keeps the last
/// written PWM.
pub proof fn law_hysteresis_keeps_pwm(s: FanEngineState, config: FanConfig, t: u8, prev: u8, p: u8)
    requires
        s.last_temp == Some(prev),
        s.last_pwm == Some(p),
        temp_distance(t as int, prev as int) < config.hysteresis_degrees,
    ensures
        tick_spec(s, config, Some(t)).1.pwm == p,
        tick_spec(s, config, Some(t)).1.poll_ms == config.idle_poll_ms,
{
}

/// Law: after a configuration change the next tick computes the speed from
/// the new curve, whatever the temperature did.
pub proof fn law_config_change_bypasses_hysteresis(
    s: FanEngineState,
    config: FanConfig,
    t: u8,
)
    ensures
        ({
            let s1 = begin_spec(s, config, true).0;
            tick_spec(s1, config, Some(t)).1.pwm == curve_pwm(config, t as int)
        }),
{
}

/// Law: switching the configuration's mode to `Auto` hands the fans back to
/// firmware control, and no other mode change does.
pub proof fn law_switch_to_auto_restores_firmware_control(
    s: FanEngineState,
    config: FanConfig,
    changed: bool,
)
    ensures
        (begin_spec(s, config, changed).1 == ModeAction::RestoreAuto) <==> (config.mode
            == FanMode::Auto && s.current_mode != FanMode::Auto),
        begin_spec(s, config, changed).0.current_mode == config.mode,
{
}

/// Law: the hysteresis reference temperature moves only when the speed is
/// recomputed. A reading within the hysteresis of the reference keeps the
/// reference; a tick that changes the reference sets it to the reading,
/// computes the PWM from the curve at that reading and polls actively.
pub proof fn law_hysteresis_reference_moves_only_on_recompute(s: FanEngineState, config: FanConfig, t: u8)
    ensures
        (s.last_temp matches Some(q) && -(config.hysteresis_degrees as int) < t - q
            < config.hysteresis_degrees) ==> tick_spec(s, config, Some(t)).0.last_temp == s.last_temp,
        tick_spec(s, config, Some(t)).0.last_temp != s.last_temp ==> {
            &&& tick_spec(s, config, Some(t)).0.last_temp == Some(t)
            &&& tick_spec(s, config, Some(t)).1.pwm == curve_pwm(config, t as int)
            &&& tick_spec(s, config, Some(t)).1.poll_ms == config.active_poll_ms
        },
{
}

/// Law: readings that drift in small steps cannot hold the fan at a stale
/// speed. After a tick that recomputed the speed at `q`, a tick within the
/// hysteresis of `q`, and then a tick at a reading at least the hysteresis
/// away from `q`, the third tick recomputes the speed at its own reading.
pub proof fn law_drift_is_measured_from_last_recompute(
    s: FanEngineState,
    config: FanConfig,
    q: u8,
    t1: u8,
    t2: u8,
)
    requires
        tick_spec(s, config, Some(q)).0.last_temp == Some(q),
        -(config.hysteresis_degrees as int) < t1 - q < config.hysteresis_degrees,
        t2 - q >= config.hysteresis_degrees || q - t2 >= config.hysteresis_degrees,
    ensures
        ({
            let s1 = tick_spec(s, config, Some(q)).0;
            let s2 = tick_spec(s1, config, Some(t1)).0;
            &&& tick_spec(s2, config, Some(t2)).1.pwm == curve_pwm(config, t2 as int)
            &&& tick_spec(s2, config, Some(t2)).1.poll_ms == config.active_poll_ms
            &&& tick_spec(s2, config, Some(t2)).0.last_temp == Some(t2)
        }),
{
    let s1 = tick_spec(s, config, Some(q)).0;
    law_hysteresis_reference_moves_only_on_recompute(s1, config, t1);
}

} // verus!
