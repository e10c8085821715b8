use tux_rs::backend::fan::FanBackend;
use tux_rs::fan_curve::{FanConfig, FanCurvePoint, FanMode};
use tux_rs::fan_engine::{FanCurveEngine, FanEngineState, ModeAction};
use tux_rs::mock::fan::MockFanBackend;

fn test_config() -> FanConfig {
    FanConfig { active_poll_ms: 10, idle_poll_ms: 50, ..FanConfig::default() }
}

fn engine(fans: u8, temp: u8) -> FanCurveEngine<MockFanBackend> {
    let mut e = FanCurveEngine::new(MockFanBackend::new(fans));
    e.backend_mut().set_temp(temp);
    e
}

fn flat_80_config(hysteresis: u8) -> FanConfig {
    FanConfig {
        curve: vec![FanCurvePoint { temp: 0, speed: 80 }],
        min_speed_percent: 0,
        hysteresis_degrees: hysteresis,
        active_poll_ms: 10,
        idle_poll_ms: 10,
        ..FanConfig::default()
    }
}

#[test]
fn custom_curve_writes_correct_pwm() {
    let mut e = engine(2, 70);
    e.run_iteration(&test_config());
    let pwm = e.backend().read_pwm(0).unwrap();
    let pwm1 = e.backend().read_pwm(1).unwrap();
    e.shutdown();
    assert_eq!(pwm, 158, "fan0 PWM should be 158 for 70°C");
    assert_eq!(pwm1, 158, "fan1 PWM should be 158 for 70°C");
}

#[test]
fn hysteresis_prevents_update() {
    let config = FanConfig { hysteresis_degrees: 5, active_poll_ms: 10, idle_poll_ms: 10, ..FanConfig::default() };
    let mut e = engine(1, 70);
    e.run_iteration(&config);
    let pwm_70 = e.backend().read_pwm(0).unwrap();
    e.backend_mut().set_temp(72);
    e.run_iteration(&config);
    let pwm_72 = e.backend().read_pwm(0).unwrap();
    assert_eq!(pwm_70, pwm_72, "PWM should not change within hysteresis");
    e.backend_mut().set_temp(80);
    e.run_iteration(&config);
    assert_eq!(e.backend().read_pwm(0).unwrap(), 194, "PWM should update after exceeding hysteresis");
}

#[test]
fn min_speed_overrides_low_curve_value() {
    let mut e = engine(1, 10);
    e.run_iteration(&test_config());
    let pwm = e.backend().read_pwm(0).unwrap();
    e.shutdown();
    assert_eq!(pwm, 64, "min speed should override curve value of 0%");
}

#[test]
fn mode_switch_to_auto_calls_set_auto() {
    let config = test_config();
    let mut e = engine(2, 70);
    e.run_iteration(&config);
    assert!(!e.backend().is_auto(0), "should be manual after curve write");
    let auto_config = FanConfig { mode: FanMode::Auto, ..test_config() };
    let wait = e.run_iteration(&auto_config);
    assert!(e.backend().is_auto(0), "fan0 should be auto");
    assert!(e.backend().is_auto(1), "fan1 should be auto");
    assert_eq!(wait, 50);
}

#[test]
fn config_change_takes_effect() {
    let mut e = engine(1, 50);
    e.run_iteration(&test_config());
    assert_eq!(e.backend().read_pwm(0).unwrap(), 77);
    e.run_iteration(&flat_80_config(0));
    assert_eq!(e.backend().read_pwm(0).unwrap(), 204);
}

#[test]
fn shutdown_restores_auto() {
    let mut e = engine(1, 70);
    e.run_iteration(&test_config());
    assert!(!e.backend().is_auto(0));
    e.shutdown();
    assert!(e.backend().is_auto(0), "shutdown should restore auto mode");
}

#[test]
fn temp_read_failure_sets_full_speed() {
    let mut e = engine(1, 50);
    e.run_iteration(&test_config());
    e.backend_mut().set_fail_temp(true);
    let wait = e.run_iteration(&test_config());
    let pwm = e.backend().read_pwm(0).unwrap();
    e.shutdown();
    assert_eq!(pwm, 255, "temp read failure should set 100% safety speed");
    assert_eq!(wait, 10);
}

#[test]
fn config_change_bypasses_hysteresis() {
    let config = FanConfig { hysteresis_degrees: 10, active_poll_ms: 10, idle_poll_ms: 10, ..FanConfig::default() };
    let mut e = engine(1, 70);
    e.run_iteration(&config);
    assert_eq!(e.backend().read_pwm(0).unwrap(), 158);
    e.run_iteration(&flat_80_config(10));
    assert_eq!(e.backend().read_pwm(0).unwrap(), 204);
}

#[test]
fn notified_config_change_recomputes_next_tick() {
    let config = FanConfig { hysteresis_degrees: 10, active_poll_ms: 10, idle_poll_ms: 40, ..FanConfig::default() };
    let mut e = engine(1, 70);
    assert_eq!(e.run_iteration(&config), 10);
    e.backend_mut().set_temp(72);
    // Within the hysteresis: the idle interval, same PWM.
    assert_eq!(e.run_iteration(&config), 40);
    e.on_config_notified();
    assert_eq!(e.state().last_temp, None);
    // The reference was forgotten: the speed is recomputed at 72°C.
    assert_eq!(e.run_iteration(&config), 10);
    assert_eq!(e.state().last_temp, Some(72));
}

#[test]
fn manual_mode_leaves_fans_alone() {
    let mut e = engine(1, 70);
    let manual = FanConfig { mode: FanMode::Manual, ..test_config() };
    assert_eq!(e.run_iteration(&manual), 50);
    assert!(e.backend().is_auto(0));
    assert_eq!(e.state().current_mode, FanMode::Manual);
}

#[test]
fn state_machine_starts_in_auto() {
    let mut s = FanEngineState::new();
    assert_eq!(s.current_mode, FanMode::Auto);
    let action = s.begin_iteration(&FanConfig { mode: FanMode::Auto, ..test_config() }, true);
    assert_eq!(action, ModeAction::Keep);
    assert_eq!(s.on_shutdown(), ModeAction::RestoreAuto);
}

// ---- daemon lifecycle ----

#[test]
fn startup_safety_reset_calls_set_auto() {
    let mut backend = MockFanBackend::new(2);
    backend.write_pwm(0, 200).unwrap();
    backend.write_pwm(1, 150).unwrap();
    assert!(!backend.is_auto(0));
    assert!(!backend.is_auto(1));
    for i in 0..backend.num_fans() {
        backend.set_auto(i).unwrap();
    }
    assert!(backend.is_auto(0), "fan0 should be auto after startup reset");
    assert!(backend.is_auto(1), "fan1 should be auto after startup reset");
}

#[test]
fn startup_reset_before_engine() {
    let mut backend = MockFanBackend::new(1);
    backend.set_temp(70);
    backend.write_pwm(0, 200).unwrap();
    assert!(!backend.is_auto(0));
    for i in 0..backend.num_fans() {
        backend.set_auto(i).unwrap();
    }
    assert!(backend.is_auto(0), "auto mode should be set before engine starts");
    let mut e = FanCurveEngine::new(backend);
    e.run_iteration(&test_config());
    assert!(!e.backend().is_auto(0), "engine should have taken over fan control");
}

#[test]
fn shutdown_handler_restores_all_fans() {
    let mut e = engine(2, 70);
    e.run_iteration(&test_config());
    assert!(!e.backend().is_auto(0), "fan0 should be manual during operation");
    assert!(!e.backend().is_auto(1), "fan1 should be manual during operation");
    e.shutdown();
    assert!(e.backend().is_auto(0), "fan0 should be auto after shutdown");
    assert!(e.backend().is_auto(1), "fan1 should be auto after shutdown");
    let backend = e.backend_mut();
    for i in 0..backend.num_fans() {
        let _ = backend.set_auto(i);
    }
    assert!(e.backend().is_auto(0), "fan0 should remain auto");
    assert!(e.backend().is_auto(1), "fan1 should remain auto");
}

#[test]
fn shutdown_restores_auto_from_any_mode() {
    let mut e = engine(1, 50);
    let config = FanConfig { mode: FanMode::Manual, ..test_config() };
    e.run_iteration(&config);
    e.shutdown();
    assert!(e.backend().is_auto(0), "shutdown should restore auto even from manual mode");
}
