use tux_rs::backend::fan::FanBackend;
use tux_rs::error::IoErrorKind;
use tux_rs::mock::fan::MockFanBackend;

#[test]
fn write_pwm_read_back() {
    let mut mock = MockFanBackend::new(2);
    mock.write_pwm(0, 128).unwrap();
    assert_eq!(mock.read_pwm(0).unwrap(), 128);
    assert_eq!(mock.read_pwm(1).unwrap(), 0);
}

#[test]
fn set_auto_clears_manual() {
    let mut mock = MockFanBackend::new(1);
    mock.write_pwm(0, 200).unwrap();
    assert!(!mock.is_auto(0));
    mock.set_auto(0).unwrap();
    assert!(mock.is_auto(0));
    assert_eq!(mock.read_pwm(0).unwrap(), 0);
}

#[test]
fn read_temp_returns_configured() {
    let mut mock = MockFanBackend::new(1);
    assert_eq!(mock.read_temp().unwrap(), 40);
    mock.set_temp(85);
    assert_eq!(mock.read_temp().unwrap(), 85);
}

#[test]
fn fan_index_out_of_range() {
    let mut mock = MockFanBackend::new(1);
    assert!(mock.write_pwm(1, 100).is_err());
    assert!(mock.read_pwm(2).is_err());
    assert!(mock.set_auto(1).is_err());
    assert!(mock.read_fan_rpm(1).is_err());
}

#[test]
fn num_fans_correct() {
    assert_eq!(MockFanBackend::new(0).num_fans(), 0);
    assert_eq!(MockFanBackend::new(1).num_fans(), 1);
    assert_eq!(MockFanBackend::new(3).num_fans(), 3);
}

#[test]
fn set_rpm_and_read() {
    let mut mock = MockFanBackend::new(2);
    mock.set_rpm(0, 2500);
    mock.set_rpm(1, 3100);
    assert_eq!(mock.read_fan_rpm(0).unwrap(), 2500);
    assert_eq!(mock.read_fan_rpm(1).unwrap(), 3100);
}

#[test]
fn write_pwm_disables_auto() {
    let mut mock = MockFanBackend::new(2);
    assert!(mock.is_auto(0));
    assert!(mock.is_auto(1));
    mock.write_pwm(0, 50).unwrap();
    assert!(!mock.is_auto(0));
    assert!(mock.is_auto(1));
}

#[test]
fn out_of_range_error_message() {
    let mut mock = MockFanBackend::new(1);
    let err = mock.write_pwm(3, 10).unwrap_err();
    assert_eq!(err.kind, IoErrorKind::InvalidInput);
    assert_eq!(err.message, "fan index 3 out of range (max 1)");
}

#[test]
fn failing_temperature_read() {
    let mut mock = MockFanBackend::new(1);
    mock.set_fail_temp(true);
    let err = mock.read_temp().unwrap_err();
    assert_eq!(err.kind, IoErrorKind::Other);
    assert_eq!(err.message, "simulated temp read failure");
    mock.set_fail_temp(false);
    assert_eq!(mock.read_temp().unwrap(), 40);
}

#[test]
fn default_trait_methods() {
    let mut mock = MockFanBackend::new(1);
    assert!(!mock.requires_manual_reapply());
    assert!(!mock.supports_fan_table());
    let err = mock.write_fan_table(&[(50, 100)]).unwrap_err();
    assert_eq!(err.kind, IoErrorKind::Unsupported);
}

#[test]
fn set_rpm_unknown_fan_is_ignored() {
    let mut mock = MockFanBackend::new(1);
    mock.set_rpm(5, 1000);
    assert_eq!(mock.read_fan_rpm(0).unwrap(), 0);
    assert!(!mock.is_auto(5));
}
