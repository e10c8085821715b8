use tux_rs::dbus::tcc_compat::{tcc_readings, tcc_text, tcc_threshold};
use std::cell::Cell;

use tux_rs::charging::ChargingBackend;
use tux_rs::config::ProfileAssignments;
use tux_rs::dbus::profile::{
    active_profile_name, needs_reapply, parse_power_state, power_state_name, set_active_profile, store_error,
    PowerState,
};
use tux_rs::dbus::tcc_compat::{
    active_tcc_profile, apply_keyboard_states, available_thresholds, charge_end_threshold, charge_start_threshold,
    clamp_byte, clamp_percent, consume_flag, default_values_profile, fan_readings, flagged_profiles_to_tcc,
    fn_lock_from_text, fn_lock_text, keyboard_capabilities, profiles_to_tcc, set_charge_end_threshold,
    set_charge_start_threshold, set_temp_profile, set_temp_profile_by_id, state_map, TccFanReadings,
    TccKeyboardBacklightState,
};
use tux_rs::error::{IoError, IoErrorKind};
use tux_rs::fan_curve::{FanCurvePoint, FanMode};
use tux_rs::hid::discover::{open_ite_keyboard, IteKeyboard, ITE_VENDOR_ID};
use tux_rs::hid::hidraw::{HidrawInfo, MockHidraw};
use tux_rs::hid::ite8291::Ite8291;
use tux_rs::mock::fan::MockFanBackend;
use tux_rs::profile::{
    builtin_profiles, ChargingSettings, CpuSettings, DisplaySettings, FanProfileSettings, KeyboardSettings,
    TuxProfile,
};

fn make_test_profile(id: &str, name: &str, is_default: bool) -> TuxProfile {
    TuxProfile {
        id: id.to_string(),
        name: name.to_string(),
        description: "test".to_string(),
        is_default,
        fan: FanProfileSettings {
            enabled: true,
            mode: FanMode::Auto,
            min_speed_percent: 20,
            max_speed_percent: 100,
            offset_speed_percent: 0,
            curve: vec![FanCurvePoint { temp: 40, speed: 30 }, FanCurvePoint { temp: 80, speed: 90 }],
            tcc_fan_profile: None,
        },
        cpu: CpuSettings {
            governor: "powersave".to_string(),
            energy_performance_preference: Some("balance_performance".to_string()),
            no_turbo: false,
            online_cores: None,
            scaling_min_frequency: None,
            scaling_max_frequency: None,
            use_max_perf_gov: None,
        },
        keyboard: KeyboardSettings::default(),
        display: DisplaySettings::default(),
        charging: ChargingSettings::default(),
        odm_profile: None,
        tdp: None,
        gpu: None,
    }
}

/// The store's content: the builtins, then an "Office" default and a custom profile.
fn profiles() -> Vec<TuxProfile> {
    let mut v = builtin_profiles();
    v.push(make_test_profile("default-1", "Office", true));
    v.push(make_test_profile("custom-1", "MyProfile", false));
    v
}

fn assignments() -> ProfileAssignments {
    ProfileAssignments { ac_profile: "default-1".to_string(), battery_profile: "default-1".to_string() }
}

#[test]
fn get_profiles_json_valid() {
    let tcc = profiles_to_tcc(&profiles());
    assert!(tcc.len() >= 6);
    let office = tcc.iter().find(|p| p.name == "Office" && p.id == "default-1").unwrap();
    assert!(office.fan.use_control);
}

#[test]
fn get_custom_profiles_filters_defaults() {
    let custom = flagged_profiles_to_tcc(&profiles(), false);
    assert_eq!(custom.len(), 1);
    assert_eq!(custom[0].name, "MyProfile");
}

#[test]
fn get_default_profiles_filters_custom() {
    let defaults = flagged_profiles_to_tcc(&profiles(), true);
    assert!(defaults.iter().all(|p| p.name != "MyProfile"));
    assert!(!defaults.is_empty());
    assert_eq!(defaults.len(), profiles().len() - 1);
}

#[test]
fn set_temp_profile_by_id_activates() {
    let mut a = assignments();
    assert!(set_temp_profile_by_id(&mut a, &profiles(), PowerState::Ac, "custom-1"));
    assert_eq!(a.ac_profile, "custom-1");
    assert_eq!(a.battery_profile, "default-1");
}

#[test]
fn set_temp_profile_by_id_missing_returns_false() {
    let mut a = assignments();
    assert!(!set_temp_profile_by_id(&mut a, &profiles(), PowerState::Ac, "nonexistent"));
    assert_eq!(a.ac_profile, "default-1");
}

#[test]
fn set_temp_profile_by_name_uses_current_power_state() {
    let mut a = assignments();
    assert!(set_temp_profile(&mut a, &profiles(), PowerState::Battery, "MyProfile"));
    assert_eq!(a.battery_profile, "custom-1");
    assert_eq!(a.ac_profile, "default-1");
    assert!(!set_temp_profile(&mut a, &profiles(), PowerState::Battery, "No Such Name"));
}

#[test]
fn get_fan_data_json_structure() {
    let none: Option<MockFanBackend> = None;
    let r = fan_readings(&none);
    assert_eq!(r, TccFanReadings { cpu_speed: -1, cpu_temp: -1, gpu1_speed: -1 });
    let mut one = MockFanBackend::new(1);
    one.set_temp(61);
    one.set_rpm(0, 2400);
    let r = fan_readings(&Some(one));
    assert_eq!(r, TccFanReadings { cpu_speed: 2400, cpu_temp: 61, gpu1_speed: -1 });
    let mut two = MockFanBackend::new(2);
    two.set_rpm(1, 1800);
    two.set_fail_temp(true);
    let r = fan_readings(&Some(two));
    assert_eq!(r, TccFanReadings { cpu_speed: 0, cpu_temp: 0, gpu1_speed: 1800 });
}

#[test]
fn get_settings_json_valid() {
    let m = state_map(&assignments());
    assert_eq!(m.power_ac, "default-1");
    assert_eq!(m.power_bat, "default-1");
}

#[test]
fn consume_mode_reapply_pending_roundtrip() {
    let mut pending = false;
    assert!(!consume_flag(&mut pending));
    pending = true;
    assert!(consume_flag(&mut pending));
    assert!(!consume_flag(&mut pending));
}

struct FixedCharging {
    start: Cell<u8>,
}

impl ChargingBackend for FixedCharging {
    fn get_start_threshold(&self) -> Result<u8, IoError> {
        Ok(self.start.get())
    }
    fn set_start_threshold(&mut self, pct: u8) -> Result<(), IoError> {
        self.start.set(pct);
        Ok(())
    }
    fn get_end_threshold(&self) -> Result<u8, IoError> {
        Err(IoError { kind: IoErrorKind::Other, message: "EIO".to_string() })
    }
    fn set_end_threshold(&mut self, _pct: u8) -> Result<(), IoError> {
        Err(IoError { kind: IoErrorKind::Other, message: "EIO".to_string() })
    }
    fn get_profile(&self) -> Result<Option<String>, IoError> {
        Ok(None)
    }
    fn set_profile(&mut self, _profile: &str) -> Result<(), IoError> {
        Ok(())
    }
    fn get_priority(&self) -> Result<Option<String>, IoError> {
        Ok(None)
    }
    fn set_priority(&mut self, _priority: &str) -> Result<(), IoError> {
        Ok(())
    }
}

#[test]
fn charge_thresholds_without_backend() {
    let mut none: Option<FixedCharging> = None;
    assert_eq!(charge_start_threshold(&none), 0);
    assert_eq!(charge_end_threshold(&none), 100);
    assert!(!set_charge_start_threshold(&mut none, 50));
    assert!(!set_charge_end_threshold(&mut none, 80));
}

#[test]
fn charge_thresholds_with_backend_clamp_and_fall_back() {
    let mut c = Some(FixedCharging { start: Cell::new(40) });
    assert_eq!(charge_start_threshold(&c), 40);
    assert_eq!(charge_end_threshold(&c), 100);
    assert!(set_charge_start_threshold(&mut c, 250));
    assert_eq!(charge_start_threshold(&c), 100);
    assert!(set_charge_start_threshold(&mut c, -5));
    assert_eq!(charge_start_threshold(&c), 0);
    assert!(!set_charge_end_threshold(&mut c, 80));
}

#[test]
fn get_active_profile_json_valid() {
    let p = active_tcc_profile(&profiles(), &assignments(), PowerState::Ac).unwrap();
    assert_eq!(p.id, "default-1");
    assert_eq!(p.name, "Office");
    let missing = ProfileAssignments { ac_profile: "gone".to_string(), battery_profile: "gone".to_string() };
    assert!(active_tcc_profile(&profiles(), &missing, PowerState::Ac).is_none());
    let first_default = default_values_profile(&profiles()).unwrap();
    assert_eq!(first_default.id, builtin_profiles()[0].id);
}

#[test]
fn keyboard_set_returns_true_with_empty_json() {
    let mut kb = Ite8291::new(MockHidraw::new(0x8291));
    apply_keyboard_states(&mut kb, &vec![]);
    // Only the final flush is sent.
    assert_eq!(kb.hid().sent_output_reports().len(), 6);
}

#[test]
fn keyboard_states_are_clamped_and_applied() {
    let info = HidrawInfo { bus_type: 3, vendor_id: ITE_VENDOR_ID, product_id: 0x8297 };
    let mut kb: IteKeyboard<MockHidraw> = open_ite_keyboard(MockHidraw::new(0x8297), info, "").unwrap();
    let state = TccKeyboardBacklightState { mode: 0, brightness: 300, red: -4, green: 128, blue: 999 };
    apply_keyboard_states(&mut kb, &vec![state]);
    if let IteKeyboard::Ite8297(d) = &kb {
        let reports = d.hid().sent_reports();
        // Brightness 255 (clamped) of white, then the flush with the new color.
        assert_eq!(&reports[0][4..7], &[255, 255, 255]);
        assert_eq!(&reports[1][4..7], &[0, 128, 255]);
    } else {
        panic!("expected an ITE 8297 keyboard");
    }
}

#[test]
fn get_keyboard_capabilities_without_keyboards() {
    let none: Vec<Ite8291<MockHidraw>> = vec![];
    assert!(keyboard_capabilities(&none).is_none());
    let one = vec![Ite8291::new(MockHidraw::new(0x8291))];
    let caps = keyboard_capabilities(&one).unwrap();
    assert_eq!(caps.zones, 4);
    assert_eq!(caps.modes, vec![0, 1]);
    assert_eq!(caps.max_brightness, 255);
}

#[test]
fn clamps_and_thresholds() {
    assert_eq!(clamp_byte(-1), 0);
    assert_eq!(clamp_byte(256), 255);
    assert_eq!(clamp_percent(101), 100);
    assert_eq!(clamp_percent(42), 42);
    let t = available_thresholds();
    assert_eq!(t.len(), 100);
    assert_eq!(t[0], 1);
    assert_eq!(t[99], 100);
}

#[test]
fn fn_lock_text_roundtrip() {
    assert!(fn_lock_from_text("1\n"));
    assert!(!fn_lock_from_text("0\n"));
    assert!(!fn_lock_from_text(""));
    assert!(fn_lock_from_text(fn_lock_text(true)));
    assert!(!fn_lock_from_text(fn_lock_text(false)));
}

// ---- profile selection ----

#[test]
fn set_active_profile_updates_assignments() {
    let mut a = assignments();
    set_active_profile(&mut a, &profiles(), "custom-1", "battery").unwrap();
    assert_eq!(a.battery_profile, "custom-1");
    assert_eq!(a.ac_profile, "default-1");
}

#[test]
fn set_active_profile_invalid_id_fails() {
    let mut a = assignments();
    let err = set_active_profile(&mut a, &profiles(), "nonexistent", "ac").unwrap_err();
    assert_eq!(err.message(), "ProfileNotFound: 'nonexistent'");
    assert_eq!(a.ac_profile, "default-1");
}

#[test]
fn set_active_profile_invalid_state_fails() {
    let mut a = assignments();
    let err = set_active_profile(&mut a, &profiles(), "custom-1", "solar").unwrap_err();
    assert_eq!(err.message(), "state must be 'ac' or 'battery', got 'solar'");
    assert_eq!(a.battery_profile, "default-1");
}

#[test]
fn get_active_profile_name_default() {
    let a = ProfileAssignments::default();
    let name = active_profile_name(&builtin_profiles(), &a, PowerState::Ac);
    assert_eq!(name, "Office");
    let unknown = ProfileAssignments { ac_profile: "x".to_string(), battery_profile: "y".to_string() };
    assert_eq!(active_profile_name(&builtin_profiles(), &unknown, PowerState::Battery), "y");
}

#[test]
fn power_state_names_roundtrip() {
    for s in [PowerState::Ac, PowerState::Battery] {
        assert_eq!(parse_power_state(power_state_name(s)).unwrap(), s);
    }
    assert!(needs_reapply(&assignments(), PowerState::Ac, "default-1"));
    assert!(!needs_reapply(&assignments(), PowerState::Ac, "custom-1"));
}

#[test]
fn store_errors_are_named_by_kind() {
    let e = |kind, msg: &str| store_error(IoError { kind, message: msg.to_string() });
    assert_eq!(e(IoErrorKind::NotFound, "x").message(), "ProfileNotFound: x");
    assert_eq!(e(IoErrorKind::PermissionDenied, "x").message(), "ProfileReadOnly: x");
    assert_eq!(e(IoErrorKind::AlreadyExists, "x").message(), "InvalidProfile: x");
    assert_eq!(e(IoErrorKind::Other, "x").message(), "StorageError: x");
}

#[test]
fn tcc_readings_from_reads() {
    let err = || IoError { kind: IoErrorKind::Other, message: "x".to_string() };
    let r = tcc_readings(Ok(2400), Err(err()), None);
    assert_eq!((r.cpu_speed, r.cpu_temp, r.gpu1_speed), (2400, 0, -1));
    let r = tcc_readings(Err(err()), Ok(65), Some(Ok(1800)));
    assert_eq!((r.cpu_speed, r.cpu_temp, r.gpu1_speed), (0, 65, 1800));
    let r = tcc_readings(Ok(1), Ok(2), Some(Err(err())));
    assert_eq!((r.cpu_speed, r.cpu_temp, r.gpu1_speed), (1, 2, 0));
}

#[test]
fn tcc_threshold_and_text_from_reads() {
    let err = || IoError { kind: IoErrorKind::Other, message: "x".to_string() };
    assert_eq!(tcc_threshold(Ok(40), 0), 40);
    assert_eq!(tcc_threshold(Err(err()), 0), 0);
    assert_eq!(tcc_threshold(Err(err()), 100), 100);
    assert_eq!(tcc_text(Ok(Some("balanced".to_string()))), "balanced");
    assert_eq!(tcc_text(Ok(None)), "");
    assert_eq!(tcc_text(Err(err())), "");
}
