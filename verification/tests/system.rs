use tux_rs::charging::{clamp_pct, is_transient_io_error, uniwill_backend_usable, validate_priority, validate_profile};
use tux_rs::client_tracker::ClientTracker;
use tux_rs::dbus::system::{
    average_frequency_mhz, battery_info, health_percent, normalize_raw_cycle_count,
    signed_current_ma, stable_raw_cycle_count, BatteryReadings,
};
use tux_rs::dbus::tcc_compat::profile_to_tcc;
use tux_rs::dbus_types::BatteryInfoResponse;
use tux_rs::display::{percent_of_raw, raw_for_percent, set_all_outcome};
use tux_rs::error::{IoError, IoErrorKind};
use tux_rs::profile::builtin_profiles;

fn readings() -> BatteryReadings {
    BatteryReadings {
        capacity: "85".to_string(),
        status: "Discharging".to_string(),
        cycle_count: "142".to_string(),
        charge_now: "4200000".to_string(),
        charge_full: "5000000".to_string(),
        charge_full_design: "5300000".to_string(),
        current_now: "1500000".to_string(),
        voltage_now: "15800000".to_string(),
        voltage_min_design: "15480000".to_string(),
        technology: "Li-ion".to_string(),
        manufacturer: "OEM".to_string(),
        model_name: "standard".to_string(),
        raw_cycle_samples: vec![],
        platform_raw_cycle_count: String::new(),
    }
}

#[test]
fn battery_info_from_sysfs() {
    let info = battery_info(&readings());
    assert!(info.present);
    assert_eq!(info.capacity_percent, 85);
    assert_eq!(info.status, "Discharging");
    assert_eq!(info.charge_now_mah, 4200);
    assert_eq!(info.charge_full_mah, 5000);
    assert_eq!(info.charge_full_design_mah, 5300);
    assert_eq!(info.current_now_ma, -1500);
    assert_eq!(info.voltage_now_mv, 15800);
    assert_eq!(info.voltage_design_mv, 15480);
    assert_eq!(info.cycle_count, 142);
    assert_eq!(info.health_percent, 94);
}

#[test]
fn battery_info_charging_positive_current() {
    let mut r = readings();
    r.status = "Charging".to_string();
    assert_eq!(battery_info(&r).current_now_ma, 1500);
}

#[test]
fn battery_info_prefers_bat_raw_cycle_count() {
    let mut r = readings();
    r.raw_cycle_samples = vec!["12836".to_string(), "37".to_string(), "0".to_string(), "bad".to_string()];
    r.platform_raw_cycle_count = "99".to_string();
    assert_eq!(battery_info(&r).cycle_count, 36);
    r.raw_cycle_samples = vec![];
    assert_eq!(battery_info(&r).cycle_count, 99);
}

#[test]
fn battery_info_no_battery() {
    let info = BatteryInfoResponse::default();
    assert!(!info.present);
    assert_eq!(info.capacity_percent, 0);
}

#[test]
fn battery_helpers() {
    assert_eq!(normalize_raw_cycle_count(0), 0);
    assert_eq!(normalize_raw_cycle_count(12836), 36);
    assert_eq!(normalize_raw_cycle_count(13348), 36);
    assert_eq!(normalize_raw_cycle_count(512), 512);
    assert_eq!(normalize_raw_cycle_count(200), 200);
    assert_eq!(stable_raw_cycle_count(&vec!["40".to_string(), "38".to_string(), "0".to_string()]), 38);
    assert_eq!(health_percent(5000, 0), 0);
    assert_eq!(health_percent(5000, 5300), 94);
    assert_eq!(signed_current_ma(-2500000, "Discharging"), -2500);
    assert_eq!(signed_current_ma(-2500000, "Full"), 2500);
}

#[test]
fn cpu_frequency_average() {
    assert_eq!(average_frequency_mhz(&vec![]), None);
    assert_eq!(average_frequency_mhz(&vec![2_000_000, 3_000_000]), Some(2500));
}

#[test]
fn charging_validation() {
    assert!(validate_profile("balanced").is_ok());
    let err = validate_profile("turbo").unwrap_err();
    assert_eq!(err.kind, IoErrorKind::InvalidInput);
    assert_eq!(err.message, "invalid charge profile 'turbo', expected one of: high_capacity, balanced, stationary");
    assert!(validate_priority("performance").is_ok());
    assert_eq!(
        validate_priority("fast").unwrap_err().message,
        "invalid charge priority 'fast', expected one of: charge_battery, performance"
    );
    assert_eq!(clamp_pct(150), 100);
    assert_eq!(clamp_pct(40), 40);
    assert!(is_transient_io_error(IoErrorKind::Other, None));
    assert!(is_transient_io_error(IoErrorKind::NotFound, Some(5)));
    assert!(!is_transient_io_error(IoErrorKind::NotFound, Some(2)));
    assert!(uniwill_backend_usable(true, false, true, false));
    assert!(!uniwill_backend_usable(true, true, false, false));
    assert!(!uniwill_backend_usable(false, false, true, true));
}

#[test]
fn display_percentages() {
    assert_eq!(percent_of_raw(48000, 96000), 50);
    assert_eq!(raw_for_percent(75, 96000), 72000);
    assert_eq!(raw_for_percent(150, 96000), 96000);
    let e = IoError { kind: IoErrorKind::Other, message: "ro".to_string() };
    assert!(set_all_outcome(1, Some(e.clone())).is_err());
    assert!(set_all_outcome(2, Some(e)).is_ok());
    assert!(set_all_outcome(1, None).is_ok());
}

#[test]
fn connect_makes_active() {
    let mut tracker = ClientTracker::new(30_000);
    assert!(!tracker.has_active_clients());
    assert!(!tracker.is_active(0));
    tracker.on_client_connected();
    assert!(tracker.has_active_clients());
    assert!(tracker.is_active(0));
}

#[test]
fn disconnect_with_grace_period() {
    let mut tracker = ClientTracker::new(50);
    tracker.on_client_connected();
    tracker.on_client_disconnected(1000);
    assert!(!tracker.has_active_clients());
    assert!(tracker.is_active(1010));
    assert!(!tracker.is_active(1060));
}

#[test]
fn multiple_clients() {
    let mut tracker = ClientTracker::new(30_000);
    tracker.on_client_connected();
    tracker.on_client_connected();
    assert_eq!(tracker.client_count(), 2);
    tracker.on_client_disconnected(5);
    assert_eq!(tracker.client_count(), 1);
    assert!(tracker.has_active_clients());
    tracker.on_client_disconnected(6);
    assert!(!tracker.has_active_clients());
}

#[test]
fn poll_interval_active_vs_idle() {
    let mut tracker = ClientTracker::new(0);
    assert_eq!(tracker.poll_interval_ms(0, 2000, 10000), 10000);
    tracker.on_client_connected();
    assert_eq!(tracker.poll_interval_ms(0, 2000, 10000), 2000);
}

#[test]
fn disconnect_without_connect_does_not_underflow() {
    let mut tracker = ClientTracker::new(30_000);
    tracker.on_client_disconnected(0);
    assert_eq!(tracker.client_count(), 0);
    assert!(!tracker.is_active(0));
}

#[test]
fn tcc_profile_conversion() {
    let profiles = builtin_profiles();
    let office = profile_to_tcc(&profiles[2]);
    assert_eq!(office.id, "__office__");
    assert_eq!(office.fan.fan_profile, "CustomCurve");
    assert_eq!(office.fan.minimum_fanspeed, 20);
    assert_eq!(office.cpu.governor, "schedutil");
    assert!(!office.cpu.use_max_perf_gov);
    assert_eq!(office.display.brightness, 100);
    assert!(!office.display.use_brightness);
    assert_eq!(office.odm_profile.name, "balanced");
    let table = office.fan.custom_fan_curve.table_cpu.unwrap();
    assert_eq!(table.len(), 4);
    assert_eq!(table[0].temp, 45);
    assert_eq!(table[0].speed, 20);
    let perf = profile_to_tcc(&profiles[3]);
    assert!(perf.cpu.use_max_perf_gov);
    assert!(perf.odm_power_limits.tdp_values.is_empty());
    assert_eq!(perf.nvidia_power_ctrl_profile.ctgp_offset, 0);
}

#[test]
fn display_percent_read_back() {
    assert_eq!(raw_for_percent(75, 1000), 750);
    assert_eq!(percent_of_raw(raw_for_percent(75, 1000), 1000), 75);
    assert_eq!(percent_of_raw(raw_for_percent(150, 1000), 1000), 100);
    assert_eq!(raw_for_percent(33, 120), 39);
    assert_eq!(percent_of_raw(raw_for_percent(33, 120), 120), 32);
    for p in 0..=120u32 {
        let asked = p.min(100);
        assert_eq!(percent_of_raw(raw_for_percent(p, 500), 500), asked);
        assert!(percent_of_raw(raw_for_percent(p, 96), 96) <= asked);
    }
}

#[test]
fn per_core_frequencies_sorted() {
    // Cores out of order, as a directory listing may give them.
    let readings = vec![(2u32, 3000000u64), (0, 1000000), (1, 2000000), (3, 4000000)];
    let freqs = tux_rs::dbus::system::per_core_frequencies_mhz(&readings).unwrap();
    assert_eq!(freqs, vec![1000, 2000, 3000, 4000]);
}

#[test]
fn per_core_frequencies_empty() {
    assert!(tux_rs::dbus::system::per_core_frequencies_mhz(&Vec::new()).is_err());
}

#[test]
fn per_core_frequencies_empty_error() {
    let e = tux_rs::dbus::system::per_core_frequencies_mhz(&Vec::new()).unwrap_err();
    assert_eq!(e.kind, IoErrorKind::NotFound);
    assert_eq!(e.message, "no CPU frequency data found");
}

#[test]
fn per_core_frequencies_truncate_to_mhz() {
    let readings = vec![(10u32, 2_400_999u64), (3, 999)];
    assert_eq!(tux_rs::dbus::system::per_core_frequencies_mhz(&readings).unwrap(), vec![0, 2400]);
}

#[test]
fn get_power_state_ac() {
    assert_eq!(tux_rs::dbus::profile::power_state_name(tux_rs::dbus::profile::PowerState::Ac), "ac");
}

#[test]
fn get_power_state_battery() {
    assert_eq!(tux_rs::dbus::profile::power_state_name(tux_rs::dbus::profile::PowerState::Battery), "battery");
}

#[test]
fn cpu_frequency_no_cpus() {
    assert!(average_frequency_mhz(&Vec::new()).is_none());
}

#[test]
fn cpu_frequency_from_sysfs() {
    // Four CPUs at 2400 MHz = 2400000 kHz.
    assert_eq!(average_frequency_mhz(&vec![2400000u64; 4]), Some(2400));
}

#[test]
fn cpu_frequency_mixed_speeds() {
    // 1000 + 3000 avg = 2000
    assert_eq!(average_frequency_mhz(&vec![1000000u64, 3000000]), Some(2000));
}

#[test]
fn invalid_profile_error() {
    let err = validate_profile("turbo").unwrap_err();
    assert_eq!(err.kind, IoErrorKind::InvalidInput);
    assert!(err.message.contains("turbo"));
}

#[test]
fn invalid_priority_error() {
    let err = validate_priority("max_speed").unwrap_err();
    assert_eq!(err.kind, IoErrorKind::InvalidInput);
    assert!(err.message.contains("max_speed"));
}

#[test]
fn threshold_clamped_to_100() {
    assert_eq!(clamp_pct(150), 100);
}

#[test]
fn rapid_reconnect_stays_active() {
    let mut tracker = ClientTracker::new(30_000);
    tracker.on_client_connected();
    tracker.on_client_disconnected(1_000);
    // Reconnect during grace period.
    tracker.on_client_connected();

    assert!(tracker.has_active_clients());
    assert!(tracker.is_active(1_500));
}

#[test]
fn disconnect_becomes_idle_after_timeout() {
    let mut tracker = ClientTracker::new(50);
    tracker.on_client_connected();
    tracker.on_client_disconnected(0);
    assert!(tracker.is_active(0), "should be active during grace period");
    // 60 ms later.
    assert!(!tracker.is_active(60), "should be idle after grace period");
}
