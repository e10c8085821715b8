use tux_rs::config::{DaemonConfig, ProfileAssignments};
use tux_rs::fan_curve::{FanConfig, FanCurvePoint, FanMode};
use tux_rs::profile::{builtin_profiles, CpuSettings, FanProfileSettings, KeyboardSettings};

#[test]
fn builtin_profiles_are_valid() {
    let profiles = builtin_profiles();
    assert_eq!(profiles.len(), 4);
    for p in &profiles {
        assert!(p.is_default, "builtin profile {} should be default", p.id);
        assert!(p.id.starts_with("__"), "builtin IDs should start with __");
        assert!(p.id.ends_with("__"), "builtin IDs should end with __");
    }
}

#[test]
fn builtin_profile_ids() {
    let profiles = builtin_profiles();
    let ids: Vec<&str> = profiles.iter().map(|p| p.id.as_str()).collect();
    assert!(ids.contains(&"__max_energy_save__"));
    assert!(ids.contains(&"__quiet__"));
    assert!(ids.contains(&"__office__"));
    assert!(ids.contains(&"__high_performance__"));
}

#[test]
fn builtin_profile_contents() {
    let profiles = builtin_profiles();
    let quiet = &profiles[1];
    assert_eq!(quiet.name, "Quiet");
    assert_eq!(quiet.fan.max_speed_percent, 80);
    assert_eq!(quiet.fan.curve[3], FanCurvePoint { temp: 95, speed: 80 });
    assert_eq!(quiet.cpu.energy_performance_preference.as_deref(), Some("balance_power"));
    let perf = &profiles[3];
    assert_eq!(perf.cpu.governor, "performance");
    assert_eq!(perf.keyboard.brightness, 80);
    assert_eq!(perf.odm_profile.as_deref(), Some("performance"));
    assert!(profiles[0].cpu.no_turbo);
}

#[test]
fn builtin_curves_are_valid_fan_curves() {
    for p in builtin_profiles() {
        let cfg = FanConfig { curve: p.fan.curve.clone(), ..FanConfig::default() };
        assert!(cfg.validate().is_ok(), "profile {} has an invalid curve", p.id);
    }
}

#[test]
fn settings_defaults() {
    let fan = FanProfileSettings::default();
    assert!(fan.enabled);
    assert_eq!(fan.mode, FanMode::Auto);
    assert_eq!(fan.max_speed_percent, 100);
    let cpu = CpuSettings::default();
    assert_eq!(cpu.governor, "powersave");
    let kb = KeyboardSettings::default();
    assert_eq!(kb.brightness, 50);
    assert_eq!(kb.color, "#ffffff");
    assert_eq!(kb.mode, "static");
}

#[test]
fn config_default_config_is_valid() {
    let config = DaemonConfig::default();
    assert!(config.fan.validate().is_ok());
    assert_eq!(config.daemon.log_level, "info");
}

#[test]
fn profile_assignments_defaults() {
    let config = DaemonConfig::default();
    assert_eq!(config.profiles.ac_profile, "__office__");
    assert_eq!(config.profiles.battery_profile, "__quiet__");
}

#[test]
fn invalid_fan_section_falls_back_to_defaults() {
    let mut config = DaemonConfig::default();
    config.fan.min_speed_percent = 200;
    config.profiles = ProfileAssignments {
        ac_profile: "custom_ac".to_string(),
        battery_profile: "custom_battery".to_string(),
    };
    let checked = config.validated_or_default();
    assert_eq!(checked.fan.min_speed_percent, 25);
    assert_eq!(checked.profiles.ac_profile, "__office__");
}

#[test]
fn valid_config_is_kept() {
    let mut config = DaemonConfig::default();
    config.daemon.log_level = "debug".to_string();
    let checked = config.validated_or_default();
    assert_eq!(checked.daemon.log_level, "debug");
    assert_eq!(checked.daemon.idle_timeout_s, 30);
}

#[test]
fn builtin_profile_ids_are_distinct() {
    let profiles = builtin_profiles();
    for i in 0..profiles.len() {
        for j in (i + 1)..profiles.len() {
            assert_ne!(profiles[i].id, profiles[j].id);
        }
    }
}

#[test]
fn builtin_fan_curves_pass_validation() {
    for p in builtin_profiles() {
        let curve = &p.fan.curve;
        assert!(curve.iter().all(|pt| pt.speed <= 100), "{}", p.id);
        assert!(curve.windows(2).all(|w| w[0].temp <= w[1].temp), "{}", p.id);
        assert!(curve.windows(2).all(|w| w[0].speed <= w[1].speed), "{}", p.id);
        assert!(p.fan.min_speed_percent <= p.fan.max_speed_percent && p.fan.max_speed_percent <= 100);
        let config = FanConfig {
            mode: FanMode::CustomCurve,
            min_speed_percent: p.fan.min_speed_percent,
            curve: curve.clone(),
            active_poll_ms: 2000,
            idle_poll_ms: 1000,
            hysteresis_degrees: 3,
        };
        assert!(config.validate().is_ok(), "{}", p.id);
    }
}

#[test]
fn default_assignments_name_builtin_profiles() {
    let profiles = builtin_profiles();
    let a = ProfileAssignments::default();
    assert!(profiles.iter().any(|p| p.id == a.ac_profile));
    assert!(profiles.iter().any(|p| p.id == a.battery_profile));
    assert_eq!(
        tux_rs::dbus::profile::active_profile_name(&profiles, &a, tux_rs::dbus::profile::PowerState::Ac),
        "Office"
    );
    assert_eq!(
        tux_rs::dbus::profile::active_profile_name(&profiles, &a, tux_rs::dbus::profile::PowerState::Battery),
        "Quiet"
    );
}
