use tux_rs::fan_curve::{curve_to_ec_zones, interpolate, percent_to_pwm, FanConfig, FanCurvePoint, FanMode};

fn default_curve() -> Vec<FanCurvePoint> {
    vec![
        FanCurvePoint { temp: 0, speed: 0 },
        FanCurvePoint { temp: 25, speed: 10 },
        FanCurvePoint { temp: 50, speed: 30 },
        FanCurvePoint { temp: 75, speed: 70 },
        FanCurvePoint { temp: 100, speed: 100 },
    ]
}

#[test]
fn interpolate_below_first_point() {
    let curve = default_curve();
    assert_eq!(interpolate(&curve, 0), 0);
}

#[test]
fn interpolate_above_last_point() {
    let curve = default_curve();
    assert_eq!(interpolate(&curve, 100), 100);
    assert_eq!(interpolate(&curve, 255), 100);
}

#[test]
fn interpolate_exact_match() {
    let curve = default_curve();
    assert_eq!(interpolate(&curve, 0), 0);
    assert_eq!(interpolate(&curve, 25), 10);
    assert_eq!(interpolate(&curve, 50), 30);
    assert_eq!(interpolate(&curve, 75), 70);
    assert_eq!(interpolate(&curve, 100), 100);
}

#[test]
fn interpolate_between_points() {
    let curve = default_curve();
    assert_eq!(interpolate(&curve, 12), 4);
    assert_eq!(interpolate(&curve, 37), 19);
}

#[test]
fn interpolate_empty_curve() {
    assert_eq!(interpolate(&[], 50), 100);
}

#[test]
fn interpolate_descending_curve() {
    let curve = vec![FanCurvePoint { temp: 60, speed: 80 }, FanCurvePoint { temp: 80, speed: 30 }];
    assert_eq!(interpolate(&curve, 60), 80);
    assert_eq!(interpolate(&curve, 80), 30);
    assert_eq!(interpolate(&curve, 70), 55);
}

#[test]
fn interpolate_single_point() {
    let curve = vec![FanCurvePoint { temp: 60, speed: 50 }];
    assert_eq!(interpolate(&curve, 30), 50);
    assert_eq!(interpolate(&curve, 60), 50);
    assert_eq!(interpolate(&curve, 90), 50);
}

#[test]
fn percent_to_pwm_boundaries() {
    assert_eq!(percent_to_pwm(0), 0);
    assert_eq!(percent_to_pwm(100), 255);
}

#[test]
fn percent_to_pwm_midpoint() {
    assert_eq!(percent_to_pwm(50), 128);
}

#[test]
fn percent_to_pwm_clamps_above_100() {
    assert_eq!(percent_to_pwm(200), 255);
}

#[test]
fn fan_curve_default_config_is_valid() {
    assert!(FanConfig::default().validate().is_ok());
}

#[test]
fn validate_rejects_low_poll_ms() {
    let cfg = FanConfig { active_poll_ms: 0, ..Default::default() };
    assert!(cfg.validate().is_err());
}

#[test]
fn validate_rejects_speed_above_100() {
    let mut cfg = FanConfig::default();
    cfg.curve.push(FanCurvePoint { temp: 95, speed: 120 });
    assert!(cfg.validate().is_err());
}

#[test]
fn validate_rejects_unsorted_curve() {
    let cfg = FanConfig {
        curve: vec![FanCurvePoint { temp: 80, speed: 80 }, FanCurvePoint { temp: 60, speed: 30 }],
        ..Default::default()
    };
    assert!(cfg.validate().is_err());
}

#[test]
fn validate_rejects_min_speed_above_100() {
    let cfg = FanConfig { min_speed_percent: 150, ..Default::default() };
    assert!(cfg.validate().is_err());
}

#[test]
fn curve_to_ec_zones_empty_curve_returns_safety() {
    let zones = curve_to_ec_zones(&[], 0);
    assert_eq!(zones.len(), 1);
    assert_eq!(zones[0], (115, 200));
}

#[test]
fn curve_to_ec_zones_produces_16_zones() {
    let curve = default_curve();
    let zones = curve_to_ec_zones(&curve, 25);
    assert_eq!(zones.len(), 16);
    assert_eq!(zones[15].0, 115);
}

#[test]
fn curve_to_ec_zones_respects_min_speed() {
    let curve = vec![FanCurvePoint { temp: 0, speed: 0 }, FanCurvePoint { temp: 100, speed: 50 }];
    let zones = curve_to_ec_zones(&curve, 30);
    for &(_, speed) in &zones {
        assert!(speed >= 60, "speed {speed} below min_speed 30% (60 EC)");
    }
}

#[test]
fn curve_to_ec_zones_monotonically_increasing() {
    let curve = default_curve();
    let zones = curve_to_ec_zones(&curve, 0);
    for pair in zones.windows(2) {
        assert!(pair[1].1 >= pair[0].1, "zone speeds should be non-decreasing: {} < {}", pair[1].1, pair[0].1);
    }
}

#[test]
fn curve_to_ec_zones_speed_range() {
    let curve = default_curve();
    let zones = curve_to_ec_zones(&curve, 0);
    for &(_, speed) in &zones {
        assert!(speed >= 20, "speed {speed} below EC minimum 20");
        assert!(speed <= 200, "speed {speed} above EC maximum 200");
    }
}

#[test]
fn default_config_values() {
    let cfg = FanConfig::default();
    assert_eq!(cfg.mode, FanMode::CustomCurve);
    assert_eq!(cfg.min_speed_percent, 25);
    assert_eq!(cfg.curve, default_curve());
}

#[test]
fn validate_error_messages() {
    let cfg = FanConfig { active_poll_ms: 0, ..Default::default() };
    assert_eq!(cfg.validate(), Err("active_poll_ms too low (min 10)"));
}

#[test]
fn ec_zone_endpoints_step_by_seven() {
    let zones = curve_to_ec_zones(&default_curve(), 0);
    assert_eq!(zones[0].0, 7);
    assert_eq!(zones[1].0, 14);
}
