use std::sync::Mutex;

use tux_rs::dbus::fan::{
    check_fan_index, fan_health, fan_info, fan_speed_from, get_fan_speed, get_temperature,
    parse_fan_mode, record_manual_pwm, rpm_reading, synthetic_rpm,
};
use tux_rs::dbus::gpu_power::GpuPowerInterface;
use tux_rs::dbus::keyboard::KeyboardInterface;
use tux_rs::dbus::device::DeviceInterface;
use tux_rs::dbus::{optional_interfaces, BusError};
use tux_rs::device::ChargingCapability;
use tux_rs::backend::fan::FanBackend;
use tux_rs::error::{IoError, IoErrorKind};
use tux_rs::fan_curve::FanMode;
use tux_rs::gpu::{classify_gpu, GpuPowerBackend, GpuType};
use tux_rs::hid::{KeyboardLed, Rgb};
use tux_rs::mock::fan::MockFanBackend;

struct MockGpuPower {
    value: Mutex<u8>,
}

impl MockGpuPower {
    fn new(initial: u8) -> Self {
        Self { value: Mutex::new(initial) }
    }
}

impl GpuPowerBackend for MockGpuPower {
    fn get_ctgp_offset(&self) -> Result<u8, IoError> {
        Ok(*self.value.lock().unwrap())
    }

    fn set_ctgp_offset(&mut self, watts: u8) -> Result<(), IoError> {
        *self.value.lock().unwrap() = watts;
        Ok(())
    }
}

struct FailingGpuPower;

impl GpuPowerBackend for FailingGpuPower {
    fn get_ctgp_offset(&self) -> Result<u8, IoError> {
        Err(IoError { kind: IoErrorKind::Other, message: "no access".to_string() })
    }

    fn set_ctgp_offset(&mut self, _watts: u8) -> Result<(), IoError> {
        Err(IoError { kind: IoErrorKind::Other, message: "no access".to_string() })
    }
}

#[test]
fn get_ctgp_returns_value() {
    let iface = GpuPowerInterface::new(MockGpuPower::new(12));
    assert_eq!(iface.get_ctgp_offset().unwrap(), 12);
}

#[test]
fn set_ctgp_updates_value() {
    let mut iface = GpuPowerInterface::new(MockGpuPower::new(0));
    iface.set_ctgp_offset(20).unwrap();
    assert_eq!(iface.backend().get_ctgp_offset().unwrap(), 20);
}

#[test]
fn get_ctgp_propagates_error() {
    let iface = GpuPowerInterface::new(FailingGpuPower);
    assert!(iface.get_ctgp_offset().is_err());
}

#[test]
fn set_ctgp_propagates_error() {
    let mut iface = GpuPowerInterface::new(FailingGpuPower);
    assert!(iface.set_ctgp_offset(10).is_err());
}

struct MockKb {
    brightness: u8,
    color: Rgb,
    on: bool,
    mode: String,
}

impl MockKb {
    fn new() -> Self {
        Self { brightness: 255, color: Rgb::white(), on: true, mode: "static".to_string() }
    }
}

impl KeyboardLed for MockKb {
    fn set_brightness(&mut self, b: u8) -> Result<(), IoError> {
        self.brightness = b;
        Ok(())
    }
    fn set_color(&mut self, _zone: u8, c: Rgb) -> Result<(), IoError> {
        self.color = c;
        Ok(())
    }
    fn set_mode(&mut self, m: &str) -> Result<(), IoError> {
        self.mode = m.to_string();
        Ok(())
    }
    fn zone_count(&self) -> u8 {
        4
    }
    fn turn_off(&mut self) -> Result<(), IoError> {
        self.on = false;
        Ok(())
    }
    fn turn_on(&mut self) -> Result<(), IoError> {
        self.on = true;
        Ok(())
    }
    fn flush(&mut self) -> Result<(), IoError> {
        Ok(())
    }
    fn device_type(&self) -> &str {
        "mock"
    }
    fn available_modes(&self) -> Vec<String> {
        vec!["static".to_string()]
    }
}

#[test]
fn keyboard_count_matches_registered() {
    let iface = KeyboardInterface::new(vec![MockKb::new(), MockKb::new()]);
    assert_eq!(iface.keyboard_count(), 2);
}

#[test]
fn invalid_index_returns_error() {
    let mut iface: KeyboardInterface<MockKb> = KeyboardInterface::new(vec![]);
    let result = iface.flush(0);
    assert!(matches!(result, Err(BusError::InvalidArgs(m)) if m == "invalid keyboard index: 0"));
}

#[test]
fn set_operations_succeed() {
    let mut iface = KeyboardInterface::new(vec![MockKb::new()]);
    assert!(iface.set_brightness(0, 128).is_ok());
    assert!(iface.set_color(0, 0, 255, 0, 0).is_ok());
    assert!(iface.turn_off(0).is_ok());
    assert!(iface.turn_on(0).is_ok());
    let kb = iface.keyboard(0).unwrap();
    assert_eq!(kb.brightness, 128);
    assert_eq!(kb.color, Rgb::new(255, 0, 0));
    assert!(kb.on);
}

#[test]
fn zone_out_of_range_fails() {
    let mut iface = KeyboardInterface::new(vec![MockKb::new()]);
    let err = iface.set_color(0, 4, 1, 2, 3).unwrap_err();
    assert_eq!(err.message(), "zone 4 out of range (device has 4 zones)");
    assert!(iface.set_mode(0, "wave").is_ok());
    assert_eq!(iface.keyboard(0).unwrap().mode, "wave");
}

#[test]
fn device_interface_reports_values() {
    let iface = DeviceInterface::new("TUXEDO Pulse 14 Gen3".to_string(), "NB05".to_string());
    assert_eq!(iface.device_name(), "TUXEDO Pulse 14 Gen3");
    assert_eq!(iface.platform(), "NB05");
    assert_eq!(iface.daemon_version(), tux_rs::version());
}

#[test]
fn get_fan_speed_returns_rpm_when_nonzero() {
    let mut backend = MockFanBackend::new(1);
    backend.set_rpm(0, 2500);
    assert_eq!(get_fan_speed(&backend, 0).unwrap(), 2500);
}

#[test]
fn get_fan_speed_falls_back_to_pwm_when_rpm_zero() {
    let mut backend = MockFanBackend::new(1);
    backend.write_pwm(0, 128).unwrap();
    assert_eq!(get_fan_speed(&backend, 0).unwrap(), 3012);
}

#[test]
fn get_fan_speed_pwm_zero_returns_zero() {
    let backend = MockFanBackend::new(1);
    assert_eq!(get_fan_speed(&backend, 0).unwrap(), 0);
}

#[test]
fn get_fan_speed_pwm_max_returns_max_rpm() {
    let mut backend = MockFanBackend::new(1);
    backend.write_pwm(0, 255).unwrap();
    assert_eq!(get_fan_speed(&backend, 0).unwrap(), 6000);
}

#[test]
fn get_fan_speed_prefers_rpm_over_pwm() {
    let mut backend = MockFanBackend::new(1);
    backend.set_rpm(0, 3000);
    backend.write_pwm(0, 128).unwrap();
    assert_eq!(get_fan_speed(&backend, 0).unwrap(), 3000);
}

#[test]
fn get_fan_speed_invalid_index() {
    let backend = MockFanBackend::new(1);
    assert!(get_fan_speed(&backend, 1).is_err());
    assert!(matches!(get_fan_speed(&backend, 300), Err(BusError::InvalidArgs(_))));
}

#[test]
fn get_fan_info_multi_fan() {
    let info = fan_info(2);
    assert_eq!(info.max_rpm, 6000);
    assert_eq!(info.min_rpm, 0);
    assert!(info.multi_fan);
    assert_eq!(info.num_fans, 2);
}

#[test]
fn get_fan_info_single_fan() {
    let info = fan_info(1);
    assert!(!info.multi_fan);
    assert_eq!(info.num_fans, 1);
}

#[test]
fn get_temperature_sensor_0() {
    let mut backend = MockFanBackend::new(1);
    backend.set_temp(65);
    assert_eq!(get_temperature(&backend, 0).unwrap(), 65000);
}

#[test]
fn get_temperature_invalid_sensor() {
    let backend = MockFanBackend::new(1);
    assert!(get_temperature(&backend, 1).is_err());
}

#[test]
fn get_fan_health_levels() {
    let ok = fan_health(0);
    assert_eq!(ok.status, "ok");
    assert_eq!(ok.consecutive_failures, 0);
    assert_eq!(fan_health(4).status, "ok");
    assert_eq!(fan_health(5).status, "degraded");
    assert_eq!(fan_health(29).status, "degraded");
    assert_eq!(fan_health(30).status, "failed");
}

#[test]
fn set_fan_mode_names() {
    assert_eq!(parse_fan_mode("custom").unwrap(), FanMode::CustomCurve);
    assert_eq!(parse_fan_mode("custom-curve").unwrap(), FanMode::CustomCurve);
    assert_eq!(parse_fan_mode("auto").unwrap(), FanMode::Auto);
    assert_eq!(parse_fan_mode("manual").unwrap(), FanMode::Manual);
    let err = parse_fan_mode("turbo").unwrap_err();
    assert_eq!(err.message(), "unknown mode: turbo");
}

#[test]
fn fan_speed_helpers() {
    assert_eq!(check_fan_index(255).unwrap(), 255);
    assert!(check_fan_index(256).is_err());
    assert_eq!(synthetic_rpm(128), 3012);
    assert_eq!(fan_speed_from(0, 255), 6000);
    assert_eq!(fan_speed_from(1200, 255), 1200);
    let unsupported = IoError { kind: IoErrorKind::Unsupported, message: "none".to_string() };
    assert_eq!(rpm_reading(Err(unsupported)).unwrap(), 0);
    let other = IoError { kind: IoErrorKind::Other, message: "boom".to_string() };
    assert!(rpm_reading(Err(other)).is_err());
}

#[test]
fn manual_pwm_setpoints_grow() {
    let mut pwms = Vec::new();
    record_manual_pwm(&mut pwms, 2, 90);
    assert_eq!(pwms, vec![128, 128, 90]);
    record_manual_pwm(&mut pwms, 0, 10);
    assert_eq!(pwms, vec![10, 128, 90]);
}

#[test]
fn gpu_types() {
    assert_eq!(GpuType::Discrete.as_wire_str(), "discrete");
    assert_eq!(GpuType::Integrated.as_wire_str(), "integrated");
    assert_eq!(classify_gpu("nvidia", None), Some(GpuType::Discrete));
    assert_eq!(classify_gpu("i915", None), Some(GpuType::Integrated));
    assert_eq!(classify_gpu("xe", None), Some(GpuType::Integrated));
    assert_eq!(classify_gpu("amdgpu", Some(true)), Some(GpuType::Integrated));
    assert_eq!(classify_gpu("amdgpu", Some(false)), Some(GpuType::Discrete));
    assert_eq!(classify_gpu("amdgpu", None), Some(GpuType::Discrete));
    assert_eq!(classify_gpu("coretemp", None), None);
}

/// A fan's RPM, duty and whether the RPM is a real reading, as the Fan
/// interface's `GetFanData` reports them.
fn fan_data<B: FanBackend>(backend: &B, fan_index: u32) -> Result<(u32, u8, bool), BusError> {
    let idx = check_fan_index(fan_index)?;
    let rpm = rpm_reading(backend.read_fan_rpm(idx))?;
    let duty = backend.read_pwm(idx).map_err(tux_rs::dbus::failed)?;
    Ok((rpm as u32, duty, rpm > 0))
}

/// A backend whose RPM sensor is not supported.
struct NoRpmFan(MockFanBackend);

impl FanBackend for NoRpmFan {
    fn read_temp(&self) -> Result<u8, IoError> {
        self.0.read_temp()
    }
    fn write_pwm(&mut self, fan_index: u8, pwm: u8) -> Result<(), IoError> {
        self.0.write_pwm(fan_index, pwm)
    }
    fn read_pwm(&self, fan_index: u8) -> Result<u8, IoError> {
        self.0.read_pwm(fan_index)
    }
    fn set_auto(&mut self, fan_index: u8) -> Result<(), IoError> {
        self.0.set_auto(fan_index)
    }
    fn read_fan_rpm(&self, _fan_index: u8) -> Result<u16, IoError> {
        Err(IoError { kind: IoErrorKind::Unsupported, message: "no tachometer".to_string() })
    }
    fn num_fans(&self) -> u8 {
        self.0.num_fans()
    }
}

#[test]
fn set_fan_speed_writes_pwm() {
    let mut backend = MockFanBackend::new(2);
    let idx = check_fan_index(0).unwrap();
    backend.write_pwm(idx, 200).unwrap();
    assert_eq!(backend.read_pwm(0).unwrap(), 200);
    assert_eq!(backend.read_pwm(1).unwrap(), 0); // untouched
}

#[test]
fn set_auto_mode_restores_auto() {
    let mut backend = MockFanBackend::new(1);
    backend.write_pwm(check_fan_index(0).unwrap(), 128).unwrap();
    assert!(!backend.is_auto(0));
    backend.set_auto(check_fan_index(0).unwrap()).unwrap();
    assert!(backend.is_auto(0));
}

#[test]
fn get_fan_data_returns_duty_and_rpm_available() {
    let mut backend = MockFanBackend::new(1);
    backend.set_rpm(0, 2400);
    backend.write_pwm(0, 128).unwrap();
    backend.set_temp(65);
    let (rpm, duty, rpm_available) = fan_data(&backend, 0).unwrap();
    assert_eq!(rpm, 2400);
    assert_eq!(duty, 128);
    assert!(rpm_available, "rpm_available should be true when rpm > 0");
}

#[test]
fn get_fan_data_rpm_not_available_when_zero() {
    let mut backend = MockFanBackend::new(1);
    backend.write_pwm(0, 100).unwrap();
    let (rpm, duty, rpm_available) = fan_data(&backend, 0).unwrap();
    assert_eq!(rpm, 0);
    assert_eq!(duty, 100);
    assert!(!rpm_available, "rpm_available should be false when rpm == 0");
}

#[test]
fn get_fan_data_succeeds_when_rpm_unsupported() {
    let mut backend = NoRpmFan(MockFanBackend::new(1));
    backend.write_pwm(0, 180).unwrap();
    let (rpm, duty, rpm_available) = fan_data(&backend, 0).unwrap();
    assert_eq!(rpm, 0, "rpm should be 0 when unsupported");
    assert_eq!(duty, 180, "duty must still be reported");
    assert!(!rpm_available, "rpm_available must be false when unsupported");
}

#[test]
fn get_fan_health_ok_when_no_failures() {
    let health = fan_health(0);
    assert_eq!(health.status, "ok");
    assert_eq!(health.consecutive_failures, 0);
}

#[test]
fn get_fan_health_degraded_at_five_failures() {
    assert_eq!(fan_health(5).status, "degraded");
}

#[test]
fn get_fan_health_failed_at_thirty_failures() {
    assert_eq!(fan_health(30).status, "failed");
}

#[test]
fn set_fan_mode_custom() {
    assert_eq!(parse_fan_mode("custom").unwrap(), FanMode::CustomCurve);
}

#[test]
fn set_fan_mode_auto() {
    assert_eq!(parse_fan_mode("auto").unwrap(), FanMode::Auto);
}

#[test]
fn set_fan_mode_invalid() {
    assert!(parse_fan_mode("turbo").is_err());
}

#[test]
fn discover_nvidia_gpu() {
    assert_eq!(classify_gpu("nvidia", None), Some(GpuType::Discrete));
}

#[test]
fn discover_intel_igpu() {
    assert_eq!(classify_gpu("i915", None), Some(GpuType::Integrated));
}

#[test]
fn discover_intel_igpu_xe() {
    assert_eq!(classify_gpu("xe", None), Some(GpuType::Integrated));
}

#[test]
fn discover_amdgpu_apu_classified_integrated() {
    // amdgpu with boot_vga=1 is the primary VGA → APU iGPU
    assert_eq!(classify_gpu("amdgpu", Some(true)), Some(GpuType::Integrated));
}

#[test]
fn discover_amdgpu_dgpu_classified_discrete() {
    // amdgpu with boot_vga=0 is a non-primary discrete card
    assert_eq!(classify_gpu("amdgpu", Some(false)), Some(GpuType::Discrete));
}

#[test]
fn discover_amdgpu_missing_boot_vga_falls_back_to_discrete() {
    assert_eq!(classify_gpu("amdgpu", None), Some(GpuType::Discrete));
}

#[test]
fn discover_hybrid_amd_apu_plus_nvidia_dgpu() {
    assert_eq!(classify_gpu("amdgpu", Some(true)), Some(GpuType::Integrated));
    assert_eq!(classify_gpu("nvidia", None), Some(GpuType::Discrete));
}

#[test]
fn discover_hybrid_intel_igpu_plus_nvidia_dgpu() {
    assert_eq!(classify_gpu("i915", None), Some(GpuType::Integrated));
    assert_eq!(classify_gpu("nvidia", None), Some(GpuType::Discrete));
}

#[test]
fn no_gpu_present_returns_empty() {
    // A non-GPU hwmon device.
    assert_eq!(classify_gpu("coretemp", None), None);
}

#[test]
fn gpu_data_conversion_carries_wire_strings() {
    assert_eq!(GpuType::Integrated.as_wire_str(), "integrated");
    assert_eq!(GpuType::Discrete.as_wire_str(), "discrete");
}

#[test]
fn optional_interfaces_follow_the_hardware() {
    let served = optional_interfaces(true, 0, ChargingCapability::Unavailable, false, true);
    assert!(served.fan);
    assert!(!served.keyboard);
    assert!(!served.charging);
    assert!(!served.cpu);
    assert!(served.gpu_power);
    let other = optional_interfaces(false, 2, ChargingCapability::Flexicharger, true, false);
    assert!(other.keyboard);
    assert!(other.charging);
}
