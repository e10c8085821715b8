use tux_rs::dbus::settings::{
    best_effort, capabilities, hw_brightness, keyboard_type_name, parse_hex_color, union_modes,
    GlobalSettings, KeyboardState, PowerSettings, SettingsInterface,
};
use tux_rs::device_table::{lookup_by_sku, DeviceRegistry};
use tux_rs::error::{IoError, IoErrorKind};
use tux_rs::device::KeyboardType;
use tux_rs::hid::discover::{open_ite_keyboard, IteKeyboard};
use tux_rs::hid::hidraw::{HidrawInfo, MockHidraw};
use tux_rs::hid::{KeyboardLed, Rgb};

#[test]
fn parse_hex_color_valid() {
    assert_eq!(parse_hex_color("#ff8000"), Rgb::new(255, 128, 0));
    assert_eq!(parse_hex_color("#000000"), Rgb::new(0, 0, 0));
    assert_eq!(parse_hex_color("aabbcc"), Rgb::new(0xaa, 0xbb, 0xcc));
}

#[test]
fn parse_hex_color_invalid_returns_white() {
    assert_eq!(parse_hex_color(""), Rgb::white());
    assert_eq!(parse_hex_color("#ff"), Rgb::white());
}

#[test]
fn parse_hex_color_bad_channels_are_full() {
    assert_eq!(parse_hex_color("#zz00+f"), Rgb::new(255, 0, 15));
}

#[test]
fn hw_brightness_matches_float_scaling() {
    for b in -5i64..=110 {
        let expected = ((b.clamp(0, 100) as f32 / 100.0) * 255.0) as u8;
        assert_eq!(hw_brightness(b), expected, "brightness {b}");
    }
}

#[test]
fn keyboard_type_names() {
    assert_eq!(keyboard_type_name(KeyboardType::Unavailable), "none");
    assert_eq!(keyboard_type_name(KeyboardType::WhiteLevels(3)), "white");
    assert_eq!(keyboard_type_name(KeyboardType::Rgb3Zone), "rgb");
}

#[test]
fn modes_are_deduplicated_in_order() {
    let lists = vec![
        vec!["static".to_string(), "breathing".to_string()],
        vec!["breathing".to_string(), "wave".to_string(), "static".to_string()],
    ];
    assert_eq!(union_modes(&lists), vec!["static".to_string(), "breathing".to_string(), "wave".to_string()]);
}

#[test]
fn get_capabilities_reflects_device() {
    let registry = DeviceRegistry::new();
    let device = lookup_by_sku(&registry, "AURA14GEN3").unwrap();
    let caps = capabilities(device, true, 2, true, &vec![vec![]], true, false, false);
    assert!(caps.fan_control);
    assert_eq!(caps.fan_count, 2);
    assert!(caps.keyboard_backlight);
    assert_eq!(caps.keyboard_type, "rgb");
    assert_eq!(caps.keyboard_modes, vec!["static"]);
    assert!(caps.charging_thresholds);
    assert!(!caps.charging_profiles);
    assert!(!caps.tdp_control);
    assert!(caps.power_profiles);
    assert!(!caps.gpu_control);
}

#[test]
fn get_capabilities_keyboard_unavailable_when_no_backends() {
    let registry = DeviceRegistry::new();
    let device = lookup_by_sku(&registry, "IBP14I07").unwrap();
    let caps = capabilities(device, true, 2, false, &vec![], true, false, true);
    assert!(!caps.keyboard_backlight);
    assert_eq!(caps.keyboard_type, "white");
    assert_eq!(caps.keyboard_modes, vec!["static"]);
    assert!(caps.charging_profiles);
    assert!(caps.display_brightness);
}

#[derive(Default)]
struct Calls {
    brightness: Vec<u8>,
    color: Option<(u8, Rgb)>,
    mode: Option<String>,
    turn_on_count: u32,
    turn_off_count: u32,
    flushed: bool,
}

struct RecordingKb {
    calls: Calls,
    fail_brightness: bool,
}

impl KeyboardLed for RecordingKb {
    fn set_brightness(&mut self, b: u8) -> Result<(), IoError> {
        if self.fail_brightness {
            return Err(IoError { kind: IoErrorKind::Other, message: "denied".to_string() });
        }
        self.calls.brightness.push(b);
        Ok(())
    }
    fn set_color(&mut self, zone: u8, color: Rgb) -> Result<(), IoError> {
        self.calls.color = Some((zone, color));
        Ok(())
    }
    fn set_mode(&mut self, mode: &str) -> Result<(), IoError> {
        self.calls.mode = Some(mode.to_string());
        Ok(())
    }
    fn zone_count(&self) -> u8 {
        1
    }
    fn turn_off(&mut self) -> Result<(), IoError> {
        self.calls.turn_off_count += 1;
        Ok(())
    }
    fn turn_on(&mut self) -> Result<(), IoError> {
        self.calls.turn_on_count += 1;
        Ok(())
    }
    fn flush(&mut self) -> Result<(), IoError> {
        self.calls.flushed = true;
        Ok(())
    }
    fn device_type(&self) -> &str {
        "recording"
    }
    fn available_modes(&self) -> Vec<String> {
        vec!["static".to_string()]
    }
}

fn settings_with(kb: RecordingKb) -> SettingsInterface<RecordingKb, (), ()> {
    let registry = DeviceRegistry::new();
    let device = lookup_by_sku(&registry, "AURA14GEN3").unwrap();
    SettingsInterface::new(device, true, 2, vec![kb], None, None, false, true, false)
}

#[test]
fn set_keyboard_state_forwards_color_and_mode_to_hardware() {
    let mut iface = settings_with(RecordingKb { calls: Calls::default(), fail_brightness: false });
    assert_eq!(iface.capabilities().keyboard_modes, vec!["static"]);
    let state = KeyboardState { brightness: 50, color: "#ff8000".to_string(), mode: "Static".to_string() };
    iface.set_keyboard_state(state).unwrap();
    assert_eq!(iface.keyboard_state().brightness, 50);
    assert_eq!(iface.keyboard_state().color, "#ff8000");
}

#[test]
fn set_keyboard_state_propagates_hardware_errors() {
    let mut iface = settings_with(RecordingKb { calls: Calls::default(), fail_brightness: true });
    let state = KeyboardState { brightness: 50, color: "#ffffff".to_string(), mode: "static".to_string() };
    let err = iface.set_keyboard_state(state).expect_err("must propagate hw failure");
    assert!(err.message().contains("set_brightness failed"), "unexpected error: {}", err.message());
    assert_eq!(err.message(), "keyboard recording: set_brightness failed: denied");
    assert_eq!(iface.keyboard_state().brightness, 0);
}

#[test]
fn apply_keyboard_state_steps() {
    let mut kb = RecordingKb { calls: Calls::default(), fail_brightness: false };
    tux_rs::dbus::settings::apply_keyboard_state(&mut kb, Rgb::new(255, 128, 0), "static", 127).unwrap();
    assert_eq!(kb.calls.brightness, vec![127, 127]);
    assert_eq!(kb.calls.color, Some((0, Rgb::new(255, 128, 0))));
    assert_eq!(kb.calls.mode.as_deref(), Some("static"));
    assert_eq!(kb.calls.turn_on_count, 1);
    assert_eq!(kb.calls.turn_off_count, 0);
    assert!(kb.calls.flushed);

    let mut off = RecordingKb { calls: Calls::default(), fail_brightness: false };
    tux_rs::dbus::settings::apply_keyboard_state(&mut off, Rgb::white(), "static", 0).unwrap();
    assert_eq!(off.calls.turn_off_count, 1);
    assert_eq!(off.calls.turn_on_count, 0);
    assert!(off.calls.flushed);
}

#[test]
fn get_global_settings_defaults() {
    let settings = GlobalSettings::default();
    assert_eq!(settings.temperature_unit, "celsius");
    assert!(settings.fan_control_enabled);
    assert!(settings.cpu_settings_enabled);
    let power = PowerSettings::default();
    assert_eq!(power.governor, "");
    assert!(!power.no_turbo);
}

#[test]
fn best_effort_power_writes() {
    let err = |m: &str| IoError { kind: IoErrorKind::Other, message: m.to_string() };
    assert!(best_effort(vec![]).is_ok());
    assert!(best_effort(vec![Err(err("a")), Ok(())]).is_ok());
    assert_eq!(best_effort(vec![Err(err("a")), Err(err("b"))]).unwrap_err().message, "a");
}

fn settings_without_keyboards() -> SettingsInterface<RecordingKb, (), ()> {
    let registry = DeviceRegistry::new();
    let device = lookup_by_sku(&registry, "AURA14GEN3").unwrap();
    SettingsInterface::new(device, true, 2, Vec::new(), None, None, false, true, false)
}

#[test]
fn keyboard_state_roundtrip() {
    let mut iface = settings_without_keyboards();
    let state = KeyboardState { brightness: 75, color: "#ff0000".to_string(), mode: "breathing".to_string() };
    iface.set_keyboard_state(state).unwrap();
    let back = iface.keyboard_state();
    assert_eq!(back.brightness, 75);
    assert_eq!(back.color, "#ff0000");
    assert_eq!(back.mode, "breathing");
}

/// A keyboard whose calls stay visible after it is handed over.
struct SharedKb(std::rc::Rc<std::cell::RefCell<Calls>>);

impl KeyboardLed for SharedKb {
    fn set_brightness(&mut self, b: u8) -> Result<(), IoError> {
        self.0.borrow_mut().brightness.push(b);
        Ok(())
    }
    fn set_color(&mut self, zone: u8, color: Rgb) -> Result<(), IoError> {
        self.0.borrow_mut().color = Some((zone, color));
        Ok(())
    }
    fn set_mode(&mut self, mode: &str) -> Result<(), IoError> {
        self.0.borrow_mut().mode = Some(mode.to_string());
        Ok(())
    }
    fn zone_count(&self) -> u8 {
        1
    }
    fn turn_off(&mut self) -> Result<(), IoError> {
        self.0.borrow_mut().turn_off_count += 1;
        Ok(())
    }
    fn turn_on(&mut self) -> Result<(), IoError> {
        self.0.borrow_mut().turn_on_count += 1;
        Ok(())
    }
    fn flush(&mut self) -> Result<(), IoError> {
        self.0.borrow_mut().flushed = true;
        Ok(())
    }
    fn device_type(&self) -> &str {
        "mock"
    }
    fn available_modes(&self) -> Vec<String> {
        vec!["static".into()]
    }
}

#[test]
fn set_keyboard_state_zero_turns_off_hardware() {
    let calls = std::rc::Rc::new(std::cell::RefCell::new(Calls::default()));
    let registry = DeviceRegistry::new();
    let device = lookup_by_sku(&registry, "AURA14GEN3").unwrap();
    let kb = SharedKb(calls.clone());
    let mut iface: SettingsInterface<SharedKb, (), ()> =
        SettingsInterface::new(device, true, 2, vec![kb], None, None, false, true, false);
    let state = KeyboardState { brightness: 0, color: "#ffffff".to_string(), mode: "static".to_string() };
    iface.set_keyboard_state(state).unwrap();
    let c = calls.borrow();
    assert_eq!(c.turn_off_count, 1);
    assert_eq!(c.turn_on_count, 0);
    assert!(c.flushed);
}

#[test]
fn power_settings_returns_defaults_without_governor() {
    let iface = settings_without_keyboards();
    assert!(iface.cpu_governor().is_none());
    let settings = PowerSettings::default();
    assert_eq!(settings.governor, "");
    assert!(!settings.no_turbo);
}

#[test]
fn set_keyboard_state_lowercases_mode_and_parses_color() {
    let calls = std::rc::Rc::new(std::cell::RefCell::new(Calls::default()));
    let registry = DeviceRegistry::new();
    let device = lookup_by_sku(&registry, "AURA14GEN3").unwrap();
    let kb = SharedKb(calls.clone());
    let mut iface: SettingsInterface<SharedKb, (), ()> =
        SettingsInterface::new(device, true, 2, vec![kb], None, None, false, true, false);
    let state = KeyboardState { brightness: 100, color: "#00FF80".to_string(), mode: "BREATHING".to_string() };
    iface.set_keyboard_state(state).unwrap();
    let c = calls.borrow();
    assert_eq!(c.mode.as_deref(), Some("breathing"));
    assert_eq!(c.color, Some((0, Rgb::new(0, 255, 128))));
    assert_eq!(c.brightness, vec![255, 255]);
    assert_eq!(c.turn_on_count, 1);
}

fn ite(pid: u16) -> IteKeyboard<MockHidraw> {
    let info = HidrawInfo { bus_type: 3, vendor_id: 0x048d, product_id: pid };
    open_ite_keyboard(MockHidraw::new(pid), info, "").unwrap()
}

#[test]
fn capabilities_list_the_keyboards_own_modes() {
    let registry = DeviceRegistry::new();
    let device = lookup_by_sku(&registry, "AURA14GEN3").unwrap();
    let iface: SettingsInterface<IteKeyboard<MockHidraw>, (), ()> =
        SettingsInterface::new(device, true, 2, vec![ite(0x8910), ite(0x6010)], None, None, false, true, false);
    assert_eq!(
        iface.capabilities().keyboard_modes,
        vec!["static".to_string(), "random".to_string(), "breathing".to_string()]
    );
}
