use std::collections::HashMap;

use tux_rs::error::{IoError, IoErrorKind};
use tux_rs::hid::discover::{open_ite_keyboard, AnyKeyboard};
use tux_rs::hid::hidraw::{HidrawInfo, MockHidraw};
use tux_rs::hid::sysfs_kbd::{parse_max_brightness, LedAttrs, SysfsRgbKeyboard, SysfsWhiteKeyboard};
use tux_rs::hid::{KeyboardLed, Rgb};
use tux_rs::text::unsigned_parse_error;

/// An LED device whose attribute files live in memory.
#[derive(Default)]
struct MemLed {
    files: HashMap<String, String>,
}

impl LedAttrs for MemLed {
    fn write_attr(&mut self, file: &str, value: &str) -> Result<(), IoError> {
        self.files.insert(file.to_string(), value.to_string());
        Ok(())
    }
}

fn attr(kb_files: &HashMap<String, String>, name: &str) -> String {
    kb_files.get(name).cloned().unwrap_or_default()
}

#[test]
fn open_reads_max_brightness() {
    let kb = SysfsRgbKeyboard::open(MemLed::default(), "200\n").unwrap();
    assert_eq!(kb.max_brightness(), 200);
}

#[test]
fn open_fails_on_bad_max() {
    let err = SysfsRgbKeyboard::open(MemLed::default(), "").err().unwrap();
    assert_eq!(err.kind, IoErrorKind::InvalidData);
    assert_eq!(err.message, "cannot parse integer from empty string");
    let zero = SysfsRgbKeyboard::open(MemLed::default(), "0\n").err().unwrap();
    assert_eq!(zero.message, "max_brightness is 0");
}

#[test]
fn set_brightness_scales_to_max() {
    let mut kb = SysfsRgbKeyboard::open(MemLed::default(), "200\n").unwrap();
    kb.set_brightness(255).unwrap();
    assert_eq!(attr(&kb.attrs().files, "brightness"), "200");
    kb.set_brightness(128).unwrap();
    let val: u32 = attr(&kb.attrs().files, "brightness").trim().parse().unwrap();
    assert_eq!(val, 100);
    kb.set_brightness(0).unwrap();
    assert_eq!(attr(&kb.attrs().files, "brightness"), "0");
}

#[test]
fn set_color_writes_multi_intensity() {
    let mut kb = SysfsRgbKeyboard::open(MemLed::default(), "200\n").unwrap();
    kb.set_color(0, Rgb::new(255, 128, 0)).unwrap();
    assert_eq!(attr(&kb.attrs().files, "multi_intensity"), "255 128 0");
}

#[test]
fn available_modes_is_static_only() {
    let kb = SysfsRgbKeyboard::open(MemLed::default(), "200\n").unwrap();
    assert_eq!(kb.available_modes(), vec!["static"]);
    assert_eq!(kb.device_type(), "sysfs_rgb");
    assert_eq!(kb.zone_count(), 1);
}

#[test]
fn turn_off_sets_brightness_zero() {
    let mut kb = SysfsRgbKeyboard::open(MemLed::default(), "200\n").unwrap();
    kb.set_brightness(200).unwrap();
    kb.turn_off().unwrap();
    assert_eq!(attr(&kb.attrs().files, "brightness"), "0");
    kb.turn_on().unwrap();
    assert_eq!(attr(&kb.attrs().files, "brightness"), "200");
}

#[test]
fn white_open_reads_max_brightness() {
    let kb = SysfsWhiteKeyboard::open(MemLed::default(), "2\n").unwrap();
    assert_eq!(kb.max_brightness(), 2);
    assert_eq!(kb.device_type(), "sysfs_white");
    assert_eq!(kb.zone_count(), 1);
    assert_eq!(kb.available_modes(), vec!["static"]);
}

#[test]
fn white_brightness_scales_with_rounding() {
    let mut kb = SysfsWhiteKeyboard::open(MemLed::default(), "2\n").unwrap();
    kb.set_brightness(0).unwrap();
    assert_eq!(attr(&kb.attrs().files, "brightness"), "0");
    kb.set_brightness(255).unwrap();
    assert_eq!(attr(&kb.attrs().files, "brightness"), "2");
    kb.set_brightness(128).unwrap();
    assert_eq!(attr(&kb.attrs().files, "brightness").trim(), "2");
    kb.set_brightness(64).unwrap();
    assert_eq!(attr(&kb.attrs().files, "brightness").trim(), "1");
    kb.set_brightness(63).unwrap();
    assert_eq!(attr(&kb.attrs().files, "brightness").trim(), "1");
}

#[test]
fn white_color_is_noop() {
    let mut kb = SysfsWhiteKeyboard::open(MemLed::default(), "2\n").unwrap();
    kb.set_color(0, Rgb::new(255, 0, 0)).unwrap();
    assert!(!kb.attrs().files.contains_key("multi_intensity"));
}

#[test]
fn white_turn_off_on() {
    let mut kb = SysfsWhiteKeyboard::open(MemLed::default(), "2\n").unwrap();
    kb.set_brightness(255).unwrap();
    kb.turn_off().unwrap();
    assert_eq!(attr(&kb.attrs().files, "brightness"), "0");
    kb.turn_on().unwrap();
    assert_eq!(attr(&kb.attrs().files, "brightness"), "2");
}

#[test]
fn white_many_levels_round_to_nearest() {
    let mut kb = SysfsWhiteKeyboard::open(MemLed::default(), "3").unwrap();
    kb.set_brightness(43).unwrap();
    // 43 * 3 = 129, + 127 = 256, / 255 = 1
    assert_eq!(attr(&kb.attrs().files, "brightness"), "1");
    kb.set_brightness(42).unwrap();
    assert_eq!(attr(&kb.attrs().files, "brightness"), "0");
}

#[test]
fn parse_errors_match_std_messages() {
    for text in ["", "+", "-1", "12a", "65536", "99999x", "1x99999", " 7 ", "+42"] {
        let expected = text.trim().parse::<u16>();
        match (parse_max_brightness(text), expected) {
            (Ok(v), Ok(e)) => assert_eq!(v, e),
            (Err(err), Ok(0)) => assert_eq!(err.message, "max_brightness is 0"),
            (Err(err), Err(e)) => {
                assert_eq!(err.message, e.to_string());
                assert_eq!(unsigned_parse_error(text.trim(), 65535), e.to_string());
            }
            (got, e) => panic!("{text:?}: got {:?}, expected {e:?}", got.map_err(|x| x.message)),
        }
    }
}

fn ite_any(pid: u16) -> AnyKeyboard<MockHidraw, MemLed> {
    let info = HidrawInfo { bus_type: 3, vendor_id: 0x048d, product_id: pid };
    let kb = open_ite_keyboard(MockHidraw::new(pid), info, "").unwrap();
    AnyKeyboard::Ite(kb)
}

#[test]
fn any_keyboard_reports_family_modes_and_zones() {
    let kb = ite_any(0x8291);
    assert_eq!(kb.device_type(), "ite8291");
    assert_eq!(kb.zone_count(), 4);
    assert_eq!(kb.available_modes().len(), 10);
    let lb = ite_any(0x6010);
    assert_eq!(lb.device_type(), "ite8291_lb");
    assert_eq!(lb.zone_count(), 1);
    assert_eq!(lb.available_modes(), vec!["static".to_string(), "breathing".to_string()]);
    let rgb: AnyKeyboard<MockHidraw, MemLed> =
        AnyKeyboard::SysfsRgb(SysfsRgbKeyboard::open(MemLed::default(), "255").unwrap());
    assert_eq!(rgb.device_type(), "sysfs_rgb");
    assert_eq!(rgb.zone_count(), 1);
    assert_eq!(rgb.available_modes(), vec!["static".to_string()]);
}

#[test]
fn any_keyboard_refuses_unknown_mode_by_family() {
    let mut kb = ite_any(0x8297);
    let err = kb.set_mode("wave").err().unwrap();
    assert_eq!(err.kind, IoErrorKind::InvalidInput);
    assert_eq!(err.message, "ite8297 only supports 'static' mode, got: wave");
    assert!(kb.set_mode("static").is_ok());
    let mut x = ite_any(0x8910);
    assert_eq!(x.set_mode("wave").err().unwrap().message, "unknown ite829x mode: wave");
    let mut white: AnyKeyboard<MockHidraw, MemLed> =
        AnyKeyboard::SysfsWhite(SysfsWhiteKeyboard::open(MemLed::default(), "2").unwrap());
    assert!(white.set_mode("wave").is_ok());
    assert!(white.set_color(0, Rgb::new(1, 2, 3)).is_ok());
}
