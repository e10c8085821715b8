use tux_rs::hid::discover::{
    ite_family, ite_products, is_hidraw_name, is_ite_keyboard, keyboard_family, led_kind,
    IteFamily, SysfsLedKind, ITE_VENDOR_ID,
};
use tux_rs::hid::hidraw::{HidrawInfo, HidrawOps, MockHidraw};
use tux_rs::hid::ite8291_lb::LbVariant;
use tux_rs::hid::ite829x::led_id;
use tux_rs::hid::{scale_brightness, Rgb};

#[test]
fn rgb_default_is_black() {
    assert_eq!(Rgb::default(), Rgb::off());
}

#[test]
fn rgb_white_constant() {
    assert_eq!(Rgb::white(), Rgb::new(255, 255, 255));
}

#[test]
fn scale_brightness_full_range() {
    assert_eq!(scale_brightness(255, 50), 50);
    assert_eq!(scale_brightness(255, 100), 100);
    assert_eq!(scale_brightness(255, 10), 10);
}

#[test]
fn scale_brightness_zero() {
    assert_eq!(scale_brightness(0, 50), 0);
    assert_eq!(scale_brightness(0, 100), 0);
    assert_eq!(scale_brightness(0, 10), 0);
}

#[test]
fn scale_brightness_midpoint() {
    assert_eq!(scale_brightness(128, 50), 25);
    assert_eq!(scale_brightness(128, 100), 50);
}

#[test]
fn scale_brightness_matches_original_drivers() {
    let ite8291_max: u8 = 0x32;
    let ite8291_lb_max: u8 = 0x64;
    let ite829x_max: u8 = 0x0a;

    for b in 0..=255u8 {
        let expected_8291 = ((b as u16 * ite8291_max as u16) / 255) as u8;
        assert_eq!(scale_brightness(b, ite8291_max), expected_8291);

        let expected_8291_lb = ((b as u16 * ite8291_lb_max as u16) / 255) as u8;
        assert_eq!(scale_brightness(b, ite8291_lb_max), expected_8291_lb);

        let expected_829x = ((b as u16 * ite829x_max as u16) / 255) as u8;
        assert_eq!(scale_brightness(b, ite829x_max), expected_829x);
    }
}

#[test]
fn is_ite_keyboard_known_pids() {
    for (pid, _) in ite_products() {
        let info = HidrawInfo { bus_type: 3, vendor_id: ITE_VENDOR_ID, product_id: pid };
        assert!(is_ite_keyboard(&info), "PID 0x{pid:04x} should be recognized");
    }
}

#[test]
fn is_ite_keyboard_unknown_pid() {
    let info = HidrawInfo { bus_type: 3, vendor_id: ITE_VENDOR_ID, product_id: 0x9999 };
    assert!(!is_ite_keyboard(&info));
}

#[test]
fn is_ite_keyboard_wrong_vendor() {
    let info = HidrawInfo { bus_type: 3, vendor_id: 0x1234, product_id: 0x8291 };
    assert!(!is_ite_keyboard(&info));
}

#[test]
fn ite_families_by_pid() {
    assert_eq!(ite_family(0x600a), Some(IteFamily::Ite8291));
    assert_eq!(ite_family(0x7001), Some(IteFamily::Ite8291Lb));
    assert_eq!(ite_family(0x8297), Some(IteFamily::Ite8297));
    assert_eq!(ite_family(0x8910), Some(IteFamily::Ite829x));
    assert_eq!(ite_family(0x1234), None);
    let other_vendor = HidrawInfo { bus_type: 3, vendor_id: 0x1234, product_id: 0x8910 };
    assert_eq!(keyboard_family(&other_vendor), None);
}

#[test]
fn device_names() {
    assert!(is_hidraw_name("hidraw3"));
    assert!(!is_hidraw_name("input0"));
    assert_eq!(led_kind("rgb:kbd_backlight"), Some(SysfsLedKind::Rgb));
    assert_eq!(led_kind("rgb:kbd_backlight_1"), Some(SysfsLedKind::Rgb));
    assert_eq!(led_kind("white:kbd_backlight"), Some(SysfsLedKind::White));
    assert_eq!(led_kind("input3::capslock"), None);
}

#[test]
fn mock_hidraw_records_feature_reports() {
    let mut mock = MockHidraw::new(0x8291);
    mock.set_feature(&[0x08, 0x01, 0x00]).unwrap();
    mock.set_feature(&[0x09, 0x02, 0x32]).unwrap();
    let reports = mock.sent_reports();
    assert_eq!(reports.len(), 2);
    assert_eq!(reports[0], vec![0x08, 0x01, 0x00]);
    assert_eq!(reports[1], vec![0x09, 0x02, 0x32]);
}

#[test]
fn mock_hidraw_records_output_reports() {
    let mut mock = MockHidraw::new(0x8291);
    mock.write_output(&[0x00; 65]).unwrap();
    assert_eq!(mock.sent_output_reports().len(), 1);
}

#[test]
fn mock_hidraw_get_feature_fills_zeros() {
    let mut mock = MockHidraw::new(0x8297);
    let mut buf = vec![7u8; 4];
    assert_eq!(mock.get_feature(&mut buf).unwrap(), 4);
    assert_eq!(buf, vec![0, 0, 0, 0]);
    assert_eq!(mock.product_id(), 0x8297);
}

#[test]
fn variant_detection_from_pid() {
    assert_eq!(LbVariant::from_pid(0x6010), LbVariant::V6010);
    assert_eq!(LbVariant::from_pid(0x7000), LbVariant::V7000);
    assert_eq!(LbVariant::from_pid(0x7001), LbVariant::V7001);
}

#[test]
fn led_id_encoding() {
    assert_eq!(led_id(0, 0), 0x00);
    assert_eq!(led_id(1, 0), 0x20);
    assert_eq!(led_id(0, 1), 0x01);
    assert_eq!(led_id(5, 19), 0xb3);
}

#[test]
fn led_id_matches_bit_operations() {
    for row in 0..=255u8 {
        for col in [0u8, 1, 19, 31, 32, 200, 255] {
            assert_eq!(led_id(row, col), ((row & 0x07) << 5) | (col & 0x1f));
        }
    }
}

#[test]
fn scale_brightness_never_decreases() {
    for max in [10u8, 50, 100, 255] {
        assert_eq!(scale_brightness(0, max), 0);
        assert_eq!(scale_brightness(255, max), max);
        for b in 0..255u8 {
            assert!(scale_brightness(b, max) <= scale_brightness(b + 1, max));
        }
    }
}
