use tux_rs::hid::color_scaling::{scale_for_model, ChannelScale, ColorScaling};
use tux_rs::hid::discover::{open_ite_keyboard, IteFamily, ITE_VENDOR_ID};
use tux_rs::hid::hidraw::{HidrawInfo, MockHidraw};
use tux_rs::hid::ite8291::{Ite8291, LEDS_PER_ROW, MAX_BRIGHTNESS, ROW_DATA_PADDING};
use tux_rs::hid::ite8291_lb::{Ite8291Lb, LbVariant};
use tux_rs::hid::ite8297::{Ite8297, REPORT_SIZE};
use tux_rs::hid::ite829x::Ite829x;
use tux_rs::hid::{KeyboardLed, Rgb};

fn factor(s: &ChannelScale) -> f64 {
    s.numerator() as f64 / s.denominator() as f64
}

// ---- color scaling ----

#[test]
fn identity_scaling_preserves_color() {
    let color = Rgb::new(128, 64, 255);
    let result = ColorScaling::identity().apply(color);
    assert_eq!(result, color);
}

#[test]
fn scaling_reduces_channels() {
    let half = ChannelScale::ratio(1, 2).unwrap();
    let scaling = ColorScaling { r: half, g: ChannelScale::one(), b: half };
    let result = scaling.apply(Rgb::new(200, 100, 200));
    assert_eq!(result.r, 100);
    assert_eq!(result.g, 100);
    assert_eq!(result.b, 100);
}

#[test]
fn scaling_clamps_to_255() {
    let result = ColorScaling::identity().apply(Rgb::new(255, 255, 255));
    assert_eq!(result, Rgb::white());
}

#[test]
fn known_model_has_scaling() {
    let s = scale_for_model("STEPOL1XA04", 0x600a);
    assert!(factor(&s.r) < 0.6);
    assert_eq!(factor(&s.g), 1.0);
}

#[test]
fn unknown_model_8291_gets_default() {
    let s = scale_for_model("UNKNOWN", 0x8291);
    assert!(factor(&s.g) < 0.6);
    assert!(factor(&s.b) < 0.6);
}

#[test]
fn unknown_model_unknown_pid_gets_identity() {
    let s = scale_for_model("UNKNOWN", 0x9999);
    assert_eq!(factor(&s.r), 1.0);
    assert_eq!(factor(&s.g), 1.0);
    assert_eq!(factor(&s.b), 1.0);
}

#[test]
fn scaling_rounds_to_nearest() {
    // 126/255 of 255 is exactly 126; of 100 it is 49.41… which rounds to 49.
    let s = ColorScaling::of_255(126, 255, 255);
    assert_eq!(s.apply(Rgb::new(255, 10, 0)), Rgb::new(126, 10, 0));
    assert_eq!(s.apply(Rgb::new(100, 0, 0)).r, 49);
    // A half rounds away from zero: 201 / 2 = 100.5 becomes 101.
    let half = ChannelScale::ratio(1, 2).unwrap();
    let h = ColorScaling { r: half, g: half, b: half };
    assert_eq!(h.apply(Rgb::new(201, 1, 0)), Rgb::new(101, 1, 0));
}

#[test]
fn scaling_matches_float_multiplication_for_table_factors() {
    for k in [100u8, 120, 126, 128, 180, 200, 220, 255] {
        let s = ColorScaling::of_255(k, k, k);
        let f = k as f32 / 255.0;
        for c in 0..=255u8 {
            let expected = (c as f32 * f).round().min(255.0) as u8;
            assert_eq!(s.apply(Rgb::new(c, c, c)).r, expected);
        }
    }
}

#[test]
fn model_table_entries() {
    let s = scale_for_model("STELLARIS17I06", 0xce00);
    assert_eq!((s.r.numerator(), s.g.numerator(), s.b.numerator()), (255, 180, 180));
    let lb = scale_for_model("STELLARIS1XI05", 0x6010);
    assert_eq!((lb.r.numerator(), lb.g.numerator(), lb.b.numerator()), (255, 100, 100));
    let any_pid = scale_for_model("STELLARIS1XA05", 0x1234);
    assert_eq!(any_pid.r.numerator(), 128);
    assert!(ChannelScale::ratio(1, 0).is_none());
}

// ---- ITE 8291 ----

fn make_8291() -> Ite8291<MockHidraw> {
    Ite8291::new(MockHidraw::new(0x8291))
}

#[test]
fn brightness_scales_to_device_range() {
    assert_eq!(Ite8291::<MockHidraw>::scale_brightness(0), 0);
    assert_eq!(Ite8291::<MockHidraw>::scale_brightness(255), MAX_BRIGHTNESS);
    assert_eq!(Ite8291::<MockHidraw>::scale_brightness(128), 25);
}

#[test]
fn set_color_fills_row_data() {
    let mut drv = make_8291();
    let color = Rgb::new(0xFF, 0x00, 0x80);
    drv.set_color(0, color).unwrap();
    assert_eq!(drv.row_data()[0][ROW_DATA_PADDING], 0x80);
    assert_eq!(drv.row_data()[0][ROW_DATA_PADDING + LEDS_PER_ROW], 0x00);
    assert_eq!(drv.row_data()[0][ROW_DATA_PADDING + 2 * LEDS_PER_ROW], 0xFF);
}

#[test]
fn flush_writes_control_and_row_data() {
    let mut drv = make_8291();
    drv.fill_all(Rgb::white());
    drv.flush().unwrap();
    let reports = drv.hid().sent_reports();
    assert_eq!(reports.len(), 7);
    let outputs = drv.hid().sent_output_reports();
    assert_eq!(outputs.len(), 6);
}

#[test]
fn turn_off_sends_off_command() {
    let mut drv = make_8291();
    drv.turn_off().unwrap();
    let reports = drv.hid().sent_reports();
    assert_eq!(reports.len(), 1);
    assert_eq!(reports[0][0], 0x08);
    assert_eq!(reports[0][1], 0x01);
    assert!(reports[0][2..].iter().all(|&b| b == 0));
}

#[test]
fn invalid_mode_returns_error() {
    let mut drv = make_8291();
    assert!(drv.set_mode("nonexistent").is_err());
}

#[test]
fn available_modes_includes_static() {
    let drv = make_8291();
    let modes = drv.available_modes();
    assert!(modes.contains(&"static".to_string()));
    assert!(modes.contains(&"breathing".to_string()));
    assert_eq!(modes.len(), 10);
}

#[test]
fn set_mode_breathing_writes_animation() {
    let mut drv = make_8291();
    drv.set_mode("breathing").unwrap();
    let reports = drv.hid().sent_reports();
    assert_eq!(reports.len(), 1);
    assert_eq!(reports[0][0], 0x08);
    assert_eq!(reports[0][1], 0x02);
    assert_eq!(reports[0][2], 0x02);
}

#[test]
fn device_type_ite8291() {
    let drv = make_8291();
    assert_eq!(drv.device_type(), "ite8291");
}

#[test]
fn row_col_out_of_bounds_is_noop() {
    let mut drv = make_8291();
    drv.set_row_col(7, 0, Rgb::white());
    drv.set_row_col(0, 25, Rgb::white());
    assert!(drv.row_data().iter().all(|row| row.iter().all(|&b| b == 0)));
}

#[test]
fn ite8291_row_reports_carry_buffer_and_brightness() {
    let mut drv = make_8291();
    drv.set_color(0, Rgb::new(1, 2, 3)).unwrap();
    drv.set_brightness(128).unwrap();
    let reports = drv.hid().sent_reports();
    assert_eq!(reports[0], vec![0x08, 0x02, 0x33, 0x00, 25, 0x00, 0x00, 0x00]);
    assert_eq!(reports[3], vec![0x16, 0x00, 2, 0x00, 0x00, 0x00, 0x00, 0x00]);
    let outputs = drv.hid().sent_output_reports();
    assert_eq!(outputs[5].len(), 65);
    assert_eq!(&outputs[5][0..3], &[0, 0, 3]);
    assert_eq!(outputs[5][23], 2);
    assert_eq!(outputs[5][64], 1);
}

#[test]
fn ite8291_scaling_applies_to_row_data() {
    let mut drv = Ite8291::with_scaling(MockHidraw::new(0x600a), scale_for_model("STEPOL1XA04", 0x600a));
    drv.set_color(0, Rgb::white()).unwrap();
    assert_eq!(drv.row_data()[3][ROW_DATA_PADDING + 2 * LEDS_PER_ROW + 4], 126);
    assert_eq!(drv.row_data()[3][ROW_DATA_PADDING + 4], 255);
}

#[test]
fn ite8291_brightness_while_off_sends_nothing() {
    let mut drv = make_8291();
    drv.turn_off().unwrap();
    drv.set_brightness(10).unwrap();
    assert_eq!(drv.hid().sent_reports().len(), 1);
    drv.turn_on().unwrap();
    let reports = drv.hid().sent_reports();
    assert_eq!(reports[1][4], 1);
}

// ---- ITE 8291 lightbar ----

fn make_lb(pid: u16) -> Ite8291Lb<MockHidraw> {
    Ite8291Lb::new(MockHidraw::new(pid))
}

#[test]
fn write_mono_v6010() {
    let mut drv = make_lb(0x6010);
    drv.set_color(0, Rgb::new(0xFF, 0x00, 0x80)).unwrap();
    drv.flush().unwrap();
    let reports = drv.hid().sent_reports();
    assert_eq!(reports.len(), 2);
    assert_eq!(reports[0][0], 0x14);
    assert_eq!(reports[0][1], 0x00);
    assert_eq!(reports[0][3], 0xFF);
    assert_eq!(reports[0][4], 0x00);
    assert_eq!(reports[0][5], 0x80);
    assert_eq!(reports[1][0], 0x08);
    assert_eq!(reports[1][1], 0x02);
}

#[test]
fn write_mono_v7000() {
    let mut drv = make_lb(0x7000);
    drv.flush().unwrap();
    let reports = drv.hid().sent_reports();
    assert_eq!(reports[0][1], 0x01);
    assert_eq!(reports[1][1], 0x21);
}

#[test]
fn write_mono_v7001() {
    let mut drv = make_lb(0x7001);
    drv.flush().unwrap();
    let reports = drv.hid().sent_reports();
    assert_eq!(reports[0][1], 0x00);
    assert_eq!(reports[1][1], 0x22);
}

#[test]
fn breathing_mode_v6010() {
    let mut drv = make_lb(0x6010);
    drv.set_mode("breathing").unwrap();
    let reports = drv.hid().sent_reports();
    assert_eq!(reports.last().unwrap()[2], 0x02);
}

#[test]
fn turn_off_sends_off_bytes() {
    let mut drv = make_lb(0x6010);
    drv.turn_off().unwrap();
    let reports = drv.hid().sent_reports();
    assert_eq!(reports[0][0], 0x08);
    assert_eq!(reports[0][1], 0x01);
}

#[test]
fn ite8291_lb_invalid_mode_error() {
    let mut drv = make_lb(0x6010);
    assert!(drv.set_mode("nonexistent").is_err());
}

#[test]
fn ite8291_lb_device_type_string() {
    let drv = make_lb(0x6010);
    assert_eq!(drv.device_type(), "ite8291_lb");
}

#[test]
fn zone_count_is_one() {
    let drv = make_lb(0x6010);
    assert_eq!(drv.zone_count(), 1);
}

#[test]
fn lightbar_variant_follows_product_id() {
    assert_eq!(make_lb(0x7000).variant(), LbVariant::V7000);
    assert_eq!(make_lb(0x1234).variant(), LbVariant::V6010);
    let mut drv = make_lb(0x7001);
    drv.set_brightness(255).unwrap();
    let reports = drv.hid().sent_reports();
    assert_eq!(reports[1], vec![0x08, 0x22, 0x01, 0x01, 100, 0x01, 0x00, 0x00]);
}

// ---- ITE 8297 ----

fn make_8297() -> Ite8297<MockHidraw> {
    Ite8297::new(MockHidraw::new(0x8297))
}

#[test]
fn flush_writes_64_byte_feature_report() {
    let mut drv = make_8297();
    drv.set_color(0, Rgb::new(0xFF, 0x80, 0x40)).unwrap();
    drv.flush().unwrap();
    let reports = drv.hid().sent_reports();
    assert_eq!(reports.len(), 1);
    assert_eq!(reports[0].len(), REPORT_SIZE);
    assert_eq!(reports[0][0], 0xcc);
    assert_eq!(reports[0][1], 0xb0);
    assert_eq!(reports[0][4], 0xFF);
    assert_eq!(reports[0][5], 0x80);
    assert_eq!(reports[0][6], 0x40);
}

#[test]
fn turn_off_writes_zeros() {
    let mut drv = make_8297();
    drv.turn_off().unwrap();
    let reports = drv.hid().sent_reports();
    assert_eq!(reports[0][4], 0);
    assert_eq!(reports[0][5], 0);
    assert_eq!(reports[0][6], 0);
}

#[test]
fn only_static_mode_supported() {
    let mut drv = make_8297();
    assert!(drv.set_mode("static").is_ok());
    assert!(drv.set_mode("breathing").is_err());
}

#[test]
fn ite8297_device_type_string() {
    let drv = make_8297();
    assert_eq!(drv.device_type(), "ite8297");
}

#[test]
fn brightness_scales_color_output() {
    let mut drv = make_8297();
    drv.set_color(0, Rgb::new(255, 255, 255)).unwrap();
    drv.set_brightness(128).unwrap();
    let reports = drv.hid().sent_reports();
    assert!(reports[0][4] > 120 && reports[0][4] < 132);
    assert_eq!(reports[0][4], 128);
}

// ---- ITE 829x ----

fn make_829x() -> Ite829x<MockHidraw> {
    Ite829x::new(MockHidraw::new(0x8910))
}

#[test]
fn flush_sends_brightness_then_all_keys() {
    let mut drv = make_829x();
    drv.set_color(0, Rgb::new(0xFF, 0x00, 0x00)).unwrap();
    drv.flush().unwrap();
    let reports = drv.hid().sent_reports();
    assert_eq!(reports.len(), 121);
    assert_eq!(reports[0][1], 0x09);
    assert_eq!(reports[1][1], 0x01);
    assert_eq!(reports[120], vec![0xcc, 0x01, 0xb3, 0xFF, 0x00, 0x00]);
}

#[test]
fn random_mode_sends_special_command() {
    let mut drv = make_829x();
    drv.set_mode("random").unwrap();
    let reports = drv.hid().sent_reports();
    assert_eq!(reports.last().unwrap()[1], 0x00);
    assert_eq!(reports.last().unwrap()[2], 0x09);
}

#[test]
fn ite829x_device_type_string() {
    let drv = make_829x();
    assert_eq!(drv.device_type(), "ite829x");
}

#[test]
fn brightness_scales_correctly() {
    assert_eq!(Ite829x::<MockHidraw>::scale_brightness(0), 0);
    assert_eq!(Ite829x::<MockHidraw>::scale_brightness(255), 0x0a);
}

#[test]
fn ite829x_invalid_mode_error() {
    let mut drv = make_829x();
    assert!(drv.set_mode("wave").is_err());
}

#[test]
fn report_format_6_bytes() {
    let mut drv = make_829x();
    drv.flush().unwrap();
    let reports = drv.hid().sent_reports();
    for r in &reports {
        assert_eq!(r.len(), 6);
        assert_eq!(r[0], 0xcc);
    }
}

#[test]
fn ite829x_brightness_change_sends_only_brightness() {
    let mut drv = make_829x();
    drv.set_brightness(128).unwrap();
    let reports = drv.hid().sent_reports();
    assert_eq!(reports, vec![vec![0xcc, 0x09, 5, 0x02, 0x00, 0x00]]);
}

#[test]
fn open_ite_keyboard_picks_family_and_scaling() {
    let info = HidrawInfo { bus_type: 3, vendor_id: ITE_VENDOR_ID, product_id: 0x600a };
    let mut kb = open_ite_keyboard(MockHidraw::new(0x600a), info, "STEPOL1XA04").unwrap();
    assert_eq!(kb.family(), IteFamily::Ite8291);
    assert_eq!(kb.device_type(), "ite8291");
    assert_eq!(kb.zone_count(), 4);
    kb.set_color(0, Rgb::white()).unwrap();
    kb.flush().unwrap();
    let lb = HidrawInfo { bus_type: 3, vendor_id: ITE_VENDOR_ID, product_id: 0x7001 };
    let kb = open_ite_keyboard(MockHidraw::new(0x7001), lb, "").unwrap();
    assert_eq!(kb.family(), IteFamily::Ite8291Lb);
    assert_eq!(kb.zone_count(), 1);
    let other_vendor = HidrawInfo { bus_type: 3, vendor_id: 0x1234, product_id: 0x8291 };
    assert!(open_ite_keyboard(MockHidraw::new(0x8291), other_vendor, "").is_none());
    let unknown_pid = HidrawInfo { bus_type: 3, vendor_id: ITE_VENDOR_ID, product_id: 0x9999 };
    assert!(open_ite_keyboard(MockHidraw::new(0x9999), unknown_pid, "").is_none());
}
