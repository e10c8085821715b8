//! ITE 829x per-key RGB controller (6×20 matrix, 120 LEDs).
//!
//! Protocol: 6-byte SET_FEATURE reports with report ID 0xCC, each
//! `cc [cmd] d0 d1 d2 d3`.
use crate::error::{IoError, IoErrorKind};
use crate::hid::color_scaling::{has_factors_of_255, scaled_color_spec, ColorScaling};
use crate::hid::hidraw::HidrawOps;
use crate::hid::{
    owned_names, reports_view, scale_brightness, scale_brightness_spec, send_reports, HidReport,
    KeyboardLed, LedRequest, Rgb,
};
use crate::text::{concat, same_text};
use crate::hid::no_reports;
use crate::request_log::{lemma_empty_plan, ran_until_failure};
use vstd::prelude::*;

verus! {

/// Rows of keys.
pub const ROWS: usize = 6;

/// Keys per row.
pub const COLS: usize = 20;

/// Maximum hardware brightness (0x0a = 10).
pub const MAX_BRIGHTNESS: u8 = 0x0a;

/// The LED ID of a key: `(row & 0x07) << 5 | (col & 0x1f)`.
pub open spec fn led_id_spec(row: u8, col: u8) -> int {
    (row as int % 8) * 32 + (col as int % 32)
}

/// Build an LED ID from row and column: `(row & 0x07) << 5 | (col & 0x1f)`.
pub fn led_id(row: u8, col: u8) -> (r: u8)
    ensures
        r == led_id_spec(row, col),
{
    let hi: u8 = row % 8;
    let lo: u8 = col % 32;
    hi * 32 + lo
}

/// Whether `mode` is one of the 829x modes.
pub open spec fn is_829x_mode(mode: Seq<char>) -> bool {
    mode == "static"@ || mode == "random"@
}

/// Brightness: `cc 09 [brightness, at most 10] 02 00 00`.
pub open spec fn brightness_report_829x(br: u8) -> Seq<u8> {
    let b = if br < 0x0a {
        br
    } else {
        0x0au8
    };
    seq![0xccu8, 0x09u8, b, 0x02u8, 0x00u8, 0x00u8]
}

/// One key's color: `cc 01 [led id] r g b`.
pub open spec fn key_report_829x(row: int, col: int, r: u8, g: u8, b: u8) -> Seq<u8> {
    seq![0xccu8, 0x01u8, led_id_spec(row as u8, col as u8) as u8, r, g, b]
}

/// Random animation: `cc 00 09 00 00 00`.
pub open spec fn random_report_829x() -> Seq<u8> {
    seq![0xccu8, 0x00u8, 0x09u8, 0x00u8, 0x00u8, 0x00u8]
}

/// One report per key, row by row, all with the same color.
pub open spec fn all_keys_829x(r: u8, g: u8, b: u8) -> Seq<(bool, Seq<u8>)> {
    Seq::new(120, |k: int| (true, key_report_829x(k as int / 20, k as int % 20, r, g, b)))
}

/// The observable state of the keyboard.
pub struct Ite829xState {
    pub scaling: ColorScaling,
    /// Hardware brightness, 0..=10.
    pub brightness: u8,
    pub color: Rgb,
    pub on: bool,
    pub mode: Seq<char>,
}

/// The reports that bring the hardware to state `s`.
pub open spec fn flush_plan_829x(s: Ite829xState) -> Seq<(bool, Seq<u8>)> {
    if !s.on {
        seq![(true, brightness_report_829x(s.brightness))] + all_keys_829x(0, 0, 0)
    } else if s.mode == "random"@ {
        seq![(true, brightness_report_829x(s.brightness)), (true, random_report_829x())]
    } else {
        let c = scaled_color_spec(s.scaling, s.color);
        seq![(true, brightness_report_829x(s.brightness))] + all_keys_829x(c.r, c.g, c.b)
    }
}

/// ITE 829x per-key keyboard on a hidraw device.
pub struct Ite829x<H: HidrawOps> {
    hid: H,
    scaling: ColorScaling,
    brightness: u8,
    color: Rgb,
    on: bool,
    current_mode: String,
    /// The requests made so far, with their outcomes.
    requests: Ghost<Seq<(LedRequest, bool)>>,
}

impl<H: HidrawOps> View for Ite829x<H> {
    type V = Ite829xState;

    closed spec fn view(&self) -> Ite829xState {
        Ite829xState {
            scaling: self.scaling,
            brightness: self.brightness,
            color: self.color,
            on: self.on,
            mode: self.current_mode@,
        }
    }
}

/// The brightness report for this hardware brightness.
fn brightness_report(br: u8) -> (r: HidReport)
    ensures
        crate::hid::report_view(r) == (true, brightness_report_829x(br)),
{
    let b = if br < MAX_BRIGHTNESS {
        br
    } else {
        MAX_BRIGHTNESS
    };
    let r = HidReport::Feature(vec![0xcc, 0x09, b, 0x02, 0x00, 0x00]);
    assert(crate::hid::report_view(r).1 =~= brightness_report_829x(br));
    r
}

/// `first` followed by one color report per key, row by row.
fn with_all_keys(first: Vec<HidReport>, r: u8, g: u8, b: u8) -> (out: Vec<HidReport>)
    ensures
        reports_view(out@) == reports_view(first@) + all_keys_829x(r, g, b),
{
    let mut out = first;
    let ghost start = reports_view(out@);
    let mut k: usize = 0;
    while k < ROWS * COLS
        invariant
            k <= 120,
            reports_view(out@) == start + all_keys_829x(r, g, b).subrange(0, k as int),
        decreases 120 - k,
    {
        let row: u8 = (k / COLS) as u8;
        let col: u8 = (k % COLS) as u8;
        let ghost before = out@;
        let rep = HidReport::Feature(vec![0xcc, 0x01, led_id(row, col), r, g, b]);
        proof {
            assert(crate::hid::report_view(rep).1 =~= key_report_829x(k as int / 20, k as int % 20, r, g, b));
        }
        out.push(rep);
        proof {
            assert(reports_view(out@) =~= reports_view(before).push(crate::hid::report_view(rep)));
            assert(all_keys_829x(r, g, b).subrange(0, k + 1) =~= all_keys_829x(r, g, b).subrange(
                0,
                k as int,
            ).push((true, key_report_829x(k as int / 20, k as int % 20, r, g, b))));
        }
        k = k + 1;
    }
    assert(all_keys_829x(r, g, b).subrange(0, 120) =~= all_keys_829x(r, g, b));
    out
}

impl<H: HidrawOps> Ite829x<H> {
    /// The hidraw device.
    pub closed spec fn device(&self) -> H {
        self.hid
    }

    /// A driver with no color scaling.
    pub fn new(hid: H) -> (r: Self)
        ensures
            r.device() == hid,
            has_factors_of_255(r@.scaling, 255, 255, 255),
            r@.brightness == 0x0a,
            r@.color == (Rgb { r: 255, g: 255, b: 255 }),
            r@.on,
            r@.mode == "static"@,
    {
        Self::with_scaling(hid, ColorScaling::identity())
    }

    /// A driver that applies `scaling` to the color.
    pub fn with_scaling(hid: H, scaling: ColorScaling) -> (r: Self)
        ensures
            r.device() == hid,
            r@ == (Ite829xState {
                scaling,
                brightness: 0x0a,
                color: Rgb { r: 255, g: 255, b: 255 },
                on: true,
                mode: "static"@,
            }),
    {
        Ite829x {
            hid,
            scaling,
            brightness: MAX_BRIGHTNESS,
            color: Rgb::white(),
            on: true,
            current_mode: "static".to_owned(),
            requests: Ghost(Seq::empty()),
        }
    }

    /// The hidraw device.
    pub fn hid(&self) -> (r: &H)
        ensures
            *r == self.device(),
    {
        &self.hid
    }

    /// Brightness 0–255 scaled to the hardware range 0–10.
    pub fn scale_brightness(brightness: u8) -> (r: u8)
        ensures
            r == scale_brightness_spec(brightness, 0x0a),
    {
        scale_brightness(brightness, MAX_BRIGHTNESS)
    }

    /// The reports that bring the hardware to the current state.
    pub fn flush_reports(&self) -> (r: Vec<HidReport>)
        ensures
            reports_view(r@) == flush_plan_829x(self@),
    {
        let first = vec![brightness_report(self.brightness)];
        if !self.on {
            let r = with_all_keys(first, 0, 0, 0);
            assert(reports_view(first@) =~= seq![(true, brightness_report_829x(self@.brightness))]);
            return r;
        }
        if same_text(self.current_mode.as_str(), "random") {
            let mut r = first;
            r.push(HidReport::Feature(vec![0xcc, 0x00, 0x09, 0x00, 0x00, 0x00]));
            assert(reports_view(r@) =~= flush_plan_829x(self@));
            r
        } else {
            let scaled = self.scaling.apply(self.color);
            let r = with_all_keys(first, scaled.r, scaled.g, scaled.b);
            assert(reports_view(first@) =~= seq![(true, brightness_report_829x(self@.brightness))]);
            r
        }
    }

    /// Send the brightness report.
    fn write_brightness(&mut self) -> (r: Result<(), IoError>)
        ensures
            H::obeys_hid_model() ==> ran_until_failure(
                old(self).device().sent(),
                final(self).device().sent(),
                seq![(true, brightness_report_829x(old(self)@.brightness))],
                r is Ok,
            ),
            final(self)@ == old(self)@,
    {
        let reports = vec![brightness_report(self.brightness)];
        assert(reports_view(reports@) =~= seq![(true, brightness_report_829x(self@.brightness))]);
        send_reports(&mut self.hid, &reports)
    }
}

impl<H: HidrawOps> KeyboardLed for Ite829x<H> {
    open spec fn obeys_led_model() -> bool {
        true
    }

    closed spec fn requests(&self) -> Seq<(LedRequest, bool)> {
        self.requests@
    }

    open spec fn zones(&self) -> u8 {
        1
    }

    open spec fn modes(&self) -> Seq<Seq<char>> {
        seq!["static"@, "random"@]
    }

    /// Scale the brightness to the hardware range and, if on, send only the
    /// brightness report.
    fn set_brightness(&mut self, brightness: u8) -> (r: Result<(), IoError>)
        ensures
            H::obeys_hid_model() ==> ran_until_failure(
                old(self).device().sent(),
                final(self).device().sent(),
                if old(self)@.on { seq![(true, brightness_report_829x(final(self)@.brightness))] } else { no_reports() },
                r is Ok,
            ),
            final(self)@ == (Ite829xState {
                brightness: scale_brightness_spec(brightness, 0x0a) as u8,
                ..old(self)@
            }),
            !old(self)@.on ==> r is Ok,
    {
        let ghost log = self.requests@;
        let r = {
            self.brightness = Self::scale_brightness(brightness);
            if self.on {
                self.write_brightness()
            } else {
                proof {
                    lemma_empty_plan(self.hid.sent());
                }
                Ok(())
            }
        };
        self.requests = Ghost(log.push((LedRequest::SetBrightness(brightness), r is Ok)));
        r
    }

    /// Record the color; the keyboard is treated as a single zone.
    fn set_color(&mut self, zone: u8, color: Rgb) -> (r: Result<(), IoError>)
        ensures
            r is Ok,
            final(self).device() == old(self).device(),
            final(self)@ == (Ite829xState { color, ..old(self)@ }),
    {
        let ghost log = self.requests@;
        let r = {
            self.color = color;
            Ok(())
        };
        self.requests = Ghost(log.push((LedRequest::SetColor(zone, color), r is Ok)));
        r
    }

    /// Switch to "static" or "random"; another name is refused and changes
    /// nothing.
    fn set_mode(&mut self, mode: &str) -> (r: Result<(), IoError>)
        ensures
            H::obeys_hid_model() && is_829x_mode(mode@) ==> ran_until_failure(
                old(self).device().sent(),
                final(self).device().sent(),
                if old(self)@.on { flush_plan_829x(final(self)@) } else { no_reports() },
                r is Ok,
            ),
            H::obeys_hid_model() && !is_829x_mode(mode@) ==> final(self).device().sent() == old(self).device().sent(),
            !is_829x_mode(mode@) ==> final(self)@ == old(self)@ && (r matches Err(e) && e.kind
                == IoErrorKind::InvalidInput && e.message@ == "unknown ite829x mode: "@ + mode@),
            is_829x_mode(mode@) ==> final(self)@ == (Ite829xState { mode: mode@, ..old(self)@ }) && (
            !old(self)@.on ==> r is Ok),
    {
        let ghost log = self.requests@;
        let r = if !(same_text(mode, "static") || same_text(mode, "random")) {
            Err(
                IoError {
                    kind: IoErrorKind::InvalidInput,
                    message: concat("unknown ite829x mode: ", mode),
                },
            )
        } else {
            self.current_mode = mode.to_owned();
            if self.on {
                self.flush()
            } else {
                proof {
                    lemma_empty_plan(self.hid.sent());
                }
                Ok(())
            }
        };
        self.requests = Ghost(log.push((LedRequest::SetMode(mode@), r is Ok)));
        r
    }

    /// Treated as a single zone.
    fn zone_count(&self) -> (r: u8)
        ensures
            r == 1,
    {
        1
    }

    /// Turn the LEDs off: brightness, then every key black; the settings are
    /// kept.
    fn turn_off(&mut self) -> (r: Result<(), IoError>)
        ensures
            H::obeys_hid_model() ==> ran_until_failure(
                old(self).device().sent(),
                final(self).device().sent(),
                flush_plan_829x(final(self)@),
                r is Ok,
            ),
            final(self)@ == (Ite829xState { on: false, ..old(self)@ }),
    {
        let ghost log = self.requests@;
        let r = {
            self.on = false;
            self.flush()
        };
        self.requests = Ghost(log.push((LedRequest::TurnOff, r is Ok)));
        r
    }

    /// Turn the LEDs on and send the state.
    fn turn_on(&mut self) -> (r: Result<(), IoError>)
        ensures
            H::obeys_hid_model() ==> ran_until_failure(
                old(self).device().sent(),
                final(self).device().sent(),
                flush_plan_829x(final(self)@),
                r is Ok,
            ),
            final(self)@ == (Ite829xState { on: true, ..old(self)@ }),
    {
        let ghost log = self.requests@;
        let r = {
            self.on = true;
            self.flush()
        };
        self.requests = Ghost(log.push((LedRequest::TurnOn, r is Ok)));
        r
    }

    /// Send the reports of `flush_plan_829x` for the current state.
    fn flush(&mut self) -> (r: Result<(), IoError>)
        ensures
            H::obeys_hid_model() ==> ran_until_failure(
                old(self).device().sent(),
                final(self).device().sent(),
                flush_plan_829x(old(self)@),
                r is Ok,
            ),
            final(self)@ == old(self)@,
    {
        let ghost log = self.requests@;
        let r = {
            let reports = self.flush_reports();
            send_reports(&mut self.hid, &reports)
        };
        self.requests = Ghost(log.push((LedRequest::Flush, r is Ok)));
        r
    }

    /// "ite829x".
    fn device_type(&self) -> (r: &str)
        ensures
            r@ == "ite829x"@,
    {
        "ite829x"
    }

    /// "static" and "random".
    fn available_modes(&self) -> (r: Vec<String>)
        ensures
            r@.map_values(|s: String| s@) == seq!["static"@, "random"@],
    {
        let names = vec!["static", "random"];
        let r = owned_names(&names);
        assert(names@.map_values(|s: &str| s@) =~= seq!["static"@, "random"@]);
        r
    }
}

} // verus!
