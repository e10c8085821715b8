//! ITE 8297 RGB lightbar controller.
//!
//! Simple protocol: 64-byte SET_FEATURE report with color bytes at offsets 4–6.
//! Report ID 0xCC, sub-command 0xB0.
use crate::error::{IoError, IoErrorKind};
use crate::hid::color_scaling::{has_factors_of_255, scaled_color_spec, ColorScaling};
use crate::hid::hidraw::HidrawOps;
use crate::hid::{owned_names, reports_view, scale_brightness_spec, send_reports, HidReport, KeyboardLed, LedRequest, Rgb};
use crate::text::{concat, same_text};
use crate::hid::no_reports;
use crate::request_log::{lemma_empty_plan, ran_until_failure};
use vstd::prelude::*;

verus! {

/// Feature report size for ITE 8297.
pub const REPORT_SIZE: usize = 64;

/// The 64-byte color report: `cc b0 01 01 r g b` followed by zeros.
pub open spec fn color_report_8297(r: u8, g: u8, b: u8) -> Seq<u8> {
    seq![0xccu8, 0xb0u8, 0x01u8, 0x01u8, r, g, b] + Seq::new(57, |i: int| 0u8)
}

/// The observable state of the lightbar.
pub struct Ite8297State {
    pub scaling: ColorScaling,
    pub color: Rgb,
    pub on: bool,
}

/// The reports that bring the hardware to state `s`.
pub open spec fn flush_plan_8297(s: Ite8297State) -> Seq<(bool, Seq<u8>)> {
    if !s.on {
        seq![(true, color_report_8297(0, 0, 0))]
    } else {
        let c = scaled_color_spec(s.scaling, s.color);
        seq![(true, color_report_8297(c.r, c.g, c.b))]
    }
}

/// The report that shows `color` dimmed to `brightness` (0–255), each channel
/// scaled and rounded down.
pub open spec fn dimmed_report_8297(color: Rgb, brightness: u8) -> Seq<u8> {
    color_report_8297(
        scale_brightness_spec(color.r, brightness) as u8,
        scale_brightness_spec(color.g, brightness) as u8,
        scale_brightness_spec(color.b, brightness) as u8,
    )
}

/// The color report for these channel values.
pub fn color_report(r: u8, g: u8, b: u8) -> (rep: Vec<u8>)
    ensures
        rep@ == color_report_8297(r, g, b),
{
    let mut buf: Vec<u8> = vec![0xcc, 0xb0, 0x01, 0x01, r, g, b];
    let mut i: usize = 7;
    while i < REPORT_SIZE
        invariant
            7 <= i <= 64,
            buf@ == seq![0xccu8, 0xb0u8, 0x01u8, 0x01u8, r, g, b] + Seq::new((i - 7) as nat, |k: int| 0u8),
        decreases 64 - i,
    {
        buf.push(0);
        i = i + 1;
        assert(buf@ =~= seq![0xccu8, 0xb0u8, 0x01u8, 0x01u8, r, g, b] + Seq::new(
            (i - 7) as nat,
            |k: int| 0u8,
        ));
    }
    buf
}

/// ITE 8297 lightbar on a hidraw device.
pub struct Ite8297<H: HidrawOps> {
    hid: H,
    scaling: ColorScaling,
    color: Rgb,
    on: bool,
    /// The requests made so far, with their outcomes.
    requests: Ghost<Seq<(LedRequest, bool)>>,
}

impl<H: HidrawOps> View for Ite8297<H> {
    type V = Ite8297State;

    closed spec fn view(&self) -> Ite8297State {
        Ite8297State { scaling: self.scaling, color: self.color, on: self.on }
    }
}

impl<H: HidrawOps> Ite8297<H> {
    /// The hidraw device.
    pub closed spec fn device(&self) -> H {
        self.hid
    }

    /// A driver with no color scaling.
    pub fn new(hid: H) -> (r: Self)
        ensures
            r.device() == hid,
            has_factors_of_255(r@.scaling, 255, 255, 255),
            r@.color == (Rgb { r: 255, g: 255, b: 255 }),
            r@.on,
    {
        Self::with_scaling(hid, ColorScaling::identity())
    }

    /// A driver that applies `scaling` to the color.
    pub fn with_scaling(hid: H, scaling: ColorScaling) -> (r: Self)
        ensures
            r.device() == hid,
            r@ == (Ite8297State { scaling, color: Rgb { r: 255, g: 255, b: 255 }, on: true }),
    {
        Ite8297 { hid, scaling, color: Rgb::white(), on: true, requests: Ghost(Seq::empty()) }
    }

    /// The hidraw device.
    pub fn hid(&self) -> (r: &H)
        ensures
            *r == self.device(),
    {
        &self.hid
    }

    /// The reports that bring the hardware to the current state.
    pub fn flush_reports(&self) -> (r: Vec<HidReport>)
        ensures
            reports_view(r@) == flush_plan_8297(self@),
    {
        let rep = if !self.on {
            color_report(0, 0, 0)
        } else {
            let scaled = self.scaling.apply(self.color);
            color_report(scaled.r, scaled.g, scaled.b)
        };
        let r = vec![HidReport::Feature(rep)];
        assert(reports_view(r@) =~= flush_plan_8297(self@));
        r
    }

    /// The report that shows the current color dimmed to `brightness`.
    pub fn dimmed_report(&self, brightness: u8) -> (r: Vec<u8>)
        ensures
            r@ == dimmed_report_8297(self@.color, brightness),
    {
        color_report(
            crate::hid::scale_brightness(self.color.r, brightness),
            crate::hid::scale_brightness(self.color.g, brightness),
            crate::hid::scale_brightness(self.color.b, brightness),
        )
    }
}

impl<H: HidrawOps> KeyboardLed for Ite8297<H> {
    open spec fn obeys_led_model() -> bool {
        true
    }

    closed spec fn requests(&self) -> Seq<(LedRequest, bool)> {
        self.requests@
    }

    open spec fn zones(&self) -> u8 {
        1
    }

    open spec fn modes(&self) -> Seq<Seq<char>> {
        seq!["static"@]
    }

    /// The chip has no brightness control: if on, send the (unscaled) color
    /// dimmed to `brightness`; nothing is stored.
    fn set_brightness(&mut self, brightness: u8) -> (r: Result<(), IoError>)
        ensures
            H::obeys_hid_model() ==> ran_until_failure(
                old(self).device().sent(),
                final(self).device().sent(),
                if old(self)@.on { seq![(true, dimmed_report_8297(old(self)@.color, brightness))] } else { no_reports() },
                r is Ok,
            ),
            final(self)@ == old(self)@,
            !old(self)@.on ==> r is Ok,
    {
        let ghost log = self.requests@;
        let r = if self.on {
            let rep = vec![HidReport::Feature(self.dimmed_report(brightness))];
            assert(reports_view(rep@) =~= seq![(true, dimmed_report_8297(self@.color, brightness))]);
            send_reports(&mut self.hid, &rep)
        } else {
            proof {
                lemma_empty_plan(self.hid.sent());
            }
            Ok(())
        };
        self.requests = Ghost(log.push((LedRequest::SetBrightness(brightness), r is Ok)));
        r
    }

    /// Record the color; the lightbar has a single zone, so any zone sets it.
    fn set_color(&mut self, zone: u8, color: Rgb) -> (r: Result<(), IoError>)
        ensures
            r is Ok,
            final(self).device() == old(self).device(),
            final(self)@ == (Ite8297State { color, ..old(self)@ }),
    {
        let ghost log = self.requests@;
        let r = {
            self.color = color;
            Ok(())
        };
        self.requests = Ghost(log.push((LedRequest::SetColor(zone, color), r is Ok)));
        r
    }

    /// Only "static" is supported; it changes nothing.
    fn set_mode(&mut self, mode: &str) -> (r: Result<(), IoError>)
        ensures
            final(self)@ == old(self)@,
            final(self).device() == old(self).device(),
            mode@ == "static"@ ==> r is Ok,
            mode@ != "static"@ ==> (r matches Err(e) && e.kind == IoErrorKind::InvalidInput
                && e.message@ == "ite8297 only supports 'static' mode, got: "@ + mode@),
    {
        let ghost log = self.requests@;
        let r = if !same_text(mode, "static") {
            Err(
                IoError {
                    kind: IoErrorKind::InvalidInput,
                    message: concat("ite8297 only supports 'static' mode, got: ", mode),
                },
            )
        } else {
            Ok(())
        };
        self.requests = Ghost(log.push((LedRequest::SetMode(mode@), r is Ok)));
        r
    }

    /// A single zone.
    fn zone_count(&self) -> (r: u8)
        ensures
            r == 1,
    {
        1
    }

    /// Turn the LEDs off (all channels zero); the color is kept.
    fn turn_off(&mut self) -> (r: Result<(), IoError>)
        ensures
            H::obeys_hid_model() ==> ran_until_failure(
                old(self).device().sent(),
                final(self).device().sent(),
                flush_plan_8297(final(self)@),
                r is Ok,
            ),
            final(self)@ == (Ite8297State { on: false, ..old(self)@ }),
    {
        let ghost log = self.requests@;
        let r = {
            self.on = false;
            self.flush()
        };
        self.requests = Ghost(log.push((LedRequest::TurnOff, r is Ok)));
        r
    }

    /// Turn the LEDs on and send the color.
    fn turn_on(&mut self) -> (r: Result<(), IoError>)
        ensures
            H::obeys_hid_model() ==> ran_until_failure(
                old(self).device().sent(),
                final(self).device().sent(),
                flush_plan_8297(final(self)@),
                r is Ok,
            ),
            final(self)@ == (Ite8297State { on: true, ..old(self)@ }),
    {
        let ghost log = self.requests@;
        let r = {
            self.on = true;
            self.flush()
        };
        self.requests = Ghost(log.push((LedRequest::TurnOn, r is Ok)));
        r
    }

    /// Send the report of `flush_plan_8297` for the current state.
    fn flush(&mut self) -> (r: Result<(), IoError>)
        ensures
            H::obeys_hid_model() ==> ran_until_failure(
                old(self).device().sent(),
                final(self).device().sent(),
                flush_plan_8297(old(self)@),
                r is Ok,
            ),
            final(self)@ == old(self)@,
    {
        let ghost log = self.requests@;
        let r = {
            let reports = self.flush_reports();
            send_reports(&mut self.hid, &reports)
        };
        self.requests = Ghost(log.push((LedRequest::Flush, r is Ok)));
        r
    }

    /// "ite8297".
    fn device_type(&self) -> (r: &str)
        ensures
            r@ == "ite8297"@,
    {
        "ite8297"
    }

    /// Only "static".
    fn available_modes(&self) -> (r: Vec<String>)
        ensures
            r@.map_values(|s: String| s@) == seq!["static"@],
    {
        let names = vec!["static"];
        let r = owned_names(&names);
        assert(names@.map_values(|s: &str| s@) =~= seq!["static"@]);
        r
    }
}

} // verus!
