//! ITE 8291 Lightbar controller (PIDs: 0x6010, 0x7000, 0x7001).
//!
//! Three sub-variants with slightly different control byte layouts.
//! Single-zone mono color + animation modes.
use crate::error::{IoError, IoErrorKind};
use crate::hid::color_scaling::{has_factors_of_255, scaled_color_spec, ColorScaling};
use crate::hid::hidraw::HidrawOps;
use crate::hid::{
    owned_names, reports_view, scale_brightness, scale_brightness_spec, send_reports, HidReport,
    KeyboardLed, LedRequest, Rgb,
};
use crate::text::{concat, same_text};
use crate::hid::ite8291::off_report;
use crate::hid::no_reports;
use crate::request_log::{lemma_empty_plan, ran_until_failure};
use vstd::prelude::*;

verus! {

/// Maximum hardware brightness (0x64 = 100).
pub const MAX_BRIGHTNESS: u8 = 0x64;

/// Sub-variant determined by USB product ID.
#[derive(Debug, Clone, Copy, PartialEq, Eq, Structural)]
pub enum LbVariant {
    /// PID 0x6010
    V6010,
    /// PID 0x7000
    V7000,
    /// PID 0x7001
    V7001,
}

impl LbVariant {
    /// The sub-variant of a product ID; unknown IDs are treated as 0x6010.
    pub fn from_pid(pid: u16) -> (r: Self)
        ensures
            r == (if pid == 0x7000 {
                LbVariant::V7000
            } else if pid == 0x7001 {
                LbVariant::V7001
            } else {
                LbVariant::V6010
            }),
    {
        if pid == 0x7000 {
            LbVariant::V7000
        } else if pid == 0x7001 {
            LbVariant::V7001
        } else {
            LbVariant::V6010
        }
    }
}

/// Whether `mode` is one of the lightbar modes.
pub open spec fn is_lb_mode(mode: Seq<char>) -> bool {
    mode == "static"@ || mode == "breathing"@
}

/// The brightness byte sent to the device: at most the hardware maximum.
pub open spec fn capped_lb_brightness(br: u8) -> u8 {
    if br < 0x64 {
        br
    } else {
        0x64u8
    }
}

/// The command byte of the parameter report of each sub-variant.
pub open spec fn params_byte(v: LbVariant) -> u8 {
    match v {
        LbVariant::V6010 => 0x02u8,
        LbVariant::V7000 => 0x21u8,
        LbVariant::V7001 => 0x22u8,
    }
}

/// The color report: `14 [00|01] 01 r g b 00 00` (01 only for 0x7000).
pub open spec fn color_report(v: LbVariant, c: Rgb) -> Seq<u8> {
    let sub = if v == LbVariant::V7000 {
        0x01u8
    } else {
        0x00u8
    };
    seq![0x14u8, sub, 0x01u8, c.r, c.g, c.b, 0x00u8, 0x00u8]
}

/// The static-mode parameters: `08 [cmd] 01 01 [brightness] [08|01] 00 00`
/// (08 only for 0x6010).
pub open spec fn mono_params_report(v: LbVariant, br: u8) -> Seq<u8> {
    let last = if v == LbVariant::V6010 {
        0x08u8
    } else {
        0x01u8
    };
    seq![0x08u8, params_byte(v), 0x01u8, 0x01u8, capped_lb_brightness(br), last, 0x00u8, 0x00u8]
}

/// Breathing at mid speed: `08 [cmd] 02 05 [brightness] 08 00 00`.
pub open spec fn breathing_report(v: LbVariant, br: u8) -> Seq<u8> {
    seq![0x08u8, params_byte(v), 0x02u8, 0x05u8, capped_lb_brightness(br), 0x08u8, 0x00u8, 0x00u8]
}

/// Power off: `08 01 00 00 00 00 00 00`.
pub open spec fn lb_off_report() -> Seq<u8> {
    seq![0x08u8, 0x01u8, 0x00u8, 0x00u8, 0x00u8, 0x00u8, 0x00u8, 0x00u8]
}

/// The observable state of the lightbar.
pub struct Ite8291LbState {
    pub variant: LbVariant,
    pub scaling: ColorScaling,
    /// Hardware brightness, 0..=100.
    pub brightness: u8,
    pub color: Rgb,
    pub on: bool,
    pub mode: Seq<char>,
}

/// The reports that bring the hardware to state `s`.
pub open spec fn lb_flush_plan(s: Ite8291LbState) -> Seq<(bool, Seq<u8>)> {
    if !s.on {
        seq![(true, lb_off_report())]
    } else if s.mode == "breathing"@ {
        seq![(true, breathing_report(s.variant, s.brightness))]
    } else {
        seq![
            (true, color_report(s.variant, scaled_color_spec(s.scaling, s.color))),
            (true, mono_params_report(s.variant, s.brightness)),
        ]
    }
}

/// ITE 8291 lightbar on a hidraw device.
pub struct Ite8291Lb<H: HidrawOps> {
    hid: H,
    variant: LbVariant,
    scaling: ColorScaling,
    brightness: u8,
    color: Rgb,
    on: bool,
    current_mode: String,
    /// The requests made so far, with their outcomes.
    requests: Ghost<Seq<(LedRequest, bool)>>,
}

impl<H: HidrawOps> View for Ite8291Lb<H> {
    type V = Ite8291LbState;

    closed spec fn view(&self) -> Ite8291LbState {
        Ite8291LbState {
            variant: self.variant,
            scaling: self.scaling,
            brightness: self.brightness,
            color: self.color,
            on: self.on,
            mode: self.current_mode@,
        }
    }
}

impl<H: HidrawOps> Ite8291Lb<H> {
    /// The hidraw device.
    pub closed spec fn device(&self) -> H {
        self.hid
    }

    /// A driver with no color scaling.
    pub fn new(hid: H) -> (r: Self)
        ensures
            r.device() == hid,
            has_factors_of_255(r@.scaling, 255, 255, 255),
            r@.brightness == 0x64,
            r@.color == (Rgb { r: 255, g: 255, b: 255 }),
            r@.on,
            r@.mode == "static"@,
    {
        Self::with_scaling(hid, ColorScaling::identity())
    }

    /// A driver that applies `scaling`; the sub-variant comes from the
    /// product ID that the device reports.
    pub fn with_scaling(hid: H, scaling: ColorScaling) -> (r: Self)
        ensures
            r.device() == hid,
            r@.scaling == scaling,
            r@.brightness == 0x64,
            r@.color == (Rgb { r: 255, g: 255, b: 255 }),
            r@.on,
            r@.mode == "static"@,
    {
        let variant = LbVariant::from_pid(hid.product_id());
        Ite8291Lb {
            hid,
            variant,
            scaling,
            brightness: MAX_BRIGHTNESS,
            color: Rgb::white(),
            on: true,
            current_mode: "static".to_owned(),
            requests: Ghost(Seq::empty()),
        }
    }

    /// The hidraw device.
    pub fn hid(&self) -> (r: &H)
        ensures
            *r == self.device(),
    {
        &self.hid
    }

    /// The sub-variant in use.
    pub fn variant(&self) -> (r: LbVariant)
        ensures
            r == self@.variant,
    {
        self.variant
    }

    /// Brightness 0–255 scaled to the hardware range 0–100.
    pub fn scale_brightness(brightness: u8) -> (r: u8)
        ensures
            r == scale_brightness_spec(brightness, 0x64),
    {
        scale_brightness(brightness, MAX_BRIGHTNESS)
    }

    /// The reports that bring the hardware to the current state.
    pub fn flush_reports(&self) -> (r: Vec<HidReport>)
        ensures
            reports_view(r@) == lb_flush_plan(self@),
    {
        let br = if self.brightness < MAX_BRIGHTNESS {
            self.brightness
        } else {
            MAX_BRIGHTNESS
        };
        let cmd: u8 = match self.variant {
            LbVariant::V6010 => 0x02,
            LbVariant::V7000 => 0x21,
            LbVariant::V7001 => 0x22,
        };
        if !self.on {
            let r = vec![HidReport::Feature(vec![0x08, 0x01, 0x00, 0x00, 0x00, 0x00, 0x00, 0x00])];
            assert(reports_view(r@) =~= lb_flush_plan(self@));
            return r;
        }
        if same_text(self.current_mode.as_str(), "breathing") {
            let r = vec![HidReport::Feature(vec![0x08, cmd, 0x02, 0x05, br, 0x08, 0x00, 0x00])];
            assert(reports_view(r@) =~= lb_flush_plan(self@));
            r
        } else {
            let scaled = self.scaling.apply(self.color);
            let sub: u8 = if self.variant == LbVariant::V7000 {
                0x01
            } else {
                0x00
            };
            let last: u8 = if self.variant == LbVariant::V6010 {
                0x08
            } else {
                0x01
            };
            let r = vec![
                HidReport::Feature(vec![0x14, sub, 0x01, scaled.r, scaled.g, scaled.b, 0x00, 0x00]),
                HidReport::Feature(vec![0x08, cmd, 0x01, 0x01, br, last, 0x00, 0x00]),
            ];
            assert(reports_view(r@) =~= lb_flush_plan(self@));
            r
        }
    }

    /// Send the power-off command.
    fn write_off(&mut self) -> (r: Result<(), IoError>)
        ensures
            H::obeys_hid_model() ==> ran_until_failure(
                old(self).device().sent(),
                final(self).device().sent(),
                seq![(true, off_report())],
                r is Ok,
            ),
            final(self)@ == old(self)@,
    {
        let off = vec![HidReport::Feature(vec![0x08, 0x01, 0x00, 0x00, 0x00, 0x00, 0x00, 0x00])];
        assert(reports_view(off@) =~= seq![(true, off_report())]);
        send_reports(&mut self.hid, &off)
    }
}

impl<H: HidrawOps> KeyboardLed for Ite8291Lb<H> {
    open spec fn obeys_led_model() -> bool {
        true
    }

    closed spec fn requests(&self) -> Seq<(LedRequest, bool)> {
        self.requests@
    }

    open spec fn zones(&self) -> u8 {
        1
    }

    open spec fn modes(&self) -> Seq<Seq<char>> {
        seq!["static"@, "breathing"@]
    }

    /// Scale the brightness to the hardware range and, if on, send the state.
    fn set_brightness(&mut self, brightness: u8) -> (r: Result<(), IoError>)
        ensures
            H::obeys_hid_model() ==> ran_until_failure(
                old(self).device().sent(),
                final(self).device().sent(),
                if old(self)@.on { lb_flush_plan(final(self)@) } else { no_reports() },
                r is Ok,
            ),
            final(self)@ == (Ite8291LbState {
                brightness: scale_brightness_spec(brightness, 0x64) as u8,
                ..old(self)@
            }),
            !old(self)@.on ==> r is Ok,
    {
        let ghost log = self.requests@;
        let r = {
            self.brightness = Self::scale_brightness(brightness);
            if self.on {
                self.flush()
            } else {
                proof {
                    lemma_empty_plan(self.hid.sent());
                }
                Ok(())
            }
        };
        self.requests = Ghost(log.push((LedRequest::SetBrightness(brightness), r is Ok)));
        r
    }

    /// Record the color; the lightbar has a single zone, so any zone sets it.
    fn set_color(&mut self, zone: u8, color: Rgb) -> (r: Result<(), IoError>)
        ensures
            r is Ok,
            final(self).device() == old(self).device(),
            final(self)@ == (Ite8291LbState { color, ..old(self)@ }),
    {
        let ghost log = self.requests@;
        let r = {
            self.color = color;
            Ok(())
        };
        self.requests = Ghost(log.push((LedRequest::SetColor(zone, color), r is Ok)));
        r
    }

    /// Switch to "static" or "breathing"; another name is refused and changes
    /// nothing.
    fn set_mode(&mut self, mode: &str) -> (r: Result<(), IoError>)
        ensures
            H::obeys_hid_model() && is_lb_mode(mode@) ==> ran_until_failure(
                old(self).device().sent(),
                final(self).device().sent(),
                if old(self)@.on { lb_flush_plan(final(self)@) } else { no_reports() },
                r is Ok,
            ),
            H::obeys_hid_model() && !is_lb_mode(mode@) ==> final(self).device().sent() == old(self).device().sent(),
            !is_lb_mode(mode@) ==> final(self)@ == old(self)@ && (r matches Err(e) && e.kind
                == IoErrorKind::InvalidInput && e.message@ == "unknown lightbar mode: "@ + mode@),
            is_lb_mode(mode@) ==> final(self)@ == (Ite8291LbState { mode: mode@, ..old(self)@ }) && (
            !old(self)@.on ==> r is Ok),
    {
        let ghost log = self.requests@;
        let r = if !(same_text(mode, "static") || same_text(mode, "breathing")) {
            Err(
                IoError {
                    kind: IoErrorKind::InvalidInput,
                    message: concat("unknown lightbar mode: ", mode),
                },
            )
        } else {
            self.current_mode = mode.to_owned();
            if self.on {
                self.flush()
            } else {
                proof {
                    lemma_empty_plan(self.hid.sent());
                }
                Ok(())
            }
        };
        self.requests = Ghost(log.push((LedRequest::SetMode(mode@), r is Ok)));
        r
    }

    /// A single zone.
    fn zone_count(&self) -> (r: u8)
        ensures
            r == 1,
    {
        1
    }

    /// Turn the LEDs off; the settings are kept.
    fn turn_off(&mut self) -> (r: Result<(), IoError>)
        ensures
            H::obeys_hid_model() ==> ran_until_failure(
                old(self).device().sent(),
                final(self).device().sent(),
                seq![(true, off_report())],
                r is Ok,
            ),
            final(self)@ == (Ite8291LbState { on: false, ..old(self)@ }),
    {
        let ghost log = self.requests@;
        let r = {
            self.on = false;
            self.write_off()
        };
        self.requests = Ghost(log.push((LedRequest::TurnOff, r is Ok)));
        r
    }

    /// Turn the LEDs on and send the state.
    fn turn_on(&mut self) -> (r: Result<(), IoError>)
        ensures
            H::obeys_hid_model() ==> ran_until_failure(
                old(self).device().sent(),
                final(self).device().sent(),
                lb_flush_plan(final(self)@),
                r is Ok,
            ),
            final(self)@ == (Ite8291LbState { on: true, ..old(self)@ }),
    {
        let ghost log = self.requests@;
        let r = {
            self.on = true;
            self.flush()
        };
        self.requests = Ghost(log.push((LedRequest::TurnOn, r is Ok)));
        r
    }

    /// Send the reports of `lb_flush_plan` for the current state.
    fn flush(&mut self) -> (r: Result<(), IoError>)
        ensures
            H::obeys_hid_model() ==> ran_until_failure(
                old(self).device().sent(),
                final(self).device().sent(),
                lb_flush_plan(old(self)@),
                r is Ok,
            ),
            final(self)@ == old(self)@,
    {
        let ghost log = self.requests@;
        let r = {
            let reports = self.flush_reports();
            send_reports(&mut self.hid, &reports)
        };
        self.requests = Ghost(log.push((LedRequest::Flush, r is Ok)));
        r
    }

    /// "ite8291_lb".
    fn device_type(&self) -> (r: &str)
        ensures
            r@ == "ite8291_lb"@,
    {
        "ite8291_lb"
    }

    /// "static" and "breathing".
    fn available_modes(&self) -> (r: Vec<String>)
        ensures
            r@.map_values(|s: String| s@) == seq!["static"@, "breathing"@],
    {
        let names = vec!["static", "breathing"];
        let r = owned_names(&names);
        assert(names@.map_values(|s: &str| s@) =~= seq!["static"@, "breathing"@]);
        r
    }
}

} // verus!
