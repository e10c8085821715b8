//! ITE USB HID and sysfs keyboard backlight control.
//!
//! Supports four ITE chip families: 8291 (per-key), 8291-LB (lightbar),
//! 8297 (RGB lightbar), and 829x (per-key 6×20).
use crate::error::IoError;
use crate::hid::hidraw::HidrawOps;
use crate::request_log::{lemma_plan_done, lemma_plan_start, lemma_plan_step, ran_ok_prefix, ran_until_failure};
use vstd::prelude::*;

pub mod color_scaling;
pub mod discover;
pub mod hidraw;
pub mod ite8291;
pub mod ite8291_lb;
pub mod ite8297;
pub mod ite829x;
pub mod sysfs_kbd;

verus! {

/// `brightness` (0–255) scaled to the range `[0, device_max]`, rounding down.
pub open spec fn scale_brightness_spec(brightness: u8, device_max: u8) -> int {
    (brightness as int * device_max as int) / 255
}

/// Scale a 0–255 brightness value to a device-specific range [0, device_max].
pub fn scale_brightness(brightness: u8, device_max: u8) -> (r: u8)
    ensures
        r == scale_brightness_spec(brightness, device_max),
        r <= device_max,
{
    assert(brightness as int * device_max as int <= 65025) by (nonlinear_arith)
        requires
            brightness <= 255,
            device_max <= 255,
    ;
    let product: u16 = brightness as u16 * device_max as u16;
    assert(product as int / 255 <= device_max) by (nonlinear_arith)
        requires
            product as int == brightness as int * device_max as int,
            brightness <= 255,
    ;
    (product / 255) as u8
}

/// Law: brightness scaling keeps the ends of the range (0 stays off, full
/// 255 becomes the device maximum) and never turns a brighter request into
/// a dimmer one.
pub proof fn law_brightness_scaling(a: u8, b: u8, device_max: u8)
    requires
        a <= b,
    ensures
        scale_brightness_spec(0, device_max) == 0,
        scale_brightness_spec(255, device_max) == device_max,
        scale_brightness_spec(a, device_max) <= scale_brightness_spec(b, device_max),
{
    assert(a as int * device_max as int <= b as int * device_max as int) by (nonlinear_arith)
        requires
            a <= b,
    ;
    vstd::arithmetic::div_mod::lemma_div_is_ordered(
        a as int * device_max as int,
        b as int * device_max as int,
        255,
    );
    vstd::arithmetic::div_mod::lemma_div_by_multiple(device_max as int, 255);
    assert(255 * device_max as int == device_max as int * 255) by (nonlinear_arith);
}

/// RGB color value.
#[derive(Debug, Clone, Copy, PartialEq, Eq, Structural)]
pub struct Rgb {
    pub r: u8,
    pub g: u8,
    pub b: u8,
}

impl Rgb {
    /// Full white.
    pub fn white() -> (c: Self)
        ensures
            c == (Rgb { r: 255, g: 255, b: 255 }),
    {
        Rgb { r: 255, g: 255, b: 255 }
    }

    /// All channels off.
    pub fn off() -> (c: Self)
        ensures
            c == (Rgb { r: 0, g: 0, b: 0 }),
    {
        Rgb { r: 0, g: 0, b: 0 }
    }

    /// The color with these channel values.
    pub fn new(r: u8, g: u8, b: u8) -> (c: Self)
        ensures
            c == (Rgb { r, g, b }),
    {
        Rgb { r, g, b }
    }
}

impl Default for Rgb {
    fn default() -> (c: Self)
        ensures
            c == (Rgb { r: 0, g: 0, b: 0 }),
    {
        Rgb { r: 0, g: 0, b: 0 }
    }
}

/// One report for a hidraw device: a SET_FEATURE report or an output report.
#[derive(Debug)]
pub enum HidReport {
    Feature(Vec<u8>),
    Output(Vec<u8>),
}

/// A report as a pair: whether it is a feature report, and its bytes.
pub open spec fn report_view(r: HidReport) -> (bool, Seq<u8>) {
    match r {
        HidReport::Feature(b) => (true, b@),
        HidReport::Output(b) => (false, b@),
    }
}

/// The views of a list of reports.
pub open spec fn reports_view(rs: Seq<HidReport>) -> Seq<(bool, Seq<u8>)> {
    rs.map_values(|r: HidReport| report_view(r))
}

/// No reports at all.
pub open spec fn no_reports() -> Seq<(bool, Seq<u8>)> {
    Seq::empty()
}

/// Send the reports in order, stopping at the first one the device refuses
/// and returning its error.
pub fn send_reports<H: HidrawOps>(hid: &mut H, reports: &Vec<HidReport>) -> (r: Result<(), IoError>)
    ensures
        H::obeys_hid_model() ==> ran_until_failure(old(hid).sent(), final(hid).sent(), reports_view(reports@), r is Ok),
        reports@.len() == 0 ==> r is Ok,
{
    let ghost before = hid.sent();
    let ghost plan = reports_view(reports@);
    proof {
        if H::obeys_hid_model() {
            lemma_plan_start(before, plan);
        }
    }
    let n = reports.len();
    let mut i: usize = 0;
    while i < n
        invariant
            n == reports@.len(),
            i <= n,
            plan == reports_view(reports@),
            before == old(hid).sent(),
            H::obeys_hid_model() ==> ran_ok_prefix(before, hid.sent(), plan, i as int),
        decreases n - i,
    {
        let ghost log = hid.sent();
        let sent = match &reports[i] {
            HidReport::Feature(bytes) => hid.set_feature(bytes.as_slice()),
            HidReport::Output(bytes) => hid.write_output(bytes.as_slice()),
        };
        proof {
            assert(plan[i as int] == report_view(reports@[i as int]));
            if H::obeys_hid_model() {
                lemma_plan_step(before, log, plan, i as int, sent is Ok);
            }
        }
        if let Err(e) = sent {
            return Err(e);
        }
        i = i + 1;
    }
    proof {
        if H::obeys_hid_model() {
            lemma_plan_done(before, hid.sent(), plan);
        }
    }
    Ok(())
}

/// The names in `names`, as owned strings.
pub fn owned_names(names: &Vec<&str>) -> (r: Vec<String>)
    ensures
        r@.map_values(|s: String| s@) == names@.map_values(|s: &str| s@),
{
    let mut out: Vec<String> = Vec::new();
    let n = names.len();
    let mut i: usize = 0;
    while i < n
        invariant
            n == names@.len(),
            i <= n,
            out@.map_values(|s: String| s@) == names@.subrange(0, i as int).map_values(|s: &str| s@),
        decreases n - i,
    {
        let ghost before = out@;
        out.push(names[i].to_owned());
        proof {
            assert(out@.map_values(|s: String| s@) =~= before.map_values(|s: String| s@).push(names@[i as int]@));
            assert(names@.subrange(0, i + 1).map_values(|s: &str| s@) =~= names@.subrange(0, i as int).map_values(
                |s: &str| s@,
            ).push(names@[i as int]@));
        }
        i = i + 1;
    }
    assert(names@.subrange(0, n as int) =~= names@);
    out
}

/// A request made of a keyboard LED controller.
pub enum LedRequest {
    SetBrightness(u8),
    SetColor(u8, Rgb),
    SetMode(Seq<char>),
    TurnOff,
    TurnOn,
    Flush,
}

/// Common trait for all keyboard LED controllers.
///
/// `requests` is the history of the requests made of a controller, each
/// with whether it succeeded; every request adds one entry and keeps the
/// number of zones. `modes` names the animation modes it supports. These
/// contracts bind a type only where `obeys_led_model` holds: the
/// controllers of this crate say so, keep the history as ghost state and
/// define the rest; a type that keeps the defaults (the daemon's shared
/// handles, test doubles) promises nothing by them.
pub trait KeyboardLed {
    /// Whether this type keeps the contracts stated over the spec functions below;
    /// a type that does not say so promises nothing by them.
    closed spec fn obeys_led_model() -> bool {
        false
    }

    /// The requests made so far, in order, each with whether it succeeded.
    closed spec fn requests(&self) -> Seq<(LedRequest, bool)> {
        arbitrary()
    }

    /// The number of independently-addressable color zones.
    closed spec fn zones(&self) -> u8 {
        arbitrary()
    }

    /// The names of the supported animation modes, in order.
    closed spec fn modes(&self) -> Seq<Seq<char>> {
        arbitrary()
    }

    /// Set overall brightness (0–255, scaled to device range internally).
    fn set_brightness(&mut self, brightness: u8) -> (r: Result<(), IoError>)
        ensures
            Self::obeys_led_model() ==> (final(self).requests() == old(self).requests().push((LedRequest::SetBrightness(brightness), r is Ok))),
            Self::obeys_led_model() ==> (final(self).zones() == old(self).zones()),
    ;

    /// Set color for a given zone (0-indexed).
    fn set_color(&mut self, zone: u8, color: Rgb) -> (r: Result<(), IoError>)
        ensures
            Self::obeys_led_model() ==> (final(self).requests() == old(self).requests().push((LedRequest::SetColor(zone, color), r is Ok))),
            Self::obeys_led_model() ==> (final(self).zones() == old(self).zones()),
    ;

    /// Set animation mode by name.
    fn set_mode(&mut self, mode: &str) -> (r: Result<(), IoError>)
        ensures
            Self::obeys_led_model() ==> (final(self).requests() == old(self).requests().push((LedRequest::SetMode(mode@), r is Ok))),
            Self::obeys_led_model() ==> (final(self).zones() == old(self).zones()),
    ;

    /// Number of independently-addressable color zones.
    fn zone_count(&self) -> (r: u8)
        ensures
            Self::obeys_led_model() ==> (r == self.zones()),
    ;

    /// Turn off LEDs (preserves settings).
    fn turn_off(&mut self) -> (r: Result<(), IoError>)
        ensures
            Self::obeys_led_model() ==> (final(self).requests() == old(self).requests().push((LedRequest::TurnOff, r is Ok))),
            Self::obeys_led_model() ==> (final(self).zones() == old(self).zones()),
    ;

    /// Turn on LEDs (restores previous state).
    fn turn_on(&mut self) -> (r: Result<(), IoError>)
        ensures
            Self::obeys_led_model() ==> (final(self).requests() == old(self).requests().push((LedRequest::TurnOn, r is Ok))),
            Self::obeys_led_model() ==> (final(self).zones() == old(self).zones()),
    ;

    /// Flush buffered state to hardware.
    fn flush(&mut self) -> (r: Result<(), IoError>)
        ensures
            Self::obeys_led_model() ==> (final(self).requests() == old(self).requests().push((LedRequest::Flush, r is Ok))),
            Self::obeys_led_model() ==> (final(self).zones() == old(self).zones()),
    ;

    /// Human-readable device type identifier.
    fn device_type(&self) -> &str;

    /// List of supported animation modes.
    fn available_modes(&self) -> (r: Vec<String>)
        ensures
            Self::obeys_led_model() ==> (r@.map_values(|s: String| s@) == self.modes()),
    ;
}

} // verus!
