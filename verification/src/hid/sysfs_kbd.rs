//! Sysfs-based keyboard backlight controllers.
//!
//! Drives keyboard backlights exposed via the Linux LED class as
//! `rgb:kbd_backlight` (RGB) or `white:kbd_backlight` (white-only).
//! Brightness goes through the `brightness` attribute, and color through
//! `multi_intensity` for RGB keyboards. No animation modes — static color
//! only.
use crate::error::{IoError, IoErrorKind};
use crate::hid::{owned_names, KeyboardLed, LedRequest, Rgb};
use crate::text::{
    decimal, decimal_text, parse_unsigned, parse_unsigned_spec, trim, trim_spec, unsigned_parse_error,
    unsigned_parse_error_spec,
};
use vstd::prelude::*;

verus! {

/// Writing the attributes of one LED class device.
///
/// `written` is the history of the attribute writes made: the file, the
/// value, and whether the write succeeded. The contract binds a type only
/// where `obeys_attr_model` holds; a type that keeps the default (the
/// daemon's sysfs device, test doubles) promises nothing by it.
pub trait LedAttrs {
    /// Whether this type keeps the contract stated over `written`;
    /// a type that does not say so promises nothing by it.
    closed spec fn obeys_attr_model() -> bool {
        false
    }

    /// The writes made so far, in order, each with whether it succeeded.
    closed spec fn written(&self) -> Seq<((Seq<char>, Seq<char>), bool)> {
        arbitrary()
    }

    /// Write `value` to the attribute file `file` of the device.
    fn write_attr(&mut self, file: &str, value: &str) -> (r: Result<(), IoError>)
        ensures
            Self::obeys_attr_model() ==> (final(self).written() == old(self).written().push(((file@, value@), r is Ok))),
    ;
}

/// A result with its error taken by kind and message.
pub open spec fn io_result_view<T>(r: Result<T, IoError>) -> Result<T, (IoErrorKind, Seq<char>)> {
    match r {
        Ok(v) => Ok(v),
        Err(e) => Err((e.kind, e.message@)),
    }
}

/// The hardware maximum read from a `max_brightness` attribute: the
/// trimmed text as a `u16`, which must not be zero.
pub open spec fn max_brightness_spec(text: Seq<char>) -> Result<u16, (IoErrorKind, Seq<char>)> {
    let t = trim_spec(text);
    match parse_unsigned_spec(t, 65535) {
        Some(v) => if v == 0 {
            Err((IoErrorKind::InvalidData, "max_brightness is 0"@))
        } else {
            Ok(v as u16)
        },
        None => Err((IoErrorKind::InvalidData, unsigned_parse_error_spec(t, 65535))),
    }
}

/// Parse the text of a `max_brightness` attribute.
pub fn parse_max_brightness(text: &str) -> (r: Result<u16, IoError>)
    ensures
        io_result_view(r) == max_brightness_spec(text@),
{
    let t = trim(text);
    match parse_unsigned(t.as_str(), 65535) {
        Some(v) => {
            if v == 0 {
                Err(IoError { kind: IoErrorKind::InvalidData, message: "max_brightness is 0".to_owned() })
            } else {
                Ok(v as u16)
            }
        },
        None => Err(IoError { kind: IoErrorKind::InvalidData, message: unsigned_parse_error(t.as_str(), 65535) }),
    }
}

/// The `brightness` value of an RGB keyboard for a 0–255 brightness:
/// scaled to 0–max, rounding down.
pub open spec fn rgb_level_spec(brightness: u8, max: u16) -> nat {
    ((brightness as int * max as int) / 255) as nat
}

/// The `brightness` value of a white keyboard for a 0–255 brightness: 0
/// stays off; with two levels, 1–127 is the low one and 128–255 the high
/// one; otherwise scaled to 0–max, rounding to nearest.
pub open spec fn white_level_spec(brightness: u8, max: u16) -> nat {
    if brightness == 0 {
        0
    } else if max == 2 {
        if brightness <= 127 {
            1
        } else {
            2
        }
    } else {
        ((brightness as int * max as int + 127) / 255) as nat
    }
}

/// The `multi_intensity` value of a color: the three channels in decimal,
/// separated by spaces.
pub open spec fn multi_intensity_spec(c: Rgb) -> Seq<char> {
    decimal_text(c.r as nat) + " "@ + decimal_text(c.g as nat) + " "@ + decimal_text(c.b as nat)
}

/// The `brightness` text of an RGB keyboard.
pub fn rgb_level_text(brightness: u8, max: u16) -> (r: String)
    ensures
        r@ == decimal_text(rgb_level_spec(brightness, max)),
{
    assert(brightness as int * max as int <= 255 * 65535) by (nonlinear_arith)
        requires
            brightness <= 255,
            max <= 65535,
    ;
    let product: u64 = brightness as u64 * max as u64;
    decimal(product / 255)
}

/// The `brightness` text of a white keyboard.
pub fn white_level_text(brightness: u8, max: u16) -> (r: String)
    ensures
        r@ == decimal_text(white_level_spec(brightness, max)),
{
    if brightness == 0 {
        return decimal(0);
    }
    if max == 2 {
        let level: u64 = if brightness <= 127 {
            1
        } else {
            2
        };
        return decimal(level);
    }
    assert(brightness as int * max as int <= 255 * 65535) by (nonlinear_arith)
        requires
            brightness <= 255,
            max <= 65535,
    ;
    let product: u64 = brightness as u64 * max as u64 + 127;
    decimal(product / 255)
}

/// The `multi_intensity` text of a color.
pub fn multi_intensity_text(c: Rgb) -> (r: String)
    ensures
        r@ == multi_intensity_spec(c),
{
    let mut out = decimal(c.r as u64);
    out.append(" ");
    out.append(decimal(c.g as u64).as_str());
    out.append(" ");
    out.append(decimal(c.b as u64).as_str());
    out
}

/// Sysfs-based single-zone RGB keyboard backlight.
pub struct SysfsRgbKeyboard<A: LedAttrs> {
    attrs: A,
    /// Hardware maximum from `max_brightness`.
    max_brightness: u16,
    /// The requests made so far, with their outcomes.
    requests: Ghost<Seq<(LedRequest, bool)>>,
}

impl<A: LedAttrs> SysfsRgbKeyboard<A> {
    /// The hardware maximum.
    pub closed spec fn max_spec(&self) -> u16 {
        self.max_brightness
    }

    /// The LED device.
    pub closed spec fn device(&self) -> A {
        self.attrs
    }

    /// Open an RGB LED device, given the text of its `max_brightness`
    /// attribute, which calibrates the brightness scale.
    pub fn open(attrs: A, max_brightness: &str) -> (r: Result<Self, IoError>)
        ensures
            r matches Ok(k) ==> max_brightness_spec(max_brightness@) == Ok::<u16, (IoErrorKind, Seq<char>)>(
                k.max_spec(),
            ) && k.device() == attrs,
            r matches Err(e) ==> max_brightness_spec(max_brightness@) == Err::<u16, (IoErrorKind, Seq<char>)>(
                (e.kind, e.message@),
            ),
    {
        match parse_max_brightness(max_brightness) {
            Ok(max) => Ok(SysfsRgbKeyboard { attrs, max_brightness: max, requests: Ghost(Seq::empty()) }),
            Err(e) => Err(e),
        }
    }

    /// The hardware maximum brightness.
    pub fn max_brightness(&self) -> (r: u16)
        ensures
            r == self.max_spec(),
    {
        self.max_brightness
    }

    /// The LED device.
    pub fn attrs(&self) -> (r: &A)
        ensures
            *r == self.device(),
    {
        &self.attrs
    }
}

impl<A: LedAttrs> KeyboardLed for SysfsRgbKeyboard<A> {
    open spec fn obeys_led_model() -> bool {
        true
    }

    closed spec fn requests(&self) -> Seq<(LedRequest, bool)> {
        self.requests@
    }

    open spec fn zones(&self) -> u8 {
        1
    }

    open spec fn modes(&self) -> Seq<Seq<char>> {
        seq!["static"@]
    }

    /// Write the brightness scaled to 0–max (see `rgb_level_spec`).
    fn set_brightness(&mut self, brightness: u8) -> (r: Result<(), IoError>)
        ensures
            A::obeys_attr_model() ==> final(self).device().written() == old(self).device().written().push(
                (("brightness"@, decimal_text(rgb_level_spec(brightness, old(self).max_spec()))), r is Ok),
            ),
            final(self).max_spec() == old(self).max_spec(),
    {
        let ghost log = self.requests@;
        let r = {
            let value = rgb_level_text(brightness, self.max_brightness);
            self.attrs.write_attr("brightness", value.as_str())
        };
        self.requests = Ghost(log.push((LedRequest::SetBrightness(brightness), r is Ok)));
        r
    }

    /// Write the color to `multi_intensity`; there is a single zone.
    fn set_color(&mut self, zone: u8, color: Rgb) -> (r: Result<(), IoError>)
        ensures
            A::obeys_attr_model() ==> final(self).device().written() == old(self).device().written().push(
                (("multi_intensity"@, multi_intensity_spec(color)), r is Ok),
            ),
            final(self).max_spec() == old(self).max_spec(),
    {
        let ghost log = self.requests@;
        let r = {
            let value = multi_intensity_text(color);
            self.attrs.write_attr("multi_intensity", value.as_str())
        };
        self.requests = Ghost(log.push((LedRequest::SetColor(zone, color), r is Ok)));
        r
    }

    /// Only static color exists; any mode is accepted and changes nothing.
    fn set_mode(&mut self, mode: &str) -> (r: Result<(), IoError>)
        ensures
            r is Ok,
            final(self).max_spec() == old(self).max_spec(),
            final(self).device() == old(self).device(),
    {
        let ghost log = self.requests@;
        let r = Ok(());
        self.requests = Ghost(log.push((LedRequest::SetMode(mode@), r is Ok)));
        r
    }

    /// A single zone.
    fn zone_count(&self) -> (r: u8)
        ensures
            r == 1,
    {
        1
    }

    /// Write brightness 0.
    fn turn_off(&mut self) -> (r: Result<(), IoError>)
        ensures
            A::obeys_attr_model() ==> final(self).device().written() == old(self).device().written().push(
                (("brightness"@, "0"@), r is Ok),
            ),
            final(self).max_spec() == old(self).max_spec(),
    {
        let ghost log = self.requests@;
        let r = self.attrs.write_attr("brightness", "0");
        self.requests = Ghost(log.push((LedRequest::TurnOff, r is Ok)));
        r
    }

    /// Restore the hardware maximum brightness.
    fn turn_on(&mut self) -> (r: Result<(), IoError>)
        ensures
            A::obeys_attr_model() ==> final(self).device().written() == old(self).device().written().push(
                (("brightness"@, decimal_text(old(self).max_spec() as nat)), r is Ok),
            ),
            final(self).max_spec() == old(self).max_spec(),
    {
        let ghost log = self.requests@;
        let r = {
            let value = decimal(self.max_brightness as u64);
            self.attrs.write_attr("brightness", value.as_str())
        };
        self.requests = Ghost(log.push((LedRequest::TurnOn, r is Ok)));
        r
    }

    /// Writes are immediate: nothing to flush.
    fn flush(&mut self) -> (r: Result<(), IoError>)
        ensures
            r is Ok,
            final(self).max_spec() == old(self).max_spec(),
            final(self).device() == old(self).device(),
    {
        let ghost log = self.requests@;
        let r = Ok(());
        self.requests = Ghost(log.push((LedRequest::Flush, r is Ok)));
        r
    }

    /// "sysfs_rgb".
    fn device_type(&self) -> (r: &str)
        ensures
            r@ == "sysfs_rgb"@,
    {
        "sysfs_rgb"
    }

    /// Only "static".
    fn available_modes(&self) -> (r: Vec<String>)
        ensures
            r@.map_values(|s: String| s@) == seq!["static"@],
    {
        let names = vec!["static"];
        let r = owned_names(&names);
        assert(names@.map_values(|s: &str| s@) =~= seq!["static"@]);
        r
    }
}

/// Sysfs-based white-only keyboard backlight: brightness only, typically
/// with very few levels.
pub struct SysfsWhiteKeyboard<A: LedAttrs> {
    attrs: A,
    /// Hardware maximum from `max_brightness` (e.g. 2).
    max_brightness: u16,
    /// The requests made so far, with their outcomes.
    requests: Ghost<Seq<(LedRequest, bool)>>,
}

impl<A: LedAttrs> SysfsWhiteKeyboard<A> {
    /// The hardware maximum.
    pub closed spec fn max_spec(&self) -> u16 {
        self.max_brightness
    }

    /// The LED device.
    pub closed spec fn device(&self) -> A {
        self.attrs
    }

    /// Open a white LED device, given the text of its `max_brightness`
    /// attribute.
    pub fn open(attrs: A, max_brightness: &str) -> (r: Result<Self, IoError>)
        ensures
            r matches Ok(k) ==> max_brightness_spec(max_brightness@) == Ok::<u16, (IoErrorKind, Seq<char>)>(
                k.max_spec(),
            ) && k.device() == attrs,
            r matches Err(e) ==> max_brightness_spec(max_brightness@) == Err::<u16, (IoErrorKind, Seq<char>)>(
                (e.kind, e.message@),
            ),
    {
        match parse_max_brightness(max_brightness) {
            Ok(max) => Ok(SysfsWhiteKeyboard { attrs, max_brightness: max, requests: Ghost(Seq::empty()) }),
            Err(e) => Err(e),
        }
    }

    /// The hardware maximum brightness.
    pub fn max_brightness(&self) -> (r: u16)
        ensures
            r == self.max_spec(),
    {
        self.max_brightness
    }

    /// The LED device.
    pub fn attrs(&self) -> (r: &A)
        ensures
            *r == self.device(),
    {
        &self.attrs
    }
}

impl<A: LedAttrs> KeyboardLed for SysfsWhiteKeyboard<A> {
    open spec fn obeys_led_model() -> bool {
        true
    }

    closed spec fn requests(&self) -> Seq<(LedRequest, bool)> {
        self.requests@
    }

    open spec fn zones(&self) -> u8 {
        1
    }

    open spec fn modes(&self) -> Seq<Seq<char>> {
        seq!["static"@]
    }

    /// Write the brightness level of `white_level_spec`.
    fn set_brightness(&mut self, brightness: u8) -> (r: Result<(), IoError>)
        ensures
            A::obeys_attr_model() ==> final(self).device().written() == old(self).device().written().push(
                (("brightness"@, decimal_text(white_level_spec(brightness, old(self).max_spec()))), r is Ok),
            ),
            final(self).max_spec() == old(self).max_spec(),
    {
        let ghost log = self.requests@;
        let r = {
            let value = white_level_text(brightness, self.max_brightness);
            self.attrs.write_attr("brightness", value.as_str())
        };
        self.requests = Ghost(log.push((LedRequest::SetBrightness(brightness), r is Ok)));
        r
    }

    /// A white keyboard has no color: accepted and ignored.
    fn set_color(&mut self, zone: u8, color: Rgb) -> (r: Result<(), IoError>)
        ensures
            r is Ok,
            final(self).max_spec() == old(self).max_spec(),
            final(self).device() == old(self).device(),
    {
        let ghost log = self.requests@;
        let r = Ok(());
        self.requests = Ghost(log.push((LedRequest::SetColor(zone, color), r is Ok)));
        r
    }

    /// Only static mode exists; any mode is accepted and changes nothing.
    fn set_mode(&mut self, mode: &str) -> (r: Result<(), IoError>)
        ensures
            r is Ok,
            final(self).max_spec() == old(self).max_spec(),
            final(self).device() == old(self).device(),
    {
        let ghost log = self.requests@;
        let r = Ok(());
        self.requests = Ghost(log.push((LedRequest::SetMode(mode@), r is Ok)));
        r
    }

    /// A single zone.
    fn zone_count(&self) -> (r: u8)
        ensures
            r == 1,
    {
        1
    }

    /// Write brightness 0.
    fn turn_off(&mut self) -> (r: Result<(), IoError>)
        ensures
            A::obeys_attr_model() ==> final(self).device().written() == old(self).device().written().push(
                (("brightness"@, "0"@), r is Ok),
            ),
            final(self).max_spec() == old(self).max_spec(),
    {
        let ghost log = self.requests@;
        let r = self.attrs.write_attr("brightness", "0");
        self.requests = Ghost(log.push((LedRequest::TurnOff, r is Ok)));
        r
    }

    /// Restore the hardware maximum brightness.
    fn turn_on(&mut self) -> (r: Result<(), IoError>)
        ensures
            A::obeys_attr_model() ==> final(self).device().written() == old(self).device().written().push(
                (("brightness"@, decimal_text(old(self).max_spec() as nat)), r is Ok),
            ),
            final(self).max_spec() == old(self).max_spec(),
    {
        let ghost log = self.requests@;
        let r = {
            let value = decimal(self.max_brightness as u64);
            self.attrs.write_attr("brightness", value.as_str())
        };
        self.requests = Ghost(log.push((LedRequest::TurnOn, r is Ok)));
        r
    }

    /// Writes are immediate: nothing to flush.
    fn flush(&mut self) -> (r: Result<(), IoError>)
        ensures
            r is Ok,
            final(self).max_spec() == old(self).max_spec(),
            final(self).device() == old(self).device(),
    {
        let ghost log = self.requests@;
        let r = Ok(());
        self.requests = Ghost(log.push((LedRequest::Flush, r is Ok)));
        r
    }

    /// "sysfs_white".
    fn device_type(&self) -> (r: &str)
        ensures
            r@ == "sysfs_white"@,
    {
        "sysfs_white"
    }

    /// Only "static".
    fn available_modes(&self) -> (r: Vec<String>)
        ensures
            r@.map_values(|s: String| s@) == seq!["static"@],
    {
        let names = vec!["static"];
        let r = owned_names(&names);
        assert(names@.map_values(|s: &str| s@) =~= seq!["static"@]);
        r
    }
}

/// A two-level white keyboard keeps distinct low and high stages: every
/// non-zero brightness lights it, and only the upper half reaches the top.
pub proof fn law_two_level_white_keeps_both_stages(brightness: u8)
    ensures
        brightness == 0 <==> white_level_spec(brightness, 2) == 0,
        white_level_spec(brightness, 2) == 2 <==> brightness >= 128,
{
}

/// The white level never exceeds the hardware maximum.
pub proof fn law_white_level_within_max(brightness: u8, max: u16)
    ensures
        white_level_spec(brightness, max) <= max,
{
    if brightness != 0 && max != 2 {
        assert((brightness as int * max as int + 127) / 255 <= max as int) by (nonlinear_arith)
            requires
                0 <= brightness <= 255,
                0 <= max,
        ;
    }
}

} // verus!
