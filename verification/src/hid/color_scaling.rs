//! Per-model RGB color scaling corrections.
//!
//! Different LED hardware in different TUXEDO models produces uneven
//! color output. These scaling factors normalize the appearance. Each
//! channel factor is an exact fraction; applying it rounds to the nearest
//! integer (halves away from zero) and caps the result at 255.
use crate::hid::Rgb;
use crate::text::same_text;
use vstd::prelude::*;

verus! {

/// One channel's scaling factor, the fraction `numerator / denominator`.
#[derive(Debug, Clone, Copy)]
pub struct ChannelScale {
    num: u16,
    den: u16,
}

/// Channel value `c` multiplied by `num / den`, rounded half away from zero,
/// capped at 255.
pub open spec fn scaled_channel_spec(c: u8, num: int, den: int) -> int {
    let v = (2 * c * num + den) / (2 * den);
    if v > 255 {
        255
    } else {
        v
    }
}

impl ChannelScale {
    #[verifier::type_invariant]
    spec fn positive_denominator(self) -> bool {
        self.den > 0
    }

    /// The numerator of the factor.
    pub closed spec fn numer(self) -> int {
        self.num as int
    }

    /// The denominator of the factor (never zero).
    pub closed spec fn denom(self) -> int {
        self.den as int
    }

    /// The factor `num / den`; `None` for a zero denominator.
    pub fn ratio(num: u16, den: u16) -> (r: Option<ChannelScale>)
        ensures
            r is Some <==> den > 0,
            r matches Some(s) ==> s.numer() == num && s.denom() == den,
    {
        if den == 0 {
            None
        } else {
            Some(ChannelScale { num, den })
        }
    }

    /// The factor `num / 255`.
    pub fn per_255(num: u8) -> (r: ChannelScale)
        ensures
            r.numer() == num,
            r.denom() == 255,
    {
        ChannelScale { num: num as u16, den: 255 }
    }

    /// The factor 1.
    pub fn one() -> (r: ChannelScale)
        ensures
            r.numer() == 255,
            r.denom() == 255,
    {
        ChannelScale::per_255(255)
    }

    /// The numerator of the factor.
    pub fn numerator(&self) -> (r: u16)
        ensures
            r == self.numer(),
    {
        self.num
    }

    /// The denominator of the factor.
    pub fn denominator(&self) -> (r: u16)
        ensures
            r == self.denom(),
    {
        self.den
    }

    /// Scale one channel value.
    pub fn apply_channel(&self, c: u8) -> (r: u8)
        ensures
            r == scaled_channel_spec(c, self.numer(), self.denom()),
    {
        proof {
            use_type_invariant(self);
        }
        let num: u32 = self.num as u32;
        let den: u32 = self.den as u32;
        let c32: u32 = c as u32;
        assert(c32 * num <= 255 * 65535) by (nonlinear_arith)
            requires
                c32 <= 255,
                num <= 65535,
        ;
        let v: u32 = (2 * (c32 * num) + den) / (2 * den);
        assert(2 * (c32 * num) == 2 * c * self.numer()) by (nonlinear_arith)
            requires
                c32 == c as int,
                num == self.numer(),
        ;
        if v > 255 {
            255
        } else {
            v as u8
        }
    }
}

/// Per-channel RGB scaling factors.
#[derive(Debug, Clone, Copy)]
pub struct ColorScaling {
    pub r: ChannelScale,
    pub g: ChannelScale,
    pub b: ChannelScale,
}

/// `color` with each channel scaled by its factor in `s`.
pub open spec fn scaled_color_spec(s: ColorScaling, color: Rgb) -> Rgb {
    Rgb {
        r: scaled_channel_spec(color.r, s.r.numer(), s.r.denom()) as u8,
        g: scaled_channel_spec(color.g, s.g.numer(), s.g.denom()) as u8,
        b: scaled_channel_spec(color.b, s.b.numer(), s.b.denom()) as u8,
    }
}

/// Whether every factor of `s` is `k / 255` with the given numerators.
pub open spec fn has_factors_of_255(s: ColorScaling, kr: int, kg: int, kb: int) -> bool {
    &&& s.r.numer() == kr && s.r.denom() == 255
    &&& s.g.numer() == kg && s.g.denom() == 255
    &&& s.b.numer() == kb && s.b.denom() == 255
}

impl ColorScaling {
    /// No scaling: every factor is 1.
    pub fn identity() -> (s: ColorScaling)
        ensures
            has_factors_of_255(s, 255, 255, 255),
    {
        ColorScaling { r: ChannelScale::one(), g: ChannelScale::one(), b: ChannelScale::one() }
    }

    /// Factors `kr / 255`, `kg / 255`, `kb / 255`.
    pub fn of_255(kr: u8, kg: u8, kb: u8) -> (s: ColorScaling)
        ensures
            has_factors_of_255(s, kr as int, kg as int, kb as int),
    {
        ColorScaling {
            r: ChannelScale::per_255(kr),
            g: ChannelScale::per_255(kg),
            b: ChannelScale::per_255(kb),
        }
    }

    /// Apply scaling to an RGB color.
    pub fn apply(&self, color: Rgb) -> (r: Rgb)
        ensures
            r == scaled_color_spec(*self, color),
    {
        Rgb { r: self.r.apply_channel(color.r), g: self.g.apply_channel(color.g), b: self.b.apply_channel(color.b) }
    }
}

/// The numerators (over 255) of the scaling of a model, by product SKU and
/// USB product ID, from the quirk tables of the kernel drivers.
pub open spec fn model_factors_spec(sku: Seq<char>, pid: u16) -> (int, int, int) {
    if sku == "STEPOL1XA04"@ && pid == 0x600a {
        (126, 255, 255)
    } else if sku == "STELLARIS1XI05"@ && pid == 0x600a {
        (200, 255, 220)
    } else if sku == "STELLARIS1XA05"@ {
        (128, 255, 255)
    } else if sku == "STELLARIS17I06"@ && pid == 0xce00 {
        (255, 180, 180)
    } else if sku == "STELLARIS17I06"@ && pid == 0x600a {
        (200, 255, 220)
    } else if (sku == "STEPOL1XA04"@ || sku == "STELLARIS1XI05"@ || sku == "STELLARIS17I06"@)
        && pid == 0x6010 {
        (255, 100, 100)
    } else if pid == 0x8291 || pid == 0x600a || pid == 0x600b || pid == 0xce00 {
        (255, 126, 120)
    } else {
        (255, 255, 255)
    }
}

/// Look up color scaling for a given product SKU and USB PID.
pub fn scale_for_model(product_sku: &str, usb_pid: u16) -> (s: ColorScaling)
    ensures
        ({
            let (kr, kg, kb) = model_factors_spec(product_sku@, usb_pid);
            has_factors_of_255(s, kr, kg, kb)
        }),
{
    let stepol = same_text(product_sku, "STEPOL1XA04");
    let xi05 = same_text(product_sku, "STELLARIS1XI05");
    let xa05 = same_text(product_sku, "STELLARIS1XA05");
    let i06 = same_text(product_sku, "STELLARIS17I06");
    if stepol && usb_pid == 0x600a {
        ColorScaling::of_255(126, 255, 255)
    } else if xi05 && usb_pid == 0x600a {
        ColorScaling::of_255(200, 255, 220)
    } else if xa05 {
        ColorScaling::of_255(128, 255, 255)
    } else if i06 && usb_pid == 0xce00 {
        ColorScaling::of_255(255, 180, 180)
    } else if i06 && usb_pid == 0x600a {
        ColorScaling::of_255(200, 255, 220)
    } else if (stepol || xi05 || i06) && usb_pid == 0x6010 {
        ColorScaling::of_255(255, 100, 100)
    } else if usb_pid == 0x8291 || usb_pid == 0x600a || usb_pid == 0x600b || usb_pid == 0xce00 {
        ColorScaling::of_255(255, 126, 120)
    } else {
        ColorScaling::identity()
    }
}

/// The identity scaling leaves every color unchanged.
pub proof fn law_identity_preserves_color(s: ColorScaling, color: Rgb)
    requires
        has_factors_of_255(s, 255, 255, 255),
    ensures
        scaled_color_spec(s, color) == color,
{
    assert((2 * color.r * 255 + 255) / (2 * 255int) == color.r as int) by (nonlinear_arith);
    assert((2 * color.g * 255 + 255) / (2 * 255int) == color.g as int) by (nonlinear_arith);
    assert((2 * color.b * 255 + 255) / (2 * 255int) == color.b as int) by (nonlinear_arith);
}

/// A factor of at most one never raises a channel.
pub proof fn law_scaling_never_brightens(c: u8, num: int, den: int)
    requires
        0 <= num <= den,
        den > 0,
    ensures
        scaled_channel_spec(c, num, den) <= c,
{
    assert((2 * c * num + den) / (2 * den) <= c as int) by (nonlinear_arith)
        requires
            0 <= num <= den,
            den > 0,
            0 <= c,
    {
        assert(2 * c * num <= 2 * c * den);
        assert(2 * c * num + den < (c as int + 1) * (2 * den));
    }
}

} // verus!
