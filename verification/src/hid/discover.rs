//! Recognising ITE keyboard controllers and sysfs keyboard backlights.
use crate::error::{IoError, IoErrorKind};
use crate::hid::color_scaling::{has_factors_of_255, model_factors_spec, scale_for_model, ColorScaling};
use crate::hid::hidraw::{HidrawInfo, HidrawOps};
use crate::hid::ite8291::{color_set_state, flush_plan, mode_code_spec, modes_spec, off_report, Ite8291, Ite8291State};
use crate::hid::ite8291_lb::{is_lb_mode, lb_flush_plan, Ite8291Lb, Ite8291LbState};
use crate::hid::ite8297::{dimmed_report_8297, flush_plan_8297, Ite8297, Ite8297State};
use crate::hid::ite829x::{brightness_report_829x, flush_plan_829x, is_829x_mode, Ite829x, Ite829xState};
use crate::request_log::{lemma_empty_plan, ran_until_failure};
use crate::hid::sysfs_kbd::{LedAttrs, SysfsRgbKeyboard, SysfsWhiteKeyboard};
use crate::hid::{no_reports, scale_brightness_spec, KeyboardLed, LedRequest, Rgb};
use crate::text::{starts_with, starts_with_spec};
use vstd::prelude::*;

verus! {

/// ITE vendor ID on USB.
pub const ITE_VENDOR_ID: u16 = 0x048d;

/// Chip family of an ITE keyboard controller.
#[derive(Debug, Clone, Copy, PartialEq, Eq, Structural)]
pub enum IteFamily {
    Ite8291,
    Ite8291Lb,
    Ite8297,
    Ite829x,
}

/// The chip family of a known ITE product ID.
pub open spec fn ite_family_spec(pid: u16) -> Option<IteFamily> {
    if pid == 0x8291 || pid == 0x600a || pid == 0x600b || pid == 0xce00 {
        Some(IteFamily::Ite8291)
    } else if pid == 0x6010 || pid == 0x7000 || pid == 0x7001 {
        Some(IteFamily::Ite8291Lb)
    } else if pid == 0x8297 {
        Some(IteFamily::Ite8297)
    } else if pid == 0x8910 {
        Some(IteFamily::Ite829x)
    } else {
        None
    }
}

/// The known ITE product IDs with their chip family, in table order.
pub open spec fn ite_products_spec() -> Seq<(u16, IteFamily)> {
    seq![
        (0x8291u16, IteFamily::Ite8291),
        (0x600au16, IteFamily::Ite8291),
        (0x600bu16, IteFamily::Ite8291),
        (0xce00u16, IteFamily::Ite8291),
        (0x6010u16, IteFamily::Ite8291Lb),
        (0x7000u16, IteFamily::Ite8291Lb),
        (0x7001u16, IteFamily::Ite8291Lb),
        (0x8297u16, IteFamily::Ite8297),
        (0x8910u16, IteFamily::Ite829x),
    ]
}

/// Known ITE product IDs and their chip family.
pub fn ite_products() -> (r: Vec<(u16, IteFamily)>)
    ensures
        r@ == ite_products_spec(),
{
    let r = vec![
        (0x8291u16, IteFamily::Ite8291),
        (0x600au16, IteFamily::Ite8291),
        (0x600bu16, IteFamily::Ite8291),
        (0xce00u16, IteFamily::Ite8291),
        (0x6010u16, IteFamily::Ite8291Lb),
        (0x7000u16, IteFamily::Ite8291Lb),
        (0x7001u16, IteFamily::Ite8291Lb),
        (0x8297u16, IteFamily::Ite8297),
        (0x8910u16, IteFamily::Ite829x),
    ];
    assert(r@ =~= ite_products_spec());
    r
}

/// The chip family of an ITE product ID, if it is a known one.
pub fn ite_family(pid: u16) -> (r: Option<IteFamily>)
    ensures
        r == ite_family_spec(pid),
{
    if pid == 0x8291 || pid == 0x600a || pid == 0x600b || pid == 0xce00 {
        Some(IteFamily::Ite8291)
    } else if pid == 0x6010 || pid == 0x7000 || pid == 0x7001 {
        Some(IteFamily::Ite8291Lb)
    } else if pid == 0x8297 {
        Some(IteFamily::Ite8297)
    } else if pid == 0x8910 {
        Some(IteFamily::Ite829x)
    } else {
        None
    }
}

/// The family of a device's controller when it is a known ITE keyboard.
pub fn keyboard_family(info: &HidrawInfo) -> (r: Option<IteFamily>)
    ensures
        r == (if info.vendor_id == ITE_VENDOR_ID {
            ite_family_spec(info.product_id)
        } else {
            None
        }),
{
    if info.vendor_id != ITE_VENDOR_ID {
        return None;
    }
    ite_family(info.product_id)
}

/// Check if a HidrawInfo matches a known ITE keyboard device.
pub fn is_ite_keyboard(info: &HidrawInfo) -> (r: bool)
    ensures
        r == (info.vendor_id == ITE_VENDOR_ID && ite_family_spec(info.product_id) is Some),
{
    info.vendor_id == ITE_VENDOR_ID && ite_family(info.product_id).is_some()
}

/// Whether a `/dev` entry name is a hidraw device.
pub fn is_hidraw_name(name: &str) -> (r: bool)
    ensures
        r == starts_with_spec(name@, "hidraw"@),
{
    starts_with(name, "hidraw")
}

/// Kind of a keyboard backlight in the sysfs LED class.
#[derive(Debug, Clone, Copy, PartialEq, Eq, Structural)]
pub enum SysfsLedKind {
    /// `rgb:kbd_backlight*`, with per-channel intensities.
    Rgb,
    /// `white:kbd_backlight*`, brightness only.
    White,
}

/// The kind of keyboard backlight that a sysfs LED entry name denotes.
pub open spec fn led_kind_spec(name: Seq<char>) -> Option<SysfsLedKind> {
    if starts_with_spec(name, "rgb:kbd_backlight"@) {
        Some(SysfsLedKind::Rgb)
    } else if starts_with_spec(name, "white:kbd_backlight"@) {
        Some(SysfsLedKind::White)
    } else {
        None
    }
}

/// The kind of keyboard backlight that a sysfs LED entry name denotes, if
/// any ("rgb:kbd_backlight", "white:kbd_backlight", with any suffix).
pub fn led_kind(name: &str) -> (r: Option<SysfsLedKind>)
    ensures
        r == led_kind_spec(name@),
{
    if starts_with(name, "rgb:kbd_backlight") {
        Some(SysfsLedKind::Rgb)
    } else if starts_with(name, "white:kbd_backlight") {
        Some(SysfsLedKind::White)
    } else {
        None
    }
}

/// An ITE keyboard controller of any of the four families.
pub enum IteKeyboard<H: HidrawOps> {
    Ite8291(Ite8291<H>),
    Ite8291Lb(Ite8291Lb<H>),
    Ite8297(Ite8297<H>),
    Ite829x(Ite829x<H>),
}

/// The family of a controller.
pub open spec fn ite_keyboard_family<H: HidrawOps>(k: IteKeyboard<H>) -> IteFamily {
    match k {
        IteKeyboard::Ite8291(_) => IteFamily::Ite8291,
        IteKeyboard::Ite8291Lb(_) => IteFamily::Ite8291Lb,
        IteKeyboard::Ite8297(_) => IteFamily::Ite8297,
        IteKeyboard::Ite829x(_) => IteFamily::Ite829x,
    }
}

/// The color scaling a controller was built with.
pub open spec fn ite_keyboard_scaling<H: HidrawOps>(k: IteKeyboard<H>) -> ColorScaling {
    match k {
        IteKeyboard::Ite8291(d) => d@.scaling,
        IteKeyboard::Ite8291Lb(d) => d@.scaling,
        IteKeyboard::Ite8297(d) => d@.scaling,
        IteKeyboard::Ite829x(d) => d@.scaling,
    }
}

/// The driver for an opened hidraw device with this info: `None` unless it
/// is a known ITE keyboard; its colors are scaled for the model with this
/// product SKU.
pub fn open_ite_keyboard<H: HidrawOps>(hid: H, info: HidrawInfo, product_sku: &str) -> (r: Option<
    IteKeyboard<H>,
>)
    ensures
        r is Some <==> info.vendor_id == ITE_VENDOR_ID && ite_family_spec(info.product_id) is Some,
        r matches Some(k) ==> Some(ite_keyboard_family(k)) == ite_family_spec(info.product_id) && ({
            let (kr, kg, kb) = model_factors_spec(product_sku@, info.product_id);
            has_factors_of_255(ite_keyboard_scaling(k), kr, kg, kb)
        }),
{
    let family = match keyboard_family(&info) {
        Some(f) => f,
        None => return None,
    };
    let scaling = scale_for_model(product_sku, info.product_id);
    match family {
        IteFamily::Ite8291 => Some(IteKeyboard::Ite8291(Ite8291::with_scaling(hid, scaling))),
        IteFamily::Ite8291Lb => Some(IteKeyboard::Ite8291Lb(Ite8291Lb::with_scaling(hid, scaling))),
        IteFamily::Ite8297 => Some(IteKeyboard::Ite8297(Ite8297::with_scaling(hid, scaling))),
        IteFamily::Ite829x => Some(IteKeyboard::Ite829x(Ite829x::with_scaling(hid, scaling))),
    }
}

impl<H: HidrawOps> IteKeyboard<H> {
    /// The chip family.
    pub fn family(&self) -> (r: IteFamily)
        ensures
            r == ite_keyboard_family(*self),
    {
        match self {
            IteKeyboard::Ite8291(_) => IteFamily::Ite8291,
            IteKeyboard::Ite8291Lb(_) => IteFamily::Ite8291Lb,
            IteKeyboard::Ite8297(_) => IteFamily::Ite8297,
            IteKeyboard::Ite829x(_) => IteFamily::Ite829x,
        }
    }
}

/// The observable state of an ITE controller, by family.
pub enum IteKeyboardState {
    Ite8291(Ite8291State),
    Ite8291Lb(Ite8291LbState),
    Ite8297(Ite8297State),
    Ite829x(Ite829xState),
}

impl<H: HidrawOps> View for IteKeyboard<H> {
    type V = IteKeyboardState;

    open spec fn view(&self) -> IteKeyboardState {
        match self {
            IteKeyboard::Ite8291(d) => IteKeyboardState::Ite8291(d@),
            IteKeyboard::Ite8291Lb(d) => IteKeyboardState::Ite8291Lb(d@),
            IteKeyboard::Ite8297(d) => IteKeyboardState::Ite8297(d@),
            IteKeyboard::Ite829x(d) => IteKeyboardState::Ite829x(d@),
        }
    }
}

/// Whether the controller's LEDs are on.
pub open spec fn ite_is_on(s: IteKeyboardState) -> bool {
    match s {
        IteKeyboardState::Ite8291(t) => t.on,
        IteKeyboardState::Ite8291Lb(t) => t.on,
        IteKeyboardState::Ite8297(t) => t.on,
        IteKeyboardState::Ite829x(t) => t.on,
    }
}

/// The state after a brightness request: the brightness scaled to the
/// family's hardware range (50, 100 or 10); the 8297 stores none.
pub open spec fn ite_after_brightness(s: IteKeyboardState, brightness: u8) -> IteKeyboardState {
    match s {
        IteKeyboardState::Ite8291(t) => IteKeyboardState::Ite8291(
            Ite8291State { brightness: scale_brightness_spec(brightness, 0x32) as u8, ..t },
        ),
        IteKeyboardState::Ite8291Lb(t) => IteKeyboardState::Ite8291Lb(
            Ite8291LbState { brightness: scale_brightness_spec(brightness, 0x64) as u8, ..t },
        ),
        IteKeyboardState::Ite8297(t) => IteKeyboardState::Ite8297(t),
        IteKeyboardState::Ite829x(t) => IteKeyboardState::Ite829x(
            Ite829xState { brightness: scale_brightness_spec(brightness, 0x0a) as u8, ..t },
        ),
    }
}

/// The state after recording `color` for `zone`: per zone on the 8291, the
/// single color of the others.
pub open spec fn ite_after_color(s: IteKeyboardState, zone: u8, color: Rgb) -> IteKeyboardState {
    match s {
        IteKeyboardState::Ite8291(t) => IteKeyboardState::Ite8291(color_set_state(t, zone, color)),
        IteKeyboardState::Ite8291Lb(t) => IteKeyboardState::Ite8291Lb(Ite8291LbState { color, ..t }),
        IteKeyboardState::Ite8297(t) => IteKeyboardState::Ite8297(Ite8297State { color, ..t }),
        IteKeyboardState::Ite829x(t) => IteKeyboardState::Ite829x(Ite829xState { color, ..t }),
    }
}

/// Whether the family knows the mode name.
pub open spec fn ite_mode_known(s: IteKeyboardState, mode: Seq<char>) -> bool {
    match s {
        IteKeyboardState::Ite8291(_) => mode_code_spec(mode) is Some,
        IteKeyboardState::Ite8291Lb(_) => is_lb_mode(mode),
        IteKeyboardState::Ite8297(_) => mode == "static"@,
        IteKeyboardState::Ite829x(_) => is_829x_mode(mode),
    }
}

/// The state after a mode request: a known mode is recorded (the 8297 has
/// only "static" and records nothing); an unknown one changes nothing.
pub open spec fn ite_after_mode(s: IteKeyboardState, mode: Seq<char>) -> IteKeyboardState {
    if !ite_mode_known(s, mode) {
        s
    } else {
        match s {
            IteKeyboardState::Ite8291(t) => IteKeyboardState::Ite8291(Ite8291State { mode, ..t }),
            IteKeyboardState::Ite8291Lb(t) => IteKeyboardState::Ite8291Lb(Ite8291LbState { mode, ..t }),
            IteKeyboardState::Ite8297(t) => IteKeyboardState::Ite8297(t),
            IteKeyboardState::Ite829x(t) => IteKeyboardState::Ite829x(Ite829xState { mode, ..t }),
        }
    }
}

/// The message of the error for a mode name the family does not know.
pub open spec fn ite_mode_error(s: IteKeyboardState, mode: Seq<char>) -> Seq<char> {
    match s {
        IteKeyboardState::Ite8291(_) => "unknown mode: "@ + mode,
        IteKeyboardState::Ite8291Lb(_) => "unknown lightbar mode: "@ + mode,
        IteKeyboardState::Ite8297(_) => "ite8297 only supports 'static' mode, got: "@ + mode,
        IteKeyboardState::Ite829x(_) => "unknown ite829x mode: "@ + mode,
    }
}

/// Whether a mode request succeeds without touching the device: a known
/// mode while the LEDs are off, or "static" on the 8297.
pub open spec fn ite_mode_needs_no_send(s: IteKeyboardState, mode: Seq<char>) -> bool {
    ite_mode_known(s, mode) && (s is Ite8297 || !ite_is_on(s))
}

/// The state with the LEDs switched on or off; the settings are kept.
pub open spec fn ite_with_power(s: IteKeyboardState, on: bool) -> IteKeyboardState {
    match s {
        IteKeyboardState::Ite8291(t) => IteKeyboardState::Ite8291(Ite8291State { on, ..t }),
        IteKeyboardState::Ite8291Lb(t) => IteKeyboardState::Ite8291Lb(Ite8291LbState { on, ..t }),
        IteKeyboardState::Ite8297(t) => IteKeyboardState::Ite8297(Ite8297State { on, ..t }),
        IteKeyboardState::Ite829x(t) => IteKeyboardState::Ite829x(Ite829xState { on, ..t }),
    }
}

/// The family's animation mode names.
pub open spec fn ite_modes(s: IteKeyboardState) -> Seq<Seq<char>> {
    match s {
        IteKeyboardState::Ite8291(_) => modes_spec(),
        IteKeyboardState::Ite8291Lb(_) => seq!["static"@, "breathing"@],
        IteKeyboardState::Ite8297(_) => seq!["static"@],
        IteKeyboardState::Ite829x(_) => seq!["static"@, "random"@],
    }
}

/// The family's number of color zones.
pub open spec fn ite_zone_count(s: IteKeyboardState) -> u8 {
    if s is Ite8291 {
        4
    } else {
        1
    }
}

/// The family's device type name.
pub open spec fn ite_device_type(s: IteKeyboardState) -> Seq<char> {
    match s {
        IteKeyboardState::Ite8291(_) => "ite8291"@,
        IteKeyboardState::Ite8291Lb(_) => "ite8291_lb"@,
        IteKeyboardState::Ite8297(_) => "ite8297"@,
        IteKeyboardState::Ite829x(_) => "ite829x"@,
    }
}

/// The reports sent to the controller's hidraw device.
pub open spec fn ite_sent<H: HidrawOps>(k: IteKeyboard<H>) -> Seq<((bool, Seq<u8>), bool)> {
    match k {
        IteKeyboard::Ite8291(d) => d.device().sent(),
        IteKeyboard::Ite8291Lb(d) => d.device().sent(),
        IteKeyboard::Ite8297(d) => d.device().sent(),
        IteKeyboard::Ite829x(d) => d.device().sent(),
    }
}

/// The reports that bring the controller to state `s`.
pub open spec fn ite_flush_plan(s: IteKeyboardState) -> Seq<(bool, Seq<u8>)> {
    match s {
        IteKeyboardState::Ite8291(t) => flush_plan(t),
        IteKeyboardState::Ite8291Lb(t) => lb_flush_plan(t),
        IteKeyboardState::Ite8297(t) => flush_plan_8297(t),
        IteKeyboardState::Ite829x(t) => flush_plan_829x(t),
    }
}

/// The reports that turn the LEDs off, leaving state `s`: the power-off
/// command on the 8291 and the lightbar, the state (now off) on the others.
pub open spec fn ite_off_plan(s: IteKeyboardState) -> Seq<(bool, Seq<u8>)> {
    match s {
        IteKeyboardState::Ite8291(_) => seq![(true, off_report())],
        IteKeyboardState::Ite8291Lb(_) => seq![(true, off_report())],
        _ => ite_flush_plan(s),
    }
}

/// The reports that a brightness request sends, from state `before` to
/// state `after`: none while the LEDs are off; otherwise the whole state on
/// the 8291 and the lightbar, the color dimmed to `brightness` on the 8297
/// and the brightness report on the 829x.
pub open spec fn ite_brightness_plan(
    before: IteKeyboardState,
    after: IteKeyboardState,
    brightness: u8,
) -> Seq<(bool, Seq<u8>)> {
    if !ite_is_on(before) {
        no_reports()
    } else {
        match (before, after) {
            (IteKeyboardState::Ite8297(t), _) => seq![(true, dimmed_report_8297(t.color, brightness))],
            (_, IteKeyboardState::Ite829x(t)) => seq![(true, brightness_report_829x(t.brightness))],
            _ => ite_flush_plan(after),
        }
    }
}

/// The reports that a mode request with a known mode sends, leaving state
/// `after`: the state while the LEDs are on, except on the 8297, which has
/// only "static" and sends nothing.
pub open spec fn ite_mode_plan(before: IteKeyboardState, after: IteKeyboardState) -> Seq<(bool, Seq<u8>)> {
    if ite_is_on(before) && !(before is Ite8297) {
        ite_flush_plan(after)
    } else {
        no_reports()
    }
}

impl<H: HidrawOps> KeyboardLed for IteKeyboard<H> {
    open spec fn obeys_led_model() -> bool {
        true
    }

    open spec fn requests(&self) -> Seq<(LedRequest, bool)> {
        match self {
            IteKeyboard::Ite8291(d) => d.requests(),
            IteKeyboard::Ite8291Lb(d) => d.requests(),
            IteKeyboard::Ite8297(d) => d.requests(),
            IteKeyboard::Ite829x(d) => d.requests(),
        }
    }

    open spec fn zones(&self) -> u8 {
        ite_zone_count(self@)
    }

    open spec fn modes(&self) -> Seq<Seq<char>> {
        ite_modes(self@)
    }

    fn set_brightness(&mut self, brightness: u8) -> (r: Result<(), IoError>)
        ensures
            H::obeys_hid_model() ==> ran_until_failure(
                ite_sent(*old(self)),
                ite_sent(*final(self)),
                ite_brightness_plan(old(self)@, final(self)@, brightness),
                r is Ok,
            ),
            final(self)@ == ite_after_brightness(old(self)@, brightness),
            ite_keyboard_family(*final(self)) == ite_keyboard_family(*old(self)),
            !ite_is_on(old(self)@) ==> r is Ok,
    {
        match self {
            IteKeyboard::Ite8291(d) => d.set_brightness(brightness),
            IteKeyboard::Ite8291Lb(d) => d.set_brightness(brightness),
            IteKeyboard::Ite8297(d) => d.set_brightness(brightness),
            IteKeyboard::Ite829x(d) => d.set_brightness(brightness),
        }
    }

    fn set_color(&mut self, zone: u8, color: Rgb) -> (r: Result<(), IoError>)
        ensures
            ite_sent(*final(self)) == ite_sent(*old(self)),
            r is Ok,
            final(self)@ == ite_after_color(old(self)@, zone, color),
            ite_keyboard_family(*final(self)) == ite_keyboard_family(*old(self)),
    {
        match self {
            IteKeyboard::Ite8291(d) => d.set_color(zone, color),
            IteKeyboard::Ite8291Lb(d) => d.set_color(zone, color),
            IteKeyboard::Ite8297(d) => d.set_color(zone, color),
            IteKeyboard::Ite829x(d) => d.set_color(zone, color),
        }
    }

    fn set_mode(&mut self, mode: &str) -> (r: Result<(), IoError>)
        ensures
            H::obeys_hid_model() && ite_mode_known(old(self)@, mode@) ==> ran_until_failure(
                ite_sent(*old(self)),
                ite_sent(*final(self)),
                ite_mode_plan(old(self)@, final(self)@),
                r is Ok,
            ),
            H::obeys_hid_model() && !ite_mode_known(old(self)@, mode@) ==> ite_sent(*final(self)) == ite_sent(*old(self)),
            final(self)@ == ite_after_mode(old(self)@, mode@),
            ite_keyboard_family(*final(self)) == ite_keyboard_family(*old(self)),
            !ite_mode_known(old(self)@, mode@) ==> (r matches Err(e) && e.kind == IoErrorKind::InvalidInput
                && e.message@ == ite_mode_error(old(self)@, mode@)),
            ite_mode_needs_no_send(old(self)@, mode@) ==> r is Ok,
    {
        proof {
            lemma_empty_plan(ite_sent(*self));
        }
        match self {
            IteKeyboard::Ite8291(d) => d.set_mode(mode),
            IteKeyboard::Ite8291Lb(d) => d.set_mode(mode),
            IteKeyboard::Ite8297(d) => d.set_mode(mode),
            IteKeyboard::Ite829x(d) => d.set_mode(mode),
        }
    }

    /// Four zones for the 8291, one for the others.
    fn zone_count(&self) -> (r: u8)
        ensures
            r == (if ite_keyboard_family(*self) == IteFamily::Ite8291 {
                4u8
            } else {
                1u8
            }),
            r == ite_zone_count(self@),
    {
        match self {
            IteKeyboard::Ite8291(d) => d.zone_count(),
            IteKeyboard::Ite8291Lb(d) => d.zone_count(),
            IteKeyboard::Ite8297(d) => d.zone_count(),
            IteKeyboard::Ite829x(d) => d.zone_count(),
        }
    }

    fn turn_off(&mut self) -> (r: Result<(), IoError>)
        ensures
            H::obeys_hid_model() ==> ran_until_failure(
                ite_sent(*old(self)),
                ite_sent(*final(self)),
                ite_off_plan(final(self)@),
                r is Ok,
            ),
            final(self)@ == ite_with_power(old(self)@, false),
            ite_keyboard_family(*final(self)) == ite_keyboard_family(*old(self)),
    {
        match self {
            IteKeyboard::Ite8291(d) => d.turn_off(),
            IteKeyboard::Ite8291Lb(d) => d.turn_off(),
            IteKeyboard::Ite8297(d) => d.turn_off(),
            IteKeyboard::Ite829x(d) => d.turn_off(),
        }
    }

    fn turn_on(&mut self) -> (r: Result<(), IoError>)
        ensures
            H::obeys_hid_model() ==> ran_until_failure(
                ite_sent(*old(self)),
                ite_sent(*final(self)),
                ite_flush_plan(final(self)@),
                r is Ok,
            ),
            final(self)@ == ite_with_power(old(self)@, true),
            ite_keyboard_family(*final(self)) == ite_keyboard_family(*old(self)),
    {
        match self {
            IteKeyboard::Ite8291(d) => d.turn_on(),
            IteKeyboard::Ite8291Lb(d) => d.turn_on(),
            IteKeyboard::Ite8297(d) => d.turn_on(),
            IteKeyboard::Ite829x(d) => d.turn_on(),
        }
    }

    fn flush(&mut self) -> (r: Result<(), IoError>)
        ensures
            H::obeys_hid_model() ==> ran_until_failure(
                ite_sent(*old(self)),
                ite_sent(*final(self)),
                ite_flush_plan(old(self)@),
                r is Ok,
            ),
            final(self)@ == old(self)@,
            ite_keyboard_family(*final(self)) == ite_keyboard_family(*old(self)),
    {
        match self {
            IteKeyboard::Ite8291(d) => d.flush(),
            IteKeyboard::Ite8291Lb(d) => d.flush(),
            IteKeyboard::Ite8297(d) => d.flush(),
            IteKeyboard::Ite829x(d) => d.flush(),
        }
    }

    /// The family's device type name.
    fn device_type(&self) -> (r: &str)
        ensures
            r@ == (match ite_keyboard_family(*self) {
                IteFamily::Ite8291 => "ite8291"@,
                IteFamily::Ite8291Lb => "ite8291_lb"@,
                IteFamily::Ite8297 => "ite8297"@,
                IteFamily::Ite829x => "ite829x"@,
            }),
            r@ == ite_device_type(self@),
    {
        match self {
            IteKeyboard::Ite8291(d) => d.device_type(),
            IteKeyboard::Ite8291Lb(d) => d.device_type(),
            IteKeyboard::Ite8297(d) => d.device_type(),
            IteKeyboard::Ite829x(d) => d.device_type(),
        }
    }

    /// The family's animation modes.
    fn available_modes(&self) -> (r: Vec<String>)
        ensures
            r@.map_values(|s: String| s@) == ite_modes(self@),
    {
        match self {
            IteKeyboard::Ite8291(d) => d.available_modes(),
            IteKeyboard::Ite8291Lb(d) => d.available_modes(),
            IteKeyboard::Ite8297(d) => d.available_modes(),
            IteKeyboard::Ite829x(d) => d.available_modes(),
        }
    }
}

/// Any keyboard backlight the daemon drives: an ITE controller on hidraw or
/// an LED-class device in sysfs.
pub enum AnyKeyboard<H: HidrawOps, A: LedAttrs> {
    Ite(IteKeyboard<H>),
    SysfsRgb(SysfsRgbKeyboard<A>),
    SysfsWhite(SysfsWhiteKeyboard<A>),
}

/// The observable state of any keyboard backlight: an ITE controller's
/// state, or a sysfs device's hardware maximum brightness.
pub enum AnyKeyboardState {
    Ite(IteKeyboardState),
    SysfsRgb(u16),
    SysfsWhite(u16),
}

impl<H: HidrawOps, A: LedAttrs> View for AnyKeyboard<H, A> {
    type V = AnyKeyboardState;

    open spec fn view(&self) -> AnyKeyboardState {
        match self {
            AnyKeyboard::Ite(k) => AnyKeyboardState::Ite(k@),
            AnyKeyboard::SysfsRgb(k) => AnyKeyboardState::SysfsRgb(k.max_spec()),
            AnyKeyboard::SysfsWhite(k) => AnyKeyboardState::SysfsWhite(k.max_spec()),
        }
    }
}

/// The number of color zones: the ITE family's, one for a sysfs device.
pub open spec fn any_zone_count(s: AnyKeyboardState) -> u8 {
    match s {
        AnyKeyboardState::Ite(t) => ite_zone_count(t),
        _ => 1,
    }
}

/// The device type name.
pub open spec fn any_device_type(s: AnyKeyboardState) -> Seq<char> {
    match s {
        AnyKeyboardState::Ite(t) => ite_device_type(t),
        AnyKeyboardState::SysfsRgb(_) => "sysfs_rgb"@,
        AnyKeyboardState::SysfsWhite(_) => "sysfs_white"@,
    }
}

/// The animation mode names: the ITE family's, only "static" for a sysfs
/// device.
pub open spec fn any_modes(s: AnyKeyboardState) -> Seq<Seq<char>> {
    match s {
        AnyKeyboardState::Ite(t) => ite_modes(t),
        _ => seq!["static"@],
    }
}

impl<H: HidrawOps, A: LedAttrs> KeyboardLed for AnyKeyboard<H, A> {
    open spec fn obeys_led_model() -> bool {
        true
    }

    open spec fn requests(&self) -> Seq<(LedRequest, bool)> {
        match self {
            AnyKeyboard::Ite(k) => k.requests(),
            AnyKeyboard::SysfsRgb(k) => k.requests(),
            AnyKeyboard::SysfsWhite(k) => k.requests(),
        }
    }

    open spec fn zones(&self) -> u8 {
        any_zone_count(self@)
    }

    open spec fn modes(&self) -> Seq<Seq<char>> {
        any_modes(self@)
    }

    fn set_brightness(&mut self, brightness: u8) -> (r: Result<(), IoError>)
        ensures
            final(self)@ == (match old(self)@ {
                AnyKeyboardState::Ite(t) => AnyKeyboardState::Ite(ite_after_brightness(t, brightness)),
                s => s,
            }),
            match old(self)@ {
                AnyKeyboardState::Ite(t) => !ite_is_on(t) ==> r is Ok,
                _ => true,
            },
    {
        match self {
            AnyKeyboard::Ite(k) => k.set_brightness(brightness),
            AnyKeyboard::SysfsRgb(k) => k.set_brightness(brightness),
            AnyKeyboard::SysfsWhite(k) => k.set_brightness(brightness),
        }
    }

    fn set_color(&mut self, zone: u8, color: Rgb) -> (r: Result<(), IoError>)
        ensures
            final(self)@ == (match old(self)@ {
                AnyKeyboardState::Ite(t) => AnyKeyboardState::Ite(ite_after_color(t, zone, color)),
                s => s,
            }),
            !(old(self)@ is SysfsRgb) ==> r is Ok,
    {
        match self {
            AnyKeyboard::Ite(k) => k.set_color(zone, color),
            AnyKeyboard::SysfsRgb(k) => k.set_color(zone, color),
            AnyKeyboard::SysfsWhite(k) => k.set_color(zone, color),
        }
    }

    fn set_mode(&mut self, mode: &str) -> (r: Result<(), IoError>)
        ensures
            final(self)@ == (match old(self)@ {
                AnyKeyboardState::Ite(t) => AnyKeyboardState::Ite(ite_after_mode(t, mode@)),
                s => s,
            }),
            match old(self)@ {
                AnyKeyboardState::Ite(t) => (!ite_mode_known(t, mode@) ==> (r matches Err(e) && e.kind
                    == IoErrorKind::InvalidInput && e.message@ == ite_mode_error(t, mode@))) && (
                ite_mode_needs_no_send(t, mode@) ==> r is Ok),
                _ => r is Ok,
            },
    {
        match self {
            AnyKeyboard::Ite(k) => k.set_mode(mode),
            AnyKeyboard::SysfsRgb(k) => k.set_mode(mode),
            AnyKeyboard::SysfsWhite(k) => k.set_mode(mode),
        }
    }

    fn zone_count(&self) -> (r: u8)
        ensures
            r == any_zone_count(self@),
    {
        match self {
            AnyKeyboard::Ite(k) => k.zone_count(),
            AnyKeyboard::SysfsRgb(k) => k.zone_count(),
            AnyKeyboard::SysfsWhite(k) => k.zone_count(),
        }
    }

    fn turn_off(&mut self) -> (r: Result<(), IoError>)
        ensures
            final(self)@ == (match old(self)@ {
                AnyKeyboardState::Ite(t) => AnyKeyboardState::Ite(ite_with_power(t, false)),
                s => s,
            }),
    {
        match self {
            AnyKeyboard::Ite(k) => k.turn_off(),
            AnyKeyboard::SysfsRgb(k) => k.turn_off(),
            AnyKeyboard::SysfsWhite(k) => k.turn_off(),
        }
    }

    fn turn_on(&mut self) -> (r: Result<(), IoError>)
        ensures
            final(self)@ == (match old(self)@ {
                AnyKeyboardState::Ite(t) => AnyKeyboardState::Ite(ite_with_power(t, true)),
                s => s,
            }),
    {
        match self {
            AnyKeyboard::Ite(k) => k.turn_on(),
            AnyKeyboard::SysfsRgb(k) => k.turn_on(),
            AnyKeyboard::SysfsWhite(k) => k.turn_on(),
        }
    }

    fn flush(&mut self) -> (r: Result<(), IoError>)
        ensures
            final(self)@ == old(self)@,
            !(old(self)@ is Ite) ==> r is Ok,
    {
        match self {
            AnyKeyboard::Ite(k) => k.flush(),
            AnyKeyboard::SysfsRgb(k) => k.flush(),
            AnyKeyboard::SysfsWhite(k) => k.flush(),
        }
    }

    fn device_type(&self) -> (r: &str)
        ensures
            r@ == any_device_type(self@),
    {
        match self {
            AnyKeyboard::Ite(k) => k.device_type(),
            AnyKeyboard::SysfsRgb(k) => k.device_type(),
            AnyKeyboard::SysfsWhite(k) => k.device_type(),
        }
    }

    fn available_modes(&self) -> (r: Vec<String>)
        ensures
            r@.map_values(|s: String| s@) == any_modes(self@),
    {
        match self {
            AnyKeyboard::Ite(k) => k.available_modes(),
            AnyKeyboard::SysfsRgb(k) => k.available_modes(),
            AnyKeyboard::SysfsWhite(k) => k.available_modes(),
        }
    }
}

} // verus!
