//! The Settings interface: global settings, hardware capabilities, the
//! keyboard state and power settings.
use crate::dbus::BusError;
use crate::dbus_types::CapabilitiesResponse;
use crate::device::{ChargingCapability, DeviceDescriptor, KeyboardType};
use crate::error::IoError;
use crate::hid::{KeyboardLed, LedRequest, Rgb};
use crate::request_log::{lemma_plan_done, lemma_plan_start, lemma_plan_step, ran_until_failure};
use crate::text::{concat, lowercase_spec};
use vstd::prelude::*;
use vstd::string::StrSliceExecFns;
use vstd::string::StringSliceAdditionalSpecFns;

verus! {

/// Global daemon settings exposed via D-Bus.
#[derive(Debug, Clone)]
pub struct GlobalSettings {
    pub temperature_unit: String,
    pub fan_control_enabled: bool,
    pub cpu_settings_enabled: bool,
}

/// Keyboard state stored and returned via Settings D-Bus interface.
#[derive(Debug, Clone)]
pub struct KeyboardState {
    pub brightness: i64,
    pub color: String,
    pub mode: String,
}

/// Power settings stored and returned via Settings D-Bus interface.
#[derive(Debug, Clone)]
pub struct PowerSettings {
    pub governor: String,
    pub epp: String,
    pub no_turbo: bool,
}

impl Default for GlobalSettings {
    fn default() -> (r: Self)
        ensures
            r.temperature_unit@ == "celsius"@,
            r.fan_control_enabled,
            r.cpu_settings_enabled,
    {
        GlobalSettings {
            temperature_unit: "celsius".to_owned(),
            fan_control_enabled: true,
            cpu_settings_enabled: true,
        }
    }
}

impl Default for KeyboardState {
    fn default() -> (r: Self)
        ensures
            r.brightness == 0,
            r.color@.len() == 0,
            r.mode@.len() == 0,
    {
        KeyboardState { brightness: 0, color: String::new(), mode: String::new() }
    }
}

impl Default for PowerSettings {
    fn default() -> (r: Self)
        ensures
            r.governor@.len() == 0,
            r.epp@.len() == 0,
            !r.no_turbo,
    {
        PowerSettings { governor: String::new(), epp: String::new(), no_turbo: false }
    }
}

// ── Colors ───────────────────────────────────────────────────────────────

/// Value of a hexadecimal digit byte, or -1.
pub open spec fn hex_byte_value(b: u8) -> int {
    if 0x30 <= b <= 0x39 {
        b - 0x30
    } else if 0x61 <= b <= 0x66 {
        b - 0x61 + 10
    } else if 0x41 <= b <= 0x46 {
        b - 0x41 + 10
    } else {
        -1
    }
}

/// The value of a two-byte base-16 number as `u8::from_str_radix` reads
/// it: an optional `+` and then digits.
pub open spec fn hex_pair_spec(b0: u8, b1: u8) -> Option<u8> {
    if b0 == 0x2b {
        if hex_byte_value(b1) >= 0 {
            Some(hex_byte_value(b1) as u8)
        } else {
            None
        }
    } else if hex_byte_value(b0) >= 0 && hex_byte_value(b1) >= 0 {
        Some((hex_byte_value(b0) * 16 + hex_byte_value(b1)) as u8)
    } else {
        None
    }
}

/// A channel value: the pair's value, or 255 when it does not parse.
pub open spec fn channel_spec(b0: u8, b1: u8) -> u8 {
    match hex_pair_spec(b0, b1) {
        Some(v) => v,
        None => 255,
    }
}

/// The bytes after an optional leading `#`.
pub open spec fn without_hash(bytes: Seq<u8>) -> Seq<u8> {
    if bytes.len() > 0 && bytes[0] == 0x23 {
        bytes.drop_first()
    } else {
        bytes
    }
}

/// A UTF-8 continuation byte (not the start of a character).
pub open spec fn is_continuation(b: u8) -> bool {
    0x80 <= b <= 0xbf
}

/// The two-byte slices of a color string fall on character boundaries.
pub open spec fn hex_color_sliceable(bytes: Seq<u8>) -> bool {
    let t = without_hash(bytes);
    t.len() >= 6 ==> (!is_continuation(t[2]) && !is_continuation(t[4]) && (t.len() > 6
        ==> !is_continuation(t[6])))
}

/// The color that a "#RRGGBB" string (the `#` optional) denotes: each
/// channel that does not parse is 255; a string shorter than six bytes
/// after the `#` is white.
pub open spec fn hex_color_spec(bytes: Seq<u8>) -> Rgb {
    let t = without_hash(bytes);
    if t.len() >= 6 {
        Rgb { r: channel_spec(t[0], t[1]), g: channel_spec(t[2], t[3]), b: channel_spec(t[4], t[5]) }
    } else {
        Rgb { r: 255, g: 255, b: 255 }
    }
}

/// Value of a hexadecimal digit byte.
fn hex_byte(b: u8) -> (r: Option<u8>)
    ensures
        r matches Some(v) ==> hex_byte_value(b) == v as int && v < 16,
        r is None ==> hex_byte_value(b) == -1,
{
    if 0x30 <= b && b <= 0x39 {
        Some(b - 0x30)
    } else if 0x61 <= b && b <= 0x66 {
        Some(b - 0x61 + 10)
    } else if 0x41 <= b && b <= 0x46 {
        Some(b - 0x41 + 10)
    } else {
        None
    }
}

/// A channel value from two bytes.
fn channel(b0: u8, b1: u8) -> (r: u8)
    ensures
        r == channel_spec(b0, b1),
{
    if b0 == 0x2b {
        match hex_byte(b1) {
            Some(v) => v,
            None => 255,
        }
    } else {
        match (hex_byte(b0), hex_byte(b1)) {
            (Some(hi), Some(lo)) => hi * 16 + lo,
            _ => 255,
        }
    }
}

/// Whether a color string can be parsed without slicing inside a character.
pub fn hex_color_sliceable_exec(s: &str) -> (r: bool)
    ensures
        r == hex_color_sliceable(s.spec_bytes()),
{
    let bytes = s.as_bytes_vec();
    let start: usize = if bytes.len() > 0 && bytes[0] == 0x23 {
        1
    } else {
        0
    };
    let ghost t = without_hash(bytes@);
    assert(t =~= bytes@.subrange(start as int, bytes@.len() as int));
    if bytes.len() - start < 6 {
        return true;
    }
    let c2 = bytes[start + 2];
    let c4 = bytes[start + 4];
    let ok6 = if bytes.len() - start > 6 {
        let c6 = bytes[start + 6];
        !(0x80 <= c6 && c6 <= 0xbf)
    } else {
        true
    };
    !(0x80 <= c2 && c2 <= 0xbf) && !(0x80 <= c4 && c4 <= 0xbf) && ok6
}

/// Parse a "#RRGGBB" hex color string into an Rgb value.
pub fn parse_hex_color(s: &str) -> (r: Rgb)
    requires
        hex_color_sliceable(s.spec_bytes()),
    ensures
        r == hex_color_spec(s.spec_bytes()),
{
    let bytes = s.as_bytes_vec();
    let start: usize = if bytes.len() > 0 && bytes[0] == 0x23 {
        1
    } else {
        0
    };
    let ghost t = without_hash(bytes@);
    assert(t =~= bytes@.subrange(start as int, bytes@.len() as int));
    if bytes.len() - start >= 6 {
        let r = channel(bytes[start], bytes[start + 1]);
        let g = channel(bytes[start + 2], bytes[start + 3]);
        let b = channel(bytes[start + 4], bytes[start + 5]);
        Rgb::new(r, g, b)
    } else {
        Rgb::white()
    }
}

// ── Capabilities ─────────────────────────────────────────────────────────

/// The name of a keyboard backlight kind: "none", "white" or "rgb".
pub open spec fn keyboard_type_name_spec(kb: KeyboardType) -> Seq<char> {
    match kb {
        KeyboardType::Unavailable => "none"@,
        KeyboardType::White => "white"@,
        KeyboardType::WhiteLevels(_) => "white"@,
        _ => "rgb"@,
    }
}

/// The name of a keyboard backlight kind.
pub fn keyboard_type_name(kb: KeyboardType) -> (r: &'static str)
    ensures
        r@ == keyboard_type_name_spec(kb),
{
    match kb {
        KeyboardType::Unavailable => "none",
        KeyboardType::White | KeyboardType::WhiteLevels(_) => "white",
        _ => "rgb",
    }
}

/// The distinct strings of the lists, in order of first appearance,
/// after those of `acc`.
pub open spec fn union_acc(acc: Seq<Seq<char>>, lists: Seq<Seq<Seq<char>>>) -> Seq<Seq<char>>
    decreases lists.len(),
{
    if lists.len() == 0 {
        acc
    } else {
        add_new(union_acc(acc, lists.drop_last()), lists.last())
    }
}

/// `acc` followed by the strings of `items` that it does not hold yet, in
/// order of first appearance.
pub open spec fn add_new(acc: Seq<Seq<char>>, items: Seq<Seq<char>>) -> Seq<Seq<char>>
    decreases items.len(),
{
    if items.len() == 0 {
        acc
    } else if add_new(acc, items.drop_last()).contains(items.last()) {
        add_new(acc, items.drop_last())
    } else {
        add_new(acc, items.drop_last()).push(items.last())
    }
}

/// The views of a list of strings.
pub open spec fn texts(v: Seq<String>) -> Seq<Seq<char>> {
    v.map_values(|s: String| s@)
}

/// The views of a list of lists of strings.
pub open spec fn text_lists(v: Seq<Vec<String>>) -> Seq<Seq<Seq<char>>> {
    v.map_values(|l: Vec<String>| texts(l@))
}

/// Whether `items` holds `s`.
fn holds(items: &Vec<String>, s: &String) -> (r: bool)
    ensures
        r == texts(items@).contains(s@),
{
    let n = items.len();
    let mut i: usize = 0;
    while i < n
        invariant
            n == items@.len(),
            i <= n,
            forall|k: int| 0 <= k < i ==> items@[k]@ != s@,
        decreases n - i,
    {
        if items[i] == *s {
            assert(texts(items@)[i as int] == s@);
            return true;
        }
        i = i + 1;
    }
    assert(!texts(items@).contains(s@)) by {
        if texts(items@).contains(s@) {
            let k = choose|k: int| 0 <= k < texts(items@).len() && texts(items@)[k] == s@;
            assert(items@[k]@ == s@);
        }
    }
    false
}

/// The distinct modes of all keyboards, in order of first appearance.
pub fn union_modes(lists: &Vec<Vec<String>>) -> (r: Vec<String>)
    ensures
        texts(r@) == union_acc(seq![], text_lists(lists@)),
{
    let ghost ls = text_lists(lists@);
    let mut out: Vec<String> = Vec::new();
    let n = lists.len();
    let mut i: usize = 0;
    while i < n
        invariant
            n == lists@.len(),
            ls == text_lists(lists@),
            i <= n,
            texts(out@) == union_acc(seq![], ls.subrange(0, i as int)),
        decreases n - i,
    {
        let list = &lists[i];
        let ghost items = texts(list@);
        assert(ls[i as int] == items);
        let ghost start = texts(out@);
        let m = list.len();
        let mut j: usize = 0;
        while j < m
            invariant
                m == list@.len(),
                items == texts(list@),
                j <= m,
                texts(out@) == add_new(start, items.subrange(0, j as int)),
            decreases m - j,
        {
            proof {
                assert(items.subrange(0, j + 1).drop_last() =~= items.subrange(0, j as int));
            }
            if !holds(&out, &list[j]) {
                let ghost before = out@;
                out.push(list[j].clone());
                assert(texts(out@) =~= texts(before).push(items[j as int]));
            }
            j = j + 1;
        }
        proof {
            assert(items.subrange(0, m as int) =~= items);
            assert(ls.subrange(0, i + 1).drop_last() =~= ls.subrange(0, i as int));
        }
        i = i + 1;
    }
    assert(ls.subrange(0, n as int) =~= ls);
    out
}

/// The available modes of each keyboard, in keyboard order.
pub open spec fn keyboards_modes<K: KeyboardLed>(keyboards: Seq<K>) -> Seq<Seq<Seq<char>>> {
    keyboards.map_values(|k: K| k.modes())
}

/// The available modes of each keyboard, in keyboard order.
fn mode_lists_of<K: KeyboardLed>(keyboards: &Vec<K>) -> (r: Vec<Vec<String>>)
    ensures
        r@.len() == keyboards@.len(),
        K::obeys_led_model() ==> text_lists(r@) == keyboards_modes(keyboards@),
{
    let mut out: Vec<Vec<String>> = Vec::new();
    let n = keyboards.len();
    let mut i: usize = 0;
    while i < n
        invariant
            n == keyboards@.len(),
            i <= n,
            out@.len() == i,
            K::obeys_led_model() ==> text_lists(out@) == keyboards_modes(keyboards@.subrange(0, i as int)),
        decreases n - i,
    {
        let ghost before = out@;
        out.push(keyboards[i].available_modes());
        proof {
            if K::obeys_led_model() {
                assert(text_lists(out@) =~= text_lists(before).push(keyboards@[i as int].modes()));
                assert(keyboards_modes(keyboards@.subrange(0, i + 1)) =~= keyboards_modes(
                    keyboards@.subrange(0, i as int),
                ).push(keyboards@[i as int].modes()));
            }
        }
        i = i + 1;
    }
    assert(keyboards@.subrange(0, n as int) =~= keyboards@);
    out
}

/// The modes that the capabilities list: without keyboard hardware,
/// "static" unless the device has no backlight; otherwise the distinct
/// modes of the keyboards, or "static" when they list none.
pub open spec fn keyboard_modes_spec(kb: KeyboardType, has_keyboards: bool, lists: Seq<Seq<Seq<char>>>) -> Seq<Seq<char>> {
    if !has_keyboards {
        if kb == KeyboardType::Unavailable {
            seq![]
        } else {
            seq!["static"@]
        }
    } else if union_acc(seq![], lists).len() == 0 {
        seq!["static"@]
    } else {
        union_acc(seq![], lists)
    }
}

/// The hardware capabilities of a detected device.
pub open spec fn capabilities_spec(
    c: CapabilitiesResponse,
    descriptor: DeviceDescriptor,
    has_fan: bool,
    fan_count: u8,
    has_keyboards: bool,
    mode_lists: Seq<Seq<Seq<char>>>,
    charging_available: bool,
    tdp_available: bool,
    display_available: bool,
) -> bool {
    &&& c.fan_control == has_fan
    &&& c.fan_count == fan_count
    &&& c.keyboard_backlight == has_keyboards
    &&& c.keyboard_type@ == keyboard_type_name_spec(descriptor.keyboard)
    &&& texts(c.keyboard_modes@) == keyboard_modes_spec(descriptor.keyboard, has_keyboards, mode_lists)
    &&& c.charging_thresholds == (charging_available && descriptor.charging
        == ChargingCapability::Flexicharger)
    &&& c.charging_profiles == (charging_available && descriptor.charging
        == ChargingCapability::EcProfilePriority)
    &&& c.tdp_control == tdp_available
    &&& c.power_profiles
    &&& !c.gpu_control
    &&& c.display_brightness == display_available
}

/// The hardware capabilities of a detected device. `mode_lists` holds the
/// available modes of each discovered keyboard.
pub fn capabilities(
    descriptor: &DeviceDescriptor,
    has_fan: bool,
    fan_count: u8,
    has_keyboards: bool,
    mode_lists: &Vec<Vec<String>>,
    charging_available: bool,
    tdp_available: bool,
    display_available: bool,
) -> (r: CapabilitiesResponse)
    ensures
        capabilities_spec(r, *descriptor, has_fan, fan_count, has_keyboards, text_lists(mode_lists@),
            charging_available, tdp_available, display_available),
{
    let kb = descriptor.keyboard;
    let keyboard_modes: Vec<String> = if !has_keyboards {
        match kb {
            KeyboardType::Unavailable => Vec::new(),
            _ => {
                let v = vec!["static".to_owned()];
                assert(texts(v@) =~= seq!["static"@]);
                v
            },
        }
    } else {
        let modes = union_modes(mode_lists);
        if modes.len() == 0 {
            let v = vec!["static".to_owned()];
            assert(texts(v@) =~= seq!["static"@]);
            v
        } else {
            modes
        }
    };
    proof {
        if !has_keyboards && kb == KeyboardType::Unavailable {
            assert(texts(keyboard_modes@) =~= Seq::<Seq<char>>::empty());
        }
    }
    let charging_thresholds = charging_available && match descriptor.charging {
        ChargingCapability::Flexicharger => true,
        _ => false,
    };
    let charging_profiles = charging_available && match descriptor.charging {
        ChargingCapability::EcProfilePriority => true,
        _ => false,
    };
    CapabilitiesResponse {
        fan_control: has_fan,
        fan_count,
        keyboard_backlight: has_keyboards,
        keyboard_type: keyboard_type_name(kb).to_owned(),
        keyboard_modes,
        charging_thresholds,
        charging_profiles,
        tdp_control: tdp_available,
        power_profiles: true,
        gpu_control: false,
        display_brightness: display_available,
    }
}

// ── Keyboard state ───────────────────────────────────────────────────────

/// A keyboard brightness percentage as a hardware value: clamped to
/// 0–100 and scaled to 0–255, rounding down.
pub open spec fn hw_brightness_spec(brightness: i64) -> int {
    let p: int = if brightness < 0 {
        0
    } else if brightness > 100 {
        100
    } else {
        brightness as int
    };
    p * 255 / 100
}

/// A keyboard brightness percentage as a hardware value (0–255).
pub fn hw_brightness(brightness: i64) -> (r: u8)
    ensures
        r == hw_brightness_spec(brightness),
{
    let p: u32 = if brightness < 0 {
        0
    } else if brightness > 100 {
        100
    } else {
        brightness as u32
    };
    (p * 255 / 100) as u8
}

/// The failure of one step of applying a keyboard state.
pub open spec fn step_failure_message(device: Seq<char>, step: Seq<char>, err: Seq<char>) -> Seq<char> {
    "keyboard "@ + device + ": "@ + step + " failed: "@ + err
}

/// The failure of one step of applying a keyboard state.
fn step_error(device: &str, step: &str, e: IoError) -> (r: BusError)
    ensures
        crate::dbus::is_failed_with(r, step_failure_message(device@, step@, e.message@)),
{
    let a = concat("keyboard ", device);
    let b = concat(a.as_str(), ": ");
    let c = concat(b.as_str(), step);
    let d = concat(c.as_str(), " failed: ");
    BusError::Failed(concat(d.as_str(), e.message.as_str()))
}

/// The requests that applying a keyboard state makes, in order: the color
/// of zone 0 and the mode, then either off (hardware brightness 0) or the
/// brightness, on and the brightness again, and last a flush.
pub open spec fn keyboard_state_requests(color: Rgb, mode: Seq<char>, hw_brightness: u8) -> Seq<LedRequest> {
    if hw_brightness == 0 {
        seq![
            LedRequest::SetColor(0, color),
            LedRequest::SetMode(mode),
            LedRequest::TurnOff,
            LedRequest::Flush,
        ]
    } else {
        seq![
            LedRequest::SetColor(0, color),
            LedRequest::SetMode(mode),
            LedRequest::SetBrightness(hw_brightness),
            LedRequest::TurnOn,
            LedRequest::SetBrightness(hw_brightness),
            LedRequest::Flush,
        ]
    }
}

/// Apply a keyboard state to one keyboard: the requests of
/// `keyboard_state_requests`, in order. The first failing request fails
/// the whole and the rest are not made.
pub fn apply_keyboard_state<K: KeyboardLed>(kb: &mut K, color: Rgb, mode: &str, hw_brightness: u8) -> (r: Result<(), BusError>)
    ensures
        K::obeys_led_model() ==> ran_until_failure(
            old(kb).requests(),
            final(kb).requests(),
            keyboard_state_requests(color, mode@, hw_brightness),
            r is Ok,
        ),
        K::obeys_led_model() ==> final(kb).zones() == old(kb).zones(),
        r matches Err(e) ==> e is Failed,
{
    let ghost before = kb.requests();
    let ghost plan = keyboard_state_requests(color, mode@, hw_brightness);
    proof {
        if K::obeys_led_model() {
            lemma_plan_start(before, plan);
        }
    }
    let device = kb.device_type().to_owned();
    let ghost log = kb.requests();
    let res = kb.set_color(0, color);
    proof {
        if K::obeys_led_model() {
            lemma_plan_step(before, log, plan, 0, res is Ok);
        }
    }
    if let Err(e) = res {
        return Err(step_error(device.as_str(), "set_color", e));
    }
    let ghost log = kb.requests();
    let res = kb.set_mode(mode);
    proof {
        if K::obeys_led_model() {
            lemma_plan_step(before, log, plan, 1, res is Ok);
        }
    }
    if let Err(e) = res {
        return Err(step_error(device.as_str(), "set_mode", e));
    }
    if hw_brightness == 0 {
        let ghost log = kb.requests();
        let res = kb.turn_off();
        proof {
            if K::obeys_led_model() {
                lemma_plan_step(before, log, plan, 2, res is Ok);
            }
        }
        if let Err(e) = res {
            return Err(step_error(device.as_str(), "turn_off", e));
        }
    } else {
        let ghost log = kb.requests();
        let res = kb.set_brightness(hw_brightness);
        proof {
            if K::obeys_led_model() {
                lemma_plan_step(before, log, plan, 2, res is Ok);
            }
        }
        if let Err(e) = res {
            return Err(step_error(device.as_str(), "set_brightness", e));
        }
        let ghost log = kb.requests();
        let res = kb.turn_on();
        proof {
            if K::obeys_led_model() {
                lemma_plan_step(before, log, plan, 3, res is Ok);
            }
        }
        if let Err(e) = res {
            return Err(step_error(device.as_str(), "turn_on", e));
        }
        let ghost log = kb.requests();
        let res = kb.set_brightness(hw_brightness);
        proof {
            if K::obeys_led_model() {
                lemma_plan_step(before, log, plan, 4, res is Ok);
            }
        }
        if let Err(e) = res {
            return Err(step_error(device.as_str(), "set_brightness (reapply)", e));
        }
    }
    let ghost log = kb.requests();
    let ghost m: int = if hw_brightness == 0 {
        3
    } else {
        5
    };
    let res = kb.flush();
    proof {
        if K::obeys_led_model() {
            lemma_plan_step(before, log, plan, m, res is Ok);
        }
    }
    if let Err(e) = res {
        return Err(step_error(device.as_str(), "flush", e));
    }
    proof {
        if K::obeys_led_model() {
            lemma_plan_done(before, kb.requests(), plan);
        }
    }
    Ok(())
}

// ── Power settings ───────────────────────────────────────────────────────

/// Outcome of best-effort writes: success when any write succeeded (or
/// none was made), otherwise the first error.
pub open spec fn best_effort_spec(results: Seq<Result<(), IoError>>) -> Result<(), IoError> {
    if results.len() == 0 || exists|i: int| 0 <= i < results.len() && results[i] is Ok {
        Ok(())
    } else {
        results[0]
    }
}

/// Combine the results of best-effort writes: success when any write
/// succeeded (or none was made), otherwise the first error.
pub fn best_effort(results: Vec<Result<(), IoError>>) -> (r: Result<(), IoError>)
    ensures
        r == best_effort_spec(results@),
{
    let n = results.len();
    let mut i: usize = 0;
    while i < n
        invariant
            n == results@.len(),
            i <= n,
            forall|k: int| 0 <= k < i ==> results@[k] is Err,
        decreases n - i,
    {
        if results[i].is_ok() {
            assert(results@[i as int] is Ok);
            return Ok(());
        }
        i = i + 1;
    }
    if n == 0 {
        return Ok(());
    }
    let mut v = results;
    let first = v.swap_remove(0);
    first
}

/// The requests that each keyboard gets for a keyboard state: its color
/// parsed, its mode in lowercase and its brightness on the hardware scale.
pub open spec fn keyboard_plan(state: KeyboardState) -> Seq<LedRequest> {
    keyboard_state_requests(
        hex_color_spec(vstd::utf8::encode_utf8(state.color@)),
        lowercase_spec(state.mode@),
        hw_brightness_spec(state.brightness) as u8,
    )
}

/// Every keyboard before `j` ran the whole plan, keyboard `j` ran it until
/// a request failed, and the keyboards after `j` were left alone.
pub open spec fn keyboards_stopped_at<K: KeyboardLed>(
    before: Seq<K>,
    after: Seq<K>,
    plan: Seq<LedRequest>,
    j: int,
) -> bool {
    &&& after.len() == before.len()
    &&& forall|k: int| 0 <= k < j ==> #[trigger] ran_until_failure(before[k].requests(), after[k].requests(), plan, true)
    &&& ran_until_failure(before[j].requests(), after[j].requests(), plan, false)
    &&& forall|k: int| j < k < before.len() ==> #[trigger] after[k] == before[k]
}

// ── The interface ────────────────────────────────────────────────────────

/// D-Bus object implementing the Settings interface.
pub struct SettingsInterface<K: KeyboardLed, G, D> {
    settings: GlobalSettings,
    capabilities: CapabilitiesResponse,
    keyboard_state: KeyboardState,
    keyboards: Vec<K>,
    cpu_governor: Option<G>,
    display: Option<D>,
}

impl<K: KeyboardLed, G, D> SettingsInterface<K, G, D> {
    /// The interface for a detected device; the keyboard modes listed are
    /// those the keyboards report. `display_available` says whether a
    /// display backlight was found.
    pub fn new(
        descriptor: &DeviceDescriptor,
        has_fan: bool,
        fan_count: u8,
        keyboards: Vec<K>,
        cpu_governor: Option<G>,
        display: Option<D>,
        display_available: bool,
        charging_available: bool,
        tdp_available: bool,
    ) -> (r: Self)
        ensures
            exists|lists: Seq<Seq<Seq<char>>>|
                capabilities_spec(r.capabilities_spec(), *descriptor, has_fan, fan_count,
                    keyboards@.len() > 0, lists, charging_available, tdp_available, display_available)
                    && lists.len() == keyboards@.len() && (K::obeys_led_model() ==> lists
                    == keyboards_modes(keyboards@)),
            r.settings_spec().temperature_unit@ == "celsius"@,
            r.settings_spec().fan_control_enabled,
            r.settings_spec().cpu_settings_enabled,
            r.keyboard_state_spec().brightness == 0,
            r.keyboard_state_spec().color@.len() == 0,
            r.keyboard_state_spec().mode@.len() == 0,
            r.keyboards_spec() == keyboards@,
            r.cpu_governor_spec() == cpu_governor,
            r.display_spec() == display,
    {
        let mode_lists = mode_lists_of(&keyboards);
        let caps = capabilities(
            descriptor,
            has_fan,
            fan_count,
            keyboards.len() > 0,
            &mode_lists,
            charging_available,
            tdp_available,
            display_available,
        );
        let ghost lists = text_lists(mode_lists@);
        assert(lists.len() == keyboards@.len());
        assert(capabilities_spec(caps, *descriptor, has_fan, fan_count, keyboards@.len() > 0, lists,
            charging_available, tdp_available, display_available));
        SettingsInterface {
            settings: GlobalSettings::default(),
            capabilities: caps,
            keyboard_state: KeyboardState::default(),
            keyboards,
            cpu_governor,
            display,
        }
    }

    /// The global settings.
    pub closed spec fn settings_spec(&self) -> GlobalSettings {
        self.settings
    }

    /// The hardware capabilities.
    pub closed spec fn capabilities_spec(&self) -> CapabilitiesResponse {
        self.capabilities
    }

    /// The stored keyboard state.
    pub closed spec fn keyboard_state_spec(&self) -> KeyboardState {
        self.keyboard_state
    }

    /// The keyboards.
    pub closed spec fn keyboards_spec(&self) -> Seq<K> {
        self.keyboards@
    }

    /// The CPU governor, if any.
    pub closed spec fn cpu_governor_spec(&self) -> Option<G> {
        self.cpu_governor
    }

    /// The display backlight, if any.
    pub closed spec fn display_spec(&self) -> Option<D> {
        self.display
    }

    /// The global settings.
    pub fn global_settings(&self) -> (r: &GlobalSettings)
        ensures
            *r == self.settings_spec(),
    {
        &self.settings
    }

    /// Replace the global settings.
    pub fn set_global_settings(&mut self, settings: GlobalSettings)
        ensures
            final(self).settings_spec() == settings,
            final(self).capabilities_spec() == old(self).capabilities_spec(),
            final(self).keyboard_state_spec() == old(self).keyboard_state_spec(),
    {
        self.settings = settings;
    }

    /// The hardware capabilities.
    pub fn capabilities(&self) -> (r: &CapabilitiesResponse)
        ensures
            *r == self.capabilities_spec(),
    {
        &self.capabilities
    }

    /// The stored keyboard state.
    pub fn keyboard_state(&self) -> (r: &KeyboardState)
        ensures
            *r == self.keyboard_state_spec(),
    {
        &self.keyboard_state
    }

    /// Apply a keyboard state to every keyboard, in order, then store it:
    /// each gets the requests of `keyboard_plan`. A hardware failure stops
    /// at that keyboard and leaves the stored state unchanged.
    pub fn set_keyboard_state(&mut self, state: KeyboardState) -> (r: Result<(), BusError>)
        requires
            hex_color_sliceable(vstd::utf8::encode_utf8(state.color@)),
        ensures
            r is Ok ==> final(self).keyboard_state_spec() == state,
            r is Err ==> final(self).keyboard_state_spec() == old(self).keyboard_state_spec(),
            r matches Err(e) ==> e is Failed,
            final(self).settings_spec() == old(self).settings_spec(),
            final(self).capabilities_spec() == old(self).capabilities_spec(),
            final(self).keyboards_spec().len() == old(self).keyboards_spec().len(),
            old(self).keyboards_spec().len() == 0 ==> r is Ok,
            K::obeys_led_model() && r is Ok ==> forall|i: int|
                0 <= i < old(self).keyboards_spec().len() ==> #[trigger] ran_until_failure(
                    old(self).keyboards_spec()[i].requests(),
                    final(self).keyboards_spec()[i].requests(),
                    keyboard_plan(state),
                    true,
                ),
            K::obeys_led_model() && r is Err ==> exists|j: int|
                0 <= j < old(self).keyboards_spec().len() && keyboards_stopped_at(
                    old(self).keyboards_spec(),
                    final(self).keyboards_spec(),
                    keyboard_plan(state),
                    j,
                ),
    {
        if self.keyboards.len() > 0 {
            let hw = hw_brightness(state.brightness);
            let color = parse_hex_color(state.color.as_str());
            let mode = crate::text::to_lowercase(state.mode.as_str());
            let ghost plan = keyboard_plan(state);
            assert(plan == keyboard_state_requests(color, mode@, hw));
            let n = self.keyboards.len();
            let mut i: usize = 0;
            while i < n
                invariant
                    n == self.keyboards@.len(),
                    n == old(self).keyboards@.len(),
                    i <= n,
                    plan == keyboard_state_requests(color, mode@, hw),
                    plan == keyboard_plan(state),
                    self.keyboard_state == old(self).keyboard_state,
                    self.settings == old(self).settings,
                    self.capabilities == old(self).capabilities,
                    K::obeys_led_model() ==> forall|k: int|
                        0 <= k < i ==> #[trigger] ran_until_failure(
                            old(self).keyboards@[k].requests(),
                            self.keyboards@[k].requests(),
                            plan,
                            true,
                        ),
                    forall|k: int| i <= k < n ==> #[trigger] self.keyboards@[k] == old(self).keyboards@[k],
                decreases n - i,
            {
                let ghost cur = self.keyboards@;
                let res = apply_keyboard_state(&mut self.keyboards[i], color, mode.as_str(), hw);
                assert forall|k: int| 0 <= k < n && k != i implies #[trigger] self.keyboards@[k] == cur[k] by {}
                if let Err(e) = res {
                    proof {
                        if K::obeys_led_model() {
                            assert(keyboards_stopped_at(
                                old(self).keyboards_spec(),
                                self.keyboards_spec(),
                                keyboard_plan(state),
                                i as int,
                            ));
                        }
                    }
                    return Err(e);
                }
                i = i + 1;
            }
        }
        self.keyboard_state = state;
        Ok(())
    }

    /// The CPU governor, if any.
    pub fn cpu_governor(&self) -> (r: &Option<G>)
        ensures
            *r == self.cpu_governor_spec(),
    {
        &self.cpu_governor
    }

    /// The display backlight, if any.
    pub fn display(&self) -> (r: &Option<D>)
        ensures
            *r == self.display_spec(),
    {
        &self.display
    }
}

} // verus!
