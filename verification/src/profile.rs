//! Profile data model: groups per-scenario settings that can be applied together.
use crate::fan_curve::{FanCurvePoint, FanMode};
use vstd::prelude::*;

verus! {

/// A complete profile grouping all per-scenario hardware settings.
#[derive(Debug, Clone, PartialEq)]
pub struct TuxProfile {
    pub id: String,
    pub name: String,
    pub description: String,
    pub is_default: bool,
    pub fan: FanProfileSettings,
    pub cpu: CpuSettings,
    pub keyboard: KeyboardSettings,
    pub display: DisplaySettings,
    pub charging: ChargingSettings,
    pub odm_profile: Option<String>,
    pub tdp: Option<TdpSettings>,
    pub gpu: Option<GpuSettings>,
}

/// Fan control settings within a profile.
#[derive(Debug, Clone, PartialEq)]
pub struct FanProfileSettings {
    pub enabled: bool,
    pub mode: FanMode,
    pub min_speed_percent: u8,
    pub max_speed_percent: u8,
    pub offset_speed_percent: i8,
    pub curve: Vec<FanCurvePoint>,
    /// TCC fan profile preset name (e.g. "Quiet", "Silent", "Custom").
    /// Preserved for TCC GUI round-trip; `None` means "Custom".
    pub tcc_fan_profile: Option<String>,
}

/// CPU governor and turbo settings.
#[derive(Debug, Clone, PartialEq)]
pub struct CpuSettings {
    pub governor: String,
    pub energy_performance_preference: Option<String>,
    pub no_turbo: bool,
    pub online_cores: Option<i32>,
    pub use_max_perf_gov: Option<bool>,
    pub scaling_min_frequency: Option<i32>,
    pub scaling_max_frequency: Option<i32>,
}

/// Keyboard backlight settings.
#[derive(Debug, Clone, PartialEq)]
pub struct KeyboardSettings {
    pub brightness: u8,
    pub color: String,
    pub mode: String,
}

/// Display brightness settings.
#[derive(Debug, Clone, Copy, PartialEq, Eq, Structural)]
pub struct DisplaySettings {
    pub brightness: Option<u8>,
}

/// Battery/charging threshold settings.
#[derive(Debug, Clone, PartialEq)]
pub struct ChargingSettings {
    pub profile: Option<String>,
    pub priority: Option<String>,
    pub start_threshold: Option<u8>,
    pub end_threshold: Option<u8>,
}

/// TDP (Thermal Design Power) settings.
#[derive(Debug, Clone, Copy, PartialEq, Eq, Structural)]
pub struct TdpSettings {
    pub pl1: Option<u32>,
    pub pl2: Option<u32>,
}

/// GPU power settings (NB02 NVIDIA cTGP control).
#[derive(Debug, Clone, Copy, PartialEq, Eq, Structural)]
pub struct GpuSettings {
    pub ctgp_offset: Option<u8>,
}

// ── Specification ────────────────────────────────────────────────────────

/// An optional text that is present and equal to `t`.
pub open spec fn text_is(o: Option<String>, t: Seq<char>) -> bool {
    o matches Some(s) && s@ == t
}

/// Fan settings that enable curve control between `min` and `max` percent.
pub open spec fn fan_settings_is(f: FanProfileSettings, min: u8, max: u8, curve: Seq<FanCurvePoint>) -> bool {
    &&& f.enabled
    &&& f.mode == FanMode::CustomCurve
    &&& f.min_speed_percent == min
    &&& f.max_speed_percent == max
    &&& f.offset_speed_percent == 0
    &&& f.curve@ == curve
    &&& f.tcc_fan_profile is None
}

/// CPU settings with this governor, preference and turbo switch and no
/// other overrides.
pub open spec fn cpu_settings_is(c: CpuSettings, governor: Seq<char>, epp: Option<Seq<char>>, no_turbo: bool) -> bool {
    &&& c.governor@ == governor
    &&& (match epp {
        Some(t) => text_is(c.energy_performance_preference, t),
        None => c.energy_performance_preference is None,
    })
    &&& c.no_turbo == no_turbo
    &&& c.online_cores is None
    &&& c.use_max_perf_gov is None
    &&& c.scaling_min_frequency is None
    &&& c.scaling_max_frequency is None
}

/// Keyboard settings with this brightness, white and static.
pub open spec fn keyboard_settings_is(k: KeyboardSettings, brightness: u8) -> bool {
    &&& k.brightness == brightness
    &&& k.color@ == "#ffffff"@
    &&& k.mode@ == "static"@
}

/// Charging settings without any override.
pub open spec fn charging_settings_unset(c: ChargingSettings) -> bool {
    &&& c.profile is None
    &&& c.priority is None
    &&& c.start_threshold is None
    &&& c.end_threshold is None
}

/// A curve of four points.
pub open spec fn curve4(t0: u8, s0: u8, t1: u8, s1: u8, t2: u8, s2: u8, t3: u8, s3: u8) -> Seq<FanCurvePoint> {
    seq![
        FanCurvePoint { temp: t0, speed: s0 },
        FanCurvePoint { temp: t1, speed: s1 },
        FanCurvePoint { temp: t2, speed: s2 },
        FanCurvePoint { temp: t3, speed: s3 },
    ]
}

/// A built-in profile with these values.
pub open spec fn builtin_profile_is(
    p: TuxProfile,
    id: Seq<char>,
    name: Seq<char>,
    description: Seq<char>,
    fan_min: u8,
    fan_max: u8,
    curve: Seq<FanCurvePoint>,
    governor: Seq<char>,
    epp: Seq<char>,
    no_turbo: bool,
    keyboard_brightness: u8,
    odm: Seq<char>,
) -> bool {
    &&& p.id@ == id
    &&& p.name@ == name
    &&& p.description@ == description
    &&& p.is_default
    &&& fan_settings_is(p.fan, fan_min, fan_max, curve)
    &&& cpu_settings_is(p.cpu, governor, Some(epp), no_turbo)
    &&& keyboard_settings_is(p.keyboard, keyboard_brightness)
    &&& p.display.brightness is None
    &&& charging_settings_unset(p.charging)
    &&& text_is(p.odm_profile, odm)
    &&& p.tdp is None
    &&& p.gpu is None
}

/// The four built-in profiles, in order.
pub open spec fn is_builtin_profiles(v: Seq<TuxProfile>) -> bool {
    &&& v.len() == 4
    &&& builtin_profile_is(v[0], "__max_energy_save__"@, "Max Energy Save"@,
        "Minimal power consumption, silent operation"@, 0, 100, curve4(50, 10, 70, 40, 85, 70, 95, 100),
        "powersave"@, "power"@, true, 30, "powersave"@)
    &&& builtin_profile_is(v[1], "__quiet__"@, "Quiet"@, "Low fan noise, moderate performance"@, 0,
        80, curve4(55, 15, 70, 35, 85, 60, 95, 80), "powersave"@, "balance_power"@, false, 50,
        "powersave"@)
    &&& builtin_profile_is(v[2], "__office__"@, "Office"@,
        "Balanced performance and power consumption"@, 20, 100, curve4(45, 20, 65, 45, 80, 75, 90, 100),
        "schedutil"@, "balance_performance"@, false, 50, "balanced"@)
    &&& builtin_profile_is(v[3], "__high_performance__"@, "High Performance"@,
        "Maximum performance, higher fan noise"@, 30, 100, curve4(40, 30, 60, 60, 75, 85, 85, 100),
        "performance"@, "performance"@, false, 80, "performance"@)
}

// ── Defaults ─────────────────────────────────────────────────────────────

impl Default for FanProfileSettings {
    fn default() -> (r: Self)
        ensures
            r.enabled,
            r.mode == FanMode::Auto,
            r.min_speed_percent == 0,
            r.max_speed_percent == 100,
            r.offset_speed_percent == 0,
            r.curve@.len() == 0,
            r.tcc_fan_profile is None,
    {
        FanProfileSettings {
            enabled: true,
            mode: FanMode::Auto,
            min_speed_percent: 0,
            max_speed_percent: 100,
            offset_speed_percent: 0,
            curve: Vec::new(),
            tcc_fan_profile: None,
        }
    }
}

impl Default for CpuSettings {
    fn default() -> (r: Self)
        ensures
            cpu_settings_is(r, "powersave"@, None, false),
    {
        CpuSettings {
            governor: "powersave".to_owned(),
            energy_performance_preference: None,
            no_turbo: false,
            online_cores: None,
            use_max_perf_gov: None,
            scaling_min_frequency: None,
            scaling_max_frequency: None,
        }
    }
}

impl Default for KeyboardSettings {
    fn default() -> (r: Self)
        ensures
            keyboard_settings_is(r, 50),
    {
        KeyboardSettings { brightness: 50, color: "#ffffff".to_owned(), mode: "static".to_owned() }
    }
}

impl Default for DisplaySettings {
    fn default() -> (r: Self)
        ensures
            r.brightness is None,
    {
        DisplaySettings { brightness: None }
    }
}

impl Default for ChargingSettings {
    fn default() -> (r: Self)
        ensures
            charging_settings_unset(r),
    {
        ChargingSettings { profile: None, priority: None, start_threshold: None, end_threshold: None }
    }
}

impl Default for GpuSettings {
    fn default() -> (r: Self)
        ensures
            r.ctgp_offset is None,
    {
        GpuSettings { ctgp_offset: None }
    }
}

// ── Built-in profiles ────────────────────────────────────────────────────

fn make_curve4(t0: u8, s0: u8, t1: u8, s1: u8, t2: u8, s2: u8, t3: u8, s3: u8) -> (r: Vec<FanCurvePoint>)
    ensures
        r@ == curve4(t0, s0, t1, s1, t2, s2, t3, s3),
{
    let r = vec![
        FanCurvePoint { temp: t0, speed: s0 },
        FanCurvePoint { temp: t1, speed: s1 },
        FanCurvePoint { temp: t2, speed: s2 },
        FanCurvePoint { temp: t3, speed: s3 },
    ];
    assert(r@ =~= curve4(t0, s0, t1, s1, t2, s2, t3, s3));
    r
}

fn builtin(
    id: &str,
    name: &str,
    description: &str,
    fan_min: u8,
    fan_max: u8,
    curve: Vec<FanCurvePoint>,
    governor: &str,
    epp: &str,
    no_turbo: bool,
    keyboard_brightness: u8,
    odm: &str,
) -> (r: TuxProfile)
    ensures
        builtin_profile_is(r, id@, name@, description@, fan_min, fan_max, curve@, governor@, epp@,
            no_turbo, keyboard_brightness, odm@),
{
    TuxProfile {
        id: id.to_owned(),
        name: name.to_owned(),
        description: description.to_owned(),
        is_default: true,
        fan: FanProfileSettings {
            enabled: true,
            mode: FanMode::CustomCurve,
            min_speed_percent: fan_min,
            max_speed_percent: fan_max,
            offset_speed_percent: 0,
            curve,
            tcc_fan_profile: None,
        },
        cpu: CpuSettings {
            governor: governor.to_owned(),
            energy_performance_preference: Some(epp.to_owned()),
            no_turbo,
            online_cores: None,
            use_max_perf_gov: None,
            scaling_min_frequency: None,
            scaling_max_frequency: None,
        },
        keyboard: KeyboardSettings {
            brightness: keyboard_brightness,
            color: "#ffffff".to_owned(),
            mode: "static".to_owned(),
        },
        display: DisplaySettings::default(),
        charging: ChargingSettings::default(),
        odm_profile: Some(odm.to_owned()),
        tdp: None,
        gpu: None,
    }
}

/// The four built-in profiles that are always available.
pub fn builtin_profiles() -> (r: Vec<TuxProfile>)
    ensures
        is_builtin_profiles(r@),
{
    let mut v: Vec<TuxProfile> = Vec::new();
    v.push(builtin("__max_energy_save__", "Max Energy Save",
        "Minimal power consumption, silent operation", 0, 100,
        make_curve4(50, 10, 70, 40, 85, 70, 95, 100), "powersave", "power", true, 30, "powersave"));
    v.push(builtin("__quiet__", "Quiet", "Low fan noise, moderate performance", 0, 80,
        make_curve4(55, 15, 70, 35, 85, 60, 95, 80), "powersave", "balance_power", false, 50,
        "powersave"));
    v.push(builtin("__office__", "Office", "Balanced performance and power consumption", 20, 100,
        make_curve4(45, 20, 65, 45, 80, 75, 90, 100), "schedutil", "balance_performance", false, 50,
        "balanced"));
    v.push(builtin("__high_performance__", "High Performance",
        "Maximum performance, higher fan noise", 30, 100,
        make_curve4(40, 30, 60, 60, 75, 85, 85, 100), "performance", "performance", false, 80,
        "performance"));
    v
}

// ── Laws ─────────────────────────────────────────────────────────────────

/// The first and last two characters of `id` are underscores.
pub open spec fn is_reserved_id(id: Seq<char>) -> bool {
    &&& id.len() >= 4
    &&& id.subrange(0, 2) == "__"@
    &&& id.subrange(id.len() - 2, id.len() as int) == "__"@
}

/// Law: every built-in profile is a default profile with a reserved ID
/// (two underscores at each end).
pub proof fn law_builtin_profiles_are_defaults(v: Seq<TuxProfile>)
    requires
        is_builtin_profiles(v),
    ensures
        forall|i: int| 0 <= i < v.len() ==> (#[trigger] v[i]).is_default && is_reserved_id(v[i].id@),
{
    reveal_strlit("__max_energy_save__");
    reveal_strlit("__quiet__");
    reveal_strlit("__office__");
    reveal_strlit("__high_performance__");
    reveal_strlit("__");
    assert(v[0].id@.subrange(0, 2) =~= "__"@);
    assert(v[0].id@.subrange(17, 19) =~= "__"@);
    assert(v[1].id@.subrange(0, 2) =~= "__"@);
    assert(v[1].id@.subrange(7, 9) =~= "__"@);
    assert(v[2].id@.subrange(0, 2) =~= "__"@);
    assert(v[2].id@.subrange(8, 10) =~= "__"@);
    assert(v[3].id@.subrange(0, 2) =~= "__"@);
    assert(v[3].id@.subrange(18, 20) =~= "__"@);
}

/// Law: no two built-in profiles share an ID, so a lookup by ID names
/// exactly one of them.
pub proof fn law_builtin_ids_distinct(v: Seq<TuxProfile>)
    requires
        is_builtin_profiles(v),
    ensures
        forall|i: int, j: int| 0 <= i < j < v.len() ==> #[trigger] v[i].id@ != #[trigger] v[j].id@,
{
    reveal_strlit("__max_energy_save__");
    reveal_strlit("__quiet__");
    reveal_strlit("__office__");
    reveal_strlit("__high_performance__");
    assert(v[0].id@.len() == 19 && v[1].id@.len() == 9 && v[2].id@.len() == 10 && v[3].id@.len() == 20);
    assert forall|i: int, j: int| 0 <= i < j < v.len() implies #[trigger] v[i].id@ != #[trigger] v[j].id@ by {
        assert(v[i].id@.len() != v[j].id@.len());
    }
}

/// Law: the fan curve of every built-in profile passes validation (speeds
/// are percentages, temperatures ascend), its speeds never fall as the
/// temperature rises, and its minimum speed is at most its maximum.
pub proof fn law_builtin_fan_curves_valid(v: Seq<TuxProfile>)
    requires
        is_builtin_profiles(v),
    ensures
        forall|i: int|
            0 <= i < v.len() ==> {
                let f = (#[trigger] v[i]).fan;
                &&& crate::fan_curve::speeds_are_percentages(f.curve@)
                &&& crate::fan_curve::adjacent_sorted(f.curve@)
                &&& crate::fan_curve::speeds_non_decreasing(f.curve@)
                &&& f.min_speed_percent <= f.max_speed_percent <= 100
            },
{
    assert forall|i: int| 0 <= i < v.len() implies {
        let f = (#[trigger] v[i]).fan;
        &&& crate::fan_curve::speeds_are_percentages(f.curve@)
        &&& crate::fan_curve::adjacent_sorted(f.curve@)
        &&& crate::fan_curve::speeds_non_decreasing(f.curve@)
        &&& f.min_speed_percent <= f.max_speed_percent <= 100
    } by {
        let c = v[i].fan.curve@;
        assert(c.len() == 4);
        assert forall|a: int, b: int| 0 <= a <= b < c.len() implies c[a].speed <= c[b].speed by {
            assert(c[0].speed <= c[1].speed <= c[2].speed <= c[3].speed);
        }
    }
}

} // verus!
