//! Daemon configuration and its defaults.
use crate::fan_curve::{config_is_valid, default_curve_spec, FanConfig, FanMode};
use crate::profile::ChargingSettings;
use vstd::prelude::*;

verus! {

/// Default config file location.
pub const DEFAULT_CONFIG_PATH: &'static str = "/etc/tux-daemon/config.toml";

/// Top-level daemon configuration.
#[derive(Debug)]
pub struct DaemonConfig {
    pub fan: FanConfig,
    pub daemon: DaemonSection,
    pub profiles: ProfileAssignments,
    pub charging: Option<ChargingSettings>,
}

/// Profile assignment for AC/battery auto-switching.
#[derive(Debug, Clone)]
pub struct ProfileAssignments {
    /// Profile ID to apply when on AC power.
    pub ac_profile: String,
    /// Profile ID to apply when on battery.
    pub battery_profile: String,
}

/// General daemon settings.
#[derive(Debug, Clone)]
pub struct DaemonSection {
    /// Log level filter (e.g. "info", "debug", "warn").
    pub log_level: String,
    /// Seconds after last D-Bus client disconnects before switching to idle polling.
    pub idle_timeout_s: u64,
}

/// The default fan configuration.
pub open spec fn is_default_fan_config(c: FanConfig) -> bool {
    &&& c.mode == FanMode::CustomCurve
    &&& c.min_speed_percent == 25
    &&& c.curve@ == default_curve_spec()
    &&& c.active_poll_ms == 2000
    &&& c.idle_poll_ms == 1000
    &&& c.hysteresis_degrees == 3
}

/// The default daemon configuration.
pub open spec fn is_default_config(c: DaemonConfig) -> bool {
    &&& is_default_fan_config(c.fan)
    &&& c.daemon.log_level@ == "info"@
    &&& c.daemon.idle_timeout_s == 30
    &&& c.profiles.ac_profile@ == "__office__"@
    &&& c.profiles.battery_profile@ == "__quiet__"@
    &&& c.charging is None
}

impl Default for ProfileAssignments {
    fn default() -> (r: Self)
        ensures
            r.ac_profile@ == "__office__"@,
            r.battery_profile@ == "__quiet__"@,
    {
        ProfileAssignments {
            ac_profile: "__office__".to_owned(),
            battery_profile: "__quiet__".to_owned(),
        }
    }
}

impl Default for DaemonSection {
    fn default() -> (r: Self)
        ensures
            r.log_level@ == "info"@,
            r.idle_timeout_s == 30,
    {
        DaemonSection { log_level: "info".to_owned(), idle_timeout_s: 30 }
    }
}

impl Default for DaemonConfig {
    fn default() -> (r: Self)
        ensures
            is_default_config(r),
    {
        DaemonConfig {
            fan: FanConfig::default(),
            daemon: DaemonSection::default(),
            profiles: ProfileAssignments::default(),
            charging: None,
        }
    }
}

impl DaemonConfig {
    /// The configuration as loaded, or the defaults when its fan section is
    /// invalid.
    pub fn validated_or_default(self) -> (r: Self)
        ensures
            config_is_valid(self.fan) ==> r == self,
            !config_is_valid(self.fan) ==> is_default_config(r),
    {
        if self.fan.validate().is_ok() {
            self
        } else {
            Self::default()
        }
    }
}

/// Law: the default fan configuration passes validation, so loading a
/// configuration always ends with a valid fan section.
pub proof fn law_default_fan_config_is_valid(c: FanConfig)
    requires
        is_default_fan_config(c),
    ensures
        config_is_valid(c),
{
    assert(crate::fan_curve::speeds_are_percentages(c.curve@));
    assert(crate::fan_curve::adjacent_sorted(c.curve@));
}

/// Law: whatever was loaded, the configuration kept has a valid fan section.
pub proof fn law_loaded_config_is_valid(loaded: DaemonConfig, kept: DaemonConfig)
    requires
        config_is_valid(loaded.fan) ==> kept == loaded,
        !config_is_valid(loaded.fan) ==> is_default_config(kept),
    ensures
        config_is_valid(kept.fan),
{
    if !config_is_valid(loaded.fan) {
        law_default_fan_config_is_valid(kept.fan);
    }
}

} // verus!
