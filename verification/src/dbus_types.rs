//! Shared D-Bus response types for daemon ↔ TUI communication.
use crate::profile::TuxProfile;
use vstd::prelude::*;

verus! {

/// Fan telemetry as returned by D-Bus `GetFanInfo` (structured version).
#[derive(Debug, Clone, Copy, PartialEq, Eq, Structural)]
pub struct FanInfoResponse {
    pub max_rpm: u32,
    pub min_rpm: u32,
    pub multi_fan: bool,
    pub num_fans: u8,
}

/// Fan engine health status.
#[derive(Debug, Clone, PartialEq)]
pub struct FanHealthResponse {
    /// "ok", "degraded" (≥5 consecutive failures), or "failed" (≥30).
    pub status: String,
    pub consecutive_failures: u32,
}

/// Keyboard info as returned by D-Bus `GetKeyboardInfo`.
#[derive(Debug, Clone, PartialEq)]
pub struct KeyboardInfoResponse {
    pub keyboards: Vec<KeyboardData>,
}

/// Single keyboard controller info.
#[derive(Debug, Clone, PartialEq)]
pub struct KeyboardData {
    pub index: u32,
    pub device_type: String,
    pub zone_count: u8,
    pub available_modes: Vec<String>,
}

/// System info as returned by D-Bus `GetSystemInfo`.
#[derive(Debug, Clone, PartialEq)]
pub struct SystemInfoResponse {
    pub version: String,
    pub hostname: String,
    pub kernel: String,
}

/// Hardware capabilities derived from detected device.
#[derive(Debug, Clone, PartialEq)]
pub struct CapabilitiesResponse {
    pub fan_control: bool,
    pub fan_count: u8,
    pub keyboard_backlight: bool,
    pub keyboard_type: String,
    pub keyboard_modes: Vec<String>,
    pub charging_thresholds: bool,
    pub charging_profiles: bool,
    pub tdp_control: bool,
    pub power_profiles: bool,
    pub gpu_control: bool,
    pub display_brightness: bool,
}

/// Charging settings as returned by D-Bus `GetChargingSettings`.
#[derive(Debug, Clone, PartialEq)]
pub struct ChargingSettingsResponse {
    pub start_threshold: u8,
    pub end_threshold: u8,
    pub profile: String,
    pub priority: String,
}

/// Wrapper for the profile list exchanged with the daemon.
#[derive(Debug, Clone, PartialEq)]
pub struct ProfileList {
    pub profiles: Vec<TuxProfile>,
}

/// Profile assignments for AC and battery power states.
#[derive(Debug, Clone, PartialEq)]
pub struct ProfileAssignmentsResponse {
    pub ac_profile: String,
    pub battery_profile: String,
}

/// Per-core CPU frequencies in MHz.
#[derive(Debug, Clone, PartialEq)]
pub struct CpuFreqResponse {
    /// Per-core frequency in MHz, indexed by core number.
    pub per_core: Vec<u32>,
}

/// Battery information as returned by D-Bus `GetBatteryInfo`.
#[derive(Debug, Clone, PartialEq)]
pub struct BatteryInfoResponse {
    /// Whether a battery was detected.
    pub present: bool,
    /// Charge level 0–100%.
    pub capacity_percent: u32,
    /// Charging status: "Charging", "Discharging", "Full", "Not charging", or "Unknown".
    pub status: String,
    /// Lifetime cycle count.
    pub cycle_count: u32,
    /// Current charge in mAh.
    pub charge_now_mah: u32,
    /// Last full charge in mAh.
    pub charge_full_mah: u32,
    /// Design (factory) capacity in mAh.
    pub charge_full_design_mah: u32,
    /// Current draw in mA (positive = charging, negative = discharging).
    pub current_now_ma: i32,
    /// Current voltage in mV.
    pub voltage_now_mv: u32,
    /// Design voltage in mV.
    pub voltage_design_mv: u32,
    /// Battery chemistry (e.g. "Li-ion").
    pub technology: String,
    /// Manufacturer name.
    pub manufacturer: String,
    /// Model name.
    pub model_name: String,
    /// Battery health: charge_full / charge_full_design as percentage.
    pub health_percent: u32,
}

/// Display brightness state as exchanged over D-Bus.
#[derive(Debug, Clone, PartialEq)]
pub struct DisplayState {
    /// Current brightness as a percentage (0–100).
    pub brightness: u32,
    /// Maximum raw brightness value reported by the driver.
    pub max_brightness: u32,
    /// Name of the backlight driver (e.g. "intel_backlight").
    pub driver: String,
}

impl Default for SystemInfoResponse {
    fn default() -> (r: Self)
        ensures
            r.version@.len() == 0,
            r.hostname@.len() == 0,
            r.kernel@.len() == 0,
    {
        SystemInfoResponse { version: String::new(), hostname: String::new(), kernel: String::new() }
    }
}

impl Default for CapabilitiesResponse {
    fn default() -> (r: Self)
        ensures
            !r.fan_control,
            r.fan_count == 0,
            !r.keyboard_backlight,
            r.keyboard_type@.len() == 0,
            r.keyboard_modes@.len() == 0,
            !r.charging_thresholds,
            !r.charging_profiles,
            !r.tdp_control,
            !r.power_profiles,
            !r.gpu_control,
            !r.display_brightness,
    {
        CapabilitiesResponse {
            fan_control: false,
            fan_count: 0,
            keyboard_backlight: false,
            keyboard_type: String::new(),
            keyboard_modes: Vec::new(),
            charging_thresholds: false,
            charging_profiles: false,
            tdp_control: false,
            power_profiles: false,
            gpu_control: false,
            display_brightness: false,
        }
    }
}

/// A battery report for a machine without a battery.
pub open spec fn battery_absent(b: BatteryInfoResponse) -> bool {
    &&& !b.present
    &&& b.capacity_percent == 0
    &&& b.status@.len() == 0
    &&& b.cycle_count == 0
    &&& b.charge_now_mah == 0
    &&& b.charge_full_mah == 0
    &&& b.charge_full_design_mah == 0
    &&& b.current_now_ma == 0
    &&& b.voltage_now_mv == 0
    &&& b.voltage_design_mv == 0
    &&& b.technology@.len() == 0
    &&& b.manufacturer@.len() == 0
    &&& b.model_name@.len() == 0
    &&& b.health_percent == 0
}

impl Default for BatteryInfoResponse {
    fn default() -> (r: Self)
        ensures
            battery_absent(r),
    {
        BatteryInfoResponse {
            present: false,
            capacity_percent: 0,
            status: String::new(),
            cycle_count: 0,
            charge_now_mah: 0,
            charge_full_mah: 0,
            charge_full_design_mah: 0,
            current_now_ma: 0,
            voltage_now_mv: 0,
            voltage_design_mv: 0,
            technology: String::new(),
            manufacturer: String::new(),
            model_name: String::new(),
            health_percent: 0,
        }
    }
}

} // verus!
