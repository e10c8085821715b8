//! Hardware description of a TUXEDO laptop model.
use crate::platform::Platform;
use crate::registers::PlatformRegisters;
use vstd::prelude::*;

verus! {

/// Complete hardware description of a TUXEDO laptop model.
///
/// Each supported device has an entry in the device table. Adding support
/// for a new laptop means adding an entry — no new code paths.
#[derive(Debug)]
pub struct DeviceDescriptor {
    pub name: String,
    pub product_sku: String,
    pub platform: Platform,
    pub fans: FanCapability,
    pub keyboard: KeyboardType,
    pub sensors: SensorSet,
    pub charging: ChargingCapability,
    pub tdp: Option<TdpBounds>,
    pub tdp_source: TdpSource,
    pub gpu_power: GpuPowerCapability,
    pub registers: PlatformRegisters,
}

/// Fan hardware capabilities for a device.
#[derive(Debug, Clone, Copy, PartialEq, Eq, Structural)]
pub struct FanCapability {
    /// Number of fans (0–3).
    pub count: u8,
    /// How the daemon controls fan speed.
    pub control: FanControlType,
    /// Maximum PWM value (200 for Uniwill, 255 for others).
    pub pwm_scale: u8,
}

/// How fan speed is controlled.
#[derive(Debug, Clone, Copy, PartialEq, Eq, Structural)]
pub enum FanControlType {
    /// Daemon can set PWM directly via sysfs.
    Direct,
    /// Fans managed by firmware power profile (NB04).
    ProfileOnly,
    /// No fan control available (passive cooling).
    Unavailable,
}

/// Keyboard backlight type.
#[derive(Debug, Clone, Copy, PartialEq, Eq, Structural)]
pub enum KeyboardType {
    /// No keyboard backlight.
    Unavailable,
    /// Single-color (white) backlight, brightness only.
    White,
    /// Discrete brightness levels (e.g., NB05: 3 levels).
    WhiteLevels(u8),
    /// Single-zone RGB.
    Rgb1Zone,
    /// Three-zone RGB.
    Rgb3Zone,
    /// Per-key RGB (kernel-driven).
    RgbPerKey,
    /// USB HID ITE controller — handled in userspace via hidraw.
    IteHid(IteModel),
}

/// ITE keyboard controller model (USB HID).
#[derive(Debug, Clone, Copy, PartialEq, Eq, Structural)]
pub enum IteModel {
    /// Per-key 6×21 matrix.
    Ite8291,
    /// Lightbar variants.
    Ite8291Lb,
    /// RGB lightbar.
    Ite8297,
    /// Per-key 6×20 matrix.
    Ite829x,
}

/// Which sensors are available on the device.
#[derive(Debug)]
pub struct SensorSet {
    pub cpu_temp: bool,
    pub gpu_temp: bool,
    /// Per-fan RPM availability (length matches fan count).
    pub fan_rpm: Vec<bool>,
}

/// Charging control capability.
#[derive(Debug, Clone, Copy, PartialEq, Eq, Structural)]
pub enum ChargingCapability {
    /// No charging control.
    Unavailable,
    /// Clevo ACPI start/end thresholds.
    Flexicharger,
    /// Uniwill EC profile + priority registers.
    EcProfilePriority,
}

/// TDP (Thermal Design Power) bounds per power level.
#[derive(Debug, Clone, Copy, PartialEq, Eq, Structural)]
pub struct TdpBounds {
    pub pl1_min: u32,
    pub pl1_max: u32,
    pub pl2_min: u32,
    pub pl2_max: u32,
    pub pl4_min: Option<u32>,
    pub pl4_max: Option<u32>,
}

/// Where TDP control comes from on a device.
#[derive(Debug, Clone, Copy, PartialEq, Eq, Structural)]
pub enum TdpSource {
    /// No TDP control.
    Unavailable,
    /// EC RAM power limits (NB05), bounded by the descriptor's `tdp`.
    Ec,
    /// Intel RAPL package power limits, bounded by firmware.
    Rapl,
}

/// GPU power control capability.
#[derive(Debug, Clone, Copy, PartialEq, Eq, Structural)]
pub enum GpuPowerCapability {
    /// No GPU power control.
    Unavailable,
    /// Uniwill NB02 cTGP/Dynamic Boost via kernel sysfs.
    Nb02Nvidia,
}

/// Two descriptors hold the same values.
pub open spec fn same_descriptor(a: DeviceDescriptor, b: DeviceDescriptor) -> bool {
    &&& a.name@ == b.name@
    &&& a.product_sku@ == b.product_sku@
    &&& a.platform == b.platform
    &&& a.fans == b.fans
    &&& a.keyboard == b.keyboard
    &&& a.sensors.cpu_temp == b.sensors.cpu_temp
    &&& a.sensors.gpu_temp == b.sensors.gpu_temp
    &&& a.sensors.fan_rpm@ == b.sensors.fan_rpm@
    &&& a.charging == b.charging
    &&& a.tdp == b.tdp
    &&& a.tdp_source == b.tdp_source
    &&& a.gpu_power == b.gpu_power
    &&& a.registers == b.registers
}

/// A copy of a list of flags.
pub fn copy_flags(v: &Vec<bool>) -> (r: Vec<bool>)
    ensures
        r@ == v@,
{
    let mut out: Vec<bool> = Vec::new();
    let n = v.len();
    let mut i: usize = 0;
    while i < n
        invariant
            n == v@.len(),
            i <= n,
            out@ == v@.subrange(0, i as int),
        decreases n - i,
    {
        out.push(v[i]);
        i = i + 1;
        assert(out@ =~= v@.subrange(0, i as int));
    }
    assert(out@ =~= v@);
    out
}

impl DeviceDescriptor {
    /// A copy of this descriptor.
    pub fn duplicate(&self) -> (r: DeviceDescriptor)
        ensures
            same_descriptor(r, *self),
    {
        DeviceDescriptor {
            name: self.name.clone(),
            product_sku: self.product_sku.clone(),
            platform: self.platform,
            fans: self.fans,
            keyboard: self.keyboard,
            sensors: SensorSet {
                cpu_temp: self.sensors.cpu_temp,
                gpu_temp: self.sensors.gpu_temp,
                fan_rpm: copy_flags(&self.sensors.fan_rpm),
            },
            charging: self.charging,
            tdp: self.tdp,
            tdp_source: self.tdp_source,
            gpu_power: self.gpu_power,
            registers: self.registers,
        }
    }
}

} // verus!
