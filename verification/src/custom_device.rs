//! Device descriptions supplied at run time (custom device overrides).
use crate::device::{
    ChargingCapability, DeviceDescriptor, FanCapability, GpuPowerCapability, KeyboardType,
    SensorSet, TdpBounds, TdpSource,
};
use crate::platform::Platform;
use crate::registers::PlatformRegisters;
use vstd::prelude::*;

verus! {

/// A device description loaded at run time, e.g. from `custom_devices.toml`.
#[derive(Debug, Clone)]
pub struct CustomDeviceDescriptor {
    pub name: String,
    pub product_sku: String,
    pub platform: Platform,
    pub fans: FanCapability,
    pub keyboard: KeyboardType,
    pub sensors: CustomSensorSet,
    pub charging: ChargingCapability,
    pub tdp: Option<TdpBounds>,
    pub gpu_power: GpuPowerCapability,
    pub registers: CustomPlatformRegisters,
}

/// Sensors of a custom device.
#[derive(Debug, Clone)]
pub struct CustomSensorSet {
    pub cpu_temp: bool,
    pub gpu_temp: bool,
    pub fan_rpm: Vec<bool>,
}

/// Register family of a custom device.
#[derive(Debug, Clone, Copy, PartialEq, Eq, Structural)]
pub enum CustomPlatformRegisters {
    Nb05,
    Nb04,
    Uniwill,
    Clevo,
    Tuxi,
}

/// The register family that a custom register tag names.
pub open spec fn custom_registers_spec(r: CustomPlatformRegisters) -> PlatformRegisters {
    match r {
        CustomPlatformRegisters::Nb05 => PlatformRegisters::Nb05,
        CustomPlatformRegisters::Nb04 => PlatformRegisters::Nb04,
        CustomPlatformRegisters::Uniwill => PlatformRegisters::Uniwill,
        CustomPlatformRegisters::Clevo => PlatformRegisters::Clevo,
        CustomPlatformRegisters::Tuxi => PlatformRegisters::Tuxi,
    }
}

impl CustomDeviceDescriptor {
    /// Turns the custom description into a device descriptor that can be
    /// registered and looked up like the built-in ones. A custom device
    /// declares no TDP source of its own.
    pub fn leak(self) -> (r: DeviceDescriptor)
        ensures
            r.name@ == self.name@,
            r.product_sku@ == self.product_sku@,
            r.platform == self.platform,
            r.fans == self.fans,
            r.keyboard == self.keyboard,
            r.sensors.cpu_temp == self.sensors.cpu_temp,
            r.sensors.gpu_temp == self.sensors.gpu_temp,
            r.sensors.fan_rpm@ == self.sensors.fan_rpm@,
            r.charging == self.charging,
            r.tdp == self.tdp,
            r.tdp_source == TdpSource::Unavailable,
            r.gpu_power == self.gpu_power,
            r.registers == custom_registers_spec(self.registers),
    {
        let registers = match self.registers {
            CustomPlatformRegisters::Nb05 => PlatformRegisters::Nb05,
            CustomPlatformRegisters::Nb04 => PlatformRegisters::Nb04,
            CustomPlatformRegisters::Uniwill => PlatformRegisters::Uniwill,
            CustomPlatformRegisters::Clevo => PlatformRegisters::Clevo,
            CustomPlatformRegisters::Tuxi => PlatformRegisters::Tuxi,
        };
        DeviceDescriptor {
            name: self.name,
            product_sku: self.product_sku,
            platform: self.platform,
            fans: self.fans,
            keyboard: self.keyboard,
            sensors: SensorSet {
                cpu_temp: self.sensors.cpu_temp,
                gpu_temp: self.sensors.gpu_temp,
                fan_rpm: self.sensors.fan_rpm,
            },
            charging: self.charging,
            tdp: self.tdp,
            tdp_source: TdpSource::Unavailable,
            gpu_power: self.gpu_power,
            registers,
        }
    }
}

} // verus!
