use tux_rs::custom_device::{CustomDeviceDescriptor, CustomPlatformRegisters, CustomSensorSet};
use tux_rs::device::{
    ChargingCapability, DeviceDescriptor, FanCapability, FanControlType, GpuPowerCapability,
    IteModel, KeyboardType, SensorSet, TdpBounds, TdpSource,
};
use tux_rs::platform::Platform;
use tux_rs::registers::PlatformRegisters;

#[test]
fn construct_uniwill_descriptor() {
    let desc = DeviceDescriptor {
        name: "TUXEDO InfinityBook Pro 16 Gen8".to_string(),
        product_sku: "STELLARIS1XI05".to_string(),
        platform: Platform::Uniwill,
        fans: FanCapability { count: 2, control: FanControlType::Direct, pwm_scale: 200 },
        keyboard: KeyboardType::White,
        sensors: SensorSet { cpu_temp: true, gpu_temp: false, fan_rpm: vec![true, true] },
        charging: ChargingCapability::EcProfilePriority,
        tdp: None,
        tdp_source: TdpSource::Unavailable,
        gpu_power: GpuPowerCapability::Unavailable,
        registers: PlatformRegisters::Uniwill,
    };

    assert_eq!(desc.platform, Platform::Uniwill);
    assert_eq!(desc.fans.count, 2);
    assert_eq!(desc.fans.pwm_scale, 200);
    assert!(desc.sensors.cpu_temp);
    assert!(!desc.sensors.gpu_temp);
    assert_eq!(desc.sensors.fan_rpm.len(), 2);
}

#[test]
fn construct_nb05_descriptor() {
    let desc = DeviceDescriptor {
        name: "TUXEDO Pulse 14 Gen4".to_string(),
        product_sku: "NB05DATA".to_string(),
        platform: Platform::Nb05,
        fans: FanCapability { count: 1, control: FanControlType::Direct, pwm_scale: 255 },
        keyboard: KeyboardType::WhiteLevels(3),
        sensors: SensorSet { cpu_temp: true, gpu_temp: false, fan_rpm: vec![true] },
        charging: ChargingCapability::Unavailable,
        tdp: Some(TdpBounds {
            pl1_min: 5,
            pl1_max: 28,
            pl2_min: 10,
            pl2_max: 40,
            pl4_min: None,
            pl4_max: None,
        }),
        tdp_source: TdpSource::Ec,
        gpu_power: GpuPowerCapability::Unavailable,
        registers: PlatformRegisters::Nb05,
    };

    assert_eq!(desc.platform, Platform::Nb05);
    assert_eq!(desc.fans.count, 1);
    assert!(desc.tdp.is_some());
    let tdp = desc.tdp.unwrap();
    assert_eq!(tdp.pl1_max, 28);
}

#[test]
fn construct_nb04_descriptor() {
    let desc = DeviceDescriptor {
        name: "TUXEDO Sirius 16 Gen1".to_string(),
        product_sku: "NB04SKU".to_string(),
        platform: Platform::Nb04,
        fans: FanCapability { count: 2, control: FanControlType::ProfileOnly, pwm_scale: 0 },
        keyboard: KeyboardType::IteHid(IteModel::Ite8291),
        sensors: SensorSet { cpu_temp: true, gpu_temp: true, fan_rpm: vec![true, true] },
        charging: ChargingCapability::Unavailable,
        tdp: None,
        tdp_source: TdpSource::Unavailable,
        gpu_power: GpuPowerCapability::Unavailable,
        registers: PlatformRegisters::Nb04,
    };

    assert_eq!(desc.platform, Platform::Nb04);
    assert_eq!(desc.fans.control, FanControlType::ProfileOnly);
    assert_eq!(desc.keyboard, KeyboardType::IteHid(IteModel::Ite8291));
}

#[test]
fn construct_clevo_descriptor() {
    let desc = DeviceDescriptor {
        name: "TUXEDO Stellaris 17 Gen5".to_string(),
        product_sku: "CLEVOSKU".to_string(),
        platform: Platform::Clevo,
        fans: FanCapability { count: 3, control: FanControlType::Direct, pwm_scale: 255 },
        keyboard: KeyboardType::RgbPerKey,
        sensors: SensorSet { cpu_temp: true, gpu_temp: true, fan_rpm: vec![true, true, true] },
        charging: ChargingCapability::Flexicharger,
        tdp: None,
        tdp_source: TdpSource::Unavailable,
        gpu_power: GpuPowerCapability::Unavailable,
        registers: PlatformRegisters::Clevo,
    };

    assert_eq!(desc.fans.count, 3);
    assert_eq!(desc.charging, ChargingCapability::Flexicharger);
    assert_eq!(desc.sensors.fan_rpm.len(), 3);
}

#[test]
fn construct_tuxi_descriptor() {
    let desc = DeviceDescriptor {
        name: "TUXEDO Aura 15 Gen3".to_string(),
        product_sku: "TUXISKU".to_string(),
        platform: Platform::Tuxi,
        fans: FanCapability { count: 1, control: FanControlType::Direct, pwm_scale: 255 },
        keyboard: KeyboardType::Unavailable,
        sensors: SensorSet { cpu_temp: true, gpu_temp: false, fan_rpm: vec![true] },
        charging: ChargingCapability::Unavailable,
        tdp: None,
        tdp_source: TdpSource::Unavailable,
        gpu_power: GpuPowerCapability::Unavailable,
        registers: PlatformRegisters::Tuxi,
    };

    assert_eq!(desc.platform, Platform::Tuxi);
    assert_eq!(desc.keyboard, KeyboardType::Unavailable);
}

#[test]
fn display_all_platforms() {
    assert_eq!(Platform::Nb05.display_name(), "NB05");
    assert_eq!(Platform::Nb04.display_name(), "NB04");
    assert_eq!(Platform::Uniwill.display_name(), "Uniwill");
    assert_eq!(Platform::Clevo.display_name(), "Clevo");
    assert_eq!(Platform::Tuxi.display_name(), "Tuxi");
}

#[test]
fn platform_is_copy() {
    let p = Platform::Uniwill;
    let p2 = p;
    assert_eq!(p, p2);
}

#[test]
fn platform_debug_names() {
    assert_eq!(Platform::Nb05.debug_name(), format!("{:?}", Platform::Nb05));
    assert_eq!(Platform::Uniwill.debug_name(), "Uniwill");
}

#[test]
fn platform_registers_all_variants_constructible() {
    let variants = [
        PlatformRegisters::Nb05,
        PlatformRegisters::Nb04,
        PlatformRegisters::Uniwill,
        PlatformRegisters::Clevo,
        PlatformRegisters::Tuxi,
    ];
    assert_eq!(variants.len(), 5);
}

#[test]
fn platform_registers_equality() {
    assert_eq!(PlatformRegisters::Nb05, PlatformRegisters::Nb05);
    assert_ne!(PlatformRegisters::Nb05, PlatformRegisters::Nb04);
}

#[test]
fn version_is_set() {
    assert!(!tux_rs::version().is_empty());
    assert_eq!(tux_rs::version(), "0.1.0");
}

#[test]
fn duplicate_keeps_every_field() {
    let registry = tux_rs::device_table::DeviceRegistry::new();
    let d = tux_rs::device_table::lookup_by_sku(&registry, "PULSE1403").unwrap();
    let copy = d.duplicate();
    assert_eq!(copy.name, d.name);
    assert_eq!(copy.product_sku, d.product_sku);
    assert_eq!(copy.sensors.fan_rpm, d.sensors.fan_rpm);
    assert_eq!(copy.keyboard, d.keyboard);
}

#[test]
fn custom_device_leak_maps_registers() {
    let custom = CustomDeviceDescriptor {
        name: "My Laptop".to_string(),
        product_sku: "MYSKU".to_string(),
        platform: Platform::Clevo,
        fans: FanCapability { count: 2, control: FanControlType::Direct, pwm_scale: 255 },
        keyboard: KeyboardType::Rgb3Zone,
        sensors: CustomSensorSet { cpu_temp: true, gpu_temp: true, fan_rpm: vec![true, false] },
        charging: ChargingCapability::Flexicharger,
        tdp: None,
        gpu_power: GpuPowerCapability::Unavailable,
        registers: CustomPlatformRegisters::Clevo,
    };
    let d = custom.leak();
    assert_eq!(d.name, "My Laptop");
    assert_eq!(d.product_sku, "MYSKU");
    assert_eq!(d.registers, PlatformRegisters::Clevo);
    assert_eq!(d.sensors.fan_rpm, vec![true, false]);
    assert_eq!(d.tdp_source, TdpSource::Unavailable);
}
