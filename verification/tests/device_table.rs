use std::collections::HashSet;

use tux_rs::custom_device::{CustomDeviceDescriptor, CustomPlatformRegisters, CustomSensorSet};
use tux_rs::device::{ChargingCapability, FanCapability, FanControlType, GpuPowerCapability, KeyboardType};
use tux_rs::device_table::{
    device_table, devices_for_platform, fallback_for_platform, lookup_by_sku,
    register_custom_device, DeviceRegistry,
};
use tux_rs::platform::Platform;
use tux_rs::registers::PlatformRegisters;

fn all_platforms() -> [Platform; 5] {
    [Platform::Nb05, Platform::Nb04, Platform::Uniwill, Platform::Clevo, Platform::Tuxi]
}

#[test]
fn all_skus_unique() {
    let mut seen = HashSet::new();
    for device in device_table() {
        assert!(seen.insert(device.product_sku.clone()), "Duplicate SKU: {}", device.product_sku);
    }
}

#[test]
fn every_platform_has_at_least_one_device() {
    let registry = DeviceRegistry::new();
    for platform in all_platforms() {
        let devices = devices_for_platform(&registry, platform);
        assert!(!devices.is_empty(), "No devices for platform {:?}", platform);
    }
}

#[test]
fn lookup_known_sku() {
    let registry = DeviceRegistry::new();
    let device = lookup_by_sku(&registry, "PULSE1403").expect("PULSE1403 should exist");
    assert_eq!(device.name, "TUXEDO Pulse 14 Gen3");
    assert_eq!(device.platform, Platform::Nb05);
    assert_eq!(device.fans.count, 2);
}

#[test]
fn lookup_unknown_sku_returns_none() {
    let registry = DeviceRegistry::new();
    assert!(lookup_by_sku(&registry, "NONEXISTENT").is_none());
    assert!(lookup_by_sku(&registry, "").is_none());
}

#[test]
fn devices_for_platform_correct_subset() {
    let registry = DeviceRegistry::new();
    let nb05_devices = devices_for_platform(&registry, Platform::Nb05);
    for device in &nb05_devices {
        assert_eq!(device.platform, Platform::Nb05);
    }

    let uniwill_devices = devices_for_platform(&registry, Platform::Uniwill);
    for device in &uniwill_devices {
        assert_eq!(device.platform, Platform::Uniwill);
    }
}

#[test]
fn fallback_for_each_platform() {
    for platform in all_platforms() {
        let fb = fallback_for_platform(platform);
        assert_eq!(fb.platform, platform);
        assert!(fb.product_sku.is_empty());
        assert!(fb.fans.count >= 1);
    }
}

#[test]
fn all_entries_have_nonempty_name_and_sku() {
    for device in device_table() {
        assert!(!device.name.is_empty(), "Empty name in device table");
        assert!(!device.product_sku.is_empty(), "Empty SKU for device: {}", device.name);
    }
}

#[test]
fn table_has_minimum_entries() {
    let table = device_table();
    assert!(table.len() >= 38, "Device table has {} entries, expected >= 38", table.len());
}

#[test]
fn lookup_each_platform_specific_device() {
    let registry = DeviceRegistry::new();
    assert!(lookup_by_sku(&registry, "IFLX14I01").is_some());
    assert!(lookup_by_sku(&registry, "STELLARIS1XI05").is_some());
    assert!(lookup_by_sku(&registry, "AURA14GEN3").is_some());
    assert!(lookup_by_sku(&registry, "SIRIUS1601").is_some());
    assert!(lookup_by_sku(&registry, "AURA15GEN1T").is_some());
}

#[test]
fn nb05_infinityflex_has_one_fan() {
    let registry = DeviceRegistry::new();
    let device = lookup_by_sku(&registry, "IFLX14I01").unwrap();
    assert_eq!(device.fans.count, 1);
    assert_eq!(device.platform, Platform::Nb05);
    assert_eq!(device.registers, PlatformRegisters::Nb05);
}

#[test]
fn nb04_uses_profile_only_control() {
    let registry = DeviceRegistry::new();
    let nb04_devices = devices_for_platform(&registry, Platform::Nb04);
    for device in &nb04_devices {
        assert_eq!(device.fans.control, FanControlType::ProfileOnly);
    }
}

#[test]
fn gpu_power_only_on_uniwill() {
    for device in device_table() {
        if device.gpu_power != GpuPowerCapability::Unavailable {
            assert_eq!(
                device.platform,
                Platform::Uniwill,
                "Non-Uniwill device '{}' has GPU power control",
                device.name
            );
        }
    }
}

#[test]
fn gpu_power_matches_gpu_temp_on_uniwill() {
    let registry = DeviceRegistry::new();
    let uniwill_devices = devices_for_platform(&registry, Platform::Uniwill);
    for device in &uniwill_devices {
        if device.sensors.gpu_temp {
            assert_eq!(
                device.gpu_power,
                GpuPowerCapability::Nb02Nvidia,
                "Uniwill device '{}' has gpu_temp but no GPU power",
                device.name
            );
        }
    }
}

fn custom(sku: &str, platform: Platform) -> CustomDeviceDescriptor {
    CustomDeviceDescriptor {
        name: "Custom Override".to_string(),
        product_sku: sku.to_string(),
        platform,
        fans: FanCapability { count: 1, control: FanControlType::Direct, pwm_scale: 255 },
        keyboard: KeyboardType::White,
        sensors: CustomSensorSet { cpu_temp: true, gpu_temp: false, fan_rpm: vec![true] },
        charging: ChargingCapability::Unavailable,
        tdp: None,
        gpu_power: GpuPowerCapability::Unavailable,
        registers: CustomPlatformRegisters::Clevo,
    }
}

#[test]
fn custom_device_takes_precedence_over_table() {
    let mut registry = DeviceRegistry::new();
    register_custom_device(&mut registry, custom("PULSE1403", Platform::Clevo).leak());
    let device = lookup_by_sku(&registry, "PULSE1403").unwrap();
    assert_eq!(device.name, "Custom Override");
    assert_eq!(device.platform, Platform::Clevo);
}

#[test]
fn custom_devices_come_first_for_their_platform() {
    let mut registry = DeviceRegistry::new();
    register_custom_device(&mut registry, custom("NEWTUXI", Platform::Tuxi).leak());
    let tuxi = devices_for_platform(&registry, Platform::Tuxi);
    assert_eq!(tuxi.len(), 3);
    assert_eq!(tuxi[0].product_sku, "NEWTUXI");
    assert_eq!(tuxi[1].product_sku, "AURA15GEN1T");
}

#[test]
fn table_order_is_kept() {
    let table = device_table();
    assert_eq!(table.len(), 39);
    assert_eq!(table[0].product_sku, "PULSE1403");
    assert_eq!(table[38].product_sku, "AURA15GEN2T");
}
