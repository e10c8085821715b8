use tux_rs::device_table::DeviceRegistry;
use tux_rs::dmi::{
    detect_device, startup_detection_debug_block, DetectedDevice, DetectionError, DmiSource,
    CLEVO_WMI_EVENT_GUID, NB04_WMI_GUID, UNIWILL_WMI_EVENT_GUID_2,
};
use tux_rs::mock::dmi::MockDmiSource;
use tux_rs::platform::Platform;

fn detect(source: &MockDmiSource) -> Result<DetectedDevice, DetectionError> {
    let registry = DeviceRegistry::new();
    detect_device(&registry, source)
}

#[test]
fn exact_sku_match() {
    let source = MockDmiSource::new().tuxedo_base("PULSE1403");
    let result = detect(&source).unwrap();
    assert!(result.exact_match);
    assert_eq!(result.descriptor.product_sku, "PULSE1403");
    assert_eq!(result.descriptor.platform, Platform::Nb05);
}

#[test]
fn nb05_board_vendor_fallback() {
    let source = MockDmiSource::new()
        .tuxedo_base("UNKNOWN_NB05_SKU")
        .with_field("board_vendor", "NB05");
    let result = detect(&source).unwrap();
    assert!(!result.exact_match);
    assert_eq!(result.descriptor.platform, Platform::Nb05);
}

#[test]
fn nb02_board_vendor_fallback_maps_to_uniwill() {
    let source = MockDmiSource::new()
        .tuxedo_base("UNKNOWN_NB02_SKU")
        .with_field("board_vendor", "NB02");
    let result = detect(&source).unwrap();
    assert!(!result.exact_match);
    assert_eq!(result.descriptor.platform, Platform::Uniwill);
}

#[test]
fn split_sku_matches_known_token() {
    let source = MockDmiSource::new().tuxedo_base("IBP14I08MK2 / UNKNOWN_VARIANT");
    let result = detect(&source).unwrap();
    assert!(result.exact_match);
    assert_eq!(result.descriptor.product_sku, "IBP14I08MK2");
    assert_eq!(result.descriptor.platform, Platform::Uniwill);
}

#[test]
fn issue_8_gen9_amd_combined_sku_detects_uniwill_fallback() {
    let source = MockDmiSource::new()
        .tuxedo_base("IBP14A09MK1 / IBP15A09MK1")
        .with_field("board_vendor", "NB02");
    let result = detect(&source).unwrap();
    assert!(!result.exact_match);
    assert_eq!(result.descriptor.platform, Platform::Uniwill);
}

#[test]
fn tcc_gen10_combined_sku_hints_uniwill_without_board_vendor() {
    let source = MockDmiSource::new()
        .tuxedo_base("IBP14A10MK1 / IBP15A10MK1")
        .with_field("board_vendor", "UNKNOWN_VENDOR");
    let result = detect(&source).unwrap();
    assert!(!result.exact_match);
    assert_eq!(result.descriptor.platform, Platform::Uniwill);
}

#[test]
fn tcc_typo_gen10_combined_sku_hints_uniwill() {
    let source = MockDmiSource::new()
        .tuxedo_base("IIBP14A10MK1 / IBP15A10MK1")
        .with_field("board_vendor", "UNKNOWN_VENDOR");
    let result = detect(&source).unwrap();
    assert!(!result.exact_match);
    assert_eq!(result.descriptor.platform, Platform::Uniwill);
}

#[test]
fn nb04_wmi_guid_detection() {
    let source = MockDmiSource::new()
        .tuxedo_base("UNKNOWN_NB04_SKU")
        .with_wmi_guid(NB04_WMI_GUID)
        .with_sysfs_path("/sys/devices/platform/tuxedo_nb04_sensors/");
    let result = detect(&source).unwrap();
    assert!(!result.exact_match);
    assert_eq!(result.descriptor.platform, Platform::Nb04);
}

#[test]
fn nb04_wmi_without_shim_returns_no_kernel_shim() {
    let source = MockDmiSource::new()
        .tuxedo_base("UNKNOWN_NB04_SKU")
        .with_wmi_guid(NB04_WMI_GUID);
    let err = detect(&source).unwrap_err();
    assert!(matches!(err, DetectionError::NoKernelShim { platform: Platform::Nb04 }));
    let msg = err.message();
    assert!(msg.contains("kernel shim not loaded"));
    assert!(msg.contains("NB04"));
}

#[test]
fn uniwill_sysfs_fallback() {
    let source = MockDmiSource::new()
        .tuxedo_base("UNKNOWN_UW_SKU")
        .with_wmi_guid(UNIWILL_WMI_EVENT_GUID_2);
    let result = detect(&source).unwrap();
    assert!(!result.exact_match);
    assert_eq!(result.descriptor.platform, Platform::Uniwill);
}

#[test]
fn clevo_sysfs_fallback() {
    let source = MockDmiSource::new()
        .tuxedo_base("UNKNOWN_CLEVO_SKU")
        .with_wmi_guid(CLEVO_WMI_EVENT_GUID);
    let result = detect(&source).unwrap();
    assert!(!result.exact_match);
    assert_eq!(result.descriptor.platform, Platform::Clevo);
}

#[test]
fn tuxi_sysfs_fallback() {
    let source = MockDmiSource::new()
        .tuxedo_base("UNKNOWN_TUXI_SKU")
        .with_sysfs_path("/sys/devices/platform/tuxedo_fan_control/");
    let result = detect(&source).unwrap();
    assert!(!result.exact_match);
    assert_eq!(result.descriptor.platform, Platform::Tuxi);
}

#[test]
fn unknown_platform_error() {
    let source = MockDmiSource::new().tuxedo_base("TOTALLY_UNKNOWN");
    let err = detect(&source).unwrap_err();
    assert!(matches!(err, DetectionError::UnknownPlatform { .. }));
    let msg = err.message();
    assert!(msg.contains("unknown platform"));
    assert!(msg.contains("TUXEDO"));
}

#[test]
fn no_dmi_access_error() {
    let source = MockDmiSource::new();
    let err = detect(&source).unwrap_err();
    assert!(matches!(err, DetectionError::NoDmiAccess(_)));
}

#[test]
fn dmi_info_populated() {
    let source = MockDmiSource::new()
        .with_field("board_vendor", "NB05")
        .with_field("board_name", "NB05_BOARD")
        .with_field("product_sku", "PULSE1403")
        .with_field("sys_vendor", "TUXEDO")
        .with_field("product_name", "TUXEDO Pulse 14 Gen3")
        .with_field("product_version", "Rev1");
    let result = detect(&source).unwrap();
    assert_eq!(result.dmi.board_vendor, "NB05");
    assert_eq!(result.dmi.board_name, "NB05_BOARD");
    assert_eq!(result.dmi.product_sku, "PULSE1403");
    assert_eq!(result.dmi.sys_vendor, "TUXEDO");
    assert_eq!(result.dmi.product_name, "TUXEDO Pulse 14 Gen3");
    assert_eq!(result.dmi.product_version, "Rev1");
}

#[test]
fn detection_error_messages_are_meaningful() {
    let source = MockDmiSource::new().tuxedo_base("NOPE");
    let err = detect(&source).unwrap_err();
    let msg = err.message();
    assert!(msg.contains("unknown platform"));
    assert!(msg.contains("TUXEDO"));
    assert!(msg.contains("NOPE"));

    let source = MockDmiSource::new();
    let err = detect(&source).unwrap_err();
    let msg = err.message();
    assert!(msg.contains("cannot access DMI data"));
}

#[test]
fn exact_sku_match_ibp16_gen8() {
    let source = MockDmiSource::new().tuxedo_base("IBP16I08MK2");
    let result = detect(&source).unwrap();
    assert!(result.exact_match, "IBP16I08MK2 must match by SKU, not platform fallback");
    assert_eq!(result.descriptor.product_sku, "IBP16I08MK2");
    assert_eq!(result.descriptor.platform, Platform::Uniwill);
}

#[test]
fn exact_sku_match_aura_gen4_combined() {
    let source = MockDmiSource::new().tuxedo_base("AURA14GEN4 / AURA15GEN4");
    let result = detect(&source).unwrap();
    assert!(result.exact_match);
    assert_eq!(result.descriptor.product_sku, "AURA14GEN4 / AURA15GEN4");
    assert_eq!(result.descriptor.platform, Platform::Clevo);
}

#[test]
fn startup_debug_block_contains_copy_paste_fields() {
    let source = MockDmiSource::new()
        .tuxedo_base("IBP14A09MK1 / IBP15A09MK1")
        .with_field("board_vendor", "NB02");
    let report = startup_detection_debug_block(&source);

    assert!(report.contains("tux-rs startup diagnostics"));
    assert!(report.contains("dmi.board_vendor=NB02"));
    assert!(report.contains("dmi.product_sku=IBP14A09MK1 / IBP15A09MK1"));
    assert!(report.contains("detect.platform_guess=Uniwill"));
    assert!(report.contains("detect.platform_hint_from_tcc_sku=Uniwill"));
    assert!(report.contains("probe.wmi.nb04_guid="));
    assert!(report.contains("probe.wmi.uniwill_guid_2="));
    assert!(report.contains("probe.wmi.clevo_guid="));
    assert!(report.contains("probe.sysfs.nb04_shim="));
    assert!(report.contains("probe.sysfs.tuxi_fan_control="));
}

#[test]
fn nb04_tuxedo_drivers_shim_path() {
    let source = MockDmiSource::new()
        .tuxedo_base("UNKNOWN_NB04_SKU")
        .with_wmi_guid(NB04_WMI_GUID)
        .with_sysfs_path("/sys/devices/platform/tuxedo_nb04_sensors/");
    let result = detect(&source).unwrap();
    assert!(!result.exact_match);
    assert_eq!(result.descriptor.platform, Platform::Nb04);
}

#[test]
fn nb04_wmi_without_either_shim_returns_no_kernel_shim() {
    let source = MockDmiSource::new()
        .tuxedo_base("UNKNOWN_NB04_SKU")
        .with_wmi_guid(NB04_WMI_GUID);
    let err = detect(&source).unwrap_err();
    assert!(matches!(err, DetectionError::NoKernelShim { platform: Platform::Nb04 }));
}

#[test]
fn clevo_wmi_guid_detection_tuxedo_drivers() {
    let source = MockDmiSource::new()
        .tuxedo_base("UNKNOWN_CLEVO_SKU")
        .with_wmi_guid(CLEVO_WMI_EVENT_GUID);
    let result = detect(&source).unwrap();
    assert!(!result.exact_match);
    assert_eq!(result.descriptor.platform, Platform::Clevo);
}

#[test]
fn uniwill_wmi_guid_detection_tuxedo_drivers() {
    let source = MockDmiSource::new()
        .tuxedo_base("UNKNOWN_UW_SKU")
        .with_wmi_guid(UNIWILL_WMI_EVENT_GUID_2);
    let result = detect(&source).unwrap();
    assert!(!result.exact_match);
    assert_eq!(result.descriptor.platform, Platform::Uniwill);
}

#[test]
fn tuxi_tuxedo_drivers_platform_path() {
    let source = MockDmiSource::new()
        .tuxedo_base("UNKNOWN_TUXI_SKU")
        .with_sysfs_path("/sys/devices/platform/tuxedo_fan_control/");
    let result = detect(&source).unwrap();
    assert!(!result.exact_match);
    assert_eq!(result.descriptor.platform, Platform::Tuxi);
}

#[test]
fn uwiwill_wmi_guid_detected_before_clevo() {
    let source = MockDmiSource::new()
        .tuxedo_base("AMBIGUOUS_SKU")
        .with_wmi_guid(UNIWILL_WMI_EVENT_GUID_2)
        .with_wmi_guid(CLEVO_WMI_EVENT_GUID);
    let result = detect(&source).unwrap();
    assert_eq!(result.descriptor.platform, Platform::Uniwill);
}

#[test]
fn debug_block_exact_lines_without_dmi() {
    let source = MockDmiSource::new();
    let report = startup_detection_debug_block(&source);
    let lines: Vec<&str> = report.lines().collect();
    assert_eq!(lines[0], "tux-rs startup diagnostics");
    assert_eq!(lines[1], "dmi.read_error=cannot access DMI data: no DMI field: board_vendor");
    assert_eq!(lines[2], "detect.platform_guess=unknown");
    assert_eq!(lines[3], "detect.platform_hint_from_tcc_sku=unknown");
    assert_eq!(lines[4], "probe.wmi.nb04_guid=false");
    assert_eq!(lines.len(), 9);
}

#[test]
fn mock_field_override_and_errors() {
    let source = MockDmiSource::new().with_field("board_vendor", "A").with_field("board_vendor", "B");
    assert_eq!(source.read_dmi_field("board_vendor").unwrap(), "B");
    let err = source.read_dmi_field("product_sku").unwrap_err();
    assert_eq!(err.message, "no DMI field: product_sku");
    assert!(!source.wmi_guid_exists(NB04_WMI_GUID));
    let source = source.with_wmi_guid(NB04_WMI_GUID);
    assert!(source.wmi_guid_exists(NB04_WMI_GUID));
}

#[test]
fn lowercase_board_vendor_is_recognised() {
    let source = MockDmiSource::new()
        .tuxedo_base("UNKNOWN_SKU")
        .with_field("board_vendor", "nb05");
    let result = detect(&source).unwrap();
    assert_eq!(result.descriptor.platform, Platform::Nb05);
}

#[test]
fn no_dmi_access_keeps_the_read_error() {
    let source = MockDmiSource::new().with_field("board_vendor", "NB05");
    match detect(&source).unwrap_err() {
        DetectionError::NoDmiAccess(e) => {
            assert_eq!(e.kind, tux_rs::error::IoErrorKind::NotFound);
            assert_eq!(e.message, "no DMI field: board_name");
        }
        _ => panic!("expected NoDmiAccess"),
    }
}
