//! The table of known TUXEDO laptop models, custom device overrides and
//! per-platform fallbacks.
use crate::device::{
    ChargingCapability, DeviceDescriptor, FanCapability, FanControlType,
    GpuPowerCapability, IteModel, KeyboardType, SensorSet, TdpSource,
};
use crate::platform::Platform;
use crate::registers::PlatformRegisters;
use vstd::prelude::*;

verus! {

/// Number of models in the built-in device table.
pub const DEVICE_TABLE_LEN: usize = 39;

/// The register family that belongs to a platform.
pub open spec fn registers_for(p: Platform) -> PlatformRegisters {
    match p {
        Platform::Nb05 => PlatformRegisters::Nb05,
        Platform::Nb04 => PlatformRegisters::Nb04,
        Platform::Uniwill => PlatformRegisters::Uniwill,
        Platform::Clevo => PlatformRegisters::Clevo,
        Platform::Tuxi => PlatformRegisters::Tuxi,
    }
}

/// `v` holds `n` flags, all set.
pub open spec fn all_set(v: Seq<bool>, n: int) -> bool {
    v.len() == n && forall|i: int| 0 <= i < n ==> #[trigger] v[i]
}

/// `d` describes a model with these values; every model has a CPU
/// temperature sensor, an RPM sensor per fan, no TDP control of its own and
/// the register family of its platform.
pub open spec fn entry_is(
    d: DeviceDescriptor,
    name: Seq<char>,
    sku: Seq<char>,
    platform: Platform,
    fan_count: u8,
    control: FanControlType,
    pwm_scale: u8,
    keyboard: KeyboardType,
    gpu_temp: bool,
    charging: ChargingCapability,
    gpu_power: GpuPowerCapability,
) -> bool {
    &&& d.name@ == name
    &&& d.product_sku@ == sku
    &&& d.platform == platform
    &&& d.fans == FanCapability { count: fan_count, control, pwm_scale }
    &&& d.keyboard == keyboard
    &&& d.sensors.cpu_temp
    &&& d.sensors.gpu_temp == gpu_temp
    &&& all_set(d.sensors.fan_rpm@, fan_count as int)
    &&& d.charging == charging
    &&& d.tdp is None
    &&& d.tdp_source == TdpSource::Unavailable
    &&& d.gpu_power == gpu_power
    &&& d.registers == registers_for(platform)
}

/// Consistency rules that every model of the table follows: GPU power
/// control exists only on Uniwill, every Uniwill model with a GPU sensor has
/// it, NB04 fans follow the firmware profile only, there is an RPM flag per
/// fan and the register family matches the platform.
pub open spec fn entry_is_consistent(d: DeviceDescriptor) -> bool {
    &&& d.gpu_power != GpuPowerCapability::Unavailable ==> d.platform == Platform::Uniwill
    &&& (d.platform == Platform::Uniwill && d.sensors.gpu_temp) ==> d.gpu_power
        == GpuPowerCapability::Nb02Nvidia
    &&& d.platform == Platform::Nb04 ==> d.fans.control == FanControlType::ProfileOnly
    &&& d.sensors.fan_rpm@.len() == d.fans.count
    &&& d.registers == registers_for(d.platform)
}

/// The conservative description used for an unknown model of platform `p`.
pub open spec fn fallback_is(d: DeviceDescriptor, p: Platform) -> bool {
    match p {
        Platform::Nb05 => entry_is(d, "Unknown NB05 Device"@, ""@, Platform::Nb05, 1, FanControlType::Direct, 184, KeyboardType::Unavailable, false, ChargingCapability::Unavailable, GpuPowerCapability::Unavailable),
        Platform::Uniwill => entry_is(d, "Unknown Uniwill Device"@, ""@, Platform::Uniwill, 1, FanControlType::Direct, 200, KeyboardType::Unavailable, false, ChargingCapability::Unavailable, GpuPowerCapability::Unavailable),
        Platform::Clevo => entry_is(d, "Unknown Clevo Device"@, ""@, Platform::Clevo, 1, FanControlType::Direct, 255, KeyboardType::Unavailable, false, ChargingCapability::Unavailable, GpuPowerCapability::Unavailable),
        Platform::Nb04 => entry_is(d, "Unknown NB04 Device"@, ""@, Platform::Nb04, 1, FanControlType::ProfileOnly, 0, KeyboardType::Unavailable, false, ChargingCapability::Unavailable, GpuPowerCapability::Unavailable),
        Platform::Tuxi => entry_is(d, "Unknown Tuxi Device"@, ""@, Platform::Tuxi, 1, FanControlType::Direct, 255, KeyboardType::Unavailable, false, ChargingCapability::Unavailable, GpuPowerCapability::Unavailable),
    }
}

/// The register family that belongs to a platform.
pub fn registers_for_platform(p: Platform) -> (r: PlatformRegisters)
    ensures
        r == registers_for(p),
{
    match p {
        Platform::Nb05 => PlatformRegisters::Nb05,
        Platform::Nb04 => PlatformRegisters::Nb04,
        Platform::Uniwill => PlatformRegisters::Uniwill,
        Platform::Clevo => PlatformRegisters::Clevo,
        Platform::Tuxi => PlatformRegisters::Tuxi,
    }
}

/// `n` set flags.
fn set_flags(n: u8) -> (r: Vec<bool>)
    ensures
        all_set(r@, n as int),
{
    let mut v: Vec<bool> = Vec::new();
    let mut i: u8 = 0;
    while i < n
        invariant
            i <= n,
            all_set(v@, i as int),
        decreases n - i,
    {
        v.push(true);
        i = i + 1;
    }
    v
}

/// A model description with the table's common values.
fn entry(
    name: &str,
    sku: &str,
    platform: Platform,
    fan_count: u8,
    control: FanControlType,
    pwm_scale: u8,
    keyboard: KeyboardType,
    gpu_temp: bool,
    charging: ChargingCapability,
    gpu_power: GpuPowerCapability,
) -> (r: DeviceDescriptor)
    ensures
        entry_is(r, name@, sku@, platform, fan_count, control, pwm_scale, keyboard, gpu_temp, charging, gpu_power),
{
    DeviceDescriptor {
        name: name.to_owned(),
        product_sku: sku.to_owned(),
        platform,
        fans: FanCapability { count: fan_count, control, pwm_scale },
        keyboard,
        sensors: SensorSet { cpu_temp: true, gpu_temp, fan_rpm: set_flags(fan_count) },
        charging,
        tdp: None,
        tdp_source: TdpSource::Unavailable,
        gpu_power,
        registers: registers_for_platform(platform),
    }
}

/// `t` is the table of known models, in table order.
pub open spec fn is_device_table(t: Seq<DeviceDescriptor>) -> bool {
    &&& t.len() == DEVICE_TABLE_LEN
    &&& entry_is(t[0], "TUXEDO Pulse 14 Gen3"@, "PULSE1403"@, Platform::Nb05, 2, FanControlType::Direct, 184, KeyboardType::IteHid(IteModel::Ite8291), false, ChargingCapability::Unavailable, GpuPowerCapability::Unavailable)
    &&& entry_is(t[1], "TUXEDO Pulse 14 Gen4"@, "PULSE1404"@, Platform::Nb05, 2, FanControlType::Direct, 184, KeyboardType::IteHid(IteModel::Ite8291), false, ChargingCapability::Unavailable, GpuPowerCapability::Unavailable)
    &&& entry_is(t[2], "TUXEDO Pulse 15 Gen2"@, "PULSE1502"@, Platform::Nb05, 2, FanControlType::Direct, 184, KeyboardType::IteHid(IteModel::Ite8291), false, ChargingCapability::Unavailable, GpuPowerCapability::Unavailable)
    &&& entry_is(t[3], "TUXEDO InfinityFlex 14 Gen1"@, "IFLX14I01"@, Platform::Nb05, 1, FanControlType::Direct, 184, KeyboardType::IteHid(IteModel::Ite8291), false, ChargingCapability::Unavailable, GpuPowerCapability::Unavailable)
    &&& entry_is(t[4], "TUXEDO Stellaris 15 Gen3 Intel"@, "STELLARIS1XI03"@, Platform::Uniwill, 2, FanControlType::Direct, 200, KeyboardType::IteHid(IteModel::Ite8291), true, ChargingCapability::EcProfilePriority, GpuPowerCapability::Nb02Nvidia)
    &&& entry_is(t[5], "TUXEDO Stellaris 15 Gen3 AMD"@, "STELLARIS1XA03"@, Platform::Uniwill, 2, FanControlType::Direct, 200, KeyboardType::IteHid(IteModel::Ite8291), true, ChargingCapability::EcProfilePriority, GpuPowerCapability::Nb02Nvidia)
    &&& entry_is(t[6], "TUXEDO Stellaris 15 Gen4 Intel"@, "STELLARIS1XI04"@, Platform::Uniwill, 2, FanControlType::Direct, 200, KeyboardType::IteHid(IteModel::Ite8291), true, ChargingCapability::EcProfilePriority, GpuPowerCapability::Nb02Nvidia)
    &&& entry_is(t[7], "TUXEDO Stellaris/Polaris Gen4 AMD"@, "STEPOL1XA04"@, Platform::Uniwill, 2, FanControlType::Direct, 200, KeyboardType::IteHid(IteModel::Ite8291), true, ChargingCapability::EcProfilePriority, GpuPowerCapability::Nb02Nvidia)
    &&& entry_is(t[8], "TUXEDO Stellaris 15 Gen5 Intel"@, "STELLARIS1XI05"@, Platform::Uniwill, 2, FanControlType::Direct, 200, KeyboardType::IteHid(IteModel::Ite8291), true, ChargingCapability::EcProfilePriority, GpuPowerCapability::Nb02Nvidia)
    &&& entry_is(t[9], "TUXEDO Stellaris 15 Gen5 AMD"@, "STELLARIS1XA05"@, Platform::Uniwill, 2, FanControlType::Direct, 200, KeyboardType::IteHid(IteModel::Ite8291), true, ChargingCapability::EcProfilePriority, GpuPowerCapability::Nb02Nvidia)
    &&& entry_is(t[10], "TUXEDO Stellaris 16 Gen6 Intel"@, "STELLARIS16I06"@, Platform::Uniwill, 2, FanControlType::Direct, 200, KeyboardType::IteHid(IteModel::Ite8291), true, ChargingCapability::EcProfilePriority, GpuPowerCapability::Nb02Nvidia)
    &&& entry_is(t[11], "TUXEDO Stellaris Slim 15 Gen6 Intel"@, "STELLSL15I06"@, Platform::Uniwill, 2, FanControlType::Direct, 200, KeyboardType::IteHid(IteModel::Ite8291), true, ChargingCapability::EcProfilePriority, GpuPowerCapability::Nb02Nvidia)
    &&& entry_is(t[12], "TUXEDO Stellaris Slim 15 Gen6 AMD"@, "STELLSL15A06"@, Platform::Uniwill, 2, FanControlType::Direct, 200, KeyboardType::IteHid(IteModel::Ite8291), true, ChargingCapability::EcProfilePriority, GpuPowerCapability::Nb02Nvidia)
    &&& entry_is(t[13], "TUXEDO Stellaris 17 Gen6 Intel"@, "STELLARIS17I06"@, Platform::Uniwill, 2, FanControlType::Direct, 200, KeyboardType::IteHid(IteModel::Ite8291), true, ChargingCapability::EcProfilePriority, GpuPowerCapability::Nb02Nvidia)
    &&& entry_is(t[14], "TUXEDO Stellaris 16 Gen7 Intel"@, "STELLARIS16I07"@, Platform::Uniwill, 2, FanControlType::Direct, 200, KeyboardType::IteHid(IteModel::Ite8291), true, ChargingCapability::EcProfilePriority, GpuPowerCapability::Nb02Nvidia)
    &&& entry_is(t[15], "TUXEDO Stellaris 16 Gen7 AMD"@, "STELLARIS16A07"@, Platform::Uniwill, 2, FanControlType::Direct, 200, KeyboardType::IteHid(IteModel::Ite8291), true, ChargingCapability::EcProfilePriority, GpuPowerCapability::Nb02Nvidia)
    &&& entry_is(t[16], "TUXEDO Polaris 15 Gen2 Intel"@, "POLARIS1XI02"@, Platform::Uniwill, 2, FanControlType::Direct, 200, KeyboardType::Rgb3Zone, true, ChargingCapability::EcProfilePriority, GpuPowerCapability::Nb02Nvidia)
    &&& entry_is(t[17], "TUXEDO Polaris 15 Gen2 AMD"@, "POLARIS1XA02"@, Platform::Uniwill, 2, FanControlType::Direct, 200, KeyboardType::Rgb3Zone, true, ChargingCapability::EcProfilePriority, GpuPowerCapability::Nb02Nvidia)
    &&& entry_is(t[18], "TUXEDO Polaris 15 Gen3 Intel"@, "POLARIS1XI03"@, Platform::Uniwill, 2, FanControlType::Direct, 200, KeyboardType::IteHid(IteModel::Ite8291), true, ChargingCapability::EcProfilePriority, GpuPowerCapability::Nb02Nvidia)
    &&& entry_is(t[19], "TUXEDO Polaris 15 Gen3 AMD"@, "POLARIS1XA03"@, Platform::Uniwill, 2, FanControlType::Direct, 200, KeyboardType::IteHid(IteModel::Ite8291), true, ChargingCapability::EcProfilePriority, GpuPowerCapability::Nb02Nvidia)
    &&& entry_is(t[20], "TUXEDO Polaris 15 Gen5 AMD"@, "POLARIS1XA05"@, Platform::Uniwill, 2, FanControlType::Direct, 200, KeyboardType::IteHid(IteModel::Ite8291), true, ChargingCapability::EcProfilePriority, GpuPowerCapability::Nb02Nvidia)
    &&& entry_is(t[21], "TUXEDO InfinityBook Pro Gen7 MK1"@, "IBP1XI07MK1"@, Platform::Uniwill, 2, FanControlType::Direct, 200, KeyboardType::White, false, ChargingCapability::EcProfilePriority, GpuPowerCapability::Unavailable)
    &&& entry_is(t[22], "TUXEDO InfinityBook Pro Gen7 MK2"@, "IBP1XI07MK2"@, Platform::Uniwill, 2, FanControlType::Direct, 200, KeyboardType::White, false, ChargingCapability::EcProfilePriority, GpuPowerCapability::Unavailable)
    &&& entry_is(t[23], "TUXEDO InfinityBook Pro Gen8 MK1"@, "IBP1XI08MK1"@, Platform::Uniwill, 2, FanControlType::Direct, 200, KeyboardType::White, false, ChargingCapability::EcProfilePriority, GpuPowerCapability::Unavailable)
    &&& entry_is(t[24], "TUXEDO InfinityBook Pro Gen8 MK2"@, "IBP1XI08MK2"@, Platform::Uniwill, 2, FanControlType::Direct, 200, KeyboardType::White, false, ChargingCapability::EcProfilePriority, GpuPowerCapability::Unavailable)
    &&& entry_is(t[25], "TUXEDO InfinityBook Pro 14 Gen8 MK2"@, "IBP14I08MK2"@, Platform::Uniwill, 2, FanControlType::Direct, 200, KeyboardType::IteHid(IteModel::Ite8291), false, ChargingCapability::EcProfilePriority, GpuPowerCapability::Unavailable)
    &&& entry_is(t[26], "TUXEDO InfinityBook Pro 16 Gen8 MK2"@, "IBP16I08MK2"@, Platform::Uniwill, 2, FanControlType::Direct, 200, KeyboardType::IteHid(IteModel::Ite8291), false, ChargingCapability::EcProfilePriority, GpuPowerCapability::Unavailable)
    &&& entry_is(t[27], "TUXEDO OMNIA Gen8 MK2"@, "OMNIA08IMK2"@, Platform::Uniwill, 2, FanControlType::Direct, 200, KeyboardType::IteHid(IteModel::Ite8291), false, ChargingCapability::EcProfilePriority, GpuPowerCapability::Unavailable)
    &&& entry_is(t[28], "TUXEDO InfinityBook S 14 Gen8"@, "IBS14I08"@, Platform::Uniwill, 1, FanControlType::Direct, 200, KeyboardType::White, false, ChargingCapability::EcProfilePriority, GpuPowerCapability::Unavailable)
    &&& entry_is(t[29], "TUXEDO InfinityBook S 15 Gen8"@, "IBS15I08"@, Platform::Uniwill, 1, FanControlType::Direct, 200, KeyboardType::White, false, ChargingCapability::EcProfilePriority, GpuPowerCapability::Unavailable)
    &&& entry_is(t[30], "TUXEDO InfinityBook Pro 14 Gen7"@, "IBP14I07"@, Platform::Uniwill, 2, FanControlType::Direct, 200, KeyboardType::White, false, ChargingCapability::EcProfilePriority, GpuPowerCapability::Unavailable)
    &&& entry_is(t[31], "TUXEDO InfinityBook Pro 15 Gen7"@, "IBP15I07"@, Platform::Uniwill, 2, FanControlType::Direct, 200, KeyboardType::White, false, ChargingCapability::EcProfilePriority, GpuPowerCapability::Unavailable)
    &&& entry_is(t[32], "TUXEDO Aura 14 Gen3"@, "AURA14GEN3"@, Platform::Clevo, 2, FanControlType::Direct, 255, KeyboardType::Rgb3Zone, false, ChargingCapability::Flexicharger, GpuPowerCapability::Unavailable)
    &&& entry_is(t[33], "TUXEDO Aura 15 Gen3"@, "AURA15GEN3"@, Platform::Clevo, 2, FanControlType::Direct, 255, KeyboardType::Rgb3Zone, false, ChargingCapability::Flexicharger, GpuPowerCapability::Unavailable)
    &&& entry_is(t[34], "TUXEDO Aura 14/15 Gen4"@, "AURA14GEN4 / AURA15GEN4"@, Platform::Clevo, 2, FanControlType::Direct, 255, KeyboardType::Rgb3Zone, false, ChargingCapability::Flexicharger, GpuPowerCapability::Unavailable)
    &&& entry_is(t[35], "TUXEDO Sirius 16 Gen1"@, "SIRIUS1601"@, Platform::Nb04, 2, FanControlType::ProfileOnly, 0, KeyboardType::IteHid(IteModel::Ite829x), true, ChargingCapability::Unavailable, GpuPowerCapability::Unavailable)
    &&& entry_is(t[36], "TUXEDO Sirius 16 Gen2"@, "SIRIUS1602"@, Platform::Nb04, 2, FanControlType::ProfileOnly, 0, KeyboardType::IteHid(IteModel::Ite829x), true, ChargingCapability::Unavailable, GpuPowerCapability::Unavailable)
    &&& entry_is(t[37], "TUXEDO Aura 15 Gen1 (Tuxi)"@, "AURA15GEN1T"@, Platform::Tuxi, 1, FanControlType::Direct, 255, KeyboardType::White, false, ChargingCapability::Unavailable, GpuPowerCapability::Unavailable)
    &&& entry_is(t[38], "TUXEDO Aura 15 Gen2 (Tuxi)"@, "AURA15GEN2T"@, Platform::Tuxi, 1, FanControlType::Direct, 255, KeyboardType::White, false, ChargingCapability::Unavailable, GpuPowerCapability::Unavailable)
}

/// Table of all known TUXEDO laptop models.
///
/// Each entry maps a DMI product SKU to a full description.
/// Adding a new laptop model = adding an entry here.
pub fn device_table() -> (r: Vec<DeviceDescriptor>)
    ensures
        is_device_table(r@),
        forall|i: int| 0 <= i < r@.len() ==> entry_is_consistent(#[trigger] r@[i]),
{
    let mut v: Vec<DeviceDescriptor> = Vec::new();
    v.push(entry("TUXEDO Pulse 14 Gen3", "PULSE1403", Platform::Nb05, 2, FanControlType::Direct, 184, KeyboardType::IteHid(IteModel::Ite8291), false, ChargingCapability::Unavailable, GpuPowerCapability::Unavailable));
    v.push(entry("TUXEDO Pulse 14 Gen4", "PULSE1404", Platform::Nb05, 2, FanControlType::Direct, 184, KeyboardType::IteHid(IteModel::Ite8291), false, ChargingCapability::Unavailable, GpuPowerCapability::Unavailable));
    v.push(entry("TUXEDO Pulse 15 Gen2", "PULSE1502", Platform::Nb05, 2, FanControlType::Direct, 184, KeyboardType::IteHid(IteModel::Ite8291), false, ChargingCapability::Unavailable, GpuPowerCapability::Unavailable));
    v.push(entry("TUXEDO InfinityFlex 14 Gen1", "IFLX14I01", Platform::Nb05, 1, FanControlType::Direct, 184, KeyboardType::IteHid(IteModel::Ite8291), false, ChargingCapability::Unavailable, GpuPowerCapability::Unavailable));
    v.push(entry("TUXEDO Stellaris 15 Gen3 Intel", "STELLARIS1XI03", Platform::Uniwill, 2, FanControlType::Direct, 200, KeyboardType::IteHid(IteModel::Ite8291), true, ChargingCapability::EcProfilePriority, GpuPowerCapability::Nb02Nvidia));
    v.push(entry("TUXEDO Stellaris 15 Gen3 AMD", "STELLARIS1XA03", Platform::Uniwill, 2, FanControlType::Direct, 200, KeyboardType::IteHid(IteModel::Ite8291), true, ChargingCapability::EcProfilePriority, GpuPowerCapability::Nb02Nvidia));
    v.push(entry("TUXEDO Stellaris 15 Gen4 Intel", "STELLARIS1XI04", Platform::Uniwill, 2, FanControlType::Direct, 200, KeyboardType::IteHid(IteModel::Ite8291), true, ChargingCapability::EcProfilePriority, GpuPowerCapability::Nb02Nvidia));
    v.push(entry("TUXEDO Stellaris/Polaris Gen4 AMD", "STEPOL1XA04", Platform::Uniwill, 2, FanControlType::Direct, 200, KeyboardType::IteHid(IteModel::Ite8291), true, ChargingCapability::EcProfilePriority, GpuPowerCapability::Nb02Nvidia));
    v.push(entry("TUXEDO Stellaris 15 Gen5 Intel", "STELLARIS1XI05", Platform::Uniwill, 2, FanControlType::Direct, 200, KeyboardType::IteHid(IteModel::Ite8291), true, ChargingCapability::EcProfilePriority, GpuPowerCapability::Nb02Nvidia));
    v.push(entry("TUXEDO Stellaris 15 Gen5 AMD", "STELLARIS1XA05", Platform::Uniwill, 2, FanControlType::Direct, 200, KeyboardType::IteHid(IteModel::Ite8291), true, ChargingCapability::EcProfilePriority, GpuPowerCapability::Nb02Nvidia));
    v.push(entry("TUXEDO Stellaris 16 Gen6 Intel", "STELLARIS16I06", Platform::Uniwill, 2, FanControlType::Direct, 200, KeyboardType::IteHid(IteModel::Ite8291), true, ChargingCapability::EcProfilePriority, GpuPowerCapability::Nb02Nvidia));
    v.push(entry("TUXEDO Stellaris Slim 15 Gen6 Intel", "STELLSL15I06", Platform::Uniwill, 2, FanControlType::Direct, 200, KeyboardType::IteHid(IteModel::Ite8291), true, ChargingCapability::EcProfilePriority, GpuPowerCapability::Nb02Nvidia));
    v.push(entry("TUXEDO Stellaris Slim 15 Gen6 AMD", "STELLSL15A06", Platform::Uniwill, 2, FanControlType::Direct, 200, KeyboardType::IteHid(IteModel::Ite8291), true, ChargingCapability::EcProfilePriority, GpuPowerCapability::Nb02Nvidia));
    v.push(entry("TUXEDO Stellaris 17 Gen6 Intel", "STELLARIS17I06", Platform::Uniwill, 2, FanControlType::Direct, 200, KeyboardType::IteHid(IteModel::Ite8291), true, ChargingCapability::EcProfilePriority, GpuPowerCapability::Nb02Nvidia));
    v.push(entry("TUXEDO Stellaris 16 Gen7 Intel", "STELLARIS16I07", Platform::Uniwill, 2, FanControlType::Direct, 200, KeyboardType::IteHid(IteModel::Ite8291), true, ChargingCapability::EcProfilePriority, GpuPowerCapability::Nb02Nvidia));
    v.push(entry("TUXEDO Stellaris 16 Gen7 AMD", "STELLARIS16A07", Platform::Uniwill, 2, FanControlType::Direct, 200, KeyboardType::IteHid(IteModel::Ite8291), true, ChargingCapability::EcProfilePriority, GpuPowerCapability::Nb02Nvidia));
    v.push(entry("TUXEDO Polaris 15 Gen2 Intel", "POLARIS1XI02", Platform::Uniwill, 2, FanControlType::Direct, 200, KeyboardType::Rgb3Zone, true, ChargingCapability::EcProfilePriority, GpuPowerCapability::Nb02Nvidia));
    v.push(entry("TUXEDO Polaris 15 Gen2 AMD", "POLARIS1XA02", Platform::Uniwill, 2, FanControlType::Direct, 200, KeyboardType::Rgb3Zone, true, ChargingCapability::EcProfilePriority, GpuPowerCapability::Nb02Nvidia));
    v.push(entry("TUXEDO Polaris 15 Gen3 Intel", "POLARIS1XI03", Platform::Uniwill, 2, FanControlType::Direct, 200, KeyboardType::IteHid(IteModel::Ite8291), true, ChargingCapability::EcProfilePriority, GpuPowerCapability::Nb02Nvidia));
    v.push(entry("TUXEDO Polaris 15 Gen3 AMD", "POLARIS1XA03", Platform::Uniwill, 2, FanControlType::Direct, 200, KeyboardType::IteHid(IteModel::Ite8291), true, ChargingCapability::EcProfilePriority, GpuPowerCapability::Nb02Nvidia));
    v.push(entry("TUXEDO Polaris 15 Gen5 AMD", "POLARIS1XA05", Platform::Uniwill, 2, FanControlType::Direct, 200, KeyboardType::IteHid(IteModel::Ite8291), true, ChargingCapability::EcProfilePriority, GpuPowerCapability::Nb02Nvidia));
    v.push(entry("TUXEDO InfinityBook Pro Gen7 MK1", "IBP1XI07MK1", Platform::Uniwill, 2, FanControlType::Direct, 200, KeyboardType::White, false, ChargingCapability::EcProfilePriority, GpuPowerCapability::Unavailable));
    v.push(entry("TUXEDO InfinityBook Pro Gen7 MK2", "IBP1XI07MK2", Platform::Uniwill, 2, FanControlType::Direct, 200, KeyboardType::White, false, ChargingCapability::EcProfilePriority, GpuPowerCapability::Unavailable));
    v.push(entry("TUXEDO InfinityBook Pro Gen8 MK1", "IBP1XI08MK1", Platform::Uniwill, 2, FanControlType::Direct, 200, KeyboardType::White, false, ChargingCapability::EcProfilePriority, GpuPowerCapability::Unavailable));
    v.push(entry("TUXEDO InfinityBook Pro Gen8 MK2", "IBP1XI08MK2", Platform::Uniwill, 2, FanControlType::Direct, 200, KeyboardType::White, false, ChargingCapability::EcProfilePriority, GpuPowerCapability::Unavailable));
    v.push(entry("TUXEDO InfinityBook Pro 14 Gen8 MK2", "IBP14I08MK2", Platform::Uniwill, 2, FanControlType::Direct, 200, KeyboardType::IteHid(IteModel::Ite8291), false, ChargingCapability::EcProfilePriority, GpuPowerCapability::Unavailable));
    v.push(entry("TUXEDO InfinityBook Pro 16 Gen8 MK2", "IBP16I08MK2", Platform::Uniwill, 2, FanControlType::Direct, 200, KeyboardType::IteHid(IteModel::Ite8291), false, ChargingCapability::EcProfilePriority, GpuPowerCapability::Unavailable));
    v.push(entry("TUXEDO OMNIA Gen8 MK2", "OMNIA08IMK2", Platform::Uniwill, 2, FanControlType::Direct, 200, KeyboardType::IteHid(IteModel::Ite8291), false, ChargingCapability::EcProfilePriority, GpuPowerCapability::Unavailable));
    v.push(entry("TUXEDO InfinityBook S 14 Gen8", "IBS14I08", Platform::Uniwill, 1, FanControlType::Direct, 200, KeyboardType::White, false, ChargingCapability::EcProfilePriority, GpuPowerCapability::Unavailable));
    v.push(entry("TUXEDO InfinityBook S 15 Gen8", "IBS15I08", Platform::Uniwill, 1, FanControlType::Direct, 200, KeyboardType::White, false, ChargingCapability::EcProfilePriority, GpuPowerCapability::Unavailable));
    v.push(entry("TUXEDO InfinityBook Pro 14 Gen7", "IBP14I07", Platform::Uniwill, 2, FanControlType::Direct, 200, KeyboardType::White, false, ChargingCapability::EcProfilePriority, GpuPowerCapability::Unavailable));
    v.push(entry("TUXEDO InfinityBook Pro 15 Gen7", "IBP15I07", Platform::Uniwill, 2, FanControlType::Direct, 200, KeyboardType::White, false, ChargingCapability::EcProfilePriority, GpuPowerCapability::Unavailable));
    v.push(entry("TUXEDO Aura 14 Gen3", "AURA14GEN3", Platform::Clevo, 2, FanControlType::Direct, 255, KeyboardType::Rgb3Zone, false, ChargingCapability::Flexicharger, GpuPowerCapability::Unavailable));
    v.push(entry("TUXEDO Aura 15 Gen3", "AURA15GEN3", Platform::Clevo, 2, FanControlType::Direct, 255, KeyboardType::Rgb3Zone, false, ChargingCapability::Flexicharger, GpuPowerCapability::Unavailable));
    v.push(entry("TUXEDO Aura 14/15 Gen4", "AURA14GEN4 / AURA15GEN4", Platform::Clevo, 2, FanControlType::Direct, 255, KeyboardType::Rgb3Zone, false, ChargingCapability::Flexicharger, GpuPowerCapability::Unavailable));
    v.push(entry("TUXEDO Sirius 16 Gen1", "SIRIUS1601", Platform::Nb04, 2, FanControlType::ProfileOnly, 0, KeyboardType::IteHid(IteModel::Ite829x), true, ChargingCapability::Unavailable, GpuPowerCapability::Unavailable));
    v.push(entry("TUXEDO Sirius 16 Gen2", "SIRIUS1602", Platform::Nb04, 2, FanControlType::ProfileOnly, 0, KeyboardType::IteHid(IteModel::Ite829x), true, ChargingCapability::Unavailable, GpuPowerCapability::Unavailable));
    v.push(entry("TUXEDO Aura 15 Gen1 (Tuxi)", "AURA15GEN1T", Platform::Tuxi, 1, FanControlType::Direct, 255, KeyboardType::White, false, ChargingCapability::Unavailable, GpuPowerCapability::Unavailable));
    v.push(entry("TUXEDO Aura 15 Gen2 (Tuxi)", "AURA15GEN2T", Platform::Tuxi, 1, FanControlType::Direct, 255, KeyboardType::White, false, ChargingCapability::Unavailable, GpuPowerCapability::Unavailable));
    let r = v;
    assert forall|i: int| 0 <= i < r@.len() implies entry_is_consistent(#[trigger] r@[i]) by {
        if i == 0 {
        } else if i == 1 {
        } else if i == 2 {
        } else if i == 3 {
        } else if i == 4 {
        } else if i == 5 {
        } else if i == 6 {
        } else if i == 7 {
        } else if i == 8 {
        } else if i == 9 {
        } else if i == 10 {
        } else if i == 11 {
        } else if i == 12 {
        } else if i == 13 {
        } else if i == 14 {
        } else if i == 15 {
        } else if i == 16 {
        } else if i == 17 {
        } else if i == 18 {
        } else if i == 19 {
        } else if i == 20 {
        } else if i == 21 {
        } else if i == 22 {
        } else if i == 23 {
        } else if i == 24 {
        } else if i == 25 {
        } else if i == 26 {
        } else if i == 27 {
        } else if i == 28 {
        } else if i == 29 {
        } else if i == 30 {
        } else if i == 31 {
        } else if i == 32 {
        } else if i == 33 {
        } else if i == 34 {
        } else if i == 35 {
        } else if i == 36 {
        } else if i == 37 {
        } else if i == 38 {
        }
    }
    r
}

/// Get the fallback descriptor for a platform (conservative capabilities).
pub fn fallback_for_platform(platform: Platform) -> (r: DeviceDescriptor)
    ensures
        fallback_is(r, platform),
        r.platform == platform,
        r.product_sku@.len() == 0,
        r.fans.count >= 1,
        entry_is_consistent(r),
{
    let r = match platform {
        Platform::Nb05 => entry("Unknown NB05 Device", "", Platform::Nb05, 1, FanControlType::Direct, 184, KeyboardType::Unavailable, false, ChargingCapability::Unavailable, GpuPowerCapability::Unavailable),
        Platform::Uniwill => entry("Unknown Uniwill Device", "", Platform::Uniwill, 1, FanControlType::Direct, 200, KeyboardType::Unavailable, false, ChargingCapability::Unavailable, GpuPowerCapability::Unavailable),
        Platform::Clevo => entry("Unknown Clevo Device", "", Platform::Clevo, 1, FanControlType::Direct, 255, KeyboardType::Unavailable, false, ChargingCapability::Unavailable, GpuPowerCapability::Unavailable),
        Platform::Nb04 => entry("Unknown NB04 Device", "", Platform::Nb04, 1, FanControlType::ProfileOnly, 0, KeyboardType::Unavailable, false, ChargingCapability::Unavailable, GpuPowerCapability::Unavailable),
        Platform::Tuxi => entry("Unknown Tuxi Device", "", Platform::Tuxi, 1, FanControlType::Direct, 255, KeyboardType::Unavailable, false, ChargingCapability::Unavailable, GpuPowerCapability::Unavailable),
    };
    proof {
        reveal_strlit("");
    }
    r
}

/// Known models together with custom overrides registered at startup.
///
/// Custom devices take precedence over the built-in table.
#[derive(Debug)]
pub struct DeviceRegistry {
    /// Custom device descriptions, in registration order.
    pub custom: Vec<DeviceDescriptor>,
    /// The built-in table.
    pub table: Vec<DeviceDescriptor>,
}

/// All descriptions in search order: custom ones first, then the table.
pub open spec fn search_order(r: DeviceRegistry) -> Seq<DeviceDescriptor> {
    r.custom@ + r.table@
}

/// Index of the first description at or after `from` with product SKU
/// `sku`, or -1.
pub open spec fn first_with_sku(entries: Seq<DeviceDescriptor>, sku: Seq<char>, from: int) -> int
    decreases entries.len() - from,
{
    if from < 0 || from >= entries.len() {
        -1
    } else if entries[from].product_sku@ == sku {
        from
    } else {
        first_with_sku(entries, sku, from + 1)
    }
}

/// The descriptions from index `from` on whose platform is `p`, in order.
pub open spec fn with_platform(entries: Seq<DeviceDescriptor>, p: Platform, from: int) -> Seq<
    DeviceDescriptor,
>
    decreases entries.len() - from,
{
    if from < 0 || from >= entries.len() {
        seq![]
    } else if entries[from].platform == p {
        seq![entries[from]] + with_platform(entries, p, from + 1)
    } else {
        with_platform(entries, p, from + 1)
    }
}

impl DeviceRegistry {
    /// The built-in table without custom devices.
    pub fn new() -> (r: DeviceRegistry)
        ensures
            r.custom@.len() == 0,
            is_device_table(r.table@),
            forall|i: int| 0 <= i < r.table@.len() ==> entry_is_consistent(#[trigger] r.table@[i]),
    {
        DeviceRegistry { custom: Vec::new(), table: device_table() }
    }
}

/// Registers a dynamically loaded device descriptor (e.g. from TOML overrides).
pub fn register_custom_device(registry: &mut DeviceRegistry, device: DeviceDescriptor)
    ensures
        final(registry).custom@ == old(registry).custom@.push(device),
        final(registry).table@ == old(registry).table@,
{
    registry.custom.push(device);
}

/// Find device by exact DMI product SKU match, custom devices first.
pub fn lookup_by_sku<'a>(registry: &'a DeviceRegistry, sku: &str) -> (r: Option<&'a DeviceDescriptor>)
    ensures
        first_with_sku(search_order(*registry), sku@, 0) == -1 ==> r is None,
        first_with_sku(search_order(*registry), sku@, 0) != -1 ==> (r matches Some(d) && *d
            == search_order(*registry)[first_with_sku(search_order(*registry), sku@, 0)]),
{
    let key: String = sku.to_owned();
    let ghost all = search_order(*registry);
    let c = registry.custom.len();
    let mut k: usize = 0;
    while k < c
        invariant
            c == registry.custom@.len(),
            all == search_order(*registry),
            key@ == sku@,
            k <= c,
            first_with_sku(all, sku@, 0) == first_with_sku(all, sku@, k as int),
        decreases c - k,
    {
        let d = &registry.custom[k];
        assert(*d == all[k as int]);
        if d.product_sku == key {
            return Some(d);
        }
        k = k + 1;
    }
    let t = registry.table.len();
    let mut j: usize = 0;
    while j < t
        invariant
            c == registry.custom@.len(),
            t == registry.table@.len(),
            all == search_order(*registry),
            key@ == sku@,
            j <= t,
            first_with_sku(all, sku@, 0) == first_with_sku(all, sku@, c + j),
        decreases t - j,
    {
        let d = &registry.table[j];
        assert(*d == all[c + j]);
        if d.product_sku == key {
            return Some(d);
        }
        j = j + 1;
    }
    None
}

/// Find all devices for a given platform, custom devices first.
pub fn devices_for_platform<'a>(registry: &'a DeviceRegistry, platform: Platform) -> (r: Vec<
    &'a DeviceDescriptor,
>)
    ensures
        r@.map_values(|d: &DeviceDescriptor| *d) == with_platform(search_order(*registry), platform, 0),
{
    let ghost all = search_order(*registry);
    let mut out: Vec<&'a DeviceDescriptor> = Vec::new();
    let c = registry.custom.len();
    let mut k: usize = 0;
    while k < c
        invariant
            c == registry.custom@.len(),
            all == search_order(*registry),
            k <= c,
            out@.map_values(|d: &DeviceDescriptor| *d) + with_platform(all, platform, k as int)
                == with_platform(all, platform, 0),
        decreases c - k,
    {
        let d = &registry.custom[k];
        assert(*d == all[k as int]);
        let ghost before = out@.map_values(|d: &DeviceDescriptor| *d);
        if d.platform == platform {
            out.push(d);
            assert(out@.map_values(|d: &DeviceDescriptor| *d) =~= before.push(*d));
            assert(before.push(*d) + with_platform(all, platform, k + 1) =~= before + (seq![*d]
                + with_platform(all, platform, k + 1)));
        }
        k = k + 1;
    }
    let t = registry.table.len();
    let mut j: usize = 0;
    while j < t
        invariant
            c == registry.custom@.len(),
            t == registry.table@.len(),
            all == search_order(*registry),
            j <= t,
            out@.map_values(|d: &DeviceDescriptor| *d) + with_platform(all, platform, c + j)
                == with_platform(all, platform, 0),
        decreases t - j,
    {
        let d = &registry.table[j];
        assert(*d == all[c + j]);
        let ghost before = out@.map_values(|d: &DeviceDescriptor| *d);
        if d.platform == platform {
            out.push(d);
            assert(out@.map_values(|d: &DeviceDescriptor| *d) =~= before.push(*d));
            assert(before.push(*d) + with_platform(all, platform, c + j + 1) =~= before + (seq![*d]
                + with_platform(all, platform, c + j + 1)));
        }
        j = j + 1;
    }
    assert(with_platform(all, platform, c + t) =~= Seq::<DeviceDescriptor>::empty());
    assert(out@.map_values(|d: &DeviceDescriptor| *d) + Seq::<DeviceDescriptor>::empty()
        =~= out@.map_values(|d: &DeviceDescriptor| *d));
    out
}

// ── Laws ─────────────────────────────────────────────────────────────────

/// Every description that `with_platform` keeps has the platform asked for.
pub proof fn law_with_platform_keeps_platform(entries: Seq<DeviceDescriptor>, p: Platform, from: int)
    requires
        0 <= from,
    ensures
        forall|i: int| 0 <= i < with_platform(entries, p, from).len() ==> (#[trigger] with_platform(entries, p, from)[i]).platform == p,
    decreases entries.len() - from,
{
    if from < entries.len() {
        law_with_platform_keeps_platform(entries, p, from + 1);
        let rest = with_platform(entries, p, from + 1);
        if entries[from].platform == p {
            assert forall|i: int| 0 <= i < with_platform(entries, p, from).len() implies (#[trigger] with_platform(entries, p, from)[i]).platform == p by {
                if i > 0 {
                    assert(with_platform(entries, p, from)[i] == rest[i - 1]);
                }
            }
        }
    }
}

/// A description of platform `p` at or after `from` makes `with_platform`
/// non-empty.
pub proof fn lemma_with_platform_non_empty(entries: Seq<DeviceDescriptor>, p: Platform, from: int, w: int)
    requires
        0 <= from <= w < entries.len(),
        entries[w].platform == p,
    ensures
        with_platform(entries, p, from).len() > 0,
    decreases w - from,
{
    if entries[from].platform != p {
        lemma_with_platform_non_empty(entries, p, from + 1, w);
    }
}

/// Law: in the built-in table, every platform has at least one model.
pub proof fn law_every_platform_has_a_model(r: DeviceRegistry, p: Platform)
    requires
        is_device_table(r.table@),
    ensures
        with_platform(search_order(r), p, 0).len() > 0,
{
    let all = search_order(r);
    let c = r.custom@.len() as int;
    let w: int = match p {
        Platform::Nb05 => 0,
        Platform::Uniwill => 4,
        Platform::Clevo => 32,
        Platform::Nb04 => 35,
        Platform::Tuxi => 37,
    };
    assert(all[c + w] == r.table@[w]);
    lemma_with_platform_non_empty(all, p, 0, c + w);
}

/// Law: a lookup that finds a description finds one with the SKU asked for.
pub proof fn law_lookup_matches_sku(entries: Seq<DeviceDescriptor>, sku: Seq<char>, from: int)
    requires
        0 <= from,
    ensures
        first_with_sku(entries, sku, from) != -1 ==> entries[first_with_sku(entries, sku, from)].product_sku@ == sku,
        first_with_sku(entries, sku, from) == -1 ==> forall|i: int| from <= i < entries.len() ==> (#[trigger] entries[i]).product_sku@ != sku,
    decreases entries.len() - from,
{
    if from < entries.len() && entries[from].product_sku@ != sku {
        law_lookup_matches_sku(entries, sku, from + 1);
    }
}

/// Law: a registered custom device takes precedence over the table: a
/// lookup of its SKU finds a custom description.
pub proof fn law_custom_device_overrides_table(r: DeviceRegistry, k: int)
    requires
        0 <= k < r.custom@.len(),
    ensures
        0 <= first_with_sku(search_order(r), r.custom@[k].product_sku@, 0) <= k,
{
    lemma_first_with_sku_before(search_order(r), r.custom@[k].product_sku@, 0, k);
}

proof fn lemma_first_with_sku_before(entries: Seq<DeviceDescriptor>, sku: Seq<char>, from: int, w: int)
    requires
        0 <= from <= w < entries.len(),
        entries[w].product_sku@ == sku,
    ensures
        from <= first_with_sku(entries, sku, from) <= w,
    decreases w - from,
{
    if entries[from].product_sku@ != sku {
        lemma_first_with_sku_before(entries, sku, from + 1, w);
    }
}

} // verus!
