use tux_rs::cpu::sampler::{parse_stat, CpuJiffies, CpuSampler, LoadDelta, StatLine, stat_line_kind};
use tux_rs::cpu::tdp::{
    build_backend, clamp_watts, ec_limit_byte, rapl_bounds, rapl_limit_uw, rapl_zone_matches,
    uw_to_w, TdpBackend, TdpChoice,
};
use tux_rs::cpu::governor::{check_governor, is_cpu_dir_name, parse_available_governors, write_all_outcome};
use tux_rs::dbus::cpu::CpuInterface;
use tux_rs::dbus::BusError;
use tux_rs::device::{
    ChargingCapability, DeviceDescriptor, FanCapability, FanControlType, GpuPowerCapability,
    KeyboardType, SensorSet, TdpBounds, TdpSource,
};
use tux_rs::error::{IoError, IoErrorKind};
use tux_rs::platform::Platform;
use tux_rs::registers::PlatformRegisters;

const SAMPLE_PROC_STAT_1: &str = "\
cpu  10000 200 3000 80000 500 100 50 10 0 0
cpu0 2500 50 750 20000 125 25 12 2 0 0
cpu1 2500 50 750 20000 125 25 13 3 0 0
cpu2 2500 50 750 20000 125 25 12 2 0 0
cpu3 2500 50 750 20000 125 25 13 3 0 0
intr 12345678
";

const SAMPLE_PROC_STAT_2: &str = "\
cpu  15000 200 5000 82000 500 100 50 10 0 0
cpu0 4000 50 1250 20500 125 25 12 2 0 0
cpu1 3500 50 1250 20500 125 25 13 3 0 0
cpu2 4000 50 1250 20500 125 25 12 2 0 0
cpu3 3500 50 1250 20500 125 25 13 3 0 0
intr 23456789
";

fn lines(text: &str) -> Vec<String> {
    text.lines().map(|l| l.to_string()).collect()
}

#[test]
fn parse_jiffies_minimal() {
    let j = CpuJiffies::parse("cpu  100 0 50 800 0 0 0 0").unwrap();
    assert_eq!(j.user, 100);
    assert_eq!(j.system, 50);
    assert_eq!(j.idle, 800);
    assert_eq!(j.total(), 950);
}

#[test]
fn parse_jiffies_only_four_fields() {
    let j = CpuJiffies::parse("cpu0 100 0 50 800").unwrap();
    assert_eq!(j.iowait, 0);
    assert_eq!(j.steal, 0);
}

#[test]
fn parse_non_cpu_line_returns_none() {
    assert!(CpuJiffies::parse("intr 12345").is_none());
}

#[test]
fn parse_too_few_fields_returns_none() {
    assert!(CpuJiffies::parse("cpu 1 2 3").is_none());
    assert!(CpuJiffies::parse("").is_none());
}

#[test]
fn stat_line_kinds() {
    assert_eq!(stat_line_kind("cpu  1 2 3 4"), StatLine::Aggregate);
    assert_eq!(stat_line_kind("cpu7 1 2 3 4"), StatLine::Core);
    assert_eq!(stat_line_kind("cpufoo"), StatLine::OtherCpu);
    assert_eq!(stat_line_kind("intr 5"), StatLine::Other);
}

#[test]
fn first_sample_returns_zero() {
    let (overall, cores) = parse_stat(&lines(SAMPLE_PROC_STAT_1)).unwrap();
    assert_eq!(cores.len(), 4);
    let mut sampler = CpuSampler::new("/proc/stat");
    let (o, c) = sampler.record(overall, cores);
    assert!(o.is_none());
    assert_eq!(c.len(), 4);
    assert!(c.iter().all(|d| d.is_none()));
}

#[test]
fn second_sample_computes_delta() {
    let mut sampler = CpuSampler::new("/proc/stat");
    let (o1, c1) = parse_stat(&lines(SAMPLE_PROC_STAT_1)).unwrap();
    let _ = sampler.record(o1, c1);
    let (o2, c2) = parse_stat(&lines(SAMPLE_PROC_STAT_2)).unwrap();
    let (overall, per_core) = sampler.record(o2, c2);
    assert_eq!(overall, Some(LoadDelta { busy: 7000, total: 9000 }));
    assert_eq!(per_core.len(), 4);
    for d in per_core {
        let d = d.unwrap();
        assert!(d.busy > 0 && d.busy <= d.total);
    }
}

#[test]
fn identical_samples_give_zero() {
    let mut sampler = CpuSampler::new("/proc/stat");
    let (o1, c1) = parse_stat(&lines(SAMPLE_PROC_STAT_1)).unwrap();
    let _ = sampler.record(o1, c1.clone());
    let (overall, per_core) = sampler.record(o1, c1);
    assert_eq!(overall, Some(LoadDelta { busy: 0, total: 0 }));
    assert!(per_core.iter().all(|d| *d == Some(LoadDelta { busy: 0, total: 0 })));
}

#[test]
fn full_load_sample() {
    let idle = "cpu  1000 0 0 9000 0 0 0 0 0 0\ncpu0 500 0 0 4500 0 0 0 0 0 0\ncpu1 500 0 0 4500 0 0 0 0 0 0\nintr 0\n";
    let busy = "cpu  6000 0 0 9000 0 0 0 0 0 0\ncpu0 3000 0 0 4500 0 0 0 0 0 0\ncpu1 3000 0 0 4500 0 0 0 0 0 0\nintr 0\n";
    let mut sampler = CpuSampler::system();
    assert_eq!(sampler.proc_stat_path(), "/proc/stat");
    let (o1, c1) = parse_stat(&lines(idle)).unwrap();
    let _ = sampler.record(o1, c1);
    let (o2, c2) = parse_stat(&lines(busy)).unwrap();
    let (overall, per_core) = sampler.record(o2, c2);
    assert_eq!(overall, Some(LoadDelta { busy: 5000, total: 5000 }));
    assert_eq!(per_core, vec![Some(LoadDelta { busy: 2500, total: 2500 }); 2]);
}

#[test]
fn stat_without_aggregate_line_is_malformed() {
    let err = parse_stat(&lines("cpu0 1 2 3 4\nintr 0\n")).unwrap_err();
    assert_eq!(err.kind, IoErrorKind::InvalidData);
}

fn test_bounds() -> TdpBounds {
    TdpBounds { pl1_min: 5, pl1_max: 28, pl2_min: 10, pl2_max: 40, pl4_min: None, pl4_max: None }
}

fn test_descriptor(tdp_source: TdpSource, tdp: Option<TdpBounds>) -> DeviceDescriptor {
    DeviceDescriptor {
        name: "Test Device".to_string(),
        product_sku: "TEST_TDP".to_string(),
        platform: Platform::Uniwill,
        fans: FanCapability { count: 1, control: FanControlType::Direct, pwm_scale: 200 },
        keyboard: KeyboardType::Unavailable,
        sensors: SensorSet { cpu_temp: true, gpu_temp: false, fan_rpm: vec![true] },
        charging: ChargingCapability::Unavailable,
        tdp,
        tdp_source,
        gpu_power: GpuPowerCapability::Unavailable,
        registers: PlatformRegisters::Uniwill,
    }
}

#[test]
fn factory_none_returns_none() {
    let desc = test_descriptor(TdpSource::Unavailable, None);
    assert!(build_backend(&desc, false, None).is_none());
}

#[test]
fn factory_none_ignores_bounds() {
    let desc = test_descriptor(TdpSource::Unavailable, Some(test_bounds()));
    assert!(build_backend(&desc, true, Some(test_bounds())).is_none());
}

#[test]
fn factory_ec_without_bounds_returns_none() {
    let desc = test_descriptor(TdpSource::Ec, None);
    assert!(build_backend(&desc, true, None).is_none());
}

#[test]
fn factory_rapl_without_sysfs_returns_none() {
    let desc = test_descriptor(TdpSource::Rapl, None);
    assert!(build_backend(&desc, false, None).is_none());
}

#[test]
fn factory_selects_each_source() {
    let ec = test_descriptor(TdpSource::Ec, Some(test_bounds()));
    assert_eq!(build_backend(&ec, true, None), Some(TdpChoice::Ec(test_bounds())));
    assert!(build_backend(&ec, false, Some(test_bounds())).is_none());
    let rapl = test_descriptor(TdpSource::Rapl, Some(test_bounds()));
    let probed = rapl_bounds(28_000_000, 40_000_000);
    assert_eq!(build_backend(&rapl, true, Some(probed)), Some(TdpChoice::Rapl(probed)));
}

#[test]
fn power_limit_arithmetic() {
    assert_eq!(clamp_watts(20, 5, 28), 20);
    assert_eq!(clamp_watts(1, 5, 28), 5);
    assert_eq!(clamp_watts(100, 5, 28), 28);
    assert_eq!(ec_limit_byte(300, 5, 400), 44);
    assert_eq!(rapl_limit_uw(20, 1, 28), 20_000_000);
    assert_eq!(rapl_limit_uw(0, 1, 28), 1_000_000);
    assert_eq!(rapl_limit_uw(5000, 1, 5000), u32::MAX);
    assert_eq!(uw_to_w(28_500_000), 28);
}

#[test]
fn rapl_probe_reads_bounds() {
    let b = rapl_bounds(28_000_000, 40_000_000);
    assert_eq!(b.pl1_min, 1);
    assert_eq!(b.pl1_max, 28);
    assert_eq!(b.pl2_min, 1);
    assert_eq!(b.pl2_max, 40);
    let fallback = rapl_bounds(500_000, 0);
    assert_eq!(fallback.pl1_max, 1);
    assert_eq!(fallback.pl2_max, 1);
    assert!(rapl_zone_matches("package-0", "long_term", "short_term"));
    assert!(!rapl_zone_matches("psys", "long_term", "short_term"));
    assert!(!rapl_zone_matches("package-0", "peak_power", "short_term"));
}

struct NoGovernor;

struct FixedTdp {
    bounds: TdpBounds,
}

impl TdpBackend for FixedTdp {
    fn get_pl1(&self) -> Result<u32, IoError> {
        Ok(15)
    }
    fn set_pl1(&mut self, _watts: u32) -> Result<(), IoError> {
        Ok(())
    }
    fn get_pl2(&self) -> Result<u32, IoError> {
        Err(IoError { kind: IoErrorKind::Other, message: "busy".to_string() })
    }
    fn set_pl2(&mut self, _watts: u32) -> Result<(), IoError> {
        Ok(())
    }
    fn bounds(&self) -> &TdpBounds {
        &self.bounds
    }
}

#[test]
fn tdp_none_returns_zero_for_gets() {
    let iface: CpuInterface<NoGovernor, FixedTdp> = CpuInterface::new(NoGovernor, None);
    assert_eq!(iface.get_pl1().unwrap(), 0);
    assert_eq!(iface.get_pl2().unwrap(), 0);
}

#[test]
fn tdp_none_returns_error_for_sets() {
    let mut iface: CpuInterface<NoGovernor, FixedTdp> = CpuInterface::new(NoGovernor, None);
    assert!(iface.set_pl1(20).is_err());
    assert!(iface.set_pl2(30).is_err());
    assert!(matches!(iface.set_pl1(20), Err(BusError::NotSupported(_))));
}

#[test]
fn tdp_bounds_toml() {
    let iface = CpuInterface::new(NoGovernor, Some(FixedTdp { bounds: test_bounds() }));
    let toml = iface.get_tdp_bounds();
    assert!(toml.contains("pl1_min = 5"));
    assert!(toml.contains("pl1_max = 28"));
    assert_eq!(toml, "pl1_min = 5\npl1_max = 28\npl2_min = 10\npl2_max = 40\n");
    assert_eq!(iface.get_pl1().unwrap(), 15);
    assert!(matches!(iface.get_pl2(), Err(BusError::Failed(m)) if m == "busy"));
}

#[test]
fn governor_helpers() {
    assert!(is_cpu_dir_name("cpu0"));
    assert!(is_cpu_dir_name("cpu12"));
    assert!(!is_cpu_dir_name("cpufreq"));
    assert!(!is_cpu_dir_name("node0"));
    let available = parse_available_governors("performance powersave\n");
    assert_eq!(available, vec!["performance".to_string(), "powersave".to_string()]);
    assert!(check_governor("powersave", &available).is_ok());
    let err = check_governor("ondemand", &available).unwrap_err();
    assert_eq!(err.message, "governor 'ondemand' not available (available: performance, powersave)");
    assert!(write_all_outcome(vec![]).is_err());
    let e = IoError { kind: IoErrorKind::Other, message: "busy".to_string() };
    assert!(write_all_outcome(vec![Err(e.clone()), Ok(())]).is_ok());
    assert_eq!(write_all_outcome(vec![Err(e.clone())]).unwrap_err().message, "busy");
}

#[test]
fn load_delta_busy_never_exceeds_total() {
    let prev = CpuJiffies::parse("cpu  100 0 100 1000 0 0 0 0").unwrap();
    let cur = CpuJiffies::parse("cpu  150 0 120 1100 0 0 0 0").unwrap();
    let d = cur.delta_from(&prev);
    assert_eq!(d.total, 170);
    assert_eq!(d.busy, 70);
    // Idle counters that ran ahead of the total leave no busy time.
    let odd = CpuJiffies::parse("cpu  100 0 100 1200 0 0 0 0").unwrap();
    let d2 = odd.delta_from(&prev);
    assert_eq!(d2.total, 200);
    assert!(d2.busy <= d2.total);
}

#[test]
fn set_governor_invalid_returns_error() {
    // cpufreq reports "performance powersave schedutil\n" as available.
    let available = parse_available_governors("performance powersave schedutil\n");
    let err = check_governor("nonexistent", &available).unwrap_err();
    assert_eq!(err.kind, IoErrorKind::InvalidInput);
    assert!(err.message.contains("not available"));
}

#[test]
fn available_governors_parsed() {
    let avail = parse_available_governors("performance powersave schedutil\n");
    assert_eq!(avail, vec!["performance", "powersave", "schedutil"]);
}

#[test]
fn set_pl1_clamps_to_bounds() {
    // Bounds PL1 5–28 W.
    assert_eq!(ec_limit_byte(20, 5, 28), 20);
    assert_eq!(ec_limit_byte(1, 5, 28), 5);
    assert_eq!(ec_limit_byte(100, 5, 28), 28);
}

#[test]
fn set_pl2_clamps_to_bounds() {
    // Bounds PL2 10–40 W.
    assert_eq!(ec_limit_byte(35, 10, 40), 35);
    assert_eq!(ec_limit_byte(2, 10, 40), 10);
    assert_eq!(ec_limit_byte(99, 10, 40), 40);
}

#[test]
fn rapl_set_pl1_writes_microwatts() {
    // RAPL bounds from sysfs: PL1 1–28 W.
    assert_eq!(rapl_limit_uw(20, 1, 28), 20_000_000);
    assert_eq!(rapl_limit_uw(100, 1, 28), 28_000_000);
    assert_eq!(rapl_limit_uw(0, 1, 28), 1_000_000);
}

#[test]
fn rapl_set_pl2_writes_microwatts() {
    // RAPL bounds from sysfs: PL2 1–40 W.
    assert_eq!(rapl_limit_uw(35, 1, 40), 35_000_000);
    assert_eq!(rapl_limit_uw(250, 1, 40), 40_000_000);
    assert_eq!(rapl_limit_uw(0, 1, 40), 1_000_000);
}

#[test]
fn rapl_probe_rejects_wrong_name() {
    assert!(!rapl_zone_matches("psys", "long_term", "short_term"));
}

#[test]
fn rapl_probe_rejects_mismatched_constraint_name() {
    assert!(!rapl_zone_matches("package-0", "peak_power", "short_term"));
}
