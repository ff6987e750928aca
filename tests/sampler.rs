use system_monitor::model::TelemetrySnapshot;
use system_monitor::sampler::{
    bytes_to_mb, CoreReading, HostReadings, MotherboardIdentity, NetworkReading, Sampler,
    SamplerConfig, StartupError, SETTLING_DELAY_MS,
};

fn all_groups() -> SamplerConfig {
    SamplerConfig { memory: true, network: true, motherboard: true }
}

fn core_reading(name: &str, usage_hundredths: u32, frequency: u64) -> CoreReading {
    CoreReading {
        name: name.to_string(),
        brand: "Example CPU".to_string(),
        usage_hundredths,
        frequency,
    }
}

fn net(name: &str, total_received: u64, total_transmitted: u64) -> NetworkReading {
    NetworkReading {
        name: name.to_string(),
        mac_address: "00:11:22:33:44:55".to_string(),
        ipv4: None,
        received: 10,
        transmitted: 20,
        total_received,
        total_transmitted,
        mtu: 1500,
    }
}

fn readings(cores: Vec<CoreReading>, networks: Vec<NetworkReading>) -> HostReadings {
    HostReadings {
        os_name: Some("Linux".to_string()),
        os_version: None,
        kernel_version: Some("6.1".to_string()),
        hostname: Some("host".to_string()),
        motherboard: Some(MotherboardIdentity {
            name: Some("B550".to_string()),
            vendor_name: None,
            version: Some("1.0".to_string()),
            serial_number: None,
        }),
        cores,
        memory_total_bytes: 16 * 1024 * 1024 * 1024 + 5,
        memory_used_bytes: 3 * 1024 * 1024 + 1024 * 1024 - 1,
        networks,
    }
}

fn started() -> Sampler {
    match Sampler::start(all_groups(), "x86_64".to_string(), 2, true) {
        Ok(s) => s,
        Err(_) => panic!("sampler did not start"),
    }
}

#[test]
fn two_core_processor_uses_first_core_usage() {
    assert_eq!(SETTLING_DELAY_MS, 500);
    let mut sampler = started();
    let snap = sampler
        .pass(&readings(vec![core_reading("cpu0", 5000, 3600), core_reading("cpu1", 7500, 3400)], vec![]))
        .unwrap();
    assert_eq!(snap.processors.len(), 1);
    let p = &snap.processors[0];
    assert_eq!(p.cores.len(), 2);
    assert_eq!(p.total_usage_hundredths, 5000);
    assert_eq!(p.cores[0].usage_hundredths, 5000);
    assert_eq!(p.cores[1].usage_hundredths, 7500);
    assert_eq!(p.cores[1].frequency, 3400);
    assert_eq!(p.name, "cpu0");
    assert_eq!(p.brand, "Example CPU");
    assert_eq!(p.arch, "x86_64");
    assert!(snap.is_well_formed());
}

#[test]
fn missing_fields_become_sentinel() {
    let mut sampler = started();
    let snap = sampler.pass(&readings(vec![core_reading("cpu0", 100, 1)], vec![net("eth0", 1, 2)])).unwrap();
    assert_eq!(snap.os_name, "Linux");
    assert_eq!(snap.os_version, "N/A");
    assert_eq!(snap.kernel_version, "6.1");
    assert_eq!(snap.hostname, "host");
    assert_eq!(snap.motherboard_name, "B550");
    assert_eq!(snap.motherboard_vendor_name, "N/A");
    assert_eq!(snap.motherboard_version, "1.0");
    assert_eq!(snap.motherboard_serial_number, "N/A");
    assert_eq!(snap.networks[0].ipv4, "N/A");
}

#[test]
fn memory_is_truncated_to_whole_megabytes() {
    assert_eq!(bytes_to_mb(1024 * 1024 - 1), 0);
    assert_eq!(bytes_to_mb(5 * 1024 * 1024 + 7), 5);
    let mut sampler = started();
    let snap = sampler.pass(&readings(vec![core_reading("cpu0", 0, 0)], vec![])).unwrap();
    assert_eq!(snap.memory_total_mb, 16 * 1024);
    assert_eq!(snap.memory_used_mb, 3);
    assert!(snap.memory_used_mb <= snap.memory_total_mb);
}

#[test]
fn used_memory_never_exceeds_total_when_host_agrees() {
    let mut sampler = started();
    for (used, total) in [(0u64, 0u64), (1, 1), (1024 * 1024, 1024 * 1024), (u64::MAX - 1, u64::MAX)] {
        let mut r = readings(vec![core_reading("cpu0", 0, 0)], vec![]);
        r.memory_used_bytes = used;
        r.memory_total_bytes = total;
        let snap = sampler.pass(&r).unwrap();
        assert!(snap.memory_used_mb <= snap.memory_total_mb);
    }
}

#[test]
fn zero_cores_mid_run_publishes_nothing() {
    let mut sampler = started();
    assert!(sampler.pass(&readings(vec![], vec![net("eth0", 1, 1)])).is_none());
    assert_eq!(sampler.previous_networks.len(), 0);
    let snap = sampler.pass(&readings(vec![core_reading("cpu0", 1, 1)], vec![])).unwrap();
    assert!(!snap.processors[0].cores.is_empty());
}

#[test]
fn startup_refuses_hosts_without_cores_or_board() {
    let cfg = all_groups();
    assert!(matches!(Sampler::start(cfg, "arm".to_string(), 0, true), Err(StartupError::NoCores)));
    assert!(matches!(Sampler::start(cfg, "arm".to_string(), 0, false), Err(StartupError::NoCores)));
    assert!(matches!(Sampler::start(cfg, "arm".to_string(), 4, false), Err(StartupError::NoMotherboard)));
    let no_board = SamplerConfig { memory: true, network: true, motherboard: false };
    assert!(Sampler::start(no_board, "arm".to_string(), 4, false).is_ok());
}

#[test]
fn network_totals_never_decrease() {
    let mut sampler = started();
    let first = sampler
        .pass(&readings(vec![core_reading("cpu0", 0, 0)], vec![net("eth0", 1000, 2000), net("lo", 5, 5)]))
        .unwrap();
    assert_eq!(first.networks[0].total_received, 1000);
    assert_eq!(first.networks[0].total_transmitted, 2000);
    // eth0's counters went back (interface reset); lo's went forward.
    let second = sampler
        .pass(&readings(vec![core_reading("cpu0", 0, 0)], vec![net("lo", 9, 6), net("eth0", 10, 3000)]))
        .unwrap();
    assert_eq!(second.networks[0].name, "lo");
    assert_eq!(second.networks[0].total_received, 9);
    assert_eq!(second.networks[0].total_transmitted, 6);
    assert_eq!(second.networks[1].name, "eth0");
    assert_eq!(second.networks[1].total_received, 1000);
    assert_eq!(second.networks[1].total_transmitted, 3000);
    assert_eq!(second.networks[1].received, 10);
    assert_eq!(second.networks[1].mtu, 1500);
}

#[test]
fn disabled_groups_are_not_published() {
    let cfg = SamplerConfig { memory: false, network: false, motherboard: false };
    let mut sampler = Sampler::start(cfg, "x86_64".to_string(), 1, false).unwrap();
    let snap = sampler.pass(&readings(vec![core_reading("cpu0", 0, 0)], vec![net("eth0", 1, 1)])).unwrap();
    assert_eq!(snap.memory_total_mb, 0);
    assert_eq!(snap.memory_used_mb, 0);
    assert!(snap.networks.is_empty());
    assert_eq!(snap.motherboard_name, "N/A");
}

#[test]
fn initial_snapshot_is_empty() {
    let s = TelemetrySnapshot::initial();
    assert_eq!(s.os_name, "");
    assert!(s.processors.is_empty());
    assert!(s.networks.is_empty());
    assert_eq!(s.memory_total_mb, 0);
    assert!(s.is_well_formed());
}

#[test]
fn repeated_interface_names_keep_the_largest_total() {
    let mut sampler = started();
    sampler
        .pass(&readings(vec![core_reading("cpu0", 0, 0)], vec![net("eth0", 100, 7), net("eth0", 500, 3)]))
        .unwrap();
    let snap = sampler
        .pass(&readings(vec![core_reading("cpu0", 0, 0)], vec![net("eth0", 200, 5)]))
        .unwrap();
    assert_eq!(snap.networks[0].total_received, 500);
    assert_eq!(snap.networks[0].total_transmitted, 7);
}
