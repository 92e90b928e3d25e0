use network_speed::{
    is_virtual_interface_by_description, mean_speed, sample_count_for, Duration, InterfaceManager,
    InterfaceStats, MeasureStep, NetworkError, NetworkInterface, NetworkMonitor, NetworkMonitorConfig,
    NetworkSpeed, NetworkSpeedTracker, PrecisionMode, SampleCollector,
};

fn described(index: u32, interface_type: u32, description: &str, sent: u64, received: u64) -> NetworkInterface {
    NetworkInterface {
        index,
        interface_type,
        description: description.to_string(),
        is_operational: true,
        bytes_sent: sent,
        bytes_received: received,
        speed: 100_000_000,
    }
}

fn adapter(index: u32, sent: u64, received: u64) -> NetworkInterface {
    described(index, 6, "Realtek PCIe GbE Family Controller", sent, received)
}

fn finish(monitor: &mut NetworkMonitor, mut step: MeasureStep, readings: Vec<(Vec<NetworkInterface>, u64)>) -> Result<NetworkSpeed, NetworkError> {
    let mut readings = readings.into_iter();
    loop {
        match step {
            MeasureStep::Done(result) => return result,
            MeasureStep::ReadNow | MeasureStep::ReadAfter(_) => {
                let (listed, at) = readings.next().expect("a reading was asked for");
                step = monitor.submit_reading(Ok(listed), at);
            }
        }
    }
}

fn track(tracker: &mut NetworkSpeedTracker, sent: u64, received: u64, at: u64) -> Result<NetworkSpeed, NetworkError> {
    let step = tracker.track_speed();
    assert!(matches!(step, MeasureStep::ReadNow));
    match tracker.submit_reading(Ok(vec![adapter(1, sent, received)]), at) {
        MeasureStep::Done(result) => result,
        _ => panic!("an Instant measurement takes one reading"),
    }
}

fn speed_at(upload: u64, download: u64, at: u64) -> NetworkSpeed {
    NetworkSpeed { upload_bytes_per_sec: upload, download_bytes_per_sec: download, timestamp: at }
}

#[test]
fn test_monitor_creation() {
    let monitor = NetworkMonitor::new();
    assert!(monitor.get_config().exclude_virtual);
}

#[test]
fn test_monitor_with_config() {
    let config = NetworkMonitorConfig::builder()
        .exclude_virtual(false)
        .min_measurement_interval(Duration::from_millis(50))
        .build()
        .unwrap();

    let monitor = NetworkMonitor::with_config(config);
    assert_eq!(monitor.get_config().min_measurement_interval, Duration::from_millis(50));
    assert!(!monitor.get_config().exclude_virtual);
}

#[test]
fn test_measure_speed() {
    let mut monitor = NetworkMonitor::new();

    let step = monitor.measure_speed();
    let first_measurement = finish(&mut monitor, step, vec![(vec![adapter(1, 100, 100)], 1_000)]);
    assert!(first_measurement.is_ok());

    let first_speed = first_measurement.unwrap();
    assert_eq!(first_speed.upload_bytes_per_sec, 0);
    assert_eq!(first_speed.download_bytes_per_sec, 0);

    let step = monitor.measure_speed();
    let second_measurement = finish(&mut monitor, step, vec![(vec![adapter(1, 300, 500)], 1_200)]);
    assert!(second_measurement.is_ok());
}

#[test]
fn test_speed_tracker() {
    let mut tracker = NetworkSpeedTracker::new(10);

    let result = track(&mut tracker, 10, 10, 1_000);
    assert!(result.is_ok());

    assert_eq!(tracker.get_history().len(), 1);
}

#[test]
fn test_blocking_measurement() {
    let mut monitor = NetworkMonitor::new();
    let step = monitor.measure_speed_blocking(Duration::from_millis(100));
    assert!(matches!(step, MeasureStep::ReadNow));
    let step = monitor.submit_reading(Ok(vec![adapter(1, 0, 0)]), 5_000);
    assert!(matches!(step, MeasureStep::ReadAfter(100)));
    let result = finish(&mut monitor, step, vec![(vec![adapter(1, 100, 200)], 5_100)]);
    assert!(result.is_ok());
    assert_eq!(result.unwrap(), speed_at(1_000, 2_000, 5_100));
}

#[test]
fn test_config_update() {
    let mut monitor = NetworkMonitor::new();

    let new_config = NetworkMonitorConfig::builder()
        .exclude_bluetooth(false)
        .min_measurement_interval(Duration::from_millis(200))
        .build()
        .unwrap();

    let result = monitor.update_config(new_config);
    assert!(result.is_ok());

    assert_eq!(monitor.get_config().min_measurement_interval, Duration::from_millis(200));
    assert!(!monitor.get_config().exclude_bluetooth);
}

#[test]
fn test_tracker_history_management() {
    let mut tracker = NetworkSpeedTracker::new(3);

    for k in 0..5u64 {
        let _ = track(&mut tracker, k * 1_000, k * 1_000, 1_000 + k * 50);
    }

    let history = tracker.get_history();
    assert!(history.len() <= 3, "History exceeded maximum size");
}

#[test]
fn test_tracker_statistics() {
    let mut tracker = NetworkSpeedTracker::new(5);
    for k in 0..3u64 {
        let _ = track(&mut tracker, k * 100, k * 100, 1_000 + k * 100);
    }
    let avg_speed = tracker.average_at(1_300, Duration::from_secs(1));
    let peak_speed = tracker.peak_at(1_300, Duration::from_secs(1));
    assert!(tracker.get_history().len() > 0);
    assert!(avg_speed.is_some() || peak_speed.is_some());
}

#[test]
fn first_instant_measurement_is_zero() {
    let mut monitor = NetworkMonitor::new();
    let step = monitor.measure_speed();
    let speed = finish(&mut monitor, step, vec![(vec![adapter(1, 123_456, 654_321)], 42)]).unwrap();
    assert_eq!(speed, speed_at(0, 0, 42));
}

#[test]
fn rate_over_one_second() {
    let monitor = NetworkMonitor::new();
    let previous = InterfaceStats::at(5_000, 7_000, 10_000);
    let current = InterfaceStats::at(6_000, 7_500, 11_000);
    let speed = monitor.calculate_speed(&current, &previous).unwrap();
    assert_eq!(speed.upload_bytes_per_sec, 1_000);
    assert_eq!(speed.download_bytes_per_sec, 500);
    assert_eq!(speed.timestamp, 11_000);
}

#[test]
fn rate_rounds_down() {
    let monitor = NetworkMonitor::new();
    let previous = InterfaceStats::at(0, 0, 0);
    let current = InterfaceStats::at(1_000, 1, 300);
    let speed = monitor.calculate_speed(&current, &previous).unwrap();
    assert_eq!(speed.upload_bytes_per_sec, 3_333);
    assert_eq!(speed.download_bytes_per_sec, 3);
}

#[test]
fn rate_across_counter_wraparound() {
    let monitor = NetworkMonitor::new();
    let previous = InterfaceStats::at(u64::MAX - 499, 0, 0);
    let current = InterfaceStats::at(500, 0, 1_000);
    let speed = monitor.calculate_speed(&current, &previous).unwrap();
    assert_eq!(speed.upload_bytes_per_sec, 1_000);
}

#[test]
fn counter_going_backwards_is_overflow() {
    let monitor = NetworkMonitor::new();
    let previous = InterfaceStats::at(10_000, 0, 0);
    let current = InterfaceStats::at(9_000, 0, 1_000);
    let result = monitor.calculate_speed(&current, &previous);
    assert!(matches!(result, Err(NetworkError::CalculationOverflow)));
}

#[test]
fn diff_over_threshold_is_overflow() {
    let config = NetworkMonitorConfig::builder().max_counter_wrap_threshold(1_000).build().unwrap();
    let monitor = NetworkMonitor::with_config(config);
    let previous = InterfaceStats::at(0, 0, 0);
    let at_threshold = InterfaceStats::at(1_000, 1_000, 1_000);
    assert!(monitor.calculate_speed(&at_threshold, &previous).is_ok());
    let over = InterfaceStats::at(0, 1_001, 1_000);
    assert!(matches!(monitor.calculate_speed(&over, &previous), Err(NetworkError::CalculationOverflow)));
}

#[test]
fn readings_too_close_are_rejected() {
    let monitor = NetworkMonitor::new();
    let previous = InterfaceStats::at(0, 0, 1_000);
    let current = InterfaceStats::at(10, 10, 1_050);
    match monitor.calculate_speed(&current, &previous) {
        Err(NetworkError::InsufficientTimeElapsed { min_ms, actual_ms }) => {
            assert_eq!(min_ms, 100);
            assert_eq!(actual_ms, 50);
        }
        other => panic!("expected a too-early error, got {:?}", other),
    }
    let earlier = InterfaceStats::at(10, 10, 900);
    match monitor.calculate_speed(&earlier, &previous) {
        Err(NetworkError::InsufficientTimeElapsed { actual_ms, .. }) => assert_eq!(actual_ms, 0),
        other => panic!("expected a too-early error, got {:?}", other),
    }
}

#[test]
fn instant_stores_snapshot_even_when_too_early() {
    let mut monitor = NetworkMonitor::new();
    let step = monitor.measure_speed();
    finish(&mut monitor, step, vec![(vec![adapter(1, 0, 0)], 1_000)]).unwrap();
    let step = monitor.measure_speed();
    let early = finish(&mut monitor, step, vec![(vec![adapter(1, 50, 50)], 1_050)]);
    assert!(matches!(early, Err(NetworkError::InsufficientTimeElapsed { .. })));
    let step = monitor.measure_speed();
    let speed = finish(&mut monitor, step, vec![(vec![adapter(1, 250, 50)], 1_250)]).unwrap();
    assert_eq!(speed.upload_bytes_per_sec, 1_000);
    assert_eq!(speed.download_bytes_per_sec, 0);
}

#[test]
fn update_config_makes_engine_cold_again() {
    let mut monitor = NetworkMonitor::new();
    let step = monitor.measure_speed();
    finish(&mut monitor, step, vec![(vec![adapter(1, 0, 0)], 1_000)]).unwrap();
    let config = NetworkMonitorConfig::builder().exclude_bluetooth(false).build().unwrap();
    assert!(monitor.update_config(config).is_ok());
    let step = monitor.measure_speed();
    let speed = finish(&mut monitor, step, vec![(vec![adapter(1, 90_000, 90_000)], 2_000)]).unwrap();
    assert_eq!(speed, speed_at(0, 0, 2_000));
}

#[test]
fn invalid_update_keeps_config() {
    let mut monitor = NetworkMonitor::new();
    let bad = NetworkMonitorConfig::new().with_min_interval(Duration::from_millis(9));
    let result = monitor.update_config(bad);
    assert!(matches!(result, Err(NetworkError::InvalidConfiguration { .. })));
    assert_eq!(monitor.get_config().min_measurement_interval, Duration::from_millis(100));
}

#[test]
fn reset_makes_engine_cold() {
    let mut monitor = NetworkMonitor::new();
    let step = monitor.measure_speed();
    finish(&mut monitor, step, vec![(vec![adapter(1, 0, 0)], 1_000)]).unwrap();
    assert!(monitor.get_instantaneous_speed().is_some());
    monitor.reset();
    assert!(monitor.get_instantaneous_speed().is_none());
}

#[test]
fn samples_mode_averages_windows() {
    let precision = PrecisionMode::Samples { samples: 2, interval: Duration::from_millis(500) };
    let config = NetworkMonitorConfig::builder().precision(precision).build().unwrap();
    let mut monitor = NetworkMonitor::with_config(config);
    assert!(matches!(monitor.measure_speed(), MeasureStep::ReadNow));
    let step = monitor.submit_reading(Ok(vec![adapter(1, 0, 0)]), 0);
    assert!(matches!(step, MeasureStep::ReadAfter(500)));
    let step = monitor.submit_reading(Ok(vec![adapter(1, 500, 1_000)]), 500);
    assert!(matches!(step, MeasureStep::ReadNow));
    let step = monitor.submit_reading(Ok(vec![adapter(1, 500, 1_000)]), 500);
    assert!(matches!(step, MeasureStep::ReadAfter(500)));
    let step = monitor.submit_reading(Ok(vec![adapter(1, 1_500, 1_001)]), 1_000);
    match step {
        MeasureStep::Done(Ok(speed)) => assert_eq!(speed, speed_at(1_500, 1_001, 1_000)),
        other => panic!("expected the averaged result, got {:?}", other),
    }
}



#[test]
fn failed_enumeration_ends_measurement() {
    let mut monitor = NetworkMonitor::new();
    monitor.measure_speed();
    let step = monitor.submit_reading(Err(NetworkError::WindowsApi(-5)), 1_000);
    assert!(matches!(step, MeasureStep::Done(Err(NetworkError::WindowsApi(-5)))));
    let step = monitor.submit_reading(Ok(vec![adapter(1, 0, 0)]), 2_000);
    assert!(matches!(step, MeasureStep::Done(Err(NetworkError::InterfaceOperationFailed { .. }))));
}

#[test]
fn no_accepted_interface_is_an_error() {
    let mut monitor = NetworkMonitor::new();
    monitor.measure_speed();
    let loopback = described(1, 24, "Software Loopback Interface 1", 0, 0);
    let step = monitor.submit_reading(Ok(vec![loopback]), 1_000);
    assert!(matches!(step, MeasureStep::Done(Err(NetworkError::NoInterfacesFound))));
}

#[test]
fn history_evicts_oldest_first() {
    let mut tracker = NetworkSpeedTracker::new(2);
    track(&mut tracker, 0, 0, 1_000).unwrap();
    track(&mut tracker, 1_000, 0, 2_000).unwrap();
    track(&mut tracker, 3_000, 0, 3_000).unwrap();
    let history = tracker.get_history();
    assert_eq!(history, vec![speed_at(1_000, 0, 2_000), speed_at(2_000, 0, 3_000)]);
}

#[test]
fn failed_measurements_are_not_recorded() {
    let mut tracker = NetworkSpeedTracker::new(4);
    track(&mut tracker, 0, 0, 1_000).unwrap();
    assert!(track(&mut tracker, 10, 10, 1_010).is_err());
    assert_eq!(tracker.get_history().len(), 1);
    tracker.clear_history();
    assert_eq!(tracker.get_history().len(), 0);
    let speed = track(&mut tracker, 1_010, 10, 2_010).unwrap();
    assert_eq!(speed.upload_bytes_per_sec, 1_000);
    tracker.reset();
    assert_eq!(track(&mut tracker, 5_000, 5_000, 3_000).unwrap(), speed_at(0, 0, 3_000));
}

#[test]
fn average_over_window() {
    let mut tracker = NetworkSpeedTracker::new(10);
    track(&mut tracker, 0, 0, 10_000).unwrap();
    track(&mut tracker, 10, 20, 11_000).unwrap();
    track(&mut tracker, 40, 60, 12_000).unwrap();
    // entries: (0,0)@10000, (10,20)@11000, (30,40)@12000
    assert_eq!(tracker.average_at(12_000, Duration::from_millis(1_000)), Some(speed_at(20, 30, 12_000)));
    assert_eq!(tracker.average_at(12_000, Duration::from_millis(500)), Some(speed_at(30, 40, 12_000)));
    assert_eq!(tracker.average_at(20_000, Duration::from_millis(500)), None);
}

#[test]
fn peak_prefers_most_recent_of_ties() {
    let mut tracker = NetworkSpeedTracker::new(10);
    track(&mut tracker, 0, 0, 10_000).unwrap();
    track(&mut tracker, 100, 0, 11_000).unwrap();
    track(&mut tracker, 100, 100, 12_000).unwrap();
    track(&mut tracker, 150, 150, 13_000).unwrap();
    // entries: (0,0), (100,0)@11000, (0,100)@12000, (50,50)@13000: three tie at 100
    assert_eq!(tracker.peak_at(13_000, Duration::from_secs(5)), Some(speed_at(50, 50, 13_000)));
    assert_eq!(tracker.peak_at(13_000, Duration::from_millis(0)), Some(speed_at(50, 50, 13_000)));
    assert_eq!(tracker.peak_at(14_000, Duration::from_millis(10)), None);
}

#[test]
fn collection_skips_too_early_measurements() {
    let mut collector = SampleCollector::new(4, Duration::from_millis(200));
    let mut outcomes = vec![
        Ok(speed_at(100, 200, 1)),
        Err(NetworkError::InsufficientTimeElapsed { min_ms: 100, actual_ms: 50 }),
        Ok(speed_at(300, 400, 2)),
        Err(NetworkError::InsufficientTimeElapsed { min_ms: 100, actual_ms: 20 }),
    ]
    .into_iter();
    while collector.wants_tick() {
        assert!(collector.record(outcomes.next().unwrap()).is_ok());
    }
    let samples = collector.finish().unwrap();
    assert_eq!(samples, vec![speed_at(100, 200, 1), speed_at(300, 400, 2)]);
    assert_eq!(mean_speed(&samples, 9), speed_at(200, 300, 9));
}

#[test]
fn collection_stops_on_other_failures() {
    let mut collector = SampleCollector::new(3, Duration::from_millis(200));
    assert!(collector.record(Ok(speed_at(1, 1, 1))).is_ok());
    let stop = collector.record(Err(NetworkError::CalculationOverflow));
    assert!(matches!(stop, Err(NetworkError::CalculationOverflow)));
}

#[test]
fn collection_without_samples_is_too_early() {
    let mut collector = SampleCollector::new(2, Duration::from_millis(250));
    while collector.wants_tick() {
        let _ = collector.record(Err(NetworkError::InsufficientTimeElapsed { min_ms: 100, actual_ms: 1 }));
    }
    match collector.finish() {
        Err(NetworkError::InsufficientTimeElapsed { min_ms, actual_ms }) => {
            assert_eq!(min_ms, 250);
            assert_eq!(actual_ms, 0);
        }
        other => panic!("expected a too-early error, got {:?}", other),
    }
    assert!(SampleCollector::new(0, Duration::from_millis(1)).finish().is_err());
}

#[test]
fn sample_count_from_span() {
    assert_eq!(sample_count_for(Duration::from_millis(1_000), Duration::from_millis(300)).unwrap(), 3);
    assert!(matches!(
        sample_count_for(Duration::from_millis(100), Duration::from_millis(300)),
        Err(NetworkError::InvalidConfiguration { .. })
    ));
    assert!(matches!(
        sample_count_for(Duration::from_millis(100), Duration::from_millis(0)),
        Err(NetworkError::InvalidConfiguration { .. })
    ));
}

#[test]
fn filters_apply_in_order() {
    let mut manager = InterfaceManager::new(NetworkMonitorConfig::default());
    let listed = vec![
        adapter(1, 10, 20),
        described(2, 24, "Loopback Pseudo-Interface 1", 1, 1),
        described(3, 6, "VMware Virtual Ethernet Adapter for VMnet8", 1, 1),
        described(4, 71, "Intel Wi-Fi 6 AX201", 30, 40),
        described(5, 6, "BLUETOOTH Device (Personal Area Network)", 1, 1),
        described(6, 6, "Cisco AnyConnect VPN Virtual Miniport", 1, 1),
    ];
    let active = manager.get_active_interfaces(listed).unwrap();
    let indices: Vec<u32> = active.iter().map(|i| i.index).collect();
    assert_eq!(indices, vec![1, 4]);
    assert!(manager.get_interface_by_index(4).is_some());
    assert!(manager.get_interface_by_index(2).is_none());

    let again = manager.get_active_interfaces(vec![adapter(7, 1, 1)]).unwrap();
    assert_eq!(again.len(), 1);
    assert!(manager.get_interface_by_index(1).is_none());
}

#[test]
fn inclusion_lists_and_name_filters() {
    let config = NetworkMonitorConfig::new()
        .with_include_interface_name_patterns(vec!["WI-FI".to_string(), "ethernet".to_string()])
        .add_interface_filter("usb".to_string());
    let mut manager = InterfaceManager::new(config);
    let listed = vec![
        described(1, 6, "Intel Ethernet I219", 100, 200),
        described(2, 71, "Intel Wi-Fi 6", 1_000, 2_000),
        described(3, 6, "USB Ethernet Adapter", 5, 5),
        described(4, 6, "Realtek Gaming GbE", 7, 7),
    ];
    assert_eq!(manager.get_total_traffic(listed).unwrap(), (1_100, 2_200));

    let by_index = NetworkMonitorConfig::new().with_include_interface_indices(vec![2]);
    let mut manager = InterfaceManager::new(by_index);
    let listed = vec![adapter(1, 1, 1), adapter(2, u64::MAX, 5)];
    assert_eq!(manager.get_total_traffic(listed).unwrap(), (u64::MAX, 5));

    let mut manager = InterfaceManager::new(NetworkMonitorConfig::new());
    assert!(matches!(manager.get_total_traffic(vec![]), Err(NetworkError::NoInterfacesFound)));
    assert!(matches!(manager.refresh_cache(vec![adapter(3, 0, 0)]), Ok(())));
}

#[test]
fn totals_wrap_around() {
    let mut manager = InterfaceManager::new(NetworkMonitorConfig::new());
    let listed = vec![adapter(1, u64::MAX, 1), adapter(2, 2, 1)];
    assert_eq!(manager.get_total_traffic(listed).unwrap(), (1, 2));
}

#[test]
fn virtual_keywords_are_case_insensitive() {
    assert!(is_virtual_interface_by_description("Hyper-V Virtual Ethernet Adapter"));
    assert!(is_virtual_interface_by_description("WAN MINIPORT (IKEv2)"));
    assert!(is_virtual_interface_by_description("TAP-Windows Adapter V9"));
    assert!(!is_virtual_interface_by_description("Intel(R) Ethernet Connection I219-LM"));
    assert!(!is_virtual_interface_by_description(""));
}

#[test]
fn error_codes_and_recoverability() {
    assert_eq!(NetworkError::WindowsApi(1).error_code(), 1001);
    assert_eq!(NetworkError::NoInterfacesFound.error_code(), 1005);
    assert_eq!(NetworkError::CalculationOverflow.error_code(), 1007);
    assert!(NetworkError::CalculationOverflow.is_recoverable());
    assert!(NetworkError::InsufficientTimeElapsed { min_ms: 1, actual_ms: 0 }.is_recoverable());
    assert!(!NetworkError::NoInterfacesFound.is_recoverable());
}
