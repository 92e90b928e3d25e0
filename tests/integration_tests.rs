use network_speed::{
    Duration, MeasureStep, NetworkError, NetworkInterface, NetworkMonitor, NetworkMonitorConfig,
    NetworkSpeed, NetworkSpeedTracker,
};

fn adapter(index: u32, sent: u64, received: u64) -> NetworkInterface {
    NetworkInterface {
        index,
        interface_type: 6,
        description: "Intel Ethernet Connection".to_string(),
        is_operational: true,
        bytes_sent: sent,
        bytes_received: received,
        speed: 1_000_000_000,
    }
}

/// Answers every request for a reading with the next one given.
fn drive(
    monitor: &mut NetworkMonitor,
    first: MeasureStep,
    readings: Vec<(Vec<NetworkInterface>, u64)>,
) -> Result<NetworkSpeed, NetworkError> {
    let mut step = first;
    let mut readings = readings.into_iter();
    loop {
        match step {
            MeasureStep::Done(result) => return result,
            MeasureStep::ReadNow | MeasureStep::ReadAfter(_) => {
                let (listed, at) = readings.next().expect("a reading was asked for");
                step = monitor.submit_reading(Ok(listed), at);
            }
        }
    }
}

#[test]
fn test_library_basic_functionality() {
    let mut monitor = NetworkMonitor::new();
    let first = monitor.measure_speed();
    let result = drive(&mut monitor, first, vec![(vec![adapter(1, 10, 20)], 1_000)]);
    assert!(result.is_ok(), "Basic functionality test failed: {:?}", result.err());
}

#[test]
fn test_speed_tracker_functionality() {
    let mut tracker = NetworkSpeedTracker::new(5);
    let mut step = tracker.track_speed();
    if let MeasureStep::ReadNow = step {
        step = tracker.submit_reading(Ok(vec![adapter(1, 10, 20)]), 1_000);
    }
    let result = match step {
        MeasureStep::Done(result) => result,
        _ => panic!("an Instant measurement takes one reading"),
    };
    assert!(result.is_ok(), "Speed tracker test failed: {:?}", result.err());
    assert_eq!(tracker.get_history().len(), 1);
}

#[test]
fn test_custom_config() {
    let config = NetworkMonitorConfig::builder()
        .exclude_virtual(false)
        .min_measurement_interval(Duration::from_millis(50))
        .build();

    assert!(config.is_ok(), "Config creation failed: {:?}", config.err());

    let mut monitor = NetworkMonitor::with_config(config.unwrap());
    let first = monitor.measure_speed();
    let result = drive(&mut monitor, first, vec![(vec![adapter(1, 10, 20)], 1_000)]);
    assert!(result.is_ok(), "Custom config test failed: {:?}", result.err());
}

#[test]
fn test_config_builder_example() {
    let config = NetworkMonitorConfig::builder()
        .exclude_virtual(false)
        .exclude_bluetooth(true)
        .min_measurement_interval(Duration::from_millis(50))
        .build()
        .unwrap();

    assert!(!config.exclude_virtual);
    assert!(config.exclude_bluetooth);
    assert_eq!(config.min_measurement_interval, Duration::from_millis(50));
}

#[test]
fn test_readme_sync_example() {
    let mut monitor = NetworkMonitor::new();

    let first = monitor.measure_speed();
    let speed = drive(&mut monitor, first, vec![(vec![adapter(1, 5_000, 9_000)], 10_000)]).unwrap();
    assert_eq!(speed.upload_bytes_per_sec, 0);
    assert_eq!(speed.download_bytes_per_sec, 0);

    let second = monitor.measure_speed();
    let speed = drive(&mut monitor, second, vec![(vec![adapter(1, 5_200, 9_400)], 10_200)]).unwrap();
    assert_eq!(speed.upload_bytes_per_sec, 1_000);
    assert_eq!(speed.download_bytes_per_sec, 2_000);
}
