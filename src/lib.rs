//! Network throughput measurement: interface filtering, rate computation with
//! counter wraparound handling, a measurement engine driven by the caller's
//! readings, and a bounded history with windowed aggregation.
use vstd::prelude::*;

pub mod config;
pub mod duration;
pub mod error;
pub mod interface;
pub mod monitor;
pub mod sampling;
pub mod speed;
pub mod text;
pub mod tracker;

pub use config::{NetworkMonitorConfig, NetworkMonitorConfigBuilder, PrecisionMode};
pub use duration::Duration;
pub use error::{NetworkError, Result};
pub use interface::{
    is_virtual_interface_by_description, provider_unsupported, InterfaceManager, NetworkInterface,
};
pub use monitor::{ready_speed, MeasureStep, MeasurementProgress, NetworkMonitor};
pub use sampling::{mean_speed, sample_count_for, SampleCollector};
pub use speed::{format_bits_per_second, format_bytes_per_second, InterfaceStats, NetworkSpeed};
pub use text::{contains_ignoring_case, utf16_to_string};
pub use tracker::NetworkSpeedTracker;

verus! {

/// An engine with the default configuration.
pub fn create_monitor() -> (m: NetworkMonitor)
    ensures
        m.wf(),
        config::is_default_config(m.config_spec()),
        m.previous() is None,
{
    NetworkMonitor::new()
}

/// An engine with a validated configuration.
pub fn create_monitor_with_config(config: NetworkMonitorConfig) -> (m: NetworkMonitor)
    requires
        config.valid(),
    ensures
        m.wf(),
        m.config_spec() == config,
        m.previous() is None,
{
    NetworkMonitor::with_config(config)
}

/// A tracker keeping up to `max_history_size` measurements, on an engine
/// with the default configuration.
pub fn create_speed_tracker(max_history_size: usize) -> (t: NetworkSpeedTracker)
    ensures
        t.wf(),
        config::is_default_config(t.engine().config_spec()),
        t.history().len() == 0,
        t.capacity() == max_history_size,
{
    NetworkSpeedTracker::new(max_history_size)
}

/// A tracker keeping up to `max_history_size` measurements, on an engine
/// with a validated configuration.
pub fn create_speed_tracker_with_config(config: NetworkMonitorConfig, max_history_size: usize) -> (t:
    NetworkSpeedTracker)
    requires
        config.valid(),
    ensures
        t.wf(),
        t.engine().config_spec() == config,
        t.history().len() == 0,
        t.capacity() == max_history_size,
{
    NetworkSpeedTracker::with_config(config, max_history_size)
}

} // verus!
