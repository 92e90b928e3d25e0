//! Monitor configuration: interface filters, timing limits and the precision
//! strategy, with the validation every engine applies before adopting one.
use vstd::prelude::*;

use crate::duration::Duration;
use crate::error::{NetworkError, Result};

verus! {

/// Interface type code of the software loopback interface.
pub const LOOPBACK_TYPE: u32 = 24;

/// Shortest accepted `min_measurement_interval`, in milliseconds.
pub const MIN_INTERVAL_FLOOR_MS: u64 = 10;

/// Default limit on a counter difference before it counts as corruption.
pub const DEFAULT_WRAP_THRESHOLD: u64 = 0x4000_0000_0000_0000;

/// How a single measurement derives its rate.
#[derive(Clone, Copy, Debug, PartialEq, Eq, Structural)]
pub enum PrecisionMode {
    /// Difference against the previous reading (default).
    Instant,
    /// Two readings separated by `duration`.
    Windowed { duration: Duration },
    /// The mean of `samples` windows of length `interval`, taken back to back.
    Samples { samples: u8, interval: Duration },
}

impl PrecisionMode {
    /// Windows have a non-zero length.
    pub open spec fn valid(&self) -> bool {
        match self {
            PrecisionMode::Instant => true,
            PrecisionMode::Windowed { duration } => duration.millis > 0,
            PrecisionMode::Samples { interval, .. } => interval.millis > 0,
        }
    }

    pub fn validate(&self) -> (r: Result<()>)
        ensures
            r is Ok <==> self.valid(),
            r is Err ==> r->Err_0 is InvalidConfiguration,
    {
        match self {
            PrecisionMode::Instant => Ok(()),
            PrecisionMode::Windowed { duration } => {
                if duration.is_zero() {
                    return Err(
                        NetworkError::InvalidConfiguration {
                            field: "precision.windowed.duration must be > 0".to_string(),
                        },
                    );
                }
                Ok(())
            },
            PrecisionMode::Samples { samples: _, interval } => {
                if interval.is_zero() {
                    return Err(
                        NetworkError::InvalidConfiguration {
                            field: "precision.samples.interval must be > 0".to_string(),
                        },
                    );
                }
                Ok(())
            },
        }
    }
}

/// Which interfaces count toward the total, and the limits a measurement
/// must respect.
#[derive(Clone, Debug)]
pub struct NetworkMonitorConfig {
    pub exclude_virtual: bool,
    pub exclude_loopback: bool,
    pub exclude_bluetooth: bool,
    pub min_measurement_interval: Duration,
    pub max_counter_wrap_threshold: u64,
    pub interface_name_filters: Vec<String>,
    pub interface_type_filters: Vec<u32>,
    pub include_interface_indices: Vec<u32>,
    pub include_interface_name_patterns: Vec<String>,
    pub precision: PrecisionMode,
}

/// The configuration that `NetworkMonitorConfig::default` returns.
pub open spec fn is_default_config(c: NetworkMonitorConfig) -> bool {
    &&& c.exclude_virtual
    &&& c.exclude_loopback
    &&& c.exclude_bluetooth
    &&& c.min_measurement_interval.millis == 100
    &&& c.max_counter_wrap_threshold == DEFAULT_WRAP_THRESHOLD
    &&& c.interface_name_filters@.len() == 0
    &&& c.interface_type_filters@ == seq![LOOPBACK_TYPE]
    &&& c.include_interface_indices@.len() == 0
    &&& c.include_interface_name_patterns@.len() == 0
    &&& c.precision == PrecisionMode::Instant
}

impl Default for NetworkMonitorConfig {
    fn default() -> (c: Self)
        ensures
            is_default_config(c),
    {
        let mut type_filters: Vec<u32> = Vec::new();
        type_filters.push(LOOPBACK_TYPE);
        NetworkMonitorConfig {
            exclude_virtual: true,
            exclude_loopback: true,
            exclude_bluetooth: true,
            min_measurement_interval: Duration::from_millis(100),
            max_counter_wrap_threshold: DEFAULT_WRAP_THRESHOLD,
            interface_name_filters: Vec::new(),
            interface_type_filters: type_filters,
            include_interface_indices: Vec::new(),
            include_interface_name_patterns: Vec::new(),
            precision: PrecisionMode::Instant,
        }
    }
}

impl NetworkMonitorConfig {
    /// What `validate` accepts.
    pub open spec fn valid(&self) -> bool {
        &&& self.min_measurement_interval.millis >= MIN_INTERVAL_FLOOR_MS
        &&& self.max_counter_wrap_threshold != 0
        &&& (self.precision matches PrecisionMode::Samples { samples, .. } ==> samples >= 2)
        &&& self.precision.valid()
    }

    pub fn new() -> (c: Self)
        ensures
            is_default_config(c),
    {
        Self::default()
    }

    pub fn builder() -> (b: NetworkMonitorConfigBuilder)
        ensures
            is_default_config(b@),
    {
        NetworkMonitorConfigBuilder::new()
    }

    pub fn validate(&self) -> (r: Result<()>)
        ensures
            r is Ok <==> self.valid(),
            r is Err ==> r->Err_0 is InvalidConfiguration,
    {
        if self.min_measurement_interval.as_millis() < MIN_INTERVAL_FLOOR_MS {
            return Err(
                NetworkError::InvalidConfiguration {
                    field: "min_measurement_interval must be at least 10ms".to_string(),
                },
            );
        }
        if self.max_counter_wrap_threshold == 0 {
            return Err(
                NetworkError::InvalidConfiguration {
                    field: "max_counter_wrap_threshold cannot be zero".to_string(),
                },
            );
        }
        if let PrecisionMode::Samples { samples, .. } = &self.precision {
            if *samples < 2 {
                return Err(
                    NetworkError::InvalidConfiguration {
                        field: "precision.samples.samples must be >= 2".to_string(),
                    },
                );
            }
        }
        self.precision.validate()
    }

    pub fn with_exclude_virtual(self, exclude: bool) -> (r: Self)
        ensures
            r == (NetworkMonitorConfig { exclude_virtual: exclude, ..self }),
    {
        NetworkMonitorConfig { exclude_virtual: exclude, ..self }
    }

    pub fn with_exclude_loopback(self, exclude: bool) -> (r: Self)
        ensures
            r == (NetworkMonitorConfig { exclude_loopback: exclude, ..self }),
    {
        NetworkMonitorConfig { exclude_loopback: exclude, ..self }
    }

    pub fn with_exclude_bluetooth(self, exclude: bool) -> (r: Self)
        ensures
            r == (NetworkMonitorConfig { exclude_bluetooth: exclude, ..self }),
    {
        NetworkMonitorConfig { exclude_bluetooth: exclude, ..self }
    }

    pub fn with_min_interval(self, interval: Duration) -> (r: Self)
        ensures
            r == (NetworkMonitorConfig { min_measurement_interval: interval, ..self }),
    {
        NetworkMonitorConfig { min_measurement_interval: interval, ..self }
    }

    pub fn add_interface_filter(self, filter: String) -> (r: Self)
        ensures
            r.interface_name_filters@ == self.interface_name_filters@.push(filter),
            r == (NetworkMonitorConfig { interface_name_filters: r.interface_name_filters, ..self }),
    {
        let mut r = self;
        r.interface_name_filters.push(filter);
        r
    }

    pub fn add_type_filter(self, interface_type: u32) -> (r: Self)
        ensures
            r.interface_type_filters@ == self.interface_type_filters@.push(interface_type),
            r == (NetworkMonitorConfig { interface_type_filters: r.interface_type_filters, ..self }),
    {
        let mut r = self;
        r.interface_type_filters.push(interface_type);
        r
    }

    pub fn with_include_interface_indices(self, indices: Vec<u32>) -> (r: Self)
        ensures
            r == (NetworkMonitorConfig { include_interface_indices: indices, ..self }),
    {
        NetworkMonitorConfig { include_interface_indices: indices, ..self }
    }

    pub fn with_include_interface_name_patterns(self, patterns: Vec<String>) -> (r: Self)
        ensures
            r == (NetworkMonitorConfig { include_interface_name_patterns: patterns, ..self }),
    {
        NetworkMonitorConfig { include_interface_name_patterns: patterns, ..self }
    }

    pub fn with_precision(self, precision: PrecisionMode) -> (r: Self)
        ensures
            r == (NetworkMonitorConfig { precision, ..self }),
    {
        NetworkMonitorConfig { precision, ..self }
    }
}

/// A configuration is rejected when its minimum interval is under 10 ms, its
/// wraparound threshold is zero, it averages fewer than two samples, or its
/// window or sample interval is zero; anything else is accepted.
pub proof fn lemma_validation_rules(c: NetworkMonitorConfig)
    ensures
        c.valid() <==> {
            &&& c.min_measurement_interval.millis >= MIN_INTERVAL_FLOOR_MS
            &&& c.max_counter_wrap_threshold != 0
            &&& !(c.precision matches PrecisionMode::Samples { samples, .. } && samples < 2)
            &&& !(c.precision matches PrecisionMode::Windowed { duration } && duration.millis == 0)
            &&& !(c.precision matches PrecisionMode::Samples { interval, .. } && interval.millis == 0)
        },
{
}

/// Step-by-step construction of a `NetworkMonitorConfig`, starting from the
/// defaults.
pub struct NetworkMonitorConfigBuilder {
    config: NetworkMonitorConfig,
}

impl View for NetworkMonitorConfigBuilder {
    type V = NetworkMonitorConfig;

    closed spec fn view(&self) -> NetworkMonitorConfig {
        self.config
    }
}

impl Default for NetworkMonitorConfigBuilder {
    fn default() -> (b: Self)
        ensures
            is_default_config(b@),
    {
        Self::new()
    }
}

impl NetworkMonitorConfigBuilder {
    pub fn new() -> (b: Self)
        ensures
            is_default_config(b@),
    {
        NetworkMonitorConfigBuilder { config: NetworkMonitorConfig::default() }
    }

    pub fn exclude_virtual(self, exclude: bool) -> (b: Self)
        ensures
            b@ == (NetworkMonitorConfig { exclude_virtual: exclude, ..self@ }),
    {
        NetworkMonitorConfigBuilder { config: self.config.with_exclude_virtual(exclude) }
    }

    pub fn exclude_loopback(self, exclude: bool) -> (b: Self)
        ensures
            b@ == (NetworkMonitorConfig { exclude_loopback: exclude, ..self@ }),
    {
        NetworkMonitorConfigBuilder { config: self.config.with_exclude_loopback(exclude) }
    }

    pub fn exclude_bluetooth(self, exclude: bool) -> (b: Self)
        ensures
            b@ == (NetworkMonitorConfig { exclude_bluetooth: exclude, ..self@ }),
    {
        NetworkMonitorConfigBuilder { config: self.config.with_exclude_bluetooth(exclude) }
    }

    pub fn min_measurement_interval(self, interval: Duration) -> (b: Self)
        ensures
            b@ == (NetworkMonitorConfig { min_measurement_interval: interval, ..self@ }),
    {
        NetworkMonitorConfigBuilder { config: self.config.with_min_interval(interval) }
    }

    pub fn max_counter_wrap_threshold(self, threshold: u64) -> (b: Self)
        ensures
            b@ == (NetworkMonitorConfig { max_counter_wrap_threshold: threshold, ..self@ }),
    {
        NetworkMonitorConfigBuilder {
            config: NetworkMonitorConfig { max_counter_wrap_threshold: threshold, ..self.config },
        }
    }

    pub fn add_interface_name_filter(self, filter: String) -> (b: Self)
        ensures
            b@.interface_name_filters@ == self@.interface_name_filters@.push(filter),
            b@ == (NetworkMonitorConfig { interface_name_filters: b@.interface_name_filters, ..self@ }),
    {
        NetworkMonitorConfigBuilder { config: self.config.add_interface_filter(filter) }
    }

    pub fn add_interface_type_filter(self, interface_type: u32) -> (b: Self)
        ensures
            b@.interface_type_filters@ == self@.interface_type_filters@.push(interface_type),
            b@ == (NetworkMonitorConfig { interface_type_filters: b@.interface_type_filters, ..self@ }),
    {
        NetworkMonitorConfigBuilder { config: self.config.add_type_filter(interface_type) }
    }

    pub fn interface_name_filters(self, filters: Vec<String>) -> (b: Self)
        ensures
            b@ == (NetworkMonitorConfig { interface_name_filters: filters, ..self@ }),
    {
        NetworkMonitorConfigBuilder {
            config: NetworkMonitorConfig { interface_name_filters: filters, ..self.config },
        }
    }

    pub fn interface_type_filters(self, filters: Vec<u32>) -> (b: Self)
        ensures
            b@ == (NetworkMonitorConfig { interface_type_filters: filters, ..self@ }),
    {
        NetworkMonitorConfigBuilder {
            config: NetworkMonitorConfig { interface_type_filters: filters, ..self.config },
        }
    }

    pub fn include_interface_indices(self, indices: Vec<u32>) -> (b: Self)
        ensures
            b@ == (NetworkMonitorConfig { include_interface_indices: indices, ..self@ }),
    {
        NetworkMonitorConfigBuilder { config: self.config.with_include_interface_indices(indices) }
    }

    pub fn include_interface_name_patterns(self, patterns: Vec<String>) -> (b: Self)
        ensures
            b@ == (NetworkMonitorConfig { include_interface_name_patterns: patterns, ..self@ }),
    {
        NetworkMonitorConfigBuilder {
            config: self.config.with_include_interface_name_patterns(patterns),
        }
    }

    pub fn precision(self, precision: PrecisionMode) -> (b: Self)
        ensures
            b@ == (NetworkMonitorConfig { precision, ..self@ }),
    {
        NetworkMonitorConfigBuilder { config: self.config.with_precision(precision) }
    }

    /// The configuration, once it passes validation.
    pub fn build(self) -> (r: Result<NetworkMonitorConfig>)
        ensures
            r is Ok <==> self@.valid(),
            r is Ok ==> r->Ok_0 == self@,
            r is Err ==> r->Err_0 is InvalidConfiguration,
    {
        match self.config.validate() {
            Ok(()) => Ok(self.config),
            Err(e) => Err(e),
        }
    }

    /// The configuration as it stands, without validation.
    pub fn build_unchecked(self) -> (c: NetworkMonitorConfig)
        ensures
            c == self@,
    {
        self.config
    }
}

} // verus!
