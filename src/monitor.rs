//! The measurement engine. It owns the configuration, the interface
//! directory and the previous snapshot, and decides what each reading means.
//! The reading itself (enumerating interfaces, reading the clock, waiting out
//! a window) is the caller's: `measure_speed` starts a measurement, and every
//! `submit_reading` answers with the next thing to do.
use vstd::prelude::*;

use crate::config::{NetworkMonitorConfig, PrecisionMode, is_default_config};
use crate::duration::Duration;
use crate::error::{NetworkError, Result};
use crate::interface::{
    InterfaceManager,
    NetworkInterface,
    accepted,
    by_index,
    received_total,
    sent_total,
    wrap64,
};
use crate::speed::{InterfaceStats, NetworkSpeed};

verus! {

/// Milliseconds between two snapshots; zero when the clock went backwards.
pub open spec fn elapsed_ms(current: InterfaceStats, previous: InterfaceStats) -> u64 {
    if current.last_update >= previous.last_update {
        (current.last_update - previous.last_update) as u64
    } else {
        0
    }
}

/// How far a counter advanced, modulo 2^64: a counter that wrapped around
/// gives a small difference, one that went backwards a huge one.
pub open spec fn counter_diff(current: u64, previous: u64) -> u64 {
    if current >= previous {
        (current - previous) as u64
    } else {
        (current - previous + 0x1_0000_0000_0000_0000) as u64
    }
}

/// `diff` bytes over `elapsed` milliseconds, in bytes per second, rounded
/// down and capped at `u64::MAX`.
pub open spec fn rate_of(diff: u64, elapsed: u64) -> u64 {
    let r = diff * 1000 / elapsed as int;
    if r > u64::MAX {
        u64::MAX
    } else {
        r as u64
    }
}

/// The rate between two snapshots, or why there is none.
pub open spec fn rate_outcome(
    current: InterfaceStats,
    previous: InterfaceStats,
    min_ms: u64,
    wrap_threshold: u64,
) -> Result<NetworkSpeed> {
    let elapsed = elapsed_ms(current, previous);
    let up = counter_diff(current.bytes_sent, previous.bytes_sent);
    let down = counter_diff(current.bytes_received, previous.bytes_received);
    if elapsed < min_ms {
        Err(NetworkError::InsufficientTimeElapsed { min_ms, actual_ms: elapsed })
    } else if elapsed == 0 {
        Err(NetworkError::InsufficientTimeElapsed { min_ms, actual_ms: 0 })
    } else if up > wrap_threshold || down > wrap_threshold {
        Err(NetworkError::CalculationOverflow)
    } else {
        Ok(
            NetworkSpeed {
                upload_bytes_per_sec: rate_of(up, elapsed),
                download_bytes_per_sec: rate_of(down, elapsed),
                timestamp: current.last_update,
            },
        )
    }
}

/// `rate_outcome` under a configuration's limits.
pub open spec fn speed_between(
    current: InterfaceStats,
    previous: InterfaceStats,
    config: NetworkMonitorConfig,
) -> Result<NetworkSpeed> {
    rate_outcome(current, previous, config.min_measurement_interval.millis, config.max_counter_wrap_threshold)
}

/// An Instant measurement: zero on a cold start, else the rate against the
/// stored snapshot.
pub open spec fn instant_outcome(
    previous: Option<InterfaceStats>,
    current: InterfaceStats,
    config: NetworkMonitorConfig,
) -> Result<NetworkSpeed> {
    match previous {
        None => Ok(
            NetworkSpeed { upload_bytes_per_sec: 0, download_bytes_per_sec: 0, timestamp: current.last_update },
        ),
        Some(p) => speed_between(current, p, config),
    }
}

/// The aggregate snapshot of one enumeration taken at time `t`.
pub open spec fn snapshot_of(config: NetworkMonitorConfig, listed: Seq<NetworkInterface>, t: u64) -> InterfaceStats {
    InterfaceStats {
        bytes_sent: wrap64(sent_total(accepted(config, listed))),
        bytes_received: wrap64(received_total(accepted(config, listed))),
        last_update: t,
    }
}

/// What the caller does next for a measurement in progress.
#[derive(Debug)]
pub enum MeasureStep {
    /// Enumerate the interfaces now and pass the reading to `submit_reading`.
    ReadNow,
    /// Wait this many milliseconds, then enumerate and pass the reading to
    /// `submit_reading`.
    ReadAfter(u64),
    /// The measurement is over.
    Done(Result<NetworkSpeed>),
}

/// A measurement in progress.
#[derive(Clone, Copy, Debug)]
pub struct MeasurementProgress {
    /// One reading, compared with the stored snapshot.
    pub instant: bool,
    /// Length of each window.
    pub window_ms: u64,
    /// Windows to average.
    pub windows: u64,
    /// Windows completed so far.
    pub completed: u64,
    /// The reading that opened the current window, once taken.
    pub window_start: Option<InterfaceStats>,
    /// Rates of the completed windows, summed.
    pub upload_sum: u128,
    pub download_sum: u128,
}

impl MeasurementProgress {
    pub open spec fn wf(&self) -> bool {
        &&& 1 <= self.windows <= 255
        &&& self.completed < self.windows
        &&& self.upload_sum <= self.completed * u64::MAX
        &&& self.download_sum <= self.completed * u64::MAX
    }

    /// A new measurement with the given shape.
    pub open spec fn fresh(instant: bool, window_ms: u64, windows: u64) -> MeasurementProgress {
        MeasurementProgress {
            instant,
            window_ms,
            windows,
            completed: 0,
            window_start: None,
            upload_sum: 0,
            download_sum: 0,
        }
    }
}

/// The measurement a precision mode calls for.
pub open spec fn progress_for(precision: PrecisionMode) -> MeasurementProgress {
    match precision {
        PrecisionMode::Instant => MeasurementProgress::fresh(true, 0, 1),
        PrecisionMode::Windowed { duration } => MeasurementProgress::fresh(false, duration.millis, 1),
        PrecisionMode::Samples { samples, interval } => MeasurementProgress::fresh(
            false,
            interval.millis,
            samples as u64,
        ),
    }
}

/// One step of a measurement in progress, given the snapshot of the reading
/// just taken: the progress that remains (none once done), the snapshot stored
/// for the next Instant measurement, and what the caller does next.
///
/// An Instant measurement finishes at once and stores its snapshot whatever
/// the outcome. A window opens on one reading and closes on the next, which is
/// due after the window's length; a closed window stores its closing snapshot
/// when it yields a rate. Once every window has closed, the result is the
/// floor of the mean of their rates; the first failing window ends the
/// measurement with its error.
pub open spec fn advance(
    p: MeasurementProgress,
    previous: Option<InterfaceStats>,
    snap: InterfaceStats,
    config: NetworkMonitorConfig,
) -> (Option<MeasurementProgress>, Option<InterfaceStats>, MeasureStep) {
    if p.instant {
        (None, Some(snap), MeasureStep::Done(instant_outcome(previous, snap, config)))
    } else {
        match p.window_start {
            None => (
                Some(MeasurementProgress { window_start: Some(snap), ..p }),
                previous,
                MeasureStep::ReadAfter(p.window_ms),
            ),
            Some(start) => match speed_between(snap, start, config) {
                Err(e) => (None, previous, MeasureStep::Done(Err(e))),
                Ok(s) => {
                    let up = p.upload_sum + s.upload_bytes_per_sec;
                    let down = p.download_sum + s.download_bytes_per_sec;
                    if p.completed + 1 == p.windows {
                        (
                            None,
                            Some(snap),
                            MeasureStep::Done(
                                Ok(
                                    NetworkSpeed {
                                        upload_bytes_per_sec: (up / p.windows as int) as u64,
                                        download_bytes_per_sec: (down / p.windows as int) as u64,
                                        timestamp: snap.last_update,
                                    },
                                ),
                            ),
                        )
                    } else {
                        (
                            Some(
                                MeasurementProgress {
                                    completed: (p.completed + 1) as u64,
                                    window_start: None,
                                    upload_sum: up as u128,
                                    download_sum: down as u128,
                                    ..p
                                },
                            ),
                            Some(snap),
                            MeasureStep::ReadNow,
                        )
                    }
                },
            },
        }
    }
}

/// With no snapshot stored (a fresh engine, or one whose configuration was
/// just replaced or reset), an Instant measurement whose reading the filters
/// accept reports zero for both directions and does not fail.
pub proof fn lemma_cold_instant_is_zero(config: NetworkMonitorConfig, snap: InterfaceStats)
    requires
        config.precision == PrecisionMode::Instant,
    ensures
        advance(progress_for(config.precision), None, snap, config) == (
            None::<MeasurementProgress>,
            Some(snap),
            MeasureStep::Done(
                Ok(
                    NetworkSpeed {
                        upload_bytes_per_sec: 0,
                        download_bytes_per_sec: 0,
                        timestamp: snap.last_update,
                    },
                ),
            ),
        ),
{
}

/// A counter difference above the wraparound threshold, over a long enough
/// span, is reported as an overflow; and no rate is ever reported for a
/// difference above the threshold.
pub proof fn lemma_wrap_threshold(
    current: InterfaceStats,
    previous: InterfaceStats,
    config: NetworkMonitorConfig,
)
    requires
        config.valid(),
    ensures
        elapsed_ms(current, previous) >= config.min_measurement_interval.millis && (counter_diff(
            current.bytes_sent,
            previous.bytes_sent,
        ) > config.max_counter_wrap_threshold || counter_diff(
            current.bytes_received,
            previous.bytes_received,
        ) > config.max_counter_wrap_threshold) ==> speed_between(current, previous, config) == Err::<
            NetworkSpeed,
            NetworkError,
        >(NetworkError::CalculationOverflow),
        speed_between(current, previous, config) is Ok ==> counter_diff(
            current.bytes_sent,
            previous.bytes_sent,
        ) <= config.max_counter_wrap_threshold && counter_diff(
            current.bytes_received,
            previous.bytes_received,
        ) <= config.max_counter_wrap_threshold,
{
}

/// The engine: configuration, interface directory, the previous snapshot and
/// the measurement in progress.
pub struct NetworkMonitor {
    interface_manager: InterfaceManager,
    previous_stats: Option<InterfaceStats>,
    progress: Option<MeasurementProgress>,
}

impl Default for NetworkMonitor {
    fn default() -> (m: NetworkMonitor)
        ensures
            m.wf(),
            is_default_config(m.config_spec()),
            m.previous() is None,
            m.in_progress() is None,
    {
        Self::new()
    }
}

impl NetworkMonitor {
    pub closed spec fn config_spec(&self) -> NetworkMonitorConfig {
        self.interface_manager.filters()
    }

    /// The snapshot the next Instant measurement compares against.
    pub closed spec fn previous(&self) -> Option<InterfaceStats> {
        self.previous_stats
    }

    pub closed spec fn in_progress(&self) -> Option<MeasurementProgress> {
        self.progress
    }

    /// The interface directory's cache.
    pub closed spec fn cached(&self) -> Map<u32, NetworkInterface> {
        self.interface_manager.cached()
    }

    pub closed spec fn wf(&self) -> bool {
        &&& self.config_spec().valid()
        &&& (self.progress matches Some(p) ==> p.wf())
    }

    /// An engine with the default configuration.
    pub fn new() -> (m: NetworkMonitor)
        ensures
            m.wf(),
            is_default_config(m.config_spec()),
            m.previous() is None,
            m.in_progress() is None,
    {
        Self::with_config(NetworkMonitorConfig::default())
    }

    /// An engine with a validated configuration.
    pub fn with_config(config: NetworkMonitorConfig) -> (m: NetworkMonitor)
        requires
            config.valid(),
        ensures
            m.wf(),
            m.config_spec() == config,
            m.previous() is None,
            m.in_progress() is None,
            m.cached() == Map::<u32, NetworkInterface>::empty(),
    {
        NetworkMonitor {
            interface_manager: InterfaceManager::new(config),
            previous_stats: None,
            progress: None,
        }
    }

    pub fn get_config(&self) -> (r: &NetworkMonitorConfig)
        ensures
            *r == self.config_spec(),
    {
        self.interface_manager.config()
    }

    /// Starts a measurement under the configured precision; any unfinished
    /// one is dropped. The first reading is due at once.
    pub fn measure_speed(&mut self) -> (r: MeasureStep)
        requires
            old(self).wf(),
        ensures
            final(self).wf(),
            r is ReadNow,
            final(self).in_progress() == Some(progress_for(old(self).config_spec().precision)),
            final(self).config_spec() == old(self).config_spec(),
            final(self).previous() == old(self).previous(),
            final(self).cached() == old(self).cached(),
    {
        let progress = match self.interface_manager.config().precision {
            PrecisionMode::Instant => Self::fresh_progress(true, 0, 1),
            PrecisionMode::Windowed { duration } => Self::fresh_progress(false, duration.as_millis(), 1),
            PrecisionMode::Samples { samples, interval } => Self::fresh_progress(
                false,
                interval.as_millis(),
                samples as u64,
            ),
        };
        self.progress = Some(progress);
        MeasureStep::ReadNow
    }

    /// Starts a single window of the given length, whatever the configured
    /// precision.
    pub fn measure_speed_blocking(&mut self, measurement_duration: Duration) -> (r: MeasureStep)
        requires
            old(self).wf(),
        ensures
            final(self).wf(),
            r is ReadNow,
            final(self).in_progress() == Some(
                MeasurementProgress::fresh(false, measurement_duration.millis, 1),
            ),
            final(self).config_spec() == old(self).config_spec(),
            final(self).previous() == old(self).previous(),
            final(self).cached() == old(self).cached(),
    {
        self.progress = Some(Self::fresh_progress(false, measurement_duration.as_millis(), 1));
        MeasureStep::ReadNow
    }

    fn fresh_progress(instant: bool, window_ms: u64, windows: u64) -> (p: MeasurementProgress)
        ensures
            p == MeasurementProgress::fresh(instant, window_ms, windows),
    {
        MeasurementProgress {
            instant,
            window_ms,
            windows,
            completed: 0,
            window_start: None,
            upload_sum: 0,
            download_sum: 0,
        }
    }

    /// Starts a measurement only where a snapshot is stored; without one the
    /// engine is not ready and nothing starts.
    pub fn get_instantaneous_speed(&mut self) -> (r: Option<MeasureStep>)
        requires
            old(self).wf(),
        ensures
            final(self).wf(),
            r is None <==> old(self).previous() is None,
            r is None ==> *final(self) == *old(self),
            r is Some ==> r->0 is ReadNow && final(self).in_progress() == Some(
                progress_for(old(self).config_spec().precision),
            ),
            final(self).config_spec() == old(self).config_spec(),
            final(self).previous() == old(self).previous(),
    {
        if self.previous_stats.is_none() {
            return None;
        }
        Some(self.measure_speed())
    }

    /// Forgets the stored snapshot; the next Instant measurement is a cold start.
    pub fn reset(&mut self)
        requires
            old(self).wf(),
        ensures
            final(self).wf(),
            final(self).previous() is None,
            final(self).config_spec() == old(self).config_spec(),
            final(self).in_progress() == old(self).in_progress(),
            final(self).cached() == old(self).cached(),
    {
        self.previous_stats = None;
    }

    /// Rebuilds the interface cache from one enumeration result.
    pub fn refresh_interfaces(&mut self, enumerated: Vec<NetworkInterface>) -> (r: Result<()>)
        requires
            old(self).wf(),
        ensures
            final(self).wf(),
            final(self).cached() == by_index(accepted(old(self).config_spec(), enumerated@)),
            r is Ok <==> accepted(old(self).config_spec(), enumerated@).len() > 0,
            r is Err ==> r->Err_0 is NoInterfacesFound,
            final(self).config_spec() == old(self).config_spec(),
            final(self).previous() == old(self).previous(),
            final(self).in_progress() == old(self).in_progress(),
    {
        self.interface_manager.refresh_cache(enumerated)
    }

    /// Adopts a new configuration once it validates: the directory starts
    /// over and the stored snapshot, taken under the old filters, is dropped.
    /// An invalid configuration leaves the engine as it was.
    pub fn update_config(&mut self, config: NetworkMonitorConfig) -> (r: Result<()>)
        requires
            old(self).wf(),
        ensures
            final(self).wf(),
            r is Ok <==> config.valid(),
            r is Err ==> r->Err_0 is InvalidConfiguration && *final(self) == *old(self),
            r is Ok ==> final(self).config_spec() == config && final(self).previous() is None
                && final(self).in_progress() is None && final(self).cached() == Map::<
                u32,
                NetworkInterface,
            >::empty(),
    {
        match config.validate() {
            Ok(()) => {},
            Err(e) => return Err(e),
        }
        self.interface_manager = InterfaceManager::new(config);
        self.previous_stats = None;
        self.progress = None;
        Ok(())
    }

    /// The rate between two snapshots under this engine's limits.
    pub fn calculate_speed(&self, current: &InterfaceStats, previous: &InterfaceStats) -> (r: Result<
        NetworkSpeed,
    >)
        ensures
            r == speed_between(*current, *previous, self.config_spec()),
    {
        let config = self.interface_manager.config();
        let min_ms = config.min_measurement_interval.as_millis();
        let elapsed: u64 = if current.last_update >= previous.last_update {
            current.last_update - previous.last_update
        } else {
            0
        };
        if elapsed < min_ms {
            return Err(NetworkError::InsufficientTimeElapsed { min_ms, actual_ms: elapsed });
        }
        if elapsed == 0 {
            return Err(NetworkError::InsufficientTimeElapsed { min_ms, actual_ms: 0 });
        }
        let upload_diff = current.bytes_sent.wrapping_sub(previous.bytes_sent);
        let download_diff = current.bytes_received.wrapping_sub(previous.bytes_received);
        if upload_diff > config.max_counter_wrap_threshold || download_diff
            > config.max_counter_wrap_threshold {
            return Err(NetworkError::CalculationOverflow);
        }
        Ok(
            NetworkSpeed {
                upload_bytes_per_sec: rate(upload_diff, elapsed),
                download_bytes_per_sec: rate(download_diff, elapsed),
                timestamp: current.last_update,
            },
        )
    }

    /// The snapshot of one enumeration result taken at `taken_at`.
    pub fn get_current_stats(&mut self, enumerated: Vec<NetworkInterface>, taken_at: u64) -> (r: Result<
        InterfaceStats,
    >)
        requires
            old(self).wf(),
        ensures
            final(self).wf(),
            final(self).cached() == by_index(accepted(old(self).config_spec(), enumerated@)),
            r is Ok <==> accepted(old(self).config_spec(), enumerated@).len() > 0,
            r is Ok ==> r->Ok_0 == snapshot_of(old(self).config_spec(), enumerated@, taken_at),
            r is Err ==> r->Err_0 is NoInterfacesFound,
            final(self).config_spec() == old(self).config_spec(),
            final(self).previous() == old(self).previous(),
            final(self).in_progress() == old(self).in_progress(),
    {
        match self.interface_manager.get_total_traffic(enumerated) {
            Ok((sent, received)) => Ok(
                InterfaceStats { bytes_sent: sent, bytes_received: received, last_update: taken_at },
            ),
            Err(e) => Err(e),
        }
    }

    /// An Instant measurement on a snapshot: zero on a cold start, else the
    /// rate against the stored snapshot. The snapshot is stored either way.
    pub fn measure_instant(&mut self, current: InterfaceStats) -> (r: Result<NetworkSpeed>)
        requires
            old(self).wf(),
        ensures
            final(self).wf(),
            r == instant_outcome(old(self).previous(), current, old(self).config_spec()),
            final(self).previous() == Some(current),
            final(self).config_spec() == old(self).config_spec(),
            final(self).in_progress() == old(self).in_progress(),
            final(self).cached() == old(self).cached(),
    {
        let speed = match &self.previous_stats {
            None => Ok(NetworkSpeed::at(0, 0, current.last_update)),
            Some(previous) => self.calculate_speed(&current, previous),
        };
        self.previous_stats = Some(current);
        speed
    }
}

/// What one `submit_reading` does: the configuration stays; with nothing in
/// progress the engine is untouched and the answer is an error; a failed
/// enumeration, or one the filters reduce to nothing, ends the measurement
/// with that error and keeps the stored snapshot; otherwise the snapshot of
/// the reading advances the measurement as `advance` says. The directory's
/// cache always holds what the last successful enumeration accepted.
pub open spec fn reading_taken(
    before: NetworkMonitor,
    after: NetworkMonitor,
    reading: Result<Vec<NetworkInterface>>,
    taken_at: u64,
    r: MeasureStep,
) -> bool {
    &&& after.config_spec() == before.config_spec()
    &&& before.in_progress() is None ==> after == before && (r matches MeasureStep::Done(
        Err(NetworkError::InterfaceOperationFailed { .. }),
    ))
    &&& before.in_progress() is Some && reading is Err ==> {
        &&& r == MeasureStep::Done(Err(reading->Err_0))
        &&& after.in_progress() is None
        &&& after.previous() == before.previous()
        &&& after.cached() == before.cached()
    }
    &&& before.in_progress() is Some && reading is Ok ==> {
        let listed = reading->Ok_0@;
        let config = before.config_spec();
        &&& after.cached() == by_index(accepted(config, listed))
        &&& accepted(config, listed).len() == 0 ==> {
            &&& r matches MeasureStep::Done(Err(NetworkError::NoInterfacesFound))
            &&& after.in_progress() is None
            &&& after.previous() == before.previous()
        }
        &&& accepted(config, listed).len() > 0 ==> {
            let next = advance(
                before.in_progress()->0,
                before.previous(),
                snapshot_of(config, listed, taken_at),
                config,
            );
            &&& after.in_progress() == next.0
            &&& after.previous() == next.1
            &&& r == next.2
        }
    }
}

impl NetworkMonitor {
    /// Hands one reading (an enumeration result and the time it was taken) to
    /// the measurement in progress and says what comes next. A failed
    /// enumeration, or one the filters reduce to nothing, ends the measurement
    /// with that error and leaves the stored snapshot alone.
    pub fn submit_reading(&mut self, reading: Result<Vec<NetworkInterface>>, taken_at: u64) -> (r:
        MeasureStep)
        requires
            old(self).wf(),
        ensures
            final(self).wf(),
            reading_taken(*old(self), *final(self), reading, taken_at, r),
    {
        let p = match self.progress {
            None => {
                return MeasureStep::Done(
                    Err(
                        NetworkError::InterfaceOperationFailed {
                            reason: "no measurement in progress".to_string(),
                        },
                    ),
                );
            },
            Some(p) => p,
        };
        let listed = match reading {
            Err(e) => {
                self.progress = None;
                return MeasureStep::Done(Err(e));
            },
            Ok(listed) => listed,
        };
        let snap = match self.get_current_stats(listed, taken_at) {
            Err(e) => {
                self.progress = None;
                return MeasureStep::Done(Err(e));
            },
            Ok(snap) => snap,
        };
        if p.instant {
            self.progress = None;
            return MeasureStep::Done(self.measure_instant(snap));
        }
        match p.window_start {
            None => {
                self.progress = Some(MeasurementProgress { window_start: Some(snap), ..p });
                MeasureStep::ReadAfter(p.window_ms)
            },
            Some(start) => match self.calculate_speed(&snap, &start) {
                Err(e) => {
                    self.progress = None;
                    MeasureStep::Done(Err(e))
                },
                Ok(s) => {
                    self.previous_stats = Some(snap);
                    assert(p.upload_sum + s.upload_bytes_per_sec <= (p.completed + 1) * u64::MAX)
                        by (nonlinear_arith)
                        requires
                            p.upload_sum <= p.completed * u64::MAX,
                            s.upload_bytes_per_sec <= u64::MAX,
                    ;
                    assert(p.download_sum + s.download_bytes_per_sec <= (p.completed + 1) * u64::MAX)
                        by (nonlinear_arith)
                        requires
                            p.download_sum <= p.completed * u64::MAX,
                            s.download_bytes_per_sec <= u64::MAX,
                    ;
                    let up: u128 = p.upload_sum + s.upload_bytes_per_sec as u128;
                    let down: u128 = p.download_sum + s.download_bytes_per_sec as u128;
                    if p.completed + 1 == p.windows {
                        self.progress = None;
                        let windows = p.windows as u128;
                        assert(up / windows <= u64::MAX) by (nonlinear_arith)
                            requires
                                up <= windows * u64::MAX,
                                windows >= 1,
                        ;
                        assert(down / windows <= u64::MAX) by (nonlinear_arith)
                            requires
                                down <= windows * u64::MAX,
                                windows >= 1,
                        ;
                        MeasureStep::Done(
                            Ok(NetworkSpeed::at((up / windows) as u64, (down / windows) as u64, taken_at)),
                        )
                    } else {
                        self.progress = Some(
                            MeasurementProgress {
                                completed: p.completed + 1,
                                window_start: None,
                                upload_sum: up,
                                download_sum: down,
                                ..p
                            },
                        );
                        MeasureStep::ReadNow
                    }
                },
            },
        }
    }
}

/// The outcome of an instantaneous reading: a measurement that came too
/// early means "not ready yet", which is no error.
pub fn ready_speed(outcome: Result<NetworkSpeed>) -> (r: Result<Option<NetworkSpeed>>)
    ensures
        outcome is Ok ==> r == Ok::<Option<NetworkSpeed>, NetworkError>(Some(outcome->Ok_0)),
        outcome matches Err(NetworkError::InsufficientTimeElapsed { .. }) ==> r == Ok::<
            Option<NetworkSpeed>,
            NetworkError,
        >(None),
        outcome is Err && !(outcome->Err_0 is InsufficientTimeElapsed) ==> r == Err::<
            Option<NetworkSpeed>,
            NetworkError,
        >(outcome->Err_0),
{
    match outcome {
        Ok(speed) => Ok(Some(speed)),
        Err(NetworkError::InsufficientTimeElapsed { .. }) => Ok(None),
        Err(e) => Err(e),
    }
}

fn rate(diff: u64, elapsed: u64) -> (r: u64)
    requires
        elapsed > 0,
    ensures
        r == rate_of(diff, elapsed),
{
    let r: u128 = diff as u128 * 1000 / elapsed as u128;
    if r > u64::MAX as u128 {
        u64::MAX
    } else {
        r as u64
    }
}

} // verus!
