//! The history tracker: an engine plus a bounded, insertion-ordered buffer of
//! its successful measurements, with windowed average and peak queries.
use std::collections::VecDeque;
use vstd::prelude::*;

use crate::config::{NetworkMonitorConfig, is_default_config};
use crate::duration::Duration;
use crate::error::Result;
use crate::interface::NetworkInterface;
use crate::monitor::{MeasureStep, NetworkMonitor, reading_taken};
use crate::speed::{NetworkSpeed, clock_millis};

verus! {

/// The buffer after recording `s`: appended at the back, and the oldest entry
/// evicted when that exceeds the capacity.
pub open spec fn recorded(h: Seq<NetworkSpeed>, s: NetworkSpeed, capacity: nat) -> Seq<NetworkSpeed> {
    if h.len() + 1 > capacity {
        h.push(s).drop_first()
    } else {
        h.push(s)
    }
}

/// The buffer after recording each of `xs` in turn, starting empty.
pub open spec fn recorded_all(xs: Seq<NetworkSpeed>, capacity: nat) -> Seq<NetworkSpeed>
    decreases xs.len(),
{
    if xs.len() == 0 {
        Seq::empty()
    } else {
        recorded(recorded_all(xs.drop_last(), capacity), xs.last(), capacity)
    }
}

/// Whatever was recorded, the buffer holds the most recent `capacity`
/// entries in the order they came: it never exceeds its capacity, and the
/// oldest entries are the ones evicted.
pub proof fn lemma_history_keeps_latest(xs: Seq<NetworkSpeed>, capacity: nat)
    ensures
        recorded_all(xs, capacity) == xs.subrange(
            if xs.len() > capacity { xs.len() - capacity } else { 0 },
            xs.len() as int,
        ),
        recorded_all(xs, capacity).len() <= capacity,
    decreases xs.len(),
{
    if xs.len() > 0 {
        lemma_history_keeps_latest(xs.drop_last(), capacity);
        let prev = xs.drop_last();
        let start = if prev.len() > capacity { prev.len() - capacity } else { 0 };
        let start2 = if xs.len() > capacity { xs.len() - capacity } else { 0 };
        if prev.len() + 1 > capacity {
            assert(prev.subrange(start as int, prev.len() as int).push(xs.last()).drop_first()
                =~= xs.subrange(start2 as int, xs.len() as int));
        } else {
            assert(prev.subrange(start as int, prev.len() as int).push(xs.last()) =~= xs.subrange(
                start2 as int,
                xs.len() as int,
            ));
        }
    }
}

/// An entry falls in a window that starts at `cutoff`.
pub open spec fn in_window(s: NetworkSpeed, cutoff: u64) -> bool {
    s.timestamp >= cutoff
}

/// The start of a window of `window` milliseconds that ends at `now`.
pub open spec fn window_start(now: u64, window: Duration) -> u64 {
    if now >= window.millis {
        (now - window.millis) as u64
    } else {
        0
    }
}

pub open spec fn window_count(h: Seq<NetworkSpeed>, cutoff: u64) -> nat
    decreases h.len(),
{
    if h.len() == 0 {
        0
    } else {
        window_count(h.drop_last(), cutoff) + if in_window(h.last(), cutoff) {
            1nat
        } else {
            0
        }
    }
}

pub open spec fn window_upload(h: Seq<NetworkSpeed>, cutoff: u64) -> nat
    decreases h.len(),
{
    if h.len() == 0 {
        0
    } else {
        window_upload(h.drop_last(), cutoff) + if in_window(h.last(), cutoff) {
            h.last().upload_bytes_per_sec as nat
        } else {
            0
        }
    }
}

pub open spec fn window_download(h: Seq<NetworkSpeed>, cutoff: u64) -> nat
    decreases h.len(),
{
    if h.len() == 0 {
        0
    } else {
        window_download(h.drop_last(), cutoff) + if in_window(h.last(), cutoff) {
            h.last().download_bytes_per_sec as nat
        } else {
            0
        }
    }
}

/// The mean upload and download rates (each rounded down) of the entries in
/// the window, stamped `now`; none when no entry falls in it.
pub open spec fn window_average(h: Seq<NetworkSpeed>, cutoff: u64, now: u64) -> Option<NetworkSpeed> {
    let n = window_count(h, cutoff);
    if n == 0 {
        None
    } else {
        Some(
            NetworkSpeed {
                upload_bytes_per_sec: (window_upload(h, cutoff) / n) as u64,
                download_bytes_per_sec: (window_download(h, cutoff) / n) as u64,
                timestamp: now,
            },
        )
    }
}

/// Entry `i` is in the window, no entry in the window has a larger total, and
/// every later entry in the window has a smaller one.
pub open spec fn is_peak_at(h: Seq<NetworkSpeed>, cutoff: u64, i: int) -> bool {
    &&& 0 <= i < h.len()
    &&& in_window(h[i], cutoff)
    &&& forall|j: int| 0 <= j < h.len() && in_window(h[j], cutoff) ==> (#[trigger] h[j]).total() <= h[i].total()
    &&& forall|j: int| i < j < h.len() && in_window(h[j], cutoff) ==> (#[trigger] h[j]).total() < h[i].total()
}

/// The largest total in the window; among equal totals the most recently
/// recorded entry.
pub open spec fn window_peak(h: Seq<NetworkSpeed>, cutoff: u64, r: Option<NetworkSpeed>) -> bool {
    &&& r is None <==> forall|j: int| 0 <= j < h.len() ==> !in_window(#[trigger] h[j], cutoff)
    &&& r is Some ==> exists|i: int| is_peak_at(h, cutoff, i) && r->0 == h[i]
}

/// Of two entries in the window that tie for the largest total, the peak is
/// never the earlier one.
pub proof fn lemma_peak_tie_goes_to_later(h: Seq<NetworkSpeed>, cutoff: u64, k: int, i: int, j: int)
    requires
        is_peak_at(h, cutoff, k),
        0 <= i < j < h.len(),
        in_window(h[i], cutoff),
        in_window(h[j], cutoff),
        h[i].total() == h[j].total(),
    ensures
        k != i,
{
    if k == i {
        assert(h[j].total() < h[k].total());
    }
}

/// An engine whose successful measurements are kept, oldest first, up to
/// `max_history_size` of them.
pub struct NetworkSpeedTracker {
    monitor: NetworkMonitor,
    history: VecDeque<NetworkSpeed>,
    max_history_size: usize,
}

impl NetworkSpeedTracker {
    pub closed spec fn engine(&self) -> NetworkMonitor {
        self.monitor
    }

    pub closed spec fn history(&self) -> Seq<NetworkSpeed> {
        self.history@
    }

    pub closed spec fn capacity(&self) -> nat {
        self.max_history_size as nat
    }

    pub closed spec fn wf(&self) -> bool {
        &&& self.monitor.wf()
        &&& self.history@.len() <= self.max_history_size
    }

    /// A tracker on an engine with the default configuration.
    pub fn new(max_history_size: usize) -> (t: NetworkSpeedTracker)
        ensures
            t.wf(),
            is_default_config(t.engine().config_spec()),
            t.engine().previous() is None,
            t.engine().in_progress() is None,
            t.history().len() == 0,
            t.capacity() == max_history_size,
    {
        NetworkSpeedTracker {
            monitor: NetworkMonitor::new(),
            history: VecDeque::with_capacity(max_history_size),
            max_history_size,
        }
    }

    /// A tracker on an engine with a validated configuration.
    pub fn with_config(config: NetworkMonitorConfig, max_history_size: usize) -> (t: NetworkSpeedTracker)
        requires
            config.valid(),
        ensures
            t.wf(),
            t.engine().config_spec() == config,
            t.engine().previous() is None,
            t.engine().in_progress() is None,
            t.history().len() == 0,
            t.capacity() == max_history_size,
    {
        NetworkSpeedTracker {
            monitor: NetworkMonitor::with_config(config),
            history: VecDeque::with_capacity(max_history_size),
            max_history_size,
        }
    }

    pub fn get_config(&self) -> (r: &NetworkMonitorConfig)
        ensures
            *r == self.engine().config_spec(),
    {
        self.monitor.get_config()
    }

    /// Starts a measurement on the engine (see `NetworkMonitor::measure_speed`).
    pub fn track_speed(&mut self) -> (r: MeasureStep)
        requires
            old(self).wf(),
        ensures
            final(self).wf(),
            r is ReadNow,
            final(self).engine().in_progress() == Some(
                crate::monitor::progress_for(old(self).engine().config_spec().precision),
            ),
            final(self).engine().config_spec() == old(self).engine().config_spec(),
            final(self).engine().previous() == old(self).engine().previous(),
            final(self).history() == old(self).history(),
            final(self).capacity() == old(self).capacity(),
    {
        self.monitor.measure_speed()
    }

    /// Hands one reading to the engine; a measurement that completes
    /// successfully is recorded, a failed one is not.
    pub fn submit_reading(&mut self, reading: Result<Vec<NetworkInterface>>, taken_at: u64) -> (r:
        MeasureStep)
        requires
            old(self).wf(),
        ensures
            final(self).wf(),
            reading_taken(old(self).engine(), final(self).engine(), reading, taken_at, r),
            final(self).capacity() == old(self).capacity(),
            final(self).history().len() <= final(self).capacity(),
            r matches MeasureStep::Done(Ok(s)) ==> final(self).history() == recorded(
                old(self).history(),
                s,
                old(self).capacity(),
            ),
            !(r matches MeasureStep::Done(Ok(_))) ==> final(self).history() == old(self).history(),
    {
        let step = self.monitor.submit_reading(reading, taken_at);
        if let MeasureStep::Done(Ok(speed)) = &step {
            self.record(*speed);
        }
        step
    }

    fn record(&mut self, speed: NetworkSpeed)
        requires
            old(self).history@.len() <= old(self).max_history_size,
        ensures
            final(self).history@ == recorded(old(self).history@, speed, old(self).max_history_size as nat),
            final(self).history@.len() <= final(self).max_history_size,
            final(self).max_history_size == old(self).max_history_size,
            final(self).monitor == old(self).monitor,
    {
        self.history.push_back(speed);
        if self.history.len() > self.max_history_size {
            self.history.pop_front();
        }
    }

    /// The recorded measurements, oldest first.
    pub fn get_history(&self) -> (r: Vec<NetworkSpeed>)
        ensures
            r@ == self.history(),
    {
        let mut out: Vec<NetworkSpeed> = Vec::new();
        let mut k: usize = 0;
        while k < self.history.len()
            invariant
                k <= self.history@.len(),
                out@ == self.history@.take(k as int),
            decreases self.history@.len() - k,
        {
            out.push(self.history[k]);
            assert(self.history@.take(k + 1) == self.history@.take(k as int).push(self.history@[k as int]));
            k = k + 1;
        }
        assert(self.history@.take(self.history@.len() as int) == self.history@);
        out
    }

    /// The mean rates over the entries recorded no earlier than `window`
    /// before `now`, stamped `now`.
    pub fn average_at(&self, now: u64, window: Duration) -> (r: Option<NetworkSpeed>)
        ensures
            r == window_average(self.history(), window_start(now, window), now),
    {
        let cutoff: u64 = if now >= window.as_millis() {
            now - window.as_millis()
        } else {
            0
        };
        let mut count: u64 = 0;
        let mut upload: u128 = 0;
        let mut download: u128 = 0;
        let mut k: usize = 0;
        while k < self.history.len()
            invariant
                k <= self.history@.len(),
                count == window_count(self.history@.take(k as int), cutoff),
                upload == window_upload(self.history@.take(k as int), cutoff),
                download == window_download(self.history@.take(k as int), cutoff),
                count <= k,
                upload <= count * u64::MAX,
                download <= count * u64::MAX,
            decreases self.history@.len() - k,
        {
            let entry = self.history[k];
            assert(self.history@.take(k + 1).drop_last() == self.history@.take(k as int));
            if entry.timestamp >= cutoff {
                assert(upload + entry.upload_bytes_per_sec <= (count + 1) * u64::MAX) by (nonlinear_arith)
                    requires
                        upload <= count * u64::MAX,
                        entry.upload_bytes_per_sec <= u64::MAX,
                ;
                assert(download + entry.download_bytes_per_sec <= (count + 1) * u64::MAX)
                    by (nonlinear_arith)
                    requires
                        download <= count * u64::MAX,
                        entry.download_bytes_per_sec <= u64::MAX,
                ;
                assert((count + 1) * u64::MAX < u128::MAX) by (nonlinear_arith)
                    requires
                        count < u64::MAX,
                ;
                count = count + 1;
                upload = upload + entry.upload_bytes_per_sec as u128;
                download = download + entry.download_bytes_per_sec as u128;
            }
            k = k + 1;
        }
        assert(self.history@.take(self.history@.len() as int) == self.history@);
        if count == 0 {
            return None;
        }
        assert(upload / count as u128 <= u64::MAX) by (nonlinear_arith)
            requires
                upload <= count * u64::MAX,
                count >= 1,
        ;
        assert(download / count as u128 <= u64::MAX) by (nonlinear_arith)
            requires
                download <= count * u64::MAX,
                count >= 1,
        ;
        Some(NetworkSpeed::at((upload / count as u128) as u64, (download / count as u128) as u64, now))
    }

    /// The entry with the largest total among those recorded no earlier than
    /// `window` before `now`; the most recent of equal ones.
    pub fn peak_at(&self, now: u64, window: Duration) -> (r: Option<NetworkSpeed>)
        ensures
            window_peak(self.history(), window_start(now, window), r),
    {
        let cutoff: u64 = if now >= window.as_millis() {
            now - window.as_millis()
        } else {
            0
        };
        let ghost h = self.history@;
        let mut best: Option<usize> = None;
        let mut k: usize = 0;
        while k < self.history.len()
            invariant
                h == self.history@,
                k <= h.len(),
                best is None <==> forall|j: int| 0 <= j < k ==> !in_window(#[trigger] h[j], cutoff),
                best matches Some(b) ==> {
                    &&& b < k
                    &&& in_window(h[b as int], cutoff)
                    &&& forall|j: int| 0 <= j < k && in_window(h[j], cutoff) ==> (#[trigger] h[j]).total()
                        <= h[b as int].total()
                    &&& forall|j: int| b < j < k && in_window(h[j], cutoff) ==> (#[trigger] h[j]).total()
                        < h[b as int].total()
                },
            decreases h.len() - k,
        {
            let entry = self.history[k];
            if entry.timestamp >= cutoff {
                match best {
                    None => {
                        best = Some(k);
                    },
                    Some(b) => {
                        if entry.total_bytes_per_sec() >= self.history[b].total_bytes_per_sec() {
                            best = Some(k);
                        }
                    },
                }
            }
            k = k + 1;
        }
        match best {
            None => None,
            Some(b) => {
                assert(is_peak_at(h, cutoff, b as int));
                Some(self.history[b])
            },
        }
    }

    /// `average_at` for the current clock reading.
    pub fn get_average_speed(&self, duration: Duration) -> (r: Option<NetworkSpeed>)
        ensures
            exists|now: u64| r == window_average(self.history(), window_start(now, duration), now),
    {
        let now = clock_millis();
        self.average_at(now, duration)
    }

    /// `peak_at` for the current clock reading.
    pub fn get_peak_speed(&self, duration: Duration) -> (r: Option<NetworkSpeed>)
        ensures
            exists|now: u64| window_peak(self.history(), window_start(now, duration), r),
    {
        let now = clock_millis();
        self.peak_at(now, duration)
    }

    /// Empties the history; the engine is untouched.
    pub fn clear_history(&mut self)
        requires
            old(self).wf(),
        ensures
            final(self).wf(),
            final(self).history().len() == 0,
            final(self).engine() == old(self).engine(),
            final(self).capacity() == old(self).capacity(),
    {
        self.history.clear();
    }

    /// Empties the history and forgets the engine's stored snapshot.
    pub fn reset(&mut self)
        requires
            old(self).wf(),
        ensures
            final(self).wf(),
            final(self).history().len() == 0,
            final(self).engine().previous() is None,
            final(self).engine().config_spec() == old(self).engine().config_spec(),
            final(self).capacity() == old(self).capacity(),
    {
        self.monitor.reset();
        self.clear_history();
    }
}

} // verus!
