//! Decisions behind sample collection: which measurement outcomes count,
//! when collection stops, how many samples a span holds, and their mean.
//! Ticking and measuring are the caller's.
use vstd::prelude::*;

use crate::duration::Duration;
use crate::error::{NetworkError, Result};
use crate::speed::NetworkSpeed;

verus! {

/// A failure that ends a collection: anything but a too-early measurement.
pub open spec fn is_hard_failure(outcome: Result<NetworkSpeed>) -> bool {
    outcome is Err && !(outcome->Err_0 is InsufficientTimeElapsed)
}

/// The successful measurements among `outcomes`, in order.
pub open spec fn kept(outcomes: Seq<Result<NetworkSpeed>>) -> Seq<NetworkSpeed>
    decreases outcomes.len(),
{
    if outcomes.len() == 0 {
        Seq::empty()
    } else {
        let prefix = kept(outcomes.drop_last());
        match outcomes.last() {
            Ok(s) => prefix.push(s),
            Err(_) => prefix,
        }
    }
}

/// How many of `outcomes` were skipped as too early.
pub open spec fn skipped(outcomes: Seq<Result<NetworkSpeed>>) -> nat
    decreases outcomes.len(),
{
    if outcomes.len() == 0 {
        0
    } else {
        skipped(outcomes.drop_last()) + if outcomes.last() is Err {
            1nat
        } else {
            0
        }
    }
}

pub open spec fn upload_sum(s: Seq<NetworkSpeed>) -> nat
    decreases s.len(),
{
    if s.len() == 0 {
        0
    } else {
        upload_sum(s.drop_last()) + s.last().upload_bytes_per_sec as nat
    }
}

pub open spec fn download_sum(s: Seq<NetworkSpeed>) -> nat
    decreases s.len(),
{
    if s.len() == 0 {
        0
    } else {
        download_sum(s.drop_last()) + s.last().download_bytes_per_sec as nat
    }
}

/// Collects up to `sample_count` measurements, one per tick: a too-early
/// measurement is skipped, any other failure ends the collection.
pub struct SampleCollector {
    sample_count: usize,
    interval: Duration,
    ticks: usize,
    outcomes: Ghost<Seq<Result<NetworkSpeed>>>,
    samples: Vec<NetworkSpeed>,
}

impl SampleCollector {
    pub closed spec fn target(&self) -> nat {
        self.sample_count as nat
    }

    pub closed spec fn tick_interval(&self) -> Duration {
        self.interval
    }

    /// The outcomes recorded so far, one per tick.
    pub closed spec fn outcomes(&self) -> Seq<Result<NetworkSpeed>> {
        self.outcomes@
    }

    pub closed spec fn wf(&self) -> bool {
        &&& self.samples@ == kept(self.outcomes@)
        &&& self.ticks == self.outcomes@.len()
        &&& self.ticks <= self.sample_count
    }

    pub fn new(sample_count: usize, interval: Duration) -> (c: SampleCollector)
        ensures
            c.wf(),
            c.target() == sample_count,
            c.tick_interval() == interval,
            c.outcomes().len() == 0,
    {
        SampleCollector {
            sample_count,
            interval,
            ticks: 0,
            outcomes: Ghost(Seq::empty()),
            samples: Vec::new(),
        }
    }

    /// Whether another tick is due.
    pub fn wants_tick(&self) -> (r: bool)
        requires
            self.wf(),
        ensures
            r == (self.outcomes().len() < self.target()),
    {
        self.ticks < self.sample_count
    }

    /// Takes the outcome of one tick's measurement. A failure other than a
    /// too-early measurement comes back as the error that ends the collection.
    pub fn record(&mut self, outcome: Result<NetworkSpeed>) -> (r: Result<()>)
        requires
            old(self).wf(),
            old(self).outcomes().len() < old(self).target(),
        ensures
            final(self).wf(),
            final(self).target() == old(self).target(),
            final(self).tick_interval() == old(self).tick_interval(),
            final(self).outcomes() == old(self).outcomes().push(outcome),
            r is Err <==> is_hard_failure(outcome),
            r is Err ==> r->Err_0 == outcome->Err_0,
    {
        let ghost before = self.outcomes@;
        self.outcomes = Ghost(self.outcomes@.push(outcome));
        self.ticks = self.ticks + 1;
        assert(self.outcomes@.drop_last() == before);
        match outcome {
            Ok(speed) => {
                self.samples.push(speed);
                Ok(())
            },
            Err(NetworkError::InsufficientTimeElapsed { .. }) => Ok(()),
            Err(e) => Err(e),
        }
    }

    /// The samples collected, in order; with none to average, the too-early
    /// error for the tick interval.
    pub fn finish(self) -> (r: Result<Vec<NetworkSpeed>>)
        requires
            self.wf(),
        ensures
            r is Ok <==> kept(self.outcomes()).len() > 0,
            r is Ok ==> r->Ok_0@ == kept(self.outcomes()),
            r is Ok ==> r->Ok_0@.len() <= self.outcomes().len() <= self.target(),
            r is Err ==> r->Err_0 == (NetworkError::InsufficientTimeElapsed {
                min_ms: self.tick_interval().millis,
                actual_ms: 0,
            }),
    {
        proof {
            lemma_kept_count(self.outcomes@);
        }
        if self.samples.len() == 0 {
            return Err(
                NetworkError::InsufficientTimeElapsed { min_ms: self.interval.as_millis(), actual_ms: 0 },
            );
        }
        Ok(self.samples)
    }
}

/// Every tick is either kept or skipped as too early, so a collection without
/// hard failures keeps exactly the ticks that succeeded and never more than
/// it ticked.
pub proof fn lemma_kept_count(outcomes: Seq<Result<NetworkSpeed>>)
    ensures
        kept(outcomes).len() + skipped(outcomes) == outcomes.len(),
        kept(outcomes).len() <= outcomes.len(),
    decreases outcomes.len(),
{
    if outcomes.len() > 0 {
        lemma_kept_count(outcomes.drop_last());
    }
}

/// How many samples of `sample_interval` fit in `total`; none fitting, or a
/// zero interval, is a configuration error.
pub fn sample_count_for(total: Duration, sample_interval: Duration) -> (r: Result<usize>)
    ensures
        r is Ok <==> sample_interval.millis > 0 && total.millis / sample_interval.millis > 0
            && total.millis / sample_interval.millis <= usize::MAX,
        r is Ok ==> r->Ok_0 == total.millis / sample_interval.millis,
        r is Err ==> r->Err_0 is InvalidConfiguration,
{
    if sample_interval.is_zero() {
        return Err(
            NetworkError::InvalidConfiguration { field: "sample_interval must be > 0".to_string() },
        );
    }
    let count = total.as_millis() / sample_interval.as_millis();
    if count == 0 || count > usize::MAX as u64 {
        return Err(
            NetworkError::InvalidConfiguration {
                field: "measurement_duration must be greater than sample_interval".to_string(),
            },
        );
    }
    Ok(count as usize)
}

/// The mean upload and download rates of the samples, each rounded down,
/// stamped `now`.
pub fn mean_speed(samples: &Vec<NetworkSpeed>, now: u64) -> (r: NetworkSpeed)
    requires
        samples@.len() > 0,
    ensures
        r.upload_bytes_per_sec == upload_sum(samples@) / samples@.len(),
        r.download_bytes_per_sec == download_sum(samples@) / samples@.len(),
        r.timestamp == now,
{
    let mut upload: u128 = 0;
    let mut download: u128 = 0;
    let mut k: usize = 0;
    while k < samples.len()
        invariant
            k <= samples@.len(),
            upload == upload_sum(samples@.take(k as int)),
            download == download_sum(samples@.take(k as int)),
            upload <= k * u64::MAX,
            download <= k * u64::MAX,
        decreases samples@.len() - k,
    {
        let s = samples[k];
        assert(samples@.take(k + 1).drop_last() == samples@.take(k as int));
        assert(upload + s.upload_bytes_per_sec <= (k + 1) * u64::MAX) by (nonlinear_arith)
            requires
                upload <= k * u64::MAX,
                s.upload_bytes_per_sec <= u64::MAX,
        ;
        assert(download + s.download_bytes_per_sec <= (k + 1) * u64::MAX) by (nonlinear_arith)
            requires
                download <= k * u64::MAX,
                s.download_bytes_per_sec <= u64::MAX,
        ;
        assert((k + 1) * u64::MAX < u128::MAX) by (nonlinear_arith)
            requires
                k < usize::MAX,
                usize::MAX <= u64::MAX,
        ;
        upload = upload + s.upload_bytes_per_sec as u128;
        download = download + s.download_bytes_per_sec as u128;
        k = k + 1;
    }
    assert(samples@.take(samples@.len() as int) == samples@);
    let n = samples.len() as u128;
    assert(upload / n <= u64::MAX) by (nonlinear_arith)
        requires
            upload <= n * u64::MAX,
            n >= 1,
    ;
    assert(download / n <= u64::MAX) by (nonlinear_arith)
        requires
            download <= n * u64::MAX,
            n >= 1,
    ;
    NetworkSpeed::at((upload / n) as u64, (download / n) as u64, now)
}

} // verus!
