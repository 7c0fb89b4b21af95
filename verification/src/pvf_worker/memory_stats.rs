//! Memory observed during one preparation: the running summary of the
//! sampler, the peak resident set of the compile thread, and the record that
//! carries both to the host. Either measurement may be absent.

use crate::pvf_worker::cpu_monitor::StopSignal;
use crate::pvf_worker::duration::CpuDuration;
use vstd::prelude::*;

verus! {

/// Milliseconds between two readings of the sampler.
pub const SAMPLER_INTERVAL_MILLIS: u64 = 100;

/// What the sampler saw: the largest reading, the mean of the readings
/// rounded down, and their number.
#[derive(Clone, Copy, Debug, PartialEq, Eq, Structural)]
pub struct MemoryTrackerSummary {
    pub peak: u64,
    pub avg: u64,
    pub samples: u64,
}

/// Memory observed for one request. A field is `None` where the platform
/// does not offer the measurement or the measurement was lost.
#[derive(Clone, Copy, Debug, PartialEq, Eq)]
pub struct MemoryStats {
    pub memory_tracker_stats: Option<MemoryTrackerSummary>,
    pub max_rss: Option<i64>,
}

/// What a successful preparation reports: the CPU time that compilation
/// took and the memory observed meanwhile.
#[derive(Clone, Copy, Debug, PartialEq, Eq)]
pub struct PrepareStats {
    pub cpu_time_elapsed: CpuDuration,
    pub memory_stats: MemoryStats,
}

/// The largest of the readings, 0 where there is none.
pub open spec fn spec_peak(readings: Seq<u64>) -> u64
    decreases readings.len(),
{
    if readings.len() == 0 {
        0
    } else if spec_peak(readings.drop_last()) >= readings.last() {
        spec_peak(readings.drop_last())
    } else {
        readings.last()
    }
}

/// The smallest of the readings, the largest number where there is none.
pub open spec fn spec_low(readings: Seq<u64>) -> u64
    decreases readings.len(),
{
    if readings.len() == 0 {
        u64::MAX
    } else if spec_low(readings.drop_last()) <= readings.last() {
        spec_low(readings.drop_last())
    } else {
        readings.last()
    }
}

/// The sum of the readings.
pub open spec fn spec_total(readings: Seq<u64>) -> nat
    decreases readings.len(),
{
    if readings.len() == 0 {
        0
    } else {
        spec_total(readings.drop_last()) + readings.last() as nat
    }
}

/// The summary of a run of readings: none for an empty run.
pub open spec fn spec_summary(readings: Seq<u64>) -> Option<MemoryTrackerSummary> {
    if readings.len() == 0 || readings.len() > u64::MAX {
        None
    } else {
        Some(
            MemoryTrackerSummary {
                peak: spec_peak(readings),
                avg: (spec_total(readings) / readings.len()) as u64,
                samples: readings.len() as u64,
            },
        )
    }
}

/// The peak is one of the readings and none exceeds it.
pub proof fn lemma_peak_is_maximum(readings: Seq<u64>)
    requires
        readings.len() > 0,
    ensures
        forall|i: int| 0 <= i < readings.len() ==> readings[i] <= spec_peak(readings),
        exists|i: int| 0 <= i < readings.len() && readings[i] == spec_peak(readings),
    decreases readings.len(),
{
    let front = readings.drop_last();
    if front.len() > 0 {
        lemma_peak_is_maximum(front);
        let at = choose|i: int| 0 <= i < front.len() && front[i] == spec_peak(front);
        assert(readings[at] == front[at]);
        assert forall|i: int| 0 <= i < readings.len() implies readings[i] <= spec_peak(
            readings,
        ) by {
            if i < front.len() {
                assert(readings[i] == front[i]);
            }
        }
        if spec_peak(front) >= readings.last() {
            assert(readings[at] == spec_peak(readings));
        } else {
            assert(readings[readings.len() - 1] == spec_peak(readings));
        }
    } else {
        assert(spec_peak(front) == 0);
        assert(readings.last() == readings[0]);
        assert(readings[0] == spec_peak(readings));
    }
}

/// The sum of the readings lies between their number times the lowest and
/// their number times the peak, so the mean lies between lowest and peak.
pub proof fn lemma_total_bounds(readings: Seq<u64>)
    ensures
        spec_total(readings) <= readings.len() * (spec_peak(readings) as nat),
        readings.len() > 0 ==> spec_total(readings) >= readings.len() * (spec_low(readings) as nat),
        readings.len() > 0 ==> spec_low(readings) <= spec_total(readings) / readings.len()
            <= spec_peak(readings),
    decreases readings.len(),
{
    if readings.len() > 0 {
        let front = readings.drop_last();
        let n: nat = front.len();
        lemma_total_bounds(front);
        let peak: nat = spec_peak(readings) as nat;
        let low: nat = spec_low(readings) as nat;
        let front_peak: nat = spec_peak(front) as nat;
        let total: nat = spec_total(readings);
        assert(n * front_peak <= n * peak) by (nonlinear_arith)
            requires
                front_peak <= peak,
        ;
        assert((n + 1) * peak == n * peak + peak) by (nonlinear_arith);
        assert((n + 1) * low == n * low + low) by (nonlinear_arith);
        if n > 0 {
            let front_low: nat = spec_low(front) as nat;
            assert(n * front_low >= n * low) by (nonlinear_arith)
                requires
                    front_low >= low,
            ;
        } else {
            assert(n * low == 0) by (nonlinear_arith)
                requires
                    n == 0,
            ;
        }
        let len: nat = readings.len();
        assert(low <= total / len <= peak) by (nonlinear_arith)
            requires
                len > 0,
                len * low <= total,
                total <= len * peak,
        ;
    }
}

/// The running summary of the memory sampler: lowest and largest reading,
/// their sum and their number. Its view is the run of readings taken so far.
pub struct MemorySampler {
    min: u64,
    max: u64,
    sum: u128,
    count: u64,
    readings: Ghost<Seq<u64>>,
}

impl View for MemorySampler {
    type V = Seq<u64>;

    closed spec fn view(&self) -> Seq<u64> {
        self.readings@
    }
}

impl MemorySampler {
    #[verifier::type_invariant]
    spec fn inv(self) -> bool {
        &&& self.count == self.readings@.len()
        &&& self.max == spec_peak(self.readings@)
        &&& self.min == spec_low(self.readings@)
        &&& self.sum == spec_total(self.readings@)
    }

    /// A sampler that has taken no reading.
    pub fn new() -> (sampler: MemorySampler)
        ensures
            sampler@ == Seq::<u64>::empty(),
    {
        MemorySampler { min: u64::MAX, max: 0, sum: 0, count: 0, readings: Ghost(Seq::empty()) }
    }

    /// Takes one more reading into the summary. Once as many readings are in
    /// as a 64-bit count can tell, further ones are left out.
    pub fn record(&mut self, reading: u64)
        ensures
            old(self)@.len() < u64::MAX ==> final(self)@ == old(self)@.push(reading),
            old(self)@.len() >= u64::MAX ==> final(self)@ == old(self)@,
    {
        proof {
            use_type_invariant(&*self);
            lemma_total_bounds(self.readings@);
            assert(self.readings@.len() * (spec_peak(self.readings@) as nat) <= 0xffff_ffff_ffff_ffff
                * 0xffff_ffff_ffff_ffff) by (nonlinear_arith)
                requires
                    self.readings@.len() <= 0xffff_ffff_ffff_ffff,
                    spec_peak(self.readings@) <= 0xffff_ffff_ffff_ffff,
            ;
        }
        if self.count == u64::MAX {
            return ;
        }
        let ghost after = self.readings@.push(reading);
        assert(after.drop_last() =~= self.readings@);
        assert(after.last() == reading);
        let min: u64 = if reading < self.min {
            reading
        } else {
            self.min
        };
        let max: u64 = if reading > self.max {
            reading
        } else {
            self.max
        };
        *self = MemorySampler {
            min,
            max,
            sum: self.sum + reading as u128,
            count: self.count + 1,
            readings: Ghost(after),
        };
    }

    /// Takes a reading into the summary where the platform gave one.
    pub fn observe(&mut self, reading: Option<u64>)
        ensures
            final(self)@ == match reading {
                Some(r) if old(self)@.len() < u64::MAX => old(self)@.push(r),
                _ => old(self)@,
            },
    {
        match reading {
            Some(r) => self.record(r),
            None => {},
        }
    }

    /// The number of readings taken.
    pub fn samples(&self) -> (count: u64)
        ensures
            count == self@.len(),
    {
        proof {
            use_type_invariant(self);
        }
        self.count
    }

    /// The lowest reading taken, if any was.
    pub fn lowest(&self) -> (low: Option<u64>)
        ensures
            low is Some <==> self@.len() > 0,
            low matches Some(l) ==> l == spec_low(self@),
    {
        proof {
            use_type_invariant(self);
        }
        if self.count == 0 {
            None
        } else {
            Some(self.min)
        }
    }

    /// The summary of the readings taken: `None` before the first.
    pub fn summary(&self) -> (summary: Option<MemoryTrackerSummary>)
        ensures
            summary == spec_summary(self@),
    {
        proof {
            use_type_invariant(self);
            lemma_total_bounds(self.readings@);
        }
        if self.count == 0 {
            None
        } else {
            let avg: u128 = self.sum / (self.count as u128);
            Some(MemoryTrackerSummary { peak: self.max, avg: avg as u64, samples: self.count })
        }
    }
}

/// The peak resident set of the compile thread as the record carries it:
/// present where the platform has the counter and reading it succeeded.
pub fn extract_max_rss_stat(max_rss: Option<Result<i64, String>>) -> (stat: Option<i64>)
    ensures
        stat == match max_rss {
            Some(Ok(value)) => Some(value),
            _ => None,
        },
{
    match max_rss {
        Some(Ok(value)) => Some(value),
        _ => None,
    }
}

impl MemoryStats {
    /// Puts the two measurements together.
    pub fn assemble(memory_tracker_stats: Option<MemoryTrackerSummary>, max_rss: Option<i64>) -> (stats:
        MemoryStats)
        ensures
            stats.memory_tracker_stats == memory_tracker_stats,
            stats.max_rss == max_rss,
    {
        MemoryStats { memory_tracker_stats, max_rss }
    }
}

/// What the sampler does after a wait on its stop channel.
#[derive(Debug, Clone, Copy, PartialEq, Eq)]
pub enum SamplerStep {
    /// Wait one more interval.
    Continue,
    /// End with the summary of the readings taken.
    Finished(Option<MemoryTrackerSummary>),
    /// End without a summary: the supervisor is gone.
    Lost,
}

/// How the sampler thread ended, as the supervisor sees it.
#[derive(Debug, Clone, Copy, PartialEq, Eq)]
pub enum SamplerExit {
    /// The sampler ended with what it had.
    Summary(Option<MemoryTrackerSummary>),
    /// The sampler lost its channel or panicked.
    Failed,
}

/// The readings of a sampler after a wait that ended with `signal`, when the
/// platform gave `reading` after the wait: the reading is taken in unless
/// the supervisor is gone.
pub open spec fn spec_readings_after_wait(
    readings: Seq<u64>,
    signal: StopSignal,
    reading: Option<u64>,
) -> Seq<u64> {
    match (signal, reading) {
        (StopSignal::Lost, _) => readings,
        (_, Some(r)) if readings.len() < u64::MAX => readings.push(r),
        _ => readings,
    }
}

/// One round of the sampler, after a wait of `SAMPLER_INTERVAL_MILLIS` on
/// the stop channel: the reading taken after the wait goes into the summary,
/// and the sampler goes on, or ends with its summary when it was asked to
/// stop. A sampler whose supervisor is gone ends without one.
pub fn memory_tracker_step(sampler: &mut MemorySampler, signal: StopSignal, reading: Option<u64>) -> (step:
    SamplerStep)
    ensures
        final(sampler)@ == spec_readings_after_wait(old(sampler)@, signal, reading),
        step == (match signal {
            StopSignal::Pending => SamplerStep::Continue,
            StopSignal::Stop => SamplerStep::Finished(spec_summary(final(sampler)@)),
            StopSignal::Lost => SamplerStep::Lost,
        }),
{
    match signal {
        StopSignal::Pending => {
            sampler.observe(reading);
            SamplerStep::Continue
        },
        StopSignal::Stop => {
            sampler.observe(reading);
            SamplerStep::Finished(sampler.summary())
        },
        StopSignal::Lost => SamplerStep::Lost,
    }
}

/// The sampler's part of the memory record: its summary where the request
/// to stop reached it and it ended with one, and nothing otherwise. A
/// measurement that is lost never fails the preparation.
pub fn get_memory_tracker_loop_stats(stop_delivered: bool, exit: SamplerExit) -> (stats: Option<
    MemoryTrackerSummary,
>)
    ensures
        stats == (match exit {
            SamplerExit::Summary(summary) if stop_delivered => summary,
            _ => None,
        }),
{
    if !stop_delivered {
        return None;
    }
    match exit {
        SamplerExit::Summary(summary) => summary,
        SamplerExit::Failed => None,
    }
}

} // verus!
