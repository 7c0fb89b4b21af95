//! The CPU budget of a preparation: reading the process-CPU clock, and the
//! decisions of the monitor that watches the budget.

use crate::pvf_worker::duration::{CpuDuration, NANOS_PER_SEC};
use cpu_time::ProcessTime;
use vstd::prelude::*;

verus! {

/// Milliseconds that the monitor waits between two readings of the clock.
pub const MONITOR_INTERVAL_MILLIS: u64 = 100;

/// The same interval in nanoseconds.
pub const MONITOR_INTERVAL_NANOS: u32 = 100_000_000;

/// Reads the CPU time that this process has used since it started, with
/// `ProcessTime::try_now` and `ProcessTime::as_duration` of the crate
/// cpu_time: whole seconds and the nanoseconds beyond them. `None` where the
/// operating system does not tell. What the clock says is not a function of
/// anything the library holds, so the contract claims only what the
/// standard library documents of every `Duration`: its sub-second part is
/// less than a second.
#[verifier::external_body]
fn process_cpu_time() -> (now: Option<(u64, u32)>)
    ensures
        now matches Some((_, nanos)) ==> nanos < NANOS_PER_SEC,
{
    match ProcessTime::try_now() {
        Ok(time) => {
            let used = time.as_duration();
            Some((used.as_secs(), used.subsec_nanos()))
        },
        Err(_) => None,
    }
}

/// The span that an answer of the clock stands for: the span of the seconds
/// and nanoseconds given, and none where the clock gave no answer or gave a
/// second or more of nanoseconds.
pub open spec fn spec_clock_reading(answer: Option<(u64, u32)>) -> Option<CpuDuration> {
    match answer {
        Some((secs, nanos)) => if nanos < NANOS_PER_SEC {
            Some(CpuDuration::spec_new(secs, nanos))
        } else {
            None
        },
        None => None,
    }
}

/// The span that an answer of the clock stands for, as `spec_clock_reading`
/// says.
pub fn clock_reading(answer: Option<(u64, u32)>) -> (reading: Option<CpuDuration>)
    ensures
        reading == spec_clock_reading(answer),
        reading matches Some(span) ==> span.wf(),
{
    match answer {
        Some((secs, nanos)) => CpuDuration::new(secs, nanos),
        None => None,
    }
}

/// The present reading of the process-CPU clock as a span since the start
/// of the process; `None` where the clock cannot be read. Whatever the
/// clock answers, the reading is the span that `clock_reading` makes of the
/// answer, and so a well-formed one.
fn read_clock() -> (now: Option<CpuDuration>)
    ensures
        now matches Some(reading) ==> reading.wf(),
        exists|answer: Option<(u64, u32)>| now == #[trigger] spec_clock_reading(answer),
{
    let answer = process_cpu_time();
    let now = clock_reading(answer);
    assert(now == spec_clock_reading(answer));
    now
}

/// The CPU time between two readings of the clock: nothing where the second
/// reading is not later than the first.
pub open spec fn spec_elapsed_between(start: CpuDuration, now: CpuDuration) -> nat {
    if now.total_nanos() >= start.total_nanos() {
        (now.total_nanos() - start.total_nanos()) as nat
    } else {
        0
    }
}

/// The CPU time used between the reading `start` and the reading `now`.
pub fn elapsed_between(start: &CpuDuration, now: &CpuDuration) -> (elapsed: CpuDuration)
    ensures
        elapsed.wf(),
        elapsed.total_nanos() == spec_elapsed_between(*start, *now),
{
    now.saturating_sub(start)
}

/// A later reading of the clock gives no shorter an elapsed time: as long as
/// the clock does not run backwards, what the monitor sees does not shrink.
pub proof fn lemma_elapsed_monotone(start: CpuDuration, earlier: CpuDuration, later: CpuDuration)
    requires
        earlier.total_nanos() <= later.total_nanos(),
    ensures
        spec_elapsed_between(start, earlier) <= spec_elapsed_between(start, later),
{
}

/// A reference point on the process-CPU clock, taken when a preparation
/// starts.
#[derive(Debug, Clone, Copy, PartialEq, Eq)]
pub struct CpuClock {
    start: CpuDuration,
}

impl CpuClock {
    /// The reading that this reference point was taken at.
    pub closed spec fn spec_started_at(self) -> CpuDuration {
        self.start
    }

    /// A reference point at the given reading.
    pub fn at(start: CpuDuration) -> (clock: CpuClock)
        ensures
            clock.spec_started_at() == start,
    {
        CpuClock { start }
    }

    /// A reference point at the present reading of the clock; `None` where
    /// the clock cannot be read. Whatever the clock answers, the reference
    /// point stands at a well-formed reading.
    pub fn start() -> (clock: Option<CpuClock>)
        ensures
            clock matches Some(point) ==> point.spec_started_at().wf(),
    {
        match read_clock() {
            Some(start) => Some(CpuClock { start }),
            None => None,
        }
    }

    /// The reading that this reference point was taken at.
    pub fn started_at(&self) -> (start: CpuDuration)
        ensures
            start == self.spec_started_at(),
    {
        self.start
    }

    /// The CPU time used since the reference point, by a fresh reading of
    /// the clock; `None` where the clock cannot be read. Whatever the clock
    /// says, the result is the difference that `elapsed_between` gives.
    pub fn elapsed(&self) -> (elapsed: Option<CpuDuration>)
        ensures
            elapsed matches Some(e) ==> e.wf() && exists|now: CpuDuration|
                e.total_nanos() == #[trigger] spec_elapsed_between(self.spec_started_at(), now),
    {
        match read_clock() {
            Some(now) => {
                let elapsed = elapsed_between(&self.start, &now);
                assert(elapsed.total_nanos() == spec_elapsed_between(self.spec_started_at(), now));
                Some(elapsed)
            },
            None => None,
        }
    }
}

/// What waiting on a one-shot stop channel for one interval gave.
#[derive(Debug, Clone, Copy, PartialEq, Eq, Structural)]
pub enum StopSignal {
    /// The interval passed and nothing was sent.
    Pending,
    /// The supervisor asked to stop.
    Stop,
    /// The supervisor is gone; nothing can be sent any more.
    Lost,
}

/// What the monitor does after a reading of the clock.
#[derive(Debug, Clone, Copy, PartialEq, Eq)]
pub enum MonitorStep {
    /// The budget holds: wait this long on the stop channel, then decide by
    /// `monitor_after_wait`.
    Wait(CpuDuration),
    /// The budget is used up: end with the elapsed time read.
    TimedOut(CpuDuration),
}

/// What the monitor does after a wait.
#[derive(Debug, Clone, Copy, PartialEq, Eq, Structural)]
pub enum MonitorWake {
    /// Read the clock again.
    SampleAgain,
    /// End without a timeout.
    Cancelled,
}

/// Whether a budget is used up at an elapsed time: when the elapsed time
/// has reached it.
pub open spec fn spec_budget_exhausted(elapsed: CpuDuration, budget: CpuDuration) -> bool {
    elapsed.total_nanos() >= budget.total_nanos()
}

/// The span that the monitor waits between two readings.
pub open spec fn spec_monitor_interval() -> CpuDuration {
    CpuDuration::spec_new(0, MONITOR_INTERVAL_NANOS)
}

/// The decision of the monitor after a reading: a timeout once the elapsed
/// CPU time has reached the budget, and one more interval of waiting before.
pub open spec fn spec_monitor_check(elapsed: CpuDuration, budget: CpuDuration) -> MonitorStep {
    if spec_budget_exhausted(elapsed, budget) {
        MonitorStep::TimedOut(elapsed)
    } else {
        MonitorStep::Wait(spec_monitor_interval())
    }
}

/// The decision of the monitor after a reading, as `spec_monitor_check`
/// says.
pub fn monitor_check(elapsed: CpuDuration, budget: CpuDuration) -> (step: MonitorStep)
    ensures
        step == spec_monitor_check(elapsed, budget),
{
    if elapsed.at_least(&budget) {
        MonitorStep::TimedOut(elapsed)
    } else {
        match CpuDuration::new(0, MONITOR_INTERVAL_NANOS) {
            Some(interval) => MonitorStep::Wait(interval),
            None => MonitorStep::Wait(CpuDuration::zero()),
        }
    }
}

/// The decision of the monitor after a wait: it ends without a timeout when
/// the supervisor asked it to or is gone, and reads the clock again
/// otherwise.
pub fn monitor_after_wait(signal: StopSignal) -> (wake: MonitorWake)
    ensures
        wake == (match signal {
            StopSignal::Pending => MonitorWake::SampleAgain,
            StopSignal::Stop => MonitorWake::Cancelled,
            StopSignal::Lost => MonitorWake::Cancelled,
        }),
{
    match signal {
        StopSignal::Pending => MonitorWake::SampleAgain,
        StopSignal::Stop => MonitorWake::Cancelled,
        StopSignal::Lost => MonitorWake::Cancelled,
    }
}

/// One round of the monitor: reads the clock and decides by `monitor_check`
/// on the time elapsed since `clock`. `None` where the clock cannot be read.
/// Whatever the clock says, the decision is the one that `monitor_check`
/// makes of some elapsed time.
pub fn monitor_sample(clock: &CpuClock, budget: CpuDuration) -> (step: Option<MonitorStep>)
    ensures
        step matches Some(decided) ==> exists|elapsed: CpuDuration|
            decided == #[trigger] spec_monitor_check(elapsed, budget),
{
    match clock.elapsed() {
        Some(elapsed) => {
            let decided = monitor_check(elapsed, budget);
            assert(decided == spec_monitor_check(elapsed, budget));
            Some(decided)
        },
        None => None,
    }
}

/// Once the monitor times out at some elapsed time, it times out at every
/// later one: a verdict does not flip back as CPU time goes on.
pub proof fn lemma_timeout_is_stable(earlier: CpuDuration, later: CpuDuration, budget: CpuDuration)
    requires
        earlier.total_nanos() <= later.total_nanos(),
        spec_budget_exhausted(earlier, budget),
    ensures
        spec_budget_exhausted(later, budget),
{
}

} // verus!
