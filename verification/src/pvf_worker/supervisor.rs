//! The supervisor of one preparation: a state machine that takes what the
//! threads around it report and says what to do next, from the request to
//! the one reply.
//!
//! The caller owns the threads, the clock and the file. It performs each
//! action and reports back with the event that the action asks for.

use crate::pvf_worker::duration::CpuDuration;
use crate::pvf_worker::error::{OutcomeKind, PrepareError, PrepareErrorView};
use crate::pvf_worker::memory_stats::{MemoryStats, MemoryTrackerSummary, PrepareStats};
use crate::pvf_worker::prepare::{spec_stringify_panic_payload, stringify_panic_payload, PanicPayload};
use crate::pvf_worker::request::{CompiledArtifact, PvfPrepData, PvfPrepDataView};
use vstd::prelude::*;

verus! {

/// Milliseconds that the supervisor sleeps between two looks at its threads.
pub const POLL_INTERVAL_MILLIS: u64 = 10;

/// The detail of the failure reported when the CPU monitor ended although
/// nobody had asked it to.
pub open spec fn spec_monitor_lost() -> Seq<char> {
    "error communicating over finished channel"@
}

/// What runs beside the supervisor during a preparation.
#[derive(Debug, Clone, Copy, PartialEq, Eq, Structural)]
pub enum Activity {
    /// The compile task.
    CompileTask,
    /// The monitor of the CPU budget.
    CpuMonitor,
    /// The sampler of memory use.
    MemorySampler,
}

/// The order in which the activities of a preparation are started: the
/// compile task first, so that no CPU time of its own goes unwatched for
/// longer than it takes to start the monitor, and the sampler last.
pub fn spawn_order() -> (order: [Activity; 3])
    ensures
        order@ == seq![Activity::CompileTask, Activity::CpuMonitor, Activity::MemorySampler],
{
    let order = [Activity::CompileTask, Activity::CpuMonitor, Activity::MemorySampler];
    assert(order@ =~= seq![Activity::CompileTask, Activity::CpuMonitor, Activity::MemorySampler]);
    order
}

/// What the compile thread hands back on success: the artifact, and the
/// peak resident set of the thread where the platform counts it.
#[derive(Debug, Clone, PartialEq, Eq)]
pub struct PreparedArtifact {
    pub artifact: CompiledArtifact,
    pub max_rss: Option<i64>,
}

/// How the compile thread ended.
#[derive(Debug, PartialEq, Eq)]
pub enum PrepareExit {
    /// The compile task returned.
    Returned(Result<PreparedArtifact, PrepareError>),
    /// The thread panicked outside the compile task's own panic boundary.
    Panicked(PanicPayload),
}

/// How the CPU monitor thread ended.
#[derive(Debug, Clone, PartialEq, Eq)]
pub enum MonitorExit {
    /// The budget ran out at this elapsed CPU time.
    TimedOut(CpuDuration),
    /// The monitor ended without a timeout.
    Cancelled,
    /// The monitor thread panicked.
    Panicked(PanicPayload),
}

/// What a look at the two threads settles.
#[derive(Debug, Clone, PartialEq, Eq)]
pub enum Resolution {
    /// The compile task produced an artifact.
    Prepared(PreparedArtifact),
    /// The preparation failed.
    Failed(PrepareError),
}

/// `PrepareExit` as plain values; a panic is its text.
pub enum PrepareExitView {
    Prepared(Seq<u8>, Option<i64>),
    Failed(PrepareErrorView),
    Panicked(Seq<char>),
}

/// `MonitorExit` as plain values; a panic is its text.
pub enum MonitorExitView {
    TimedOut(CpuDuration),
    Cancelled,
    Panicked(Seq<char>),
}

/// `Resolution` as plain values.
pub enum ResolutionView {
    Prepared(Seq<u8>, Option<i64>),
    Failed(PrepareErrorView),
}

impl View for PrepareExit {
    type V = PrepareExitView;

    open spec fn view(&self) -> PrepareExitView {
        match self {
            PrepareExit::Returned(Ok(prepared)) => PrepareExitView::Prepared(
                prepared.artifact@,
                prepared.max_rss,
            ),
            PrepareExit::Returned(Err(error)) => PrepareExitView::Failed(error@),
            PrepareExit::Panicked(payload) => PrepareExitView::Panicked(
                spec_stringify_panic_payload(*payload),
            ),
        }
    }
}

impl View for MonitorExit {
    type V = MonitorExitView;

    open spec fn view(&self) -> MonitorExitView {
        match self {
            MonitorExit::TimedOut(elapsed) => MonitorExitView::TimedOut(*elapsed),
            MonitorExit::Cancelled => MonitorExitView::Cancelled,
            MonitorExit::Panicked(payload) => MonitorExitView::Panicked(
                spec_stringify_panic_payload(*payload),
            ),
        }
    }
}

impl View for Resolution {
    type V = ResolutionView;

    open spec fn view(&self) -> ResolutionView {
        match self {
            Resolution::Prepared(prepared) => ResolutionView::Prepared(
                prepared.artifact@,
                prepared.max_rss,
            ),
            Resolution::Failed(error) => ResolutionView::Failed(error@),
        }
    }
}

/// The view of an exit that may not have happened yet.
pub open spec fn prepare_exit_view(exit: Option<PrepareExit>) -> Option<PrepareExitView> {
    match exit {
        Some(e) => Some(e@),
        None => None,
    }
}

/// The view of an exit that may not have happened yet.
pub open spec fn monitor_exit_view(exit: Option<MonitorExit>) -> Option<MonitorExitView> {
    match exit {
        Some(e) => Some(e@),
        None => None,
    }
}

/// The view of a resolution that may not have been reached yet.
pub open spec fn resolution_view(resolution: Option<Resolution>) -> Option<ResolutionView> {
    match resolution {
        Some(r) => Some(r@),
        None => None,
    }
}

/// What the end of the compile thread settles, whatever the monitor did.
pub open spec fn spec_resolve_prepare(exit: PrepareExitView) -> ResolutionView {
    match exit {
        PrepareExitView::Prepared(artifact, max_rss) => ResolutionView::Prepared(
            artifact,
            max_rss,
        ),
        PrepareExitView::Failed(error) => ResolutionView::Failed(error),
        PrepareExitView::Panicked(text) => ResolutionView::Failed(PrepareErrorView::Panic(text)),
    }
}

/// What the end of the monitor thread settles while the compile thread is
/// still running.
pub open spec fn spec_resolve_monitor(exit: MonitorExitView) -> ResolutionView {
    match exit {
        MonitorExitView::TimedOut(_) => ResolutionView::Failed(PrepareErrorView::TimedOut),
        MonitorExitView::Cancelled => ResolutionView::Failed(
            PrepareErrorView::IoErr(spec_monitor_lost()),
        ),
        MonitorExitView::Panicked(text) => ResolutionView::Failed(PrepareErrorView::IoErr(text)),
    }
}

/// The rule by which a look at the two threads is settled: the compile
/// thread is asked first, and the monitor only where the compile thread has
/// not ended. Nothing is settled while both are running.
pub open spec fn spec_resolve(
    prepare: Option<PrepareExitView>,
    monitor: Option<MonitorExitView>,
) -> Option<ResolutionView> {
    match prepare {
        Some(exit) => Some(spec_resolve_prepare(exit)),
        None => match monitor {
            Some(exit) => Some(spec_resolve_monitor(exit)),
            None => None,
        },
    }
}

/// The kind of outcome that a resolution leads to if the artifact can be
/// written.
pub open spec fn spec_resolution_kind(resolution: ResolutionView) -> OutcomeKind {
    match resolution {
        ResolutionView::Prepared(_, _) => OutcomeKind::Prepared,
        ResolutionView::Failed(error) => error.kind(),
    }
}

/// Settles a look at the two threads by the rule of `spec_resolve`.
pub fn resolve(prepare: Option<PrepareExit>, monitor: Option<MonitorExit>) -> (resolution: Option<
    Resolution,
>)
    ensures
        resolution_view(resolution) == spec_resolve(
            prepare_exit_view(prepare),
            monitor_exit_view(monitor),
        ),
{
    match prepare {
        Some(PrepareExit::Returned(Ok(prepared))) => Some(Resolution::Prepared(prepared)),
        Some(PrepareExit::Returned(Err(error))) => Some(Resolution::Failed(error)),
        Some(PrepareExit::Panicked(payload)) => Some(
            Resolution::Failed(PrepareError::Panic(stringify_panic_payload(payload))),
        ),
        None => match monitor {
            Some(MonitorExit::TimedOut(_)) => Some(Resolution::Failed(PrepareError::TimedOut)),
            Some(MonitorExit::Cancelled) => Some(
                Resolution::Failed(
                    PrepareError::IoErr("error communicating over finished channel".to_owned()),
                ),
            ),
            Some(MonitorExit::Panicked(payload)) => Some(
                Resolution::Failed(PrepareError::IoErr(stringify_panic_payload(payload))),
            ),
            None => None,
        },
    }
}

/// Once the compile thread has ended, what is settled depends on how it
/// ended and on nothing else: not on whether the monitor has fired, nor on
/// when the supervisor looked.
pub proof fn lemma_compile_decides(
    exit: PrepareExitView,
    monitor_a: Option<MonitorExitView>,
    monitor_b: Option<MonitorExitView>,
)
    ensures
        spec_resolve(Some(exit), monitor_a) == spec_resolve(Some(exit), monitor_b),
        spec_resolve(Some(exit), monitor_a) == Some(spec_resolve_prepare(exit)),
{
}

/// A compile task that ended with an artifact is never reported as timed
/// out, however late the supervisor looked and whatever the monitor says.
pub proof fn lemma_finished_compile_beats_timeout(
    artifact: Seq<u8>,
    max_rss: Option<i64>,
    monitor: Option<MonitorExitView>,
)
    ensures
        spec_resolve(Some(PrepareExitView::Prepared(artifact, max_rss)), monitor) == Some(
            ResolutionView::Prepared(artifact, max_rss),
        ),
{
}

/// The supervisor itself settles on a timeout only where the compile thread
/// is still running and the monitor has fired.
pub proof fn lemma_timeout_only_while_compiling(
    prepare: Option<PrepareExitView>,
    monitor: Option<MonitorExitView>,
)
    requires
        spec_resolve(prepare, monitor) == Some(
            ResolutionView::Failed(PrepareErrorView::TimedOut),
        ),
    ensures
        (prepare is None && monitor matches Some(MonitorExitView::TimedOut(_))) || prepare == Some(
            PrepareExitView::Failed(PrepareErrorView::TimedOut),
        ),
{
}

/// Where the supervisor stands with its one request.
#[derive(Debug, PartialEq, Eq)]
pub enum Supervisor {
    /// No request yet.
    Start,
    /// The compile task, the CPU monitor and the memory sampler are running.
    Spawned { budget: CpuDuration },
    /// The compile task produced an artifact at the elapsed CPU time held;
    /// the sampler's summary is awaited.
    Resolved { artifact: CompiledArtifact, max_rss: Option<i64>, cpu_time_elapsed: CpuDuration },
    /// The artifact is being written; the statistics wait for the result.
    Finalizing { stats: PrepareStats },
    /// The reply has been given.
    Replied,
}

/// What the caller reports to the supervisor.
#[derive(Debug, PartialEq, Eq)]
pub enum Event {
    /// A request has arrived.
    Request(PvfPrepData),
    /// A look at the threads: how the compile thread and the monitor thread
    /// ended, each `None` while it runs, and the CPU time elapsed since the
    /// request's reference point, read after the look at the compile thread.
    Polled { prepare: Option<PrepareExit>, monitor: Option<MonitorExit>, cpu_time_elapsed: CpuDuration },
    /// The sampler has stopped, with its summary where it had one.
    SamplerStopped(Option<MemoryTrackerSummary>),
    /// The artifact has been written, or could not be, with the reason.
    Written(Result<(), String>),
}

/// What the supervisor asks the caller to do.
#[derive(Debug, PartialEq, Eq)]
pub enum Action {
    /// Nothing: the event was none that the state awaits.
    Ignore,
    /// Take the CPU reference point; start the activities in the order of
    /// `spawn_order`, the CPU monitor with the request's budget; then look at
    /// the threads and report `Polled`.
    Spawn(PvfPrepData),
    /// Sleep for the poll interval, then look again and report `Polled`.
    Sleep,
    /// Tell the CPU monitor to stop, stop the sampler and report
    /// `SamplerStopped`.
    StopMonitors,
    /// Write these bytes to the destination, replacing what is there, and
    /// report `Written`.
    WriteArtifact(Vec<u8>),
    /// Send this outcome to the host. Whatever still runs is told to stop or
    /// left behind; nothing is waited for.
    Reply(Result<PrepareStats, PrepareError>),
}

/// `Supervisor` as plain values.
pub enum SupervisorView {
    Start,
    Spawned { budget: CpuDuration },
    Resolved { artifact: Seq<u8>, max_rss: Option<i64>, cpu_time_elapsed: CpuDuration },
    Finalizing { stats: PrepareStats },
    Replied,
}

/// `Event` as plain values. A write is reported by the reason of its
/// failure, `None` for success.
pub enum EventView {
    Request(PvfPrepDataView),
    Polled {
        prepare: Option<PrepareExitView>,
        monitor: Option<MonitorExitView>,
        cpu_time_elapsed: CpuDuration,
    },
    SamplerStopped(Option<MemoryTrackerSummary>),
    Written(Option<Seq<char>>),
}

/// `Action` as plain values.
pub enum ActionView {
    Ignore,
    Spawn(PvfPrepDataView),
    Sleep,
    StopMonitors,
    WriteArtifact(Seq<u8>),
    Reply(Result<PrepareStats, PrepareErrorView>),
}

impl View for Supervisor {
    type V = SupervisorView;

    open spec fn view(&self) -> SupervisorView {
        match self {
            Supervisor::Start => SupervisorView::Start,
            Supervisor::Spawned { budget } => SupervisorView::Spawned { budget: *budget },
            Supervisor::Resolved { artifact, max_rss, cpu_time_elapsed } => SupervisorView::Resolved {
                artifact: artifact@,
                max_rss: *max_rss,
                cpu_time_elapsed: *cpu_time_elapsed,
            },
            Supervisor::Finalizing { stats } => SupervisorView::Finalizing { stats: *stats },
            Supervisor::Replied => SupervisorView::Replied,
        }
    }
}

impl View for Event {
    type V = EventView;

    open spec fn view(&self) -> EventView {
        match self {
            Event::Request(request) => EventView::Request(request@),
            Event::Polled { prepare, monitor, cpu_time_elapsed } => EventView::Polled {
                prepare: prepare_exit_view(*prepare),
                monitor: monitor_exit_view(*monitor),
                cpu_time_elapsed: *cpu_time_elapsed,
            },
            Event::SamplerStopped(summary) => EventView::SamplerStopped(*summary),
            Event::Written(Ok(_)) => EventView::Written(None),
            Event::Written(Err(reason)) => EventView::Written(Some(reason@)),
        }
    }
}

impl View for Action {
    type V = ActionView;

    open spec fn view(&self) -> ActionView {
        match self {
            Action::Ignore => ActionView::Ignore,
            Action::Spawn(request) => ActionView::Spawn(request@),
            Action::Sleep => ActionView::Sleep,
            Action::StopMonitors => ActionView::StopMonitors,
            Action::WriteArtifact(bytes) => ActionView::WriteArtifact(bytes@),
            Action::Reply(Ok(stats)) => ActionView::Reply(Ok(*stats)),
            Action::Reply(Err(error)) => ActionView::Reply(Err(error@)),
        }
    }
}

/// The statistics of a success: the CPU time read when the compile task was
/// seen to have ended, the sampler's summary and the thread's peak.
pub open spec fn spec_stats(
    cpu_time_elapsed: CpuDuration,
    summary: Option<MemoryTrackerSummary>,
    max_rss: Option<i64>,
) -> PrepareStats {
    PrepareStats {
        cpu_time_elapsed,
        memory_stats: MemoryStats { memory_tracker_stats: summary, max_rss },
    }
}

/// The transition of the supervisor: the state after an event, and the
/// action that the event calls for. An event that the state does not await
/// changes nothing.
pub open spec fn spec_step(state: SupervisorView, event: EventView) -> (SupervisorView, ActionView) {
    match (state, event) {
        (SupervisorView::Start, EventView::Request(request)) => (
            SupervisorView::Spawned { budget: request.prep_timeout },
            ActionView::Spawn(request),
        ),
        (
            SupervisorView::Spawned { budget },
            EventView::Polled { prepare, monitor, cpu_time_elapsed },
        ) => match spec_resolve(prepare, monitor) {
            None => (state, ActionView::Sleep),
            Some(ResolutionView::Prepared(artifact, max_rss)) => (
                SupervisorView::Resolved { artifact, max_rss, cpu_time_elapsed },
                ActionView::StopMonitors,
            ),
            Some(ResolutionView::Failed(error)) => (
                SupervisorView::Replied,
                ActionView::Reply(Err(error)),
            ),
        },
        (
            SupervisorView::Resolved { artifact, max_rss, cpu_time_elapsed },
            EventView::SamplerStopped(summary),
        ) => (
            SupervisorView::Finalizing { stats: spec_stats(cpu_time_elapsed, summary, max_rss) },
            ActionView::WriteArtifact(artifact),
        ),
        (SupervisorView::Finalizing { stats }, EventView::Written(None)) => (
            SupervisorView::Replied,
            ActionView::Reply(Ok(stats)),
        ),
        (SupervisorView::Finalizing { stats }, EventView::Written(Some(reason))) => (
            SupervisorView::Replied,
            ActionView::Reply(Err(PrepareErrorView::IoErr(reason))),
        ),
        _ => (state, ActionView::Ignore),
    }
}

impl Supervisor {
    /// A supervisor that awaits its request.
    pub fn new() -> (supervisor: Supervisor)
        ensures
            supervisor@ == SupervisorView::Start,
    {
        Supervisor::Start
    }

    /// Whether the reply has been given.
    pub fn is_done(&self) -> (done: bool)
        ensures
            done <==> self@ is Replied,
    {
        match self {
            Supervisor::Replied => true,
            _ => false,
        }
    }

    /// Takes an event: the state after it and the action it calls for, as
    /// `spec_step` says.
    pub fn step(self, event: Event) -> (next: (Supervisor, Action))
        ensures
            (next.0@, next.1@) == spec_step(self@, event@),
    {
        match (self, event) {
            (Supervisor::Start, Event::Request(request)) => {
                let budget = request.prep_timeout();
                (Supervisor::Spawned { budget }, Action::Spawn(request))
            },
            (Supervisor::Spawned { budget }, Event::Polled { prepare, monitor, cpu_time_elapsed }) => {
                match resolve(prepare, monitor) {
                    None => (Supervisor::Spawned { budget }, Action::Sleep),
                    Some(Resolution::Prepared(prepared)) => (
                        Supervisor::Resolved {
                            artifact: prepared.artifact,
                            max_rss: prepared.max_rss,
                            cpu_time_elapsed,
                        },
                        Action::StopMonitors,
                    ),
                    Some(Resolution::Failed(error)) => (
                        Supervisor::Replied,
                        Action::Reply(Err(error)),
                    ),
                }
            },
            (
                Supervisor::Resolved { artifact, max_rss, cpu_time_elapsed },
                Event::SamplerStopped(summary),
            ) => {
                let stats = PrepareStats {
                    cpu_time_elapsed,
                    memory_stats: MemoryStats::assemble(summary, max_rss),
                };
                (Supervisor::Finalizing { stats }, Action::WriteArtifact(artifact.into_bytes()))
            },
            (Supervisor::Finalizing { stats }, Event::Written(Ok(_))) => (
                Supervisor::Replied,
                Action::Reply(Ok(stats)),
            ),
            (Supervisor::Finalizing { stats }, Event::Written(Err(reason))) => (
                Supervisor::Replied,
                Action::Reply(Err(PrepareError::IoErr(reason))),
            ),
            (state, _) => (state, Action::Ignore),
        }
    }
}

/// What a run of the supervisor has come to: its state, what it asked to
/// have written, what it replied, and what it was told on the way.
pub struct RunView {
    /// The state after the last event.
    pub state: SupervisorView,
    /// The artifacts that it asked to have written, in order.
    pub writes: Seq<Seq<u8>>,
    /// The outcomes that it asked to have sent, in order.
    pub replies: Seq<Result<PrepareStats, PrepareErrorView>>,
    /// Whether a write that it asked for was reported as done.
    pub write_succeeded: bool,
    /// The artifact of the compile task and the CPU time reported with it,
    /// once the compile thread was seen to have ended with one.
    pub compiled: Option<(Seq<u8>, CpuDuration)>,
}

/// A run before its first event.
pub open spec fn spec_run_start() -> RunView {
    RunView {
        state: SupervisorView::Start,
        writes: Seq::empty(),
        replies: Seq::empty(),
        write_succeeded: false,
        compiled: None,
    }
}

/// A run after one more event.
pub open spec fn spec_run_advance(run: RunView, event: EventView) -> RunView {
    let (state, action) = spec_step(run.state, event);
    RunView {
        state,
        writes: match action {
            ActionView::WriteArtifact(bytes) => run.writes.push(bytes),
            _ => run.writes,
        },
        replies: match action {
            ActionView::Reply(outcome) => run.replies.push(outcome),
            _ => run.replies,
        },
        write_succeeded: run.write_succeeded || (run.state is Finalizing && event
            == EventView::Written(None)),
        compiled: match (run.state, event, state) {
            (
                SupervisorView::Spawned { .. },
                EventView::Polled { cpu_time_elapsed, .. },
                SupervisorView::Resolved { artifact, .. },
            ) => Some((artifact, cpu_time_elapsed)),
            _ => run.compiled,
        },
    }
}

/// The run that a sequence of events leads to, whatever the events are.
pub open spec fn spec_run(events: Seq<EventView>) -> RunView
    decreases events.len(),
{
    if events.len() == 0 {
        spec_run_start()
    } else {
        spec_run_advance(spec_run(events.drop_last()), events.last())
    }
}

/// What holds of every run.
pub open spec fn spec_run_invariant(run: RunView) -> bool {
    &&& run.writes.len() <= 1
    &&& run.replies.len() <= 1
    &&& run.replies.len() == 1 <==> run.state is Replied
    &&& run.write_succeeded <==> run.replies.len() == 1 && run.replies[0] is Ok
    &&& run.write_succeeded ==> run.writes.len() == 1
    &&& run.writes.len() == 1 ==> run.compiled is Some && run.compiled->Some_0.0 == run.writes[0]
    &&& run.replies.len() == 1 && run.replies[0] is Ok ==> run.compiled is Some
        && run.replies[0]->Ok_0.cpu_time_elapsed == run.compiled->Some_0.1
    &&& match run.state {
        SupervisorView::Start => run.writes.len() == 0 && run.compiled is None,
        SupervisorView::Spawned { .. } => run.writes.len() == 0 && run.compiled is None,
        SupervisorView::Resolved { artifact, cpu_time_elapsed, .. } => run.writes.len() == 0
            && run.compiled == Some((artifact, cpu_time_elapsed)),
        SupervisorView::Finalizing { stats } => run.writes.len() == 1 && run.compiled is Some
            && run.compiled->Some_0.1 == stats.cpu_time_elapsed,
        SupervisorView::Replied => true,
    }
}

/// One more event keeps what holds of every run.
#[verifier::rlimit(50)]
pub proof fn lemma_advance_keeps_invariant(run: RunView, event: EventView)
    requires
        spec_run_invariant(run),
    ensures
        spec_run_invariant(spec_run_advance(run, event)),
{
}

/// For one request and whatever is reported to the supervisor, in whatever
/// order: it asks for at most one write and gives at most one reply; it has
/// replied exactly when it has come to its last state; the reply is a
/// success exactly when the write it asked for was reported done; what it
/// asked to have written is the artifact of the compile task; and the CPU
/// time of a success is the one reported when the compile thread was seen to
/// have ended, before the monitor was stopped and the artifact written.
pub proof fn lemma_run_invariant(events: Seq<EventView>)
    ensures
        spec_run_invariant(spec_run(events)),
    decreases events.len(),
{
    if events.len() > 0 {
        lemma_run_invariant(events.drop_last());
        lemma_advance_keeps_invariant(spec_run(events.drop_last()), events.last());
    }
}

/// The reply is a success exactly when the artifact was written: the host
/// never gets a success without the file, nor the file without a success.
pub proof fn lemma_artifact_iff_success(events: Seq<EventView>)
    requires
        spec_run(events).state is Replied,
    ensures
        spec_run(events).replies.len() == 1,
        spec_run(events).replies[0] is Ok <==> spec_run(events).write_succeeded,
        spec_run(events).replies[0] is Ok ==> spec_run(events).writes.len() == 1,
{
    lemma_run_invariant(events);
}

/// A preparation whose compile task ends with an artifact, whose artifact
/// is written, ends in a success: from the state in which the threads run,
/// the three reports lead to exactly one write, of the artifact as the
/// compile task produced it, and to exactly one reply, a success with the
/// CPU time of the look that saw the compile task ended. This holds request
/// after request, so the destination always holds the artifact produced
/// last.
#[verifier::rlimit(50)]
pub proof fn lemma_success_writes_the_artifact(
    run: RunView,
    artifact: Seq<u8>,
    max_rss: Option<i64>,
    monitor: Option<MonitorExitView>,
    cpu_time_elapsed: CpuDuration,
    summary: Option<MemoryTrackerSummary>,
)
    requires
        spec_run_invariant(run),
        run.state is Spawned,
    ensures
        ({
            let seen = spec_run_advance(
                run,
                EventView::Polled {
                    prepare: Some(PrepareExitView::Prepared(artifact, max_rss)),
                    monitor,
                    cpu_time_elapsed,
                },
            );
            let stopped = spec_run_advance(seen, EventView::SamplerStopped(summary));
            let done = spec_run_advance(stopped, EventView::Written(None));
            &&& done.state is Replied
            &&& done.writes == seq![artifact]
            &&& done.replies == seq![
                Ok::<PrepareStats, PrepareErrorView>(
                    spec_stats(cpu_time_elapsed, summary, max_rss),
                ),
            ]
            &&& done.write_succeeded
        }),
{
    let seen = spec_run_advance(
        run,
        EventView::Polled {
            prepare: Some(PrepareExitView::Prepared(artifact, max_rss)),
            monitor,
            cpu_time_elapsed,
        },
    );
    let stopped = spec_run_advance(seen, EventView::SamplerStopped(summary));
    let done = spec_run_advance(stopped, EventView::Written(None));
    assert(run.writes =~= Seq::empty());
    assert(run.replies =~= Seq::empty());
    assert(done.writes =~= seq![artifact]);
    assert(done.replies =~= seq![
        Ok::<PrepareStats, PrepareErrorView>(spec_stats(cpu_time_elapsed, summary, max_rss)),
    ]);
}

/// Whether `event` is a look that saw the compile task ended with
/// `artifact`, at the CPU time `cpu_time`.
pub open spec fn spec_saw_compiled(event: EventView, artifact: Seq<u8>, cpu_time: CpuDuration) -> bool {
    match event {
        EventView::Polled {
            prepare: Some(PrepareExitView::Prepared(seen, _)),
            cpu_time_elapsed,
            ..
        } => seen == artifact && cpu_time_elapsed == cpu_time,
        _ => false,
    }
}

/// What a run holds as the artifact of the compile task and its CPU time
/// was reported to it by one of its events: a look that saw the compile
/// task ended.
pub proof fn lemma_compiled_was_seen(events: Seq<EventView>)
    ensures
        spec_run(events).compiled matches Some((artifact, cpu_time)) ==> exists|i: int|
            0 <= i < events.len() && spec_saw_compiled(#[trigger] events[i], artifact, cpu_time),
    decreases events.len(),
{
    if events.len() > 0 {
        let before = events.drop_last();
        let last = events.last();
        lemma_compiled_was_seen(before);
        lemma_run_invariant(before);
        let run = spec_run(before);
        let next = spec_run(events);
        if next.compiled is Some {
            let (artifact, cpu_time) = next.compiled->Some_0;
            if run.compiled == next.compiled {
                let i = choose|i: int|
                    0 <= i < before.len() && spec_saw_compiled(
                        #[trigger] before[i],
                        artifact,
                        cpu_time,
                    );
                assert(events[i] == before[i]);
                assert(spec_saw_compiled(events[i], artifact, cpu_time));
            } else {
                assert(spec_saw_compiled(last, artifact, cpu_time));
                assert(events[events.len() - 1] == last);
            }
        }
    }
}

/// The CPU time of a success is the one read at the look that saw the
/// compile task ended, and the artifact written is the one that this look
/// saw. The supervisor does not hold a finished compile task to the budget:
/// whatever that look read is what the success reports.
pub proof fn lemma_cpu_time_of_success(events: Seq<EventView>)
    requires
        spec_run(events).replies.len() == 1,
        spec_run(events).replies[0] is Ok,
    ensures
        spec_run(events).writes.len() == 1,
        exists|i: int|
            0 <= i < events.len() && spec_saw_compiled(
                #[trigger] events[i],
                spec_run(events).writes[0],
                spec_run(events).replies[0]->Ok_0.cpu_time_elapsed,
            ),
{
    lemma_run_invariant(events);
    lemma_compiled_was_seen(events);
}

/// After the reply, nothing that is reported makes the supervisor write or
/// reply again: one request has one reply.
pub proof fn lemma_replied_is_final(event: EventView)
    ensures
        spec_step(SupervisorView::Replied, event) == (SupervisorView::Replied, ActionView::Ignore),
{
}

/// A look that finds both threads running changes nothing: how often the
/// supervisor looks before the compile thread ends plays no part.
pub proof fn lemma_idle_poll_changes_nothing(budget: CpuDuration, cpu_time_elapsed: CpuDuration)
    ensures
        spec_step(
            SupervisorView::Spawned { budget },
            EventView::Polled { prepare: None, monitor: None, cpu_time_elapsed },
        ) == (SupervisorView::Spawned { budget }, ActionView::Sleep),
{
}

/// For a compile thread that ends the same way, the supervisor asks for the
/// same thing, run after run: neither the budget, nor what the monitor did
/// meanwhile, nor the CPU time at which the supervisor looked changes the
/// action, and a failure is replied with the same error.
pub proof fn lemma_resolution_ignores_timing(
    exit: PrepareExitView,
    budget_a: CpuDuration,
    monitor_a: Option<MonitorExitView>,
    elapsed_a: CpuDuration,
    budget_b: CpuDuration,
    monitor_b: Option<MonitorExitView>,
    elapsed_b: CpuDuration,
)
    ensures
        spec_step(
            SupervisorView::Spawned { budget: budget_a },
            EventView::Polled {
                prepare: Some(exit),
                monitor: monitor_a,
                cpu_time_elapsed: elapsed_a,
            },
        ).1 == spec_step(
            SupervisorView::Spawned { budget: budget_b },
            EventView::Polled {
                prepare: Some(exit),
                monitor: monitor_b,
                cpu_time_elapsed: elapsed_b,
            },
        ).1,
{
}

} // verus!
