use polkadot::pvf_worker::cpu_monitor::{monitor_check, MonitorStep};
use polkadot::pvf_worker::duration::CpuDuration;
use polkadot::pvf_worker::error::PrepareError;
use polkadot::pvf_worker::memory_stats::{MemoryStats, MemoryTrackerSummary, PrepareStats};
use polkadot::pvf_worker::prepare::{panic_to_error, prepare_artifact, PanicPayload};
use polkadot::pvf_worker::request::{CompiledArtifact, PvfPrepData};
use polkadot::pvf_worker::supervisor::{
    resolve, spawn_order, Action, Activity, Event, MonitorExit, PrepareExit, PreparedArtifact,
    Resolution, Supervisor, POLL_INTERVAL_MILLIS,
};

fn request(budget_millis: u64) -> PvfPrepData {
    PvfPrepData::from_code(vec![0, 97, 115, 109], vec![], CpuDuration::from_millis(budget_millis))
}

fn prepared(bytes: &[u8], max_rss: Option<i64>) -> PrepareExit {
    PrepareExit::Returned(Ok(PreparedArtifact {
        artifact: CompiledArtifact::new(bytes.to_vec()),
        max_rss,
    }))
}

fn polled(prepare: Option<PrepareExit>, monitor: Option<MonitorExit>, millis: u64) -> Event {
    Event::Polled { prepare, monitor, cpu_time_elapsed: CpuDuration::from_millis(millis) }
}

fn spawned(budget_millis: u64) -> Supervisor {
    let (state, action) = Supervisor::new().step(Event::Request(request(budget_millis)));
    assert_eq!(action, Action::Spawn(request(budget_millis)));
    state
}

#[test]
fn happy_path() {
    assert_eq!(POLL_INTERVAL_MILLIS, 10);
    let state = Supervisor::new();
    assert!(!state.is_done());
    let (state, action) = state.step(Event::Request(request(5_000)));
    assert_eq!(state, Supervisor::Spawned { budget: CpuDuration::from_secs(5) });
    assert_eq!(action, Action::Spawn(request(5_000)));

    let (state, action) = state.step(polled(None, None, 10));
    assert_eq!(state, Supervisor::Spawned { budget: CpuDuration::from_secs(5) });
    assert_eq!(action, Action::Sleep);

    let compiled = prepare_artifact(
        &request(5_000),
        |code: &Vec<u8>| -> Result<Vec<u8>, String> { Ok(code.clone()) },
        |blob: Vec<u8>, _params: &Vec<u8>| -> Result<Vec<u8>, String> {
            Ok(blob.iter().map(|b| b ^ 0xff).collect())
        },
    )
    .unwrap();
    let exit = PrepareExit::Returned(Ok(PreparedArtifact { artifact: compiled, max_rss: Some(2_048) }));
    let (state, action) = state.step(polled(Some(exit), None, 50));
    assert_eq!(action, Action::StopMonitors);
    assert!(!state.is_done());

    let summary = MemoryTrackerSummary { peak: 900, avg: 600, samples: 2 };
    let (state, action) = state.step(Event::SamplerStopped(Some(summary)));
    assert_eq!(action, Action::WriteArtifact(vec![0xff, 0x9e, 0x8c, 0x92]));

    let (state, action) = state.step(Event::Written(Ok(())));
    let stats = PrepareStats {
        cpu_time_elapsed: CpuDuration::from_millis(50),
        memory_stats: MemoryStats { memory_tracker_stats: Some(summary), max_rss: Some(2_048) },
    };
    assert_eq!(action, Action::Reply(Ok(stats)));
    assert!(stats.cpu_time_elapsed.at_least(&CpuDuration::from_millis(40)));
    assert!(CpuDuration::from_millis(100).at_least(&stats.cpu_time_elapsed));
    assert!(state.is_done());
}

#[test]
fn prevalidation_failure() {
    let compiled = prepare_artifact(
        &request(5_000),
        |_code: &Vec<u8>| -> Result<(), String> { Err("bad header".to_string()) },
        |_blob: (), _params: &Vec<u8>| -> Result<Vec<u8>, String> { Ok(vec![]) },
    );
    let exit = PrepareExit::Returned(compiled.map(|artifact| PreparedArtifact { artifact, max_rss: None }));
    let (state, action) = spawned(5_000).step(polled(Some(exit), None, 1));
    assert_eq!(
        action,
        Action::Reply(Err(PrepareError::Prevalidation("bad header".to_string())))
    );
    assert!(state.is_done());
}

#[test]
fn compile_failure() {
    let compiled = prepare_artifact(
        &request(5_000),
        |_code: &Vec<u8>| -> Result<(), String> { Ok(()) },
        |_blob: (), _params: &Vec<u8>| -> Result<Vec<u8>, String> {
            Err("type mismatch".to_string())
        },
    );
    let exit = PrepareExit::Returned(compiled.map(|artifact| PreparedArtifact { artifact, max_rss: None }));
    let (state, action) = spawned(5_000).step(polled(Some(exit), None, 1));
    assert_eq!(
        action,
        Action::Reply(Err(PrepareError::Preparation("type mismatch".to_string())))
    );
    assert!(state.is_done());
}

#[test]
fn timeout() {
    let budget = CpuDuration::from_millis(200);
    let fired = match monitor_check(CpuDuration::from_millis(230), budget) {
        MonitorStep::TimedOut(elapsed) => elapsed,
        MonitorStep::Wait(_) => panic!("the budget is used up"),
    };
    assert!(CpuDuration::from_millis(300).at_least(&fired));
    let state = spawned(200);
    let (state, action) = state.step(polled(None, None, 100));
    assert_eq!(action, Action::Sleep);
    let (state, action) = state.step(polled(None, Some(MonitorExit::TimedOut(fired)), 231));
    assert_eq!(action, Action::Reply(Err(PrepareError::TimedOut)));
    assert!(state.is_done());
}

#[test]
fn panic() {
    let exit = PrepareExit::Panicked(PanicPayload::StaticMessage("boom"));
    let (state, action) = spawned(5_000).step(polled(Some(exit), None, 3));
    match &action {
        Action::Reply(Err(PrepareError::Panic(detail))) => assert!(detail.contains("boom")),
        other => panic!("unexpected action {:?}", other),
    }
    assert!(state.is_done());

    let inner = PrepareExit::Returned(Err(panic_to_error(PanicPayload::Message("boom".to_string()))));
    let (_, action) = spawned(5_000).step(polled(Some(inner), None, 3));
    assert_eq!(action, Action::Reply(Err(PrepareError::Panic("boom".to_string()))));
}

#[test]
fn compile_is_asked_before_the_monitor() {
    let late = MonitorExit::TimedOut(CpuDuration::from_millis(210));
    let (state, action) = spawned(200).step(polled(Some(prepared(&[1], None)), Some(late), 199));
    assert_eq!(action, Action::StopMonitors);
    assert_eq!(
        state,
        Supervisor::Resolved {
            artifact: CompiledArtifact::new(vec![1]),
            max_rss: None,
            cpu_time_elapsed: CpuDuration::from_millis(199),
        }
    );
    for monitor in [
        None,
        Some(MonitorExit::TimedOut(CpuDuration::from_secs(1))),
        Some(MonitorExit::Cancelled),
        Some(MonitorExit::Panicked(PanicPayload::Other)),
    ] {
        assert_eq!(
            resolve(Some(prepared(&[7], Some(1))), monitor),
            Some(Resolution::Prepared(PreparedArtifact {
                artifact: CompiledArtifact::new(vec![7]),
                max_rss: Some(1),
            }))
        );
    }
}

#[test]
fn over_budget_completion_is_still_a_success() {
    let state = spawned(200);
    let (state, _) = state.step(polled(Some(prepared(&[1, 2], None)), None, 260));
    let (state, _) = state.step(Event::SamplerStopped(None));
    let (_, action) = state.step(Event::Written(Ok(())));
    assert_eq!(
        action,
        Action::Reply(Ok(PrepareStats {
            cpu_time_elapsed: CpuDuration::from_millis(260),
            memory_stats: MemoryStats { memory_tracker_stats: None, max_rss: None },
        }))
    );
}

#[test]
fn lost_monitor_is_an_io_error() {
    assert_eq!(
        resolve(None, Some(MonitorExit::Cancelled)),
        Some(Resolution::Failed(PrepareError::IoErr(
            "error communicating over finished channel".to_string()
        )))
    );
    assert_eq!(
        resolve(None, Some(MonitorExit::Panicked(PanicPayload::Message("clock".to_string())))),
        Some(Resolution::Failed(PrepareError::IoErr("clock".to_string())))
    );
    assert_eq!(
        resolve(None, Some(MonitorExit::Panicked(PanicPayload::Other))),
        Some(Resolution::Failed(PrepareError::IoErr("unknown panic payload".to_string())))
    );
    assert_eq!(resolve(None, None), None);
}

#[test]
fn failed_write_downgrades_to_io() {
    let state = spawned(5_000);
    let (state, _) = state.step(polled(Some(prepared(&[1, 2], Some(9))), None, 42));
    let (state, action) = state.step(Event::SamplerStopped(None));
    assert_eq!(action, Action::WriteArtifact(vec![1, 2]));
    let (state, action) = state.step(Event::Written(Err("disk full".to_string())));
    assert_eq!(action, Action::Reply(Err(PrepareError::IoErr("disk full".to_string()))));
    assert!(state.is_done());
}

#[test]
fn unexpected_events_change_nothing() {
    let (state, action) = Supervisor::new().step(Event::Written(Ok(())));
    assert_eq!((state, action), (Supervisor::Start, Action::Ignore));
    let (state, action) = Supervisor::new().step(polled(Some(prepared(&[1], None)), None, 1));
    assert_eq!((state, action), (Supervisor::Start, Action::Ignore));
    let (state, action) = spawned(1).step(Event::SamplerStopped(None));
    assert_eq!(action, Action::Ignore);
    let (state, action) = state.step(Event::Request(request(2)));
    assert_eq!(action, Action::Ignore);
    assert_eq!(state, Supervisor::Spawned { budget: CpuDuration::from_millis(1) });
    let (state, action) = Supervisor::Replied.step(Event::Request(request(2)));
    assert_eq!((state, action), (Supervisor::Replied, Action::Ignore));
}

#[test]
fn a_run_writes_at_most_once_and_replies_once() {
    let events = vec![
        Event::Request(request(100)),
        polled(None, None, 5),
        Event::Written(Ok(())),
        polled(Some(prepared(&[5], None)), None, 20),
        polled(Some(prepared(&[6], None)), None, 30),
        Event::SamplerStopped(None),
        Event::SamplerStopped(None),
        Event::Written(Ok(())),
        Event::Written(Ok(())),
        Event::Request(request(100)),
    ];
    let mut state = Supervisor::new();
    let mut writes = Vec::new();
    let mut replies = Vec::new();
    for event in events {
        let (next, action) = state.step(event);
        state = next;
        match action {
            Action::WriteArtifact(bytes) => writes.push(bytes),
            Action::Reply(outcome) => replies.push(outcome),
            _ => {},
        }
    }
    assert_eq!(writes, vec![vec![5u8]]);
    assert_eq!(replies.len(), 1);
    assert_eq!(replies[0].as_ref().unwrap().cpu_time_elapsed, CpuDuration::from_millis(20));
}

#[test]
fn compile_starts_before_the_monitor_and_the_sampler_last() {
    assert_eq!(
        spawn_order(),
        [Activity::CompileTask, Activity::CpuMonitor, Activity::MemorySampler]
    );
}
