use polkadot::pvf_worker::codec::{encode_outcome, encode_request, RequestDecodeError};
use polkadot::pvf_worker::cpu_monitor::{monitor_check, MonitorStep};
use polkadot::pvf_worker::duration::CpuDuration;
use polkadot::pvf_worker::error::{OutcomeKind, PrepareError};
use polkadot::pvf_worker::framing::{encode_frame, read_frame, FrameReader, StreamEnd};
use polkadot::pvf_worker::memory_stats::{MemoryStats, PrepareStats};
use polkadot::pvf_worker::prepare::{prepare_artifact, PanicPayload};
use polkadot::pvf_worker::request::PvfPrepData;
use polkadot::pvf_worker::supervisor::{Action, Event, MonitorExit, PrepareExit, PreparedArtifact, Supervisor};
use polkadot::pvf_worker::worker::{
    recv_request, send_response, versions_agree, RecvError, StopReason, Worker, WorkerAction,
    WorkerEvent,
};

#[derive(Clone)]
enum Fixture {
    Compiles(Vec<u8>, u64),
    BadBlob(&'static str),
    BadCode(&'static str),
    BusyLoop,
    Panics(&'static str),
}

fn request(budget_millis: u64) -> PvfPrepData {
    PvfPrepData::from_code(vec![1, 2, 3], vec![4], CpuDuration::from_millis(budget_millis))
}

fn connected() -> Worker {
    let (worker, action) = Worker::new().step(WorkerEvent::Connected {
        expected_version: None,
        own_version: "0.9.43".to_string(),
    });
    assert_eq!(action, WorkerAction::Receive);
    worker
}

/// Hands the two frames of a request to the loop, one after the other.
fn frames(worker: Worker, request: Vec<u8>, path: Vec<u8>) -> (Worker, WorkerAction) {
    let (worker, action) = worker.step(WorkerEvent::Frame(request));
    if action != WorkerAction::Receive {
        return (worker, action);
    }
    worker.step(WorkerEvent::Frame(path))
}

/// Plays the threads and the file system for one request.
fn supervise(request: PvfPrepData, fixture: &Fixture, disk: &mut Option<Vec<u8>>) -> Result<PrepareStats, PrepareError> {
    let budget = request.prep_timeout();
    let (mut state, mut action) = Supervisor::new().step(Event::Request(request));
    let mut polls: u64 = 0;
    loop {
        let event = match action {
            Action::Spawn(_) | Action::Sleep => {
                polls += 1;
                let elapsed = CpuDuration::from_millis(polls * 10);
                let prepare = match fixture {
                    Fixture::BusyLoop => None,
                    Fixture::Compiles(_, cpu) if polls * 10 < *cpu => None,
                    Fixture::Panics(message) => Some(PrepareExit::Panicked(PanicPayload::StaticMessage(message))),
                    _ => Some(PrepareExit::Returned(
                        prepare_artifact(
                            &PvfPrepData::from_code(vec![1, 2, 3], vec![4], budget),
                            |_code: &Vec<u8>| -> Result<(), String> {
                                match fixture {
                                    Fixture::BadBlob(message) => Err(message.to_string()),
                                    _ => Ok(()),
                                }
                            },
                            |_blob: (), _params: &Vec<u8>| -> Result<Vec<u8>, String> {
                                match fixture {
                                    Fixture::BadCode(message) => Err(message.to_string()),
                                    Fixture::Compiles(bytes, _) => Ok(bytes.clone()),
                                    _ => Ok(vec![]),
                                }
                            },
                        )
                        .map(|artifact| PreparedArtifact { artifact, max_rss: None }),
                    )),
                };
                let monitor = match monitor_check(elapsed, budget) {
                    MonitorStep::TimedOut(at) => Some(MonitorExit::TimedOut(at)),
                    MonitorStep::Wait(_) => None,
                };
                Event::Polled { prepare, monitor, cpu_time_elapsed: elapsed }
            },
            Action::StopMonitors => Event::SamplerStopped(None),
            Action::WriteArtifact(bytes) => {
                *disk = Some(bytes);
                Event::Written(Ok(()))
            },
            Action::Reply(outcome) => return outcome,
            Action::Ignore => panic!("the supervisor was told something it did not await"),
        };
        let next = state.step(event);
        state = next.0;
        action = next.1;
    }
}

/// Serves the fixtures in order on one worker; gives the kinds replied.
fn serve(fixtures: &[Fixture], disk: &mut Option<Vec<u8>>) -> (Vec<OutcomeKind>, Worker) {
    let mut worker = connected();
    let mut kinds = Vec::new();
    for fixture in fixtures {
        let budget = match fixture {
            Fixture::BusyLoop => 200,
            _ => 5_000,
        };
        let (next, action) = frames(worker, encode_request(&request(budget)).unwrap(), b"/tmp/artifact".to_vec());
        let outcome = match action {
            WorkerAction::Supervise { request, destination } => {
                assert_eq!(destination, "/tmp/artifact");
                supervise(request, fixture, disk)
            },
            other => panic!("unexpected action {:?}", other),
        };
        let kind = match &outcome {
            Ok(_) => OutcomeKind::Prepared,
            Err(error) => error.kind(),
        };
        let expected = encode_frame(&encode_outcome(&outcome).unwrap()).unwrap();
        let (next, action) = next.step(WorkerEvent::Prepared(outcome));
        assert_eq!(action, WorkerAction::Send(expected));
        kinds.push(kind);
        let (next, action) = next.step(WorkerEvent::Sent(Ok(())));
        assert_eq!(action, WorkerAction::Receive);
        worker = next;
    }
    (kinds, worker)
}

#[test]
fn sequential_determinism() {
    let first = Fixture::Compiles(vec![0xc0, 0xde], 50);
    let fixtures = [
        first.clone(),
        Fixture::BadBlob("bad header"),
        Fixture::BadCode("type mismatch"),
        Fixture::BusyLoop,
        Fixture::Panics("boom"),
        first,
    ];
    let mut disk = None;
    let (kinds, worker) = serve(&fixtures, &mut disk);
    assert_eq!(
        kinds,
        vec![
            OutcomeKind::Prepared,
            OutcomeKind::Prevalidation,
            OutcomeKind::Preparation,
            OutcomeKind::TimedOut,
            OutcomeKind::Panic,
            OutcomeKind::Prepared,
        ]
    );
    assert_eq!(disk, Some(vec![0xc0, 0xde]));
    assert_eq!(worker, Worker::AwaitingRequest);
}

#[test]
fn identical_requests_give_identical_kinds() {
    for fixture in [
        Fixture::Compiles(vec![1], 30),
        Fixture::BadBlob("x"),
        Fixture::BadCode("y"),
        Fixture::BusyLoop,
        Fixture::Panics("z"),
    ] {
        let mut disk = None;
        let (kinds, _) = serve(&vec![fixture; 8], &mut disk);
        assert!(kinds.iter().all(|kind| *kind == kinds[0]));
    }
}

#[test]
fn repeated_successes_leave_the_last_artifact() {
    let mut disk = None;
    let fixtures = [
        Fixture::Compiles(vec![1], 20),
        Fixture::Compiles(vec![2, 2], 20),
        Fixture::Compiles(vec![3, 3, 3], 20),
    ];
    let (kinds, _) = serve(&fixtures, &mut disk);
    assert_eq!(kinds, vec![OutcomeKind::Prepared; 3]);
    assert_eq!(disk, Some(vec![3, 3, 3]));
}

#[test]
fn failures_write_no_file() {
    for fixture in [
        Fixture::BadBlob("bad header"),
        Fixture::BadCode("type mismatch"),
        Fixture::BusyLoop,
        Fixture::Panics("boom"),
    ] {
        let mut disk = None;
        serve(&[fixture], &mut disk);
        assert_eq!(disk, None);
    }
}

#[test]
fn finishing_just_under_the_budget_is_a_success() {
    let mut disk = None;
    let mut worker = connected();
    for _ in 0..5 {
        let (next, action) = frames(worker, encode_request(&request(200)).unwrap(), b"a".to_vec());
        let outcome = match action {
            WorkerAction::Supervise { request, .. } => {
                supervise(request, &Fixture::Compiles(vec![8], 200), &mut disk)
            },
            other => panic!("unexpected action {:?}", other),
        };
        assert_eq!(
            outcome,
            Ok(PrepareStats {
                cpu_time_elapsed: CpuDuration::from_millis(200),
                memory_stats: MemoryStats { memory_tracker_stats: None, max_rss: None },
            })
        );
        let (next, _) = next.step(WorkerEvent::Prepared(outcome));
        let (next, _) = next.step(WorkerEvent::Sent(Ok(())));
        worker = next;
    }
}

#[test]
fn request_is_two_frames() {
    let pvf = request(5_000);
    let encoded = encode_request(&pvf).unwrap();
    assert_eq!(
        recv_request(&encoded, b"/var/cache/artifact"),
        Ok((pvf, "/var/cache/artifact".to_string()))
    );
}

#[test]
fn recv_errors() {
    let encoded = encode_request(&request(1)).unwrap();
    assert_eq!(recv_request(&encoded, &[0xff]), Err(RecvError::NonUtf8Path));
    assert_eq!(
        recv_request(&[], b"ok"),
        Err(RecvError::Request(RequestDecodeError::Code))
    );
    assert_eq!(
        recv_request(&encoded[..encoded.len() - 1], &[0xff]),
        Err(RecvError::Request(RequestDecodeError::Timeout))
    );
    assert_eq!(
        RecvError::NonUtf8Path.message(),
        "prepare pvf recv_request: non utf-8 artifact path"
    );
    assert_eq!(
        RecvError::Request(RequestDecodeError::Code).message(),
        "prepare pvf recv_request: failed to decode PvfPrepData: the code is cut short or its length is malformed"
    );
    assert_eq!(
        RecvError::Request(RequestDecodeError::ExecutorParams).message(),
        "prepare pvf recv_request: failed to decode PvfPrepData: the executor parameters are cut short or their length is malformed"
    );
    assert_eq!(
        RecvError::Request(RequestDecodeError::Timeout).message(),
        "prepare pvf recv_request: failed to decode PvfPrepData: the timeout is cut short"
    );
    assert_eq!(
        RecvError::Request(RequestDecodeError::SubsecNanos).message(),
        "prepare pvf recv_request: failed to decode PvfPrepData: the timeout has a second or more of nanoseconds"
    );
    for error in [
        RequestDecodeError::Code,
        RequestDecodeError::ExecutorParams,
        RequestDecodeError::Timeout,
        RequestDecodeError::SubsecNanos,
    ] {
        assert!(RecvError::Request(error)
            .message()
            .starts_with("prepare pvf recv_request: failed to decode PvfPrepData: "));
    }
}

#[test]
fn response_is_one_frame() {
    let outcome = Err(PrepareError::TimedOut);
    assert_eq!(send_response(&outcome), Some(vec![1, 0, 0, 0, 4]));
    let outcome = Err(PrepareError::Panic("boom".to_string()));
    let bytes = send_response(&outcome).unwrap();
    assert_eq!(bytes, vec![6, 0, 0, 0, 3, 16, b'b', b'o', b'o', b'm']);
    assert_eq!(read_frame(&bytes, 0), Some((encode_outcome(&outcome).unwrap(), bytes.len())));
}

#[test]
fn version_check() {
    let own = "0.9.43-abc".to_string();
    assert!(versions_agree(&None, &own));
    assert!(versions_agree(&Some("0.9.43-abc".to_string()), &own));
    assert!(!versions_agree(&Some("0.9.42".to_string()), &own));
    assert!(!versions_agree(&Some(String::new()), &own));
}

#[test]
fn mismatch_ends_the_worker_before_any_request() {
    let (worker, action) = Worker::new().step(WorkerEvent::Connected {
        expected_version: Some("1".to_string()),
        own_version: "2".to_string(),
    });
    assert_eq!(action, WorkerAction::Exit(StopReason::VersionMismatch));
    assert!(worker.is_stopped());
    let (worker, action) = frames(worker, vec![], vec![]);
    assert_eq!(action, WorkerAction::Ignore);
    assert!(worker.is_stopped());
}

#[test]
fn end_of_stream() {
    let (worker, action) = connected().step(WorkerEvent::StreamEnded(StreamEnd::Clean));
    assert_eq!(action, WorkerAction::Exit(StopReason::EndOfStream));
    assert!(worker.is_stopped());
    let (worker, action) = connected().step(WorkerEvent::StreamEnded(StreamEnd::Truncated));
    assert_eq!(
        action,
        WorkerAction::Exit(StopReason::Io("unexpected end of stream".to_string()))
    );
    assert!(worker.is_stopped());
    let (_, action) = connected().step(WorkerEvent::StreamFailed("connection reset".to_string()));
    assert_eq!(action, WorkerAction::Exit(StopReason::Io("connection reset".to_string())));
}

#[test]
fn reader_end_feeds_the_loop() {
    let mut reader = FrameReader::new();
    let (_, action) = connected().step(WorkerEvent::StreamEnded(reader.end_of_stream()));
    assert_eq!(action, WorkerAction::Exit(StopReason::EndOfStream));
    reader.feed(&[1, 0]);
    let (_, action) = connected().step(WorkerEvent::StreamEnded(reader.end_of_stream()));
    assert!(matches!(action, WorkerAction::Exit(StopReason::Io(_))));
}

#[test]
fn malformed_request_ends_the_worker() {
    let (worker, action) = frames(connected(), vec![0xff], b"p".to_vec());
    assert_eq!(
        action,
        WorkerAction::Exit(StopReason::Io(
            RecvError::Request(RequestDecodeError::Code).message()
        ))
    );
    assert!(worker.is_stopped());
    let (worker, action) = frames(connected(), encode_request(&request(1)).unwrap(), vec![0x80]);
    assert_eq!(
        action,
        WorkerAction::Exit(StopReason::Io(
            "prepare pvf recv_request: non utf-8 artifact path".to_string()
        ))
    );
    assert!(worker.is_stopped());
}

#[test]
fn io_outcome_is_answered_and_then_terminal() {
    let (worker, _) = frames(connected(), encode_request(&request(1)).unwrap(), b"p".to_vec());
    assert_eq!(worker, Worker::Preparing);
    let outcome = Err(PrepareError::IoErr("disk full".to_string()));
    let (worker, action) = worker.step(WorkerEvent::Prepared(outcome.clone()));
    assert_eq!(action, WorkerAction::Send(send_response(&outcome).unwrap()));
    assert_eq!(worker, Worker::Replying { fatal: Some("disk full".to_string()) });
    let (worker, action) = worker.step(WorkerEvent::Sent(Ok(())));
    assert_eq!(action, WorkerAction::Exit(StopReason::Io("disk full".to_string())));
    assert!(worker.is_stopped());
}

#[test]
fn failed_send_ends_the_worker() {
    let (worker, _) = frames(connected(), encode_request(&request(1)).unwrap(), b"p".to_vec());
    let (worker, _) = worker.step(WorkerEvent::Prepared(Err(PrepareError::TimedOut)));
    assert_eq!(worker, Worker::Replying { fatal: None });
    let (worker, action) = worker.step(WorkerEvent::Sent(Err("broken pipe".to_string())));
    assert_eq!(action, WorkerAction::Exit(StopReason::Io("broken pipe".to_string())));
    assert!(worker.is_stopped());
}

#[test]
fn one_request_at_a_time() {
    let (worker, action) = frames(connected(), encode_request(&request(1)).unwrap(), b"p".to_vec());
    assert!(matches!(action, WorkerAction::Supervise { .. }));
    let (worker, action) = worker.step(WorkerEvent::Frame(encode_request(&request(1)).unwrap()));
    assert_eq!(action, WorkerAction::Ignore);
    assert_eq!(worker, Worker::Preparing);
    let (worker, action) = worker.step(WorkerEvent::Sent(Ok(())));
    assert_eq!(action, WorkerAction::Ignore);
    assert_eq!(worker, Worker::Preparing);
}

#[test]
fn request_frames_are_taken_one_by_one() {
    let (worker, action) = connected().step(WorkerEvent::Frame(encode_request(&request(7)).unwrap()));
    assert_eq!(action, WorkerAction::Receive);
    assert_eq!(worker, Worker::AwaitingPath { request: request(7) });
    let (worker, action) = worker.step(WorkerEvent::Frame(b"/d/a".to_vec()));
    assert_eq!(
        action,
        WorkerAction::Supervise { request: request(7), destination: "/d/a".to_string() }
    );
    assert_eq!(worker, Worker::Preparing);
}

#[test]
fn stream_end_inside_a_request_is_an_error() {
    for end in [StreamEnd::Clean, StreamEnd::Truncated] {
        let (worker, _) = connected().step(WorkerEvent::Frame(encode_request(&request(7)).unwrap()));
        let (worker, action) = worker.step(WorkerEvent::StreamEnded(end));
        assert_eq!(
            action,
            WorkerAction::Exit(StopReason::Io("unexpected end of stream".to_string()))
        );
        assert!(worker.is_stopped());
    }
    let (worker, _) = connected().step(WorkerEvent::Frame(encode_request(&request(7)).unwrap()));
    let (_, action) = worker.step(WorkerEvent::StreamFailed("reset".to_string()));
    assert_eq!(action, WorkerAction::Exit(StopReason::Io("reset".to_string())));
}

#[test]
fn undecodable_request_stops_with_the_decode_failure_text() {
    for frame in [vec![], vec![0xff], vec![4, 1], vec![4, 1, 0, 9]] {
        let (worker, action) = connected().step(WorkerEvent::Frame(frame));
        match action {
            WorkerAction::Exit(StopReason::Io(text)) => assert!(
                text.starts_with("prepare pvf recv_request: failed to decode PvfPrepData: ")
            ),
            other => panic!("unexpected action {:?}", other),
        }
        assert!(worker.is_stopped());
    }
}
