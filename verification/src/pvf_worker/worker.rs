//! The worker's loop over its connection: after a check of versions it
//! serves one request after the other, each with one response, until the
//! host closes the stream or something breaks.
//!
//! The loop is a state machine. The caller owns the stream and runs the
//! supervisor for each request; it performs each action and reports back.

use crate::pvf_worker::codec::{
    decode_request, encode_outcome, outcome_view, spec_decode_request, spec_encode_outcome,
    spec_outcome_encodable, RequestDecodeError,
};
use crate::pvf_worker::error::{PrepareError, PrepareErrorView};
use crate::pvf_worker::framing::{encode_frame, spec_frame, StreamEnd};
use crate::pvf_worker::memory_stats::PrepareStats;
use crate::pvf_worker::path::bytes_to_path;
use crate::pvf_worker::request::{PvfPrepData, PvfPrepDataView};
use vstd::prelude::*;
use vstd::string::StringExecFns;
use vstd::utf8::{decode_utf8, valid_utf8};

verus! {

/// Why two frames are no request.
#[derive(Debug, Clone, Copy, PartialEq, Eq, Structural)]
pub enum RecvError {
    /// The first frame is no encoded request.
    Request(RequestDecodeError),
    /// The second frame is no UTF-8, so it names no path.
    NonUtf8Path,
}

/// What the text of every failure to decode a request begins with.
pub open spec fn spec_decode_failure_prefix() -> Seq<char> {
    "prepare pvf recv_request: failed to decode PvfPrepData: "@
}

/// The part of a request that failed to decode, in words.
pub open spec fn spec_decode_failure_part(error: RequestDecodeError) -> Seq<char> {
    match error {
        RequestDecodeError::Code => "the code is cut short or its length is malformed"@,
        RequestDecodeError::ExecutorParams =>
            "the executor parameters are cut short or their length is malformed"@,
        RequestDecodeError::Timeout => "the timeout is cut short"@,
        RequestDecodeError::SubsecNanos => "the timeout has a second or more of nanoseconds"@,
    }
}

/// The text of a `RecvError`: for a request that does not decode, the
/// common beginning and then the part that failed.
pub open spec fn spec_recv_error_text(error: RecvError) -> Seq<char> {
    match error {
        RecvError::Request(cause) => spec_decode_failure_prefix() + spec_decode_failure_part(
            cause,
        ),
        RecvError::NonUtf8Path => "prepare pvf recv_request: non utf-8 artifact path"@,
    }
}

/// The text of a request that does not decode begins with the common
/// beginning, whatever part failed.
pub proof fn lemma_decode_failure_text_begins_alike(cause: RequestDecodeError)
    ensures
        spec_decode_failure_prefix().is_prefix_of(
            spec_recv_error_text(RecvError::Request(cause)),
        ),
{
    let prefix = spec_decode_failure_prefix();
    let text = spec_recv_error_text(RecvError::Request(cause));
    assert(text.subrange(0, prefix.len() as int) =~= prefix);
}

/// The part of a request that failed to decode, in words.
fn decode_failure_part(error: RequestDecodeError) -> (part: &'static str)
    ensures
        part@ == spec_decode_failure_part(error),
{
    match error {
        RequestDecodeError::Code => "the code is cut short or its length is malformed",
        RequestDecodeError::ExecutorParams =>
            "the executor parameters are cut short or their length is malformed",
        RequestDecodeError::Timeout => "the timeout is cut short",
        RequestDecodeError::SubsecNanos => "the timeout has a second or more of nanoseconds",
    }
}

impl RecvError {
    /// The text of this error, for the log.
    pub fn message(&self) -> (text: String)
        ensures
            text@ == spec_recv_error_text(*self),
    {
        match self {
            RecvError::Request(cause) => {
                let beginning =
                    "prepare pvf recv_request: failed to decode PvfPrepData: ".to_owned();
                beginning.concat(decode_failure_part(*cause))
            },
            RecvError::NonUtf8Path => "prepare pvf recv_request: non utf-8 artifact path".to_owned(),
        }
    }
}

/// What two frames are as a request: the request of the first and the path
/// of the second, or the first reason why not.
pub open spec fn spec_recv_request(request_frame: Seq<u8>, path_frame: Seq<u8>) -> Result<
    (PvfPrepDataView, Seq<char>),
    RecvError,
> {
    match spec_decode_request(request_frame) {
        Err(error) => Err(RecvError::Request(error)),
        Ok((request, _)) => if valid_utf8(path_frame) {
            Ok((request, decode_utf8(path_frame)))
        } else {
            Err(RecvError::NonUtf8Path)
        },
    }
}

/// Reads a request from the payloads of its two frames: the encoded request
/// and the destination path of the artifact.
pub fn recv_request(request_frame: &[u8], path_frame: &[u8]) -> (r: Result<
    (PvfPrepData, String),
    RecvError,
>)
    ensures
        match r {
            Ok((request, path)) => spec_recv_request(request_frame@, path_frame@) == Ok::<
                (PvfPrepDataView, Seq<char>),
                RecvError,
            >((request@, path@)),
            Err(error) => spec_recv_request(request_frame@, path_frame@) == Err::<
                (PvfPrepDataView, Seq<char>),
                RecvError,
            >(error),
        },
{
    let request = match decode_request(request_frame) {
        Err(error) => { return Err(RecvError::Request(error)); },
        Ok(request) => request,
    };
    match bytes_to_path(path_frame) {
        None => Err(RecvError::NonUtf8Path),
        Some(path) => Ok((request, path)),
    }
}

/// The frame that carries an outcome to the host.
pub open spec fn spec_response(outcome: Result<PrepareStats, PrepareErrorView>) -> Seq<u8> {
    spec_frame(spec_encode_outcome(outcome))
}

/// Whether an outcome can be sent: it can be written, and what is written
/// fits a frame.
pub open spec fn spec_sendable(outcome: Result<PrepareStats, PrepareErrorView>) -> bool {
    spec_outcome_encodable(outcome) && spec_encode_outcome(outcome).len() <= u32::MAX
}

/// The bytes to send for an outcome: its encoding in one frame. `None` for
/// an outcome that cannot be sent.
pub fn send_response(outcome: &Result<PrepareStats, PrepareError>) -> (bytes: Option<Vec<u8>>)
    ensures
        bytes is Some <==> spec_sendable(outcome_view(*outcome)),
        bytes matches Some(b) ==> b@ == spec_response(outcome_view(*outcome)),
{
    match encode_outcome(outcome) {
        None => None,
        Some(payload) => encode_frame(payload.as_slice()),
    }
}

/// Whether the versions allow the worker to serve: the host named none, or
/// the one it named is the worker's own.
pub open spec fn spec_versions_agree(expected: Option<Seq<char>>, own: Seq<char>) -> bool {
    match expected {
        None => true,
        Some(version) => version == own,
    }
}

/// Checks the version that the host expects against the worker's own.
pub fn versions_agree(expected: &Option<String>, own: &String) -> (agree: bool)
    ensures
        agree == spec_versions_agree(
            match *expected {
                Some(version) => Some(version@),
                None => None,
            },
            own@,
        ),
{
    match expected {
        None => true,
        Some(version) => {
            let same: bool = version.eq(own);
            same
        },
    }
}

/// The reason given when the stream ends inside a frame.
pub open spec fn spec_truncated_text() -> Seq<char> {
    "unexpected end of stream"@
}

/// The detail of the failure sent in place of an outcome that cannot be
/// sent.
pub open spec fn spec_unsendable_text() -> Seq<char> {
    "response does not fit a frame"@
}

/// The outcome sent in place of one that cannot be sent.
pub open spec fn spec_unsendable() -> Result<PrepareStats, PrepareErrorView> {
    Err(PrepareErrorView::IoErr(spec_unsendable_text()))
}

/// Why the worker stopped serving.
#[derive(Debug, Clone, PartialEq, Eq)]
pub enum StopReason {
    /// The host expects another version of the worker.
    VersionMismatch,
    /// The host closed the stream between two requests.
    EndOfStream,
    /// The stream broke, a request could not be read, or the worker failed
    /// at its own part of a preparation.
    Io(String),
}

/// Where the worker stands.
#[derive(Debug, PartialEq, Eq)]
pub enum Worker {
    /// The versions have not been checked yet.
    Connecting,
    /// The first frame of the next request is awaited.
    AwaitingRequest,
    /// The request has arrived; the frame with its destination is awaited.
    AwaitingPath { request: PvfPrepData },
    /// A request is being prepared.
    Preparing,
    /// A response is being sent; `fatal` holds the reason to stop after it.
    Replying { fatal: Option<String> },
    /// The worker serves no more.
    Stopped,
}

/// What the caller reports to the worker's loop.
#[derive(Debug, PartialEq, Eq)]
pub enum WorkerEvent {
    /// The stream is there; the host expects this version, if any, and the
    /// worker is of that one.
    Connected { expected_version: Option<String>, own_version: String },
    /// The payload of a frame has arrived.
    Frame(Vec<u8>),
    /// The stream ended while a frame was awaited.
    StreamEnded(StreamEnd),
    /// Reading from the stream failed.
    StreamFailed(String),
    /// The supervisor has its outcome.
    Prepared(Result<PrepareStats, PrepareError>),
    /// The response has been sent, or could not be, with the reason.
    Sent(Result<(), String>),
}

/// What the worker's loop asks the caller to do.
#[derive(Debug, PartialEq, Eq)]
pub enum WorkerAction {
    /// Nothing: the event was none that the state awaits.
    Ignore,
    /// Read the next frame and report `Frame`, or how the stream ended or
    /// failed.
    Receive,
    /// Run a supervisor on this request with this destination and report
    /// `Prepared`.
    Supervise { request: PvfPrepData, destination: String },
    /// Write these bytes to the stream and report `Sent`.
    Send(Vec<u8>),
    /// Leave the loop.
    Exit(StopReason),
}

/// `StopReason` as plain values.
pub enum StopReasonView {
    VersionMismatch,
    EndOfStream,
    Io(Seq<char>),
}

/// `Worker` as plain values.
pub enum WorkerView {
    Connecting,
    AwaitingRequest,
    AwaitingPath { request: PvfPrepDataView },
    Preparing,
    Replying { fatal: Option<Seq<char>> },
    Stopped,
}

/// `WorkerEvent` as plain values. A send is reported by the reason of its
/// failure, `None` for success.
pub enum WorkerEventView {
    Connected { expected_version: Option<Seq<char>>, own_version: Seq<char> },
    Frame(Seq<u8>),
    StreamEnded(StreamEnd),
    StreamFailed(Seq<char>),
    Prepared(Result<PrepareStats, PrepareErrorView>),
    Sent(Option<Seq<char>>),
}

/// `WorkerAction` as plain values.
pub enum WorkerActionView {
    Ignore,
    Receive,
    Supervise { request: PvfPrepDataView, destination: Seq<char> },
    Send(Seq<u8>),
    Exit(StopReasonView),
}

/// A text that may be absent, as plain values.
pub open spec fn text_view(text: Option<String>) -> Option<Seq<char>> {
    match text {
        Some(t) => Some(t@),
        None => None,
    }
}

impl View for StopReason {
    type V = StopReasonView;

    open spec fn view(&self) -> StopReasonView {
        match self {
            StopReason::VersionMismatch => StopReasonView::VersionMismatch,
            StopReason::EndOfStream => StopReasonView::EndOfStream,
            StopReason::Io(reason) => StopReasonView::Io(reason@),
        }
    }
}

impl View for Worker {
    type V = WorkerView;

    open spec fn view(&self) -> WorkerView {
        match self {
            Worker::Connecting => WorkerView::Connecting,
            Worker::AwaitingRequest => WorkerView::AwaitingRequest,
            Worker::AwaitingPath { request } => WorkerView::AwaitingPath { request: request@ },
            Worker::Preparing => WorkerView::Preparing,
            Worker::Replying { fatal } => WorkerView::Replying { fatal: text_view(*fatal) },
            Worker::Stopped => WorkerView::Stopped,
        }
    }
}

impl View for WorkerEvent {
    type V = WorkerEventView;

    open spec fn view(&self) -> WorkerEventView {
        match self {
            WorkerEvent::Connected { expected_version, own_version } => WorkerEventView::Connected {
                expected_version: text_view(*expected_version),
                own_version: own_version@,
            },
            WorkerEvent::Frame(payload) => WorkerEventView::Frame(payload@),
            WorkerEvent::StreamEnded(end) => WorkerEventView::StreamEnded(*end),
            WorkerEvent::StreamFailed(reason) => WorkerEventView::StreamFailed(reason@),
            WorkerEvent::Prepared(outcome) => WorkerEventView::Prepared(outcome_view(*outcome)),
            WorkerEvent::Sent(Ok(_)) => WorkerEventView::Sent(None),
            WorkerEvent::Sent(Err(reason)) => WorkerEventView::Sent(Some(reason@)),
        }
    }
}

impl View for WorkerAction {
    type V = WorkerActionView;

    open spec fn view(&self) -> WorkerActionView {
        match self {
            WorkerAction::Ignore => WorkerActionView::Ignore,
            WorkerAction::Receive => WorkerActionView::Receive,
            WorkerAction::Supervise { request, destination } => WorkerActionView::Supervise {
                request: request@,
                destination: destination@,
            },
            WorkerAction::Send(bytes) => WorkerActionView::Send(bytes@),
            WorkerAction::Exit(reason) => WorkerActionView::Exit(reason@),
        }
    }
}

/// The outcome that goes to the host for what the supervisor came to: the
/// outcome itself, or the substitute where it cannot be sent.
pub open spec fn spec_outcome_to_send(outcome: Result<PrepareStats, PrepareErrorView>) -> Result<
    PrepareStats,
    PrepareErrorView,
> {
    if spec_sendable(outcome) {
        outcome
    } else {
        spec_unsendable()
    }
}

/// The reason to stop after an outcome has been sent: the detail of a
/// failure of the worker's own part, and none for any other outcome.
pub open spec fn spec_fatal(outcome: Result<PrepareStats, PrepareErrorView>) -> Option<Seq<char>> {
    match outcome {
        Err(PrepareErrorView::IoErr(detail)) => Some(detail),
        _ => None,
    }
}

/// The transition of the worker's loop: the state after an event, and the
/// action that the event calls for. An event that the state does not await
/// changes nothing.
pub open spec fn spec_worker_step(state: WorkerView, event: WorkerEventView) -> (
    WorkerView,
    WorkerActionView,
) {
    match (state, event) {
        (WorkerView::Connecting, WorkerEventView::Connected { expected_version, own_version }) => {
            if spec_versions_agree(expected_version, own_version) {
                (WorkerView::AwaitingRequest, WorkerActionView::Receive)
            } else {
                (WorkerView::Stopped, WorkerActionView::Exit(StopReasonView::VersionMismatch))
            }
        },
        (WorkerView::AwaitingRequest, WorkerEventView::Frame(payload)) => {
            match spec_decode_request(payload) {
                Ok((request, _)) => (
                    WorkerView::AwaitingPath { request },
                    WorkerActionView::Receive,
                ),
                Err(error) => (
                    WorkerView::Stopped,
                    WorkerActionView::Exit(
                        StopReasonView::Io(spec_recv_error_text(RecvError::Request(error))),
                    ),
                ),
            }
        },
        (WorkerView::AwaitingPath { request }, WorkerEventView::Frame(payload)) => {
            if valid_utf8(payload) {
                (
                    WorkerView::Preparing,
                    WorkerActionView::Supervise { request, destination: decode_utf8(payload) },
                )
            } else {
                (
                    WorkerView::Stopped,
                    WorkerActionView::Exit(
                        StopReasonView::Io(spec_recv_error_text(RecvError::NonUtf8Path)),
                    ),
                )
            }
        },
        (WorkerView::AwaitingRequest, WorkerEventView::StreamEnded(StreamEnd::Clean)) => (
            WorkerView::Stopped,
            WorkerActionView::Exit(StopReasonView::EndOfStream),
        ),
        (WorkerView::AwaitingRequest, WorkerEventView::StreamEnded(StreamEnd::Truncated)) => (
            WorkerView::Stopped,
            WorkerActionView::Exit(StopReasonView::Io(spec_truncated_text())),
        ),
        (WorkerView::AwaitingPath { .. }, WorkerEventView::StreamEnded(_)) => (
            WorkerView::Stopped,
            WorkerActionView::Exit(StopReasonView::Io(spec_truncated_text())),
        ),
        (WorkerView::AwaitingRequest, WorkerEventView::StreamFailed(reason)) => (
            WorkerView::Stopped,
            WorkerActionView::Exit(StopReasonView::Io(reason)),
        ),
        (WorkerView::AwaitingPath { .. }, WorkerEventView::StreamFailed(reason)) => (
            WorkerView::Stopped,
            WorkerActionView::Exit(StopReasonView::Io(reason)),
        ),
        (WorkerView::Preparing, WorkerEventView::Prepared(outcome)) => (
            WorkerView::Replying { fatal: spec_fatal(spec_outcome_to_send(outcome)) },
            WorkerActionView::Send(spec_response(spec_outcome_to_send(outcome))),
        ),
        (WorkerView::Replying { fatal: None }, WorkerEventView::Sent(None)) => (
            WorkerView::AwaitingRequest,
            WorkerActionView::Receive,
        ),
        (WorkerView::Replying { fatal: Some(reason) }, WorkerEventView::Sent(None)) => (
            WorkerView::Stopped,
            WorkerActionView::Exit(StopReasonView::Io(reason)),
        ),
        (WorkerView::Replying { .. }, WorkerEventView::Sent(Some(reason))) => (
            WorkerView::Stopped,
            WorkerActionView::Exit(StopReasonView::Io(reason)),
        ),
        _ => (state, WorkerActionView::Ignore),
    }
}

/// The substitute outcome can always be sent.
pub proof fn lemma_unsendable_is_sendable()
    ensures
        spec_sendable(spec_unsendable()),
{
    reveal_strlit("response does not fit a frame");
    let text = spec_unsendable_text();
    assert(text.len() == 29);
    assert(vstd::utf8::is_ascii_chars(text));
    vstd::utf8::is_ascii_chars_encode_utf8(text);
    assert(vstd::utf8::encode_utf8(text).len() == 29);
}

/// The outcome that is sent in place of one that cannot be, with the bytes
/// that carry it.
fn unsendable_response() -> (r: (String, Vec<u8>))
    ensures
        r.0@ == spec_unsendable_text(),
        r.1@ == spec_response(spec_unsendable()),
{
    let substitute: Result<PrepareStats, PrepareError> = Err(
        PrepareError::IoErr("response does not fit a frame".to_owned()),
    );
    proof {
        lemma_unsendable_is_sendable();
    }
    match send_response(&substitute) {
        Some(bytes) => ("response does not fit a frame".to_owned(), bytes),
        None => ("response does not fit a frame".to_owned(), Vec::new()),
    }
}

impl Worker {
    /// A worker before the check of versions.
    pub fn new() -> (worker: Worker)
        ensures
            worker@ == WorkerView::Connecting,
    {
        Worker::Connecting
    }

    /// Whether the worker serves no more.
    pub fn is_stopped(&self) -> (stopped: bool)
        ensures
            stopped <==> self@ is Stopped,
    {
        match self {
            Worker::Stopped => true,
            _ => false,
        }
    }

    /// Takes an event: the state after it and the action it calls for, as
    /// `spec_worker_step` says.
    pub fn step(self, event: WorkerEvent) -> (next: (Worker, WorkerAction))
        ensures
            (next.0@, next.1@) == spec_worker_step(self@, event@),
    {
        match (self, event) {
            (Worker::Connecting, WorkerEvent::Connected { expected_version, own_version }) => {
                if versions_agree(&expected_version, &own_version) {
                    (Worker::AwaitingRequest, WorkerAction::Receive)
                } else {
                    (Worker::Stopped, WorkerAction::Exit(StopReason::VersionMismatch))
                }
            },
            (Worker::AwaitingRequest, WorkerEvent::Frame(payload)) => {
                match decode_request(payload.as_slice()) {
                    Ok(request) => (Worker::AwaitingPath { request }, WorkerAction::Receive),
                    Err(error) => (
                        Worker::Stopped,
                        WorkerAction::Exit(StopReason::Io(RecvError::Request(error).message())),
                    ),
                }
            },
            (Worker::AwaitingPath { request }, WorkerEvent::Frame(payload)) => {
                match bytes_to_path(payload.as_slice()) {
                    Some(destination) => (
                        Worker::Preparing,
                        WorkerAction::Supervise { request, destination },
                    ),
                    None => (
                        Worker::Stopped,
                        WorkerAction::Exit(StopReason::Io(RecvError::NonUtf8Path.message())),
                    ),
                }
            },
            (Worker::AwaitingRequest, WorkerEvent::StreamEnded(StreamEnd::Clean)) => (
                Worker::Stopped,
                WorkerAction::Exit(StopReason::EndOfStream),
            ),
            (Worker::AwaitingRequest, WorkerEvent::StreamEnded(StreamEnd::Truncated)) => (
                Worker::Stopped,
                WorkerAction::Exit(StopReason::Io("unexpected end of stream".to_owned())),
            ),
            (Worker::AwaitingPath { .. }, WorkerEvent::StreamEnded(_)) => (
                Worker::Stopped,
                WorkerAction::Exit(StopReason::Io("unexpected end of stream".to_owned())),
            ),
            (Worker::AwaitingRequest, WorkerEvent::StreamFailed(reason)) => (
                Worker::Stopped,
                WorkerAction::Exit(StopReason::Io(reason)),
            ),
            (Worker::AwaitingPath { .. }, WorkerEvent::StreamFailed(reason)) => (
                Worker::Stopped,
                WorkerAction::Exit(StopReason::Io(reason)),
            ),
            (Worker::Preparing, WorkerEvent::Prepared(outcome)) => {
                match send_response(&outcome) {
                    Some(bytes) => {
                        let fatal: Option<String> = match outcome {
                            Err(PrepareError::IoErr(detail)) => Some(detail),
                            _ => None,
                        };
                        (Worker::Replying { fatal }, WorkerAction::Send(bytes))
                    },
                    None => {
                        let (text, bytes) = unsendable_response();
                        (Worker::Replying { fatal: Some(text) }, WorkerAction::Send(bytes))
                    },
                }
            },
            (Worker::Replying { fatal: None }, WorkerEvent::Sent(Ok(_))) => (
                Worker::AwaitingRequest,
                WorkerAction::Receive,
            ),
            (Worker::Replying { fatal: Some(reason) }, WorkerEvent::Sent(Ok(_))) => (
                Worker::Stopped,
                WorkerAction::Exit(StopReason::Io(reason)),
            ),
            (Worker::Replying { .. }, WorkerEvent::Sent(Err(reason))) => (
                Worker::Stopped,
                WorkerAction::Exit(StopReason::Io(reason)),
            ),
            (state, _) => (state, WorkerAction::Ignore),
        }
    }
}

/// What a run of the worker's loop has come to.
pub struct WorkerRunView {
    /// The state after the last event.
    pub state: WorkerView,
    /// How many requests it has handed to a supervisor.
    pub supervised: nat,
    /// The outcomes that the supervisors reported, in order.
    pub prepared: Seq<Result<PrepareStats, PrepareErrorView>>,
    /// The responses that it asked to have sent, in order.
    pub sent: Seq<Seq<u8>>,
    /// The reasons with which it left the loop.
    pub exits: Seq<StopReasonView>,
}

/// A run before its first event.
pub open spec fn spec_worker_run_start() -> WorkerRunView {
    WorkerRunView {
        state: WorkerView::Connecting,
        supervised: 0,
        prepared: Seq::empty(),
        sent: Seq::empty(),
        exits: Seq::empty(),
    }
}

/// A run after one more event.
pub open spec fn spec_worker_run_advance(run: WorkerRunView, event: WorkerEventView) -> WorkerRunView {
    let (state, action) = spec_worker_step(run.state, event);
    WorkerRunView {
        state,
        supervised: if action is Supervise {
            run.supervised + 1
        } else {
            run.supervised
        },
        prepared: match (run.state, event) {
            (WorkerView::Preparing, WorkerEventView::Prepared(outcome)) => run.prepared.push(
                outcome,
            ),
            _ => run.prepared,
        },
        sent: match action {
            WorkerActionView::Send(bytes) => run.sent.push(bytes),
            _ => run.sent,
        },
        exits: match action {
            WorkerActionView::Exit(reason) => run.exits.push(reason),
            _ => run.exits,
        },
    }
}

/// The run that a sequence of events leads to, whatever the events are.
pub open spec fn spec_worker_run(events: Seq<WorkerEventView>) -> WorkerRunView
    decreases events.len(),
{
    if events.len() == 0 {
        spec_worker_run_start()
    } else {
        spec_worker_run_advance(spec_worker_run(events.drop_last()), events.last())
    }
}

/// What holds of every run of the loop.
pub open spec fn spec_worker_run_invariant(run: WorkerRunView) -> bool {
    &&& run.sent.len() == run.prepared.len()
    &&& forall|i: int|
        0 <= i < run.sent.len() ==> #[trigger] run.sent[i] == spec_response(
            spec_outcome_to_send(run.prepared[i]),
        )
    &&& run.supervised == run.prepared.len() + (if run.state is Preparing {
        1nat
    } else {
        0nat
    })
    &&& run.exits.len() <= 1
    &&& run.exits.len() == 1 <==> run.state is Stopped
    &&& run.state is Connecting ==> run.supervised == 0
    &&& run.state matches WorkerView::Replying { fatal } ==> run.prepared.len() > 0 && fatal
        == spec_fatal(spec_outcome_to_send(run.prepared.last()))
}

/// One more event keeps what holds of every run.
#[verifier::rlimit(50)]
pub proof fn lemma_worker_advance_keeps_invariant(run: WorkerRunView, event: WorkerEventView)
    requires
        spec_worker_run_invariant(run),
    ensures
        spec_worker_run_invariant(spec_worker_run_advance(run, event)),
{
    let next = spec_worker_run_advance(run, event);
    assert forall|i: int| 0 <= i < next.sent.len() implies #[trigger] next.sent[i]
        == spec_response(spec_outcome_to_send(next.prepared[i])) by {
        if i < run.sent.len() {
            assert(next.sent[i] == run.sent[i]);
            assert(next.prepared[i] == run.prepared[i]);
        }
    }
}

/// Whatever is reported to the loop, in whatever order: at most one request
/// is with a supervisor at any time, and only while the loop is in its
/// preparing state; every outcome reported has had exactly one response
/// asked for, in the order of the outcomes, and the response is the frame of
/// the outcome; and the loop is left at most once, exactly when it has
/// stopped.
pub proof fn lemma_worker_run_invariant(events: Seq<WorkerEventView>)
    ensures
        spec_worker_run_invariant(spec_worker_run(events)),
    decreases events.len(),
{
    if events.len() > 0 {
        lemma_worker_run_invariant(events.drop_last());
        lemma_worker_advance_keeps_invariant(spec_worker_run(events.drop_last()), events.last());
    }
}

/// An outcome that is no failure of the worker's own part does not end the
/// worker: once its response is sent, the next request is awaited.
pub proof fn lemma_serves_on(outcome: Result<PrepareStats, PrepareErrorView>)
    requires
        spec_sendable(outcome),
        !(outcome matches Err(PrepareErrorView::IoErr(_))),
    ensures
        ({
            let (replying, send) = spec_worker_step(
                WorkerView::Preparing,
                WorkerEventView::Prepared(outcome),
            );
            &&& replying == WorkerView::Replying { fatal: None }
            &&& send == WorkerActionView::Send(spec_response(outcome))
            &&& spec_worker_step(replying, WorkerEventView::Sent(None)) == (
                WorkerView::AwaitingRequest,
                WorkerActionView::Receive,
            )
        }),
{
}

/// A failure of the worker's own part is answered and then ends the worker.
pub proof fn lemma_io_failure_is_terminal(detail: Seq<char>)
    requires
        spec_sendable(Err(PrepareErrorView::IoErr(detail))),
    ensures
        ({
            let (replying, send) = spec_worker_step(
                WorkerView::Preparing,
                WorkerEventView::Prepared(Err(PrepareErrorView::IoErr(detail))),
            );
            &&& send == WorkerActionView::Send(
                spec_response(Err(PrepareErrorView::IoErr(detail))),
            )
            &&& spec_worker_step(replying, WorkerEventView::Sent(None)) == (
                WorkerView::Stopped,
                WorkerActionView::Exit(StopReasonView::Io(detail)),
            )
        }),
{
}

/// The two frames of a request, taken one after the other, lead to what
/// `spec_recv_request` makes of them: the request goes to a supervisor with
/// its destination, or the worker stops with the text of the reason. A
/// malformed request stops the worker before the second frame is asked for.
#[verifier::rlimit(50)]
pub proof fn lemma_two_frames_are_a_request(request_frame: Seq<u8>, path_frame: Seq<u8>)
    ensures
        ({
            let (after_first, first_action) = spec_worker_step(
                WorkerView::AwaitingRequest,
                WorkerEventView::Frame(request_frame),
            );
            let (after_second, second_action) = spec_worker_step(
                after_first,
                WorkerEventView::Frame(path_frame),
            );
            match spec_recv_request(request_frame, path_frame) {
                Ok((request, destination)) => first_action == WorkerActionView::Receive
                    && after_second == WorkerView::Preparing && second_action
                    == (WorkerActionView::Supervise { request, destination }),
                Err(RecvError::Request(error)) => after_first == WorkerView::Stopped
                    && first_action == WorkerActionView::Exit(
                    StopReasonView::Io(spec_recv_error_text(RecvError::Request(error))),
                ),
                Err(RecvError::NonUtf8Path) => first_action == WorkerActionView::Receive
                    && after_second == WorkerView::Stopped && second_action
                    == WorkerActionView::Exit(
                    StopReasonView::Io(spec_recv_error_text(RecvError::NonUtf8Path)),
                ),
            }
        }),
{
}

/// A worker that has stopped takes nothing up again.
pub proof fn lemma_stopped_is_final(event: WorkerEventView)
    ensures
        spec_worker_step(WorkerView::Stopped, event) == (
            WorkerView::Stopped,
            WorkerActionView::Ignore,
        ),
{
}

/// A mismatch of versions ends the worker before it asks for a request.
pub proof fn lemma_mismatch_ends_before_first_request(expected: Seq<char>, own: Seq<char>)
    requires
        expected != own,
    ensures
        spec_worker_step(
            WorkerView::Connecting,
            WorkerEventView::Connected { expected_version: Some(expected), own_version: own },
        ) == (WorkerView::Stopped, WorkerActionView::Exit(StopReasonView::VersionMismatch)),
{
}

} // verus!
