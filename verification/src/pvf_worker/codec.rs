//! The two messages of the worker's protocol as bytes: the request that the
//! host sends and the outcome that the worker answers with.

use crate::pvf_worker::duration::{CpuDuration, NANOS_PER_SEC};
use crate::pvf_worker::error::{OutcomeKind, PrepareError, PrepareErrorView};
use crate::pvf_worker::memory_stats::{MemoryStats, MemoryTrackerSummary, PrepareStats};
use crate::pvf_worker::request::{PvfPrepData, PvfPrepDataView};
use crate::wire::{
    lemma_byte_string_read_back, lemma_byte_string_written_back, lemma_u32_at_le, lemma_u32_le_at,
    lemma_u64_at_le, lemma_u64_le_at, read_byte_string, read_u32_le, read_u64_le,
    spec_byte_string, spec_i64_le, spec_read_byte_string, spec_read_u32_le, spec_read_u64_le,
    spec_u32_le, spec_u64_le, write_byte_string, write_i64_le, write_u32_le, write_u64_le,
};
use vstd::prelude::*;
use crate::pvf_worker::path::text_from_utf8;
use crate::wire::{read_i64_le, spec_read_i64_le, spec_u64_at};
use vstd::utf8::{decode_utf8, encode_utf8, valid_utf8};

verus! {

/// Why a byte string is no request: the part that could not be read.
#[derive(Debug, Clone, Copy, PartialEq, Eq, Structural)]
pub enum RequestDecodeError {
    /// The blob is cut short or its length prefix is malformed.
    Code,
    /// The executor parameters are cut short or their prefix is malformed.
    ExecutorParams,
    /// Fewer than twelve bytes are left for the timeout.
    Timeout,
    /// The timeout's sub-second part is a second or more.
    SubsecNanos,
}

/// A span on the wire: its seconds in eight bytes, then its nanoseconds in
/// four, both least significant byte first.
pub open spec fn spec_encode_duration(d: CpuDuration) -> Seq<u8> {
    spec_u64_le(d.spec_secs()) + spec_u32_le(d.spec_subsec_nanos())
}

/// Whether a request can be written: both byte strings have a length of at
/// most 32 bits, and the timeout is a well-formed span.
pub open spec fn spec_request_encodable(request: PvfPrepDataView) -> bool {
    &&& request.code.len() <= u32::MAX
    &&& request.executor_params.len() <= u32::MAX
    &&& request.prep_timeout.wf()
}

/// A request on the wire: the blob and the executor parameters as byte
/// strings, then the timeout.
pub open spec fn spec_encode_request(request: PvfPrepDataView) -> Seq<u8> {
    spec_byte_string(request.code) + spec_byte_string(request.executor_params)
        + spec_encode_duration(request.prep_timeout)
}

/// Reads a request from the start of `s`: the request and the number of
/// bytes it took, or the part that could not be read. Bytes after the
/// request are not looked at.
pub open spec fn spec_decode_request(s: Seq<u8>) -> Result<(PvfPrepDataView, int), RequestDecodeError> {
    match spec_read_byte_string(s, 0) {
        None => Err(RequestDecodeError::Code),
        Some((code, after_code)) => match spec_read_byte_string(s, after_code) {
            None => Err(RequestDecodeError::ExecutorParams),
            Some((executor_params, after_params)) => match spec_read_u64_le(s, after_params) {
                None => Err(RequestDecodeError::Timeout),
                Some((secs, after_secs)) => match spec_read_u32_le(s, after_secs) {
                    None => Err(RequestDecodeError::Timeout),
                    Some((nanos, end)) => if nanos >= NANOS_PER_SEC {
                        Err(RequestDecodeError::SubsecNanos)
                    } else {
                        Ok(
                            (
                                PvfPrepDataView {
                                    code,
                                    executor_params,
                                    prep_timeout: CpuDuration::spec_new(secs, nanos),
                                },
                                end,
                            ),
                        )
                    },
                },
            },
        },
    }
}

/// A request that was written is read back as it was, whatever follows it.
#[verifier::rlimit(50)]
pub proof fn lemma_request_read_back(request: PvfPrepDataView, rest: Seq<u8>)
    requires
        spec_request_encodable(request),
    ensures
        spec_decode_request(spec_encode_request(request) + rest) == Ok::<
            (PvfPrepDataView, int),
            RequestDecodeError,
        >((request, spec_encode_request(request).len() as int)),
{
    let code = spec_byte_string(request.code);
    let params = spec_byte_string(request.executor_params);
    let secs = request.prep_timeout.spec_secs();
    let nanos = request.prep_timeout.spec_subsec_nanos();
    let s = spec_encode_request(request) + rest;
    let p1 = code.len() as int;
    let p2 = p1 + params.len();
    let p3 = p2 + 8;
    let p4 = p3 + 4;
    assert(s.subrange(0, p1) =~= code);
    assert(s.subrange(p1, p2) =~= params);
    assert(s.subrange(p2, p3) =~= spec_u64_le(secs));
    assert(s.subrange(p3, p4) =~= spec_u32_le(nanos));
    lemma_byte_string_read_back(s, 0, request.code);
    lemma_byte_string_read_back(s, p1, request.executor_params);
    lemma_u64_le_at(s, p2, secs);
    lemma_u32_le_at(s, p3, nanos);
    request.prep_timeout.lemma_wf();
    request.prep_timeout.lemma_parts();
    assert(p4 == spec_encode_request(request).len());
}

/// What is read as a request is the wire form of the request read: writing
/// the request again gives the bytes it was read from. A byte string that is
/// a request and nothing more is therefore written back whole.
#[verifier::rlimit(50)]
pub proof fn lemma_request_written_back(s: Seq<u8>)
    requires
        spec_decode_request(s) is Ok,
    ensures
        ({
            let (request, end) = spec_decode_request(s)->Ok_0;
            &&& 0 <= end <= s.len()
            &&& spec_request_encodable(request)
            &&& spec_encode_request(request) == s.subrange(0, end)
            &&& end == s.len() ==> spec_encode_request(request) == s
        }),
{
    let (request, end) = spec_decode_request(s)->Ok_0;
    let (code, p1) = spec_read_byte_string(s, 0)->Some_0;
    let (params, p2) = spec_read_byte_string(s, p1)->Some_0;
    let (secs, p3) = spec_read_u64_le(s, p2)->Some_0;
    let (nanos, p4) = spec_read_u32_le(s, p3)->Some_0;
    lemma_byte_string_written_back(s, 0);
    lemma_byte_string_written_back(s, p1);
    lemma_u64_at_le(s, p2);
    lemma_u32_at_le(s, p3);
    CpuDuration::lemma_spec_new(secs, nanos);
    assert(s.subrange(0, end) =~= s.subrange(0, p1) + s.subrange(p1, p2) + (s.subrange(p2, p3)
        + s.subrange(p3, p4)));
    assert(spec_encode_request(request) =~= s.subrange(0, p1) + s.subrange(p1, p2) + (s.subrange(
        p2,
        p3,
    ) + s.subrange(p3, p4)));
    if end == s.len() {
        assert(s.subrange(0, end) =~= s);
    }
}

/// Appends a span in its wire form.
pub fn write_duration(out: &mut Vec<u8>, d: &CpuDuration)
    ensures
        final(out)@ == old(out)@ + spec_encode_duration(*d),
{
    let ghost before = out@;
    write_u64_le(out, d.as_secs());
    write_u32_le(out, d.subsec_nanos());
    assert(out@ =~= before + spec_encode_duration(*d));
}

/// Writes a request in its wire form; `None` when the blob or the executor
/// parameters are too long for a 32-bit length.
pub fn encode_request(request: &PvfPrepData) -> (bytes: Option<Vec<u8>>)
    ensures
        bytes is Some <==> request@.code.len() <= u32::MAX && request@.executor_params.len()
            <= u32::MAX,
        bytes matches Some(b) ==> b@ == spec_encode_request(request@) && spec_request_encodable(
            request@,
        ),
{
    let mut out: Vec<u8> = Vec::new();
    if !write_byte_string(&mut out, request.code().as_slice()) {
        return None;
    }
    if !write_byte_string(&mut out, request.executor_params().as_slice()) {
        return None;
    }
    let timeout = request.prep_timeout();
    write_duration(&mut out, &timeout);
    proof {
        use_type_invariant(&timeout);
    }
    assert(out@ =~= spec_encode_request(request@));
    Some(out)
}

/// Reads a request from the start of `input`, as `spec_decode_request` does.
pub fn decode_request(input: &[u8]) -> (r: Result<PvfPrepData, RequestDecodeError>)
    ensures
        r matches Ok(request) ==> spec_decode_request(input@) matches Ok((view, _)) && view
            == request@,
        r matches Err(e) ==> spec_decode_request(input@) == Err::<
            (PvfPrepDataView, int),
            RequestDecodeError,
        >(e),
{
    let (code, after_code) = match read_byte_string(input, 0) {
        None => { return Err(RequestDecodeError::Code); },
        Some(read) => read,
    };
    let (executor_params, after_params) = match read_byte_string(input, after_code) {
        None => { return Err(RequestDecodeError::ExecutorParams); },
        Some(read) => read,
    };
    let (secs, after_secs) = match read_u64_le(input, after_params) {
        None => { return Err(RequestDecodeError::Timeout); },
        Some(read) => read,
    };
    let (nanos, end) = match read_u32_le(input, after_secs) {
        None => { return Err(RequestDecodeError::Timeout); },
        Some(read) => read,
    };
    match CpuDuration::new(secs, nanos) {
        None => Err(RequestDecodeError::SubsecNanos),
        Some(prep_timeout) => Ok(PvfPrepData::from_code(code, executor_params, prep_timeout)),
    }
}

/// An outcome with the detail of a failure as a sequence of characters.
pub open spec fn outcome_view(outcome: Result<PrepareStats, PrepareError>) -> Result<
    PrepareStats,
    PrepareErrorView,
> {
    match outcome {
        Ok(stats) => Ok(stats),
        Err(error) => Err(error@),
    }
}

/// The kind of an outcome.
pub open spec fn outcome_kind(outcome: Result<PrepareStats, PrepareErrorView>) -> OutcomeKind {
    match outcome {
        Ok(_) => OutcomeKind::Prepared,
        Err(error) => error.kind(),
    }
}

/// A sampler summary on the wire: peak, mean and number of readings, eight
/// bytes each.
pub open spec fn spec_encode_summary(summary: MemoryTrackerSummary) -> Seq<u8> {
    spec_u64_le(summary.peak) + spec_u64_le(summary.avg) + spec_u64_le(summary.samples)
}

/// The memory record on the wire. Each of its two fields is a byte 0 where
/// it is absent, and a byte 1 followed by the value where it is present.
pub open spec fn spec_encode_memory_stats(stats: MemoryStats) -> Seq<u8> {
    spec_encode_optional_summary(stats.memory_tracker_stats) + spec_encode_optional_i64(
        stats.max_rss,
    )
}

/// The success payload on the wire: the CPU time, then the memory record.
pub open spec fn spec_encode_stats(stats: PrepareStats) -> Seq<u8> {
    spec_encode_duration(stats.cpu_time_elapsed) + spec_encode_memory_stats(stats.memory_stats)
}

/// A detail on the wire: its UTF-8 bytes as a byte string.
pub open spec fn spec_encode_detail(detail: Seq<char>) -> Seq<u8> {
    spec_byte_string(encode_utf8(detail))
}

/// Whether an outcome can be written: the UTF-8 form of its detail, if it has
/// one, has a length of at most 32 bits.
pub open spec fn spec_outcome_encodable(outcome: Result<PrepareStats, PrepareErrorView>) -> bool {
    match outcome {
        Ok(_) => true,
        Err(error) => match error.detail() {
            None => true,
            Some(detail) => encode_utf8(detail).len() <= u32::MAX,
        },
    }
}

/// An outcome on the wire: the tag of its kind, then the statistics of a
/// success or the detail of a failure. A timeout is its tag alone.
pub open spec fn spec_encode_outcome(outcome: Result<PrepareStats, PrepareErrorView>) -> Seq<u8> {
    seq![outcome_kind(outcome).spec_tag()] + (match outcome {
        Ok(stats) => spec_encode_stats(stats),
        Err(error) => match error.detail() {
            None => Seq::<u8>::empty(),
            Some(detail) => spec_encode_detail(detail),
        },
    })
}

/// The first byte of a written outcome is the tag of its kind, so the host
/// tells the kinds apart by it.
pub proof fn lemma_outcome_tag(outcome: Result<PrepareStats, PrepareErrorView>)
    ensures
        spec_encode_outcome(outcome).len() >= 1,
        spec_encode_outcome(outcome)[0] == outcome_kind(outcome).spec_tag(),
{
}

/// Outcomes that are written alike are of the same kind.
pub proof fn lemma_outcome_kind_recognised(
    a: Result<PrepareStats, PrepareErrorView>,
    b: Result<PrepareStats, PrepareErrorView>,
)
    requires
        spec_encode_outcome(a) == spec_encode_outcome(b),
    ensures
        outcome_kind(a) == outcome_kind(b),
{
    lemma_outcome_tag(a);
    lemma_outcome_tag(b);
    outcome_kind(a).lemma_tag_injective(outcome_kind(b));
}

/// Appends the memory record in its wire form.
pub fn write_memory_stats(out: &mut Vec<u8>, stats: &MemoryStats)
    ensures
        final(out)@ == old(out)@ + spec_encode_memory_stats(*stats),
{
    let ghost before = out@;
    match stats.memory_tracker_stats {
        None => {
            out.push(0);
        },
        Some(summary) => {
            out.push(1);
            write_u64_le(out, summary.peak);
            write_u64_le(out, summary.avg);
            write_u64_le(out, summary.samples);
        },
    }
    match stats.max_rss {
        None => {
            out.push(0);
        },
        Some(max_rss) => {
            out.push(1);
            write_i64_le(out, max_rss);
        },
    }
    assert(out@ =~= before + spec_encode_memory_stats(*stats));
}

/// Appends a detail in its wire form: `false`, with `out` untouched, when its
/// UTF-8 form is too long for a 32-bit length.
pub fn write_detail(out: &mut Vec<u8>, detail: &String) -> (written: bool)
    ensures
        written <==> encode_utf8(detail@).len() <= u32::MAX,
        written ==> final(out)@ == old(out)@ + spec_encode_detail(detail@),
        !written ==> final(out)@ == old(out)@,
{
    write_byte_string(out, detail.as_str().as_bytes())
}

/// Writes an outcome in its wire form; `None` when its detail is too long
/// for a 32-bit length.
pub fn encode_outcome(outcome: &Result<PrepareStats, PrepareError>) -> (bytes: Option<Vec<u8>>)
    ensures
        bytes is Some <==> spec_outcome_encodable(outcome_view(*outcome)),
        bytes matches Some(b) ==> b@ == spec_encode_outcome(outcome_view(*outcome)),
{
    let mut out: Vec<u8> = Vec::new();
    match outcome {
        Ok(stats) => {
            out.push(OutcomeKind::Prepared.tag());
            write_duration(&mut out, &stats.cpu_time_elapsed);
            write_memory_stats(&mut out, &stats.memory_stats);
            assert(out@ =~= spec_encode_outcome(outcome_view(*outcome)));
            Some(out)
        },
        Err(error) => {
            out.push(error.kind().tag());
            let written: bool = match error {
                PrepareError::Prevalidation(detail) => write_detail(&mut out, detail),
                PrepareError::Preparation(detail) => write_detail(&mut out, detail),
                PrepareError::Panic(detail) => write_detail(&mut out, detail),
                PrepareError::TimedOut => true,
                PrepareError::IoErr(detail) => write_detail(&mut out, detail),
            };
            if written {
                assert(out@ =~= spec_encode_outcome(outcome_view(*outcome)));
                Some(out)
            } else {
                None
            }
        },
    }
}

/// Reads a span at `pos`: its seconds and its nanoseconds, which must be
/// less than a second.
pub open spec fn spec_read_duration(s: Seq<u8>, pos: int) -> Option<(CpuDuration, int)> {
    match spec_read_u64_le(s, pos) {
        None => None,
        Some((secs, middle)) => match spec_read_u32_le(s, middle) {
            None => None,
            Some((nanos, next)) => if nanos < NANOS_PER_SEC {
                Some((CpuDuration::spec_new(secs, nanos), next))
            } else {
                None
            },
        },
    }
}

/// Reads a sampler summary at `pos`.
pub open spec fn spec_read_summary(s: Seq<u8>, pos: int) -> Option<(MemoryTrackerSummary, int)> {
    if 0 <= pos && pos + 24 <= s.len() {
        Some(
            (
                MemoryTrackerSummary {
                    peak: spec_u64_at(s, pos),
                    avg: spec_u64_at(s, pos + 8),
                    samples: spec_u64_at(s, pos + 16),
                },
                pos + 24,
            ),
        )
    } else {
        None
    }
}

/// Reads an optional sampler summary at `pos`: the byte 0 for none, or the
/// byte 1 and the summary.
pub open spec fn spec_read_optional_summary(s: Seq<u8>, pos: int) -> Option<
    (Option<MemoryTrackerSummary>, int),
> {
    if pos < 0 || pos >= s.len() || s[pos] > 1 {
        None
    } else if s[pos] == 0 {
        Some((None, pos + 1))
    } else {
        match spec_read_summary(s, pos + 1) {
            Some((summary, next)) => Some((Some(summary), next)),
            None => None,
        }
    }
}

/// Reads an optional signed number at `pos`: the byte 0 for none, or the
/// byte 1 and the number.
pub open spec fn spec_read_optional_i64(s: Seq<u8>, pos: int) -> Option<(Option<i64>, int)> {
    if pos < 0 || pos >= s.len() || s[pos] > 1 {
        None
    } else if s[pos] == 0 {
        Some((None, pos + 1))
    } else {
        match spec_read_i64_le(s, pos + 1) {
            Some((x, next)) => Some((Some(x), next)),
            None => None,
        }
    }
}

/// Reads the memory record at `pos`: its two optional fields.
pub open spec fn spec_read_memory_stats(s: Seq<u8>, pos: int) -> Option<(MemoryStats, int)> {
    match spec_read_optional_summary(s, pos) {
        None => None,
        Some((memory_tracker_stats, middle)) => match spec_read_optional_i64(s, middle) {
            None => None,
            Some((max_rss, next)) => Some((MemoryStats { memory_tracker_stats, max_rss }, next)),
        },
    }
}

/// An optional summary on the wire.
pub open spec fn spec_encode_optional_summary(summary: Option<MemoryTrackerSummary>) -> Seq<u8> {
    match summary {
        None => seq![0u8],
        Some(summary) => seq![1u8] + spec_encode_summary(summary),
    }
}

/// An optional signed number on the wire.
pub open spec fn spec_encode_optional_i64(x: Option<i64>) -> Seq<u8> {
    match x {
        None => seq![0u8],
        Some(x) => seq![1u8] + spec_i64_le(x),
    }
}

/// Reads a detail at `pos`: a byte string that is UTF-8.
pub open spec fn spec_read_detail(s: Seq<u8>, pos: int) -> Option<(Seq<char>, int)> {
    match spec_read_byte_string(s, pos) {
        Some((bytes, next)) if valid_utf8(bytes) => Some((decode_utf8(bytes), next)),
        _ => None,
    }
}

/// Reads an outcome from the start of `s`, as the host does: the outcome and
/// the number of bytes it took, or `None` for bytes that are no outcome.
pub open spec fn spec_decode_outcome(s: Seq<u8>) -> Option<
    (Result<PrepareStats, PrepareErrorView>, int),
> {
    if s.len() == 0 {
        None
    } else if s[0] == 0 {
        match spec_read_duration(s, 1) {
            None => None,
            Some((cpu_time_elapsed, middle)) => match spec_read_memory_stats(s, middle) {
                None => None,
                Some((memory_stats, next)) => Some(
                    (Ok(PrepareStats { cpu_time_elapsed, memory_stats }), next),
                ),
            },
        }
    } else if s[0] == 4 {
        Some((Err(PrepareErrorView::TimedOut), 1))
    } else {
        match spec_read_detail(s, 1) {
            None => None,
            Some((detail, next)) => if s[0] == 1 {
                Some((Err(PrepareErrorView::Prevalidation(detail)), next))
            } else if s[0] == 2 {
                Some((Err(PrepareErrorView::Preparation(detail)), next))
            } else if s[0] == 3 {
                Some((Err(PrepareErrorView::Panic(detail)), next))
            } else if s[0] == 5 {
                Some((Err(PrepareErrorView::IoErr(detail)), next))
            } else {
                None
            },
        }
    }
}

/// A span that was written at `pos` is read back as it was.
#[verifier::rlimit(50)]
pub proof fn lemma_duration_read_back(s: Seq<u8>, pos: int, d: CpuDuration)
    requires
        d.wf(),
        0 <= pos,
        pos + 12 <= s.len(),
        s.subrange(pos, pos + 12) == spec_encode_duration(d),
    ensures
        spec_read_duration(s, pos) == Some((d, pos + 12)),
{
    let whole = s.subrange(pos, pos + 12);
    assert(s.subrange(pos, pos + 8) =~= whole.subrange(0, 8));
    assert(whole.subrange(0, 8) =~= spec_u64_le(d.spec_secs()));
    assert(s.subrange(pos + 8, pos + 12) =~= whole.subrange(8, 12));
    assert(whole.subrange(8, 12) =~= spec_u32_le(d.spec_subsec_nanos()));
    lemma_u64_le_at(s, pos, d.spec_secs());
    lemma_u32_le_at(s, pos + 8, d.spec_subsec_nanos());
    d.lemma_wf();
    d.lemma_parts();
}

/// An optional summary that was written at `pos` is read back as it was.
#[verifier::rlimit(50)]
pub proof fn lemma_optional_summary_read_back(
    s: Seq<u8>,
    pos: int,
    summary: Option<MemoryTrackerSummary>,
)
    requires
        0 <= pos,
        pos + spec_encode_optional_summary(summary).len() <= s.len(),
        s.subrange(pos, pos + spec_encode_optional_summary(summary).len())
            == spec_encode_optional_summary(summary),
    ensures
        spec_read_optional_summary(s, pos) == Some(
            (summary, pos + spec_encode_optional_summary(summary).len()),
        ),
        spec_encode_optional_summary(summary).len() == (if summary is Some {
            25nat
        } else {
            1nat
        }),
{
    let written = spec_encode_optional_summary(summary);
    let whole = s.subrange(pos, pos + written.len());
    assert(whole[0] == s[pos]);
    match summary {
        None => {},
        Some(found) => {
            assert(written.len() == 25);
            assert(s.subrange(pos + 1, pos + 9) =~= whole.subrange(1, 9));
            assert(whole.subrange(1, 9) =~= spec_u64_le(found.peak));
            assert(s.subrange(pos + 9, pos + 17) =~= whole.subrange(9, 17));
            assert(whole.subrange(9, 17) =~= spec_u64_le(found.avg));
            assert(s.subrange(pos + 17, pos + 25) =~= whole.subrange(17, 25));
            assert(whole.subrange(17, 25) =~= spec_u64_le(found.samples));
            lemma_u64_le_at(s, pos + 1, found.peak);
            lemma_u64_le_at(s, pos + 9, found.avg);
            lemma_u64_le_at(s, pos + 17, found.samples);
        },
    }
}

/// An optional signed number that was written at `pos` is read back as it
/// was.
#[verifier::rlimit(50)]
pub proof fn lemma_optional_i64_read_back(s: Seq<u8>, pos: int, x: Option<i64>)
    requires
        0 <= pos,
        pos + spec_encode_optional_i64(x).len() <= s.len(),
        s.subrange(pos, pos + spec_encode_optional_i64(x).len()) == spec_encode_optional_i64(x),
    ensures
        spec_read_optional_i64(s, pos) == Some((x, pos + spec_encode_optional_i64(x).len())),
        spec_encode_optional_i64(x).len() == (if x is Some {
            9nat
        } else {
            1nat
        }),
{
    let written = spec_encode_optional_i64(x);
    let whole = s.subrange(pos, pos + written.len());
    assert(whole[0] == s[pos]);
    match x {
        None => {},
        Some(found) => {
            assert(written.len() == 9);
            assert(s.subrange(pos + 1, pos + 9) =~= whole.subrange(1, 9));
            assert(whole.subrange(1, 9) =~= spec_i64_le(found));
            crate::wire::lemma_i64_le_at(s, pos + 1, found);
        },
    }
}

/// A memory record that was written at `pos` is read back as it was.
#[verifier::rlimit(50)]
pub proof fn lemma_memory_stats_read_back(s: Seq<u8>, pos: int, stats: MemoryStats)
    requires
        0 <= pos,
        pos + spec_encode_memory_stats(stats).len() <= s.len(),
        s.subrange(pos, pos + spec_encode_memory_stats(stats).len()) == spec_encode_memory_stats(
            stats,
        ),
    ensures
        spec_read_memory_stats(s, pos) == Some(
            (stats, pos + spec_encode_memory_stats(stats).len()),
        ),
{
    let first = spec_encode_optional_summary(stats.memory_tracker_stats);
    let second = spec_encode_optional_i64(stats.max_rss);
    let first_len = first.len() as int;
    let second_len = second.len() as int;
    let whole = s.subrange(pos, pos + first_len + second_len);
    let middle = pos + first_len;
    assert(s.subrange(pos, middle) =~= whole.subrange(0, first_len));
    assert(whole.subrange(0, first_len) =~= first);
    assert(s.subrange(middle, middle + second_len) =~= whole.subrange(
        first_len,
        first_len + second_len,
    ));
    assert(whole.subrange(first_len, first_len + second_len) =~= second);
    lemma_optional_summary_read_back(s, pos, stats.memory_tracker_stats);
    lemma_optional_i64_read_back(s, middle, stats.max_rss);
}

/// An outcome that was written is read back as it was, whatever follows it:
/// no two outcomes are written alike, and the host reads what the worker
/// meant.
#[verifier::rlimit(50)]
pub proof fn lemma_outcome_read_back(outcome: Result<PrepareStats, PrepareErrorView>, rest: Seq<u8>)
    requires
        spec_outcome_encodable(outcome),
        outcome matches Ok(stats) ==> stats.cpu_time_elapsed.wf(),
    ensures
        spec_decode_outcome(spec_encode_outcome(outcome) + rest) == Some(
            (outcome, spec_encode_outcome(outcome).len() as int),
        ),
{
    let written = spec_encode_outcome(outcome);
    let s = written + rest;
    assert(s[0] == written[0]);
    match outcome {
        Ok(stats) => {
            let memory = spec_encode_memory_stats(stats.memory_stats);
            assert(s.subrange(1, 13) =~= spec_encode_duration(stats.cpu_time_elapsed));
            lemma_duration_read_back(s, 1, stats.cpu_time_elapsed);
            assert(s.subrange(13, 13 + memory.len() as int) =~= memory);
            lemma_memory_stats_read_back(s, 13, stats.memory_stats);
        },
        Err(error) => {
            match error.detail() {
                None => {},
                Some(detail) => {
                    let bytes = encode_utf8(detail);
                    assert(s.subrange(1, 1 + spec_byte_string(bytes).len() as int)
                        =~= spec_byte_string(bytes));
                    lemma_byte_string_read_back(s, 1, bytes);
                    vstd::utf8::encode_utf8_valid_utf8(detail);
                    vstd::utf8::encode_utf8_decode_utf8(detail);
                },
            }
        },
    }
}

/// Outcomes that are written alike are the same outcome.
pub proof fn lemma_outcome_encoding_injective(
    a: Result<PrepareStats, PrepareErrorView>,
    b: Result<PrepareStats, PrepareErrorView>,
)
    requires
        spec_outcome_encodable(a),
        spec_outcome_encodable(b),
        a matches Ok(stats) ==> stats.cpu_time_elapsed.wf(),
        b matches Ok(stats) ==> stats.cpu_time_elapsed.wf(),
        spec_encode_outcome(a) == spec_encode_outcome(b),
    ensures
        a == b,
{
    lemma_outcome_read_back(a, Seq::empty());
    lemma_outcome_read_back(b, Seq::empty());
}

/// Reads a span at `pos`, as `spec_read_duration` does.
pub fn read_duration(input: &[u8], pos: usize) -> (r: Option<(CpuDuration, usize)>)
    ensures
        r is Some <==> spec_read_duration(input@, pos as int) is Some,
        r matches Some((d, next)) ==> spec_read_duration(input@, pos as int) == Some(
            (d, next as int),
        ),
{
    let (secs, middle) = match read_u64_le(input, pos) {
        Some(read) => read,
        None => { return None; },
    };
    let (nanos, next) = match read_u32_le(input, middle) {
        Some(read) => read,
        None => { return None; },
    };
    match CpuDuration::new(secs, nanos) {
        Some(d) => Some((d, next)),
        None => None,
    }
}

/// Reads an optional sampler summary at `pos`, as
/// `spec_read_optional_summary` does.
pub fn read_optional_summary(input: &[u8], pos: usize) -> (r: Option<
    (Option<MemoryTrackerSummary>, usize),
>)
    ensures
        r is Some <==> spec_read_optional_summary(input@, pos as int) is Some,
        r matches Some((summary, next)) ==> spec_read_optional_summary(input@, pos as int)
            == Some((summary, next as int)),
{
    if pos >= input.len() || input[pos] > 1 {
        return None;
    }
    if input[pos] == 0 {
        return Some((None, pos + 1));
    }
    let (peak, after_peak) = match read_u64_le(input, pos + 1) {
        Some(read) => read,
        None => { return None; },
    };
    let (avg, after_avg) = match read_u64_le(input, after_peak) {
        Some(read) => read,
        None => { return None; },
    };
    let (samples, after_samples) = match read_u64_le(input, after_avg) {
        Some(read) => read,
        None => { return None; },
    };
    Some((Some(MemoryTrackerSummary { peak, avg, samples }), after_samples))
}

/// Reads an optional signed number at `pos`, as `spec_read_optional_i64`
/// does.
pub fn read_optional_i64(input: &[u8], pos: usize) -> (r: Option<(Option<i64>, usize)>)
    ensures
        r is Some <==> spec_read_optional_i64(input@, pos as int) is Some,
        r matches Some((x, next)) ==> spec_read_optional_i64(input@, pos as int) == Some(
            (x, next as int),
        ),
{
    if pos >= input.len() || input[pos] > 1 {
        return None;
    }
    if input[pos] == 0 {
        return Some((None, pos + 1));
    }
    match read_i64_le(input, pos + 1) {
        Some((x, next)) => Some((Some(x), next)),
        None => None,
    }
}

/// Reads the memory record at `pos`, as `spec_read_memory_stats` does.
pub fn read_memory_stats(input: &[u8], pos: usize) -> (r: Option<(MemoryStats, usize)>)
    ensures
        r is Some <==> spec_read_memory_stats(input@, pos as int) is Some,
        r matches Some((stats, next)) ==> spec_read_memory_stats(input@, pos as int) == Some(
            (stats, next as int),
        ),
{
    let (memory_tracker_stats, middle) = match read_optional_summary(input, pos) {
        Some(read) => read,
        None => { return None; },
    };
    match read_optional_i64(input, middle) {
        Some((max_rss, next)) => Some((MemoryStats { memory_tracker_stats, max_rss }, next)),
        None => None,
    }
}

/// Reads a detail at `pos`, as `spec_read_detail` does.
pub fn read_detail(input: &[u8], pos: usize) -> (r: Option<(String, usize)>)
    ensures
        r is Some <==> spec_read_detail(input@, pos as int) is Some,
        r matches Some((detail, next)) ==> spec_read_detail(input@, pos as int) == Some(
            (detail@, next as int),
        ),
{
    match read_byte_string(input, pos) {
        None => None,
        Some((bytes, next)) => match text_from_utf8(bytes) {
            Some(detail) => Some((detail, next)),
            None => None,
        },
    }
}

/// Reads an outcome from the start of `input`, as the host does and as
/// `spec_decode_outcome` says.
pub fn decode_outcome(input: &[u8]) -> (outcome: Option<Result<PrepareStats, PrepareError>>)
    ensures
        outcome is Some <==> spec_decode_outcome(input@) is Some,
        outcome matches Some(o) ==> spec_decode_outcome(input@) matches Some((view, _)) && view
            == outcome_view(o),
{
    if input.len() == 0 {
        return None;
    }
    let tag: u8 = input[0];
    if tag == 0 {
        let (cpu_time_elapsed, middle) = match read_duration(input, 1) {
            Some(read) => read,
            None => { return None; },
        };
        return match read_memory_stats(input, middle) {
            Some((memory_stats, _)) => Some(Ok(PrepareStats { cpu_time_elapsed, memory_stats })),
            None => None,
        };
    }
    if tag == 4 {
        return Some(Err(PrepareError::TimedOut));
    }
    let detail = match read_detail(input, 1) {
        Some((detail, _)) => detail,
        None => { return None; },
    };
    if tag == 1 {
        Some(Err(PrepareError::Prevalidation(detail)))
    } else if tag == 2 {
        Some(Err(PrepareError::Preparation(detail)))
    } else if tag == 3 {
        Some(Err(PrepareError::Panic(detail)))
    } else if tag == 5 {
        Some(Err(PrepareError::IoErr(detail)))
    } else {
        None
    }
}

} // verus!
