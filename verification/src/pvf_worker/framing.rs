//! Messages on the byte stream between host and worker: each is its length
//! in four bytes, least significant first, followed by that many bytes.

use crate::wire::{
    append_bytes, lemma_u32_at_le, lemma_u32_le_at, read_u32_le, spec_read_u32_le, spec_u32_at,
    spec_u32_le, write_u32_le,
};
use vstd::prelude::*;
use vstd::slice::{slice_subrange, slice_to_vec};

verus! {

/// Bytes in the length prefix of a frame.
pub const FRAME_HEADER_LEN: usize = 4;

/// How a stream ended, seen from the reader of frames.
#[derive(Debug, Clone, Copy, PartialEq, Eq, Structural)]
pub enum StreamEnd {
    /// The stream ended between two frames: the host is done.
    Clean,
    /// The stream ended inside a length prefix or inside a payload.
    Truncated,
}

/// A payload as a frame.
pub open spec fn spec_frame(payload: Seq<u8>) -> Seq<u8>
    recommends
        payload.len() <= u32::MAX,
{
    spec_u32_le(payload.len() as u32) + payload
}

/// Reads a frame at `pos`: the payload and the position after it, or `None`
/// where the prefix or the payload is cut short.
pub open spec fn spec_read_frame(s: Seq<u8>, pos: int) -> Option<(Seq<u8>, int)> {
    match spec_read_u32_le(s, pos) {
        None => None,
        Some((len, start)) => if start + len > s.len() {
            None
        } else {
            Some((s.subrange(start, start + len), start + len))
        },
    }
}

/// How many bytes are still to come before `received`, the bytes of one
/// frame from its first, holds a whole frame.
pub open spec fn spec_missing(received: Seq<u8>) -> int {
    if received.len() < FRAME_HEADER_LEN {
        FRAME_HEADER_LEN - received.len()
    } else if received.len() - FRAME_HEADER_LEN >= spec_u32_at(received, 0) {
        0
    } else {
        FRAME_HEADER_LEN + spec_u32_at(received, 0) - received.len()
    }
}

/// A frame that was written is read back as its payload, whatever follows.
#[verifier::rlimit(50)]
pub proof fn lemma_frame_read_back(payload: Seq<u8>, rest: Seq<u8>)
    requires
        payload.len() <= u32::MAX,
    ensures
        spec_read_frame(spec_frame(payload) + rest, 0) == Some(
            (payload, spec_frame(payload).len() as int),
        ),
        spec_frame(payload).len() == FRAME_HEADER_LEN + payload.len(),
{
    let s = spec_frame(payload) + rest;
    assert(s.subrange(0, 4) =~= spec_u32_le(payload.len() as u32));
    lemma_u32_le_at(s, 0, payload.len() as u32);
    assert(s.subrange(4, 4 + payload.len() as int) =~= payload);
}

/// What is read as a frame is the frame of the payload read.
#[verifier::rlimit(50)]
pub proof fn lemma_frame_written_back(s: Seq<u8>, pos: int)
    requires
        spec_read_frame(s, pos) is Some,
    ensures
        ({
            let (payload, next) = spec_read_frame(s, pos)->Some_0;
            &&& 0 <= pos < next <= s.len()
            &&& payload.len() <= u32::MAX
            &&& s.subrange(pos, next) == spec_frame(payload)
        }),
{
    let (payload, next) = spec_read_frame(s, pos)->Some_0;
    lemma_u32_at_le(s, pos);
    assert(s.subrange(pos, next) =~= s.subrange(pos, pos + 4) + s.subrange(pos + 4, next));
}

/// The length prefix of a payload of `len` bytes; `None` when the length
/// does not fit four bytes.
pub fn frame_header(len: usize) -> (header: Option<Vec<u8>>)
    ensures
        header is Some <==> len <= u32::MAX,
        header matches Some(h) ==> h@ == spec_u32_le(len as u32),
{
    if len > u32::MAX as usize {
        return None;
    }
    let mut out: Vec<u8> = Vec::new();
    write_u32_le(&mut out, len as u32);
    assert(out@ =~= spec_u32_le(len as u32));
    Some(out)
}

/// The frame of `payload`; `None` when the payload is too long for a frame.
pub fn encode_frame(payload: &[u8]) -> (frame: Option<Vec<u8>>)
    ensures
        frame is Some <==> payload@.len() <= u32::MAX,
        frame matches Some(f) ==> f@ == spec_frame(payload@),
{
    match frame_header(payload.len()) {
        None => None,
        Some(mut out) => {
            append_bytes(&mut out, payload);
            Some(out)
        },
    }
}

/// Reads a frame at `pos` of a buffer: a copy of the payload and the
/// position after it.
pub fn read_frame(input: &[u8], pos: usize) -> (r: Option<(Vec<u8>, usize)>)
    ensures
        r is Some <==> spec_read_frame(input@, pos as int) is Some,
        r matches Some((payload, next)) ==> spec_read_frame(input@, pos as int) == Some(
            (payload@, next as int),
        ),
{
    match read_u32_le(input, pos) {
        None => None,
        Some((len, start)) => {
            if input.len() - start < len as usize {
                return None;
            }
            let end: usize = start + len as usize;
            Some((slice_to_vec(slice_subrange(input, start, end)), end))
        },
    }
}

/// Collects one frame from the chunks that the stream delivers. Its view is
/// what it has received of the frame so far, prefix included.
pub struct FrameReader {
    buffer: Vec<u8>,
}

impl View for FrameReader {
    type V = Seq<u8>;

    closed spec fn view(&self) -> Seq<u8> {
        self.buffer@
    }
}

impl FrameReader {
    /// A reader that has received nothing.
    pub fn new() -> (reader: FrameReader)
        ensures
            reader@ == Seq::<u8>::empty(),
    {
        FrameReader { buffer: Vec::new() }
    }

    /// How many bytes to read next: what is missing of the prefix, then what
    /// is missing of the payload. Zero when the frame is whole.
    pub fn missing(&self) -> (n: usize)
        ensures
            n == spec_missing(self@),
    {
        if self.buffer.len() < FRAME_HEADER_LEN {
            FRAME_HEADER_LEN - self.buffer.len()
        } else {
            let announced: u32 = match read_u32_le(self.buffer.as_slice(), 0) {
                Some((len, _)) => len,
                None => 0,
            };
            let held: usize = self.buffer.len() - FRAME_HEADER_LEN;
            if held >= announced as usize {
                0
            } else {
                announced as usize - held
            }
        }
    }

    /// Takes from `chunk` what the frame still misses and says how many
    /// bytes that was; the rest of the chunk is not looked at.
    pub fn feed(&mut self, chunk: &[u8]) -> (taken: usize)
        ensures
            taken <= chunk@.len(),
            final(self)@ == old(self)@ + chunk@.subrange(0, taken as int),
            taken == chunk@.len() || spec_missing(final(self)@) == 0,
            forall|k: int|
                0 <= k < taken ==> spec_missing(#[trigger] (old(self)@ + chunk@.subrange(0, k)))
                    > 0,
    {
        let mut taken: usize = 0;
        while taken < chunk.len() && self.missing() > 0
            invariant
                taken <= chunk@.len(),
                self@ == old(self)@ + chunk@.subrange(0, taken as int),
                forall|k: int|
                0 <= k < taken ==> spec_missing(#[trigger] (old(self)@ + chunk@.subrange(0, k)))
                    > 0,
            decreases chunk@.len() - taken,
        {
            self.buffer.push(chunk[taken]);
            taken += 1;
            assert(self@ =~= old(self)@ + chunk@.subrange(0, taken as int));
        }
        taken
    }

    /// Hands out the payload once the frame is whole and starts over for the
    /// next frame; `None`, with nothing changed, while bytes are missing.
    pub fn take_frame(&mut self) -> (payload: Option<Vec<u8>>)
        ensures
            payload is Some <==> spec_missing(old(self)@) == 0,
            payload matches Some(p) ==> spec_read_frame(old(self)@, 0) matches Some((read, _))
                && read == p@ && final(self)@ == Seq::<u8>::empty(),
            payload is None ==> final(self)@ == old(self)@,
    {
        if self.missing() > 0 {
            return None;
        }
        let read = read_frame(self.buffer.as_slice(), 0);
        self.buffer.clear();
        match read {
            Some((payload, _)) => Some(payload),
            None => Some(Vec::new()),
        }
    }

    /// How the stream ended if it ends now: cleanly if nothing of a frame
    /// has been received, inside a frame otherwise.
    pub fn end_of_stream(&self) -> (end: StreamEnd)
        ensures
            end == (if self@.len() == 0 {
                StreamEnd::Clean
            } else {
                StreamEnd::Truncated
            }),
    {
        if self.buffer.len() == 0 {
            StreamEnd::Clean
        } else {
            StreamEnd::Truncated
        }
    }
}

/// Of a frame of which the first `k` bytes have arrived, the rest of the
/// prefix is missing while the prefix is incomplete, and the rest of the
/// frame after that: nothing is missing exactly when the whole frame is in.
#[verifier::rlimit(50)]
pub proof fn lemma_missing_of_frame(payload: Seq<u8>, k: int)
    requires
        payload.len() <= u32::MAX,
        0 <= k <= spec_frame(payload).len(),
    ensures
        spec_missing(spec_frame(payload).subrange(0, k)) == (if k < FRAME_HEADER_LEN {
            FRAME_HEADER_LEN - k
        } else {
            spec_frame(payload).len() - k
        }),
        spec_missing(spec_frame(payload).subrange(0, k)) == 0 <==> k == spec_frame(payload).len(),
{
    let frame = spec_frame(payload);
    assert(spec_u32_le(payload.len() as u32).len() == 4);
    assert(frame.len() == 4 + payload.len());
    let part = frame.subrange(0, k);
    assert(part.len() == k);
    if k >= FRAME_HEADER_LEN {
        assert(part.subrange(0, 4) =~= spec_u32_le(payload.len() as u32));
        lemma_u32_le_at(part, 0, payload.len() as u32);
    }
}

} // verus!
