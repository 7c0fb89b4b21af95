//! The byte-level building blocks of what goes over the wire and into
//! storage: little-endian integers, compact numbers and length-prefixed byte
//! strings. Every reader works at a position inside a buffer and reports the
//! position after what it read.

use vstd::prelude::*;
use vstd::slice::{slice_subrange, slice_to_vec};

verus! {

/// Largest value that a one-byte compact prefix holds.
pub const COMPACT_ONE_BYTE_MAX: u32 = 63;

/// Largest value that a two-byte compact prefix holds.
pub const COMPACT_TWO_BYTE_MAX: u32 = 16_383;

/// Largest value that a four-byte compact prefix holds.
pub const COMPACT_FOUR_BYTE_MAX: u32 = 1_073_741_823;

/// The two bytes of `x`, least significant first.
pub open spec fn spec_u16_le(x: u16) -> Seq<u8> {
    seq![(x % 256) as u8, (x / 256) as u8]
}

/// The four bytes of `x`, least significant first.
pub open spec fn spec_u32_le(x: u32) -> Seq<u8> {
    seq![
        (x % 256) as u8,
        (x / 256 % 256) as u8,
        (x / 65_536 % 256) as u8,
        (x / 16_777_216) as u8,
    ]
}

/// The eight bytes of `x`, least significant first.
pub open spec fn spec_u64_le(x: u64) -> Seq<u8> {
    spec_u32_le((x % 4_294_967_296) as u32) + spec_u32_le((x / 4_294_967_296) as u32)
}

/// The eight bytes of `x` in two's complement, least significant first.
pub open spec fn spec_i64_le(x: i64) -> Seq<u8> {
    spec_u64_le(spec_i64_bits(x))
}

/// The two's complement of `x` as an unsigned number.
pub open spec fn spec_i64_bits(x: i64) -> u64 {
    if x >= 0 {
        x as u64
    } else {
        (x + 18_446_744_073_709_551_616) as u64
    }
}

/// The number whose two least significant bytes stand at `pos` and `pos + 1`.
pub open spec fn spec_u16_at(s: Seq<u8>, pos: int) -> u16 {
    (s[pos] as int + 256 * (s[pos + 1] as int)) as u16
}

/// The number whose four bytes stand at `pos`, least significant first.
pub open spec fn spec_u32_at(s: Seq<u8>, pos: int) -> u32 {
    (s[pos] as int + 256 * (s[pos + 1] as int) + 65_536 * (s[pos + 2] as int) + 16_777_216 * (s[pos
        + 3] as int)) as u32
}

/// The number whose eight bytes stand at `pos`, least significant first.
pub open spec fn spec_u64_at(s: Seq<u8>, pos: int) -> u64 {
    (spec_u32_at(s, pos) as int + 4_294_967_296 * (spec_u32_at(s, pos + 4) as int)) as u64
}

/// The signed number whose two's complement stands at `pos` in eight bytes.
pub open spec fn spec_i64_at(s: Seq<u8>, pos: int) -> i64 {
    let bits = spec_u64_at(s, pos);
    if bits < 9_223_372_036_854_775_808 {
        bits as i64
    } else {
        (bits - 18_446_744_073_709_551_616) as i64
    }
}

/// The compact prefix of a length: one, two, four or five bytes, the shortest
/// form that holds it. The two lowest bits of the first byte tell the form.
pub open spec fn spec_compact_len(n: u32) -> Seq<u8> {
    if n <= COMPACT_ONE_BYTE_MAX {
        seq![(n * 4) as u8]
    } else if n <= COMPACT_TWO_BYTE_MAX {
        spec_u16_le((n * 4 + 1) as u16)
    } else if n <= COMPACT_FOUR_BYTE_MAX {
        spec_u32_le((n * 4 + 2) as u32)
    } else {
        seq![3u8] + spec_u32_le(n)
    }
}

/// Reads a compact prefix at `pos`: the length and the position after it.
/// A prefix that is cut short, or that is not the shortest form of its
/// length, or that announces more than 32 bits, is no prefix.
pub open spec fn spec_read_compact_len(s: Seq<u8>, pos: int) -> Option<(u32, int)> {
    if pos < 0 || pos >= s.len() {
        None
    } else {
        let first = s[pos];
        if first % 4 == 0 {
            Some(((first / 4) as u32, pos + 1))
        } else if first % 4 == 1 {
            if pos + 2 > s.len() {
                None
            } else {
                let n = spec_u16_at(s, pos) / 4;
                if n > COMPACT_ONE_BYTE_MAX {
                    Some((n as u32, pos + 2))
                } else {
                    None
                }
            }
        } else if first % 4 == 2 {
            if pos + 4 > s.len() {
                None
            } else {
                let n = spec_u32_at(s, pos) / 4;
                if n > COMPACT_TWO_BYTE_MAX {
                    Some((n as u32, pos + 4))
                } else {
                    None
                }
            }
        } else {
            if first != 3 || pos + 5 > s.len() {
                None
            } else {
                let n = spec_u32_at(s, pos + 1);
                if n > COMPACT_FOUR_BYTE_MAX {
                    Some((n, pos + 5))
                } else {
                    None
                }
            }
        }
    }
}

/// A byte string on the wire: its length as a compact prefix, then its bytes.
pub open spec fn spec_byte_string(bytes: Seq<u8>) -> Seq<u8>
    recommends
        bytes.len() <= u32::MAX,
{
    spec_compact_len(bytes.len() as u32) + bytes
}

/// Reads a byte string at `pos`: its bytes and the position after them.
pub open spec fn spec_read_byte_string(s: Seq<u8>, pos: int) -> Option<(Seq<u8>, int)> {
    match spec_read_compact_len(s, pos) {
        None => None,
        Some((n, start)) => {
            if start + n > s.len() {
                None
            } else {
                Some((s.subrange(start, start + n), start + n))
            }
        },
    }
}

/// The bytes of `x` at `pos` read back as `x`.
pub proof fn lemma_u16_le_at(s: Seq<u8>, pos: int, x: u16)
    requires
        0 <= pos,
        pos + 2 <= s.len(),
        s.subrange(pos, pos + 2) == spec_u16_le(x),
    ensures
        spec_u16_at(s, pos) == x,
        s[pos] == (x % 256) as u8,
{
    let part = s.subrange(pos, pos + 2);
    assert(part[0] == s[pos]);
    assert(part[1] == s[pos + 1]);
}

/// What is read at `pos` as a 16-bit number is written as the two bytes there.
pub proof fn lemma_u16_at_le(s: Seq<u8>, pos: int)
    requires
        0 <= pos,
        pos + 2 <= s.len(),
    ensures
        spec_u16_le(spec_u16_at(s, pos)) == s.subrange(pos, pos + 2),
{
    assert(spec_u16_le(spec_u16_at(s, pos)) =~= s.subrange(pos, pos + 2));
}

/// The bytes of `x` at `pos` read back as `x`.
#[verifier::rlimit(50)]
pub proof fn lemma_u32_le_at(s: Seq<u8>, pos: int, x: u32)
    requires
        0 <= pos,
        pos + 4 <= s.len(),
        s.subrange(pos, pos + 4) == spec_u32_le(x),
    ensures
        spec_u32_at(s, pos) == x,
        s[pos] == (x % 256) as u8,
{
    let part = s.subrange(pos, pos + 4);
    assert(part[0] == s[pos]);
    assert(part[1] == s[pos + 1]);
    assert(part[2] == s[pos + 2]);
    assert(part[3] == s[pos + 3]);
    lemma_digits_of(x as int);
}

/// A 32-bit number is the sum of its four digits in base 256.
#[verifier::rlimit(50)]
proof fn lemma_digits_of(x: int)
    requires
        0 <= x < 4_294_967_296,
    ensures
        x == x % 256 + 256 * (x / 256 % 256) + 65_536 * (x / 65_536 % 256) + 16_777_216 * (x
            / 16_777_216),
        0 <= x / 16_777_216 < 256,
{
    let y = x / 256;
    let z = y / 256;
    let w = z / 256;
    assert(x == 256 * y + x % 256);
    assert(y == 256 * z + y % 256);
    assert(z == 256 * w + z % 256);
    assert(z == x / 65_536);
    assert(w == x / 16_777_216);
}

/// What is read at `pos` as a 32-bit number is written as the four bytes there.
#[verifier::rlimit(50)]
pub proof fn lemma_u32_at_le(s: Seq<u8>, pos: int)
    requires
        0 <= pos,
        pos + 4 <= s.len(),
    ensures
        spec_u32_le(spec_u32_at(s, pos)) == s.subrange(pos, pos + 4),
{
    let b0: int = s[pos] as int;
    let b1: int = s[pos + 1] as int;
    let b2: int = s[pos + 2] as int;
    let b3: int = s[pos + 3] as int;
    let x: int = b0 + 256 * b1 + 65_536 * b2 + 16_777_216 * b3;
    lemma_four_digits(b0, b1, b2, b3);
    assert(spec_u32_at(s, pos) == x);
    let written = spec_u32_le(spec_u32_at(s, pos));
    let part = s.subrange(pos, pos + 4);
    assert(written[0] == part[0]);
    assert(written[1] == part[1]);
    assert(written[2] == part[2]);
    assert(written[3] == part[3]);
    assert(written =~= part);
}

/// Four digits in base 256 are found again by division and remainder.
#[verifier::rlimit(50)]
proof fn lemma_four_digits(b0: int, b1: int, b2: int, b3: int)
    requires
        0 <= b0 < 256,
        0 <= b1 < 256,
        0 <= b2 < 256,
        0 <= b3 < 256,
    ensures
        ({
            let x = b0 + 256 * b1 + 65_536 * b2 + 16_777_216 * b3;
            &&& 0 <= x < 4_294_967_296
            &&& x % 256 == b0
            &&& x / 256 % 256 == b1
            &&& x / 65_536 % 256 == b2
            &&& x / 16_777_216 == b3
        }),
{
    let x = b0 + 256 * b1 + 65_536 * b2 + 16_777_216 * b3;
    let y = b1 + 256 * b2 + 65_536 * b3;
    let z = b2 + 256 * b3;
    assert(x == b0 + 256 * y);
    assert(y == b1 + 256 * z);
    assert(x / 256 == y);
    assert(y / 256 == z);
    assert(z / 256 == b3);
    assert(x / 65_536 == z);
    assert(x / 16_777_216 == b3);
}

/// The bytes of `x` at `pos` read back as `x`.
#[verifier::rlimit(50)]
pub proof fn lemma_u64_le_at(s: Seq<u8>, pos: int, x: u64)
    requires
        0 <= pos,
        pos + 8 <= s.len(),
        s.subrange(pos, pos + 8) == spec_u64_le(x),
    ensures
        spec_u64_at(s, pos) == x,
{
    let low = (x % 4_294_967_296) as u32;
    let high = (x / 4_294_967_296) as u32;
    let whole = s.subrange(pos, pos + 8);
    assert(s.subrange(pos, pos + 4) =~= whole.subrange(0, 4));
    assert(s.subrange(pos + 4, pos + 8) =~= whole.subrange(4, 8));
    assert(whole.subrange(0, 4) =~= spec_u32_le(low));
    assert(whole.subrange(4, 8) =~= spec_u32_le(high));
    lemma_u32_le_at(s, pos, low);
    lemma_u32_le_at(s, pos + 4, high);
}

/// What is read at `pos` as a 64-bit number is written as the eight bytes there.
#[verifier::rlimit(50)]
pub proof fn lemma_u64_at_le(s: Seq<u8>, pos: int)
    requires
        0 <= pos,
        pos + 8 <= s.len(),
    ensures
        spec_u64_le(spec_u64_at(s, pos)) == s.subrange(pos, pos + 8),
{
    let low = spec_u32_at(s, pos);
    let high = spec_u32_at(s, pos + 4);
    let x = spec_u64_at(s, pos);
    assert(x % 4_294_967_296 == low);
    assert(x / 4_294_967_296 == high);
    lemma_u32_at_le(s, pos);
    lemma_u32_at_le(s, pos + 4);
    assert(s.subrange(pos, pos + 4) + s.subrange(pos + 4, pos + 8) =~= s.subrange(pos, pos + 8));
}

/// The two's complement of a signed number reads back as that number.
pub proof fn lemma_i64_le_at(s: Seq<u8>, pos: int, x: i64)
    requires
        0 <= pos,
        pos + 8 <= s.len(),
        s.subrange(pos, pos + 8) == spec_i64_le(x),
    ensures
        spec_i64_at(s, pos) == x,
{
    lemma_u64_le_at(s, pos, spec_i64_bits(x));
}

/// What is read at `pos` as a signed number is written as the eight bytes there.
pub proof fn lemma_i64_at_le(s: Seq<u8>, pos: int)
    requires
        0 <= pos,
        pos + 8 <= s.len(),
    ensures
        spec_i64_le(spec_i64_at(s, pos)) == s.subrange(pos, pos + 8),
{
    lemma_u64_at_le(s, pos);
}

/// How many bytes the compact prefix of `n` takes.
pub open spec fn spec_compact_len_size(n: u32) -> int {
    if n <= COMPACT_ONE_BYTE_MAX {
        1
    } else if n <= COMPACT_TWO_BYTE_MAX {
        2
    } else if n <= COMPACT_FOUR_BYTE_MAX {
        4
    } else {
        5
    }
}

/// A compact prefix has the size that `spec_compact_len_size` gives.
pub proof fn lemma_compact_len_size(n: u32)
    ensures
        spec_compact_len(n).len() == spec_compact_len_size(n),
{
}

/// A compact prefix written at `pos` is read back as the same length.
#[verifier::rlimit(50)]
pub proof fn lemma_compact_len_read_back(s: Seq<u8>, pos: int, n: u32)
    requires
        0 <= pos,
        pos + spec_compact_len_size(n) <= s.len(),
        s.subrange(pos, pos + spec_compact_len_size(n)) == spec_compact_len(n),
    ensures
        spec_read_compact_len(s, pos) == Some((n, pos + spec_compact_len_size(n))),
{
    let size = spec_compact_len_size(n);
    let part = s.subrange(pos, pos + size);
    assert(part[0] == s[pos]);
    if n <= COMPACT_ONE_BYTE_MAX {
    } else if n <= COMPACT_TWO_BYTE_MAX {
        lemma_u16_le_at(s, pos, (n * 4 + 1) as u16);
    } else if n <= COMPACT_FOUR_BYTE_MAX {
        lemma_u32_le_at(s, pos, (n * 4 + 2) as u32);
    } else {
        assert(s.subrange(pos + 1, pos + 5) =~= part.subrange(1, 5));
        assert(part.subrange(1, 5) =~= spec_u32_le(n));
        lemma_u32_le_at(s, pos + 1, n);
    }
}

/// What is read as a compact prefix is the compact prefix of the length read:
/// no two byte strings are read as the same length.
#[verifier::rlimit(50)]
pub proof fn lemma_compact_len_written_back(s: Seq<u8>, pos: int)
    requires
        spec_read_compact_len(s, pos) is Some,
    ensures
        ({
            let (n, next) = spec_read_compact_len(s, pos)->Some_0;
            &&& 0 <= pos < next <= s.len()
            &&& next == pos + spec_compact_len_size(n)
            &&& s.subrange(pos, next) == spec_compact_len(n)
        }),
{
    let (n, next) = spec_read_compact_len(s, pos)->Some_0;
    let first = s[pos];
    if first % 4 == 0 {
        assert(s.subrange(pos, next) =~= spec_compact_len(n));
    } else if first % 4 == 1 {
        lemma_u16_at_le(s, pos);
        assert(spec_u16_at(s, pos) == n * 4 + 1);
    } else if first % 4 == 2 {
        lemma_u32_at_le(s, pos);
        assert(spec_u32_at(s, pos) == n * 4 + 2);
    } else {
        lemma_u32_at_le(s, pos + 1);
        assert(s.subrange(pos, next) =~= seq![3u8] + s.subrange(pos + 1, pos + 5));
    }
}

/// A byte string written at `pos` is read back as the same bytes.
#[verifier::rlimit(50)]
pub proof fn lemma_byte_string_read_back(s: Seq<u8>, pos: int, bytes: Seq<u8>)
    requires
        0 <= pos,
        bytes.len() <= u32::MAX,
        pos + spec_byte_string(bytes).len() <= s.len(),
        s.subrange(pos, pos + spec_byte_string(bytes).len()) == spec_byte_string(bytes),
    ensures
        spec_read_byte_string(s, pos) == Some((bytes, pos + spec_byte_string(bytes).len())),
{
    let n = bytes.len() as u32;
    let size = spec_compact_len_size(n);
    let whole = s.subrange(pos, pos + size + n);
    lemma_compact_len_size(n);
    assert(s.subrange(pos, pos + size) =~= whole.subrange(0, size));
    assert(whole.subrange(0, size) =~= spec_compact_len(n));
    lemma_compact_len_read_back(s, pos, n);
    assert(s.subrange(pos + size, pos + size + n) =~= whole.subrange(size, size + n));
    assert(whole.subrange(size, size + n) =~= bytes);
}

/// What is read as a byte string is the wire form of the bytes read.
#[verifier::rlimit(50)]
pub proof fn lemma_byte_string_written_back(s: Seq<u8>, pos: int)
    requires
        spec_read_byte_string(s, pos) is Some,
    ensures
        ({
            let (bytes, next) = spec_read_byte_string(s, pos)->Some_0;
            &&& 0 <= pos < next <= s.len()
            &&& bytes.len() <= u32::MAX
            &&& s.subrange(pos, next) == spec_byte_string(bytes)
        }),
{
    let (n, start) = spec_read_compact_len(s, pos)->Some_0;
    lemma_compact_len_written_back(s, pos);
    let (bytes, next) = spec_read_byte_string(s, pos)->Some_0;
    assert(s.subrange(pos, next) =~= s.subrange(pos, start) + s.subrange(start, next));
}

/// Reads a 32-bit number at `pos`, if four bytes stand there.
pub open spec fn spec_read_u32_le(s: Seq<u8>, pos: int) -> Option<(u32, int)> {
    if 0 <= pos && pos + 4 <= s.len() {
        Some((spec_u32_at(s, pos), pos + 4))
    } else {
        None
    }
}

/// Reads a 64-bit number at `pos`, if eight bytes stand there.
pub open spec fn spec_read_u64_le(s: Seq<u8>, pos: int) -> Option<(u64, int)> {
    if 0 <= pos && pos + 8 <= s.len() {
        Some((spec_u64_at(s, pos), pos + 8))
    } else {
        None
    }
}

/// Reads a signed 64-bit number at `pos`, if eight bytes stand there.
pub open spec fn spec_read_i64_le(s: Seq<u8>, pos: int) -> Option<(i64, int)> {
    if 0 <= pos && pos + 8 <= s.len() {
        Some((spec_i64_at(s, pos), pos + 8))
    } else {
        None
    }
}

/// Appends `bytes` to `out`.
pub fn append_bytes(out: &mut Vec<u8>, bytes: &[u8])
    ensures
        final(out)@ == old(out)@ + bytes@,
{
    let mut i: usize = 0;
    while i < bytes.len()
        invariant
            i <= bytes.len(),
            out@ == old(out)@ + bytes@.subrange(0, i as int),
        decreases bytes.len() - i,
    {
        out.push(bytes[i]);
        i += 1;
        assert(out@ =~= old(out)@ + bytes@.subrange(0, i as int));
    }
    assert(bytes@.subrange(0, i as int) =~= bytes@);
}

/// Appends the two bytes of `x`, least significant first.
pub fn write_u16_le(out: &mut Vec<u8>, x: u16)
    ensures
        final(out)@ == old(out)@ + spec_u16_le(x),
{
    out.push((x % 256) as u8);
    out.push((x / 256) as u8);
    assert(out@ =~= old(out)@ + spec_u16_le(x));
}

/// Appends the four bytes of `x`, least significant first.
pub fn write_u32_le(out: &mut Vec<u8>, x: u32)
    ensures
        final(out)@ == old(out)@ + spec_u32_le(x),
{
    out.push((x % 256) as u8);
    out.push((x / 256 % 256) as u8);
    out.push((x / 65_536 % 256) as u8);
    out.push((x / 16_777_216) as u8);
    assert(out@ =~= old(out)@ + spec_u32_le(x));
}

/// Appends the eight bytes of `x`, least significant first.
pub fn write_u64_le(out: &mut Vec<u8>, x: u64)
    ensures
        final(out)@ == old(out)@ + spec_u64_le(x),
{
    let ghost before = out@;
    write_u32_le(out, (x % 4_294_967_296) as u32);
    write_u32_le(out, (x / 4_294_967_296) as u32);
    assert(out@ =~= before + spec_u64_le(x));
}

/// Appends the eight bytes of `x` in two's complement, least significant first.
pub fn write_i64_le(out: &mut Vec<u8>, x: i64)
    ensures
        final(out)@ == old(out)@ + spec_i64_le(x),
{
    let bits: u64 = if x >= 0 {
        x as u64
    } else {
        ((x - i64::MIN) as u64) + 9_223_372_036_854_775_808
    };
    write_u64_le(out, bits);
}

/// Appends the compact prefix of the length `n`.
pub fn write_compact_len(out: &mut Vec<u8>, n: u32)
    ensures
        final(out)@ == old(out)@ + spec_compact_len(n),
{
    if n <= COMPACT_ONE_BYTE_MAX {
        out.push((n * 4) as u8);
        assert(out@ =~= old(out)@ + spec_compact_len(n));
    } else if n <= COMPACT_TWO_BYTE_MAX {
        write_u16_le(out, (n * 4 + 1) as u16);
    } else if n <= COMPACT_FOUR_BYTE_MAX {
        write_u32_le(out, n * 4 + 2);
    } else {
        let ghost before = out@;
        out.push(3);
        write_u32_le(out, n);
        assert(out@ =~= before + spec_compact_len(n));
    }
}

/// Appends `bytes` as a byte string: `false`, with `out` untouched, when the
/// length does not fit the 32 bits of a compact prefix.
pub fn write_byte_string(out: &mut Vec<u8>, bytes: &[u8]) -> (written: bool)
    ensures
        written <==> bytes@.len() <= u32::MAX,
        written ==> final(out)@ == old(out)@ + spec_byte_string(bytes@),
        !written ==> final(out)@ == old(out)@,
{
    if bytes.len() > u32::MAX as usize {
        return false;
    }
    let ghost before = out@;
    write_compact_len(out, bytes.len() as u32);
    append_bytes(out, bytes);
    assert(out@ =~= before + spec_byte_string(bytes@));
    true
}

/// Reads a 16-bit number at `pos`; the caller has checked that two bytes
/// stand there.
fn u16_at(input: &[u8], pos: usize) -> (x: u16)
    requires
        pos + 2 <= input@.len(),
    ensures
        x == spec_u16_at(input@, pos as int),
{
    (input[pos] as u16) + 256 * (input[pos + 1] as u16)
}

/// Reads a 32-bit number at `pos`; the caller has checked that four bytes
/// stand there.
fn u32_at(input: &[u8], pos: usize) -> (x: u32)
    requires
        pos + 4 <= input@.len(),
    ensures
        x == spec_u32_at(input@, pos as int),
{
    (input[pos] as u32) + 256 * (input[pos + 1] as u32) + 65_536 * (input[pos + 2] as u32)
        + 16_777_216 * (input[pos + 3] as u32)
}

/// Reads a 32-bit number at `pos`: the number and the position after it, or
/// `None` when fewer than four bytes are left.
pub fn read_u32_le(input: &[u8], pos: usize) -> (r: Option<(u32, usize)>)
    ensures
        r is Some <==> spec_read_u32_le(input@, pos as int) is Some,
        r matches Some((x, next)) ==> spec_read_u32_le(input@, pos as int) == Some(
            (x, next as int),
        ),
{
    if pos > input.len() || input.len() - pos < 4 {
        return None;
    }
    Some((u32_at(input, pos), pos + 4))
}

/// Reads a 64-bit number at `pos`: the number and the position after it, or
/// `None` when fewer than eight bytes are left.
pub fn read_u64_le(input: &[u8], pos: usize) -> (r: Option<(u64, usize)>)
    ensures
        r is Some <==> spec_read_u64_le(input@, pos as int) is Some,
        r matches Some((x, next)) ==> spec_read_u64_le(input@, pos as int) == Some(
            (x, next as int),
        ),
{
    if pos > input.len() || input.len() - pos < 8 {
        return None;
    }
    let low: u32 = u32_at(input, pos);
    let high: u32 = u32_at(input, pos + 4);
    Some(((low as u64) + 4_294_967_296 * (high as u64), pos + 8))
}

/// Reads a signed 64-bit number at `pos`: the number and the position after
/// it, or `None` when fewer than eight bytes are left.
pub fn read_i64_le(input: &[u8], pos: usize) -> (r: Option<(i64, usize)>)
    ensures
        r is Some <==> spec_read_i64_le(input@, pos as int) is Some,
        r matches Some((x, next)) ==> spec_read_i64_le(input@, pos as int) == Some(
            (x, next as int),
        ),
{
    match read_u64_le(input, pos) {
        None => None,
        Some((bits, next)) => {
            let x: i64 = if bits < 9_223_372_036_854_775_808 {
                bits as i64
            } else {
                ((bits - 9_223_372_036_854_775_808) as i64) + i64::MIN
            };
            Some((x, next))
        },
    }
}

/// Reads a compact prefix at `pos`: the length and the position after the
/// prefix, or `None` where `spec_read_compact_len` finds no prefix.
#[verifier::rlimit(50)]
pub fn read_compact_len(input: &[u8], pos: usize) -> (r: Option<(u32, usize)>)
    ensures
        r is Some <==> spec_read_compact_len(input@, pos as int) is Some,
        r matches Some((n, next)) ==> spec_read_compact_len(input@, pos as int) == Some(
            (n, next as int),
        ),
{
    if pos >= input.len() {
        return None;
    }
    let left: usize = input.len() - pos;
    let first: u8 = input[pos];
    let form: u8 = first % 4;
    if form == 0 {
        Some(((first / 4) as u32, pos + 1))
    } else if form == 1 {
        if left < 2 {
            return None;
        }
        let n: u16 = u16_at(input, pos) / 4;
        if n as u32 > COMPACT_ONE_BYTE_MAX {
            Some((n as u32, pos + 2))
        } else {
            None
        }
    } else if form == 2 {
        if left < 4 {
            return None;
        }
        let n: u32 = u32_at(input, pos) / 4;
        if n > COMPACT_TWO_BYTE_MAX {
            Some((n, pos + 4))
        } else {
            None
        }
    } else {
        if first != 3 || left < 5 {
            return None;
        }
        let n: u32 = u32_at(input, pos + 1);
        if n > COMPACT_FOUR_BYTE_MAX {
            Some((n, pos + 5))
        } else {
            None
        }
    }
}

/// Reads a byte string at `pos`: a copy of its bytes and the position after
/// them, or `None` where the prefix is none or announces more bytes than are
/// left.
pub fn read_byte_string(input: &[u8], pos: usize) -> (r: Option<(Vec<u8>, usize)>)
    ensures
        r is Some <==> spec_read_byte_string(input@, pos as int) is Some,
        r matches Some((bytes, next)) ==> spec_read_byte_string(input@, pos as int) == Some(
            (bytes@, next as int),
        ),
{
    match read_compact_len(input, pos) {
        None => None,
        Some((n, start)) => {
            proof {
                lemma_compact_len_written_back(input@, pos as int);
            }
            if input.len() - start < n as usize {
                return None;
            }
            let end: usize = start + n as usize;
            let bytes = slice_to_vec(slice_subrange(input, start, end));
            Some((bytes, end))
        },
    }
}

/// The number whose sixteen bytes stand at `pos`, least significant first.
pub open spec fn spec_u128_at(s: Seq<u8>, pos: int) -> u128 {
    (spec_u64_at(s, pos) as int + 18_446_744_073_709_551_616 * (spec_u64_at(s, pos + 8) as int)) as u128
}

/// Reads a 128-bit number at `pos`, if sixteen bytes stand there.
pub open spec fn spec_read_u128_le(s: Seq<u8>, pos: int) -> Option<(u128, int)> {
    if 0 <= pos && pos + 16 <= s.len() {
        Some((spec_u128_at(s, pos), pos + 16))
    } else {
        None
    }
}

/// Reads a truth value at `pos`: the byte 0 is false and the byte 1 is true.
pub open spec fn spec_read_bool(s: Seq<u8>, pos: int) -> Option<(bool, int)> {
    if 0 <= pos < s.len() && s[pos] <= 1 {
        Some((s[pos] == 1, pos + 1))
    } else {
        None
    }
}

/// Reads an optional 32-bit number at `pos`: the byte 0 for none, or the
/// byte 1 and the number.
pub open spec fn spec_read_option_u32(s: Seq<u8>, pos: int) -> Option<(Option<u32>, int)> {
    if pos < 0 || pos >= s.len() {
        None
    } else if s[pos] == 0 {
        Some((None, pos + 1))
    } else if s[pos] == 1 {
        match spec_read_u32_le(s, pos + 1) {
            Some((x, next)) => Some((Some(x), next)),
            None => None,
        }
    } else {
        None
    }
}

/// The number whose `width` bytes, four to eight, stand at `pos`, least
/// significant first.
pub open spec fn spec_uint_at(s: Seq<u8>, pos: int, width: int) -> int {
    spec_u32_at(s, pos) as int + 4_294_967_296 * ((if width > 4 {
        s[pos + 4] as int
    } else {
        0
    }) + 256 * (if width > 5 {
        s[pos + 5] as int
    } else {
        0
    }) + 65_536 * (if width > 6 {
        s[pos + 6] as int
    } else {
        0
    }) + 16_777_216 * (if width > 7 {
        s[pos + 7] as int
    } else {
        0
    }))
}

/// The least number that the long form of a compact number is the shortest
/// form for, when it has `width` bytes after its first.
pub open spec fn spec_long_form_min(width: int) -> int {
    if width <= 4 {
        COMPACT_FOUR_BYTE_MAX + 1
    } else if width == 5 {
        4_294_967_296
    } else if width == 6 {
        1_099_511_627_776
    } else if width == 7 {
        281_474_976_710_656
    } else {
        72_057_594_037_927_936
    }
}

/// Reads a compact number of up to 64 bits at `pos`: the number and the
/// position after it. The forms of one, two and four bytes are those of a
/// compact length. In the long form the first byte has its two lowest bits
/// set and tells in the other six how many bytes beyond four follow; a
/// number is read only from the shortest form that holds it.
pub open spec fn spec_read_compact_u64(s: Seq<u8>, pos: int) -> Option<(u64, int)> {
    if pos < 0 || pos >= s.len() {
        None
    } else if s[pos] % 4 != 3 {
        match spec_read_compact_len(s, pos) {
            Some((n, next)) => Some((n as u64, next)),
            None => None,
        }
    } else {
        let width = s[pos] / 4 + 4;
        if width > 8 || pos + 1 + width > s.len() {
            None
        } else if spec_uint_at(s, pos + 1, width) >= spec_long_form_min(width) {
            Some((spec_uint_at(s, pos + 1, width) as u64, pos + 1 + width))
        } else {
            None
        }
    }
}

/// How many bytes follow the first in the long form of `x`: as few as hold
/// it, and at least four.
pub open spec fn spec_long_form_width(x: u64) -> int {
    if x < 4_294_967_296 {
        4
    } else if x < 1_099_511_627_776 {
        5
    } else if x < 281_474_976_710_656 {
        6
    } else if x < 72_057_594_037_927_936 {
        7
    } else {
        8
    }
}

/// A compact number of up to 64 bits: the form of a compact length where
/// that holds it, and the long form above that, a first byte that tells the
/// width and then as many of the number's bytes, least significant first.
pub open spec fn spec_compact_u64(x: u64) -> Seq<u8> {
    if x <= COMPACT_FOUR_BYTE_MAX {
        spec_compact_len(x as u32)
    } else {
        seq![((spec_long_form_width(x) - 4) * 4 + 3) as u8] + spec_u64_le(x).subrange(
            0,
            spec_long_form_width(x),
        )
    }
}

/// The upper digits of a number that is small enough are zero.
proof fn lemma_upper_digits(high: int, kept: int)
    requires
        0 <= high < 4_294_967_296,
        0 <= kept <= 4,
        kept == 0 ==> high == 0,
        kept == 1 ==> high < 256,
        kept == 2 ==> high < 65_536,
        kept == 3 ==> high < 16_777_216,
    ensures
        high == high % 256 + 256 * (high / 256 % 256) + 65_536 * (high / 65_536 % 256)
            + 16_777_216 * (high / 16_777_216),
        kept <= 0 ==> high % 256 == 0,
        kept <= 1 ==> high / 256 % 256 == 0,
        kept <= 2 ==> high / 65_536 % 256 == 0,
        kept <= 3 ==> high / 16_777_216 == 0,
{
    lemma_digits_of(high);
}

/// A compact number that was written at `pos` is read back as the same
/// number.
#[verifier::rlimit(50)]
pub proof fn lemma_compact_u64_read_back(s: Seq<u8>, pos: int, x: u64)
    requires
        0 <= pos,
        pos + spec_compact_u64(x).len() <= s.len(),
        s.subrange(pos, pos + spec_compact_u64(x).len()) == spec_compact_u64(x),
    ensures
        spec_read_compact_u64(s, pos) == Some((x, pos + spec_compact_u64(x).len())),
{
    let written = spec_compact_u64(x);
    let part = s.subrange(pos, pos + written.len());
    assert(part[0] == s[pos]);
    if x <= COMPACT_FOUR_BYTE_MAX {
        let n = x as u32;
        lemma_compact_len_size(n);
        lemma_compact_len_read_back(s, pos, n);
        assert(s[pos] % 4 != 3);
    } else {
        let width = spec_long_form_width(x);
        let low = (x % 4_294_967_296) as u32;
        let high = (x / 4_294_967_296) as u32;
        let bytes = spec_u64_le(x);
        assert(bytes.len() == 8);
        assert(written.len() == 1 + width);
        assert(s[pos] == ((width - 4) * 4 + 3) as u8);
        assert(s.subrange(pos + 1, pos + 5) =~= part.subrange(1, 5));
        assert(part.subrange(1, 5) =~= spec_u32_le(low));
        lemma_u32_le_at(s, pos + 1, low);
        lemma_upper_digits(high as int, width - 4);
        if width > 4 {
            assert(s[pos + 5] == part[5]);
            assert(part[5] == bytes[4]);
        }
        if width > 5 {
            assert(s[pos + 6] == part[6]);
            assert(part[6] == bytes[5]);
        }
        if width > 6 {
            assert(s[pos + 7] == part[7]);
            assert(part[7] == bytes[6]);
        }
        if width > 7 {
            assert(s[pos + 8] == part[8]);
            assert(part[8] == bytes[7]);
        }
        assert(spec_uint_at(s, pos + 1, width) == low + 4_294_967_296 * high);
        assert(low + 4_294_967_296 * high == x);
    }
}

/// What is read as a compact number is the compact form of the number
/// read: the reader takes the form that `spec_compact_u64` writes and no
/// other.
#[verifier::rlimit(50)]
pub proof fn lemma_compact_u64_written_back(s: Seq<u8>, pos: int)
    requires
        spec_read_compact_u64(s, pos) is Some,
    ensures
        ({
            let (x, next) = spec_read_compact_u64(s, pos)->Some_0;
            &&& 0 <= pos < next <= s.len()
            &&& s.subrange(pos, next) == spec_compact_u64(x)
        }),
{
    let (x, next) = spec_read_compact_u64(s, pos)->Some_0;
    if s[pos] % 4 != 3 {
        lemma_compact_len_written_back(s, pos);
    } else {
        let width = s[pos] / 4 + 4;
        let b0 = s[pos + 1] as int;
        let b1 = s[pos + 2] as int;
        let b2 = s[pos + 3] as int;
        let b3 = s[pos + 4] as int;
        let low = spec_u32_at(s, pos + 1) as int;
        lemma_four_digits(b0, b1, b2, b3);
        let h0: int = if width > 4 {
            s[pos + 5] as int
        } else {
            0
        };
        let h1: int = if width > 5 {
            s[pos + 6] as int
        } else {
            0
        };
        let h2: int = if width > 6 {
            s[pos + 7] as int
        } else {
            0
        };
        let h3: int = if width > 7 {
            s[pos + 8] as int
        } else {
            0
        };
        let high = h0 + 256 * h1 + 65_536 * h2 + 16_777_216 * h3;
        lemma_four_digits(h0, h1, h2, h3);
        assert(x == low + 4_294_967_296 * high);
        assert(x % 4_294_967_296 == low);
        assert(x / 4_294_967_296 == high);
        assert(spec_long_form_width(x) == width);
        lemma_u32_at_le(s, pos + 1);
        let bytes = spec_u64_le(x);
        assert(bytes.subrange(0, 4) =~= spec_u32_le(low as u32));
        let written = spec_compact_u64(x);
        let part = s.subrange(pos, next);
        assert(written.len() == part.len());
        assert forall|i: int| 0 <= i < part.len() implies part[i] == written[i] by {
            if i == 0 {
            } else if i <= 4 {
                assert(written[i] == bytes[i - 1]);
                assert(bytes[i - 1] == spec_u32_le(low as u32)[i - 1]);
                assert(s.subrange(pos + 1, pos + 5)[i - 1] == s[pos + i]);
            } else {
                assert(written[i] == bytes[i - 1]);
                assert(bytes[i - 1] == spec_u32_le(high as u32)[i - 5]);
            }
        }
        assert(part =~= written);
    }
}

/// Reads a 128-bit number at `pos`: the number and the position after it, or
/// `None` when fewer than sixteen bytes are left.
pub fn read_u128_le(input: &[u8], pos: usize) -> (r: Option<(u128, usize)>)
    ensures
        r is Some <==> spec_read_u128_le(input@, pos as int) is Some,
        r matches Some((x, next)) ==> spec_read_u128_le(input@, pos as int) == Some(
            (x, next as int),
        ),
{
    if pos > input.len() || input.len() - pos < 16 {
        return None;
    }
    let low: u64 = match read_u64_le(input, pos) {
        Some((x, _)) => x,
        None => 0,
    };
    let high: u64 = match read_u64_le(input, pos + 8) {
        Some((x, _)) => x,
        None => 0,
    };
    Some(((low as u128) + 18_446_744_073_709_551_616 * (high as u128), pos + 16))
}

/// Reads a truth value at `pos`, as `spec_read_bool` does.
pub fn read_bool(input: &[u8], pos: usize) -> (r: Option<(bool, usize)>)
    ensures
        r is Some <==> spec_read_bool(input@, pos as int) is Some,
        r matches Some((x, next)) ==> spec_read_bool(input@, pos as int) == Some((x, next as int)),
{
    if pos >= input.len() || input[pos] > 1 {
        return None;
    }
    Some((input[pos] == 1, pos + 1))
}

/// Reads an optional 32-bit number at `pos`, as `spec_read_option_u32` does.
pub fn read_option_u32(input: &[u8], pos: usize) -> (r: Option<(Option<u32>, usize)>)
    ensures
        r is Some <==> spec_read_option_u32(input@, pos as int) is Some,
        r matches Some((x, next)) ==> spec_read_option_u32(input@, pos as int) == Some(
            (x, next as int),
        ),
{
    if pos >= input.len() {
        return None;
    }
    let tag: u8 = input[pos];
    if tag == 0 {
        Some((None, pos + 1))
    } else if tag == 1 {
        match read_u32_le(input, pos + 1) {
            Some((x, next)) => Some((Some(x), next)),
            None => None,
        }
    } else {
        None
    }
}

/// Reads a compact number of up to 64 bits at `pos`, as
/// `spec_read_compact_u64` does.
#[verifier::rlimit(50)]
pub fn read_compact_u64(input: &[u8], pos: usize) -> (r: Option<(u64, usize)>)
    ensures
        r is Some <==> spec_read_compact_u64(input@, pos as int) is Some,
        r matches Some((x, next)) ==> spec_read_compact_u64(input@, pos as int) == Some(
            (x, next as int),
        ),
{
    if pos >= input.len() {
        return None;
    }
    let first: u8 = input[pos];
    if first % 4 != 3 {
        return match read_compact_len(input, pos) {
            Some((n, next)) => Some((n as u64, next)),
            None => None,
        };
    }
    let width: usize = (first / 4) as usize + 4;
    if width > 8 || input.len() - pos - 1 < width {
        return None;
    }
    let start: usize = pos + 1;
    let low: u64 = u32_at(input, start) as u64;
    let b4: u64 = if width > 4 {
        input[start + 4] as u64
    } else {
        0
    };
    let b5: u64 = if width > 5 {
        input[start + 5] as u64
    } else {
        0
    };
    let b6: u64 = if width > 6 {
        input[start + 6] as u64
    } else {
        0
    };
    let b7: u64 = if width > 7 {
        input[start + 7] as u64
    } else {
        0
    };
    let value: u64 = low + 4_294_967_296 * (b4 + 256 * b5 + 65_536 * b6 + 16_777_216 * b7);
    let least: u64 = if width == 4 {
        1_073_741_824
    } else if width == 5 {
        4_294_967_296
    } else if width == 6 {
        1_099_511_627_776
    } else if width == 7 {
        281_474_976_710_656
    } else {
        72_057_594_037_927_936
    };
    if value >= least {
        Some((value, start + width))
    } else {
        None
    }
}

} // verus!
