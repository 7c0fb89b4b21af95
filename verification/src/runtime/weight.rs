//! The weight of a call: the computation time it may take and the size of
//! the proof it may need. Weights add up and scale without overflow: a sum
//! or product that does not fit stays at the largest value.

use crate::wire::{read_compact_u64, spec_read_compact_u64};
use vstd::prelude::*;

verus! {

/// The number that a saturating sum or product comes to: `x` itself where it
/// fits 64 bits, and the largest 64-bit number above that.
pub open spec fn spec_saturate(x: int) -> u64 {
    if x > u64::MAX {
        u64::MAX
    } else if x < 0 {
        0
    } else {
        x as u64
    }
}

/// Saturating a sum of saturated parts is saturating the sum of the parts.
pub proof fn lemma_saturate_sum(x: int, y: int)
    requires
        x >= 0,
        y >= 0,
    ensures
        spec_saturate(spec_saturate(x) + spec_saturate(y)) == spec_saturate(x + y),
{
}

/// The product of two numbers, at most the largest 64-bit number.
pub fn saturating_mul(a: u64, b: u64) -> (product: u64)
    ensures
        product == spec_saturate(a * b),
{
    match a.checked_mul(b) {
        Some(product) => product,
        None => u64::MAX,
    }
}

/// The weight of a call in its two dimensions.
#[derive(Debug, Clone, Copy, PartialEq, Eq, Structural)]
pub struct Weight {
    /// Computation time, in picoseconds of the reference hardware.
    pub ref_time: u64,
    /// Proof size, in bytes.
    pub proof_size: u64,
}

impl Weight {
    /// The sum of two weights, saturating in each dimension.
    pub open spec fn spec_saturating_add(self, rhs: Weight) -> Weight {
        Weight {
            ref_time: spec_saturate(self.ref_time + rhs.ref_time),
            proof_size: spec_saturate(self.proof_size + rhs.proof_size),
        }
    }

    /// A weight scaled by a number, saturating in each dimension.
    pub open spec fn spec_saturating_mul(self, scalar: u64) -> Weight {
        Weight {
            ref_time: spec_saturate(self.ref_time * scalar),
            proof_size: spec_saturate(self.proof_size * scalar),
        }
    }

    /// Reads a stored weight at `pos`: its two parts as compact numbers,
    /// computation time first.
    pub open spec fn spec_read(s: Seq<u8>, pos: int) -> Option<(Weight, int)> {
        match spec_read_compact_u64(s, pos) {
            None => None,
            Some((ref_time, middle)) => match spec_read_compact_u64(s, middle) {
                None => None,
                Some((proof_size, next)) => Some((Weight { ref_time, proof_size }, next)),
            },
        }
    }

    /// Reads a stored weight at `pos` of a buffer: the weight and the
    /// position after it.
    pub fn read(input: &[u8], pos: usize) -> (r: Option<(Weight, usize)>)
        ensures
            r is Some <==> Weight::spec_read(input@, pos as int) is Some,
            r matches Some((w, next)) ==> Weight::spec_read(input@, pos as int) == Some(
                (w, next as int),
            ),
    {
        let (ref_time, middle) = match read_compact_u64(input, pos) {
            Some(read) => read,
            None => { return None; },
        };
        let (proof_size, next) = match read_compact_u64(input, middle) {
            Some(read) => read,
            None => { return None; },
        };
        Some((Weight { ref_time, proof_size }, next))
    }

    /// The weight of the given parts.
    pub fn from_parts(ref_time: u64, proof_size: u64) -> (w: Weight)
        ensures
            w == (Weight { ref_time, proof_size }),
    {
        Weight { ref_time, proof_size }
    }

    /// A weight of computation time alone.
    pub fn from_ref_time(ref_time: u64) -> (w: Weight)
        ensures
            w == (Weight { ref_time, proof_size: 0 }),
    {
        Weight { ref_time, proof_size: 0 }
    }

    /// A weight of proof size alone.
    pub fn from_proof_size(proof_size: u64) -> (w: Weight)
        ensures
            w == (Weight { ref_time: 0, proof_size }),
    {
        Weight { ref_time: 0, proof_size }
    }

    /// No weight.
    pub fn zero() -> (w: Weight)
        ensures
            w == (Weight { ref_time: 0, proof_size: 0 }),
    {
        Weight { ref_time: 0, proof_size: 0 }
    }

    /// The sum of two weights, saturating in each dimension.
    pub fn saturating_add(self, rhs: Weight) -> (w: Weight)
        ensures
            w == self.spec_saturating_add(rhs),
    {
        Weight {
            ref_time: self.ref_time.saturating_add(rhs.ref_time),
            proof_size: self.proof_size.saturating_add(rhs.proof_size),
        }
    }

    /// This weight scaled by a number, saturating in each dimension.
    pub fn saturating_mul(self, scalar: u64) -> (w: Weight)
        ensures
            w == self.spec_saturating_mul(scalar),
    {
        Weight {
            ref_time: saturating_mul(self.ref_time, scalar),
            proof_size: saturating_mul(self.proof_size, scalar),
        }
    }
}

/// What one read and one write of the runtime's database cost in
/// computation time.
#[derive(Debug, Clone, Copy, PartialEq, Eq, Structural)]
pub struct RuntimeDbWeight {
    pub read: u64,
    pub write: u64,
}

impl RuntimeDbWeight {
    /// The weight of `r` reads.
    pub fn reads(self, r: u64) -> (w: Weight)
        ensures
            w == (Weight { ref_time: spec_saturate(self.read * r), proof_size: 0 }),
    {
        Weight::from_parts(saturating_mul(self.read, r), 0)
    }

    /// The weight of `w` writes.
    pub fn writes(self, w: u64) -> (weight: Weight)
        ensures
            weight == (Weight { ref_time: spec_saturate(self.write * w), proof_size: 0 }),
    {
        Weight::from_parts(saturating_mul(self.write, w), 0)
    }

    /// The weight of `r` reads and `w` writes.
    pub fn reads_writes(self, r: u64, w: u64) -> (weight: Weight)
        ensures
            weight == (Weight {
                ref_time: spec_saturate(self.read * r + self.write * w),
                proof_size: 0,
            }),
    {
        let read_weight: u64 = saturating_mul(self.read, r);
        let write_weight: u64 = saturating_mul(self.write, w);
        assert(self.read * r >= 0 && self.write * w >= 0) by (nonlinear_arith);
        Weight::from_parts(read_weight.saturating_add(write_weight), 0)
    }
}

} // verus!
