//! The weights of the calls of the elections pallet.

use crate::runtime::weight::{saturating_mul, spec_saturate, RuntimeDbWeight, Weight};
use vstd::prelude::*;

verus! {

/// Weight functions for the elections pallet, for a runtime whose database has
/// the given cost of a read and of a write.
#[derive(Debug, Clone, Copy, PartialEq, Eq, Structural)]
pub struct WeightInfo {
    pub db_weight: RuntimeDbWeight,
}

impl WeightInfo {
    /// Weight functions over the given database costs.
    pub fn new(db_weight: RuntimeDbWeight) -> (info: WeightInfo)
        ensures
            info.db_weight == db_weight,
    {
        WeightInfo { db_weight }
    }

    /// Voting again with as many votes, `v`, as before.
    pub fn vote_equal(&self, v: u32) -> (w: Weight)
        ensures
            w.ref_time == spec_saturate(
                32_337_960 + 147_172 * v + self.db_weight.read * 6 + self.db_weight.write * 2,
            ),
            w.proof_size == spec_saturate(17_670 + 320 * v),
    {
        Weight::from_parts(32_337_960, 0)
            .saturating_add(Weight::from_parts(0, 17_670))
            .saturating_add(Weight::from_parts(147_172, 0).saturating_mul(v as u64))
            .saturating_add(self.db_weight.reads(6))
            .saturating_add(self.db_weight.writes(2))
            .saturating_add(Weight::from_parts(0, 320).saturating_mul(v as u64))
    }

    /// Voting again with more votes, `v`, than before.
    pub fn vote_more(&self, v: u32) -> (w: Weight)
        ensures
            w.ref_time == spec_saturate(
                44_392_141 + 102_623 * v + self.db_weight.read * 6 + self.db_weight.write * 2,
            ),
            w.proof_size == spec_saturate(17_542 + 320 * v),
    {
        Weight::from_parts(44_392_141, 0)
            .saturating_add(Weight::from_parts(0, 17_542))
            .saturating_add(Weight::from_parts(102_623, 0).saturating_mul(v as u64))
            .saturating_add(self.db_weight.reads(6))
            .saturating_add(self.db_weight.writes(2))
            .saturating_add(Weight::from_parts(0, 320).saturating_mul(v as u64))
    }

    /// Voting again with fewer votes, `v`, than before.
    pub fn vote_less(&self, v: u32) -> (w: Weight)
        ensures
            w.ref_time == spec_saturate(
                44_138_547 + 137_337 * v + self.db_weight.read * 6 + self.db_weight.write * 2,
            ),
            w.proof_size == spec_saturate(17_670 + 320 * v),
    {
        Weight::from_parts(44_138_547, 0)
            .saturating_add(Weight::from_parts(0, 17_670))
            .saturating_add(Weight::from_parts(137_337, 0).saturating_mul(v as u64))
            .saturating_add(self.db_weight.reads(6))
            .saturating_add(self.db_weight.writes(2))
            .saturating_add(Weight::from_parts(0, 320).saturating_mul(v as u64))
    }

    /// Withdrawing as a voter.
    pub fn remove_voter(&self) -> (w: Weight)
        ensures
            w.ref_time == spec_saturate(
                45_448_000 + self.db_weight.read * 3 + self.db_weight.write * 2,
            ),
            w.proof_size == 12_634,
    {
        Weight::from_parts(45_448_000, 0)
            .saturating_add(Weight::from_parts(0, 12_634))
            .saturating_add(self.db_weight.reads(3))
            .saturating_add(self.db_weight.writes(2))
    }

    /// Standing as a candidate beside `c` others.
    pub fn submit_candidacy(&self, c: u32) -> (w: Weight)
        ensures
            w.ref_time == spec_saturate(
                25_421_117 + 87_141 * c + self.db_weight.read * 3 + self.db_weight.write,
            ),
            w.proof_size == spec_saturate(11_523 + 144 * c),
    {
        Weight::from_parts(25_421_117, 0)
            .saturating_add(Weight::from_parts(0, 11_523))
            .saturating_add(Weight::from_parts(87_141, 0).saturating_mul(c as u64))
            .saturating_add(self.db_weight.reads(3))
            .saturating_add(self.db_weight.writes(1))
            .saturating_add(Weight::from_parts(0, 144).saturating_mul(c as u64))
    }

    /// Renouncing as one of `c` candidates.
    pub fn renounce_candidacy_candidate(&self, c: u32) -> (w: Weight)
        ensures
            w.ref_time == spec_saturate(
                21_012_035 + 63_434 * c + self.db_weight.read + self.db_weight.write,
            ),
            w.proof_size == spec_saturate(1722 + 48 * c),
    {
        Weight::from_parts(21_012_035, 0)
            .saturating_add(Weight::from_parts(0, 1722))
            .saturating_add(Weight::from_parts(63_434, 0).saturating_mul(c as u64))
            .saturating_add(self.db_weight.reads(1))
            .saturating_add(self.db_weight.writes(1))
            .saturating_add(Weight::from_parts(0, 48).saturating_mul(c as u64))
    }

    /// Renouncing as a member.
    pub fn renounce_candidacy_members(&self) -> (w: Weight)
        ensures
            w.ref_time == spec_saturate(
                46_446_000 + self.db_weight.read * 4 + self.db_weight.write * 4,
            ),
            w.proof_size == 18_935,
    {
        Weight::from_parts(46_446_000, 0)
            .saturating_add(Weight::from_parts(0, 18_935))
            .saturating_add(self.db_weight.reads(4))
            .saturating_add(self.db_weight.writes(4))
    }

    /// Renouncing as a runner-up.
    pub fn renounce_candidacy_runners_up(&self) -> (w: Weight)
        ensures
            w.ref_time == spec_saturate(30_749_000 + self.db_weight.read + self.db_weight.write),
            w.proof_size == 3196,
    {
        Weight::from_parts(30_749_000, 0)
            .saturating_add(Weight::from_parts(0, 3196))
            .saturating_add(self.db_weight.reads(1))
            .saturating_add(self.db_weight.writes(1))
    }

    /// Removing a member without a replacement: more than a block holds, so that the call cannot be made.
    pub fn remove_member_without_replacement(&self) -> (w: Weight)
        ensures
            w.ref_time == 2_000_000_000_000,
            w.proof_size == 0,
    {
        Weight::from_parts(2_000_000_000_000, 0)
            .saturating_add(Weight::from_parts(0, 0))
    }

    /// Removing a member who has a replacement.
    pub fn remove_member_with_replacement(&self) -> (w: Weight)
        ensures
            w.ref_time == spec_saturate(
                62_831_000 + self.db_weight.read * 5 + self.db_weight.write * 5,
            ),
            w.proof_size == 22_528,
    {
        Weight::from_parts(62_831_000, 0)
            .saturating_add(Weight::from_parts(0, 22_528))
            .saturating_add(self.db_weight.reads(5))
            .saturating_add(self.db_weight.writes(5))
    }

    /// Removing the defunct among `v` voters; their number plays no part.
    pub fn clean_defunct_voters(&self, v: u32, _d: u32) -> (w: Weight)
        ensures
            w.ref_time == spec_saturate(
                360_218_670_000 + 43_783_152 * v + self.db_weight.read * 4 +
                    self.db_weight.read * (4 * v) + self.db_weight.write * (3 * v),
            ),
            w.proof_size == spec_saturate(156_102 + 14_608 * v),
    {
        proof {
            lemma_costs_are_not_negative(self.db_weight, 4 * v, 3 * v);
        }
        Weight::from_parts(360_218_670_000, 0)
            .saturating_add(Weight::from_parts(0, 156_102))
            .saturating_add(Weight::from_parts(43_783_152, 0).saturating_mul(v as u64))
            .saturating_add(self.db_weight.reads(4))
            .saturating_add(self.db_weight.reads(saturating_mul(4, v as u64)))
            .saturating_add(self.db_weight.writes(saturating_mul(3, v as u64)))
            .saturating_add(Weight::from_parts(0, 14_608).saturating_mul(v as u64))
    }

    /// Preparing an election among `v` voters with `e` votes in all; the number of candidates plays no part.
    pub fn pre_solve_election(&self, _c: u32, v: u32, e: u32) -> (w: Weight)
        ensures
            w.ref_time == spec_saturate(
                3_833_347_000 + 4_259_276 * v + self.db_weight.read * 296 +
                    self.db_weight.read * v,
            ),
            w.proof_size == spec_saturate(3_129_520 + 3893 * v + 62 * e),
    {
        proof {
            lemma_costs_are_not_negative(self.db_weight, 1 * v, 0);
        }
        Weight::from_parts(3_833_347_000, 0)
            .saturating_add(Weight::from_parts(0, 3_129_520))
            .saturating_add(Weight::from_parts(4_259_276, 0).saturating_mul(v as u64))
            .saturating_add(self.db_weight.reads(296))
            .saturating_add(self.db_weight.reads(saturating_mul(1, v as u64)))
            .saturating_add(Weight::from_parts(0, 3893).saturating_mul(v as u64))
            .saturating_add(Weight::from_parts(0, 62).saturating_mul(e as u64))
    }

    /// Applying the result of an election among `c` candidates and `v` voters with `e` votes in all.
    pub fn post_solve_election(&self, c: u32, v: u32, e: u32) -> (w: Weight)
        ensures
            w.ref_time == spec_saturate(
                722_719_000 + 26_159_277 * c + 277_261 * v + 5031 * e + self.db_weight.read * 4 +
                    self.db_weight.read * c + self.db_weight.write * 6 + self.db_weight.write * c,
            ),
            w.proof_size == spec_saturate(32_696 + 3988 * c + 77 * v),
    {
        proof {
            lemma_costs_are_not_negative(self.db_weight, 1 * c, 1 * c);
        }
        Weight::from_parts(722_719_000, 0)
            .saturating_add(Weight::from_parts(0, 32_696))
            .saturating_add(Weight::from_parts(26_159_277, 0).saturating_mul(c as u64))
            .saturating_add(Weight::from_parts(277_261, 0).saturating_mul(v as u64))
            .saturating_add(Weight::from_parts(5031, 0).saturating_mul(e as u64))
            .saturating_add(self.db_weight.reads(4))
            .saturating_add(self.db_weight.reads(saturating_mul(1, c as u64)))
            .saturating_add(self.db_weight.writes(6))
            .saturating_add(self.db_weight.writes(saturating_mul(1, c as u64)))
            .saturating_add(Weight::from_parts(0, 3988).saturating_mul(c as u64))
            .saturating_add(Weight::from_parts(0, 77).saturating_mul(v as u64))
    }

}

/// The cost of database accesses is not negative.
proof fn lemma_costs_are_not_negative(db_weight: RuntimeDbWeight, reads: int, writes: int)
    requires
        reads >= 0,
        writes >= 0,
    ensures
        db_weight.read * reads >= 0,
        db_weight.write * writes >= 0,
{
    assert(db_weight.read * reads >= 0) by (nonlinear_arith)
        requires
            db_weight.read >= 0,
            reads >= 0,
    ;
    assert(db_weight.write * writes >= 0) by (nonlinear_arith)
        requires
            db_weight.write >= 0,
            writes >= 0,
    ;
}

} // verus!
