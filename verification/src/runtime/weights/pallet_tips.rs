//! The weights of the calls of the tips pallet.

use crate::runtime::weight::{spec_saturate, RuntimeDbWeight, Weight};
use vstd::prelude::*;

verus! {

/// Weight functions for the tips pallet, for a runtime whose database has
/// the given cost of a read and of a write.
#[derive(Debug, Clone, Copy, PartialEq, Eq, Structural)]
pub struct WeightInfo {
    pub db_weight: RuntimeDbWeight,
}

impl WeightInfo {
    /// Weight functions over the given database costs.
    pub fn new(db_weight: RuntimeDbWeight) -> (info: WeightInfo)
        ensures
            info.db_weight == db_weight,
    {
        WeightInfo { db_weight }
    }

    /// Reporting a reason of `r` bytes as worthy of a tip.
    pub fn report_awesome(&self, r: u32) -> (w: Weight)
        ensures
            w.ref_time == spec_saturate(
                19_566_311 + 935 * r + self.db_weight.read * 2 + self.db_weight.write * 2,
            ),
            w.proof_size == 4954,
    {
        Weight::from_parts(19_566_311, 4954)
            .saturating_add(Weight::from_ref_time(935).saturating_mul(r as u64))
            .saturating_add(self.db_weight.reads(2))
            .saturating_add(self.db_weight.writes(2))
    }

    /// Retracting a report.
    pub fn retract_tip(&self) -> (w: Weight)
        ensures
            w.ref_time == spec_saturate(
                15_960_000 + self.db_weight.read + self.db_weight.write * 2,
            ),
            w.proof_size == 2728,
    {
        Weight::from_parts(15_960_000, 2728)
            .saturating_add(self.db_weight.reads(1))
            .saturating_add(self.db_weight.writes(2))
    }

    /// Opening a tip with a reason of `r` bytes among `t` tippers.
    pub fn tip_new(&self, r: u32, t: u32) -> (w: Weight)
        ensures
            w.ref_time == spec_saturate(
                16_999_250 + 1942 * r + self.db_weight.read * 2 + self.db_weight.write * 2,
            ),
            w.proof_size == spec_saturate(3110 + 64 * t),
    {
        Weight::from_parts(16_999_250, 3110)
            .saturating_add(Weight::from_ref_time(1942).saturating_mul(r as u64))
            .saturating_add(self.db_weight.reads(2))
            .saturating_add(self.db_weight.writes(2))
            .saturating_add(Weight::from_proof_size(64).saturating_mul(t as u64))
    }

    /// Declaring a tip value among `t` tippers.
    pub fn tip(&self, t: u32) -> (w: Weight)
        ensures
            w.ref_time == spec_saturate(
                17_706_524 + self.db_weight.read * 2 + self.db_weight.write,
            ),
            w.proof_size == spec_saturate(3363 + 112 * t),
    {
        Weight::from_parts(17_706_524, 3363)
            .saturating_add(self.db_weight.reads(2))
            .saturating_add(self.db_weight.writes(1))
            .saturating_add(Weight::from_proof_size(112).saturating_mul(t as u64))
    }

    /// Closing a tip that `t` tippers declared on.
    pub fn close_tip(&self, t: u32) -> (w: Weight)
        ensures
            w.ref_time == spec_saturate(
                28_873_160 + 28_693 * t + self.db_weight.read * 3 + self.db_weight.write * 3,
            ),
            w.proof_size == spec_saturate(5890 + 112 * t),
    {
        Weight::from_parts(28_873_160, 5890)
            .saturating_add(Weight::from_ref_time(28_693).saturating_mul(t as u64))
            .saturating_add(self.db_weight.reads(3))
            .saturating_add(self.db_weight.writes(3))
            .saturating_add(Weight::from_proof_size(112).saturating_mul(t as u64))
    }

    /// Removing a tip and slashing its deposit; the number of tippers plays no part.
    pub fn slash_tip(&self, _t: u32) -> (w: Weight)
        ensures
            w.ref_time == spec_saturate(
                16_845_736 + self.db_weight.read + self.db_weight.write * 2,
            ),
            w.proof_size == 2776,
    {
        Weight::from_parts(16_845_736, 2776)
            .saturating_add(self.db_weight.reads(1))
            .saturating_add(self.db_weight.writes(2))
    }

}

} // verus!
