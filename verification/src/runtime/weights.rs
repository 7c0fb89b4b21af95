//! The weights of the calls of two pallets, as benchmarks measured them.

pub mod pallet_elections;
pub mod pallet_tips;
