//! Verified parts of a relay-chain node and its runtime.

pub mod pvf_worker;
pub mod runtime;
pub mod wire;
pub mod xcm_builder;
