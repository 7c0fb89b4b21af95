//! Parts of the relay-chain runtimes: the weight of calls, and the upgrade of
//! the stored host configuration.

pub mod migration_ump;
pub mod weight;
pub mod weights;
pub mod xcm_config;
