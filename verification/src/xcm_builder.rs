//! Building blocks for the handling of cross-chain messages.

pub mod fungibles_adapter;
