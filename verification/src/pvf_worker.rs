//! Decision logic of a preparation worker: a child process that compiles an
//! untrusted program blob under a process-CPU budget and answers its host
//! with a classified outcome.
//!
//! The modules follow a request on its way: `framing` reads frames,
//! `codec` reads a request and writes an outcome, `prepare` is the compile
//! task, `cpu_monitor` and `memory_stats` watch it, `supervisor` settles the
//! outcome of one request, and `worker` serves one request after the other.

pub mod codec;
pub mod cpu_monitor;
pub mod duration;
pub mod error;
pub mod framing;
pub mod memory_stats;
pub mod path;
pub mod prepare;
pub mod request;
pub mod supervisor;
pub mod worker;
