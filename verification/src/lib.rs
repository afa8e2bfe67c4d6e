//! Core of a network traffic generator: write-scheduling policies, the
//! dispatch decisions that fan attempts out across sequential or concurrent
//! workers, and the statistics that fold every attempt's outcome into byte,
//! success and failure counts with a final throughput sample.
//!
//! The transport itself (opening sockets, sending payloads) and the command
//! surface live outside this crate; they drive the engine here by asking it
//! what to do next and handing back each attempt's outcome.

pub mod manager;
pub mod protocol;
pub mod statistics;

pub use manager::{SendOutcome, SocketManager, TaskBound, TaskPlan, WorkerTally, WriteOptions};
pub use protocol::Protocol;
