//! Supervision core for a desktop backend that drives long-running blockchain
//! tooling: a bounded in-memory log store, a multi-subscriber log fan-out,
//! the shared state of a background indexing job, and the lifecycle of a
//! single supervised development-chain process.
//!
//! All state transitions are verified. The long-running external work itself
//! (the indexing run, the process spawn, reading the process's output pipe)
//! is performed by the surrounding application, which calls back into the
//! verified transition functions with the outcome.

pub mod devnet;
pub mod fanout;
pub mod indexer;
pub mod log_buffer;
pub mod text;
