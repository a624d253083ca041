//! A fixed-size worker pool: short-lived units of work are submitted by a
//! producer and run by a fixed set of long-lived workers, decoupling work
//! arrival from work execution and bounding the number of concurrently
//! running execution contexts.
//!
//! [`pool`] holds the executable pool, over a private trusted boundary
//! around the underlying channel; [`model`] holds the abstract state machine
//! of the design, with the proofs of its delivery, ordering and
//! failure-isolation properties.

mod queue;

pub mod model;
pub mod pool;

pub use pool::ThreadPool;
pub use pool::WorkerSeat;
pub use queue::Job;
