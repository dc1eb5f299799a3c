//! A publication dispatcher: callers enqueue publications, a single worker
//! drains the queue in batches and hands each batch to a broker client.
//!
//! The crate holds the decisions of that pipeline and their proofs. The
//! execution context, the network call and the host integration belong to the
//! program that embeds it.

pub mod publication;
pub mod error;
pub mod protocol;
pub mod queue;
pub mod batch;
pub mod client;
pub mod worker;
pub mod dispatcher;
pub mod model;
pub mod guarantees;
