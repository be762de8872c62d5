//! Per-round transaction context and call batches of a compute node.
//!
//! - [`context`]: the context a round's transactions run against, which
//!   accumulates tags per transaction and messages per round.
//! - [`round`]: a model of a round's execution and the laws it obeys.
//! - [`runtime`]: the slot for runtime-specific per-round state.
//! - [`batch`]: ordered batches of transaction payloads.
pub mod batch;
pub mod context;
pub mod roothash;
pub mod round;
pub mod runtime;
pub mod tags;
