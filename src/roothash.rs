//! Round metadata and cross-round messages.
use vstd::prelude::*;

verus! {

/// Metadata of the round that a batch is executed in.
#[derive(Clone, Copy, Debug, PartialEq, Eq)]
pub struct Header {
    /// The round number.
    pub round: u64,
}

/// An outgoing message emitted during a round, to be processed in a later one.
#[derive(Clone, Debug, PartialEq, Eq)]
pub struct Message {
    /// The opaque payload of the message.
    pub payload: Vec<u8>,
}

/// The outcome of processing a message that an earlier round emitted.
#[derive(Clone, Copy, Debug, PartialEq, Eq)]
pub struct MessageEvent {
    /// The index that the message was given when it was emitted.
    pub index: u32,
    /// The result code of processing it (zero for success).
    pub code: u32,
}

} // verus!
