//! Ordered batches of opaque transaction payloads.
use vstd::prelude::*;

verus! {

/// An ordered, immutable sequence of transaction payloads: the unit handed
/// to the ordering layer and iterated at execution.
#[derive(Clone, Debug, PartialEq, Eq)]
pub struct CallBatch(Vec<Vec<u8>>);

/// The views of a sequence of payloads.
pub open spec fn payload_views(calls: Seq<Vec<u8>>) -> Seq<Seq<u8>> {
    calls.map_values(|c: Vec<u8>| c@)
}

impl View for CallBatch {
    type V = Seq<Seq<u8>>;

    closed spec fn view(&self) -> Seq<Seq<u8>> {
        payload_views(self.0@)
    }
}

impl CallBatch {
    /// A batch of `calls`, in the order given.
    pub fn new(calls: Vec<Vec<u8>>) -> (r: CallBatch)
        ensures
            r@ == payload_views(calls@),
    {
        CallBatch(calls)
    }

    /// The batch that a single submitted transaction is forwarded in: it
    /// holds that one payload and nothing else.
    pub fn for_submission(payload: Vec<u8>) -> (r: CallBatch)
        ensures
            r@ == seq![payload@],
    {
        let mut calls: Vec<Vec<u8>> = Vec::new();
        calls.push(payload);
        let r = CallBatch(calls);
        assert(r@ =~= seq![payload@]);
        r
    }

    /// The number of payloads in the batch.
    pub fn len(&self) -> (r: usize)
        ensures
            r == self@.len(),
    {
        self.0.len()
    }

    /// Whether the batch holds no payload.
    pub fn is_empty(&self) -> (r: bool)
        ensures
            r == (self@.len() == 0),
    {
        self.0.len() == 0
    }

    /// The payload at position `i`.
    pub fn get(&self, i: usize) -> (r: &Vec<u8>)
        requires
            i < self@.len(),
        ensures
            r@ == self@[i as int],
    {
        &self.0[i]
    }

    /// The payloads, in order.
    pub fn into_calls(self) -> (r: Vec<Vec<u8>>)
        ensures
            payload_views(r@) == self@,
    {
        self.0
    }
}

} // verus!
