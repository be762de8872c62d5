//! The per-round transaction context.
use std::sync::Arc;
use vstd::prelude::*;

use crate::roothash::{Header, Message, MessageEvent};
use crate::runtime::{RuntimeSlot, SlotView};
use crate::tags::{tag_views, Tag, TagView, Tags};
use io_context::Context as IoContext;

verus! {

/// The caller's cancellation and deadline handle, carried through as is.
#[verifier::external_type_specification]
#[verifier::external_body]
pub struct ExIoContext(IoContext);

/// What a context holds, as mathematical values.
pub ghost struct ContextState {
    /// The I/O context of the caller.
    pub io_ctx: Arc<IoContext>,
    /// The runtime-specific state.
    pub runtime: SlotView,
    /// The header of this round.
    pub header: Header,
    /// Results of the messages emitted in the previous round, by index.
    pub message_results: Seq<MessageEvent>,
    /// Whether the round only checks transactions.
    pub check_only: bool,
    /// Tags emitted since they were last taken.
    pub tags: Seq<TagView>,
    /// Messages emitted in this round, in emission order.
    pub messages: Seq<Message>,
}

impl ContextState {
    /// The state after a tag is emitted.
    pub open spec fn with_tag(self, tag: TagView) -> ContextState {
        ContextState { tags: self.tags.push(tag), ..self }
    }

    /// The state after the pending tags are taken.
    pub open spec fn drained(self) -> ContextState {
        ContextState { tags: Seq::empty(), ..self }
    }

    /// The state after a message is emitted.
    pub open spec fn with_message(self, message: Message) -> ContextState {
        ContextState { messages: self.messages.push(message), ..self }
    }

    /// The result reported for the previous round's message at `index`.
    pub open spec fn message_result(self, index: int) -> Option<MessageEvent> {
        if 0 <= index < self.message_results.len() {
            Some(self.message_results[index])
        } else {
            None
        }
    }
}

/// Transaction context for one round.
pub struct Context<'a> {
    /// I/O context.
    pub io_ctx: Arc<IoContext>,
    /// The block header accompanying this transaction.
    pub header: &'a Header,
    /// Results of message processing emitted in the previous round.
    pub message_results: &'a [MessageEvent],
    /// Runtime-specific context.
    pub runtime: RuntimeSlot,
    /// Flag indicating whether to only perform transaction check rather than
    /// running the transaction.
    pub check_only: bool,
    /// Tags emitted for the transaction being processed.
    tags: Tags,
    /// Messages emitted in this round.
    messages: Vec<Message>,
}

impl<'a> View for Context<'a> {
    type V = ContextState;

    closed spec fn view(&self) -> ContextState {
        ContextState {
            io_ctx: self.io_ctx,
            runtime: self.runtime@,
            header: *self.header,
            message_results: self.message_results@,
            check_only: self.check_only,
            tags: tag_views(self.tags@),
            messages: self.messages@,
        }
    }
}

impl<'a> Context<'a> {
    /// Constructs the context of a round with `header`, given the results of
    /// the messages that the previous round emitted. No runtime state is
    /// installed and nothing has been emitted yet.
    pub fn new(
        io_ctx: Arc<IoContext>,
        header: &'a Header,
        message_results: &'a [MessageEvent],
        check_only: bool,
    ) -> (r: Context<'a>)
        ensures
            r@ == (ContextState {
                io_ctx,
                runtime: None,
                header: *header,
                message_results: message_results@,
                check_only,
                tags: Seq::empty(),
                messages: Seq::empty(),
            }),
    {
        let r = Context {
            io_ctx,
            header,
            message_results,
            runtime: RuntimeSlot::empty(),
            check_only,
            tags: Vec::new(),
            messages: Vec::new(),
        };
        assert(tag_views(r.tags@) =~= Seq::<TagView>::empty());
        r
    }

    /// Closes the context and returns the messages emitted in the round, in
    /// emission order.
    pub fn close(self) -> (r: Vec<Message>)
        ensures
            r@ == self@.messages,
    {
        self.messages
    }

    /// Takes the tags emitted so far and leaves none pending.
    pub fn take_tags(&mut self) -> (r: Tags)
        ensures
            tag_views(r@) == old(self)@.tags,
            final(self)@ == old(self)@.drained(),
    {
        let mut taken: Tags = Vec::new();
        std::mem::swap(&mut taken, &mut self.tags);
        assert(tag_views(self.tags@) =~= Seq::<TagView>::empty());
        taken
    }

    /// Emits an indexable tag for the transaction being processed. Where a
    /// transaction emits several tags with one key, the last one is indexed.
    pub fn emit_txn_tag(&mut self, key: &[u8], value: &[u8])
        ensures
            final(self)@ == old(self)@.with_tag((key@, value@)),
    {
        let tag = Tag::new(vstd::slice::slice_to_vec(key), vstd::slice::slice_to_vec(value));
        self.tags.push(tag);
        assert(tag_views(self.tags@) =~= tag_views(old(self).tags@).push((key@, value@)));
    }

    /// Emits a message as part of the round and returns its index, which
    /// the next round uses to find the result of processing it.
    pub fn emit_message(&mut self, message: Message) -> (r: u32)
        requires
            old(self)@.messages.len() <= u32::MAX,
        ensures
            r == old(self)@.messages.len(),
            final(self)@ == old(self)@.with_message(message),
    {
        let index = self.messages.len() as u32;
        self.messages.push(message);
        index
    }

    /// The result of processing the previous round's message at `index`.
    pub fn message_result(&self, index: u32) -> (r: Option<MessageEvent>)
        ensures
            r == self@.message_result(index as int),
    {
        if (index as usize) < self.message_results.len() {
            Some(self.message_results[index as usize])
        } else {
            None
        }
    }
}

} // verus!
