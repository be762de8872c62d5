//! The execution of a round against one context, as a model over
//! [`ContextState`], and the laws that hold of it.
//!
//! A round is a sequence of transactions; each transaction is a sequence of
//! emissions (tags and messages), after which the driver takes the pending
//! tags. Each emission is the state change of `Context::emit_txn_tag` or
//! `Context::emit_message`, and each drain that of `Context::take_tags`.
use crate::context::ContextState;
use crate::roothash::Message;
use crate::tags::{indexed_value, TagView};
use vstd::prelude::*;

verus! {

/// One emission made while a transaction is processed.
pub ghost enum Emission {
    Tag(TagView),
    Message(Message),
}

/// The state after one emission.
pub open spec fn apply(s: ContextState, e: Emission) -> ContextState {
    match e {
        Emission::Tag(t) => s.with_tag(t),
        Emission::Message(m) => s.with_message(m),
    }
}

/// The state after a transaction's emissions, before its tags are taken.
pub open spec fn apply_all(s: ContextState, es: Seq<Emission>) -> ContextState
    decreases es.len(),
{
    if es.len() == 0 {
        s
    } else {
        apply(apply_all(s, es.drop_last()), es.last())
    }
}

/// The tags among the emissions, in order.
pub open spec fn tags_of(es: Seq<Emission>) -> Seq<TagView>
    decreases es.len(),
{
    if es.len() == 0 {
        Seq::empty()
    } else {
        match es.last() {
            Emission::Tag(t) => tags_of(es.drop_last()).push(t),
            Emission::Message(_) => tags_of(es.drop_last()),
        }
    }
}

/// The messages among the emissions, in order.
pub open spec fn messages_of(es: Seq<Emission>) -> Seq<Message>
    decreases es.len(),
{
    if es.len() == 0 {
        Seq::empty()
    } else {
        match es.last() {
            Emission::Tag(_) => messages_of(es.drop_last()),
            Emission::Message(m) => messages_of(es.drop_last()).push(m),
        }
    }
}

/// The indices that the message emissions return, in order, starting from `s`.
pub open spec fn indices_of(s: ContextState, es: Seq<Emission>) -> Seq<nat>
    decreases es.len(),
{
    if es.len() == 0 {
        Seq::empty()
    } else {
        match es.last() {
            Emission::Tag(_) => indices_of(s, es.drop_last()),
            Emission::Message(_) => indices_of(s, es.drop_last()).push(
                apply_all(s, es.drop_last()).messages.len(),
            ),
        }
    }
}

/// The state after each transaction has been processed and its tags taken.
pub open spec fn run_round(s: ContextState, txns: Seq<Seq<Emission>>) -> ContextState
    decreases txns.len(),
{
    if txns.len() == 0 {
        s
    } else {
        apply_all(run_round(s, txns.drop_last()), txns.last()).drained()
    }
}

/// The tags taken after each transaction, one group per transaction.
pub open spec fn drained_tags(s: ContextState, txns: Seq<Seq<Emission>>) -> Seq<Seq<TagView>>
    decreases txns.len(),
{
    if txns.len() == 0 {
        Seq::empty()
    } else {
        drained_tags(s, txns.drop_last()).push(
            apply_all(run_round(s, txns.drop_last()), txns.last()).tags,
        )
    }
}

/// The indices returned for the messages of the round, in emission order.
pub open spec fn round_indices(s: ContextState, txns: Seq<Seq<Emission>>) -> Seq<nat>
    decreases txns.len(),
{
    if txns.len() == 0 {
        Seq::empty()
    } else {
        round_indices(s, txns.drop_last()) + indices_of(
            run_round(s, txns.drop_last()),
            txns.last(),
        )
    }
}

/// The messages of all transactions of the round, in emission order.
pub open spec fn round_messages(txns: Seq<Seq<Emission>>) -> Seq<Message>
    decreases txns.len(),
{
    if txns.len() == 0 {
        Seq::empty()
    } else {
        round_messages(txns.drop_last()) + messages_of(txns.last())
    }
}

proof fn lemma_apply_all(s: ContextState, es: Seq<Emission>)
    ensures
        apply_all(s, es) == (ContextState {
            tags: s.tags + tags_of(es),
            messages: s.messages + messages_of(es),
            ..s
        }),
        indices_of(s, es) == Seq::new(
            messages_of(es).len(),
            |k: int| (s.messages.len() + k) as nat,
        ),
    decreases es.len(),
{
    if es.len() == 0 {
        assert(s.tags + tags_of(es) =~= s.tags);
        assert(s.messages + messages_of(es) =~= s.messages);
        assert(indices_of(s, es) =~= Seq::new(
            messages_of(es).len(),
            |k: int| (s.messages.len() + k) as nat,
        ));
    } else {
        let dl = es.drop_last();
        lemma_apply_all(s, dl);
        match es.last() {
            Emission::Tag(t) => {
                assert(s.tags + tags_of(es) =~= (s.tags + tags_of(dl)).push(t));
                assert(s.messages + messages_of(es) =~= s.messages + messages_of(dl));
            },
            Emission::Message(m) => {
                assert(s.tags + tags_of(es) =~= s.tags + tags_of(dl));
                assert(s.messages + messages_of(es) =~= (s.messages + messages_of(dl)).push(m));
            },
        }
        assert(indices_of(s, es) =~= Seq::new(
            messages_of(es).len(),
            |k: int| (s.messages.len() + k) as nat,
        ));
    }
}

proof fn lemma_run_round(s: ContextState, txns: Seq<Seq<Emission>>)
    ensures
        run_round(s, txns) == (ContextState {
            tags: if txns.len() == 0 {
                s.tags
            } else {
                Seq::empty()
            },
            messages: s.messages + round_messages(txns),
            ..s
        }),
        round_indices(s, txns) == Seq::new(
            round_messages(txns).len(),
            |k: int| (s.messages.len() + k) as nat,
        ),
        s.tags.len() == 0 ==> drained_tags(s, txns) == txns.map_values(
            |es: Seq<Emission>| tags_of(es),
        ),
    decreases txns.len(),
{
    if txns.len() == 0 {
        assert(s.messages + round_messages(txns) =~= s.messages);
        assert(round_indices(s, txns) =~= Seq::new(
            round_messages(txns).len(),
            |k: int| (s.messages.len() + k) as nat,
        ));
        assert(drained_tags(s, txns) =~= txns.map_values(|es: Seq<Emission>| tags_of(es)));
    } else {
        let dl = txns.drop_last();
        let es = txns.last();
        lemma_run_round(s, dl);
        let mid = run_round(s, dl);
        lemma_apply_all(mid, es);
        assert(s.messages + round_messages(txns) =~= s.messages + round_messages(dl)
            + messages_of(es));
        assert(round_indices(s, txns) =~= Seq::new(
            round_messages(txns).len(),
            |k: int| (s.messages.len() + k) as nat,
        ));
        if s.tags.len() == 0 {
            assert(mid.tags.len() == 0);
            assert(mid.tags + tags_of(es) =~= tags_of(es));
            assert(drained_tags(s, txns) =~= txns.map_values(|es: Seq<Emission>| tags_of(es)));
        }
        assert(apply_all(mid, es).drained().tags =~= Seq::<TagView>::empty());
    }
}

/// Taking the tags after each transaction splits the emitted tags exactly
/// by transaction: the group taken after a transaction holds that
/// transaction's tags and no other, in emission order.
pub proof fn lemma_tags_partition_by_transaction(s: ContextState, txns: Seq<Seq<Emission>>)
    requires
        s.tags.len() == 0,
    ensures
        drained_tags(s, txns).len() == txns.len(),
        forall|i: int| 0 <= i < txns.len() ==> drained_tags(s, txns)[i] == tags_of(#[trigger] txns[i]),
{
    lemma_run_round(s, txns);
}

/// Indexing gives a key the value of the last tag with that key.
pub proof fn lemma_last_tag_wins(earlier: Seq<TagView>, key: Seq<u8>, value: Seq<u8>, later: Seq<TagView>)
    requires
        forall|j: int| 0 <= j < later.len() ==> (#[trigger] later[j]).0 != key,
    ensures
        indexed_value(earlier.push((key, value)) + later, key) == Some(value),
    decreases later.len(),
{
    let all = earlier.push((key, value)) + later;
    if later.len() == 0 {
        assert(all =~= earlier.push((key, value)));
    } else {
        lemma_last_tag_wins(earlier, key, value, later.drop_last());
        assert(all.drop_last() =~= earlier.push((key, value)) + later.drop_last());
        assert(all.last() == later[later.len() - 1]);
    }
}

/// What indexing gives a key for one transaction depends on that
/// transaction's tags alone: tags of other transactions with the same key
/// do not affect it.
pub proof fn lemma_indexing_per_transaction(
    s: ContextState,
    txns: Seq<Seq<Emission>>,
    i: int,
    key: Seq<u8>,
)
    requires
        s.tags.len() == 0,
        0 <= i < txns.len(),
    ensures
        indexed_value(drained_tags(s, txns)[i], key) == indexed_value(tags_of(txns[i]), key),
{
    lemma_tags_partition_by_transaction(s, txns);
}

/// In a round that starts with no message, the messages get the indices
/// 0, 1, 2, ... in emission order, whatever transactions lie between them,
/// and closing the context gives them in that order.
pub proof fn lemma_message_indices(s: ContextState, txns: Seq<Seq<Emission>>)
    requires
        s.messages.len() == 0,
    ensures
        round_indices(s, txns).len() == round_messages(txns).len(),
        forall|k: int| 0 <= k < round_indices(s, txns).len() ==> #[trigger] round_indices(s, txns)[k] == k,
        run_round(s, txns).messages == round_messages(txns),
{
    lemma_run_round(s, txns);
    assert(s.messages + round_messages(txns) =~= round_messages(txns));
}

/// The check-only flag does not change what a round accumulates: two
/// contexts that differ in that flag alone give the same tag groups, the
/// same message indices and the same messages.
pub proof fn lemma_check_only_invisible(s1: ContextState, s2: ContextState, txns: Seq<Seq<Emission>>)
    requires
        s2 == (ContextState { check_only: s2.check_only, ..s1 }),
    ensures
        drained_tags(s1, txns) == drained_tags(s2, txns),
        round_indices(s1, txns) == round_indices(s2, txns),
        run_round(s2, txns) == (ContextState { check_only: s2.check_only, ..run_round(s1, txns) }),
    decreases txns.len(),
{
    if txns.len() > 0 {
        let dl = txns.drop_last();
        lemma_check_only_invisible(s1, s2, dl);
        lemma_apply_all(run_round(s1, dl), txns.last());
        lemma_apply_all(run_round(s2, dl), txns.last());
    }
}

/// The index that a message gets addresses its result in the next round:
/// where the next round's context holds one result per message of this
/// round, in order, the result found under the index returned for the k-th
/// message is the k-th result.
pub proof fn lemma_results_follow_indices(
    s: ContextState,
    txns: Seq<Seq<Emission>>,
    next: ContextState,
)
    requires
        s.messages.len() == 0,
        next.message_results.len() == run_round(s, txns).messages.len(),
    ensures
        forall|k: int|
            0 <= k < round_messages(txns).len() ==> {
                &&& run_round(s, txns).messages[k] == round_messages(txns)[k]
                &&& #[trigger] next.message_result(round_indices(s, txns)[k] as int) == Some(
                    next.message_results[k],
                )
            },
{
    lemma_message_indices(s, txns);
}

} // verus!
