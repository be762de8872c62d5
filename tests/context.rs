use std::sync::Arc;

use txn_runtime::context::Context;
use txn_runtime::roothash::{Header, Message, MessageEvent};
use txn_runtime::tags::{lookup_tag, Tag};

fn io() -> Arc<io_context::Context> {
    io_context::Context::background().freeze()
}

fn msg(b: &[u8]) -> Message {
    Message { payload: b.to_vec() }
}

#[test]
fn new_context_is_empty() {
    let header = Header { round: 7 };
    let results: Vec<MessageEvent> = vec![];
    let mut ctx = Context::new(io(), &header, &results, false);
    assert_eq!(ctx.header.round, 7);
    assert!(!ctx.check_only);
    assert!(ctx.runtime.is_empty());
    assert!(ctx.take_tags().is_empty());
    assert!(ctx.close().is_empty());
}

#[test]
fn take_tags_groups_by_transaction() {
    let header = Header { round: 1 };
    let results: Vec<MessageEvent> = vec![];
    let mut ctx = Context::new(io(), &header, &results, false);
    ctx.emit_txn_tag(b"a", b"1");
    ctx.emit_txn_tag(b"b", b"2");
    let first = ctx.take_tags();
    ctx.emit_txn_tag(b"c", b"3");
    let second = ctx.take_tags();
    let third = ctx.take_tags();
    assert_eq!(
        first,
        vec![Tag::new(b"a".to_vec(), b"1".to_vec()), Tag::new(b"b".to_vec(), b"2".to_vec())]
    );
    assert_eq!(second, vec![Tag::new(b"c".to_vec(), b"3".to_vec())]);
    assert!(third.is_empty());
}

#[test]
fn last_tag_with_a_key_is_indexed() {
    let header = Header { round: 1 };
    let results: Vec<MessageEvent> = vec![];
    let mut ctx = Context::new(io(), &header, &results, false);
    ctx.emit_txn_tag(b"k", b"old");
    ctx.emit_txn_tag(b"x", b"y");
    ctx.emit_txn_tag(b"k", b"new");
    let first = ctx.take_tags();
    ctx.emit_txn_tag(b"k", b"other");
    let second = ctx.take_tags();
    assert_eq!(lookup_tag(&first, b"k"), Some(&b"new".to_vec()));
    assert_eq!(lookup_tag(&first, b"x"), Some(&b"y".to_vec()));
    assert_eq!(lookup_tag(&first, b"z"), None);
    assert_eq!(lookup_tag(&second, b"k"), Some(&b"other".to_vec()));
    assert_eq!(lookup_tag(&vec![], b"k"), None);
}

#[test]
fn message_indices_count_from_zero_across_transactions() {
    let header = Header { round: 3 };
    let results: Vec<MessageEvent> = vec![];
    let mut ctx = Context::new(io(), &header, &results, false);
    assert_eq!(ctx.emit_message(msg(b"m0")), 0);
    ctx.emit_txn_tag(b"k", b"v");
    let _ = ctx.take_tags();
    let _ = ctx.take_tags();
    assert_eq!(ctx.emit_message(msg(b"m1")), 1);
    let _ = ctx.take_tags();
    assert_eq!(ctx.emit_message(msg(b"m2")), 2);
    assert_eq!(ctx.close(), vec![msg(b"m0"), msg(b"m1"), msg(b"m2")]);
}

fn run(check_only: bool) -> (Vec<Vec<Tag>>, Vec<u32>, Vec<Message>) {
    let header = Header { round: 9 };
    let results = vec![MessageEvent { index: 0, code: 0 }];
    let mut ctx = Context::new(io(), &header, &results, check_only);
    assert_eq!(ctx.check_only, check_only);
    let mut groups = Vec::new();
    let mut indices = Vec::new();
    ctx.emit_txn_tag(b"a", b"1");
    indices.push(ctx.emit_message(msg(b"x")));
    groups.push(ctx.take_tags());
    ctx.emit_txn_tag(b"a", b"2");
    ctx.emit_txn_tag(b"b", b"3");
    indices.push(ctx.emit_message(msg(b"y")));
    groups.push(ctx.take_tags());
    (groups, indices, ctx.close())
}

#[test]
fn check_only_does_not_change_accumulation() {
    let checked = run(true);
    let executed = run(false);
    assert_eq!(checked, executed);
    assert_eq!(executed.1, vec![0, 1]);
}

#[test]
fn message_results_follow_emission_indices() {
    let header = Header { round: 1 };
    let none: Vec<MessageEvent> = vec![];
    let mut first = Context::new(io(), &header, &none, false);
    let i0 = first.emit_message(msg(b"m0"));
    let i1 = first.emit_message(msg(b"m1"));
    let sent = first.close();
    let results: Vec<MessageEvent> = sent
        .iter()
        .enumerate()
        .map(|(i, _)| MessageEvent { index: i as u32, code: 10 + i as u32 })
        .collect();
    let next_header = Header { round: 2 };
    let second = Context::new(io(), &next_header, &results, false);
    assert_eq!(second.message_result(i0), Some(MessageEvent { index: 0, code: 10 }));
    assert_eq!(second.message_result(i1), Some(MessageEvent { index: 1, code: 11 }));
    assert_eq!(second.message_result(2), None);
    assert_eq!(sent[i0 as usize], msg(b"m0"));
    assert_eq!(sent[i1 as usize], msg(b"m1"));
}
