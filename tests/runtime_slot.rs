use txn_runtime::runtime::{RuntimeError, RuntimeSlot};

#[test]
fn empty_slot_reports_not_installed() {
    let mut slot = RuntimeSlot::empty();
    assert!(slot.is_empty());
    assert_eq!(slot.kind(), None);
    assert_eq!(slot.get(1), Err(RuntimeError::NotInstalled));
    assert_eq!(slot.take(1), Err(RuntimeError::NotInstalled));
}

#[test]
fn mismatched_kind_is_a_typed_error() {
    let mut slot = RuntimeSlot::empty();
    assert_eq!(slot.install(4, vec![1, 2, 3]), Ok(()));
    assert_eq!(slot.kind(), Some(4));
    assert_eq!(slot.get(5), Err(RuntimeError::TypeMismatch { expected: 5, installed: 4 }));
    assert_eq!(slot.take(5), Err(RuntimeError::TypeMismatch { expected: 5, installed: 4 }));
    assert_eq!(slot.get(4), Ok(&vec![1, 2, 3]));
}

#[test]
fn slot_takes_one_value() {
    let mut slot = RuntimeSlot::empty();
    assert_eq!(slot.install(4, vec![1]), Ok(()));
    assert_eq!(slot.install(6, vec![2]), Err(RuntimeError::AlreadyInstalled { installed: 4 }));
    assert_eq!(slot.get(4), Ok(&vec![1]));
    assert_eq!(slot.take(4), Ok(vec![1]));
    assert!(slot.is_empty());
    assert_eq!(slot.install(6, vec![2]), Ok(()));
    assert_eq!(slot.get(6), Ok(&vec![2]));
}

#[test]
fn context_runtime_slot_mismatch() {
    let header = txn_runtime::roothash::Header { round: 0 };
    let results = vec![];
    let mut ctx = txn_runtime::context::Context::new(
        io_context::Context::background().freeze(),
        &header,
        &results,
        true,
    );
    assert_eq!(ctx.runtime.get(1), Err(RuntimeError::NotInstalled));
    ctx.runtime.install(1, b"cache".to_vec()).unwrap();
    assert_eq!(ctx.runtime.get(2), Err(RuntimeError::TypeMismatch { expected: 2, installed: 1 }));
    assert_eq!(ctx.runtime.get(1), Ok(&b"cache".to_vec()));
}
