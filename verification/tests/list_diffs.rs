use multiverse::diff::DiffOp;
use multiverse::list::ConversationList;
use multiverse::model::ConversationEntry;

fn filled(id: &str) -> ConversationEntry {
    ConversationEntry::Filled(id.to_owned())
}

#[test]
fn push_back_diff_fills_empty_list() {
    let mut list = ConversationList::new();
    assert_eq!(list.len(), 0);
    let rejected = list.apply_batch(vec![DiffOp::PushBack { value: filled("room:1") }]);
    assert_eq!(rejected, 0);
    assert_eq!(list.len(), 1);
    assert_eq!(list.get(0), Some(filled("room:1")));
    assert_eq!(list.get(1), None);
}

#[test]
fn insert_remove_replace_exact() {
    let mut list = ConversationList::new();
    assert!(list.apply(DiffOp::PushBack { value: filled("a") }));
    assert!(list.apply(DiffOp::PushBack { value: filled("c") }));
    assert!(list.apply(DiffOp::InsertAt { index: 1, value: filled("b") }));
    assert_eq!(list.get(0), Some(filled("a")));
    assert_eq!(list.get(1), Some(filled("b")));
    assert_eq!(list.get(2), Some(filled("c")));
    assert!(list.apply(DiffOp::ReplaceAt { index: 1, value: ConversationEntry::Empty }));
    assert_eq!(list.get(1), Some(ConversationEntry::Empty));
    assert!(list.apply(DiffOp::RemoveAt { index: 0 }));
    assert_eq!(list.len(), 2);
    assert_eq!(list.get(0), Some(ConversationEntry::Empty));
}

#[test]
fn out_of_range_operations_refused() {
    let mut list = ConversationList::new();
    assert!(list.apply(DiffOp::PushBack { value: filled("a") }));
    assert!(!list.apply(DiffOp::InsertAt { index: 5, value: filled("x") }));
    assert!(!list.apply(DiffOp::RemoveAt { index: 1 }));
    assert!(!list.apply(DiffOp::ReplaceAt { index: 1, value: filled("x") }));
    assert_eq!(list.len(), 1);
    assert_eq!(list.get(0), Some(filled("a")));
    let rejected = list.apply_batch(vec![
        DiffOp::RemoveAt { index: 9 },
        DiffOp::PushBack { value: filled("b") },
        DiffOp::InsertAt { index: 7, value: filled("x") },
    ]);
    assert_eq!(rejected, 2);
    assert_eq!(list.len(), 2);
    assert_eq!(list.get(1), Some(filled("b")));
}

#[test]
fn front_and_back_operations() {
    let mut list = ConversationList::new();
    assert!(list.apply(DiffOp::PushBack { value: filled("b") }));
    assert!(list.apply(DiffOp::PushFront { value: filled("a") }));
    assert!(list.apply(DiffOp::PushBack { value: filled("c") }));
    assert_eq!(list.get(0), Some(filled("a")));
    assert!(list.apply(DiffOp::PopFront));
    assert_eq!(list.get(0), Some(filled("b")));
    assert!(list.apply(DiffOp::PopBack));
    assert_eq!(list.len(), 1);
    assert!(list.apply(DiffOp::PopFront));
    assert!(!list.apply(DiffOp::PopFront));
    assert!(!list.apply(DiffOp::PopBack));
}

#[test]
fn reset_clear_truncate_append() {
    let mut list = ConversationList::new();
    assert!(list.apply(DiffOp::ResetTo { values: vec![filled("a"), filled("b"), filled("c")] }));
    assert_eq!(list.len(), 3);
    assert!(list.apply(DiffOp::Truncate { length: 2 }));
    assert_eq!(list.len(), 2);
    assert_eq!(list.get(1), Some(filled("b")));
    assert!(list.apply(DiffOp::Truncate { length: 10 }));
    assert_eq!(list.len(), 2);
    assert!(list.apply(DiffOp::Append { values: vec![filled("d"), filled("e")] }));
    assert_eq!(list.len(), 4);
    assert_eq!(list.get(3), Some(filled("e")));
    assert!(list.apply(DiffOp::Clear));
    assert_eq!(list.len(), 0);
}

#[test]
fn batches_compose_in_arrival_order() {
    let b1 = || vec![
        DiffOp::PushBack { value: filled("a") },
        DiffOp::PushBack { value: filled("b") },
    ];
    let b2 = || vec![DiffOp::RemoveAt { index: 0 }];

    let mut sequential = ConversationList::new();
    sequential.apply_batch(b1());
    sequential.apply_batch(b2());

    let mut concatenated = ConversationList::new();
    let mut all = b1();
    all.extend(b2());
    concatenated.apply_batch(all);

    assert_eq!(sequential.len(), concatenated.len());
    assert_eq!(sequential.get(0), concatenated.get(0));
    assert_eq!(sequential.get(0), Some(filled("b")));

    // The reverse order is not the same state: the removal is refused on the
    // still-empty list, and both pushes then land.
    let mut reversed = ConversationList::new();
    assert_eq!(reversed.apply_batch(b2()), 1);
    reversed.apply_batch(b1());
    assert_eq!(reversed.len(), 2);
    assert_eq!(reversed.get(0), Some(filled("a")));
}

#[test]
fn snapshot_unaffected_by_later_diffs() {
    let mut list = ConversationList::new();
    assert!(list.apply(DiffOp::PushBack { value: filled("a") }));
    let snap = list.snapshot();
    assert!(list.apply(DiffOp::PushBack { value: filled("b") }));
    assert!(list.apply(DiffOp::ReplaceAt { index: 0, value: filled("z") }));
    assert_eq!(snap.len(), 1);
    assert_eq!(snap.get(0), Some(filled("a")));
    assert_eq!(list.get(0), Some(filled("z")));
}
