use multiverse::diff::DiffOp;
use multiverse::list::ConversationList;
use multiverse::model::ConversationEntry;
use multiverse::projection::ProjectionMap;
use multiverse::selection::SelectionState;

#[test]
fn entry_identifiers() {
    assert_eq!(ConversationEntry::Empty.identifier(), None);
    assert_eq!(ConversationEntry::Invalidated(None).identifier(), None);
    assert_eq!(
        ConversationEntry::Invalidated(Some("room:9".to_owned())).identifier(),
        Some("room:9".to_owned())
    );
    assert_eq!(
        ConversationEntry::Filled("room:1".to_owned()).identifier(),
        Some("room:1".to_owned())
    );
}

#[test]
fn selected_identifier_needs_no_provisioning() {
    let mut list = ConversationList::new();
    list.apply_batch(vec![
        DiffOp::PushBack { value: ConversationEntry::Empty },
        DiffOp::PushBack { value: ConversationEntry::Filled("room:1".to_owned()) },
    ]);
    let s = SelectionState { selected: Some(1), subscribed: None };
    assert_eq!(s.selected_identifier(&list), Some("room:1".to_owned()));

    let on_empty_slot = SelectionState { selected: Some(0), subscribed: None };
    assert_eq!(on_empty_slot.selected_identifier(&list), None);

    let out_of_range = SelectionState { selected: Some(7), subscribed: None };
    assert_eq!(out_of_range.selected_identifier(&list), None);

    let unselected = SelectionState::new();
    assert_eq!(unselected.selected_identifier(&list), None);
}

#[test]
fn selected_resolved_needs_provisioning() {
    let mut list = ConversationList::new();
    list.apply_batch(vec![
        DiffOp::PushBack { value: ConversationEntry::Filled("room:0".to_owned()) },
        DiffOp::PushBack { value: ConversationEntry::Filled("room:1".to_owned()) },
    ]);
    let mut map = ProjectionMap::new();
    map.commit(&vec!["room:0".to_owned()]);

    let provisioned = SelectionState { selected: Some(0), subscribed: None };
    assert_eq!(provisioned.selected_resolved(&list, &map), Some("room:0".to_owned()));

    let unprovisioned = SelectionState { selected: Some(1), subscribed: None };
    assert_eq!(unprovisioned.selected_resolved(&list, &map), None);
}
