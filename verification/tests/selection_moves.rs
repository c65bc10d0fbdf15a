use multiverse::diff::DiffOp;
use multiverse::list::ConversationList;
use multiverse::model::ConversationEntry;
use multiverse::projection::ProjectionMap;
use multiverse::selection::{SelectionState, SubscriptionAction};

fn filled(id: &str) -> ConversationEntry {
    ConversationEntry::Filled(id.to_owned())
}

fn three_room_list() -> ConversationList {
    let mut list = ConversationList::new();
    list.apply_batch(vec![
        DiffOp::PushBack { value: filled("room:0") },
        DiffOp::PushBack { value: filled("room:1") },
        DiffOp::PushBack { value: filled("room:2") },
    ]);
    list
}

#[test]
fn focus_next_wraps_full_cycle() {
    let mut s = SelectionState { selected: Some(0), subscribed: None };
    assert_eq!(s.focus_next(3), Some(1));
    assert_eq!(s.focus_next(3), Some(2));
    assert_eq!(s.focus_next(3), Some(0));
    assert_eq!(s.selected, Some(0));
}

#[test]
fn focus_on_empty_list_reports_no_change() {
    let mut s = SelectionState { selected: Some(1), subscribed: None };
    assert_eq!(s.focus_next(0), None);
    assert_eq!(s.selected, None);
    assert_eq!(s.focus_previous(0), None);
    assert_eq!(s.selected, None);
}

#[test]
fn single_element_reselect_reports_no_change() {
    let mut s = SelectionState { selected: Some(0), subscribed: None };
    assert_eq!(s.focus_next(1), None);
    assert_eq!(s.selected, Some(0));
    assert_eq!(s.focus_previous(1), None);
    assert_eq!(s.selected, Some(0));
}

#[test]
fn first_focus_selects_front() {
    let mut s = SelectionState::new();
    assert_eq!(s.focus_next(3), Some(0));
    let mut p = SelectionState::new();
    assert_eq!(p.focus_previous(3), Some(0));
}

#[test]
fn focus_previous_wraps_to_end() {
    let mut s = SelectionState { selected: Some(0), subscribed: None };
    assert_eq!(s.focus_previous(3), Some(2));
}

#[test]
fn unsubscribe_comes_before_subscribe_on_wrap() {
    let list = three_room_list();
    let mut map = ProjectionMap::new();
    map.commit(&vec!["room:0".to_owned(), "room:2".to_owned()]);

    let mut s = SelectionState { selected: Some(0), subscribed: Some("room:0".to_owned()) };
    let actions = s.select_previous(&list, &map);
    assert_eq!(
        actions,
        vec![
            SubscriptionAction::Release("room:0".to_owned()),
            SubscriptionAction::Acquire("room:2".to_owned()),
        ]
    );
    assert_eq!(s.selected, Some(2));
    assert_eq!(s.subscribed, Some("room:2".to_owned()));
}

#[test]
fn moving_to_unprovisioned_slot_releases_only() {
    let list = three_room_list();
    let mut map = ProjectionMap::new();
    map.commit(&vec!["room:0".to_owned()]);

    let mut s = SelectionState { selected: Some(0), subscribed: Some("room:0".to_owned()) };
    let actions = s.select_next(&list, &map);
    assert_eq!(actions, vec![SubscriptionAction::Release("room:0".to_owned())]);
    assert_eq!(s.selected, Some(1));
    assert_eq!(s.subscribed, None);
}

#[test]
fn no_change_keeps_subscription_untouched() {
    let mut list = ConversationList::new();
    list.apply_batch(vec![DiffOp::PushBack { value: filled("room:0") }]);
    let mut map = ProjectionMap::new();
    map.commit(&vec!["room:0".to_owned()]);

    let mut s = SelectionState { selected: Some(0), subscribed: Some("room:0".to_owned()) };
    let actions = s.select_next(&list, &map);
    assert!(actions.is_empty());
    assert_eq!(s.selected, Some(0));
    assert_eq!(s.subscribed, Some("room:0".to_owned()));
}

#[test]
fn at_most_one_subscription_over_many_moves() {
    let list = three_room_list();
    let mut map = ProjectionMap::new();
    map.commit(&vec!["room:0".to_owned(), "room:1".to_owned(), "room:2".to_owned()]);

    let mut s = SelectionState::new();
    let mut held: Vec<String> = Vec::new();
    for step in 0..7usize {
        let actions = if step % 3 == 2 {
            s.select_previous(&list, &map)
        } else {
            s.select_next(&list, &map)
        };
        for a in actions {
            match a {
                SubscriptionAction::Release(id) => {
                    assert_eq!(held.pop(), Some(id));
                },
                SubscriptionAction::Acquire(id) => {
                    assert!(held.is_empty());
                    held.push(id);
                },
            }
        }
        assert!(held.len() <= 1);
        // The held subscription is exactly the selected, provisioned room.
        match (s.selected, held.first()) {
            (Some(i), Some(id)) => assert_eq!(*id, format!("room:{i}")),
            (Some(_), None) => panic!("selected room was provisioned but not subscribed"),
            (None, _) => panic!("selection lost on a non-empty list"),
        }
    }
}
