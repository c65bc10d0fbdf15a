use multiverse::diff::DiffOp;
use multiverse::model::{ContentKind, TimelineItem, VirtualItem};
use multiverse::timeline::{decimal_string, line_of, Timeline};

fn text(sender: &str, body: &str) -> TimelineItem {
    TimelineItem::Event {
        sender: sender.to_owned(),
        content: ContentKind::Message(Some(body.to_owned())),
    }
}

#[test]
fn lines_per_item_kind() {
    assert_eq!(line_of(&text("alice", "hi there")), Some("alice: hi there".to_owned()));
    assert_eq!(
        line_of(&TimelineItem::Event {
            sender: "alice".to_owned(),
            content: ContentKind::Message(None),
        }),
        None
    );
    assert_eq!(
        line_of(&TimelineItem::Event {
            sender: "bob".to_owned(),
            content: ContentKind::RedactedMessage,
        }),
        Some("bob: -- redacted --".to_owned())
    );
    assert_eq!(
        line_of(&TimelineItem::Event {
            sender: "carol".to_owned(),
            content: ContentKind::UndecryptableMessage,
        }),
        Some("carol: (UTD)".to_owned())
    );
    assert_eq!(
        line_of(&TimelineItem::Event { sender: "dan".to_owned(), content: ContentKind::Other }),
        None
    );
    assert_eq!(
        line_of(&TimelineItem::Virtual(VirtualItem::DayDivider(1234))),
        Some("Date: 1234".to_owned())
    );
    assert_eq!(
        line_of(&TimelineItem::Virtual(VirtualItem::ReadMarker)),
        Some("Read marker".to_owned())
    );
}

#[test]
fn visible_lines_skip_undisplayed_items() {
    let timeline = Timeline::from_initial(vec![
        TimelineItem::Virtual(VirtualItem::DayDivider(7)),
        text("alice", "hello"),
        TimelineItem::Event { sender: "x".to_owned(), content: ContentKind::Other },
        TimelineItem::Event { sender: "alice".to_owned(), content: ContentKind::Message(None) },
        TimelineItem::Virtual(VirtualItem::ReadMarker),
        text("bob", "bye"),
    ]);
    assert_eq!(
        timeline.visible_lines(),
        vec![
            "Date: 7".to_owned(),
            "alice: hello".to_owned(),
            "Read marker".to_owned(),
            "bob: bye".to_owned(),
        ]
    );
}

#[test]
fn timeline_diffs_apply_in_order() {
    let mut timeline = Timeline::from_initial(Vec::new());
    assert_eq!(timeline.apply_batch(vec![
        DiffOp::PushBack { value: text("a", "1") },
        DiffOp::PushBack { value: text("a", "2") },
        DiffOp::PushFront { value: text("a", "0") },
    ]), 0);
    assert_eq!(timeline.len(), 3);
    assert_eq!(timeline.get(0), Some(text("a", "0")));
    assert_eq!(timeline.get(2), Some(text("a", "2")));
    assert!(timeline.apply(DiffOp::ReplaceAt { index: 1, value: text("b", "mid") }));
    assert_eq!(timeline.get(1), Some(text("b", "mid")));
}

#[test]
fn timeline_out_of_range_diff_refused() {
    let mut timeline = Timeline::from_initial(vec![text("a", "1")]);
    assert!(!timeline.apply(DiffOp::RemoveAt { index: 3 }));
    assert_eq!(timeline.len(), 1);
    assert_eq!(timeline.apply_batch(vec![DiffOp::InsertAt { index: 9, value: text("b", "x") }]), 1);
    assert_eq!(timeline.len(), 1);
}

#[test]
fn timeline_snapshot_isolated_from_consumer() {
    let mut timeline = Timeline::from_initial(vec![text("a", "1")]);
    let snap = timeline.snapshot();
    timeline.apply(DiffOp::Clear);
    assert_eq!(snap.len(), 1);
    assert_eq!(snap.visible_lines(), vec!["a: 1".to_owned()]);
    assert_eq!(timeline.len(), 0);
}

#[test]
fn decimal_rendering_exact() {
    assert_eq!(decimal_string(0), "0".to_owned());
    assert_eq!(decimal_string(7), "7".to_owned());
    assert_eq!(decimal_string(10), "10".to_owned());
    assert_eq!(decimal_string(1234567890), "1234567890".to_owned());
    assert_eq!(decimal_string(u64::MAX), "18446744073709551615".to_owned());
}
