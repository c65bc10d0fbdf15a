use multiverse::status::StatusNotifier;

#[test]
fn later_message_wins_over_inflight_expiry() {
    let mut status = StatusNotifier::new();
    let saved = status.set_message("saved".to_owned());
    let sync_error = status.set_message("sync error".to_owned());

    // The first message's timer fires late: it must not clear anything.
    status.expire(saved);
    assert_eq!(status.read_message(), Some("sync error".to_owned()));

    // The second message's own timer fires: now the status is gone.
    status.expire(sync_error);
    assert_eq!(status.read_message(), None);
}

#[test]
fn expiry_clears_its_own_message() {
    let mut status = StatusNotifier::new();
    assert_eq!(status.read_message(), None);
    let token = status.set_message("did send a read receipt!".to_owned());
    assert_eq!(status.read_message(), Some("did send a read receipt!".to_owned()));
    status.expire(token);
    assert_eq!(status.read_message(), None);
}

#[test]
fn stale_token_never_clears_a_newer_message() {
    let mut status = StatusNotifier::new();
    let first = status.set_message("a".to_owned());
    status.expire(first);
    let second = status.set_message("b".to_owned());
    status.expire(first);
    assert_eq!(status.read_message(), Some("b".to_owned()));
    status.expire(second);
    assert_eq!(status.read_message(), None);
}
