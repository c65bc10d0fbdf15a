//! Command dispatch of the render/input loop: each key press maps to exactly
//! one command, depending on the current detail mode; and the small decisions
//! of the quit path and of user-facing feedback.

use vstd::prelude::*;
use vstd::string::StringExecFns;
use crate::timeline::{decimal_string, spec_decimal};

verus! {

/// What the right-hand detail view shows.
#[derive(Clone, Copy, PartialEq, Eq, Structural, Debug)]
pub enum DetailsMode {
    ReadReceipts,
    TimelineItems,
}

impl Default for DetailsMode {
    /// The detail view starts on read receipts.
    fn default() -> (r: Self)
        ensures
            r == DetailsMode::ReadReceipts,
    {
        DetailsMode::ReadReceipts
    }
}

/// A key press, as the input loop hands it to the dispatcher.
#[derive(Clone, Copy, PartialEq, Eq, Structural, Debug)]
pub enum Key {
    Char(char),
    Down,
    Up,
    Esc,
    Other,
}

/// The one command a key press dispatches to.
#[derive(Clone, Copy, PartialEq, Eq, Structural, Debug)]
pub enum Command {
    /// Leave the loop; the only transition out of it.
    Quit,
    /// Move the selection down.
    FocusNext,
    /// Move the selection up.
    FocusPrevious,
    /// Start the synchronization service.
    StartSync,
    /// Stop the synchronization service.
    StopSync,
    /// Show read receipts in the detail view.
    ShowReadReceipts,
    /// Show timeline items in the detail view.
    ShowTimelineItems,
    /// Mark the selected conversation as read; only meaningful in
    /// read-receipts mode.
    MarkAsRead,
    /// No effect.
    Nothing,
}

/// The command dispatched for a key press in the given detail mode.
pub open spec fn spec_dispatch(key: Key, mode: DetailsMode) -> Command {
    match key {
        Key::Char(c) => if c == 'q' {
            Command::Quit
        } else if c == 'j' {
            Command::FocusNext
        } else if c == 'k' {
            Command::FocusPrevious
        } else if c == 's' {
            Command::StartSync
        } else if c == 'S' {
            Command::StopSync
        } else if c == 'r' {
            Command::ShowReadReceipts
        } else if c == 't' {
            Command::ShowTimelineItems
        } else if c == 'm' && mode == DetailsMode::ReadReceipts {
            Command::MarkAsRead
        } else {
            Command::Nothing
        },
        Key::Down => Command::FocusNext,
        Key::Up => Command::FocusPrevious,
        Key::Esc => Command::Quit,
        Key::Other => Command::Nothing,
    }
}

/// Dispatch one key press: exactly one command, synchronously.
pub fn dispatch(key: Key, mode: DetailsMode) -> (c: Command)
    ensures
        c == spec_dispatch(key, mode),
{
    match key {
        Key::Char(c) => if c == 'q' {
            Command::Quit
        } else if c == 'j' {
            Command::FocusNext
        } else if c == 'k' {
            Command::FocusPrevious
        } else if c == 's' {
            Command::StartSync
        } else if c == 'S' {
            Command::StopSync
        } else if c == 'r' {
            Command::ShowReadReceipts
        } else if c == 't' {
            Command::ShowTimelineItems
        } else if c == 'm' {
            if mode == DetailsMode::ReadReceipts {
                Command::MarkAsRead
            } else {
                Command::Nothing
            }
        } else {
            Command::Nothing
        },
        Key::Down => Command::FocusNext,
        Key::Up => Command::FocusPrevious,
        Key::Esc => Command::Quit,
        Key::Other => Command::Nothing,
    }
}

/// A state the synchronization service reports.
#[derive(Clone, Copy, PartialEq, Eq, Structural, Debug)]
pub enum SyncState {
    Idle,
    Running,
    Terminated,
    Error,
}

/// Whether the shutdown sequence may proceed: the quit path first asks the
/// service to stop, then waits until it reports any state other than running
/// before cancelling local consumers, so that no consumer is cancelled
/// mid-emission of a final batch.
pub fn shutdown_wait_done(state: &SyncState) -> (done: bool)
    ensures
        done == (*state != SyncState::Running),
{
    match state {
        SyncState::Running => false,
        _ => true,
    }
}

/// The one-shot status line reporting a mark-as-read command: whether a
/// read receipt was sent, or that there was no conversation to act on.
pub fn mark_as_read_feedback(outcome: Option<bool>) -> (r: String)
    ensures
        outcome == Some(true) ==> r@ == "did send a read receipt!"@,
        outcome == Some(false) ==> r@ == "did not send a read receipt!"@,
        outcome is None ==> r@ == "missing room or nothing to show"@,
{
    match outcome {
        Some(true) => "did send a read receipt!".to_owned(),
        Some(false) => "did not send a read receipt!".to_owned(),
        None => "missing room or nothing to show".to_owned(),
    }
}

/// The list row for the slot at `index`: its position and identifier when
/// the slot resolves to one, and a placeholder line otherwise.
pub fn row_label(index: usize, resolved: Option<String>) -> (r: String)
    ensures
        resolved matches Some(id) ==> r@ == "#"@ + spec_decimal(index as nat) + " "@ + id@,
        resolved is None ==> r@ == "non-filled room"@,
{
    match resolved {
        Some(id) => {
            let num = decimal_string(index as u64);
            "#".to_owned().concat(num.as_str()).concat(" ").concat(id.as_str())
        },
        None => "non-filled room".to_owned(),
    }
}

/// An external call a user command performs, named for reporting its failure.
#[derive(Clone, Copy, PartialEq, Eq, Structural, Debug)]
pub enum UserCall {
    /// Sending a read receipt for the selected conversation.
    MarkAsRead,
    /// Stopping the synchronization service.
    StopSync,
}

/// The one-shot status line surfacing a failed external call: the failure is
/// reported to the user and the loop goes on, never down.
pub fn call_failure_feedback(call: UserCall, error: String) -> (r: String)
    ensures
        call == UserCall::MarkAsRead ==> r@ == "error when marking the room as read: "@ + error@,
        call == UserCall::StopSync ==> r@ == "error when stopping the sync service: "@ + error@,
{
    match call {
        UserCall::MarkAsRead => "error when marking the room as read: ".to_owned().concat(
            error.as_str(),
        ),
        UserCall::StopSync => "error when stopping the sync service: ".to_owned().concat(
            error.as_str(),
        ),
    }
}

/// Why the detail view has nothing to show.
#[derive(Clone, Copy, PartialEq, Eq, Structural, Debug)]
pub enum DetailFallback {
    /// No slot is selected, or the selected slot resolves to no identifier.
    NothingSelected,
    /// The selected conversation is no longer known to the list service.
    ConversationDisappeared,
    /// The selected conversation has no timeline.
    TimelineDisappeared,
}

/// The line the detail view falls back to when it has nothing to show.
pub fn detail_fallback_text(reason: DetailFallback) -> (r: String)
    ensures
        reason == DetailFallback::NothingSelected ==> r@ == "Nothing to see here..."@,
        reason == DetailFallback::ConversationDisappeared ==> r@
            == "(room disappeared in the room list service)"@,
        reason == DetailFallback::TimelineDisappeared ==> r@ == "(room's timeline disappeared)"@,
{
    match reason {
        DetailFallback::NothingSelected => "Nothing to see here...".to_owned(),
        DetailFallback::ConversationDisappeared => {
            "(room disappeared in the room list service)".to_owned()
        },
        DetailFallback::TimelineDisappeared => "(room's timeline disappeared)".to_owned(),
    }
}

/// The footer line: the transient status message when one is set, and the
/// help line for the current detail mode otherwise.
pub fn footer_text(status: Option<String>, mode: DetailsMode) -> (r: String)
    ensures
        status matches Some(s) ==> r == s,
        status is None && mode == DetailsMode::ReadReceipts ==> r@
            == "\nUse \u{2193}\u{2191} to move, s/S to start/stop the sync service, m to mark as read, t to show the timeline."@,
        status is None && mode == DetailsMode::TimelineItems ==> r@
            == "\nUse \u{2193}\u{2191} to move, s/S to start/stop the sync service, r to show read receipts."@,
{
    match status {
        Some(s) => s,
        None => match mode {
            DetailsMode::ReadReceipts => {
                "\nUse \u{2193}\u{2191} to move, s/S to start/stop the sync service, m to mark as read, t to show the timeline.".to_owned()
            },
            DetailsMode::TimelineItems => {
                "\nUse \u{2193}\u{2191} to move, s/S to start/stop the sync service, r to show read receipts.".to_owned()
            },
        },
    }
}

} // verus!
