//! Plain data model of the synchronized views: conversation-list entries and
//! timeline items, as the external services deliver them and as the render
//! loop reads them.

use vstd::prelude::*;

verus! {

/// The character sequences of a sequence of strings, in order.
pub open spec fn string_views(strs: Seq<String>) -> Seq<Seq<char>> {
    strs.map_values(|s: String| s@)
}

/// One slot of the ordered conversation list.  A slot's content may arrive
/// asynchronously: it starts `Empty`, may become `Filled` with an identifier,
/// and may be `Invalidated` while still remembering the identifier it had.
#[derive(PartialEq, Eq, Debug)]
pub enum ConversationEntry {
    Empty,
    Invalidated(Option<String>),
    Filled(String),
}

impl ConversationEntry {
    /// The conversation identifier this slot currently resolves to, if any.
    pub open spec fn spec_identifier(self) -> Option<Seq<char>> {
        match self {
            ConversationEntry::Empty => None,
            ConversationEntry::Invalidated(oid) => match oid {
                Some(id) => Some(id@),
                None => None,
            },
            ConversationEntry::Filled(id) => Some(id@),
        }
    }

    /// The conversation identifier this slot currently resolves to, if any.
    pub fn identifier(&self) -> (r: Option<String>)
        ensures
            (r is Some) == (self.spec_identifier() is Some),
            r matches Some(id) ==> self.spec_identifier() == Some(id@),
    {
        match self {
            ConversationEntry::Empty => None,
            ConversationEntry::Invalidated(None) => None,
            ConversationEntry::Invalidated(Some(id)) => Some(id.clone()),
            ConversationEntry::Filled(id) => Some(id.clone()),
        }
    }
}

impl Clone for ConversationEntry {
    fn clone(&self) -> (r: Self)
        ensures
            r == *self,
    {
        match self {
            ConversationEntry::Empty => ConversationEntry::Empty,
            ConversationEntry::Invalidated(None) => ConversationEntry::Invalidated(None),
            ConversationEntry::Invalidated(Some(id)) => ConversationEntry::Invalidated(
                Some(id.clone()),
            ),
            ConversationEntry::Filled(id) => ConversationEntry::Filled(id.clone()),
        }
    }
}

/// What an event-kind timeline item carries.
#[derive(PartialEq, Eq, Debug)]
pub enum ContentKind {
    /// A message; `Some` holds the body of a text message, `None` stands for
    /// a message of any other type, which the view does not display.
    Message(Option<String>),
    /// A message that was redacted.
    RedactedMessage,
    /// A message that could not be decrypted.
    UndecryptableMessage,
    /// Any other event content; ignored by the view.
    Other,
}

impl Clone for ContentKind {
    fn clone(&self) -> (r: Self)
        ensures
            r == *self,
    {
        match self {
            ContentKind::Message(None) => ContentKind::Message(None),
            ContentKind::Message(Some(body)) => ContentKind::Message(Some(body.clone())),
            ContentKind::RedactedMessage => ContentKind::RedactedMessage,
            ContentKind::UndecryptableMessage => ContentKind::UndecryptableMessage,
            ContentKind::Other => ContentKind::Other,
        }
    }
}

/// A non-message entry injected into a timeline for display purposes.
#[derive(PartialEq, Eq, Debug)]
pub enum VirtualItem {
    /// A divider between days; carries a timestamp in milliseconds since the
    /// Unix epoch.
    DayDivider(u64),
    /// The position of the user's read marker.
    ReadMarker,
}

impl Clone for VirtualItem {
    fn clone(&self) -> (r: Self)
        ensures
            r == *self,
    {
        match self {
            VirtualItem::DayDivider(ts) => VirtualItem::DayDivider(*ts),
            VirtualItem::ReadMarker => VirtualItem::ReadMarker,
        }
    }
}

/// One displayable item of a conversation's timeline.
#[derive(PartialEq, Eq, Debug)]
pub enum TimelineItem {
    /// An event sent by `sender` with the given content.
    Event { sender: String, content: ContentKind },
    /// A virtual entry injected for display purposes.
    Virtual(VirtualItem),
}

impl Clone for TimelineItem {
    fn clone(&self) -> (r: Self)
        ensures
            r == *self,
    {
        match self {
            TimelineItem::Event { sender, content } => TimelineItem::Event {
                sender: sender.clone(),
                content: content.clone(),
            },
            TimelineItem::Virtual(v) => TimelineItem::Virtual(v.clone()),
        }
    }
}

} // verus!
