//! What the event feed tells, and what it is asked for.

use vstd::prelude::*;

verus! {

/// A channel went live.
#[derive(Debug, PartialEq, Eq)]
pub struct StreamOnline {
    pub broadcaster_user_id: String,
    pub broadcaster_user_login: String,
    pub started_at: String,
}

/// A channel went offline.
#[derive(Debug, PartialEq, Eq)]
pub struct StreamOffline {
    pub broadcaster_user_id: String,
    pub broadcaster_user_login: String,
}

/// A message was sent in a channel's chat.
#[derive(Debug, PartialEq, Eq)]
pub struct ChatMessage {
    pub broadcaster_user_id: String,
    pub broadcaster_user_login: String,
    pub chatter_user_id: String,
    pub chatter_user_name: String,
    pub message_id: String,
    pub text: String,
}

/// A channel went live, as the texts it was told in.
pub struct StreamOnlineView {
    pub broadcaster_user_id: Seq<char>,
    pub broadcaster_user_login: Seq<char>,
    pub started_at: Seq<char>,
}

impl View for StreamOnline {
    type V = StreamOnlineView;

    open spec fn view(&self) -> StreamOnlineView {
        StreamOnlineView {
            broadcaster_user_id: self.broadcaster_user_id@,
            broadcaster_user_login: self.broadcaster_user_login@,
            started_at: self.started_at@,
        }
    }
}

/// A channel went offline, as the texts it was told in.
pub struct StreamOfflineView {
    pub broadcaster_user_id: Seq<char>,
    pub broadcaster_user_login: Seq<char>,
}

impl View for StreamOffline {
    type V = StreamOfflineView;

    open spec fn view(&self) -> StreamOfflineView {
        StreamOfflineView {
            broadcaster_user_id: self.broadcaster_user_id@,
            broadcaster_user_login: self.broadcaster_user_login@,
        }
    }
}

/// A chat message, as the texts it was told in.
pub struct ChatMessageView {
    pub broadcaster_user_id: Seq<char>,
    pub broadcaster_user_login: Seq<char>,
    pub chatter_user_id: Seq<char>,
    pub chatter_user_name: Seq<char>,
    pub message_id: Seq<char>,
    pub text: Seq<char>,
}

impl View for ChatMessage {
    type V = ChatMessageView;

    open spec fn view(&self) -> ChatMessageView {
        ChatMessageView {
            broadcaster_user_id: self.broadcaster_user_id@,
            broadcaster_user_login: self.broadcaster_user_login@,
            chatter_user_id: self.chatter_user_id@,
            chatter_user_name: self.chatter_user_name@,
            message_id: self.message_id@,
            text: self.text@,
        }
    }
}

/// The kinds of event that a watched channel is subscribed to.
#[derive(Clone, Copy, Debug, PartialEq, Eq, Structural)]
pub enum SubscriptionKind {
    StreamOnline,
    StreamOffline,
    ChannelChatMessage,
}

/// A request to be told of one kind of event in one channel, through the
/// session given. `watcher_id` is the user who reads the chat.
#[derive(Debug, PartialEq, Eq)]
pub struct Subscription {
    pub kind: SubscriptionKind,
    pub broadcaster_id: i64,
    pub session_id: String,
    pub watcher_id: String,
}

impl Subscription {
    /// Whether this asks for `kind` in the channel `broadcaster_id`, through
    /// the session `session_id`, on behalf of `watcher_id`.
    pub open spec fn asks(
        &self,
        kind: SubscriptionKind,
        broadcaster_id: i64,
        session_id: Seq<char>,
        watcher_id: Seq<char>,
    ) -> bool {
        &&& self.kind == kind
        &&& self.broadcaster_id == broadcaster_id
        &&& self.session_id@ == session_id
        &&& self.watcher_id@ == watcher_id
    }
}

} // verus!
