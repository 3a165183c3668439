//! The session with the event feed: what each frame of the feed leads to.

use vstd::prelude::*;
use crate::database::Write;
use crate::error::ArchiveError;
use crate::events::{
    ChatMessage, ChatMessageView, StreamOffline, StreamOfflineView, StreamOnline, StreamOnlineView,
};
use crate::ids::number_of;
use crate::socket::{EventSubSocket, Phase};
use crate::state::State;
use crate::watcher::{chat_message_step, on_chat_message, on_stream_offline, stream_offline_step};

verus! {

/// What a notification tells of.
#[derive(Debug, PartialEq, Eq)]
pub enum Notification {
    /// A channel went live.
    StreamOnline { payload: StreamOnline },
    /// A channel went offline.
    StreamOffline { payload: StreamOffline },
    /// A message was sent in a channel's chat.
    ChatMessage { payload: ChatMessage },
    /// Anything else.
    Other,
}

/// A frame of the event feed.
#[derive(Debug, PartialEq, Eq)]
pub enum Frame {
    /// The first frame of a channel: it names the session.
    Welcome { session_id: String },
    /// Nothing has happened for a while.
    Keepalive,
    /// The channel is to be given up for one at `reconnect_url`, or at the
    /// feed's usual endpoint where none is named.
    Reconnect { session_id: String, reconnect_url: Option<String> },
    /// A subscription was taken away.
    Revocation { subscription_type: String },
    /// Something happened; `timestamp` is when the feed sent the frame.
    Notification { timestamp: String, event: Notification },
    /// A frame of a kind that is not dealt with.
    Other,
}

/// What a notification tells of, as the texts it was told in.
pub enum NotificationView {
    StreamOnline { payload: StreamOnlineView },
    StreamOffline { payload: StreamOfflineView },
    ChatMessage { payload: ChatMessageView },
    Other,
}

impl View for Notification {
    type V = NotificationView;

    open spec fn view(&self) -> NotificationView {
        match *self {
            Notification::StreamOnline { payload } => NotificationView::StreamOnline {
                payload: payload@,
            },
            Notification::StreamOffline { payload } => NotificationView::StreamOffline {
                payload: payload@,
            },
            Notification::ChatMessage { payload } => NotificationView::ChatMessage {
                payload: payload@,
            },
            Notification::Other => NotificationView::Other,
        }
    }
}

/// A frame of the event feed, as the texts it was sent in.
pub enum FrameView {
    Welcome { session_id: Seq<char> },
    Keepalive,
    Reconnect { session_id: Seq<char>, reconnect_url: Option<Seq<char>> },
    Revocation { subscription_type: Seq<char> },
    Notification { timestamp: Seq<char>, event: NotificationView },
    Other,
}

impl View for Frame {
    type V = FrameView;

    open spec fn view(&self) -> FrameView {
        match *self {
            Frame::Welcome { session_id } => FrameView::Welcome { session_id: session_id@ },
            Frame::Keepalive => FrameView::Keepalive,
            Frame::Reconnect { session_id, reconnect_url } => FrameView::Reconnect {
                session_id: session_id@,
                reconnect_url: match reconnect_url {
                    Some(url) => Some(url@),
                    None => None,
                },
            },
            Frame::Revocation { subscription_type } => FrameView::Revocation {
                subscription_type: subscription_type@,
            },
            Frame::Notification { timestamp, event } => FrameView::Notification {
                timestamp: timestamp@,
                event: event@,
            },
            Frame::Other => FrameView::Other,
        }
    }
}

/// What is to be done after a frame.
#[derive(Debug, PartialEq, Eq)]
pub enum Action {
    /// Nothing.
    Idle,
    /// Look at the list of broadcasters, and subscribe through the session
    /// that was just named.
    Refresh,
    /// Give the channel up and open one at `url`.
    Connect { url: String },
    /// Ask the archive for the stream of the channel that went live, and
    /// hand it to `on_stream_online`.
    QueryStream { payload: StreamOnline },
    /// Make these writes to the archive, in order.
    Store { writes: Vec<Write> },
}

/// Why the session has ended.
#[derive(Debug, PartialEq, Eq)]
pub enum Fatal {
    /// The feed took a subscription away.
    Revoked { subscription_type: String },
    /// The feed sent what cannot be read.
    Fault { fault: ArchiveError },
}

/// The endpoint that a request to reconnect means.
pub open spec fn reconnect_target(reconnect_url: Option<String>, default_url: Seq<char>) -> Seq<
    char,
> {
    match reconnect_url {
        Some(url) => url@,
        None => default_url,
    }
}

/// Deals with one frame of the event feed. A welcome and a request to
/// reconnect replace the session; a revocation ends it; a notification is
/// handed to the one handler of its kind, with the time that the feed
/// stamped the frame with; every other frame is passed over.
pub fn handle_frame(
    frame: Frame,
    default_url: &str,
    socket: &mut EventSubSocket,
    state: &mut State,
) -> (action: Result<Action, Fatal>)
    requires
        old(state).well_formed(),
    ensures
        final(state).well_formed(),
        final(socket).url == old(socket).url,
        final(state)@.last_broadcaster_check == old(state)@.last_broadcaster_check,
        final(state)@.watcher_id == old(state)@.watcher_id,
        final(socket).phase == match frame {
            Frame::Welcome { .. } => Phase::Active,
            Frame::Reconnect { .. } => Phase::Reconnecting,
            _ => if action is Err {
                Phase::Terminated
            } else {
                old(socket).phase
            },
        },
        final(state)@.session_id == match frame {
            Frame::Welcome { session_id } => session_id,
            Frame::Reconnect { session_id, .. } => session_id,
            _ => old(state)@.session_id,
        },
        match frame {
            Frame::Welcome { .. } => action matches Ok(Action::Refresh),
            Frame::Keepalive => action matches Ok(Action::Idle),
            Frame::Other => action matches Ok(Action::Idle),
            Frame::Reconnect { reconnect_url, .. } => action matches Ok(Action::Connect { url })
                && url@ == reconnect_target(reconnect_url, default_url@),
            Frame::Revocation { subscription_type } => action matches Err(
                Fatal::Revoked { subscription_type: reason },
            ) && reason == subscription_type,
            Frame::Notification { timestamp, event } => match event {
                Notification::Other => action matches Ok(Action::Idle),
                Notification::StreamOnline { payload } => match number_of(
                    payload.broadcaster_user_id@,
                ) {
                    None => action matches Err(Fatal::Fault { fault: ArchiveError::BadBroadcasterId }),
                    Some(id) => if old(state).known().contains_key(id) {
                        action matches Ok(Action::QueryStream { payload: asked }) && asked == payload
                    } else {
                        action matches Ok(Action::Idle)
                    },
                },
                Notification::StreamOffline { payload } => match stream_offline_step(
                    old(state).known(),
                    timestamp@,
                    payload,
                ).0 {
                    Ok(Some(write)) => action matches Ok(Action::Store { writes }) && writes@
                        == seq![write],
                    Ok(None) => action matches Ok(Action::Idle),
                    Err(fault) => action matches Err(Fatal::Fault { fault: met }) && met == fault,
                },
                Notification::ChatMessage { payload } => match chat_message_step(
                    old(state).known(),
                    payload,
                    timestamp@,
                ) {
                    Ok(expected) => action matches Ok(Action::Store { writes }) && writes@
                        == expected,
                    Err(fault) => action matches Err(Fatal::Fault { fault: met }) && met == fault,
                },
            },
        },
        match frame {
            Frame::Notification { timestamp, event: Notification::StreamOffline { payload } } =>
                final(state).known() == stream_offline_step(
                    old(state).known(),
                    timestamp@,
                    payload,
                ).1,
            _ => final(state).known() == old(state).known(),
        },
{
    match frame {
        Frame::Welcome { session_id } => {
            state.set_session(session_id);
            socket.phase = Phase::Active;
            Ok(Action::Refresh)
        },
        Frame::Keepalive => Ok(Action::Idle),
        Frame::Other => Ok(Action::Idle),
        Frame::Reconnect { session_id, reconnect_url } => {
            state.set_session(session_id);
            socket.phase = Phase::Reconnecting;
            let url = match reconnect_url {
                Some(url) => url,
                None => default_url.to_owned(),
            };
            Ok(Action::Connect { url })
        },
        Frame::Revocation { subscription_type } => {
            socket.phase = Phase::Terminated;
            Err(Fatal::Revoked { subscription_type })
        },
        Frame::Notification { timestamp, event } => match event {
            Notification::Other => Ok(Action::Idle),
            Notification::StreamOnline { payload } => {
                match state.watched_channel(payload.broadcaster_user_id.as_str()) {
                    Err(fault) => {
                        socket.phase = Phase::Terminated;
                        Err(Fatal::Fault { fault })
                    },
                    Ok(None) => Ok(Action::Idle),
                    Ok(Some(_)) => Ok(Action::QueryStream { payload }),
                }
            },
            Notification::StreamOffline { payload } => {
                match on_stream_offline(timestamp.as_str(), &payload, state) {
                    Err(fault) => {
                        socket.phase = Phase::Terminated;
                        Err(Fatal::Fault { fault })
                    },
                    Ok(None) => Ok(Action::Idle),
                    Ok(Some(write)) => {
                        let mut writes: Vec<Write> = Vec::new();
                        writes.push(write);
                        Ok(Action::Store { writes })
                    },
                }
            },
            Notification::ChatMessage { payload } => {
                match on_chat_message(&payload, timestamp.as_str(), state) {
                    Err(fault) => {
                        socket.phase = Phase::Terminated;
                        Err(Fatal::Fault { fault })
                    },
                    Ok(writes) => Ok(Action::Store { writes }),
                }
            },
        },
    }
}

} // verus!
