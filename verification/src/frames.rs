//! Reading the frames of the event feed. The text of a frame is parsed by
//! the `twitch_api` crate; this module picks from what it returns the
//! values that the session works with.

use std::borrow::Cow;
use twitch_api::eventsub::{Event, EventsubWebsocketData, Message, Payload, PayloadParseError};
use vstd::prelude::*;
use crate::events::{
    ChatMessage, ChatMessageView, StreamOffline, StreamOfflineView, StreamOnline, StreamOnlineView,
};
use crate::session::{Frame, FrameView, Notification, NotificationView};

verus! {

/// What a text is as a frame, apart from what a notification tells of.
#[derive(Debug, PartialEq, Eq)]
pub enum Outline {
    /// The text is no frame.
    Unparseable,
    /// The text is a notification of a kind that `twitch_api` has no type
    /// for.
    Unimplemented,
    /// The first frame of a channel.
    Welcome { session_id: String },
    /// Nothing has happened for a while.
    Keepalive,
    /// The channel is to be given up for another.
    Reconnect { session_id: String, reconnect_url: Option<String> },
    /// A subscription was taken away.
    Revocation { subscription_type: String },
    /// Something happened; `timestamp` is when the feed sent the frame.
    Notification { timestamp: String },
    /// A frame of a kind that is not dealt with.
    Other,
}

/// What a text is as a frame, as the texts it holds.
pub enum OutlineView {
    Unparseable,
    Unimplemented,
    Welcome { session_id: Seq<char> },
    Keepalive,
    Reconnect { session_id: Seq<char>, reconnect_url: Option<Seq<char>> },
    Revocation { subscription_type: Seq<char> },
    Notification { timestamp: Seq<char> },
    Other,
}

impl View for Outline {
    type V = OutlineView;

    open spec fn view(&self) -> OutlineView {
        match *self {
            Outline::Unparseable => OutlineView::Unparseable,
            Outline::Unimplemented => OutlineView::Unimplemented,
            Outline::Welcome { session_id } => OutlineView::Welcome { session_id: session_id@ },
            Outline::Keepalive => OutlineView::Keepalive,
            Outline::Reconnect { session_id, reconnect_url } => OutlineView::Reconnect {
                session_id: session_id@,
                reconnect_url: match reconnect_url {
                    Some(url) => Some(url@),
                    None => None,
                },
            },
            Outline::Revocation { subscription_type } => OutlineView::Revocation {
                subscription_type: subscription_type@,
            },
            Outline::Notification { timestamp } => OutlineView::Notification {
                timestamp: timestamp@,
            },
            Outline::Other => OutlineView::Other,
        }
    }
}

/// What the session reads of a text that was parsed as a frame.
pub struct ParsedFrame {
    /// What the text is as a frame.
    pub outline: OutlineView,
    /// The chat message that the frame tells of, if it tells of one.
    pub chat: Option<ChatMessageView>,
    /// The going live that the frame tells of, if it tells of one.
    pub online: Option<StreamOnlineView>,
    /// The going offline that the frame tells of, if it tells of one.
    pub offline: Option<StreamOfflineView>,
}

/// What `twitch_api::eventsub::Event::parse_websocket` makes of `text`, as
/// far as the session reads it.
pub uninterp spec fn parsed_frame(text: Seq<char>) -> ParsedFrame;

/// Calls `twitch_api::eventsub::Event::parse_websocket` and copies out of
/// what it returns the kind of the frame, with the session, the endpoint,
/// the subscription or the timestamp that a frame of the kind carries. The
/// error `UnimplementedEvent` is told from the other errors. The contract
/// only names what the crate returns.
#[verifier::external_body]
fn outline(text: &str) -> (outline: Outline)
    ensures
        outline@ == parsed_frame(text@).outline,
{
    match Event::parse_websocket(text) {
        Err(PayloadParseError::UnimplementedEvent { .. }) => Outline::Unimplemented,
        Err(_) => Outline::Unparseable,
        Ok(EventsubWebsocketData::Welcome { payload, .. }) => Outline::Welcome { session_id: payload.session.id.into_owned() },
        Ok(EventsubWebsocketData::Keepalive { .. }) => Outline::Keepalive,
        Ok(EventsubWebsocketData::Reconnect { payload, .. }) => Outline::Reconnect {
            session_id: payload.session.id.into_owned(),
            reconnect_url: payload.session.reconnect_url.map(Cow::into_owned),
        },
        Ok(EventsubWebsocketData::Revocation { metadata, .. }) => Outline::Revocation { subscription_type: metadata.subscription_type.to_string() },
        Ok(EventsubWebsocketData::Notification { metadata, .. }) => Outline::Notification { timestamp: metadata.message_timestamp.as_str().to_owned() },
        Ok(_) => Outline::Other,
    }
}

/// Calls `twitch_api::eventsub::Event::parse_websocket` and copies out of
/// a notification of a chat message what the watcher reads of it; `None`
/// for any other text. The contract only names what the crate returns.
#[verifier::external_body]
fn chat_message(text: &str) -> (payload: Option<ChatMessage>)
    ensures
        match payload {
            Some(found) => parsed_frame(text@).chat == Some(found@),
            None => parsed_frame(text@).chat is None,
        },
{
    match Event::parse_websocket(text) {
        Ok(EventsubWebsocketData::Notification {
            payload: Event::ChannelChatMessageV1(Payload { message: Message::Notification(event), .. }),
            ..
        }) => Some(ChatMessage {
            broadcaster_user_id: event.broadcaster_user_id.as_str().to_owned(),
            broadcaster_user_login: event.broadcaster_user_login.as_str().to_owned(),
            chatter_user_id: event.chatter_user_id.as_str().to_owned(),
            chatter_user_name: event.chatter_user_name.as_str().to_owned(),
            message_id: event.message_id.as_str().to_owned(),
            text: event.message.text,
        }),
        _ => None,
    }
}

/// Calls `twitch_api::eventsub::Event::parse_websocket` and copies out of
/// a notification that a stream went online what the watcher reads of it;
/// `None` for any other text. The contract only names what the crate
/// returns.
#[verifier::external_body]
fn stream_online(text: &str) -> (payload: Option<StreamOnline>)
    ensures
        match payload {
            Some(found) => parsed_frame(text@).online == Some(found@),
            None => parsed_frame(text@).online is None,
        },
{
    match Event::parse_websocket(text) {
        Ok(EventsubWebsocketData::Notification {
            payload: Event::StreamOnlineV1(Payload { message: Message::Notification(event), .. }),
            ..
        }) => Some(StreamOnline {
            broadcaster_user_id: event.broadcaster_user_id.as_str().to_owned(),
            broadcaster_user_login: event.broadcaster_user_login.as_str().to_owned(),
            started_at: event.started_at.as_str().to_owned(),
        }),
        _ => None,
    }
}

/// Calls `twitch_api::eventsub::Event::parse_websocket` and copies out of
/// a notification that a stream went offline what the watcher reads of
/// it; `None` for any other text. The contract only names what the crate
/// returns.
#[verifier::external_body]
fn stream_offline(text: &str) -> (payload: Option<StreamOffline>)
    ensures
        match payload {
            Some(found) => parsed_frame(text@).offline == Some(found@),
            None => parsed_frame(text@).offline is None,
        },
{
    match Event::parse_websocket(text) {
        Ok(EventsubWebsocketData::Notification {
            payload: Event::StreamOfflineV1(Payload { message: Message::Notification(event), .. }),
            ..
        }) => Some(StreamOffline {
            broadcaster_user_id: event.broadcaster_user_id.as_str().to_owned(),
            broadcaster_user_login: event.broadcaster_user_login.as_str().to_owned(),
        }),
        _ => None,
    }
}

/// A frame that could not be read.
#[derive(Clone, Copy, Debug, PartialEq, Eq, Structural)]
pub struct Unparseable;

/// The notification that a frame carries, given what was found in it of
/// each of the three kinds that are dealt with: the first that was found,
/// in the order chat, online, offline; `Other` where none was.
pub open spec fn notification_of(
    chat: Option<ChatMessageView>,
    online: Option<StreamOnlineView>,
    offline: Option<StreamOfflineView>,
) -> NotificationView {
    match (chat, online, offline) {
        (Some(payload), _, _) => NotificationView::ChatMessage { payload },
        (None, Some(payload), _) => NotificationView::StreamOnline { payload },
        (None, None, Some(payload)) => NotificationView::StreamOffline { payload },
        (None, None, None) => NotificationView::Other,
    }
}

/// The frame that a text is read as, given what `twitch_api` makes of it.
/// A notification of a kind that the crate has no type for is read as a
/// frame that is not dealt with; any other text that the crate cannot
/// parse is no frame.
pub open spec fn frame_of(parsed: ParsedFrame) -> Result<FrameView, Unparseable> {
    match parsed.outline {
        OutlineView::Unparseable => Err(Unparseable),
        OutlineView::Unimplemented => Ok(FrameView::Other),
        OutlineView::Welcome { session_id } => Ok(FrameView::Welcome { session_id }),
        OutlineView::Keepalive => Ok(FrameView::Keepalive),
        OutlineView::Reconnect { session_id, reconnect_url } => Ok(
            FrameView::Reconnect { session_id, reconnect_url },
        ),
        OutlineView::Revocation { subscription_type } => Ok(
            FrameView::Revocation { subscription_type },
        ),
        OutlineView::Notification { timestamp } => Ok(
            FrameView::Notification {
                timestamp,
                event: notification_of(parsed.chat, parsed.online, parsed.offline),
            },
        ),
        OutlineView::Other => Ok(FrameView::Other),
    }
}

/// The notification that a frame carries, given what was found in it of
/// each of the three kinds that are dealt with: the first that was found,
/// in the order chat, online, offline; `Other` where none was.
pub fn notification_from(
    chat: Option<ChatMessage>,
    online: Option<StreamOnline>,
    offline: Option<StreamOffline>,
) -> (event: Notification)
    ensures
        event == match (chat, online, offline) {
            (Some(payload), _, _) => Notification::ChatMessage { payload },
            (None, Some(payload), _) => Notification::StreamOnline { payload },
            (None, None, Some(payload)) => Notification::StreamOffline { payload },
            (None, None, None) => Notification::Other,
        },
{
    match chat {
        Some(payload) => Notification::ChatMessage { payload },
        None => match online {
            Some(payload) => Notification::StreamOnline { payload },
            None => match offline {
                Some(payload) => Notification::StreamOffline { payload },
                None => Notification::Other,
            },
        },
    }
}

/// The frame to work with, given what a text is as a frame and, for a
/// notification, what it tells of.
pub fn frame_from(outline: Outline, event: Notification) -> (frame: Result<Frame, Unparseable>)
    ensures
        frame == match outline {
            Outline::Unparseable => Err::<Frame, Unparseable>(Unparseable),
            Outline::Unimplemented => Ok(Frame::Other),
            Outline::Welcome { session_id } => Ok(Frame::Welcome { session_id }),
            Outline::Keepalive => Ok(Frame::Keepalive),
            Outline::Reconnect { session_id, reconnect_url } => Ok(
                Frame::Reconnect { session_id, reconnect_url },
            ),
            Outline::Revocation { subscription_type } => Ok(
                Frame::Revocation { subscription_type },
            ),
            Outline::Notification { timestamp } => Ok(Frame::Notification { timestamp, event }),
            Outline::Other => Ok(Frame::Other),
        },
{
    match outline {
        Outline::Unparseable => Err(Unparseable),
        Outline::Unimplemented => Ok(Frame::Other),
        Outline::Welcome { session_id } => Ok(Frame::Welcome { session_id }),
        Outline::Keepalive => Ok(Frame::Keepalive),
        Outline::Reconnect { session_id, reconnect_url } => Ok(
            Frame::Reconnect { session_id, reconnect_url },
        ),
        Outline::Revocation { subscription_type } => Ok(Frame::Revocation { subscription_type }),
        Outline::Notification { timestamp } => Ok(Frame::Notification { timestamp, event }),
        Outline::Other => Ok(Frame::Other),
    }
}

/// What a notification tells of, read from the text of its frame: a chat
/// message, else a going live, else a going offline, else something that
/// is not dealt with.
fn read_notification(text: &str) -> (event: Notification)
    ensures
        event@ == notification_of(
            parsed_frame(text@).chat,
            parsed_frame(text@).online,
            parsed_frame(text@).offline,
        ),
{
    let chat = chat_message(text);
    if chat.is_some() {
        return notification_from(chat, None, None);
    }
    let online = stream_online(text);
    if online.is_some() {
        return notification_from(None, online, None);
    }
    notification_from(None, None, stream_offline(text))
}

/// Reads a frame of the event feed from its text: the frame is what
/// `twitch_api` makes of the text, read as `frame_of` says. A notification
/// of a kind that the crate has no type for is read as `Frame::Other`; any
/// other text that it cannot parse is unparseable.
pub fn decode_frame(text: &str) -> (frame: Result<Frame, Unparseable>)
    ensures
        match frame {
            Ok(read) => frame_of(parsed_frame(text@)) == Ok::<FrameView, Unparseable>(read@),
            Err(fault) => frame_of(parsed_frame(text@)) == Err::<FrameView, Unparseable>(fault),
        },
{
    let outline = outline(text);
    let event = match &outline {
        Outline::Notification { .. } => read_notification(text),
        _ => Notification::Other,
    };
    frame_from(outline, event)
}

} // verus!
