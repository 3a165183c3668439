//! What the watcher does with each notification of the event feed.
//!
//! Each function takes what the feed told and what the registry holds, and
//! gives the writes that are to be made to the archive. A notification for
//! a channel that is not watched is passed over.

use vstd::prelude::*;
use crate::broadcaster::WatchedBroadcaster;
use crate::classify::{kind_from_text, vote_of};
use crate::database::Write;
use crate::entities::messages;
use crate::error::ArchiveError;
use crate::events::{ChatMessage, StreamOffline, StreamOnline};
use crate::gql::UserAndStreamByLoginStream;
use crate::ids::{id_from_text, message_id_from_text, number_of, parsed_uuid};
use crate::state::{State, StateModel};
use crate::time::{feed_time_format, parsed_time, timestamp_to_time};

verus! {

/// What follows from a channel going live: the write to be made, and the
/// registry afterwards. `stream` is what the archive says of the channel
/// now.
pub open spec fn stream_online_step(
    known: Map<i64, WatchedBroadcaster>,
    payload: StreamOnline,
    stream: Option<UserAndStreamByLoginStream>,
) -> (Result<Option<Write>, ArchiveError>, Map<i64, WatchedBroadcaster>) {
    match number_of(payload.broadcaster_user_id@) {
        None => (Err(ArchiveError::BadBroadcasterId), known),
        Some(id) => if !known.contains_key(id) {
            (Ok(None), known)
        } else {
            match stream {
                None => (Err(ArchiveError::StreamNotFound), known),
                Some(live) => match number_of(live.archive_video.id@) {
                    None => (Err(ArchiveError::BadBroadcastId), known),
                    Some(broadcast_id) => match parsed_time(
                        payload.started_at@,
                        feed_time_format(),
                    ) {
                        None => (Err(ArchiveError::BadTimestamp), known),
                        Some(started_at) => (
                            Ok(
                                Some(
                                    Write::StartBroadcast {
                                        broadcast_id,
                                        broadcaster_id: known[id].broadcaster.id,
                                        title: live.archive_video.title,
                                        started_at,
                                    },
                                ),
                            ),
                            known.insert(
                                id,
                                WatchedBroadcaster { current_broadcast: Some(live), ..known[id] },
                            ),
                        ),
                    },
                },
            }
        },
    }
}

/// What follows from a channel going offline at `timestamp`: the write to
/// be made, and the registry afterwards. The broadcast in progress is
/// ended by its identity; where the registry knows of none, the write
/// names none.
pub open spec fn stream_offline_step(
    known: Map<i64, WatchedBroadcaster>,
    timestamp: Seq<char>,
    payload: StreamOffline,
) -> (Result<Option<Write>, ArchiveError>, Map<i64, WatchedBroadcaster>) {
    match number_of(payload.broadcaster_user_id@) {
        None => (Err(ArchiveError::BadBroadcasterId), known),
        Some(id) => if !known.contains_key(id) {
            (Ok(None), known)
        } else {
            match parsed_time(timestamp, feed_time_format()) {
                None => (Err(ArchiveError::BadTimestamp), known),
                Some(ended_at) => if known[id].current_broadcast is Some
                    && known[id].broadcast_id() is None {
                    (Err(ArchiveError::BadBroadcastId), known)
                } else {
                    (
                        Ok(
                            Some(
                                Write::EndBroadcast {
                                    broadcaster_id: known[id].broadcaster.id,
                                    ended_at,
                                    broadcast_id: known[id].broadcast_id(),
                                },
                            ),
                        ),
                        known.insert(id, WatchedBroadcaster { current_broadcast: None, ..known[id] }),
                    )
                },
            }
        },
    }
}

/// What follows from a chat message that the feed stamped `sent_at`: the
/// writes to be made, the chatter first and then the message. There are
/// none for a channel that is not watched or not live, and none for a
/// message that casts no vote.
pub open spec fn chat_message_step(
    known: Map<i64, WatchedBroadcaster>,
    payload: ChatMessage,
    sent_at: Seq<char>,
) -> Result<Seq<Write>, ArchiveError> {
    match number_of(payload.broadcaster_user_id@) {
        None => Err(ArchiveError::BadBroadcasterId),
        Some(id) => if !known.contains_key(id) || known[id].current_broadcast is None {
            Ok(Seq::empty())
        } else {
            match vote_of(payload.text@, payload.text@) {
                None => Ok(Seq::empty()),
                Some(message_kind) => match number_of(payload.chatter_user_id@) {
                    None => Err(ArchiveError::BadChatterId),
                    Some(chatter_id) => match parsed_uuid(payload.message_id@) {
                        None => Err(ArchiveError::BadMessageId),
                        Some(message_id) => match known[id].broadcast_id() {
                            None => Err(ArchiveError::BadBroadcastId),
                            Some(broadcast_id) => match parsed_time(sent_at, feed_time_format()) {
                                None => Err(ArchiveError::BadTimestamp),
                                Some(at) => Ok(
                                    seq![
                                        Write::InsertChatter {
                                            id: chatter_id,
                                            display_name: payload.chatter_user_name,
                                        },
                                        Write::InsertMessage {
                                            row: messages::Model {
                                                id: message_id,
                                                broadcast_id,
                                                chatter_id,
                                                sent_at: at,
                                                message_kind,
                                            },
                                        },
                                    ],
                                ),
                            },
                        },
                    },
                },
            }
        },
    }
}

/// A watched channel went live: opens its broadcast, under the identity of
/// the archive video that records it, and remembers the stream.
pub fn on_stream_online(
    payload: &StreamOnline,
    state: &mut State,
    stream: Option<UserAndStreamByLoginStream>,
) -> (write: Result<Option<Write>, ArchiveError>)
    requires
        old(state).well_formed(),
    ensures
        final(state).well_formed(),
        (write, final(state).known()) == stream_online_step(
            old(state).known(),
            *payload,
            stream,
        ),
        final(state)@ == (StateModel { known: final(state).known(), ..old(state)@ }),
{
    let id = match id_from_text(payload.broadcaster_user_id.as_str()) {
        None => {
            return Err(ArchiveError::BadBroadcasterId);
        },
        Some(id) => id,
    };
    if state.broadcaster(id).is_none() {
        return Ok(None);
    }
    let live = match stream {
        None => {
            return Err(ArchiveError::StreamNotFound);
        },
        Some(live) => live,
    };
    let broadcast_id = match id_from_text(live.archive_video.id.as_str()) {
        None => {
            return Err(ArchiveError::BadBroadcastId);
        },
        Some(broadcast_id) => broadcast_id,
    };
    let started_at = match timestamp_to_time(payload.started_at.as_str()) {
        None => {
            return Err(ArchiveError::BadTimestamp);
        },
        Some(started_at) => started_at,
    };
    let title = live.archive_video.title.clone();
    state.set_current_broadcast(id, Some(live));
    Ok(Some(Write::StartBroadcast { broadcast_id, broadcaster_id: id, title, started_at }))
}

/// A watched channel went offline at `timestamp`: ends its broadcast and
/// forgets the stream.
pub fn on_stream_offline(timestamp: &str, payload: &StreamOffline, state: &mut State) -> (write:
    Result<Option<Write>, ArchiveError>)
    requires
        old(state).well_formed(),
    ensures
        final(state).well_formed(),
        (write, final(state).known()) == stream_offline_step(
            old(state).known(),
            timestamp@,
            *payload,
        ),
        final(state)@ == (StateModel { known: final(state).known(), ..old(state)@ }),
{
    let id = match id_from_text(payload.broadcaster_user_id.as_str()) {
        None => {
            return Err(ArchiveError::BadBroadcasterId);
        },
        Some(id) => id,
    };
    let broadcaster = match state.broadcaster(id) {
        None => {
            return Ok(None);
        },
        Some(broadcaster) => broadcaster,
    };
    let ended_at = match timestamp_to_time(timestamp) {
        None => {
            return Err(ArchiveError::BadTimestamp);
        },
        Some(ended_at) => ended_at,
    };
    let broadcast_id = match &broadcaster.current_broadcast {
        None => None,
        Some(stream) => match id_from_text(stream.archive_video.id.as_str()) {
            None => {
                return Err(ArchiveError::BadBroadcastId);
            },
            Some(broadcast_id) => Some(broadcast_id),
        },
    };
    state.set_current_broadcast(id, None);
    Ok(Some(Write::EndBroadcast { broadcaster_id: id, ended_at, broadcast_id }))
}

/// A chat message arrived, stamped `sent_at` by the feed: stores its vote,
/// if it casts one in a broadcast that is in progress.
pub fn on_chat_message(payload: &ChatMessage, sent_at: &str, state: &State) -> (writes: Result<
    Vec<Write>,
    ArchiveError,
>)
    ensures
        match chat_message_step(state.known(), *payload, sent_at@) {
            Ok(expected) => writes matches Ok(made) && made@ == expected,
            Err(fault) => writes == Err::<Vec<Write>, ArchiveError>(fault),
        },
{
    let mut writes: Vec<Write> = Vec::new();
    let id = match id_from_text(payload.broadcaster_user_id.as_str()) {
        None => {
            return Err(ArchiveError::BadBroadcasterId);
        },
        Some(id) => id,
    };
    let stream = match state.broadcaster(id) {
        None => {
            return Ok(writes);
        },
        Some(broadcaster) => match &broadcaster.current_broadcast {
            None => {
                return Ok(writes);
            },
            Some(stream) => stream,
        },
    };
    let message_kind = match kind_from_text(payload.text.as_str()) {
        None => {
            return Ok(writes);
        },
        Some(message_kind) => message_kind,
    };
    let chatter_id = match id_from_text(payload.chatter_user_id.as_str()) {
        None => {
            return Err(ArchiveError::BadChatterId);
        },
        Some(chatter_id) => chatter_id,
    };
    let message_id = match message_id_from_text(payload.message_id.as_str()) {
        None => {
            return Err(ArchiveError::BadMessageId);
        },
        Some(message_id) => message_id,
    };
    let broadcast_id = match id_from_text(stream.archive_video.id.as_str()) {
        None => {
            return Err(ArchiveError::BadBroadcastId);
        },
        Some(broadcast_id) => broadcast_id,
    };
    let at = match timestamp_to_time(sent_at) {
        None => {
            return Err(ArchiveError::BadTimestamp);
        },
        Some(at) => at,
    };
    writes.push(
        Write::InsertChatter { id: chatter_id, display_name: payload.chatter_user_name.clone() },
    );
    writes.push(
        Write::InsertMessage {
            row: messages::Model { id: message_id, broadcast_id, chatter_id, sent_at: at, message_kind },
        },
    );
    proof {
        assert(writes@ =~= chat_message_step(state.known(), *payload, sent_at@)->Ok_0);
    }
    Ok(writes)
}

} // verus!
