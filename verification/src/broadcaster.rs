//! One watched channel: whether it is live, and whether its events are
//! subscribed to.

use vstd::prelude::*;
use crate::catchup::{any_unattributable, stage_comments, staged_chatters, staged_messages};
use crate::database::Write;
use crate::entities::broadcasters;
use crate::error::ArchiveError;
use crate::events::{Subscription, SubscriptionKind};
use crate::gql::{CommentsByVideoAndCursorComment, UserAndStreamByLoginStream};
use crate::ids::{id_from_text, number_of};

verus! {

/// The number of subscriptions that watching a channel takes.
pub const SUBSCRIPTIONS_PER_BROADCASTER: usize = 3;

/// A channel that is watched, or about to be.
#[derive(Debug, PartialEq, Eq)]
pub struct WatchedBroadcaster {
    pub broadcaster: broadcasters::Model,
    pub current_broadcast: Option<UserAndStreamByLoginStream>,
    pub is_watching: bool,
}

impl WatchedBroadcaster {
    /// The identity of the broadcast in progress: none while the channel is
    /// offline, and none where the archive video's identity is not a
    /// number.
    pub open spec fn broadcast_id(&self) -> Option<i64> {
        match self.current_broadcast {
            Some(stream) => number_of(stream.archive_video.id@),
            None => None,
        }
    }

    /// The subscriptions that watching this channel takes: none if it is
    /// watched already, else one for going live, one for going offline and
    /// one for chat, in this order.
    pub fn watch(&self, session_id: &str, watcher_id: &str) -> (requests: Vec<Subscription>)
        ensures
            self.is_watching ==> requests@.len() == 0,
            !self.is_watching ==> {
                &&& requests@.len() == SUBSCRIPTIONS_PER_BROADCASTER
                &&& requests@[0].asks(
                    SubscriptionKind::StreamOnline,
                    self.broadcaster.id,
                    session_id@,
                    watcher_id@,
                )
                &&& requests@[1].asks(
                    SubscriptionKind::StreamOffline,
                    self.broadcaster.id,
                    session_id@,
                    watcher_id@,
                )
                &&& requests@[2].asks(
                    SubscriptionKind::ChannelChatMessage,
                    self.broadcaster.id,
                    session_id@,
                    watcher_id@,
                )
            },
    {
        let mut requests: Vec<Subscription> = Vec::new();
        if self.is_watching {
            return requests;
        }
        requests.push(
            Subscription {
                kind: SubscriptionKind::StreamOnline,
                broadcaster_id: self.broadcaster.id,
                session_id: session_id.to_owned(),
                watcher_id: watcher_id.to_owned(),
            },
        );
        requests.push(
            Subscription {
                kind: SubscriptionKind::StreamOffline,
                broadcaster_id: self.broadcaster.id,
                session_id: session_id.to_owned(),
                watcher_id: watcher_id.to_owned(),
            },
        );
        requests.push(
            Subscription {
                kind: SubscriptionKind::ChannelChatMessage,
                broadcaster_id: self.broadcaster.id,
                session_id: session_id.to_owned(),
                watcher_id: watcher_id.to_owned(),
            },
        );
        requests
    }

    /// Records how many of the subscriptions were confirmed: the channel
    /// counts as watched once all of them are.
    pub fn mark_watched(&mut self, confirmed: usize)
        ensures
            final(self).is_watching == (old(self).is_watching || confirmed
                >= SUBSCRIPTIONS_PER_BROADCASTER),
            final(self).broadcaster == old(self).broadcaster,
            final(self).current_broadcast == old(self).current_broadcast,
    {
        if confirmed >= SUBSCRIPTIONS_PER_BROADCASTER {
            self.is_watching = true;
        }
    }

    /// The first write of a catch-up: it opens the broadcast in progress at
    /// the time its archive video was created. There is none while the
    /// channel is offline.
    pub fn catchup_start(&self) -> (start: Result<Option<Write>, ArchiveError>)
        ensures
            match self.current_broadcast {
                None => start matches Ok(None),
                Some(stream) => match number_of(stream.archive_video.id@) {
                    None => start matches Err(ArchiveError::BadBroadcastId),
                    Some(broadcast_id) => start matches Ok(Some(write)) && write == (
                    Write::StartBroadcast {
                        broadcast_id,
                        broadcaster_id: self.broadcaster.id,
                        title: stream.archive_video.title,
                        started_at: stream.archive_video.created_at,
                    }),
                },
            },
    {
        match &self.current_broadcast {
            None => Ok(None),
            Some(stream) => match id_from_text(stream.archive_video.id.as_str()) {
                None => Err(ArchiveError::BadBroadcastId),
                Some(broadcast_id) => Ok(
                    Some(
                        Write::StartBroadcast {
                            broadcast_id,
                            broadcaster_id: self.broadcaster.id,
                            title: stream.archive_video.title.clone(),
                            started_at: stream.archive_video.created_at,
                        },
                    ),
                ),
            },
        }
    }

    /// The writes that complete a catch-up, given the comments that the
    /// archive holds for the broadcast in progress: first the chatters,
    /// then the messages, each as one batch. There are none while the
    /// channel is offline. A catch-up never ends a broadcast.
    pub fn catchup(&self, comments: Vec<CommentsByVideoAndCursorComment>) -> (writes: Result<
        Vec<Write>,
        ArchiveError,
    >)
        ensures
            match self.current_broadcast {
                None => writes matches Ok(none) && none@.len() == 0,
                Some(stream) => match number_of(stream.archive_video.id@) {
                    None => writes matches Err(ArchiveError::BadBroadcastId),
                    Some(broadcast_id) => if any_unattributable(comments@) {
                        writes matches Err(ArchiveError::BadChatterId)
                    } else {
                        &&& writes matches Ok(batches)
                        &&& batches@.len() == 2
                        &&& batches@[0] matches Write::InsertManyChatters { rows }
                        &&& rows@ == staged_chatters(comments@)
                        &&& batches@[1] matches Write::InsertManyMessages { rows }
                        &&& rows@ == staged_messages(broadcast_id, comments@)
                    },
                },
            },
    {
        let mut writes: Vec<Write> = Vec::new();
        match &self.current_broadcast {
            None => Ok(writes),
            Some(stream) => match id_from_text(stream.archive_video.id.as_str()) {
                None => Err(ArchiveError::BadBroadcastId),
                Some(broadcast_id) => match stage_comments(broadcast_id, comments) {
                    Err(fault) => Err(fault),
                    Ok(staged) => {
                        writes.push(Write::InsertManyChatters { rows: staged.chatters });
                        writes.push(Write::InsertManyMessages { rows: staged.messages });
                        Ok(writes)
                    },
                },
            },
        }
    }
}

} // verus!
