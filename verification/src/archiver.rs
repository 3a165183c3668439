//! Archiving the broadcasts that are over: one archive video at a time,
//! from its comments to the writes that store it.

use vstd::prelude::*;
use crate::catchup::{any_unattributable, stage_comments, staged_chatters, staged_messages};
use crate::database::Write;
use crate::entities::broadcasts;
use crate::error::ArchiveError;
use crate::gql::CommentsByVideoAndCursorComment;
use crate::ids::{id_from_text, number_of};
use crate::shared::TwitchVideo;

verus! {

/// Whether the video `video_id` is the one of the stream in progress.
pub fn is_live_video(video_id: &String, live_video_id: Option<&String>) -> (live: bool)
    ensures
        live == match live_video_id {
            Some(id) => id@ == video_id@,
            None => false,
        },
{
    match live_video_id {
        Some(id) => *id == *video_id,
        None => false,
    }
}

/// Whether the broadcast of a video is stored with an end, so that the
/// video has been archived before.
pub fn is_archived(stored: Option<&broadcasts::Model>) -> (archived: bool)
    ensures
        archived == (stored matches Some(row) && row.ended_at is Some),
{
    match stored {
        Some(row) => row.ended_at.is_some(),
        None => false,
    }
}

/// The writes that archive one video of the broadcaster `broadcaster_id`,
/// given the comments that the archive holds for it: the broadcast is
/// opened at the time the video was created, the chatters and the
/// messages are stored as one batch each, and the broadcast is ended by
/// its identity at the time that the video's length gives.
pub fn archive_video(
    broadcaster_id: i64,
    video: &TwitchVideo,
    comments: Vec<CommentsByVideoAndCursorComment>,
) -> (writes: Result<Vec<Write>, ArchiveError>)
    ensures
        match number_of(video.id@) {
            None => writes matches Err(ArchiveError::BadBroadcastId),
            Some(broadcast_id) => if any_unattributable(comments@) {
                writes matches Err(ArchiveError::BadChatterId)
            } else {
                match video.created_at.plus_seconds(video.length_seconds) {
                    None => writes matches Err(ArchiveError::EndOutOfRange),
                    Some(ended_at) => {
                        &&& writes matches Ok(made)
                        &&& made@.len() == 4
                        &&& made@[0] == (Write::StartBroadcast {
                            broadcast_id,
                            broadcaster_id,
                            title: video.title,
                            started_at: video.created_at,
                        })
                        &&& made@[1] matches Write::InsertManyChatters { rows }
                        &&& rows@ == staged_chatters(comments@)
                        &&& made@[2] matches Write::InsertManyMessages { rows }
                        &&& rows@ == staged_messages(broadcast_id, comments@)
                        &&& made@[3] == (Write::EndBroadcast {
                            broadcaster_id,
                            ended_at,
                            broadcast_id: Some(broadcast_id),
                        })
                    },
                }
            },
        },
{
    let broadcast_id = match id_from_text(video.id.as_str()) {
        None => {
            return Err(ArchiveError::BadBroadcastId);
        },
        Some(broadcast_id) => broadcast_id,
    };
    let staged = match stage_comments(broadcast_id, comments) {
        Err(fault) => {
            return Err(fault);
        },
        Ok(staged) => staged,
    };
    let ended_at = match video.created_at.after_seconds(video.length_seconds) {
        None => {
            return Err(ArchiveError::EndOutOfRange);
        },
        Some(ended_at) => ended_at,
    };
    let mut writes: Vec<Write> = Vec::new();
    writes.push(
        Write::StartBroadcast {
            broadcast_id,
            broadcaster_id,
            title: video.title.clone(),
            started_at: video.created_at,
        },
    );
    writes.push(Write::InsertManyChatters { rows: staged.chatters });
    writes.push(Write::InsertManyMessages { rows: staged.messages });
    writes.push(Write::EndBroadcast { broadcaster_id, ended_at, broadcast_id: Some(broadcast_id) });
    Ok(writes)
}

} // verus!
