//! What the archive answers: videos, comments, and whether a channel is
//! live.

use vstd::prelude::*;
use crate::shared::{QueryConnection, TwitchVideo};
use crate::time::Timestamp;

verus! {

/// An answer about one user.
#[derive(Debug, PartialEq, Eq)]
pub struct UserQueryResponse<T> {
    pub user: T,
}

/// A user's archive videos, one page of them.
#[derive(Debug, PartialEq, Eq)]
pub struct VideosByUserAndCursorUser {
    pub videos: QueryConnection<TwitchVideo>,
}

/// An answer about the comments of one video.
#[derive(Debug, PartialEq, Eq)]
pub struct CommentsByVideoAndCursorQueryResponse {
    pub video: CommentsByVideoAndCursorVideo,
}

/// A video's comments, one page of them.
#[derive(Debug, PartialEq, Eq)]
pub struct CommentsByVideoAndCursorVideo {
    pub comments: QueryConnection<CommentsByVideoAndCursorComment>,
}

/// A comment of the archive. Its author is absent where the account is
/// gone.
#[derive(Debug, PartialEq, Eq)]
pub struct CommentsByVideoAndCursorComment {
    pub commenter: Option<CommentsByVideoAndCursorUser>,
    pub created_at: Timestamp,
    pub id: u128,
    pub message: CommentsByVideoAndCursorMessage,
}

/// The author of a comment; the identity is a number written in decimal.
#[derive(Debug, PartialEq, Eq)]
pub struct CommentsByVideoAndCursorUser {
    pub display_name: String,
    pub id: String,
}

/// The body of a comment, as the fragments it was sent in.
#[derive(Debug, PartialEq, Eq)]
pub struct CommentsByVideoAndCursorMessage {
    pub fragments: Vec<CommentsByVideoAndCursorFragment>,
}

/// One piece of a message: plain text, or the text that stands for an emote.
#[derive(Debug, PartialEq, Eq)]
pub struct CommentsByVideoAndCursorFragment {
    pub text: String,
}

/// A channel, and its stream where it is live.
#[derive(Debug, PartialEq, Eq)]
pub struct UserAndStreamByLogin {
    pub id: String,
    pub profile_image_url: String,
    pub broadcast_settings: UserAndStreamByLoginBroadcastSettings,
    pub stream: Option<UserAndStreamByLoginStream>,
}

/// What a channel has set for its broadcasts.
#[derive(Debug, PartialEq, Eq)]
pub struct UserAndStreamByLoginBroadcastSettings {
    pub title: String,
}

/// A stream in progress, with the archive video that records it.
#[derive(Debug, PartialEq, Eq)]
pub struct UserAndStreamByLoginStream {
    pub id: String,
    pub archive_video: TwitchVideo,
}

} // verus!
