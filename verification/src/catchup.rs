//! Catching up on a broadcast in progress: from the comments that the
//! archive holds to the rows that are to be stored.

use vstd::prelude::*;
use crate::classify::{classify, kind_from_message, MessageKind};
use crate::database::{chatter_ids, refresh_chatter, with_chatter_refreshed};
use crate::entities::{chatters, messages};
use crate::error::ArchiveError;
use crate::gql::CommentsByVideoAndCursorComment;
use crate::ids::{id_from_text, number_of};

verus! {

/// The vote that a comment casts: none where its author is gone, else what
/// its message is classified as.
pub open spec fn vote_in(comment: CommentsByVideoAndCursorComment) -> Option<MessageKind> {
    if comment.commenter is None {
        None
    } else {
        classify(comment.message.texts())
    }
}

/// The identity of a comment's author, where the comment has an author
/// whose identity is a number.
pub open spec fn author_of(comment: CommentsByVideoAndCursorComment) -> Option<i64> {
    match comment.commenter {
        Some(user) => number_of(user.id@),
        None => None,
    }
}

/// Whether a comment casts a vote and cannot be attributed.
pub open spec fn is_unattributable(comment: CommentsByVideoAndCursorComment) -> bool {
    vote_in(comment) is Some && author_of(comment) is None
}

/// Whether one of `comments` casts a vote and cannot be attributed.
pub open spec fn any_unattributable(comments: Seq<CommentsByVideoAndCursorComment>) -> bool {
    exists|i: int| 0 <= i < comments.len() && is_unattributable(#[trigger] comments[i])
}

/// The message rows for the votes among `comments`, in the order of the
/// comments. A comment without an author or without a vote gives none.
pub open spec fn staged_messages(
    broadcast_id: i64,
    comments: Seq<CommentsByVideoAndCursorComment>,
) -> Seq<messages::Model>
    decreases comments.len(),
{
    if comments.len() == 0 {
        Seq::empty()
    } else {
        let earlier = staged_messages(broadcast_id, comments.drop_last());
        let comment = comments.last();
        match (vote_in(comment), author_of(comment)) {
            (Some(message_kind), Some(chatter_id)) => earlier.push(
                messages::Model {
                    id: comment.id,
                    broadcast_id,
                    chatter_id,
                    sent_at: comment.created_at,
                    message_kind,
                },
            ),
            _ => earlier,
        }
    }
}

/// The chatter rows for the authors of the votes among `comments`: one
/// row for each author, in the order of first appearance, under the name
/// that the author's latest vote came with.
pub open spec fn staged_chatters(comments: Seq<CommentsByVideoAndCursorComment>) -> Seq<
    chatters::Model,
>
    decreases comments.len(),
{
    if comments.len() == 0 {
        Seq::empty()
    } else {
        let earlier = staged_chatters(comments.drop_last());
        let comment = comments.last();
        match (vote_in(comment), author_of(comment)) {
            (Some(_), Some(id)) => with_chatter_refreshed(
                earlier,
                chatters::Model { id, display_name: comment.commenter->0.display_name },
            ),
            _ => earlier,
        }
    }
}

/// The rows that a catch-up is about to store.
#[derive(Debug, PartialEq, Eq)]
pub struct Staged {
    pub chatters: Vec<chatters::Model>,
    pub messages: Vec<messages::Model>,
}

/// Goes through the comments of a broadcast and stages the rows for the
/// votes among them. A comment whose author is gone is passed over, and so
/// is one that casts no vote. A vote whose author's identity is not a
/// number gives the whole catch-up up.
pub fn stage_comments(broadcast_id: i64, comments: Vec<CommentsByVideoAndCursorComment>) -> (staged:
    Result<Staged, ArchiveError>)
    ensures
        match staged {
            Ok(rows) => {
                &&& !any_unattributable(comments@)
                &&& rows.messages@ == staged_messages(broadcast_id, comments@)
                &&& rows.chatters@ == staged_chatters(comments@)
                &&& chatter_ids(rows.chatters@).no_duplicates()
            },
            Err(fault) => fault == ArchiveError::BadChatterId && any_unattributable(comments@),
        },
{
    let ghost all = comments@;
    let mut staged_chatters: Vec<chatters::Model> = Vec::new();
    let mut staged_messages: Vec<messages::Model> = Vec::new();
    for comment in it: comments
        invariant
            it.seq() == all,
            !any_unattributable(all.take(it.index() as int)),
            staged_messages@ == self::staged_messages(broadcast_id, all.take(it.index() as int)),
            staged_chatters@ == self::staged_chatters(all.take(it.index() as int)),
            chatter_ids(staged_chatters@).no_duplicates(),
    {
        let ghost i = it.index() as int;
        let ghost seen = all.take(i);
        let ghost next = all.take(i + 1);
        proof {
            assert(next.drop_last() =~= seen);
            assert(next.last() == comment);
            assert(all[i] == comment);
        }
        let CommentsByVideoAndCursorComment { commenter, created_at, id, message } = comment;
        let vote = match &commenter {
            Some(_) => kind_from_message(&message),
            None => None,
        };
        let mut attributable = true;
        if let Some(message_kind) = vote {
            if let Some(user) = commenter {
                match id_from_text(user.id.as_str()) {
                    Some(chatter_id) => {
                        refresh_chatter(
                            &mut staged_chatters,
                            chatters::Model { id: chatter_id, display_name: user.display_name },
                        );
                        staged_messages.push(
                            messages::Model {
                                id,
                                broadcast_id,
                                chatter_id,
                                sent_at: created_at,
                                message_kind,
                            },
                        );
                    },
                    None => {
                        attributable = false;
                    },
                }
            }
        }
        if !attributable {
            proof {
                assert(is_unattributable(all[i]));
            }
            return Err(ArchiveError::BadChatterId);
        }
        proof {
            assert(!is_unattributable(all[i]));
            assert forall|j: int| 0 <= j < next.len() implies !is_unattributable(
                #[trigger] next[j],
            ) by {
                if j < i {
                    assert(seen[j] == next[j]);
                }
            }
        }
    }
    proof {
        assert(all.take(all.len() as int) =~= all);
    }
    Ok(Staged { chatters: staged_chatters, messages: staged_messages })
}

} // verus!
