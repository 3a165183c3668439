//! Classification of chat messages into votes.

use vstd::prelude::*;
use crate::gql::{CommentsByVideoAndCursorFragment, CommentsByVideoAndCursorMessage};

verus! {

/// The vote a message casts.
#[derive(Clone, Copy, Debug, PartialEq, Eq, Structural)]
pub enum MessageKind {
    PlusTwo,
    MinusTwo,
}

impl MessageKind {
    /// The name under which the archive stores this kind.
    pub open spec fn name(self) -> Seq<char> {
        match self {
            MessageKind::PlusTwo => "plus_two"@,
            MessageKind::MinusTwo => "minus_two"@,
        }
    }

    /// The name under which the archive stores this kind.
    pub fn as_str(&self) -> (name: &'static str)
        ensures
            name@ == self.name(),
    {
        match self {
            MessageKind::PlusTwo => "plus_two",
            MessageKind::MinusTwo => "minus_two",
        }
    }
}

/// The token of an upvote.
pub open spec fn plus_token() -> Seq<char> {
    seq!['+', '2']
}

/// The token of a downvote.
pub open spec fn minus_token() -> Seq<char> {
    seq!['-', '2']
}

/// The vote cast by a message that opens with `head` and closes with `tail`.
///
/// The upvote is looked for first, at both ends, so a message that opens with
/// one token and closes with the other counts as an upvote.
pub open spec fn vote_of(head: Seq<char>, tail: Seq<char>) -> Option<MessageKind> {
    if plus_token().is_prefix_of(head) || plus_token().is_suffix_of(tail) {
        Some(MessageKind::PlusTwo)
    } else if minus_token().is_prefix_of(head) || minus_token().is_suffix_of(tail) {
        Some(MessageKind::MinusTwo)
    } else {
        None
    }
}

/// The texts of a message's fragments, in order.
pub open spec fn fragment_texts(fragments: Seq<CommentsByVideoAndCursorFragment>) -> Seq<
    Seq<char>,
> {
    fragments.map_values(|f: CommentsByVideoAndCursorFragment| f.text@)
}

/// The vote cast by a message given as the texts of its fragments: none for
/// a message without fragments, else the vote of its first and last text.
pub open spec fn classify(texts: Seq<Seq<char>>) -> Option<MessageKind> {
    if texts.len() == 0 {
        None
    } else {
        vote_of(texts.first(), texts.last())
    }
}

impl CommentsByVideoAndCursorMessage {
    /// The texts of the fragments, in order.
    pub open spec fn texts(&self) -> Seq<Seq<char>> {
        fragment_texts(self.fragments@)
    }
}

/// `str::starts_with` with a string pattern: whether `pattern` is a prefix of
/// `text`, character by character.
#[verifier::external_body]
fn starts_with(text: &str, pattern: &str) -> (found: bool)
    ensures
        found == pattern@.is_prefix_of(text@),
{
    text.starts_with(pattern)
}

/// `str::ends_with` with a string pattern: whether `pattern` is a suffix of
/// `text`, character by character.
#[verifier::external_body]
fn ends_with(text: &str, pattern: &str) -> (found: bool)
    ensures
        found == pattern@.is_suffix_of(text@),
{
    text.ends_with(pattern)
}

/// Classifies a text by its two ends.
pub fn kind_from_ends(head: &str, tail: &str) -> (kind: Option<MessageKind>)
    ensures
        kind == vote_of(head@, tail@),
{
    proof {
        reveal_strlit("+2");
        reveal_strlit("-2");
        assert("+2"@ =~= plus_token());
        assert("-2"@ =~= minus_token());
    }
    if starts_with(head, "+2") || ends_with(tail, "+2") {
        Some(MessageKind::PlusTwo)
    } else if starts_with(head, "-2") || ends_with(tail, "-2") {
        Some(MessageKind::MinusTwo)
    } else {
        None
    }
}

/// Classifies a live chat message, which arrives as one text.
pub fn kind_from_text(text: &str) -> (kind: Option<MessageKind>)
    ensures
        kind == vote_of(text@, text@),
        kind == classify(seq![text@]),
{
    kind_from_ends(text, text)
}

/// Classifies an archived comment by its first and last fragment.
pub fn kind_from_message(message: &CommentsByVideoAndCursorMessage) -> (kind: Option<MessageKind>)
    ensures
        kind == classify(message.texts()),
{
    let n = message.fragments.len();
    if n == 0 {
        return None;
    }
    let head = &message.fragments[0];
    let tail = &message.fragments[n - 1];
    kind_from_ends(head.text.as_str(), tail.text.as_str())
}

} // verus!
