//! What can stop the archiver.

use vstd::prelude::*;

verus! {

/// A fault in what the platform sent. None of them is recovered from: the
/// step that met it is given up.
#[derive(Clone, Copy, Debug, PartialEq, Eq, Structural)]
pub enum ArchiveError {
    /// The identity of a broadcaster is not a number.
    BadBroadcasterId,
    /// The identity of an archive video is not a number.
    BadBroadcastId,
    /// The identity of a chatter is not a number.
    BadChatterId,
    /// The identity of a message is not an identifier.
    BadMessageId,
    /// A time is not written as the event feed writes times.
    BadTimestamp,
    /// A channel was announced live and has no stream.
    StreamNotFound,
    /// The end of a broadcast, reckoned from its length, cannot be held.
    EndOutOfRange,
}

} // verus!
