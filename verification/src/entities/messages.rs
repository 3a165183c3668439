//! Messages: the votes that were cast in chat.

use vstd::prelude::*;
use crate::classify::MessageKind;
use crate::time::Timestamp;

verus! {

/// A vote, under the identifier of the message that cast it. A message has
/// one identifier, whether it was read from the archive or heard live.
#[derive(Clone, Copy, Debug, PartialEq, Eq, Structural)]
pub struct Model {
    pub id: u128,
    pub broadcast_id: i64,
    pub chatter_id: i64,
    pub sent_at: Timestamp,
    pub message_kind: MessageKind,
}

} // verus!
