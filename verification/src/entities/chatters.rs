//! Chatters: the authors of archived messages.

use vstd::prelude::*;

verus! {

/// A chatter, under the number that the platform gave it.
#[derive(Clone, Debug, PartialEq, Eq)]
pub struct Model {
    pub id: i64,
    pub display_name: String,
}

} // verus!
