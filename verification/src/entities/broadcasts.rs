//! Broadcasts: one row for each time a broadcaster went live.

use vstd::prelude::*;
use crate::time::Timestamp;

verus! {

/// A broadcast, under the number of its archive video. It is open while
/// it has no end.
#[derive(Clone, Debug, PartialEq, Eq)]
pub struct Model {
    pub id: i64,
    pub broadcaster_id: i64,
    pub title: String,
    pub started_at: Timestamp,
    pub ended_at: Option<Timestamp>,
}

impl Model {
    /// Whether the broadcast has not ended yet.
    pub open spec fn is_open(&self) -> bool {
        self.ended_at is None
    }

    /// Whether this is a broadcast of `broadcaster_id` that has not ended.
    pub open spec fn is_open_for(&self, broadcaster_id: i64) -> bool {
        self.is_open() && self.broadcaster_id == broadcaster_id
    }

    /// This broadcast with its start set to `started_at`.
    pub open spec fn restarted(self, started_at: Timestamp) -> Model {
        Model { started_at, ..self }
    }

    /// This broadcast with its end set to `ended_at`.
    pub open spec fn ended(self, ended_at: Timestamp) -> Model {
        Model { ended_at: Some(ended_at), ..self }
    }
}

} // verus!
