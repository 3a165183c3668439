//! The shapes that every paginated answer of the archive shares.

use vstd::prelude::*;
use crate::time::Timestamp;

verus! {

/// An answer of the archive: the data asked for and notes on the request.
#[derive(Debug, PartialEq, Eq)]
pub struct QueryResponse<T> {
    pub data: T,
    pub extensions: QueryExtensions,
}

/// What the archive reports about a request it has served.
#[derive(Debug, PartialEq, Eq)]
pub struct QueryExtensions {
    pub duration_milliseconds: usize,
    pub request_id: String,
}

/// One page of a paginated resource.
#[derive(Debug, PartialEq, Eq)]
pub struct QueryConnection<T> {
    pub edges: Vec<QueryEdge<T>>,
    pub page_info: QueryPageInfo,
    pub total_count: usize,
}

/// One item of a page, with the cursor that marks the place after it.
#[derive(Debug, PartialEq, Eq)]
pub struct QueryEdge<T> {
    pub cursor: Option<String>,
    pub node: T,
}

/// Whether a page is followed by another.
#[derive(Debug, PartialEq, Eq)]
pub struct QueryPageInfo {
    pub has_next_page: bool,
}

/// An archive video: the recording of one broadcast.
#[derive(Debug, PartialEq, Eq)]
pub struct TwitchVideo {
    pub created_at: Timestamp,
    pub id: String,
    pub title: String,
    pub length_seconds: u64,
}

/// A cursor as the text it holds, if any.
pub open spec fn cursor_text(cursor: Option<String>) -> Option<Seq<char>> {
    match cursor {
        Some(text) => Some(text@),
        None => None,
    }
}

/// The items that a run of edges carries, in order.
pub open spec fn nodes_of<T>(edges: Seq<QueryEdge<T>>) -> Seq<T> {
    edges.map_values(|edge: QueryEdge<T>| edge.node)
}

impl<T> QueryConnection<T> {
    /// The items of this page, in order.
    pub open spec fn nodes(&self) -> Seq<T> {
        nodes_of(self.edges@)
    }

    /// The cursor to ask the next page with, given the one this page was
    /// asked with: that of the page's last edge, or the old one if the page
    /// is empty.
    pub open spec fn cursor_after(&self, before: Option<Seq<char>>) -> Option<Seq<char>> {
        if self.edges@.len() == 0 {
            before
        } else {
            cursor_text(self.edges@.last().cursor)
        }
    }
}

} // verus!
