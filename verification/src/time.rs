//! Points in time, as the archive and the event feed give them.

use vstd::prelude::*;

verus! {

/// A point in time in UTC: whole seconds since the Unix epoch and the
/// nanoseconds into that second.
#[derive(Clone, Copy, Debug, PartialEq, Eq, Structural)]
pub struct Timestamp {
    pub secs: i64,
    pub nanos: u32,
}

/// The layout of the timestamps that the event feed sends.
pub open spec fn feed_time_format() -> Seq<char> {
    "%Y-%m-%dT%H:%M:%S%.f%Z"@
}

/// What `chrono::NaiveDateTime::parse_from_str` makes of `text` under
/// `format`, read as a time in UTC; `None` where it reports an error.
pub uninterp spec fn parsed_time(text: Seq<char>, format: Seq<char>) -> Option<Timestamp>;

impl Timestamp {
    /// Whether this time comes before `other`.
    pub open spec fn is_before(self, other: Timestamp) -> bool {
        self.secs < other.secs || (self.secs == other.secs && self.nanos < other.nanos)
    }

    /// Whether this time comes before `other`.
    pub fn precedes(self, other: Timestamp) -> (before: bool)
        ensures
            before == self.is_before(other),
    {
        self.secs < other.secs || (self.secs == other.secs && self.nanos < other.nanos)
    }

    /// The time `seconds` after this one, if its seconds fit.
    pub open spec fn plus_seconds(self, seconds: u64) -> Option<Timestamp> {
        if self.secs + seconds <= i64::MAX {
            Some(Timestamp { secs: (self.secs + seconds) as i64, nanos: self.nanos })
        } else {
            None
        }
    }

    /// The time `seconds` after this one; `None` if it cannot be held.
    pub fn after_seconds(self, seconds: u64) -> (later: Option<Timestamp>)
        ensures
            later == self.plus_seconds(seconds),
    {
        let sum: i128 = self.secs as i128 + seconds as i128;
        if sum <= i64::MAX as i128 {
            Some(Timestamp { secs: sum as i64, nanos: self.nanos })
        } else {
            None
        }
    }
}

/// Calls `chrono::NaiveDateTime::parse_from_str` and hands the time out as
/// seconds and nanoseconds. The contract only names what chrono returns.
#[verifier::external_body]
fn parse_naive(text: &str, format: &str) -> (time: Option<Timestamp>)
    ensures
        time == parsed_time(text@, format@),
{
    match chrono::NaiveDateTime::parse_from_str(text, format) {
        Ok(time) => Some(
            Timestamp {
                secs: time.and_utc().timestamp(),
                nanos: time.and_utc().timestamp_subsec_nanos(),
            },
        ),
        Err(_) => None,
    }
}

/// Reads a timestamp of the event feed.
pub fn timestamp_to_time(text: &str) -> (time: Option<Timestamp>)
    ensures
        time == parsed_time(text@, feed_time_format()),
{
    parse_naive(text, "%Y-%m-%dT%H:%M:%S%.f%Z")
}

} // verus!
