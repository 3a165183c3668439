//! The watch registry: the channels that are watched, and the session they
//! are subscribed through.

use std::collections::HashMap;
use vstd::prelude::*;
use vstd::std_specs::hash::*;
use crate::broadcaster::WatchedBroadcaster;
use crate::entities::broadcasters;
use crate::error::ArchiveError;
use crate::gql::UserAndStreamByLoginStream;
use crate::ids::{id_from_text, number_of};

verus! {

broadcast use vstd::std_specs::hash::group_hash_axioms;

/// The seconds between two looks at the list of broadcasters.
pub const BROADCASTER_REFRESH_RATE: u64 = 30 * 60;

/// The broadcasters of `listed` that `known` does not hold, in the order
/// of the list.
pub open spec fn newcomers(
    known: Map<i64, WatchedBroadcaster>,
    listed: Seq<broadcasters::Model>,
) -> Seq<broadcasters::Model>
    decreases listed.len(),
{
    if listed.len() == 0 {
        Seq::empty()
    } else if known.contains_key(listed.last().id) {
        newcomers(known, listed.drop_last())
    } else {
        newcomers(known, listed.drop_last()).push(listed.last())
    }
}

/// Whether every channel of `known` is filed under its own identity.
pub open spec fn filed_by_identity(known: Map<i64, WatchedBroadcaster>) -> bool {
    forall|id: i64| #[trigger] known.contains_key(id) ==> known[id].broadcaster.id == id
}

/// Compares the list of broadcasters with the channels that are watched,
/// and returns those that are not watched yet, in the order of the list.
pub fn fetch_new_broadcasters(
    broadcasters: &HashMap<i64, WatchedBroadcaster>,
    listed: Vec<broadcasters::Model>,
) -> (fresh: Vec<broadcasters::Model>)
    ensures
        fresh@ == newcomers(broadcasters@, listed@),
{
    let ghost all = listed@;
    let mut fresh: Vec<broadcasters::Model> = Vec::new();
    for broadcaster in it: listed
        invariant
            it.seq() == all,
            fresh@ == newcomers(broadcasters@, all.take(it.index() as int)),
    {
        proof {
            assert(all.take(it.index() + 1).drop_last() =~= all.take(it.index() as int));
        }
        if !broadcasters.contains_key(&broadcaster.id) {
            fresh.push(broadcaster);
        }
    }
    proof {
        assert(all.take(all.len() as int) =~= all);
    }
    fresh
}

/// What the event loop owns: the watched channels, when the list of
/// broadcasters was last looked at, the session of the event feed, and the
/// user on whose behalf chat is read.
pub struct State {
    broadcasters: HashMap<i64, WatchedBroadcaster>,
    last_broadcaster_check: u64,
    session_id: String,
    watcher_id: String,
}

/// What the event loop owns, as plain values.
pub struct StateModel {
    /// The watched channels, each under its identity.
    pub known: Map<i64, WatchedBroadcaster>,
    /// The reading of the clock at the last look at the list.
    pub last_broadcaster_check: u64,
    /// The session of the event feed.
    pub session_id: String,
    /// The user on whose behalf chat is read.
    pub watcher_id: String,
}

impl View for State {
    type V = StateModel;

    closed spec fn view(&self) -> StateModel {
        StateModel {
            known: self.broadcasters@,
            last_broadcaster_check: self.last_broadcaster_check,
            session_id: self.session_id,
            watcher_id: self.watcher_id,
        }
    }
}

impl State {
    /// The watched channels, each under its identity.
    pub open spec fn known(&self) -> Map<i64, WatchedBroadcaster> {
        self@.known
    }

    /// The reading of the clock at the last look at the list.
    pub fn last_broadcaster_check(&self) -> (at: u64)
        ensures
            at == self@.last_broadcaster_check,
    {
        self.last_broadcaster_check
    }

    /// The session of the event feed; empty before the first welcome.
    pub fn session_id(&self) -> (session_id: &String)
        ensures
            *session_id == self@.session_id,
    {
        &self.session_id
    }

    /// The user on whose behalf chat is read.
    pub fn watcher_id(&self) -> (watcher_id: &String)
        ensures
            *watcher_id == self@.watcher_id,
    {
        &self.watcher_id
    }

    /// Whether every watched channel is filed under its own identity.
    pub open spec fn well_formed(&self) -> bool {
        filed_by_identity(self.known())
    }

    /// The watched channels, each under its identity.
    pub fn broadcasters(&self) -> (known: &HashMap<i64, WatchedBroadcaster>)
        ensures
            known@ == self.known(),
    {
        &self.broadcasters
    }

    /// The watched channel `id`, if there is one.
    pub fn broadcaster(&self, id: i64) -> (found: Option<&WatchedBroadcaster>)
        ensures
            match found {
                Some(broadcaster) => self.known().contains_key(id) && *broadcaster
                    == self.known()[id],
                None => !self.known().contains_key(id),
            },
    {
        self.broadcasters.get(&id)
    }

    /// Notes the stream of the watched channel `id`, or that it has none.
    /// A channel that is not watched is not taken in by this.
    pub fn set_current_broadcast(&mut self, id: i64, stream: Option<UserAndStreamByLoginStream>)
        requires
            old(self).well_formed(),
        ensures
            final(self).well_formed(),
            final(self)@ == (StateModel {
                known: if old(self).known().contains_key(id) {
                    old(self).known().insert(
                        id,
                        WatchedBroadcaster { current_broadcast: stream, ..old(self).known()[id] },
                    )
                } else {
                    old(self).known()
                },
                ..old(self)@
            }),
    {
        let ghost known = self.broadcasters@;
        match self.broadcasters.remove(&id) {
            Some(mut broadcaster) => {
                broadcaster.current_broadcast = stream;
                self.broadcasters.insert(id, broadcaster);
                proof {
                    assert(self.broadcasters@ =~= known.insert(id, broadcaster));
                }
            },
            None => {
                proof {
                    assert(self.broadcasters@ =~= known);
                }
            },
        }
    }

    /// A registry that watches nothing yet. `now` is the reading of a clock
    /// in seconds.
    pub fn new(watcher_id: String, now: u64) -> (state: Self)
        ensures
            state.well_formed(),
            state.known() == Map::<i64, WatchedBroadcaster>::empty(),
            state@.last_broadcaster_check == now,
            state@.session_id@ == Seq::<char>::empty(),
            state@.watcher_id == watcher_id,
    {
        State {
            broadcasters: HashMap::new(),
            last_broadcaster_check: now,
            session_id: String::new(),
            watcher_id,
        }
    }

    /// Whether the list of broadcasters is due to be looked at again: more
    /// than the refresh rate has passed on the clock since the last look.
    pub fn should_update_broadcasters(&self, now: u64) -> (due: bool)
        ensures
            due == (now - self@.last_broadcaster_check > BROADCASTER_REFRESH_RATE),
    {
        now > self.last_broadcaster_check && now - self.last_broadcaster_check
            > BROADCASTER_REFRESH_RATE
    }

    /// Takes the session that the event feed has opened.
    pub fn set_session(&mut self, session_id: String)
        ensures
            final(self)@ == (StateModel { session_id, ..old(self)@ }),
    {
        self.session_id = session_id;
    }

    /// Looks at the list of broadcasters: notes the time of the look, and
    /// returns those that are to be taken under watch. Nothing is ever
    /// taken out of the registry.
    pub fn update_broadcasters(&mut self, now: u64, listed: Vec<broadcasters::Model>) -> (fresh:
        Vec<broadcasters::Model>)
        ensures
            fresh@ == newcomers(old(self).known(), listed@),
            final(self)@ == (StateModel { last_broadcaster_check: now, ..old(self)@ }),
    {
        self.last_broadcaster_check = now;
        fetch_new_broadcasters(&self.broadcasters, listed)
    }

    /// Takes a channel into the registry once it is watched. One that is
    /// not watched yet stays out, to be tried again at the next look; one
    /// whose identity is in the registry already leaves the registry as it
    /// is.
    pub fn onboard(&mut self, broadcaster: WatchedBroadcaster) -> (taken: bool)
        requires
            old(self).well_formed(),
        ensures
            final(self).well_formed(),
            taken == (broadcaster.is_watching && !old(self).known().contains_key(
                broadcaster.broadcaster.id,
            )),
            final(self)@ == (StateModel {
                known: if taken {
                    old(self).known().insert(broadcaster.broadcaster.id, broadcaster)
                } else {
                    old(self).known()
                },
                ..old(self)@
            }),
    {
        if !broadcaster.is_watching || self.broadcasters.contains_key(&broadcaster.broadcaster.id) {
            return false;
        }
        self.broadcasters.insert(broadcaster.broadcaster.id, broadcaster);
        true
    }

    /// The identity of the watched channel that an event speaks of, read
    /// from the event's text: none for a channel that is not watched.
    pub fn watched_channel(&self, broadcaster_user_id: &str) -> (found: Result<Option<i64>, ArchiveError>)
        ensures
            match number_of(broadcaster_user_id@) {
                None => found matches Err(ArchiveError::BadBroadcasterId),
                Some(id) => found == Ok::<Option<i64>, ArchiveError>(
                    if self.known().contains_key(id) {
                        Some(id)
                    } else {
                        None
                    },
                ),
            },
    {
        match id_from_text(broadcaster_user_id) {
            None => Err(ArchiveError::BadBroadcasterId),
            Some(id) => if self.broadcasters.contains_key(&id) {
                Ok(Some(id))
            } else {
                Ok(None)
            },
        }
    }
}

} // verus!
