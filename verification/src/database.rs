//! What the archive keeps, and how it answers to being told a thing twice.
//!
//! Every table is keyed by a stable identity, and every write says what
//! happens when the identity is already there: a message or a chatter of a
//! batch is skipped, a broadcaster or a single chatter is refreshed, a
//! broadcast keeps all but its start. Telling the store twice is therefore
//! never an error.

use vstd::prelude::*;
use crate::entities::{broadcasters, broadcasts, chatters, messages};
use crate::time::Timestamp;

verus! {

/// The identities of message rows, in the order of the rows.
pub open spec fn message_ids(rows: Seq<messages::Model>) -> Seq<u128> {
    rows.map_values(|row: messages::Model| row.id)
}

/// The identities of chatter rows, in the order of the rows.
pub open spec fn chatter_ids(rows: Seq<chatters::Model>) -> Seq<i64> {
    rows.map_values(|row: chatters::Model| row.id)
}

/// The identities of broadcaster rows, in the order of the rows.
pub open spec fn broadcaster_ids(rows: Seq<broadcasters::Model>) -> Seq<i64> {
    rows.map_values(|row: broadcasters::Model| row.id)
}

/// The identities of broadcast rows, in the order of the rows.
pub open spec fn broadcast_ids(rows: Seq<broadcasts::Model>) -> Seq<i64> {
    rows.map_values(|row: broadcasts::Model| row.id)
}

/// The message table after `row` was offered to it: unchanged where the
/// identity is taken, else longer by `row`.
pub open spec fn with_message(rows: Seq<messages::Model>, row: messages::Model) -> Seq<
    messages::Model,
> {
    if message_ids(rows).contains(row.id) {
        rows
    } else {
        rows.push(row)
    }
}

/// The message table after the rows of `batch` were offered to it in turn.
pub open spec fn with_messages(rows: Seq<messages::Model>, batch: Seq<messages::Model>) -> Seq<
    messages::Model,
>
    decreases batch.len(),
{
    if batch.len() == 0 {
        rows
    } else {
        with_message(with_messages(rows, batch.drop_last()), batch.last())
    }
}

/// The chatter table after `row` was offered to it with its name to be
/// kept: unchanged where the identity is taken, else longer by `row`.
pub open spec fn with_chatter(rows: Seq<chatters::Model>, row: chatters::Model) -> Seq<
    chatters::Model,
> {
    if chatter_ids(rows).contains(row.id) {
        rows
    } else {
        rows.push(row)
    }
}

/// The chatter table after the rows of `batch` were offered to it in turn.
pub open spec fn with_chatters(rows: Seq<chatters::Model>, batch: Seq<chatters::Model>) -> Seq<
    chatters::Model,
>
    decreases batch.len(),
{
    if batch.len() == 0 {
        rows
    } else {
        with_chatter(with_chatters(rows, batch.drop_last()), batch.last())
    }
}

/// The chatter table after `row` was written to it: `row` stands in the
/// place of the row that had its identity, or at the end if none had.
pub open spec fn with_chatter_refreshed(rows: Seq<chatters::Model>, row: chatters::Model) -> Seq<
    chatters::Model,
> {
    if chatter_ids(rows).contains(row.id) {
        rows.update(chatter_ids(rows).index_of(row.id), row)
    } else {
        rows.push(row)
    }
}

/// The broadcaster table after `row` was written to it: `row` stands in
/// the place of the row that had its identity, or at the end if none had.
pub open spec fn with_broadcaster(rows: Seq<broadcasters::Model>, row: broadcasters::Model) -> Seq<
    broadcasters::Model,
> {
    if broadcaster_ids(rows).contains(row.id) {
        rows.update(broadcaster_ids(rows).index_of(row.id), row)
    } else {
        rows.push(row)
    }
}

/// The broadcast table after the start of `row` was written to it: a row
/// that had its identity keeps all but its start, else `row` is added.
pub open spec fn with_broadcast_started(rows: Seq<broadcasts::Model>, row: broadcasts::Model) -> Seq<
    broadcasts::Model,
> {
    if broadcast_ids(rows).contains(row.id) {
        let place = broadcast_ids(rows).index_of(row.id);
        rows.update(place, rows[place].restarted(row.started_at))
    } else {
        rows.push(row)
    }
}

/// Whether the broadcast in place `i` was opened no earlier than the one
/// in place `j`; of two that were opened at the same time, the one that
/// was stored later counts as the later.
pub open spec fn opened_no_earlier(rows: Seq<broadcasts::Model>, i: int, j: int) -> bool {
    rows[j].started_at.is_before(rows[i].started_at) || (!rows[i].started_at.is_before(
        rows[j].started_at,
    ) && j <= i)
}

/// Whether place `i` holds the most recently opened broadcast of
/// `broadcaster_id` among those that are still open.
pub open spec fn is_latest_open(rows: Seq<broadcasts::Model>, broadcaster_id: i64, i: int) -> bool {
    &&& 0 <= i < rows.len()
    &&& rows[i].is_open_for(broadcaster_id)
    &&& forall|j: int|
        0 <= j < rows.len() && (#[trigger] rows[j]).is_open_for(broadcaster_id)
            ==> opened_no_earlier(rows, i, j)
}

/// Whether `broadcaster_id` has a broadcast that is still open.
pub open spec fn has_open(rows: Seq<broadcasts::Model>, broadcaster_id: i64) -> bool {
    exists|i: int| 0 <= i < rows.len() && (#[trigger] rows[i]).is_open_for(broadcaster_id)
}

/// The place of the broadcast that a request to end one speaks of: the
/// one with the identity given, or, where none is given, the most recently
/// opened one of the broadcaster that is still open.
pub open spec fn broadcast_to_end(
    rows: Seq<broadcasts::Model>,
    broadcaster_id: i64,
    broadcast_id: Option<i64>,
) -> Option<int> {
    match broadcast_id {
        Some(id) => if broadcast_ids(rows).contains(id) {
            Some(broadcast_ids(rows).index_of(id))
        } else {
            None
        },
        None => if has_open(rows, broadcaster_id) {
            Some(choose|i: int| is_latest_open(rows, broadcaster_id, i))
        } else {
            None
        },
    }
}

/// Why a write to the archive did nothing.
#[derive(Clone, Copy, Debug, PartialEq, Eq, Structural)]
pub enum DatabaseError {
    /// No broadcast is stored that the request could mean.
    NoSuchBroadcast,
}

/// The tables of the archive, as sequences of rows.
pub struct Tables {
    pub broadcasters: Seq<broadcasters::Model>,
    pub broadcasts: Seq<broadcasts::Model>,
    pub chatters: Seq<chatters::Model>,
    pub messages: Seq<messages::Model>,
}

impl Tables {
    /// Whether no table holds an identity twice.
    pub open spec fn well_formed(self) -> bool {
        &&& broadcaster_ids(self.broadcasters).no_duplicates()
        &&& broadcast_ids(self.broadcasts).no_duplicates()
        &&& chatter_ids(self.chatters).no_duplicates()
        &&& message_ids(self.messages).no_duplicates()
    }
}

/// One write to the archive, as a value: what a step of the archiver asks
/// to be stored.
#[derive(Debug, PartialEq, Eq)]
pub enum Write {
    /// Open a broadcast; see `DatabaseClient::start_broadcast`.
    StartBroadcast { broadcast_id: i64, broadcaster_id: i64, title: String, started_at: Timestamp },
    /// End a broadcast; see `DatabaseClient::end_broadcast`.
    EndBroadcast { broadcaster_id: i64, ended_at: Timestamp, broadcast_id: Option<i64> },
    /// Store or refresh a chatter; see `DatabaseClient::insert_chatter`.
    InsertChatter { id: i64, display_name: String },
    /// Store a message unless it is there; see `DatabaseClient::insert_message`.
    InsertMessage { row: messages::Model },
    /// Store the chatters that are not there; see `DatabaseClient::insert_many_chatters`.
    InsertManyChatters { rows: Vec<chatters::Model> },
    /// Store the messages that are not there; see `DatabaseClient::insert_many_messages`.
    InsertManyMessages { rows: Vec<messages::Model> },
}

impl Tables {
    /// Whether `write` finds nothing to work on and is refused.
    pub open spec fn refuses(self, write: Write) -> bool {
        write matches Write::EndBroadcast { broadcaster_id, broadcast_id, .. } && broadcast_to_end(
            self.broadcasts,
            broadcaster_id,
            broadcast_id,
        ) is None
    }

    /// The tables after `write`; a write that is refused changes nothing.
    pub open spec fn written(self, write: Write) -> Tables {
        match write {
            Write::StartBroadcast { broadcast_id, broadcaster_id, title, started_at } => Tables {
                broadcasts: with_broadcast_started(
                    self.broadcasts,
                    broadcasts::Model {
                        id: broadcast_id,
                        broadcaster_id,
                        title,
                        started_at,
                        ended_at: None,
                    },
                ),
                ..self
            },
            Write::EndBroadcast { broadcaster_id, ended_at, broadcast_id } => match broadcast_to_end(
                self.broadcasts,
                broadcaster_id,
                broadcast_id,
            ) {
                Some(place) => Tables {
                    broadcasts: self.broadcasts.update(
                        place,
                        self.broadcasts[place].ended(ended_at),
                    ),
                    ..self
                },
                None => self,
            },
            Write::InsertChatter { id, display_name } => Tables {
                chatters: with_chatter_refreshed(self.chatters, chatters::Model { id, display_name }),
                ..self
            },
            Write::InsertMessage { row } => Tables {
                messages: with_message(self.messages, row),
                ..self
            },
            Write::InsertManyChatters { rows } => Tables {
                chatters: with_chatters(self.chatters, rows@),
                ..self
            },
            Write::InsertManyMessages { rows } => Tables {
                messages: with_messages(self.messages, rows@),
                ..self
            },
        }
    }

    /// The tables after the writes of `writes` in turn, up to the first
    /// that is refused.
    pub open spec fn written_all(self, writes: Seq<Write>) -> Tables
        decreases writes.len(),
    {
        if writes.len() == 0 {
            self
        } else if self.refuses(writes.first()) {
            self
        } else {
            self.written(writes.first()).written_all(writes.drop_first())
        }
    }

    /// Whether one of `writes` is refused when they are made in turn.
    pub open spec fn refuses_any(self, writes: Seq<Write>) -> bool
        decreases writes.len(),
    {
        if writes.len() == 0 {
            false
        } else if self.refuses(writes.first()) {
            true
        } else {
            self.written(writes.first()).refuses_any(writes.drop_first())
        }
    }
}

/// The place of the chatter `id` among `rows`.
pub(crate) fn chatter_position(rows: &Vec<chatters::Model>, id: i64) -> (place: Option<usize>)
    ensures
        place is Some == chatter_ids(rows@).contains(id),
        place matches Some(i) ==> i < rows@.len() && rows@[i as int].id == id,
{
    let mut i: usize = 0;
    while i < rows.len()
        invariant
            i <= rows.len(),
            forall|j: int| 0 <= j < i ==> rows@[j].id != id,
        decreases rows.len() - i,
    {
        if rows[i].id == id {
            proof {
                assert(chatter_ids(rows@)[i as int] == id);
            }
            return Some(i);
        }
        i += 1;
    }
    None
}

/// Writes `row` to a table of chatters: it takes the place of the row that
/// had its identity, or the end of the table if none had.
pub(crate) fn refresh_chatter(rows: &mut Vec<chatters::Model>, row: chatters::Model)
    requires
        chatter_ids(old(rows)@).no_duplicates(),
    ensures
        chatter_ids(final(rows)@).no_duplicates(),
        final(rows)@ == with_chatter_refreshed(old(rows)@, row),
{
    let ghost ids = chatter_ids(rows@);
    match chatter_position(rows, row.id) {
        Some(place) => {
            proof {
                assert(ids[place as int] == row.id);
                assert(chatter_ids(rows@.update(place as int, row)) =~= ids);
            }
            rows[place] = row;
        },
        None => {
            proof {
                assert(chatter_ids(rows@.push(row)) =~= ids.push(row.id));
            }
            rows.push(row);
        },
    }
}

/// The archive, held in memory.
pub struct DatabaseClient {
    broadcasters: Vec<broadcasters::Model>,
    broadcasts: Vec<broadcasts::Model>,
    chatters: Vec<chatters::Model>,
    messages: Vec<messages::Model>,
}

impl View for DatabaseClient {
    type V = Tables;

    closed spec fn view(&self) -> Tables {
        Tables {
            broadcasters: self.broadcasters@,
            broadcasts: self.broadcasts@,
            chatters: self.chatters@,
            messages: self.messages@,
        }
    }
}

impl DatabaseClient {
    /// Whether no table holds an identity twice.
    pub open spec fn well_formed(&self) -> bool {
        self@.well_formed()
    }

    /// An archive with nothing in it.
    pub fn new() -> (db: Self)
        ensures
            db.well_formed(),
            db@.broadcasters.len() == 0,
            db@.broadcasts.len() == 0,
            db@.chatters.len() == 0,
            db@.messages.len() == 0,
    {
        DatabaseClient {
            broadcasters: Vec::new(),
            broadcasts: Vec::new(),
            chatters: Vec::new(),
            messages: Vec::new(),
        }
    }

    /// The place of the message `id` in its table.
    fn message_position(&self, id: u128) -> (place: Option<usize>)
        ensures
            place is Some == message_ids(self@.messages).contains(id),
            place matches Some(i) ==> i < self@.messages.len() && self@.messages[i as int].id == id,
    {
        let mut i: usize = 0;
        while i < self.messages.len()
            invariant
                i <= self.messages.len(),
                forall|j: int| 0 <= j < i ==> self.messages@[j].id != id,
            decreases self.messages.len() - i,
        {
            if self.messages[i].id == id {
                proof {
                    assert(message_ids(self@.messages)[i as int] == id);
                }
                return Some(i);
            }
            i += 1;
        }
        None
    }

    /// The place of the broadcaster `id` in its table.
    fn broadcaster_position(&self, id: i64) -> (place: Option<usize>)
        ensures
            place is Some == broadcaster_ids(self@.broadcasters).contains(id),
            place matches Some(i) ==> i < self@.broadcasters.len() && self@.broadcasters[i as int].id
                == id,
    {
        let mut i: usize = 0;
        while i < self.broadcasters.len()
            invariant
                i <= self.broadcasters.len(),
                forall|j: int| 0 <= j < i ==> self.broadcasters@[j].id != id,
            decreases self.broadcasters.len() - i,
        {
            if self.broadcasters[i].id == id {
                proof {
                    assert(broadcaster_ids(self@.broadcasters)[i as int] == id);
                }
                return Some(i);
            }
            i += 1;
        }
        None
    }

    /// The place of the broadcast `id` in its table.
    fn broadcast_position(&self, id: i64) -> (place: Option<usize>)
        ensures
            place is Some == broadcast_ids(self@.broadcasts).contains(id),
            place matches Some(i) ==> i < self@.broadcasts.len() && self@.broadcasts[i as int].id
                == id,
    {
        let mut i: usize = 0;
        while i < self.broadcasts.len()
            invariant
                i <= self.broadcasts.len(),
                forall|j: int| 0 <= j < i ==> self.broadcasts@[j].id != id,
            decreases self.broadcasts.len() - i,
        {
            if self.broadcasts[i].id == id {
                proof {
                    assert(broadcast_ids(self@.broadcasts)[i as int] == id);
                }
                return Some(i);
            }
            i += 1;
        }
        None
    }

    /// The broadcasters, in the order in which they were first stored.
    pub fn select_broadcasters(&self) -> (rows: &Vec<broadcasters::Model>)
        ensures
            rows@ == self@.broadcasters,
    {
        &self.broadcasters
    }

    /// The chatters, in the order in which they were first stored.
    pub fn chatters(&self) -> (rows: &Vec<chatters::Model>)
        ensures
            rows@ == self@.chatters,
    {
        &self.chatters
    }

    /// The broadcasts, in the order in which they were first stored.
    pub fn broadcasts(&self) -> (rows: &Vec<broadcasts::Model>)
        ensures
            rows@ == self@.broadcasts,
    {
        &self.broadcasts
    }

    /// Stores a broadcaster; one that is there already takes the name and
    /// the picture given.
    pub fn insert_broadcaster(&mut self, id: i64, display_name: String, profile_image_url: String)
        requires
            old(self).well_formed(),
        ensures
            final(self).well_formed(),
            final(self)@ == (Tables {
                broadcasters: with_broadcaster(
                    old(self)@.broadcasters,
                    broadcasters::Model {
                        id,
                        display_name,
                        profile_image_url: Some(profile_image_url),
                    },
                ),
                ..old(self)@
            }),
    {
        let row = broadcasters::Model { id, display_name, profile_image_url: Some(profile_image_url) };
        let ghost ids = broadcaster_ids(self@.broadcasters);
        match self.broadcaster_position(id) {
            Some(place) => {
                proof {
                    ids.index_of_first_ensures(id);
                    assert(ids[place as int] == id);
                    assert(broadcaster_ids(self@.broadcasters.update(place as int, row)) =~= ids);
                }
                self.broadcasters[place] = row;
            },
            None => {
                proof {
                    assert(broadcaster_ids(self@.broadcasters.push(row)) =~= ids.push(id));
                }
                self.broadcasters.push(row);
            },
        }
    }

    /// Stores a chatter; one that is there already takes the name given.
    pub fn insert_chatter(&mut self, id: i64, display_name: String)
        requires
            old(self).well_formed(),
        ensures
            final(self).well_formed(),
            final(self)@ == (Tables {
                chatters: with_chatter_refreshed(
                    old(self)@.chatters,
                    chatters::Model { id, display_name },
                ),
                ..old(self)@
            }),
    {
        refresh_chatter(&mut self.chatters, chatters::Model { id, display_name });
    }

    /// Stores the chatters of `batch` in turn, skipping each whose identity
    /// is there already.
    pub fn insert_many_chatters(&mut self, batch: Vec<chatters::Model>)
        requires
            old(self).well_formed(),
        ensures
            final(self).well_formed(),
            final(self)@ == (Tables {
                chatters: with_chatters(old(self)@.chatters, batch@),
                ..old(self)@
            }),
    {
        let ghost all = batch@;
        for row in it: batch
            invariant
                it.seq() == all,
                self.well_formed(),
                self@ == (Tables {
                    chatters: with_chatters(old(self)@.chatters, all.take(it.index() as int)),
                    ..old(self)@
                }),
        {
            proof {
                assert(all.take(it.index() + 1).drop_last() =~= all.take(it.index() as int));
            }
            if chatter_position(&self.chatters, row.id).is_none() {
                proof {
                    assert(chatter_ids(self@.chatters.push(row)) =~= chatter_ids(
                        self@.chatters,
                    ).push(row.id));
                }
                self.chatters.push(row);
            }
        }
        proof {
            assert(all.take(all.len() as int) =~= all);
        }
    }

    /// The broadcast `broadcast_id`, if it is stored.
    pub fn get_broadcast(&self, broadcast_id: i64) -> (row: Option<&broadcasts::Model>)
        requires
            self.well_formed(),
        ensures
            row is Some == broadcast_ids(self@.broadcasts).contains(broadcast_id),
            row matches Some(found) ==> *found == self@.broadcasts[broadcast_ids(
                self@.broadcasts,
            ).index_of(broadcast_id)],
    {
        match self.broadcast_position(broadcast_id) {
            Some(place) => {
                proof {
                    assert(broadcast_ids(self@.broadcasts)[place as int] == broadcast_id);
                }
                Some(&self.broadcasts[place])
            },
            None => None,
        }
    }

    /// Opens a broadcast. One that is stored already keeps its title, its
    /// broadcaster and its end, and takes the start given.
    pub fn start_broadcast(
        &mut self,
        broadcast_id: i64,
        broadcaster_id: i64,
        title: String,
        started_at: Timestamp,
    )
        requires
            old(self).well_formed(),
        ensures
            final(self).well_formed(),
            final(self)@ == (Tables {
                broadcasts: with_broadcast_started(
                    old(self)@.broadcasts,
                    broadcasts::Model {
                        id: broadcast_id,
                        broadcaster_id,
                        title,
                        started_at,
                        ended_at: None,
                    },
                ),
                ..old(self)@
            }),
    {
        let ghost ids = broadcast_ids(self@.broadcasts);
        match self.broadcast_position(broadcast_id) {
            Some(place) => {
                proof {
                    assert(ids[place as int] == broadcast_id);
                    assert(broadcast_ids(
                        self@.broadcasts.update(
                            place as int,
                            self@.broadcasts[place as int].restarted(started_at),
                        ),
                    ) =~= ids);
                }
                self.broadcasts[place].started_at = started_at;
            },
            None => {
                let row = broadcasts::Model {
                    id: broadcast_id,
                    broadcaster_id,
                    title,
                    started_at,
                    ended_at: None,
                };
                proof {
                    assert(broadcast_ids(self@.broadcasts.push(row)) =~= ids.push(broadcast_id));
                }
                self.broadcasts.push(row);
            },
        }
    }

    /// The place of the most recently opened broadcast of `broadcaster_id`
    /// that is still open.
    fn latest_open_position(&self, broadcaster_id: i64) -> (place: Option<usize>)
        ensures
            place is Some == has_open(self@.broadcasts, broadcaster_id),
            place matches Some(i) ==> is_latest_open(self@.broadcasts, broadcaster_id, i as int),
    {
        let mut best: Option<usize> = None;
        let mut i: usize = 0;
        while i < self.broadcasts.len()
            invariant
                i <= self.broadcasts.len(),
                best is None ==> forall|j: int|
                    0 <= j < i ==> !(#[trigger] self.broadcasts@[j]).is_open_for(broadcaster_id),
                best matches Some(b) ==> b < i && is_latest_open(
                    self.broadcasts@.take(i as int),
                    broadcaster_id,
                    b as int,
                ),
            decreases self.broadcasts.len() - i,
        {
            let ghost seen = self.broadcasts@.take(i as int);
            let ghost next = self.broadcasts@.take(i + 1);
            let row = &self.broadcasts[i];
            let open = row.ended_at.is_none() && row.broadcaster_id == broadcaster_id;
            let takes = open && match best {
                Some(b) => !row.started_at.precedes(self.broadcasts[b].started_at),
                None => true,
            };
            proof {
                assert forall|j: int| 0 <= j < i implies next[j] == seen[j] by {}
                assert(next[i as int] == self.broadcasts@[i as int]);
            }
            if takes {
                best = Some(i);
                proof {
                    assert forall|j: int|
                        0 <= j < next.len() && (#[trigger] next[j]).is_open_for(
                            broadcaster_id,
                        ) implies opened_no_earlier(next, i as int, j) by {
                        if j < i {
                            assert(seen[j].is_open_for(broadcaster_id));
                        }
                    }
                }
            } else {
                proof {
                    if let Some(b) = best {
                        assert forall|j: int|
                            0 <= j < next.len() && (#[trigger] next[j]).is_open_for(
                                broadcaster_id,
                            ) implies opened_no_earlier(next, b as int, j) by {
                            if j < i {
                                assert(seen[j].is_open_for(broadcaster_id));
                            }
                        }
                    }
                }
            }
            i += 1;
        }
        proof {
            assert(self.broadcasts@.take(i as int) =~= self.broadcasts@);
        }
        best
    }

    /// Ends a broadcast: the one named by `broadcast_id`, or, where none is
    /// named, the most recently opened broadcast of `broadcaster_id` that
    /// is still open. Fails, and changes nothing, where there is no such
    /// broadcast.
    pub fn end_broadcast(
        &mut self,
        broadcaster_id: i64,
        ended_at: Timestamp,
        broadcast_id: Option<i64>,
    ) -> (done: Result<(), DatabaseError>)
        requires
            old(self).well_formed(),
        ensures
            final(self).well_formed(),
            match broadcast_to_end(old(self)@.broadcasts, broadcaster_id, broadcast_id) {
                Some(place) => done == Ok::<(), DatabaseError>(()) && final(self)@ == (Tables {
                    broadcasts: old(self)@.broadcasts.update(
                        place,
                        old(self)@.broadcasts[place].ended(ended_at),
                    ),
                    ..old(self)@
                }),
                None => done == Err::<(), DatabaseError>(DatabaseError::NoSuchBroadcast) && final(self)@
                    == old(self)@,
            },
    {
        let ghost rows = self@.broadcasts;
        let ghost ids = broadcast_ids(rows);
        let found = match broadcast_id {
            Some(id) => self.broadcast_position(id),
            None => self.latest_open_position(broadcaster_id),
        };
        match found {
            Some(place) => {
                proof {
                    match broadcast_id {
                        Some(id) => {
                            assert(ids[place as int] == id);
                        },
                        None => {
                            lemma_latest_open_unique(
                                rows,
                                broadcaster_id,
                                place as int,
                                choose|i: int| is_latest_open(rows, broadcaster_id, i),
                            );
                        },
                    }
                    assert(broadcast_ids(rows.update(place as int, rows[place as int].ended(ended_at)))
                        =~= ids);
                }
                self.broadcasts[place].ended_at = Some(ended_at);
                Ok(())
            },
            None => Err(DatabaseError::NoSuchBroadcast),
        }
    }

    /// Makes one write.
    pub fn apply(&mut self, write: Write) -> (done: Result<(), DatabaseError>)
        requires
            old(self).well_formed(),
        ensures
            final(self).well_formed(),
            final(self)@ == old(self)@.written(write),
            done == if old(self)@.refuses(write) {
                Err::<(), DatabaseError>(DatabaseError::NoSuchBroadcast)
            } else {
                Ok::<(), DatabaseError>(())
            },
    {
        match write {
            Write::StartBroadcast { broadcast_id, broadcaster_id, title, started_at } => {
                self.start_broadcast(broadcast_id, broadcaster_id, title, started_at);
                Ok(())
            },
            Write::EndBroadcast { broadcaster_id, ended_at, broadcast_id } => {
                self.end_broadcast(broadcaster_id, ended_at, broadcast_id)
            },
            Write::InsertChatter { id, display_name } => {
                self.insert_chatter(id, display_name);
                Ok(())
            },
            Write::InsertMessage { row } => {
                self.insert_message(row);
                Ok(())
            },
            Write::InsertManyChatters { rows } => {
                self.insert_many_chatters(rows);
                Ok(())
            },
            Write::InsertManyMessages { rows } => {
                self.insert_many_messages(&rows);
                Ok(())
            },
        }
    }

    /// Makes the writes of `writes` in turn, and stops at the first that is
    /// refused.
    pub fn apply_all(&mut self, writes: Vec<Write>) -> (done: Result<(), DatabaseError>)
        requires
            old(self).well_formed(),
        ensures
            final(self).well_formed(),
            final(self)@ == old(self)@.written_all(writes@),
            done == if old(self)@.refuses_any(writes@) {
                Err::<(), DatabaseError>(DatabaseError::NoSuchBroadcast)
            } else {
                Ok::<(), DatabaseError>(())
            },
    {
        let ghost all = writes@;
        let ghost start = self@;
        proof {
            assert(all.skip(0) =~= all);
        }
        for write in it: writes
            invariant
                it.seq() == all,
                all == writes@,
                start == old(self)@,
                self.well_formed(),
                self@.written_all(all.skip(it.index() as int)) == start.written_all(all),
                self@.refuses_any(all.skip(it.index() as int)) == start.refuses_any(all),
        {
            proof {
                let i = it.index() as int;
                assert(all.skip(i).first() == all[i]);
                assert(all.skip(i).drop_first() =~= all.skip(i + 1));
            }
            if self.apply(write).is_err() {
                return Err(DatabaseError::NoSuchBroadcast);
            }
        }
        Ok(())
    }

    /// The messages, in the order in which they were stored.
    pub fn messages(&self) -> (rows: &Vec<messages::Model>)
        ensures
            rows@ == self@.messages,
    {
        &self.messages
    }

    /// Stores a message unless one with its identity is there already.
    pub fn insert_message(&mut self, row: messages::Model)
        requires
            old(self).well_formed(),
        ensures
            final(self).well_formed(),
            final(self)@ == (Tables {
                messages: with_message(old(self)@.messages, row),
                ..old(self)@
            }),
    {
        if self.message_position(row.id).is_none() {
            proof {
                lemma_push_fresh_message(self@.messages, row);
            }
            self.messages.push(row);
        }
    }

    /// Stores the messages of `batch` in turn, skipping each whose identity
    /// is there already.
    pub fn insert_many_messages(&mut self, batch: &Vec<messages::Model>)
        requires
            old(self).well_formed(),
        ensures
            final(self).well_formed(),
            final(self)@ == (Tables {
                messages: with_messages(old(self)@.messages, batch@),
                ..old(self)@
            }),
    {
        let mut i: usize = 0;
        while i < batch.len()
            invariant
                i <= batch.len(),
                self.well_formed(),
                self@ == (Tables {
                    messages: with_messages(old(self)@.messages, batch@.take(i as int)),
                    ..old(self)@
                }),
            decreases batch.len() - i,
        {
            proof {
                assert(batch@.take(i + 1).drop_last() =~= batch@.take(i as int));
            }
            self.insert_message(batch[i]);
            i += 1;
        }
        proof {
            assert(batch@.take(batch.len() as int) =~= batch@);
        }
    }
}

/// Adding a message under an identity that no row has keeps the identities
/// distinct.
pub proof fn lemma_push_fresh_message(rows: Seq<messages::Model>, row: messages::Model)
    requires
        message_ids(rows).no_duplicates(),
        !message_ids(rows).contains(row.id),
    ensures
        message_ids(rows.push(row)).no_duplicates(),
        message_ids(rows.push(row)) == message_ids(rows).push(row.id),
{
    assert(message_ids(rows.push(row)) =~= message_ids(rows).push(row.id));
}

/// At most one place holds the most recently opened broadcast of a
/// broadcaster that is still open.
pub proof fn lemma_latest_open_unique(
    rows: Seq<broadcasts::Model>,
    broadcaster_id: i64,
    i: int,
    k: int,
)
    requires
        is_latest_open(rows, broadcaster_id, i),
        is_latest_open(rows, broadcaster_id, k),
    ensures
        i == k,
{
    assert(opened_no_earlier(rows, i, k));
    assert(opened_no_earlier(rows, k, i));
}

} // verus!
