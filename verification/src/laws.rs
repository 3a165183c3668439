//! What holds of the archive however it is told: a message is stored once,
//! the seam between catching up and listening live loses and doubles
//! nothing, and a broadcast that is started and ended is one row.

use vstd::prelude::*;
use crate::database::{
    broadcast_ids, broadcast_to_end, has_open, is_latest_open, lemma_push_fresh_message,
    message_ids, opened_no_earlier, with_broadcast_started, with_message, with_messages,
};
use crate::entities::{broadcasts, messages};
use crate::time::Timestamp;

verus! {

/// Offering a batch keeps the rows that were there, in their places, and
/// keeps the identities distinct; every identity of the batch is stored
/// afterwards, and none is stored that was neither there nor offered.
pub proof fn lemma_with_messages(rows: Seq<messages::Model>, batch: Seq<messages::Model>)
    requires
        message_ids(rows).no_duplicates(),
    ensures
        message_ids(with_messages(rows, batch)).no_duplicates(),
        rows.len() <= with_messages(rows, batch).len() <= rows.len() + batch.len(),
        with_messages(rows, batch).take(rows.len() as int) == rows,
        forall|id: u128|
            message_ids(with_messages(rows, batch)).contains(id) <==> message_ids(rows).contains(id)
                || message_ids(batch).contains(id),
    decreases batch.len(),
{
    let stored = with_messages(rows, batch);
    if batch.len() == 0 {
        assert(stored.take(rows.len() as int) =~= rows);
        assert(message_ids(batch) =~= Seq::<u128>::empty());
    } else {
        let before = with_messages(rows, batch.drop_last());
        let row = batch.last();
        lemma_with_messages(rows, batch.drop_last());
        assert(message_ids(batch) =~= message_ids(batch.drop_last()).push(row.id));
        if !message_ids(before).contains(row.id) {
            lemma_push_fresh_message(before, row);
            assert(stored.take(rows.len() as int) =~= before.take(rows.len() as int));
        }
        assert forall|id: u128|
            message_ids(stored).contains(id) <==> message_ids(rows).contains(id) || message_ids(
                batch,
            ).contains(id) by {
            lemma_contains_pushed(message_ids(batch.drop_last()), row.id, id);
            if !message_ids(before).contains(row.id) {
                lemma_contains_pushed(message_ids(before), row.id, id);
            }
        }
    }
}

/// An identity is among a sequence that was extended by one identity if it
/// is that one or was among the sequence before.
pub proof fn lemma_contains_pushed(ids: Seq<u128>, last: u128, id: u128)
    ensures
        ids.push(last).contains(id) <==> ids.contains(id) || id == last,
{
    if ids.contains(id) {
        let i = choose|i: int| 0 <= i < ids.len() && ids[i] == id;
        assert(ids.push(last)[i] == id);
    }
    if id == last {
        assert(ids.push(last)[ids.len() as int] == id);
    }
}

/// Offering two batches one after the other is offering them joined.
pub proof fn lemma_with_messages_joined(
    rows: Seq<messages::Model>,
    first: Seq<messages::Model>,
    second: Seq<messages::Model>,
)
    ensures
        with_messages(with_messages(rows, first), second) == with_messages(rows, first + second),
    decreases second.len(),
{
    if second.len() == 0 {
        assert(first + second =~= first);
    } else {
        lemma_with_messages_joined(rows, first, second.drop_last());
        assert((first + second).drop_last() =~= first + second.drop_last());
        assert((first + second).last() == second.last());
    }
}

/// Offering one message is offering a batch that holds only that message.
pub proof fn lemma_with_message_as_batch(rows: Seq<messages::Model>, row: messages::Model)
    ensures
        with_message(rows, row) == with_messages(rows, seq![row]),
{
    assert(seq![row].drop_last() =~= Seq::<messages::Model>::empty());
    assert(with_messages(rows, Seq::<messages::Model>::empty()) == rows);
}

/// A message that is told twice is stored once: the second telling changes
/// nothing, whichever of the two came first, and the row counts one more
/// than before at most.
pub proof fn lemma_message_stored_once(
    rows: Seq<messages::Model>,
    caught_up: messages::Model,
    live: messages::Model,
)
    requires
        message_ids(rows).no_duplicates(),
        caught_up.id == live.id,
    ensures
        with_message(with_message(rows, caught_up), live) == with_message(rows, caught_up),
        with_message(with_message(rows, live), caught_up) == with_message(rows, live),
        message_ids(with_message(with_message(rows, caught_up), live)) == message_ids(
            with_message(with_message(rows, live), caught_up),
        ),
        message_ids(with_message(rows, caught_up)).no_duplicates(),
        message_ids(with_message(rows, caught_up)).contains(live.id),
        with_message(rows, caught_up).len() <= rows.len() + 1,
{
    if !message_ids(rows).contains(caught_up.id) {
        lemma_push_fresh_message(rows, caught_up);
        lemma_push_fresh_message(rows, live);
        lemma_contains_pushed(message_ids(rows), caught_up.id, live.id);
    }
}

/// Messages under identities that are new to the store and differ from
/// one another are all stored, each as it was offered, in the order of
/// their arrival behind the rows that were there.
pub proof fn lemma_fresh_messages_all_stored(
    rows: Seq<messages::Model>,
    arrival: Seq<messages::Model>,
)
    requires
        message_ids(rows).no_duplicates(),
        message_ids(arrival).no_duplicates(),
        forall|i: int|
            0 <= i < arrival.len() ==> !message_ids(rows).contains(
                #[trigger] message_ids(arrival)[i],
            ),
    ensures
        with_messages(rows, arrival) == rows + arrival,
        message_ids(with_messages(rows, arrival)).no_duplicates(),
    decreases arrival.len(),
{
    if arrival.len() == 0 {
        assert(rows + arrival =~= rows);
    } else {
        let earlier = arrival.drop_last();
        let row = arrival.last();
        let n = earlier.len() as int;
        assert(message_ids(earlier) =~= message_ids(arrival).drop_last());
        assert forall|i: int| 0 <= i < earlier.len() implies !message_ids(rows).contains(
            #[trigger] message_ids(earlier)[i],
        ) by {
            assert(message_ids(earlier)[i] == message_ids(arrival)[i]);
        }
        lemma_fresh_messages_all_stored(rows, earlier);
        lemma_with_messages(rows, earlier);
        assert(message_ids(arrival)[n] == row.id);
        if message_ids(earlier).contains(row.id) {
            let i = choose|i: int| 0 <= i < earlier.len() && message_ids(earlier)[i] == row.id;
            assert(message_ids(arrival)[i] == message_ids(arrival)[n]);
        }
        lemma_push_fresh_message(rows + earlier, row);
        assert((rows + earlier).push(row) =~= rows + arrival);
    }
}

/// The seam between catching up and listening live: `caught_up` is the
/// batch read from the archive, `live` the messages heard live, and the
/// batch lands after the first `landed` of them. If all these messages
/// have identities of their own that are new to the store, then wherever
/// the batch lands the store ends up longer by exactly their number, holds
/// every one of them as it was offered, and holds no identity twice.
pub proof fn lemma_seam_stores_every_message_once(
    rows: Seq<messages::Model>,
    caught_up: Seq<messages::Model>,
    live: Seq<messages::Model>,
    landed: int,
)
    requires
        0 <= landed <= live.len(),
        message_ids(rows).no_duplicates(),
        message_ids(caught_up + live).no_duplicates(),
        forall|i: int|
            0 <= i < (caught_up + live).len() ==> !message_ids(rows).contains(
                #[trigger] message_ids(caught_up + live)[i],
            ),
    ensures
        ({
            let arrival = live.take(landed) + caught_up + live.skip(landed);
            let stored = with_messages(rows, arrival);
            &&& stored == with_messages(
                with_messages(with_messages(rows, live.take(landed)), caught_up),
                live.skip(landed),
            )
            &&& stored.len() == rows.len() + caught_up.len() + live.len()
            &&& message_ids(stored).no_duplicates()
            &&& stored.take(rows.len() as int) == rows
            &&& forall|i: int| 0 <= i < caught_up.len() ==> stored.contains(#[trigger] caught_up[i])
            &&& forall|i: int| 0 <= i < live.len() ==> stored.contains(#[trigger] live[i])
        }),
{
    let k = caught_up.len() as int;
    let all = caught_up + live;
    let arrival = live.take(landed) + caught_up + live.skip(landed);
    let stored = with_messages(rows, arrival);
    // Where each message of the arrival stands among `all`.
    let place = |i: int|
        if i < landed {
            k + i
        } else if i < landed + k {
            i - landed
        } else {
            i
        };
    assert forall|i: int| 0 <= i < arrival.len() implies 0 <= place(i) < all.len() && arrival[i]
        == all[place(i)] by {}
    assert forall|i: int, j: int|
        0 <= i < arrival.len() && 0 <= j < arrival.len() && i != j implies message_ids(arrival)[i]
        != message_ids(arrival)[j] by {
        assert(place(i) != place(j));
        assert(message_ids(all)[place(i)] == arrival[i].id);
        assert(message_ids(all)[place(j)] == arrival[j].id);
    }
    assert forall|i: int| 0 <= i < arrival.len() implies !message_ids(rows).contains(
        #[trigger] message_ids(arrival)[i],
    ) by {
        assert(message_ids(all)[place(i)] == arrival[i].id);
    }
    lemma_fresh_messages_all_stored(rows, arrival);
    lemma_with_messages_joined(rows, live.take(landed), caught_up);
    lemma_with_messages_joined(rows, live.take(landed) + caught_up, live.skip(landed));
    assert(stored.take(rows.len() as int) =~= rows);
    assert forall|i: int| 0 <= i < caught_up.len() implies stored.contains(
        #[trigger] caught_up[i],
    ) by {
        assert(stored[rows.len() + landed + i] == caught_up[i]);
    }
    assert forall|i: int| 0 <= i < live.len() implies stored.contains(#[trigger] live[i]) by {
        if i < landed {
            assert(stored[rows.len() + i] == live[i]);
        } else {
            assert(stored[rows.len() + k + i] == live[i]);
        }
    }
}

/// Among the first `n` rows, if one is an open broadcast of
/// `broadcaster_id`, one of them was opened no earlier than every other.
proof fn lemma_latest_open_among(rows: Seq<broadcasts::Model>, broadcaster_id: i64, n: int) -> (best:
    int)
    requires
        0 <= n <= rows.len(),
        exists|j: int| 0 <= j < n && (#[trigger] rows[j]).is_open_for(broadcaster_id),
    ensures
        0 <= best < n,
        rows[best].is_open_for(broadcaster_id),
        forall|j: int|
            0 <= j < n && (#[trigger] rows[j]).is_open_for(broadcaster_id) ==> opened_no_earlier(
                rows,
                best,
                j,
            ),
    decreases n,
{
    let last = n - 1;
    if exists|j: int| 0 <= j < last && (#[trigger] rows[j]).is_open_for(broadcaster_id) {
        let before = lemma_latest_open_among(rows, broadcaster_id, last);
        if rows[last].is_open_for(broadcaster_id) && !rows[last].started_at.is_before(
            rows[before].started_at,
        ) {
            last
        } else {
            before
        }
    } else {
        last
    }
}

/// Ending a broadcast without naming it ends the most recently opened
/// broadcast of the broadcaster that is still open, whenever the
/// broadcaster has an open broadcast at all.
pub proof fn lemma_end_unnamed_ends_latest_open(rows: Seq<broadcasts::Model>, broadcaster_id: i64)
    requires
        has_open(rows, broadcaster_id),
    ensures
        broadcast_to_end(rows, broadcaster_id, None) matches Some(place) && is_latest_open(
            rows,
            broadcaster_id,
            place,
        ),
{
    let best = lemma_latest_open_among(rows, broadcaster_id, rows.len() as int);
    assert(is_latest_open(rows, broadcaster_id, best));
}

/// A broadcast that is started and then ended by its identity is stored in
/// exactly one row, and that row has the end given. Starting it adds a row
/// only where the identity was not stored before.
pub proof fn lemma_started_then_ended(
    rows: Seq<broadcasts::Model>,
    row: broadcasts::Model,
    ended_at: Timestamp,
)
    requires
        broadcast_ids(rows).no_duplicates(),
    ensures
        ({
            let started = with_broadcast_started(rows, row);
            let place = broadcast_ids(started).index_of(row.id);
            let ended = started.update(place, started[place].ended(ended_at));
            &&& broadcast_ids(started).no_duplicates()
            &&& started.len() == if broadcast_ids(rows).contains(row.id) {
                rows.len()
            } else {
                rows.len() + 1
            }
            &&& broadcast_to_end(started, row.broadcaster_id, Some(row.id)) == Some(place)
            &&& 0 <= place < ended.len() == started.len()
            &&& ended[place].id == row.id
            &&& ended[place].started_at == row.started_at
            &&& ended[place].ended_at == Some(ended_at)
            &&& forall|j: int| 0 <= j < ended.len() && (#[trigger] ended[j]).id == row.id ==> j == place
        }),
{
    let ids = broadcast_ids(rows);
    let started = with_broadcast_started(rows, row);
    if ids.contains(row.id) {
        let at = ids.index_of(row.id);
        assert(broadcast_ids(started) =~= ids);
    } else {
        assert(broadcast_ids(started) =~= ids.push(row.id));
        assert(broadcast_ids(started)[rows.len() as int] == row.id);
    }
    let place = broadcast_ids(started).index_of(row.id);
    let ended = started.update(place, started[place].ended(ended_at));
    assert(broadcast_ids(started)[place] == row.id);
    assert forall|j: int| 0 <= j < ended.len() && (#[trigger] ended[j]).id == row.id implies j
        == place by {
        assert(broadcast_ids(started)[j] == row.id);
    }
}

} // verus!
