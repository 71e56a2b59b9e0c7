use vstd::prelude::*;

use crate::service::{latest_reply, Reply};
use crate::snapshot::{MetricsSnapshot, StoredSnapshot};
use crate::store::{latest_of, rows_ordered, MetricsStore};

verus! {

/// A sample written by a successful ingest is what the next latest-read
/// returns: the caller's four fields unchanged, under the id and capture time
/// that the store assigned.
pub proof fn law_ingest_then_latest(before: MetricsStore, after: MetricsStore, s: MetricsSnapshot, now: u64)
    requires
        before.wf(),
        after@ == before@.push(before.pending_row(s, now)),
    ensures
        latest_of(after@) == Some(before.pending_row(s, now)),
        latest_of(after@)->Some_0.snapshot == s,
        latest_of(after@)->Some_0.id == before.next_id(),
        latest_reply(after@) == Reply::Metrics(before.pending_row(s, now)),
{
}

/// Latest-read on an empty store finds nothing; on a store of one row it
/// finds that row; on any store it finds the most recently appended row,
/// which has a greater id than every earlier row.
pub proof fn law_latest_is_most_recent(store: MetricsStore, row: StoredSnapshot)
    requires
        store.wf(),
    ensures
        latest_reply(Seq::<StoredSnapshot>::empty()) == Reply::NotFound,
        latest_of(Seq::<StoredSnapshot>::empty().push(row)) == Some(row),
        store@.len() > 0 ==> latest_of(store@) == Some(store@.last()),
        store@.len() > 0 ==> forall|i: int|
            0 <= i < store@.len() - 1 ==> #[trigger] store@[i].id < latest_of(store@)->Some_0.id,
{
    assert(rows_ordered(store@));
}

/// After a run of successful inserts, each appending one row to the state the
/// previous left, the store holds the starting rows followed by exactly the
/// inserted rows, in order: none lost, none duplicated. The latest row is then
/// the last one inserted.
pub proof fn law_inserts_counted(states: Seq<Seq<StoredSnapshot>>, rows: Seq<StoredSnapshot>)
    requires
        states.len() == rows.len() + 1,
        forall|i: int| 0 <= i < rows.len() ==> #[trigger] states[i + 1] == states[i].push(rows[i]),
    ensures
        states.last() == states[0] + rows,
        states.last().len() == states[0].len() + rows.len(),
        rows.len() > 0 ==> latest_of(states.last()) == Some(rows.last()),
    decreases rows.len(),
{
    if rows.len() == 0 {
        assert(states[0] + rows =~= states[0]);
    } else {
        let k = rows.len() - 1;
        let prefix_states = states.take(states.len() - 1);
        let prefix_rows = rows.take(k);
        assert forall|i: int| 0 <= i < prefix_rows.len() implies #[trigger] prefix_states[i + 1]
            == prefix_states[i].push(prefix_rows[i]) by {
            assert(states[i + 1] == states[i].push(rows[i]));
        }
        law_inserts_counted(prefix_states, prefix_rows);
        assert(states[k + 1] == states[k].push(rows[k]));
        assert(states[0] + rows =~= (states[0] + prefix_rows).push(rows[k]));
        assert((states[0] + rows).last() == rows.last());
    }
}

} // verus!
