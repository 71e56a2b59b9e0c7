use vstd::prelude::*;

use crate::snapshot::{not_before, MetricsSnapshot, StoredSnapshot};

verus! {

/// Why a write to the store did not happen.
#[derive(Clone, Copy, Debug, PartialEq, Eq, Structural)]
pub enum StoreError {
    /// The durable medium could not be written or read.
    Unavailable,
    /// Every surrogate key has been handed out.
    IdsExhausted,
}

/// The rows are strictly increasing in id and never decreasing in capture time.
pub open spec fn rows_ordered(rows: Seq<StoredSnapshot>) -> bool {
    forall|i: int, j: int|
        0 <= i < j < rows.len() ==> #[trigger] rows[i].id < #[trigger] rows[j].id
            && rows[i].captured_at <= rows[j].captured_at
}

/// The most recent row: the last one appended, if any.
pub open spec fn latest_of(rows: Seq<StoredSnapshot>) -> Option<StoredSnapshot> {
    if rows.len() == 0 {
        None
    } else {
        Some(rows.last())
    }
}

/// The append-only table of samples. Rows are never changed or removed.
pub struct MetricsStore {
    rows: Vec<StoredSnapshot>,
    next_id: u64,
}

impl View for MetricsStore {
    type V = Seq<StoredSnapshot>;

    closed spec fn view(&self) -> Seq<StoredSnapshot> {
        self.rows@
    }
}

impl MetricsStore {
    /// The id that the next appended row receives.
    pub closed spec fn next_id(&self) -> u64 {
        self.next_id
    }

    pub open spec fn wf(&self) -> bool {
        &&& rows_ordered(self@)
        &&& forall|i: int| 0 <= i < self@.len() ==> #[trigger] self@[i].id < self.next_id()
        &&& 1 <= self.next_id()
    }

    /// The capture time given to a row written at clock reading `now`: the
    /// clock reading, raised to the latest capture time if the clock went back.
    pub open spec fn capture_time(&self, now: u64) -> u64 {
        if self@.len() > 0 && now < self@.last().captured_at {
            self@.last().captured_at
        } else {
            now
        }
    }

    /// The row that inserting `s` at clock reading `now` appends.
    pub open spec fn pending_row(&self, s: MetricsSnapshot, now: u64) -> StoredSnapshot {
        StoredSnapshot { id: self.next_id(), captured_at: self.capture_time(now), snapshot: s }
    }

    /// An empty store; the first row gets id 1.
    pub fn new() -> (r: MetricsStore)
        ensures
            r.wf(),
            r@.len() == 0,
            r.next_id() == 1,
    {
        MetricsStore { rows: Vec::new(), next_id: 1 }
    }

    pub fn len(&self) -> (r: usize)
        ensures
            r == self@.len(),
    {
        self.rows.len()
    }

    /// The row that `insert(s, now, ..)` would append, or `None` when the
    /// ids are exhausted. It is what gets written to the durable medium.
    pub fn next_row(&self, s: MetricsSnapshot, now: u64) -> (r: Option<StoredSnapshot>)
        requires
            self.wf(),
        ensures
            r == (if self.next_id() == u64::MAX {
                None::<StoredSnapshot>
            } else {
                Some(self.pending_row(s, now))
            }),
    {
        if self.next_id == u64::MAX {
            return None;
        }
        let n = self.rows.len();
        let captured_at = if n > 0 && now < self.rows[n - 1].captured_at {
            self.rows[n - 1].captured_at
        } else {
            now
        };
        Some(StoredSnapshot { id: self.next_id, captured_at, snapshot: s })
    }

    /// Appends `s` as a new row. `durable` is the outcome of writing that row
    /// (see `next_row`) to the durable medium: the row is kept only if that
    /// write succeeded.
    pub fn insert(&mut self, s: MetricsSnapshot, now: u64, durable: Result<(), StoreError>) -> (r:
        Result<StoredSnapshot, StoreError>)
        requires
            old(self).wf(),
        ensures
            final(self).wf(),
            old(self).next_id() == u64::MAX ==> r == Err::<StoredSnapshot, StoreError>(
                StoreError::IdsExhausted,
            ),
            old(self).next_id() < u64::MAX && durable is Err ==> r == Err::<
                StoredSnapshot,
                StoreError,
            >(durable->Err_0),
            old(self).next_id() < u64::MAX && durable is Ok ==> r == Ok::<
                StoredSnapshot,
                StoreError,
            >(old(self).pending_row(s, now)),
            r is Ok ==> final(self)@ == old(self)@.push(r->Ok_0) && final(self).next_id()
                == old(self).next_id() + 1,
            r is Err ==> final(self)@ == old(self)@ && final(self).next_id() == old(self).next_id(),
    {
        let row = match self.next_row(s, now) {
            None => return Err(StoreError::IdsExhausted),
            Some(row) => row,
        };
        if let Err(e) = durable {
            return Err(e);
        }
        proof {
            let rows = self@;
            if rows.len() > 0 {
                assert forall|i: int| 0 <= i < rows.len() implies rows[i].captured_at
                    <= row.captured_at by {
                    if i < rows.len() - 1 {
                        assert(rows[i].id < rows[rows.len() - 1].id);
                    }
                }
            }
        }
        self.rows.push(row);
        self.next_id = self.next_id + 1;
        Ok(row)
    }

    /// Appends a row read back from the durable medium, if it keeps the
    /// store's order: its id is at least the next id and its capture time is
    /// no earlier than the latest row's. Otherwise the store is unchanged.
    pub fn restore(&mut self, row: StoredSnapshot) -> (r: bool)
        requires
            old(self).wf(),
        ensures
            final(self).wf(),
            r == (old(self).next_id() <= row.id < u64::MAX && (old(self)@.len() == 0
                || old(self)@.last().captured_at <= row.captured_at)),
            r ==> final(self)@ == old(self)@.push(row) && final(self).next_id() == row.id + 1,
            !r ==> final(self)@ == old(self)@ && final(self).next_id() == old(self).next_id(),
    {
        let n = self.rows.len();
        if row.id < self.next_id || row.id == u64::MAX {
            return false;
        }
        if n > 0 && row.captured_at < self.rows[n - 1].captured_at {
            return false;
        }
        proof {
            let rows = self@;
            if rows.len() > 0 {
                assert forall|i: int| 0 <= i < rows.len() implies rows[i].captured_at
                    <= row.captured_at by {
                    if i < rows.len() - 1 {
                        assert(rows[i].id < rows[rows.len() - 1].id);
                    }
                }
            }
        }
        self.rows.push(row);
        self.next_id = row.id + 1;
        true
    }

    /// The row with the greatest capture time (ties broken by id), or `None`
    /// on an empty store.
    pub fn latest(&self) -> (r: Option<StoredSnapshot>)
        requires
            self.wf(),
        ensures
            r == latest_of(self@),
            r matches Some(row) ==> forall|i: int|
                0 <= i < self@.len() ==> not_before(row, #[trigger] self@[i]),
    {
        let n = self.rows.len();
        if n == 0 {
            None
        } else {
            let row = self.rows[n - 1];
            proof {
                let rows = self@;
                assert forall|i: int| 0 <= i < rows.len() implies not_before(row, #[trigger] rows[i]) by {
                    if i < rows.len() - 1 {
                        assert(rows[i].id < rows[rows.len() - 1].id);
                    }
                }
            }
            Some(row)
        }
    }
}

} // verus!
