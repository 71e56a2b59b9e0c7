use vstd::prelude::*;

use crate::rpc::RpcError;
use crate::snapshot::{MetricsSnapshot, StoredSnapshot};
use crate::store::{latest_of, MetricsStore, StoreError};

verus! {

/// Seconds between two scheduled ingestion cycles.
pub const INGEST_INTERVAL_SECS: u64 = 60;

/// What a request handler answers. Error details never reach the caller.
#[derive(Clone, Copy, Debug, PartialEq, Eq, Structural)]
pub enum Reply {
    Greeting,
    Ingested,
    FetchedAndIngested,
    IngestFailed,
    FetchFailed,
    Metrics(StoredSnapshot),
    NotFound,
}

pub open spec fn status_of(r: Reply) -> u16 {
    match r {
        Reply::Greeting | Reply::Ingested | Reply::FetchedAndIngested | Reply::Metrics(_) => 200,
        Reply::IngestFailed | Reply::FetchFailed => 500,
        Reply::NotFound => 404,
    }
}

impl Reply {
    /// The HTTP status code of the reply.
    pub fn status(&self) -> (r: u16)
        ensures
            r == status_of(*self),
    {
        match self {
            Reply::Greeting | Reply::Ingested | Reply::FetchedAndIngested | Reply::Metrics(_) => 200,
            Reply::IngestFailed | Reply::FetchFailed => 500,
            Reply::NotFound => 404,
        }
    }

    /// The fixed message the reply carries, if it carries one.
    pub fn message(&self) -> (r: Option<&'static str>)
        ensures
            *self == Reply::Greeting ==> r == Some("Welcome to the Blockchain Server"),
            *self == Reply::Ingested ==> r == Some("Data ingested successfully"),
            *self == Reply::FetchedAndIngested ==> r == Some(
                "Data fetched and ingested successfully",
            ),
            *self == Reply::IngestFailed ==> r == Some("Failed to ingest data"),
            *self == Reply::FetchFailed ==> r == Some("Failed to fetch data from Bitcoin Core"),
            self is Metrics || self is NotFound ==> r is None,
    {
        match self {
            Reply::Greeting => Some("Welcome to the Blockchain Server"),
            Reply::Ingested => Some("Data ingested successfully"),
            Reply::FetchedAndIngested => Some("Data fetched and ingested successfully"),
            Reply::IngestFailed => Some("Failed to ingest data"),
            Reply::FetchFailed => Some("Failed to fetch data from Bitcoin Core"),
            Reply::Metrics(_) | Reply::NotFound => None,
        }
    }
}

/// How one ingestion cycle ended.
#[derive(Clone, Copy, Debug, PartialEq, Eq, Structural)]
pub enum CycleOutcome {
    Stored(StoredSnapshot),
    FetchFailed(RpcError),
    StoreFailed(StoreError),
}

/// What one fetch-then-insert cycle does to a store, given what the node
/// query and the durable write returned: a failed fetch writes nothing.
pub open spec fn cycle_effect(
    before: MetricsStore,
    after: MetricsStore,
    fetched: Result<MetricsSnapshot, RpcError>,
    now: u64,
    durable: Result<(), StoreError>,
    r: CycleOutcome,
) -> bool {
    match fetched {
        Err(e) => r == CycleOutcome::FetchFailed(e) && after@ == before@ && after.next_id()
            == before.next_id(),
        Ok(s) => if before.next_id() == u64::MAX {
            r == CycleOutcome::StoreFailed(StoreError::IdsExhausted) && after@ == before@
                && after.next_id() == before.next_id()
        } else if durable is Err {
            r == CycleOutcome::StoreFailed(durable->Err_0) && after@ == before@ && after.next_id()
                == before.next_id()
        } else {
            r == CycleOutcome::Stored(before.pending_row(s, now)) && after@ == before@.push(
                before.pending_row(s, now),
            ) && after.next_id() == before.next_id() + 1
        },
    }
}

/// One ingestion cycle: on a fetched sample, insert it; on a failed fetch,
/// leave the store alone. `durable` is ignored when the fetch failed.
pub fn ingest_cycle(
    store: &mut MetricsStore,
    fetched: Result<MetricsSnapshot, RpcError>,
    now: u64,
    durable: Result<(), StoreError>,
) -> (r: CycleOutcome)
    requires
        old(store).wf(),
    ensures
        final(store).wf(),
        cycle_effect(*old(store), *final(store), fetched, now, durable, r),
{
    match fetched {
        Err(e) => CycleOutcome::FetchFailed(e),
        Ok(s) => match store.insert(s, now, durable) {
            Ok(row) => CycleOutcome::Stored(row),
            Err(e) => CycleOutcome::StoreFailed(e),
        },
    }
}

/// `GET /`: a fixed greeting, touching nothing.
pub fn index() -> (r: Reply)
    ensures
        r == Reply::Greeting,
{
    Reply::Greeting
}

/// `POST /ingest`: writes the caller's sample verbatim.
pub fn ingest(
    store: &mut MetricsStore,
    s: MetricsSnapshot,
    now: u64,
    durable: Result<(), StoreError>,
) -> (r: Reply)
    requires
        old(store).wf(),
    ensures
        final(store).wf(),
        (r == Reply::Ingested) == (old(store).next_id() < u64::MAX && durable is Ok),
        r == Reply::Ingested || r == Reply::IngestFailed,
        r == Reply::Ingested ==> final(store)@ == old(store)@.push(old(store).pending_row(s, now)),
        r == Reply::IngestFailed ==> final(store)@ == old(store)@,
{
    match store.insert(s, now, durable) {
        Ok(_) => Reply::Ingested,
        Err(_) => Reply::IngestFailed,
    }
}

/// `POST /fetch_and_ingest`: the node's sample, then the insert, in that order.
pub fn fetch_and_ingest(
    store: &mut MetricsStore,
    fetched: Result<MetricsSnapshot, RpcError>,
    now: u64,
    durable: Result<(), StoreError>,
) -> (r: Reply)
    requires
        old(store).wf(),
    ensures
        final(store).wf(),
        fetched is Err ==> r == Reply::FetchFailed && final(store)@ == old(store)@,
        fetched is Ok ==> ((r == Reply::FetchedAndIngested) == (old(store).next_id() < u64::MAX
            && durable is Ok)),
        fetched is Ok ==> (r == Reply::FetchedAndIngested || r == Reply::IngestFailed),
        r == Reply::FetchedAndIngested ==> final(store)@ == old(store)@.push(
            old(store).pending_row(fetched->Ok_0, now),
        ),
        r != Reply::FetchedAndIngested ==> final(store)@ == old(store)@,
{
    match ingest_cycle(store, fetched, now, durable) {
        CycleOutcome::Stored(_) => Reply::FetchedAndIngested,
        CycleOutcome::FetchFailed(_) => Reply::FetchFailed,
        CycleOutcome::StoreFailed(_) => Reply::IngestFailed,
    }
}

/// The reply for the store's latest row.
pub open spec fn latest_reply(rows: Seq<StoredSnapshot>) -> Reply {
    match latest_of(rows) {
        Some(row) => Reply::Metrics(row),
        None => Reply::NotFound,
    }
}

/// `GET /fetch_metrics`: the latest row, or not-found on an empty store.
pub fn fetch_metrics(store: &MetricsStore) -> (r: Reply)
    requires
        store.wf(),
    ensures
        r == latest_reply(store@),
{
    match store.latest() {
        Some(row) => Reply::Metrics(row),
        None => Reply::NotFound,
    }
}

/// The scheduler's state: waiting for the next tick, running a cycle, or
/// stopped for good.
#[derive(Clone, Copy, Debug, PartialEq, Eq, Structural)]
pub enum SchedulerPhase {
    Waiting,
    Fetching,
    Stopped,
}

/// The periodic ingestion loop's decisions. The runner waits
/// `INGEST_INTERVAL_SECS` between ticks, performs the fetch when `tick`
/// says so, and hands the results to `finish_cycle`.
pub struct IngestScheduler {
    pub phase: SchedulerPhase,
}

impl IngestScheduler {
    pub fn new() -> (r: IngestScheduler)
        ensures
            r.phase == SchedulerPhase::Waiting,
    {
        IngestScheduler { phase: SchedulerPhase::Waiting }
    }

    /// A tick of the interval: a waiting scheduler starts a cycle and answers
    /// `true`; otherwise nothing changes.
    pub fn tick(&mut self) -> (r: bool)
        ensures
            r == (old(self).phase == SchedulerPhase::Waiting),
            r ==> final(self).phase == SchedulerPhase::Fetching,
            !r ==> final(self).phase == old(self).phase,
    {
        if self.phase == SchedulerPhase::Waiting {
            self.phase = SchedulerPhase::Fetching;
            true
        } else {
            false
        }
    }

    /// Ends the running cycle: inserts the fetched sample, then goes back to
    /// waiting whatever the outcome.
    /// Outside a cycle it does nothing and answers `None`.
    pub fn finish_cycle(
        &mut self,
        store: &mut MetricsStore,
        fetched: Result<MetricsSnapshot, RpcError>,
        now: u64,
        durable: Result<(), StoreError>,
    ) -> (r: Option<CycleOutcome>)
        requires
            old(store).wf(),
        ensures
            final(store).wf(),
            old(self).phase == SchedulerPhase::Fetching ==> r is Some && cycle_effect(
                *old(store),
                *final(store),
                fetched,
                now,
                durable,
                r->Some_0,
            ) && final(self).phase == SchedulerPhase::Waiting,
            old(self).phase != SchedulerPhase::Fetching ==> r is None && *final(store)
                == *old(store) && final(self).phase == old(self).phase,
    {
        if self.phase != SchedulerPhase::Fetching {
            return None;
        }
        let outcome = ingest_cycle(store, fetched, now, durable);
        self.phase = SchedulerPhase::Waiting;
        Some(outcome)
    }

    /// Stops the scheduler: no cycle starts after this.
    pub fn cancel(&mut self)
        ensures
            final(self).phase == SchedulerPhase::Stopped,
    {
        self.phase = SchedulerPhase::Stopped;
    }
}

} // verus!
