use vstd::prelude::*;

use crate::snapshot::MetricsSnapshot;

verus! {

/// The four queries that make up one sample, in the order they are sent.
#[derive(Clone, Copy, Debug, PartialEq, Eq, Structural)]
pub enum NodeQuery {
    /// Current block count.
    BlockCount,
    /// Estimated network hash rate over the default window (answer: bit pattern).
    NetworkHashRate,
    /// Current difficulty (answer: bit pattern).
    Difficulty,
    /// Identifiers of the pending transactions (answer: how many).
    RawMempool,
}

#[derive(Clone, Copy, Debug, PartialEq, Eq, Structural)]
pub enum RpcErrorKind {
    /// The node could not be reached or its answer could not be read.
    Transport,
    /// The node answered with an error.
    Rejected,
}

/// A failed query, and which one it was.
#[derive(Clone, Copy, Debug, PartialEq, Eq, Structural)]
pub struct RpcError {
    pub query: NodeQuery,
    pub kind: RpcErrorKind,
}

pub const QUERY_COUNT: usize = 4;

/// The query sent in position `i` of a sample.
pub open spec fn query_at(i: int) -> NodeQuery {
    if i == 0 {
        NodeQuery::BlockCount
    } else if i == 1 {
        NodeQuery::NetworkHashRate
    } else if i == 2 {
        NodeQuery::Difficulty
    } else {
        NodeQuery::RawMempool
    }
}

/// The sample made of the four answers, in query order.
pub open spec fn snapshot_of(answers: Seq<u64>) -> MetricsSnapshot {
    MetricsSnapshot {
        block_height: answers[0],
        network_hash_rate_bits: answers[1],
        difficulty_bits: answers[2],
        mempool_size: answers[3],
    }
}

/// The progress of one sample: the queries are sent one at a time, in order;
/// the first that fails ends the sample with no partial result.
pub struct SnapshotFetch {
    answers: Vec<u64>,
    failure: Option<RpcError>,
}

impl SnapshotFetch {
    /// The answers received so far, in query order.
    pub closed spec fn answers(&self) -> Seq<u64> {
        self.answers@
    }

    /// The failure that ended the sample, if one did.
    pub closed spec fn failure(&self) -> Option<RpcError> {
        self.failure
    }

    pub open spec fn wf(&self) -> bool {
        &&& self.answers().len() <= QUERY_COUNT
        &&& self.failure() is Some ==> self.answers().len() < QUERY_COUNT
            && self.failure()->Some_0.query == query_at(self.answers().len() as int)
    }

    pub open spec fn done(&self) -> bool {
        self.failure() is Some || self.answers().len() == QUERY_COUNT
    }

    pub fn new() -> (r: SnapshotFetch)
        ensures
            r.wf(),
            r.answers().len() == 0,
            r.failure() is None,
    {
        SnapshotFetch { answers: Vec::new(), failure: None }
    }

    /// The query to send next, or `None` once the sample is complete or failed.
    pub fn next_query(&self) -> (r: Option<NodeQuery>)
        requires
            self.wf(),
        ensures
            r == (if self.done() {
                None::<NodeQuery>
            } else {
                Some(query_at(self.answers().len() as int))
            }),
    {
        if self.failure.is_some() {
            return None;
        }
        let n = self.answers.len();
        if n == 0 {
            Some(NodeQuery::BlockCount)
        } else if n == 1 {
            Some(NodeQuery::NetworkHashRate)
        } else if n == 2 {
            Some(NodeQuery::Difficulty)
        } else if n == 3 {
            Some(NodeQuery::RawMempool)
        } else {
            None
        }
    }

    /// Takes the node's answer to the query that `next_query` named. An
    /// answer that arrives after the sample is complete or failed is ignored.
    pub fn record(&mut self, answer: Result<u64, RpcErrorKind>)
        requires
            old(self).wf(),
        ensures
            final(self).wf(),
            old(self).done() ==> *final(self) == *old(self),
            !old(self).done() && answer is Ok ==> final(self).answers() == old(self).answers().push(
                answer->Ok_0,
            ) && final(self).failure() is None,
            !old(self).done() && answer is Err ==> final(self).answers() == old(self).answers()
                && final(self).failure() == Some(
                RpcError {
                    query: query_at(old(self).answers().len() as int),
                    kind: answer->Err_0,
                },
            ),
    {
        match self.next_query() {
            None => {},
            Some(query) => match answer {
                Ok(v) => self.answers.push(v),
                Err(kind) => self.failure = Some(RpcError { query, kind }),
            },
        }
    }

    /// The result of the sample: `None` while queries remain, the failure
    /// that ended it, or the sample built from the four answers.
    pub fn outcome(&self) -> (r: Option<Result<MetricsSnapshot, RpcError>>)
        requires
            self.wf(),
        ensures
            !self.done() ==> r is None,
            self.failure() is Some ==> r == Some(
                Err::<MetricsSnapshot, RpcError>(self.failure()->Some_0),
            ),
            self.failure() is None && self.answers().len() == QUERY_COUNT ==> r == Some(
                Ok::<MetricsSnapshot, RpcError>(snapshot_of(self.answers())),
            ),
    {
        match self.failure {
            Some(e) => Some(Err(e)),
            None => {
                if self.answers.len() == QUERY_COUNT {
                    Some(
                        Ok(
                            MetricsSnapshot {
                                block_height: self.answers[0],
                                network_hash_rate_bits: self.answers[1],
                                difficulty_bits: self.answers[2],
                                mempool_size: self.answers[3],
                            },
                        ),
                    )
                } else {
                    None
                }
            },
        }
    }
}

} // verus!
