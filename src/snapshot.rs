use vstd::prelude::*;

verus! {

/// One sample of chain state. The two rate fields hold the IEEE-754 bit
/// pattern of the value, so that the library carries them without change.
#[derive(Clone, Copy, Debug, PartialEq, Eq, Structural)]
pub struct MetricsSnapshot {
    pub block_height: u64,
    pub network_hash_rate_bits: u64,
    pub difficulty_bits: u64,
    pub mempool_size: u64,
}

/// A snapshot as kept by the store: the caller's fields plus the surrogate
/// key and capture time (seconds since the Unix epoch) that the store assigned.
#[derive(Clone, Copy, Debug, PartialEq, Eq, Structural)]
pub struct StoredSnapshot {
    pub id: u64,
    pub captured_at: u64,
    pub snapshot: MetricsSnapshot,
}

/// `a` comes no earlier than `b` in the store's order: by capture time, ties
/// broken by id.
pub open spec fn not_before(a: StoredSnapshot, b: StoredSnapshot) -> bool {
    a.captured_at > b.captured_at || (a.captured_at == b.captured_at && a.id >= b.id)
}

impl MetricsSnapshot {
    pub fn new(
        block_height: u64,
        network_hash_rate_bits: u64,
        difficulty_bits: u64,
        mempool_size: u64,
    ) -> (r: MetricsSnapshot)
        ensures
            r.block_height == block_height,
            r.network_hash_rate_bits == network_hash_rate_bits,
            r.difficulty_bits == difficulty_bits,
            r.mempool_size == mempool_size,
    {
        MetricsSnapshot { block_height, network_hash_rate_bits, difficulty_bits, mempool_size }
    }
}

} // verus!
