use vstd::prelude::*;

verus! {

/// The five display strings that the explorer-polling proxy caches between
/// refreshes.
pub struct SharedData {
    pub mempool_size: String,
    pub block_height: String,
    pub total_circulating_bitcoin: String,
    pub market_price: String,
    pub average_block_size: String,
}

impl SharedData {
    /// A cache with nothing fetched yet: every field is empty.
    pub fn new() -> (r: SharedData)
        ensures
            r.mempool_size@.len() == 0,
            r.block_height@.len() == 0,
            r.total_circulating_bitcoin@.len() == 0,
            r.market_price@.len() == 0,
            r.average_block_size@.len() == 0,
    {
        SharedData {
            mempool_size: String::new(),
            block_height: String::new(),
            total_circulating_bitcoin: String::new(),
            market_price: String::new(),
            average_block_size: String::new(),
        }
    }
}

} // verus!
