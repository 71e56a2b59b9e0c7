use vstd::prelude::*;

use crate::cache::SharedData;

verus! {

/// The five figures that the proxy polls from the public block explorer.
#[derive(Clone, Copy, Debug, PartialEq, Eq, Structural)]
pub enum ExplorerMetric {
    MempoolSize,
    BlockHeight,
    TotalCirculatingBitcoin,
    MarketPrice,
    AverageBlockSize,
}

/// What one poll of the explorer produced.
pub enum ExplorerReply {
    /// The request could not be sent or no response came.
    Unreachable,
    /// A response with a non-success status.
    Failed,
    /// A success status, and the body if it could be read.
    Succeeded(Option<String>),
}

pub open spec fn error_text(m: ExplorerMetric) -> Seq<char> {
    match m {
        ExplorerMetric::MempoolSize => "Error fetching mempool size"@,
        ExplorerMetric::BlockHeight => "Error fetching block height"@,
        ExplorerMetric::TotalCirculatingBitcoin => "Error fetching total circulating bitcoin"@,
        ExplorerMetric::MarketPrice => "Error fetching market price"@,
        ExplorerMetric::AverageBlockSize => "Error fetching average block size"@,
    }
}

/// The compact JSON text of the `USD.last` member of a ticker document
/// (`null` where the body is not JSON or holds no such member).
pub uninterp spec fn usd_last_text(body: Seq<char>) -> Seq<char>;

/// Relies on serde_json::from_str, indexing of serde_json::Value and its
/// Display: the result depends on the body's text alone.
#[verifier::external_body]
fn usd_last_price(body: &str) -> (r: String)
    ensures
        r@ == usd_last_text(body@),
{
    let v: serde_json::Value = serde_json::from_str(body).unwrap_or(serde_json::Value::Null);
    v["USD"]["last"].to_string()
}

/// The text shown for `m` after one poll. The market price is the `USD.last`
/// member of the ticker document; an unreadable ticker body shows `null`.
pub open spec fn poll_text(m: ExplorerMetric, reply: ExplorerReply) -> Seq<char> {
    match reply {
        ExplorerReply::Unreachable => "Unable to fetch data"@,
        ExplorerReply::Failed => error_text(m),
        ExplorerReply::Succeeded(None) => if m == ExplorerMetric::MarketPrice {
            "null"@
        } else {
            error_text(m)
        },
        ExplorerReply::Succeeded(Some(body)) => if m == ExplorerMetric::MarketPrice {
            usd_last_text(body@)
        } else {
            body@
        },
    }
}

/// The explorer endpoint polled for each figure.
pub fn explorer_url(m: ExplorerMetric) -> (r: &'static str)
    ensures
        m == ExplorerMetric::MempoolSize ==> r == "https://blockchain.info/q/unconfirmedcount",
        m == ExplorerMetric::BlockHeight ==> r == "https://blockchain.info/q/getblockcount",
        m == ExplorerMetric::TotalCirculatingBitcoin ==> r == "https://blockchain.info/q/totalbc",
        m == ExplorerMetric::MarketPrice ==> r == "https://blockchain.info/ticker",
        m == ExplorerMetric::AverageBlockSize ==> r == "https://blockchain.info/q/24hravgblocksize",
{
    match m {
        ExplorerMetric::MempoolSize => "https://blockchain.info/q/unconfirmedcount",
        ExplorerMetric::BlockHeight => "https://blockchain.info/q/getblockcount",
        ExplorerMetric::TotalCirculatingBitcoin => "https://blockchain.info/q/totalbc",
        ExplorerMetric::MarketPrice => "https://blockchain.info/ticker",
        ExplorerMetric::AverageBlockSize => "https://blockchain.info/q/24hravgblocksize",
    }
}

/// The text for a figure that cannot be read, per figure.
pub fn fetch_error_text(m: ExplorerMetric) -> (r: &'static str)
    ensures
        r@ == error_text(m),
{
    match m {
        ExplorerMetric::MempoolSize => "Error fetching mempool size",
        ExplorerMetric::BlockHeight => "Error fetching block height",
        ExplorerMetric::TotalCirculatingBitcoin => "Error fetching total circulating bitcoin",
        ExplorerMetric::MarketPrice => "Error fetching market price",
        ExplorerMetric::AverageBlockSize => "Error fetching average block size",
    }
}

/// The text shown for `m` after one poll: what the body holds on success,
/// otherwise a fixed error text.
pub fn fetched_text(m: ExplorerMetric, reply: ExplorerReply) -> (r: String)
    ensures
        r@ == poll_text(m, reply),
{
    match reply {
        ExplorerReply::Unreachable => String::from_str("Unable to fetch data"),
        ExplorerReply::Failed => String::from_str(fetch_error_text(m)),
        ExplorerReply::Succeeded(None) => if m == ExplorerMetric::MarketPrice {
            String::from_str("null")
        } else {
            String::from_str(fetch_error_text(m))
        },
        ExplorerReply::Succeeded(Some(body)) => if m == ExplorerMetric::MarketPrice {
            usd_last_price(body.as_str())
        } else {
            body
        },
    }
}

impl SharedData {
    /// Replaces all five figures with the texts of one round of polls.
    pub fn refresh(
        &mut self,
        mempool_size: ExplorerReply,
        block_height: ExplorerReply,
        total_circulating_bitcoin: ExplorerReply,
        market_price: ExplorerReply,
        average_block_size: ExplorerReply,
    )
        ensures
            final(self).mempool_size@ == poll_text(ExplorerMetric::MempoolSize, mempool_size),
            final(self).block_height@ == poll_text(ExplorerMetric::BlockHeight, block_height),
            final(self).total_circulating_bitcoin@ == poll_text(
                ExplorerMetric::TotalCirculatingBitcoin,
                total_circulating_bitcoin,
            ),
            final(self).market_price@ == poll_text(ExplorerMetric::MarketPrice, market_price),
            final(self).average_block_size@ == poll_text(
                ExplorerMetric::AverageBlockSize,
                average_block_size,
            ),
    {
        self.mempool_size = fetched_text(ExplorerMetric::MempoolSize, mempool_size);
        self.block_height = fetched_text(ExplorerMetric::BlockHeight, block_height);
        self.total_circulating_bitcoin = fetched_text(
            ExplorerMetric::TotalCirculatingBitcoin,
            total_circulating_bitcoin,
        );
        self.market_price = fetched_text(ExplorerMetric::MarketPrice, market_price);
        self.average_block_size = fetched_text(ExplorerMetric::AverageBlockSize, average_block_size);
    }
}

} // verus!
