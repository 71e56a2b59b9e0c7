use chain_metrics::cache::SharedData;
use chain_metrics::rpc::{NodeQuery, RpcError, RpcErrorKind, SnapshotFetch};
use chain_metrics::snapshot::MetricsSnapshot;

#[test]
fn queries_run_in_order_and_build_the_sample() {
    let mut f = SnapshotFetch::new();
    let answers = [800000u64, 3.5e20f64.to_bits(), 7.2e13f64.to_bits(), 12000];
    let order = [NodeQuery::BlockCount, NodeQuery::NetworkHashRate, NodeQuery::Difficulty, NodeQuery::RawMempool];
    for i in 0..4 {
        assert_eq!(f.outcome(), None);
        assert_eq!(f.next_query(), Some(order[i]));
        f.record(Ok(answers[i]));
    }
    assert_eq!(f.next_query(), None);
    let expected = MetricsSnapshot::new(800000, 3.5e20f64.to_bits(), 7.2e13f64.to_bits(), 12000);
    assert_eq!(f.outcome(), Some(Ok(expected)));
}

#[test]
fn first_failure_aborts_the_sample() {
    let mut f = SnapshotFetch::new();
    f.record(Ok(1));
    f.record(Ok(2));
    assert_eq!(f.next_query(), Some(NodeQuery::Difficulty));
    f.record(Err(RpcErrorKind::Rejected));
    assert_eq!(f.next_query(), None);
    let err = RpcError { query: NodeQuery::Difficulty, kind: RpcErrorKind::Rejected };
    assert_eq!(f.outcome(), Some(Err(err)));
    f.record(Ok(5));
    assert_eq!(f.outcome(), Some(Err(err)));
}

#[test]
fn unreachable_node_fails_on_first_query() {
    let mut f = SnapshotFetch::new();
    f.record(Err(RpcErrorKind::Transport));
    assert_eq!(f.outcome(), Some(Err(RpcError { query: NodeQuery::BlockCount, kind: RpcErrorKind::Transport })));
}

#[test]
fn shared_data_starts_empty() {
    let d = SharedData::new();
    assert!(d.mempool_size.is_empty());
    assert!(d.block_height.is_empty());
    assert!(d.total_circulating_bitcoin.is_empty());
    assert!(d.market_price.is_empty());
    assert!(d.average_block_size.is_empty());
}
