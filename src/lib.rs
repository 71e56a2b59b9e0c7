//! Chain-state metrics ingestion: the append-only metrics store, the node
//! query sequence that assembles one sample, the periodic ingestion
//! scheduler and the request handlers that read and write the store.

pub mod cache;
pub mod explorer;
pub mod laws;
pub mod rpc;
pub mod service;
pub mod snapshot;
pub mod store;
