//! Read-path query layer of a blockchain indexer.
//!
//! The library answers requests for block metadata, raw block headers and
//! paginated transaction listings. It resolves a caller-supplied block
//! identifier (hash or height), validates height ranges, computes paginated
//! transaction windows with clamping arithmetic, and assembles responses by
//! merging records from an index snapshot, a mempool view, a finality oracle
//! and the node's block storage.

pub mod error;
pub mod ident;
pub mod model;
pub mod pagination;
pub mod query;
pub mod response;
