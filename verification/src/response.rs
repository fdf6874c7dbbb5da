//! The records a query returns to its caller.

use vstd::prelude::*;

use crate::model::{BlockStats, DbBlock, PluginOutputEntry, SpendEntry, TokenData};

verus! {

/// One block's metadata: its positional record joined with its aggregate
/// statistics and its finality status.
#[derive(Clone, Copy, Debug, PartialEq, Eq)]
pub struct BlockInfo {
    /// The block's hash.
    pub hash: [u8; 32],
    /// The previous block's hash.
    pub prev_hash: [u8; 32],
    /// The block's height.
    pub height: i32,
    /// The block's difficulty bits.
    pub n_bits: u32,
    /// The block's timestamp.
    pub timestamp: i64,
    /// Whether the finality oracle has voted the block final.
    pub is_final: bool,
    /// The block's size in bytes.
    pub block_size: u64,
    /// The number of transactions in the block.
    pub num_txs: u64,
    /// The number of inputs over all transactions of the block.
    pub num_inputs: u64,
    /// The number of outputs over all transactions of the block.
    pub num_outputs: u64,
    /// The summed value of all inputs.
    pub sum_input_sats: i64,
    /// The summed value of the coinbase outputs.
    pub sum_coinbase_output_sats: i64,
    /// The summed value of all non-coinbase outputs.
    pub sum_normal_output_sats: i64,
    /// The summed burned value.
    pub sum_burned_sats: i64,
}

/// The metadata unit assembled from a block's record, its statistics and
/// its finality status.
pub open spec fn spec_block_info(b: DbBlock, s: BlockStats, is_final: bool) -> BlockInfo {
    BlockInfo {
        hash: b.hash,
        prev_hash: b.prev_hash,
        height: b.height,
        n_bits: b.n_bits,
        timestamp: b.timestamp,
        is_final: is_final,
        block_size: s.block_size,
        num_txs: s.num_txs,
        num_inputs: s.num_inputs,
        num_outputs: s.num_outputs,
        sum_input_sats: s.sum_input_sats,
        sum_coinbase_output_sats: s.sum_coinbase_output_sats,
        sum_normal_output_sats: s.sum_normal_output_sats,
        sum_burned_sats: s.sum_burned_sats,
    }
}

/// One transaction of a block, enriched for a single response: its index
/// record merged with its raw bytes, the spend status of its outputs, and
/// its optional token-layer and plugin-layer annotations. Built fresh per
/// request and never persisted.
#[derive(Debug, PartialEq, Eq)]
pub struct EnrichedTx {
    /// The transaction's identifying hash.
    pub txid: [u8; 32],
    /// The transaction's raw bytes, loaded from node storage.
    pub raw_tx: Vec<u8>,
    /// Which outputs are spent, and by what: unconfirmed spends from the
    /// mempool take precedence over confirmed spends from the index.
    pub spent_outputs: Vec<SpendEntry>,
    /// The token-layer annotation, when the token index is enabled.
    pub token: Option<TokenData>,
    /// The plugin-layer annotations, when at least one plugin is loaded.
    pub plugin_outputs: Vec<PluginOutputEntry>,
    /// When the transaction was first seen, as a Unix timestamp.
    pub time_first_seen: i64,
    /// Whether the transaction is a coinbase transaction.
    pub is_coinbase: bool,
    /// The hash of the block holding the transaction.
    pub block_hash: [u8; 32],
    /// The height of the block holding the transaction.
    pub block_height: i32,
}

/// One page of a block's transactions, with the derived totals.
#[derive(Debug, PartialEq, Eq)]
pub struct TxHistoryPage {
    /// The enriched transactions of the requested page, in sequence order.
    pub txs: Vec<EnrichedTx>,
    /// How many pages the block's transactions fill at the requested page
    /// size.
    pub num_pages: u32,
    /// How many transactions the block holds in total.
    pub num_txs: u32,
}

/// The chain tip: the hash and height of the highest indexed block, or the
/// empty-chain sentinel (an all-zero hash and height `-1`).
#[derive(Clone, Copy, Debug, PartialEq, Eq)]
pub struct BlockchainInfo {
    /// The tip block's hash, or 32 zero bytes for an empty index.
    pub tip_hash: [u8; 32],
    /// The tip block's height, or `-1` for an empty index.
    pub tip_height: i32,
}

} // verus!
