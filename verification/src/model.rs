//! The data model of the query layer's collaborators.
//!
//! Every operation is a pure read against snapshots: a persistent index
//! (`Db`), a mempool view (`Mempool`), a finality oracle (`Avalanche`), the
//! node's block storage (`Bridge`), and the registry of loaded plugins
//! (`PluginNameMap`). A snapshot holds as plain values exactly what the
//! query logic reads; heights index the block tables directly and global
//! transaction sequence numbers index the transaction tables directly.

use vstd::prelude::*;

verus! {

/// A block's height in the chain.
pub type BlockHeight = i32;

/// A transaction's global sequence number across all indexed blocks.
pub type TxNum = u64;

/// A block's positional record in the persistent index.
#[derive(Clone, Copy, Debug, PartialEq, Eq)]
pub struct DbBlock {
    /// The block's hash.
    pub hash: [u8; 32],
    /// The previous block's hash.
    pub prev_hash: [u8; 32],
    /// The block's height.
    pub height: BlockHeight,
    /// The block's difficulty bits.
    pub n_bits: u32,
    /// The block's timestamp.
    pub timestamp: i64,
    /// The number of the node storage file holding the block.
    pub file_num: u32,
    /// The block's byte position inside that file.
    pub data_pos: u32,
}

/// Aggregate counters for one block.
#[derive(Clone, Copy, Debug, PartialEq, Eq)]
pub struct BlockStats {
    /// The block's size in bytes.
    pub block_size: u64,
    /// The number of transactions in the block.
    pub num_txs: u64,
    /// The number of inputs over all transactions of the block.
    pub num_inputs: u64,
    /// The number of outputs over all transactions of the block.
    pub num_outputs: u64,
    /// The summed value of all inputs.
    pub sum_input_sats: i64,
    /// The summed value of the coinbase outputs.
    pub sum_coinbase_output_sats: i64,
    /// The summed value of all non-coinbase outputs.
    pub sum_normal_output_sats: i64,
    /// The summed burned value.
    pub sum_burned_sats: i64,
}

/// The half-open range `[start, end)` of global transaction sequence
/// numbers belonging to one block.
#[derive(Clone, Copy, Debug, PartialEq, Eq)]
pub struct TxNumRange {
    /// The first sequence number of the block.
    pub start: TxNum,
    /// One past the last sequence number of the block.
    pub end: TxNum,
}

/// A per-transaction record in the persistent index.
#[derive(Clone, Copy, Debug, PartialEq, Eq)]
pub struct TxEntry {
    /// The transaction's identifying hash.
    pub txid: [u8; 32],
    /// The transaction's byte position in node storage.
    pub data_pos: u32,
    /// The byte position of the transaction's undo data.
    pub undo_pos: u32,
    /// When the transaction was first seen, as a Unix timestamp.
    pub time_first_seen: i64,
    /// Whether the transaction is a coinbase transaction.
    pub is_coinbase: bool,
}

/// One spent output: output `out_idx` of some transaction is spent by
/// input `input_idx` of the transaction with id `txid`.
#[derive(Clone, Copy, Debug, PartialEq, Eq)]
pub struct SpendEntry {
    /// The index of the spent output.
    pub out_idx: u32,
    /// The id of the spending transaction.
    pub txid: [u8; 32],
    /// The index of the spending input within that transaction.
    pub input_idx: u32,
}

/// A token-layer annotation of one transaction.
#[derive(Clone, Copy, Debug, PartialEq, Eq)]
pub struct TokenData {
    /// The id of the token the transaction operates on.
    pub token_id: [u8; 32],
}

/// A plugin-layer annotation of one transaction output.
#[derive(Debug, PartialEq, Eq)]
pub struct PluginOutputEntry {
    /// The index of the annotated output.
    pub out_idx: u32,
    /// The index of the plugin that wrote the annotation.
    pub plugin_idx: u32,
    /// The annotation bytes.
    pub data: Vec<u8>,
}

/// `a` and `b` carry the same plugin annotation.
pub open spec fn plugin_entry_matches(a: PluginOutputEntry, b: PluginOutputEntry) -> bool {
    a.out_idx == b.out_idx && a.plugin_idx == b.plugin_idx && a.data@ == b.data@
}

/// `a` and `b` carry the same plugin annotations in the same order.
pub open spec fn plugin_entries_match(a: Seq<PluginOutputEntry>, b: Seq<PluginOutputEntry>) -> bool {
    a.len() == b.len() && (forall|k: int|
        0 <= k < a.len() ==> plugin_entry_matches(#[trigger] a[k], b[k]))
}

/// Some entry in `s` spends the output with index `out_idx`.
pub open spec fn spends_contain(s: Seq<SpendEntry>, out_idx: u32) -> bool {
    exists|k: int| 0 <= k < s.len() && s[k].out_idx == out_idx
}

/// Compares two 32-byte values.
pub fn eq32(a: &[u8; 32], b: &[u8; 32]) -> (r: bool)
    ensures
        r == (a@ == b@),
{
    let mut i: usize = 0;
    while i < 32
        invariant
            i <= 32,
            forall|k: int| 0 <= k < i ==> a@[k] == b@[k],
        decreases 32 - i,
    {
        if a[i] != b[i] {
            return false;
        }
        i += 1;
    }
    proof {
        assert(a@ =~= b@);
    }
    true
}

/// Copies a vector of copyable elements.
pub fn copy_vec<T: Copy>(v: &Vec<T>) -> (r: Vec<T>)
    ensures
        r@ == v@,
{
    let mut r: Vec<T> = Vec::new();
    let mut i: usize = 0;
    while i < v.len()
        invariant
            i <= v@.len(),
            r@ =~= v@.take(i as int),
        decreases v@.len() - i,
    {
        r.push(v[i]);
        i += 1;
    }
    proof {
        assert(v@.take(v@.len() as int) =~= v@);
    }
    r
}

/// A snapshot of the persistent block/transaction index, opened read-only.
///
/// `blocks`, `stats` and `tx_ranges` are indexed by height; `txs`,
/// `spent_by`, `token_data` and `plugin_outputs` by global transaction
/// sequence number. A `None` in `stats`, `tx_ranges` or `txs` stands for a
/// record the index should hold but does not: an inconsistency the queries
/// detect and report, never silently patch.
pub struct Db {
    /// The positional record of every indexed block, in height order.
    pub blocks: Vec<DbBlock>,
    /// The statistics record of each block.
    pub stats: Vec<Option<BlockStats>>,
    /// The transaction sequence range of each block.
    pub tx_ranges: Vec<Option<TxNumRange>>,
    /// The record of each transaction, by sequence number.
    pub txs: Vec<Option<TxEntry>>,
    /// The confirmed spends of each transaction's outputs.
    pub spent_by: Vec<Vec<SpendEntry>>,
    /// The token-layer annotation of each transaction, if any.
    pub token_data: Vec<Option<TokenData>>,
    /// The plugin-layer annotations of each transaction's outputs.
    pub plugin_outputs: Vec<Vec<PluginOutputEntry>>,
}

impl Db {
    /// The index invariants: the per-height tables are parallel, heights
    /// index `blocks` directly, block hashes are unique, the per-sequence
    /// tables are parallel, and every declared transaction range lies
    /// within the transaction table and counts no more transactions than a
    /// response can report.
    pub open spec fn wf(self) -> bool {
        &&& self.stats@.len() == self.blocks@.len()
        &&& self.tx_ranges@.len() == self.blocks@.len()
        &&& self.spent_by@.len() == self.txs@.len()
        &&& self.token_data@.len() == self.txs@.len()
        &&& self.plugin_outputs@.len() == self.txs@.len()
        &&& self.blocks@.len() <= i32::MAX
        &&& forall|i: int|
            0 <= i < self.blocks@.len() ==> (#[trigger] self.blocks@[i]).height == i
        &&& forall|i: int, j: int|
            0 <= i < j < self.blocks@.len() ==> self.blocks@[i].hash@ != self.blocks@[j].hash@
        &&& forall|i: int|
            0 <= i < self.tx_ranges@.len() ==> match #[trigger] self.tx_ranges@[i] {
                Some(tr) => tr.start <= tr.end && tr.end <= self.txs@.len()
                    && tr.end - tr.start <= u32::MAX,
                None => true,
            }
    }

    /// The height of the block with the given hash, if one is indexed.
    pub open spec fn spec_height_of_hash(self, hash: Seq<u8>) -> Option<int> {
        if exists|i: int|
            0 <= i < self.blocks@.len() && (#[trigger] self.blocks@[i]).hash@ == hash {
            Some(
                choose|i: int|
                    0 <= i < self.blocks@.len() && (#[trigger] self.blocks@[i]).hash@ == hash,
            )
        } else {
            None
        }
    }

    /// Looks a block up by its hash.
    pub fn block_by_hash(&self, hash: &[u8; 32]) -> (r: Option<DbBlock>)
        requires
            self.wf(),
        ensures
            match self.spec_height_of_hash(hash@) {
                Some(i) => r == Some(self.blocks@[i]),
                None => r is None,
            },
    {
        let mut i: usize = 0;
        while i < self.blocks.len()
            invariant
                self.wf(),
                i <= self.blocks@.len(),
                forall|k: int| 0 <= k < i ==> (#[trigger] self.blocks@[k]).hash@ != hash@,
            decreases self.blocks@.len() - i,
        {
            if eq32(&self.blocks[i].hash, hash) {
                return Some(self.blocks[i]);
            }
            i += 1;
        }
        None
    }

    /// Looks a block up by its height.
    pub fn block_by_height(&self, height: BlockHeight) -> (r: Option<DbBlock>)
        requires
            self.wf(),
        ensures
            r == if 0 <= height < self.blocks@.len() {
                Some(self.blocks@[height as int])
            } else {
                None::<DbBlock>
            },
    {
        if height < 0 {
            return None;
        }
        let idx = height as usize;
        if idx < self.blocks.len() {
            Some(self.blocks[idx])
        } else {
            None
        }
    }

    /// The block at the tip of the indexed chain, if the index is
    /// non-empty.
    pub fn tip(&self) -> (r: Option<DbBlock>)
        ensures
            r == if self.blocks@.len() == 0 {
                None::<DbBlock>
            } else {
                Some(self.blocks@.last())
            },
    {
        if self.blocks.len() == 0 {
            None
        } else {
            Some(self.blocks[self.blocks.len() - 1])
        }
    }

    /// The statistics record of the block at the given height.
    pub fn stats_by_height(&self, height: BlockHeight) -> (r: Option<BlockStats>)
        requires
            self.wf(),
        ensures
            r == if 0 <= height < self.stats@.len() {
                self.stats@[height as int]
            } else {
                None::<BlockStats>
            },
    {
        if height < 0 {
            return None;
        }
        let idx = height as usize;
        if idx < self.stats.len() {
            self.stats[idx]
        } else {
            None
        }
    }

    /// The transaction sequence range of the block at the given height.
    pub fn block_tx_num_range(&self, height: BlockHeight) -> (r: Option<TxNumRange>)
        requires
            self.wf(),
        ensures
            r == if 0 <= height < self.tx_ranges@.len() {
                self.tx_ranges@[height as int]
            } else {
                None::<TxNumRange>
            },
    {
        if height < 0 {
            return None;
        }
        let idx = height as usize;
        if idx < self.tx_ranges.len() {
            self.tx_ranges[idx]
        } else {
            None
        }
    }

    /// The record of the transaction with the given sequence number.
    pub fn tx_by_tx_num(&self, tx_num: TxNum) -> (r: Option<TxEntry>)
        ensures
            r == if tx_num < self.txs@.len() {
                self.txs@[tx_num as int]
            } else {
                None::<TxEntry>
            },
    {
        if tx_num < self.txs.len() as u64 {
            self.txs[tx_num as usize]
        } else {
            None
        }
    }

    /// The confirmed spends of the outputs of the transaction with the
    /// given sequence number.
    pub fn confirmed_spends(&self, tx_num: TxNum) -> (r: Vec<SpendEntry>)
        requires
            self.wf(),
            tx_num < self.txs@.len(),
        ensures
            r@ == self.spent_by@[tx_num as int]@,
    {
        proof {
            assert(self.spent_by.len() == self.spent_by@.len());
        }
        copy_vec(&self.spent_by[tx_num as usize])
    }

    /// The token-layer annotation of the transaction with the given
    /// sequence number.
    pub fn token_by_tx_num(&self, tx_num: TxNum) -> (r: Option<TokenData>)
        requires
            self.wf(),
            tx_num < self.txs@.len(),
        ensures
            r == self.token_data@[tx_num as int],
    {
        proof {
            assert(self.token_data.len() == self.token_data@.len());
        }
        self.token_data[tx_num as usize]
    }

    /// The plugin-layer annotations of the transaction with the given
    /// sequence number.
    pub fn plugin_outputs_by_tx_num(&self, tx_num: TxNum) -> (r: Vec<PluginOutputEntry>)
        requires
            self.wf(),
            tx_num < self.txs@.len(),
        ensures
            plugin_entries_match(r@, self.plugin_outputs@[tx_num as int]@),
    {
        proof {
            assert(self.plugin_outputs.len() == self.plugin_outputs@.len());
        }
        let src = &self.plugin_outputs[tx_num as usize];
        let mut r: Vec<PluginOutputEntry> = Vec::new();
        let mut k: usize = 0;
        while k < src.len()
            invariant
                k <= src@.len(),
                r@.len() == k,
                forall|m: int| 0 <= m < k ==> plugin_entry_matches(#[trigger] r@[m], src@[m]),
            decreases src@.len() - k,
        {
            let e = &src[k];
            r.push(PluginOutputEntry { out_idx: e.out_idx, plugin_idx: e.plugin_idx, data: copy_vec(&e.data) });
            k += 1;
        }
        r
    }
}

/// The unconfirmed spends that the mempool knows for one transaction.
pub struct MempoolSpends {
    /// The id of the transaction whose outputs are spent.
    pub txid: [u8; 32],
    /// The unconfirmed spends of that transaction's outputs.
    pub spends: Vec<SpendEntry>,
}

/// A read-only snapshot of the set of unconfirmed transactions, keyed by
/// the id of the transaction whose outputs they spend.
pub struct Mempool {
    /// The recorded unconfirmed spends, one entry per spent transaction.
    pub spends: Vec<MempoolSpends>,
}

impl Mempool {
    /// The mempool invariant: one entry per transaction id.
    pub open spec fn wf(self) -> bool {
        forall|i: int, j: int|
            0 <= i < j < self.spends@.len() ==> self.spends@[i].txid@ != self.spends@[j].txid@
    }

    /// The unconfirmed spends recorded for the given transaction id;
    /// empty when the mempool spends none of its outputs.
    pub open spec fn spec_unconfirmed_spends(self, txid: Seq<u8>) -> Seq<SpendEntry> {
        if exists|i: int|
            0 <= i < self.spends@.len() && (#[trigger] self.spends@[i]).txid@ == txid {
            let i = choose|i: int|
                0 <= i < self.spends@.len() && (#[trigger] self.spends@[i]).txid@ == txid;
            self.spends@[i].spends@
        } else {
            Seq::empty()
        }
    }

    /// The unconfirmed spends of the outputs of the transaction with the
    /// given id.
    pub fn unconfirmed_spends(&self, txid: &[u8; 32]) -> (r: Vec<SpendEntry>)
        requires
            self.wf(),
        ensures
            r@ == self.spec_unconfirmed_spends(txid@),
    {
        let mut i: usize = 0;
        while i < self.spends.len()
            invariant
                self.wf(),
                i <= self.spends@.len(),
                forall|k: int| 0 <= k < i ==> (#[trigger] self.spends@[k]).txid@ != txid@,
            decreases self.spends@.len() - i,
        {
            if eq32(&self.spends[i].txid, txid) {
                return copy_vec(&self.spends[i].spends);
            }
            i += 1;
        }
        Vec::new()
    }
}

/// The finality oracle: a height is final exactly when it does not exceed
/// the finalized height of this snapshot. Later snapshots may raise
/// `finalized_height` but never lower it, so finality never regresses.
#[derive(Clone, Copy, Debug, PartialEq, Eq)]
pub struct Avalanche {
    /// The greatest height that has been voted final; `-1` when none has.
    pub finalized_height: BlockHeight,
}

impl Avalanche {
    /// Whether the block at the given height is final.
    pub fn is_final_height(&self, height: BlockHeight) -> (r: bool)
        ensures
            r == (height <= self.finalized_height),
    {
        height <= self.finalized_height
    }
}

/// One block as the node's own storage sees it.
pub struct BridgeBlock {
    /// The block's hash.
    pub hash: [u8; 32],
    /// The block's raw header bytes.
    pub header: Vec<u8>,
}

/// One transaction's raw bytes in node storage, keyed by its locator: the
/// storage file number, the data position and the undo-data position.
pub struct BridgeTx {
    /// The number of the storage file holding the transaction.
    pub file_num: u32,
    /// The transaction's byte position inside that file.
    pub data_pos: u32,
    /// The byte position of the transaction's undo data.
    pub undo_pos: u32,
    /// The transaction's raw bytes.
    pub raw_tx: Vec<u8>,
}

/// The raw transaction bytes stored under the given locator, if any.
pub open spec fn spec_load_tx(
    txs: Seq<BridgeTx>,
    file_num: u32,
    data_pos: u32,
    undo_pos: u32,
) -> Option<Seq<u8>>
    decreases txs.len(),
{
    if txs.len() == 0 {
        None
    } else if txs[0].file_num == file_num && txs[0].data_pos == data_pos && txs[0].undo_pos
        == undo_pos {
        Some(txs[0].raw_tx@)
    } else {
        spec_load_tx(txs.drop_first(), file_num, data_pos, undo_pos)
    }
}

/// A read-only view of the node's authoritative block storage.
pub struct Bridge {
    /// The stored blocks, in height order.
    pub blocks: Vec<BridgeBlock>,
    /// The stored raw transactions.
    pub txs: Vec<BridgeTx>,
}

impl Bridge {
    /// The storage invariant: block hashes are unique.
    pub open spec fn wf(self) -> bool {
        forall|i: int, j: int|
            0 <= i < j < self.blocks@.len() ==> self.blocks@[i].hash@ != self.blocks@[j].hash@
    }

    /// The height of the stored block with the given hash, if any.
    pub open spec fn spec_height_of_hash(self, hash: Seq<u8>) -> Option<int> {
        if exists|i: int|
            0 <= i < self.blocks@.len() && (#[trigger] self.blocks@[i]).hash@ == hash {
            Some(
                choose|i: int|
                    0 <= i < self.blocks@.len() && (#[trigger] self.blocks@[i]).hash@ == hash,
            )
        } else {
            None
        }
    }

    /// The raw header bytes of the stored block with the given hash.
    pub fn header_by_hash(&self, hash: &[u8; 32]) -> (r: Option<Vec<u8>>)
        requires
            self.wf(),
        ensures
            match self.spec_height_of_hash(hash@) {
                Some(i) => (r matches Some(h) && h@ == self.blocks@[i].header@),
                None => r is None,
            },
    {
        let mut i: usize = 0;
        while i < self.blocks.len()
            invariant
                self.wf(),
                i <= self.blocks@.len(),
                forall|k: int| 0 <= k < i ==> (#[trigger] self.blocks@[k]).hash@ != hash@,
            decreases self.blocks@.len() - i,
        {
            if eq32(&self.blocks[i].hash, hash) {
                return Some(copy_vec(&self.blocks[i].header));
            }
            i += 1;
        }
        None
    }

    /// The raw header bytes of the stored block at the given height.
    pub fn header_by_height(&self, height: BlockHeight) -> (r: Option<Vec<u8>>)
        ensures
            if 0 <= height < self.blocks@.len() {
                r matches Some(h) && h@ == self.blocks@[height as int].header@
            } else {
                r is None
            },
    {
        if height < 0 {
            return None;
        }
        let idx = height as usize;
        if idx < self.blocks.len() {
            Some(copy_vec(&self.blocks[idx].header))
        } else {
            None
        }
    }

    /// The raw header bytes of the stored blocks with heights in
    /// `[start, start + count)`, stopping early at the storage tip.
    pub fn headers_in_range(&self, start: BlockHeight, count: usize) -> (r: Vec<Vec<u8>>)
        requires
            start >= 0,
            start + count <= usize::MAX,
        ensures
            r@.len() == if start >= self.blocks@.len() {
                0
            } else if start + count <= self.blocks@.len() {
                count as int
            } else {
                self.blocks@.len() - start
            },
            forall|k: int| 0 <= k < r@.len() ==> (#[trigger] r@[k])@ == self.blocks@[start + k].header@,
    {
        let mut r: Vec<Vec<u8>> = Vec::new();
        let mut k: usize = 0;
        while k < count
            invariant
                start >= 0,
                start + count <= usize::MAX,
                k <= count,
                r@.len() == k,
                k == 0 || start + k <= self.blocks@.len(),
                forall|m: int| 0 <= m < k ==> (#[trigger] r@[m])@ == self.blocks@[start + m].header@,
            decreases count - k,
        {
            let idx = start as usize + k;
            if idx >= self.blocks.len() {
                return r;
            }
            r.push(copy_vec(&self.blocks[idx].header));
            k += 1;
        }
        r
    }

    /// The raw bytes of the transaction stored under the given locator.
    pub fn load_tx(&self, file_num: u32, data_pos: u32, undo_pos: u32) -> (r: Option<Vec<u8>>)
        ensures
            match spec_load_tx(self.txs@, file_num, data_pos, undo_pos) {
                Some(raw) => (r matches Some(v) && v@ == raw),
                None => r is None,
            },
    {
        proof {
            assert(self.txs@.skip(0) =~= self.txs@);
        }
        let mut i: usize = 0;
        while i < self.txs.len()
            invariant
                i <= self.txs@.len(),
                spec_load_tx(self.txs@.skip(i as int), file_num, data_pos, undo_pos)
                    == spec_load_tx(self.txs@, file_num, data_pos, undo_pos),
            decreases self.txs@.len() - i,
        {
            let t = &self.txs[i];
            proof {
                assert(self.txs@.skip(i as int)[0] == self.txs@[i as int]);
                assert(self.txs@.skip(i as int).drop_first() =~= self.txs@.skip(i + 1));
            }
            if t.file_num == file_num && t.data_pos == data_pos && t.undo_pos == undo_pos {
                return Some(copy_vec(&t.raw_tx));
            }
            i += 1;
        }
        None
    }
}

/// Access to the full node that stores the authoritative blocks.
pub struct Node {
    /// The node's block storage.
    pub bridge: Bridge,
}

/// The names of all loaded plugins; consulted only to decide whether
/// plugin-layer enrichment is attempted.
pub struct PluginNameMap {
    /// One name per loaded plugin, in plugin-index order.
    pub names: Vec<String>,
}

impl PluginNameMap {
    /// Whether no plugin is loaded.
    pub fn is_empty(&self) -> (r: bool)
        ensures
            r == (self.names@.len() == 0),
    {
        self.names.len() == 0
    }
}

} // verus!
