//! The block query service: the five operations and their contracts.

use vstd::prelude::*;

use crate::error::QueryBlockError;
use crate::ident::{
    dec_value, ident_hash, is_hash_ident, is_height_ident, parse_hash_or_height, HashOrHeight,
};
use crate::model::{
    plugin_entries_match, spec_load_tx, spends_contain, Avalanche, BlockStats, Bridge, Db, DbBlock,
    Mempool, Node, PluginNameMap, PluginOutputEntry, SpendEntry, TokenData, TxNumRange,
};
use crate::pagination::{
    ceil_div, lemma_ceil_div_exact, lemma_page_window_clamped, page_window, spec_page_end,
    spec_page_start, MAX_BLOCKS_PAGE_SIZE, MAX_BLOCK_TXS_PAGE_SIZE, MIN_BLOCK_TXS_PAGE_SIZE,
};
use crate::response::{spec_block_info, BlockInfo, BlockchainInfo, EnrichedTx, TxHistoryPage};

verus! {

/// The block query service: read-only views of the persistent index, the
/// finality oracle, the mempool, the node's block storage and the plugin
/// registry, shared by all operations of one call.
pub struct QueryBlocks {
    /// The persistent index snapshot.
    pub db: Db,
    /// The finality oracle.
    pub avalanche: Avalanche,
    /// The mempool snapshot.
    pub mempool: Mempool,
    /// Access to the node that stores the authoritative blocks.
    pub node: Node,
    /// Whether the token index is enabled.
    pub is_token_index_enabled: bool,
    /// The names of all loaded plugins.
    pub plugin_name_map: PluginNameMap,
}

/// The height at which an identifier string resolves against the index:
/// a hash identifier resolves by hash lookup, a height identifier by its
/// value; `None` when no such block is indexed.
pub open spec fn spec_resolve_in_db(db: Db, s: Seq<char>) -> Option<int> {
    if is_hash_ident(s) {
        db.spec_height_of_hash(ident_hash(s))
    } else if 0 <= dec_value(s) < db.blocks@.len() {
        Some(dec_value(s))
    } else {
        None
    }
}

/// The height at which an identifier string resolves against the node's
/// own block storage.
pub open spec fn spec_resolve_in_bridge(br: Bridge, s: Seq<char>) -> Option<int> {
    if is_hash_ident(s) {
        br.spec_height_of_hash(ident_hash(s))
    } else if 0 <= dec_value(s) < br.blocks@.len() {
        Some(dec_value(s))
    } else {
        None
    }
}

/// The metadata unit for the block at height `i`, joined from its record,
/// its statistics and its finality status.
pub open spec fn spec_block_info_at(q: QueryBlocks, i: int) -> BlockInfo
    recommends
        0 <= i < q.db.blocks@.len(),
        q.db.stats@[i] is Some,
{
    match q.db.stats@[i] {
        Some(st) => spec_block_info(
            q.db.blocks@[i],
            st,
            q.db.blocks@[i].height <= q.avalanche.finalized_height,
        ),
        None => arbitrary(),
    }
}

/// What a single-block lookup returns for the identifier string `s`.
pub open spec fn block_lookup_post(
    q: QueryBlocks,
    s: Seq<char>,
    r: Result<BlockInfo, QueryBlockError>,
) -> bool {
    if !is_hash_ident(s) && !is_height_ident(s) {
        r matches Err(QueryBlockError::InvalidIdentifier(m)) && m@ == s
    } else {
        match spec_resolve_in_db(q.db, s) {
            None => r matches Err(QueryBlockError::BlockNotFound(m)) && m@ == s,
            Some(i) => if q.db.stats@[i] is None {
                r == Err::<BlockInfo, QueryBlockError>(QueryBlockError::MissingBlockStats(i as i32))
            } else {
                r == Ok::<BlockInfo, QueryBlockError>(spec_block_info_at(q, i))
            },
        }
    }
}

/// How many of the `count` requested heights from `start` on are indexed,
/// given that heights `0 .. len` are: the iteration stops at the tip.
pub open spec fn spec_found_count(len: int, start: int, count: int) -> int {
    if start >= len {
        0
    } else if start + count <= len {
        count
    } else {
        len - start
    }
}

/// The first height in `[lo, hi)` whose statistics record is missing, or
/// `hi` when none is.
pub open spec fn spec_first_missing_stats(db: Db, lo: int, hi: int) -> int
    decreases hi - lo,
{
    if lo >= hi {
        hi
    } else if db.stats@[lo] is None {
        lo
    } else {
        spec_first_missing_stats(db, lo + 1, hi)
    }
}

proof fn lemma_first_missing_stats_at(db: Db, lo: int, hi: int, m: int)
    requires
        lo <= m < hi,
        forall|j: int| lo <= j < m ==> db.stats@[j] is Some,
        db.stats@[m] is None,
    ensures
        spec_first_missing_stats(db, lo, hi) == m,
    decreases m - lo,
{
    if lo < m {
        lemma_first_missing_stats_at(db, lo + 1, hi, m);
    }
}

proof fn lemma_first_missing_stats_none(db: Db, lo: int, hi: int)
    requires
        lo <= hi,
        forall|j: int| lo <= j < hi ==> db.stats@[j] is Some,
    ensures
        spec_first_missing_stats(db, lo, hi) == hi,
    decreases hi - lo,
{
    if lo < hi {
        lemma_first_missing_stats_none(db, lo + 1, hi);
    }
}

/// What a range lookup returns once its bounds have been accepted: either
/// the first missing-statistics fault among the blocks found, or one
/// metadata unit per found height, in height order.
pub open spec fn by_range_result_ok(
    q: QueryBlocks,
    start: int,
    end: int,
    r: Result<Vec<BlockInfo>, QueryBlockError>,
) -> bool {
    let found = spec_found_count(q.db.blocks@.len() as int, start, end - start + 1);
    let fm = spec_first_missing_stats(q.db, start, start + found);
    if fm < start + found {
        r == Err::<Vec<BlockInfo>, QueryBlockError>(QueryBlockError::MissingBlockStats(fm as i32))
    } else {
        r matches Ok(blocks) && blocks@.len() == found && (forall|k: int|
            0 <= k < found ==> blocks@[k] == spec_block_info_at(q, start + k))
    }
}

/// The unconfirmed spends of `mem` followed by those confirmed spends of
/// `conf` whose output the mempool does not also spend: the mempool entry
/// wins for an output spent in both views.
pub open spec fn spec_merged_spends(mem: Seq<SpendEntry>, conf: Seq<SpendEntry>) -> Seq<SpendEntry> {
    mem + spec_keep_unspent(mem, conf)
}

/// The entries of `conf` whose output index `mem` does not spend, in
/// order.
pub open spec fn spec_keep_unspent(mem: Seq<SpendEntry>, conf: Seq<SpendEntry>) -> Seq<SpendEntry>
    decreases conf.len(),
{
    if conf.len() == 0 {
        Seq::empty()
    } else {
        let rest = spec_keep_unspent(mem, conf.drop_last());
        if !spends_contain(mem, conf.last().out_idx) {
            rest.push(conf.last())
        } else {
            rest
        }
    }
}

/// Whether some entry of `v` spends the output with index `out_idx`.
fn contains_out_idx(v: &Vec<SpendEntry>, out_idx: u32) -> (r: bool)
    ensures
        r == spends_contain(v@, out_idx),
{
    let mut i: usize = 0;
    while i < v.len()
        invariant
            i <= v@.len(),
            forall|k: int| 0 <= k < i ==> (#[trigger] v@[k]).out_idx != out_idx,
        decreases v@.len() - i,
    {
        if v[i].out_idx == out_idx {
            return true;
        }
        i += 1;
    }
    false
}

/// Merges confirmed spends from the index with unconfirmed spends from
/// the mempool; for an output spent in both views the mempool entry wins,
/// as the more current view.
pub fn merge_spends(mem: &Vec<SpendEntry>, conf: &Vec<SpendEntry>) -> (r: Vec<SpendEntry>)
    ensures
        r@ == spec_merged_spends(mem@, conf@),
{
    let mut r = crate::model::copy_vec(mem);
    let mut k: usize = 0;
    proof {
        assert(conf@.take(0) =~= Seq::<SpendEntry>::empty());
        assert(r@ =~= mem@ + spec_keep_unspent(mem@, conf@.take(0)));
    }
    while k < conf.len()
        invariant
            k <= conf@.len(),
            r@ == mem@ + spec_keep_unspent(mem@, conf@.take(k as int)),
        decreases conf@.len() - k,
    {
        proof {
            assert(conf@.take(k + 1).drop_last() =~= conf@.take(k as int));
            assert(conf@.take(k + 1).last() == conf@[k as int]);
        }
        if !contains_out_idx(mem, conf[k].out_idx) {
            r.push(conf[k]);
        }
        k += 1;
    }
    proof {
        assert(conf@.take(conf@.len() as int) =~= conf@);
    }
    r
}

/// The raw bytes node storage holds for the transaction with sequence
/// number `n` of the block at height `i`, located through the block's
/// storage file and the transaction's positions.
pub open spec fn spec_tx_raw(q: QueryBlocks, i: int, n: int) -> Option<Seq<u8>> {
    match q.db.txs@[n] {
        Some(e) => spec_load_tx(
            q.node.bridge.txs@,
            q.db.blocks@[i].file_num,
            e.data_pos,
            e.undo_pos,
        ),
        None => None,
    }
}

/// The first sequence number in `[ws, we)` whose transaction record is
/// missing or whose raw bytes cannot be loaded, or `we` when none is.
pub open spec fn spec_first_tx_fail(q: QueryBlocks, i: int, ws: int, we: int) -> int
    decreases we - ws,
{
    if ws >= we {
        we
    } else if q.db.txs@[ws] is None || spec_tx_raw(q, i, ws) is None {
        ws
    } else {
        spec_first_tx_fail(q, i, ws + 1, we)
    }
}

proof fn lemma_first_tx_fail_at(q: QueryBlocks, i: int, ws: int, we: int, m: int)
    requires
        ws <= m < we,
        forall|j: int|
            ws <= j < m ==> q.db.txs@[j] is Some && spec_tx_raw(q, i, j) is Some,
        q.db.txs@[m] is None || spec_tx_raw(q, i, m) is None,
    ensures
        spec_first_tx_fail(q, i, ws, we) == m,
    decreases m - ws,
{
    if ws < m {
        lemma_first_tx_fail_at(q, i, ws + 1, we, m);
    }
}

proof fn lemma_first_tx_fail_none(q: QueryBlocks, i: int, ws: int, we: int)
    requires
        ws <= we,
        forall|j: int|
            ws <= j < we ==> q.db.txs@[j] is Some && spec_tx_raw(q, i, j) is Some,
    ensures
        spec_first_tx_fail(q, i, ws, we) == we,
    decreases we - ws,
{
    if ws < we {
        lemma_first_tx_fail_none(q, i, ws + 1, we);
    }
}

/// `t` is the enriched record of the transaction with sequence number `n`
/// of the block at height `i`: its index record, its raw bytes, the merged
/// spend status of its outputs, and its token-layer and plugin-layer
/// annotations when those layers are active.
pub open spec fn enriched_tx_ok(q: QueryBlocks, i: int, n: int, t: EnrichedTx) -> bool {
    match q.db.txs@[n] {
        Some(e) => {
            &&& t.txid == e.txid
            &&& (spec_tx_raw(q, i, n) matches Some(raw) && t.raw_tx@ == raw)
            &&& t.spent_outputs@ == spec_merged_spends(
                q.mempool.spec_unconfirmed_spends(e.txid@),
                q.db.spent_by@[n]@,
            )
            &&& t.token == (if q.is_token_index_enabled {
                q.db.token_data@[n]
            } else {
                None::<TokenData>
            })
            &&& plugin_entries_match(
                t.plugin_outputs@,
                if q.plugin_name_map.names@.len() > 0 {
                    q.db.plugin_outputs@[n]@
                } else {
                    Seq::<PluginOutputEntry>::empty()
                },
            )
            &&& t.time_first_seen == e.time_first_seen
            &&& t.is_coinbase == e.is_coinbase
            &&& t.block_hash == q.db.blocks@[i].hash
            &&& t.block_height == i
        },
        None => false,
    }
}

/// What a transaction page lookup returns once the block and its
/// non-empty transaction range are known.
pub open spec fn block_txs_page_post(
    q: QueryBlocks,
    i: int,
    range: TxNumRange,
    page_num: int,
    page_size: int,
    r: Result<TxHistoryPage, QueryBlockError>,
) -> bool {
    let ws = spec_page_start(range, page_num, page_size);
    let we = spec_page_end(range, page_num, page_size);
    let ff = spec_first_tx_fail(q, i, ws, we);
    if ff < we {
        if q.db.txs@[ff] is None {
            r matches Err(QueryBlockError::BlockHasMissingTx(h, n)) && h == q.db.blocks@[i].hash
                && n as int == ff
        } else {
            r matches Err(QueryBlockError::ReadFailure(t)) && (q.db.txs@[ff] matches Some(e)
                && t == e.txid)
        }
    } else {
        r matches Ok(page) && {
            &&& page.txs@.len() == we - ws
            &&& (forall|k: int|
                0 <= k < we - ws ==> enriched_tx_ok(q, i, ws + k, #[trigger] page.txs@[k]))
            &&& page.num_txs as int == range.end - range.start
            &&& page.num_pages as int == ceil_div(range.end - range.start, page_size)
        }
    }
}

/// What a transaction page lookup returns for the identifier string `s`
/// and the requested page.
pub open spec fn block_txs_post(
    q: QueryBlocks,
    s: Seq<char>,
    page_num: int,
    page_size: int,
    r: Result<TxHistoryPage, QueryBlockError>,
) -> bool {
    if page_size < MIN_BLOCK_TXS_PAGE_SIZE as int {
        r == Err::<TxHistoryPage, QueryBlockError>(
            QueryBlockError::RequestPageSizeTooSmall(page_size as usize),
        )
    } else if page_size > MAX_BLOCK_TXS_PAGE_SIZE as int {
        r == Err::<TxHistoryPage, QueryBlockError>(
            QueryBlockError::RequestPageSizeTooBig(page_size as usize),
        )
    } else if !is_hash_ident(s) && !is_height_ident(s) {
        r matches Err(QueryBlockError::InvalidIdentifier(m)) && m@ == s
    } else {
        match spec_resolve_in_db(q.db, s) {
            None => r matches Err(QueryBlockError::BlockNotFound(m)) && m@ == s,
            Some(i) => match q.db.tx_ranges@[i] {
                None => r == Err::<TxHistoryPage, QueryBlockError>(
                    QueryBlockError::BlockHasNoTx(i as i32),
                ),
                Some(range) => if range.start == range.end {
                    r == Err::<TxHistoryPage, QueryBlockError>(
                        QueryBlockError::BlockHasNoTx(i as i32),
                    )
                } else {
                    block_txs_page_post(q, i, range, page_num, page_size, r)
                },
            },
        }
    }
}

/// What a header-range lookup returns once its bounds have been accepted:
/// the raw headers of the found heights, in height order.
pub open spec fn headers_result_ok(
    q: QueryBlocks,
    start: int,
    end: int,
    r: Result<Vec<Vec<u8>>, QueryBlockError>,
) -> bool {
    let found = spec_found_count(q.node.bridge.blocks@.len() as int, start, end - start + 1);
    r matches Ok(hs) && hs@.len() == found && (forall|k: int|
        0 <= k < found ==> (#[trigger] hs@[k])@ == q.node.bridge.blocks@[start + k].header@)
}

impl QueryBlocks {
    /// All snapshots are well-formed.
    pub open spec fn wf(self) -> bool {
        self.db.wf() && self.mempool.wf() && self.node.bridge.wf()
    }

    /// Queries a block by hash or height.
    ///
    /// The height may not have leading zeros, because otherwise it might
    /// become ambiguous with a hash.
    pub fn by_hash_or_height(&self, hash_or_height: String) -> (r: Result<
        BlockInfo,
        QueryBlockError,
    >)
        requires
            self.wf(),
        ensures
            block_lookup_post(*self, hash_or_height@, r),
    {
        let parsed = match parse_hash_or_height(hash_or_height.as_str()) {
            Ok(p) => p,
            Err(e) => {
                return Err(e);
            },
        };
        let db_block = match (match parsed {
            HashOrHeight::Hash(h) => self.db.block_by_hash(&h),
            HashOrHeight::Height(height) => self.db.block_by_height(height),
        }) {
            Some(b) => b,
            None => {
                return Err(QueryBlockError::BlockNotFound(hash_or_height));
            },
        };
        let block_stats = match self.db.stats_by_height(db_block.height) {
            Some(st) => st,
            None => {
                return Err(QueryBlockError::MissingBlockStats(db_block.height));
            },
        };
        Ok(self.make_block_info_proto(&db_block, &block_stats))
    }

    /// Checks that the start and end heights are consistent for a range of
    /// blocks, and returns the number of blocks.
    pub fn check_range_boundaries(start_height: i32, end_height: i32) -> (r: Result<
        usize,
        QueryBlockError,
    >)
        ensures
            start_height < 0 ==> r == Err::<usize, QueryBlockError>(
                QueryBlockError::InvalidStartHeight(start_height),
            ),
            start_height >= 0 && end_height < start_height ==> r == Err::<usize, QueryBlockError>(
                QueryBlockError::InvalidEndHeight(end_height),
            ),
            start_height >= 0 && end_height >= start_height ==> ({
                let count = end_height - start_height + 1;
                if count > MAX_BLOCKS_PAGE_SIZE as int {
                    r == Err::<usize, QueryBlockError>(
                        QueryBlockError::BlocksPageSizeTooLarge(count as usize),
                    )
                } else {
                    r == Ok::<usize, QueryBlockError>(count as usize)
                }
            }),
    {
        if start_height < 0 {
            return Err(QueryBlockError::InvalidStartHeight(start_height));
        }
        if end_height < start_height {
            return Err(QueryBlockError::InvalidEndHeight(end_height));
        }
        let num_blocks: usize = end_height as usize - start_height as usize + 1;
        if num_blocks > MAX_BLOCKS_PAGE_SIZE {
            return Err(QueryBlockError::BlocksPageSizeTooLarge(num_blocks));
        }
        Ok(num_blocks)
    }

    /// Queries blocks by a range of heights, start and end inclusive.
    ///
    /// A height past the current tip ends the iteration: the blocks found
    /// so far are a partial result, not an error. The result never holds
    /// more blocks than the range asked for.
    pub fn by_range(&self, start_height: i32, end_height: i32) -> (r: Result<
        Vec<BlockInfo>,
        QueryBlockError,
    >)
        requires
            self.wf(),
        ensures
            start_height < 0 ==> r == Err::<Vec<BlockInfo>, QueryBlockError>(
                QueryBlockError::InvalidStartHeight(start_height),
            ),
            start_height >= 0 && end_height < start_height ==> r == Err::<
                Vec<BlockInfo>,
                QueryBlockError,
            >(QueryBlockError::InvalidEndHeight(end_height)),
            start_height >= 0 && end_height >= start_height && end_height - start_height + 1
                > MAX_BLOCKS_PAGE_SIZE as int ==> r == Err::<Vec<BlockInfo>, QueryBlockError>(
                QueryBlockError::BlocksPageSizeTooLarge((end_height - start_height + 1) as usize),
            ),
            start_height >= 0 && end_height >= start_height && end_height - start_height + 1
                <= MAX_BLOCKS_PAGE_SIZE as int ==> by_range_result_ok(
                *self,
                start_height as int,
                end_height as int,
                r,
            ),
            r matches Ok(blocks) ==> blocks@.len() <= end_height - start_height + 1,
    {
        let num_blocks = match Self::check_range_boundaries(start_height, end_height) {
            Ok(n) => n,
            Err(e) => {
                return Err(e);
            },
        };
        let mut blocks: Vec<BlockInfo> = Vec::new();
        let mut k: usize = 0;
        while k < num_blocks
            invariant
                self.wf(),
                0 <= start_height <= end_height,
                num_blocks == end_height - start_height + 1,
                num_blocks <= MAX_BLOCKS_PAGE_SIZE,
                k <= num_blocks,
                k == 0 || start_height + k <= self.db.blocks@.len(),
                blocks@.len() == k,
                forall|j: int|
                    start_height <= j < start_height + k ==> (#[trigger] self.db.stats@[j]) is Some,
                forall|m: int|
                    0 <= m < k ==> blocks@[m] == spec_block_info_at(*self, start_height + m),
            decreases num_blocks - k,
        {
            let height = start_height + k as i32;
            let db_block = match self.db.block_by_height(height) {
                Some(b) => b,
                None => {
                    proof {
                        lemma_first_missing_stats_none(
                            self.db,
                            start_height as int,
                            start_height + k,
                        );
                    }
                    return Ok(blocks);
                },
            };
            let block_stats = match self.db.stats_by_height(height) {
                Some(st) => st,
                None => {
                    proof {
                        let found = spec_found_count(
                            self.db.blocks@.len() as int,
                            start_height as int,
                            num_blocks as int,
                        );
                        lemma_first_missing_stats_at(
                            self.db,
                            start_height as int,
                            start_height + found,
                            start_height + k,
                        );
                    }
                    return Err(QueryBlockError::MissingBlockStats(height));
                },
            };
            blocks.push(self.make_block_info_proto(&db_block, &block_stats));
            k += 1;
        }
        proof {
            lemma_first_missing_stats_none(self.db, start_height as int, start_height + num_blocks);
        }
        Ok(blocks)
    }

    /// Queries the transactions of a block, paginated.
    ///
    /// The page window is computed with clamping arithmetic: a page past
    /// the block's last transaction is empty, not an error.
    pub fn block_txs(
        &self,
        hash_or_height: String,
        request_page_num: usize,
        request_page_size: usize,
    ) -> (r: Result<TxHistoryPage, QueryBlockError>)
        requires
            self.wf(),
        ensures
            block_txs_post(
                *self,
                hash_or_height@,
                request_page_num as int,
                request_page_size as int,
                r,
            ),
    {
        if request_page_size < MIN_BLOCK_TXS_PAGE_SIZE {
            return Err(QueryBlockError::RequestPageSizeTooSmall(request_page_size));
        }
        if request_page_size > MAX_BLOCK_TXS_PAGE_SIZE {
            return Err(QueryBlockError::RequestPageSizeTooBig(request_page_size));
        }
        let parsed = match parse_hash_or_height(hash_or_height.as_str()) {
            Ok(p) => p,
            Err(e) => {
                return Err(e);
            },
        };
        let db_block = match (match parsed {
            HashOrHeight::Hash(h) => self.db.block_by_hash(&h),
            HashOrHeight::Height(height) => self.db.block_by_height(height),
        }) {
            Some(b) => b,
            None => {
                return Err(QueryBlockError::BlockNotFound(hash_or_height));
            },
        };
        let ghost i = db_block.height as int;
        let tx_range = match self.db.block_tx_num_range(db_block.height) {
            Some(tr) => tr,
            None => {
                return Err(QueryBlockError::BlockHasNoTx(db_block.height));
            },
        };
        if tx_range.start == tx_range.end {
            return Err(QueryBlockError::BlockHasNoTx(db_block.height));
        }
        proof {
            assert(self.db.txs.len() == self.db.txs@.len());
            lemma_page_window_clamped(
                tx_range,
                request_page_num as int,
                request_page_size as int,
            );
        }
        let window = page_window(tx_range, request_page_num, request_page_size);
        let mut txs: Vec<EnrichedTx> = Vec::new();
        let mut n: u64 = window.start;
        while n < window.end
            invariant
                self.wf(),
                MIN_BLOCK_TXS_PAGE_SIZE <= request_page_size <= MAX_BLOCK_TXS_PAGE_SIZE,
                is_hash_ident(hash_or_height@) || is_height_ident(hash_or_height@),
                spec_resolve_in_db(self.db, hash_or_height@) == Some(i),
                0 <= i < self.db.blocks@.len(),
                db_block == self.db.blocks@[i],
                self.db.tx_ranges@[i] == Some(tx_range),
                tx_range.start != tx_range.end,
                window.start == spec_page_start(
                    tx_range,
                    request_page_num as int,
                    request_page_size as int,
                ),
                window.end == spec_page_end(
                    tx_range,
                    request_page_num as int,
                    request_page_size as int,
                ),
                tx_range.start <= window.start <= n <= window.end <= tx_range.end,
                tx_range.end <= self.db.txs@.len(),
                txs@.len() == n - window.start,
                forall|m: int|
                    window.start <= m < n ==> self.db.txs@[m] is Some && spec_tx_raw(
                        *self,
                        i,
                        m,
                    ) is Some,
                forall|k: int|
                    0 <= k < n - window.start ==> enriched_tx_ok(
                        *self,
                        i,
                        window.start + k,
                        #[trigger] txs@[k],
                    ),
            decreases window.end - n,
        {
            let entry = match self.db.tx_by_tx_num(n) {
                Some(e) => e,
                None => {
                    proof {
                        lemma_first_tx_fail_at(
                            *self,
                            i,
                            window.start as int,
                            window.end as int,
                            n as int,
                        );
                    }
                    return Err(QueryBlockError::BlockHasMissingTx(db_block.hash, n));
                },
            };
            let raw_tx = match self.node.bridge.load_tx(
                db_block.file_num,
                entry.data_pos,
                entry.undo_pos,
            ) {
                Some(v) => v,
                None => {
                    proof {
                        lemma_first_tx_fail_at(
                            *self,
                            i,
                            window.start as int,
                            window.end as int,
                            n as int,
                        );
                    }
                    return Err(QueryBlockError::ReadFailure(entry.txid));
                },
            };
            let mem_spends = self.mempool.unconfirmed_spends(&entry.txid);
            let conf_spends = self.db.confirmed_spends(n);
            let spent_outputs = merge_spends(&mem_spends, &conf_spends);
            let token = if self.is_token_index_enabled {
                self.db.token_by_tx_num(n)
            } else {
                None
            };
            let plugin_outputs = if self.plugin_name_map.is_empty() {
                Vec::new()
            } else {
                self.db.plugin_outputs_by_tx_num(n)
            };
            let enriched = EnrichedTx {
                txid: entry.txid,
                raw_tx: raw_tx,
                spent_outputs: spent_outputs,
                token: token,
                plugin_outputs: plugin_outputs,
                time_first_seen: entry.time_first_seen,
                is_coinbase: entry.is_coinbase,
                block_hash: db_block.hash,
                block_height: db_block.height,
            };
            txs.push(enriched);
            n += 1;
        }
        proof {
            lemma_first_tx_fail_none(*self, i, window.start as int, window.end as int);
        }
        let total_num_txs: u64 = tx_range.end - tx_range.start;
        let ps: u64 = request_page_size as u64;
        let total_num_pages: u64 = (total_num_txs + ps - 1) / ps;
        proof {
            lemma_ceil_div_exact(total_num_txs as int, ps as int);
        }
        Ok(TxHistoryPage {
            txs: txs,
            num_pages: total_num_pages as u32,
            num_txs: total_num_txs as u32,
        })
    }

    /// Queries the chain tip: the hash and height of the highest indexed
    /// block, or the empty-chain sentinel (an all-zero hash and height
    /// `-1`) when nothing is indexed.
    pub fn blockchain_info(&self) -> (r: Result<BlockchainInfo, QueryBlockError>)
        requires
            self.wf(),
        ensures
            self.db.blocks@.len() == 0 ==> (r matches Ok(info) && info.tip_height == -1 && (forall|
                j: int,
            | 0 <= j < 32 ==> info.tip_hash@[j] == 0u8)),
            self.db.blocks@.len() > 0 ==> (r matches Ok(info) && info.tip_hash
                == self.db.blocks@.last().hash && info.tip_height == self.db.blocks@.len() - 1),
    {
        match self.db.tip() {
            Some(block) => Ok(
                BlockchainInfo { tip_hash: block.hash, tip_height: block.height },
            ),
            None => Ok(BlockchainInfo { tip_hash: [0u8; 32], tip_height: -1 }),
        }
    }

    fn make_block_info_proto(&self, db_block: &DbBlock, block_stats: &BlockStats) -> (r: BlockInfo)
        ensures
            r == spec_block_info(
                *db_block,
                *block_stats,
                db_block.height <= self.avalanche.finalized_height,
            ),
    {
        BlockInfo {
            hash: db_block.hash,
            prev_hash: db_block.prev_hash,
            height: db_block.height,
            n_bits: db_block.n_bits,
            timestamp: db_block.timestamp,
            is_final: self.avalanche.is_final_height(db_block.height),
            block_size: block_stats.block_size,
            num_txs: block_stats.num_txs,
            num_inputs: block_stats.num_inputs,
            num_outputs: block_stats.num_outputs,
            sum_input_sats: block_stats.sum_input_sats,
            sum_coinbase_output_sats: block_stats.sum_coinbase_output_sats,
            sum_normal_output_sats: block_stats.sum_normal_output_sats,
            sum_burned_sats: block_stats.sum_burned_sats,
        }
    }

    /// Queries a block's raw header bytes, resolving the identifier
    /// against the node's own block storage.
    pub fn header(&self, hash_or_height: String) -> (r: Result<Vec<u8>, QueryBlockError>)
        requires
            self.wf(),
        ensures
            if !is_hash_ident(hash_or_height@) && !is_height_ident(hash_or_height@) {
                r matches Err(QueryBlockError::InvalidIdentifier(m)) && m@ == hash_or_height@
            } else {
                match spec_resolve_in_bridge(self.node.bridge, hash_or_height@) {
                    None => r matches Err(QueryBlockError::BlockNotFound(m)) && m@
                        == hash_or_height@,
                    Some(i) => r matches Ok(h) && h@ == self.node.bridge.blocks@[i].header@,
                }
            },
    {
        let parsed = match parse_hash_or_height(hash_or_height.as_str()) {
            Ok(p) => p,
            Err(e) => {
                return Err(e);
            },
        };
        let header = match parsed {
            HashOrHeight::Hash(h) => self.node.bridge.header_by_hash(&h),
            HashOrHeight::Height(height) => self.node.bridge.header_by_height(height),
        };
        match header {
            Some(h) => Ok(h),
            None => Err(QueryBlockError::BlockNotFound(hash_or_height)),
        }
    }

    /// Queries raw headers by a range of heights, start and end inclusive,
    /// against the node's own block storage; stops at the storage tip.
    pub fn headers_by_range(&self, start_height: i32, end_height: i32) -> (r: Result<
        Vec<Vec<u8>>,
        QueryBlockError,
    >)
        requires
            self.wf(),
        ensures
            start_height < 0 ==> r == Err::<Vec<Vec<u8>>, QueryBlockError>(
                QueryBlockError::InvalidStartHeight(start_height),
            ),
            start_height >= 0 && end_height < start_height ==> r == Err::<
                Vec<Vec<u8>>,
                QueryBlockError,
            >(QueryBlockError::InvalidEndHeight(end_height)),
            start_height >= 0 && end_height >= start_height && end_height - start_height + 1
                > MAX_BLOCKS_PAGE_SIZE as int ==> r == Err::<Vec<Vec<u8>>, QueryBlockError>(
                QueryBlockError::BlocksPageSizeTooLarge((end_height - start_height + 1) as usize),
            ),
            start_height >= 0 && end_height >= start_height && end_height - start_height + 1
                <= MAX_BLOCKS_PAGE_SIZE as int ==> headers_result_ok(
                *self,
                start_height as int,
                end_height as int,
                r,
            ),
    {
        let num_blocks = match Self::check_range_boundaries(start_height, end_height) {
            Ok(n) => n,
            Err(e) => {
                return Err(e);
            },
        };
        Ok(self.node.bridge.headers_in_range(start_height, num_blocks))
    }
}

} // verus!
