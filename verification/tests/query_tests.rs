use block_query::error::QueryBlockError;
use block_query::model::{
    Avalanche, BlockStats, Bridge, BridgeBlock, BridgeTx, Db, DbBlock, Mempool, Node,
    PluginNameMap, TxEntry, TxNumRange,
};
use block_query::query::QueryBlocks;

fn block_hash(height: i32) -> [u8; 32] {
    let mut h = [0u8; 32];
    h[0] = 0x10 + height as u8;
    h
}

fn txid_of(tx_num: u64) -> [u8; 32] {
    let mut id = [0u8; 32];
    id[0] = 0xaa;
    id[1] = tx_num as u8;
    id
}

/// A consistent chain of `n_blocks` blocks with `txs_per_block`
/// transactions each, mirrored in the node's block storage.
fn chain(n_blocks: usize, txs_per_block: u64) -> QueryBlocks {
    let mut blocks = Vec::new();
    let mut stats = Vec::new();
    let mut tx_ranges = Vec::new();
    let mut txs = Vec::new();
    let mut spent_by = Vec::new();
    let mut token_data = Vec::new();
    let mut plugin_outputs = Vec::new();
    let mut bridge_blocks = Vec::new();
    let mut bridge_txs = Vec::new();
    for h in 0..n_blocks {
        let height = h as i32;
        blocks.push(DbBlock {
            hash: block_hash(height),
            prev_hash: if h == 0 { [0u8; 32] } else { block_hash(height - 1) },
            height,
            n_bits: 0x1d00ffff,
            timestamp: 1_600_000_000 + h as i64,
            file_num: 3,
            data_pos: 1000 * h as u32,
        });
        stats.push(Some(BlockStats {
            block_size: 285 + h as u64,
            num_txs: txs_per_block,
            num_inputs: txs_per_block,
            num_outputs: 2 * txs_per_block,
            sum_input_sats: 50 + h as i64,
            sum_coinbase_output_sats: 5000,
            sum_normal_output_sats: 100,
            sum_burned_sats: 0,
        }));
        let start = h as u64 * txs_per_block;
        tx_ranges.push(Some(TxNumRange { start, end: start + txs_per_block }));
        bridge_blocks.push(BridgeBlock {
            hash: block_hash(height),
            header: vec![0x70 + h as u8; 80],
        });
        for t in 0..txs_per_block {
            let n = start + t;
            txs.push(Some(TxEntry {
                txid: txid_of(n),
                data_pos: 10 * n as u32,
                undo_pos: 10 * n as u32 + 5,
                time_first_seen: 1_600_000_100 + n as i64,
                is_coinbase: t == 0,
            }));
            spent_by.push(Vec::new());
            token_data.push(None);
            plugin_outputs.push(Vec::new());
            bridge_txs.push(BridgeTx {
                file_num: 3,
                data_pos: 10 * n as u32,
                undo_pos: 10 * n as u32 + 5,
                raw_tx: vec![0xbb, n as u8],
            });
        }
    }
    QueryBlocks {
        db: Db { blocks, stats, tx_ranges, txs, spent_by, token_data, plugin_outputs },
        avalanche: Avalanche { finalized_height: -1 },
        mempool: Mempool { spends: Vec::new() },
        node: Node { bridge: Bridge { blocks: bridge_blocks, txs: bridge_txs } },
        is_token_index_enabled: false,
        plugin_name_map: PluginNameMap { names: Vec::new() },
    }
}

fn hex_of(hash: &[u8; 32]) -> String {
    let digits = b"0123456789abcdef";
    let mut s = String::new();
    for b in hash.iter() {
        s.push(digits[(b >> 4) as usize] as char);
        s.push(digits[(b & 0xf) as usize] as char);
    }
    s
}

#[test]
fn lookup_by_height_returns_joined_metadata() {
    let q = chain(3, 2);
    let info = q.by_hash_or_height("1".to_string()).unwrap();
    assert_eq!(info.hash, block_hash(1));
    assert_eq!(info.prev_hash, block_hash(0));
    assert_eq!(info.height, 1);
    assert_eq!(info.block_size, 286);
    assert_eq!(info.num_txs, 2);
    assert!(!info.is_final);
}

#[test]
fn lookup_by_hash_returns_same_block() {
    let q = chain(3, 2);
    let ident = hex_of(&block_hash(2));
    let info = q.by_hash_or_height(ident).unwrap();
    assert_eq!(info.height, 2);
    assert_eq!(info.hash, block_hash(2));
}

#[test]
fn lookup_reports_finality_from_oracle() {
    let mut q = chain(3, 1);
    q.avalanche = Avalanche { finalized_height: 1 };
    assert!(q.by_hash_or_height("0".to_string()).unwrap().is_final);
    assert!(q.by_hash_or_height("1".to_string()).unwrap().is_final);
    assert!(!q.by_hash_or_height("2".to_string()).unwrap().is_final);
}

#[test]
fn lookup_of_absent_block_is_not_found() {
    let q = chain(3, 1);
    assert_eq!(
        q.by_hash_or_height("3".to_string()),
        Err(QueryBlockError::BlockNotFound("3".to_string())),
    );
    let absent = hex_of(&[0x99u8; 32]);
    assert_eq!(
        q.by_hash_or_height(absent.clone()),
        Err(QueryBlockError::BlockNotFound(absent)),
    );
}

#[test]
fn missing_stats_is_distinguished_from_not_found() {
    let mut q = chain(3, 1);
    q.db.stats[1] = None;
    assert_eq!(
        q.by_hash_or_height("1".to_string()),
        Err(QueryBlockError::MissingBlockStats(1)),
    );
    assert_eq!(
        q.by_hash_or_height("5".to_string()),
        Err(QueryBlockError::BlockNotFound("5".to_string())),
    );
}

#[test]
fn lookup_rejects_malformed_identifier() {
    let q = chain(1, 1);
    assert_eq!(
        q.by_hash_or_height("00xy".to_string()),
        Err(QueryBlockError::InvalidIdentifier("00xy".to_string())),
    );
}

#[test]
fn range_returns_all_requested_blocks() {
    let q = chain(5, 1);
    let blocks = q.by_range(1, 3).unwrap();
    assert_eq!(blocks.len(), 3);
    assert_eq!(blocks[0].height, 1);
    assert_eq!(blocks[1].height, 2);
    assert_eq!(blocks[2].height, 3);
}

#[test]
fn range_past_tip_is_a_partial_result() {
    let q = chain(3, 1);
    let blocks = q.by_range(1, 400).unwrap();
    assert_eq!(blocks.len(), 2);
    assert_eq!(blocks[0].height, 1);
    assert_eq!(blocks[1].height, 2);
}

#[test]
fn range_entirely_past_tip_is_empty() {
    let q = chain(3, 1);
    let blocks = q.by_range(100, 150).unwrap();
    assert_eq!(blocks.len(), 0);
}

#[test]
fn range_validation_faults() {
    let q = chain(3, 1);
    assert_eq!(
        q.by_range(-1, 2),
        Err(QueryBlockError::InvalidStartHeight(-1)),
    );
    assert_eq!(q.by_range(2, 1), Err(QueryBlockError::InvalidEndHeight(1)));
    assert_eq!(
        q.by_range(0, 500),
        Err(QueryBlockError::BlocksPageSizeTooLarge(501)),
    );
}

#[test]
fn range_aborts_on_missing_stats() {
    let mut q = chain(4, 1);
    q.db.stats[2] = None;
    assert_eq!(q.by_range(0, 3), Err(QueryBlockError::MissingBlockStats(2)));
}

#[test]
fn blockchain_info_of_empty_index_is_the_sentinel() {
    let q = chain(0, 0);
    let info = q.blockchain_info().unwrap();
    assert_eq!(info.tip_hash, [0u8; 32]);
    assert_eq!(info.tip_height, -1);
}

#[test]
fn blockchain_info_of_nonempty_index_is_the_tip() {
    let q = chain(4, 1);
    let info = q.blockchain_info().unwrap();
    assert_eq!(info.tip_hash, block_hash(3));
    assert_eq!(info.tip_height, 3);
}

#[test]
fn second_block_pages_over_its_own_tx_range() {
    let q = chain(3, 4);
    let page = q.block_txs("1".to_string(), 0, 3).unwrap();
    assert_eq!(page.num_txs, 4);
    assert_eq!(page.num_pages, 2);
    assert_eq!(page.txs.len(), 3);
    assert_eq!(page.txs[0].txid, txid_of(4));
    assert_eq!(page.txs[2].txid, txid_of(6));
    assert_eq!(page.txs[0].block_hash, block_hash(1));
    assert_eq!(page.txs[0].block_height, 1);
    assert!(page.txs[0].is_coinbase);
    let page1 = q.block_txs("1".to_string(), 1, 3).unwrap();
    assert_eq!(page1.txs.len(), 1);
    assert_eq!(page1.txs[0].txid, txid_of(7));
}

#[test]
fn header_by_height_and_by_hash() {
    let q = chain(3, 1);
    assert_eq!(q.header("1".to_string()).unwrap(), vec![0x71u8; 80]);
    let ident = hex_of(&block_hash(2));
    assert_eq!(q.header(ident).unwrap(), vec![0x72u8; 80]);
}

#[test]
fn header_of_absent_block_is_not_found() {
    let q = chain(3, 1);
    assert_eq!(
        q.header("9".to_string()),
        Err(QueryBlockError::BlockNotFound("9".to_string())),
    );
}

#[test]
fn headers_by_range_returns_headers_in_order() {
    let q = chain(4, 1);
    let headers = q.headers_by_range(1, 2).unwrap();
    assert_eq!(headers.len(), 2);
    assert_eq!(headers[0], vec![0x71u8; 80]);
    assert_eq!(headers[1], vec![0x72u8; 80]);
}

#[test]
fn headers_by_range_stops_at_tip_and_validates() {
    let q = chain(2, 1);
    let headers = q.headers_by_range(0, 300).unwrap();
    assert_eq!(headers.len(), 2);
    assert_eq!(
        q.headers_by_range(-3, 0),
        Err(QueryBlockError::InvalidStartHeight(-3)),
    );
    assert_eq!(
        q.headers_by_range(4, 3),
        Err(QueryBlockError::InvalidEndHeight(3)),
    );
    assert_eq!(
        q.headers_by_range(0, 1000),
        Err(QueryBlockError::BlocksPageSizeTooLarge(1001)),
    );
}
