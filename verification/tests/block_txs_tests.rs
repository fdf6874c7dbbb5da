use block_query::error::QueryBlockError;
use block_query::model::{
    Avalanche, BlockStats, Bridge, BridgeBlock, BridgeTx, Db, DbBlock, Mempool, MempoolSpends,
    Node, PluginNameMap, PluginOutputEntry, SpendEntry, TokenData, TxEntry, TxNumRange,
};
use block_query::query::QueryBlocks;

fn txid_of(tx_num: u64) -> [u8; 32] {
    let mut id = [0u8; 32];
    id[0] = 0xaa;
    id[1] = tx_num as u8;
    id
}

/// One block at height 0 with `num_txs` transactions.
fn one_block(num_txs: u64) -> QueryBlocks {
    let hash = [0x42u8; 32];
    let mut txs = Vec::new();
    let mut spent_by = Vec::new();
    let mut token_data = Vec::new();
    let mut plugin_outputs = Vec::new();
    let mut bridge_txs = Vec::new();
    for n in 0..num_txs {
        txs.push(Some(TxEntry {
            txid: txid_of(n),
            data_pos: 10 * n as u32,
            undo_pos: 10 * n as u32 + 5,
            time_first_seen: 1_600_000_100 + n as i64,
            is_coinbase: n == 0,
        }));
        spent_by.push(Vec::new());
        token_data.push(Some(TokenData { token_id: [0xcc; 32] }));
        plugin_outputs.push(vec![PluginOutputEntry {
            out_idx: 0,
            plugin_idx: 0,
            data: vec![n as u8],
        }]);
        bridge_txs.push(BridgeTx {
            file_num: 3,
            data_pos: 10 * n as u32,
            undo_pos: 10 * n as u32 + 5,
            raw_tx: vec![0xbb, n as u8],
        });
    }
    QueryBlocks {
        db: Db {
            blocks: vec![DbBlock {
                hash,
                prev_hash: [0u8; 32],
                height: 0,
                n_bits: 0x1d00ffff,
                timestamp: 1_600_000_000,
                file_num: 3,
                data_pos: 0,
            }],
            stats: vec![Some(BlockStats {
                block_size: 285,
                num_txs,
                num_inputs: num_txs,
                num_outputs: 2 * num_txs,
                sum_input_sats: 0,
                sum_coinbase_output_sats: 5000,
                sum_normal_output_sats: 100,
                sum_burned_sats: 0,
            })],
            tx_ranges: vec![Some(TxNumRange { start: 0, end: num_txs })],
            txs,
            spent_by,
            token_data,
            plugin_outputs,
        },
        avalanche: Avalanche { finalized_height: -1 },
        mempool: Mempool { spends: Vec::new() },
        node: Node {
            bridge: Bridge {
                blocks: vec![BridgeBlock { hash, header: vec![0x70u8; 80] }],
                txs: bridge_txs,
            },
        },
        is_token_index_enabled: false,
        plugin_name_map: PluginNameMap { names: Vec::new() },
    }
}

#[test]
fn ten_txs_at_page_size_four_give_three_pages() {
    let q = one_block(10);
    let page0 = q.block_txs("0".to_string(), 0, 4).unwrap();
    assert_eq!(page0.num_pages, 3);
    assert_eq!(page0.num_txs, 10);
    assert_eq!(page0.txs.len(), 4);
    for (k, tx) in page0.txs.iter().enumerate() {
        assert_eq!(tx.txid, txid_of(k as u64));
        assert_eq!(tx.raw_tx, vec![0xbb, k as u8]);
        assert_eq!(tx.block_hash, [0x42u8; 32]);
        assert_eq!(tx.block_height, 0);
    }
    let page2 = q.block_txs("0".to_string(), 2, 4).unwrap();
    assert_eq!(page2.txs.len(), 2);
    assert_eq!(page2.txs[0].txid, txid_of(8));
    assert_eq!(page2.txs[1].txid, txid_of(9));
}

#[test]
fn page_past_the_end_is_empty_not_an_error() {
    let q = one_block(10);
    let page = q.block_txs("0".to_string(), 3, 4).unwrap();
    assert_eq!(page.txs.len(), 0);
    assert_eq!(page.num_pages, 3);
    assert_eq!(page.num_txs, 10);
    let huge = q.block_txs("0".to_string(), 4294967296usize, 200).unwrap();
    assert_eq!(huge.txs.len(), 0);
    let max = q.block_txs("0".to_string(), usize::MAX, 200).unwrap();
    assert_eq!(max.txs.len(), 0);
}

#[test]
fn page_size_bounds_are_enforced() {
    let q = one_block(3);
    assert_eq!(
        q.block_txs("0".to_string(), 0, 0),
        Err(QueryBlockError::RequestPageSizeTooSmall(0)),
    );
    assert_eq!(
        q.block_txs("0".to_string(), 0, 201),
        Err(QueryBlockError::RequestPageSizeTooBig(201)),
    );
    assert!(q.block_txs("0".to_string(), 0, 1).is_ok());
    assert!(q.block_txs("0".to_string(), 0, 200).is_ok());
}

#[test]
fn absent_block_is_not_found() {
    let q = one_block(3);
    assert_eq!(
        q.block_txs("7".to_string(), 0, 10),
        Err(QueryBlockError::BlockNotFound("7".to_string())),
    );
}

#[test]
fn missing_tx_range_is_an_inconsistency() {
    let mut q = one_block(3);
    q.db.tx_ranges[0] = None;
    assert_eq!(
        q.block_txs("0".to_string(), 0, 10),
        Err(QueryBlockError::BlockHasNoTx(0)),
    );
}

#[test]
fn missing_tx_record_names_block_and_seq_num() {
    let mut q = one_block(3);
    q.db.txs[1] = None;
    assert_eq!(
        q.block_txs("0".to_string(), 0, 10),
        Err(QueryBlockError::BlockHasMissingTx([0x42u8; 32], 1)),
    );
}

#[test]
fn unloadable_tx_bytes_are_a_read_failure() {
    let mut q = one_block(3);
    q.node.bridge.txs.remove(2);
    assert_eq!(
        q.block_txs("0".to_string(), 0, 10),
        Err(QueryBlockError::ReadFailure(txid_of(2))),
    );
}

#[test]
fn mempool_spends_take_precedence_over_confirmed() {
    let mut q = one_block(2);
    let confirmed_a = SpendEntry { out_idx: 0, txid: [0x01; 32], input_idx: 0 };
    let confirmed_b = SpendEntry { out_idx: 1, txid: [0x02; 32], input_idx: 1 };
    q.db.spent_by[1] = vec![confirmed_a, confirmed_b];
    let mempool_a = SpendEntry { out_idx: 0, txid: [0x03; 32], input_idx: 2 };
    q.mempool.spends = vec![MempoolSpends { txid: txid_of(1), spends: vec![mempool_a] }];
    let page = q.block_txs("0".to_string(), 0, 10).unwrap();
    assert_eq!(page.txs[0].spent_outputs, Vec::new());
    assert_eq!(page.txs[1].spent_outputs, vec![mempool_a, confirmed_b]);
}

#[test]
fn token_data_is_attached_only_when_the_index_is_enabled() {
    let mut q = one_block(1);
    let page = q.block_txs("0".to_string(), 0, 10).unwrap();
    assert_eq!(page.txs[0].token, None);
    q.is_token_index_enabled = true;
    let page = q.block_txs("0".to_string(), 0, 10).unwrap();
    assert_eq!(page.txs[0].token, Some(TokenData { token_id: [0xcc; 32] }));
}

#[test]
fn plugin_outputs_are_attached_only_when_plugins_are_loaded() {
    let mut q = one_block(1);
    let page = q.block_txs("0".to_string(), 0, 10).unwrap();
    assert_eq!(page.txs[0].plugin_outputs, Vec::new());
    q.plugin_name_map = PluginNameMap { names: vec!["counter".to_string()] };
    let page = q.block_txs("0".to_string(), 0, 10).unwrap();
    assert_eq!(
        page.txs[0].plugin_outputs,
        vec![PluginOutputEntry { out_idx: 0, plugin_idx: 0, data: vec![0u8] }],
    );
}

#[test]
fn enriched_txs_carry_their_index_record() {
    let q = one_block(2);
    let page = q.block_txs("0".to_string(), 0, 10).unwrap();
    assert!(page.txs[0].is_coinbase);
    assert!(!page.txs[1].is_coinbase);
    assert_eq!(page.txs[0].time_first_seen, 1_600_000_100);
    assert_eq!(page.txs[1].time_first_seen, 1_600_000_101);
}

#[test]
fn empty_tx_range_is_the_same_inconsistency_as_an_absent_one() {
    let mut q = one_block(3);
    q.db.tx_ranges[0] = Some(TxNumRange { start: 1, end: 1 });
    assert_eq!(
        q.block_txs("0".to_string(), 0, 10),
        Err(QueryBlockError::BlockHasNoTx(0)),
    );
}
