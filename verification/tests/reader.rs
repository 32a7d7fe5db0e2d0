use ledger_gateway::address_scan::{
    address_row_key, address_row_prefix, first_row_len, get_confirmed_signatures_for_address,
    keep_entry, scan_range, scan_range_after_first_row, slot_of_row, starting_slot_tx_len,
    AddressScan, Cursor, CursorStep, FallbackStep, Window,
};
use ledger_gateway::block::{ConfirmedBlock, TransactionWithStatusMeta};
use ledger_gateway::cell::{CellData, Error as StoreError};
use ledger_gateway::compression::compress_best;
use ledger_gateway::key::{slot_to_key, slot_to_tx_by_addr_key};
use ledger_gateway::message::Message;
use ledger_gateway::reader::{
    after_block, after_block_read, after_cache, after_full_transaction, after_transaction_info,
    block_payload, block_row, confirmed_blocks_scan, decoded_block, first_available_block_scan,
    full_transaction_payload, get_cached_transaction, get_confirmed_blocks,
    get_first_available_block, get_full_transaction, get_latest_stored_slot,
    get_signature_status, read_transaction_info, start_lookup, transaction_info,
    uses_block_cache, ConfirmedTransactionWithStatusMeta, LedgerStorage, LedgerStorageConfig,
    Lookup, LookupStage, StoredConfirmedTransactionWithStatusMeta,
};
use ledger_gateway::transaction::Transaction;
use ledger_gateway::tx_by_addr::encode_entries;
use ledger_gateway::types::{
    ConfirmedTransactionStatusWithSignature, TransactionByAddrInfo, TransactionConfirmationStatus,
    TransactionInfo,
};
use ledger_gateway::upload::Error;

fn signature(seed: u8) -> [u8; 64] {
    [seed; 64]
}

fn entry(index: u32) -> TransactionByAddrInfo {
    TransactionByAddrInfo {
        signature: signature(index as u8),
        err: None,
        index,
        memo: None,
        block_time: Some(5),
    }
}

fn item(slot: u64, index: u32) -> (ConfirmedTransactionStatusWithSignature, u32) {
    (
        ConfirmedTransactionStatusWithSignature {
            signature: signature(index as u8),
            slot,
            err: None,
            memo: None,
            block_time: Some(5),
        },
        index,
    )
}

fn places(items: &[(ConfirmedTransactionStatusWithSignature, u32)]) -> Vec<(u64, u32)> {
    items.iter().map(|(status, index)| (status.slot, *index)).collect()
}

fn open_window() -> Window {
    Window { before: Cursor::start_of_scan(), until: Cursor::end_of_scan() }
}

fn row_of(key: String, entries: Vec<TransactionByAddrInfo>) -> (String, Vec<(String, Vec<u8>)>) {
    let cell = compress_best(&encode_entries(&entries).unwrap()).unwrap();
    (key, vec![("x:proto".to_string(), cell)])
}

fn raw_row(prefix: &str, slot: u64, indexes: &[u32]) -> (String, Vec<(String, Vec<u8>)>) {
    row_of(address_row_key(prefix, slot), indexes.iter().map(|i| entry(*i)).collect())
}

fn history(
    window: Window,
    prefix: &str,
    limit: usize,
    rows: Vec<(String, Vec<(String, Vec<u8>)>)>,
) -> Vec<(u64, u32)> {
    places(&get_confirmed_signatures_for_address(window, prefix.len(), limit, rows).unwrap())
}

fn tx_row(info: &TransactionInfo) -> Vec<(String, Vec<u8>)> {
    vec![("x:bin".to_string(), compress_best(&info.to_bytes()).unwrap())]
}

fn legacy_transaction(seed: u8) -> TransactionWithStatusMeta {
    TransactionWithStatusMeta::MissingMetadata(Transaction {
        signatures: vec![signature(seed)],
        message: Message::default(),
    })
}

fn confirmed_block() -> ConfirmedBlock {
    ConfirmedBlock {
        previous_blockhash: "p".to_string(),
        blockhash: "b".to_string(),
        parent_slot: 1,
        transactions: vec![legacy_transaction(1), legacy_transaction(2)],
        rewards: vec![],
        num_partitions: None,
        block_time: Some(77),
        block_height: None,
    }
}

#[test]
fn scan_before_a_signature_in_slot_50() {
    let address = [9u8; 32];
    let prefix = address_row_prefix(&address);
    assert_eq!(prefix, format!("{}/", solana_pubkey::Pubkey::new_from_array(address)));
    let window = Window {
        before: Cursor { slot: 50, index: 5, fallback: false },
        until: Cursor::end_of_scan(),
    };
    let rows = vec![
        raw_row(&prefix, 50, &[0, 2, 4, 5, 6, 9]),
        raw_row(&prefix, 49, &[1, 3]),
        raw_row(&prefix, 48, &[0, 1, 2, 3, 4, 5, 6, 7]),
        raw_row(&prefix, 0, &[0]),
    ];
    let items =
        get_confirmed_signatures_for_address(window, prefix.len(), 10, rows.clone()).unwrap();
    assert_eq!(
        places(&items),
        vec![
            (50, 4),
            (50, 2),
            (50, 0),
            (49, 3),
            (49, 1),
            (48, 7),
            (48, 6),
            (48, 5),
            (48, 4),
            (48, 3)
        ]
    );
    assert_eq!(items[0], item(50, 4));
    let all = get_confirmed_signatures_for_address(window, prefix.len(), 100, rows).unwrap();
    assert_eq!(all.len(), 14);
    assert_eq!(places(&all)[12], (48, 0));
    assert_eq!(places(&all)[13], (0, 0));
    for pair in places(&all).windows(2) {
        assert!(pair[0] > pair[1]);
    }
}

#[test]
fn until_cuts_the_row_of_its_slot() {
    let prefix = "addr/".to_string();
    let window = Window {
        before: Cursor { slot: 12, index: 3, fallback: false },
        until: Cursor { slot: 10, index: 1, fallback: false },
    };
    let rows = vec![
        raw_row(&prefix, 12, &[0, 1, 2, 3, 4]),
        raw_row(&prefix, 11, &[0, 1]),
        raw_row(&prefix, 10, &[0, 1, 2, 3]),
    ];
    assert_eq!(
        history(window, &prefix, 100, rows),
        vec![(12, 2), (12, 1), (12, 0), (11, 1), (11, 0), (10, 3), (10, 2)]
    );
}

#[test]
fn before_equal_to_until_gives_nothing() {
    let prefix = "addr/".to_string();
    let cursor = Cursor { slot: 12, index: 3, fallback: false };
    let window = Window { before: cursor, until: cursor };
    let rows = vec![raw_row(&prefix, 12, &[0, 1, 2, 3, 4, 5])];
    assert_eq!(get_confirmed_signatures_for_address(window, prefix.len(), 100, rows), Ok(vec![]));
}

#[test]
fn fallback_cursor_cuts_nothing_off_its_row() {
    let prefix = "addr/".to_string();
    let window = Window {
        before: Cursor { slot: 12, index: 0, fallback: true },
        until: Cursor { slot: 12, index: 0, fallback: true },
    };
    let rows = vec![raw_row(&prefix, 12, &[0, 1, 2])];
    assert_eq!(history(window, &prefix, 100, rows), vec![(12, 2), (12, 1), (12, 0)]);
    assert!(keep_entry(&window, 12, 0));
    let strict = Window {
        before: Cursor { slot: 12, index: 0, fallback: false },
        until: Cursor::end_of_scan(),
    };
    assert!(!keep_entry(&strict, 12, 0));
    assert!(keep_entry(&strict, 11, 0));
}

#[test]
fn open_scan_lists_the_entries_of_slot_0() {
    let prefix = "addr/".to_string();
    let window = Window {
        before: Cursor { slot: 1, index: 0, fallback: false },
        until: Cursor::end_of_scan(),
    };
    let rows = vec![raw_row(&prefix, 1, &[0]), raw_row(&prefix, 0, &[0, 1, 2])];
    assert_eq!(history(window, &prefix, 10, rows.clone()), vec![(0, 2), (0, 1), (0, 0)]);
    assert_eq!(
        history(open_window(), &prefix, 10, rows),
        vec![(1, 0), (0, 2), (0, 1), (0, 0)]
    );
    let last = raw_row(&prefix, u64::MAX, &[0, 1]);
    assert_eq!(history(open_window(), &prefix, 10, vec![last]), vec![(u64::MAX, 1), (u64::MAX, 0)]);
    assert!(keep_entry(&open_window(), 0, 0));
    assert!(keep_entry(&open_window(), 0, u32::MAX));
    assert!(keep_entry(&open_window(), u64::MAX, 0));
}

#[test]
fn cursor_known_to_tx_full_alone_keeps_the_row_of_its_slot() {
    let prefix = "addr/".to_string();
    let before = match Cursor::from_full_transaction(Ok(Some(0))) {
        FallbackStep::Resolved(cursor) => cursor,
        other => panic!("unexpected step {other:?}"),
    };
    let window = Window { before, until: Cursor::end_of_scan() };
    let rows = vec![raw_row(&prefix, 0, &[0, 1, 2])];
    assert_eq!(history(window, &prefix, 10, rows.clone()), vec![(0, 2), (0, 1), (0, 0)]);
    assert_eq!(history(window, &prefix, 2, rows), vec![(0, 2), (0, 1)]);
    let before = match Cursor::from_full_transaction(Ok(Some(7))) {
        FallbackStep::Resolved(cursor) => cursor,
        other => panic!("unexpected step {other:?}"),
    };
    let window = Window { before, until: Cursor::end_of_scan() };
    let rows = vec![raw_row(&prefix, 7, &[3, 4]), raw_row(&prefix, 0, &[5])];
    assert_eq!(history(window, &prefix, 10, rows), vec![(7, 4), (7, 3), (0, 5)]);
}

#[test]
fn cursor_is_resolved_through_tx_then_tx_full() {
    let info = TransactionInfo { slot: 50, index: 5, err: None };
    match Cursor::from_tx(Ok(info)) {
        CursorStep::Resolved(c) => assert_eq!(c, Cursor { slot: 50, index: 5, fallback: false }),
        other => panic!("unexpected step {other:?}"),
    }
    assert!(matches!(Cursor::from_tx(Err(StoreError::RowNotFound)), CursorStep::AskFullTransaction));
    match Cursor::from_tx(Err(StoreError::Timeout)) {
        CursorStep::Failed(e) => assert_eq!(e, Error::StorageBackendError(StoreError::Timeout)),
        other => panic!("unexpected step {other:?}"),
    }
    match Cursor::from_full_transaction(Ok(Some(50))) {
        FallbackStep::Resolved(c) => assert_eq!(c, Cursor { slot: 50, index: 0, fallback: true }),
        other => panic!("unexpected step {other:?}"),
    }
    assert!(matches!(Cursor::from_full_transaction(Ok(None)), FallbackStep::Empty));
    assert!(matches!(
        Cursor::from_full_transaction(Err(Error::SignatureNotFound)),
        FallbackStep::Empty
    ));
    match Cursor::from_full_transaction(Err(Error::BlockNotFound(3))) {
        FallbackStep::Failed(e) => assert_eq!(e, Error::BlockNotFound(3)),
        other => panic!("unexpected step {other:?}"),
    }
    assert_eq!(Cursor::start_of_scan(), Cursor { slot: u64::MAX, index: 0, fallback: true });
    assert_eq!(Cursor::end_of_scan(), Cursor { slot: 0, index: 0, fallback: true });
}

#[test]
fn scan_reads_from_the_first_slot_to_below_the_last() {
    let window = Window {
        before: Cursor { slot: 50, index: 5, fallback: false },
        until: Cursor { slot: 7, index: 1, fallback: false },
    };
    let range = scan_range("addr/", &window, 10, 6);
    assert_eq!(range.start_at, format!("addr/{}", slot_to_tx_by_addr_key(50)));
    assert_eq!(range.end_at, format!("addr/{}", slot_to_tx_by_addr_key(6)));
    assert_eq!(range.rows_limit, 16);
    let range = scan_range("addr/", &open_window(), 3, 0);
    assert_eq!(range.start_at, "addr/0000000000000000");
    assert_eq!(range.end_at, "addr/ffffffffffffffff");
    assert_eq!(range.rows_limit, 3);
    assert_eq!(scan_range("a/", &open_window(), 0, 0).rows_limit, 0);
}

#[test]
fn unreadable_first_row_counts_as_empty() {
    assert_eq!(starting_slot_tx_len::<()>(&Ok(4)), 4);
    assert_eq!(starting_slot_tx_len(&Err("missing")), 0);
    let (key, row) = raw_row("addr/", 50, &[1, 2, 3]);
    assert_eq!(first_row_len(Ok(row), &key), 3);
    assert_eq!(first_row_len(Err(StoreError::RowNotFound), &key), 0);
    assert_eq!(first_row_len(Ok(vec![]), &key), 0);
    assert_eq!(first_row_len(Ok(vec![("x:proto".to_string(), vec![9])]), &key), 0);
}

#[test]
fn scan_goes_on_without_a_first_row() {
    let window = open_window();
    let range = scan_range_after_first_row("addr/", &window, 10, Err(StoreError::RowNotFound)).unwrap();
    assert_eq!(range.start_at, "addr/0000000000000000");
    assert_eq!(range.end_at, "addr/ffffffffffffffff");
    assert_eq!(range.rows_limit, 10);
    let range = scan_range_after_first_row("addr/", &window, 10, Err(StoreError::Timeout)).unwrap();
    assert_eq!(range.rows_limit, 10);
    let window = Window {
        before: Cursor { slot: 50, index: 5, fallback: false },
        until: Cursor { slot: 7, index: 1, fallback: false },
    };
    let (_, row) = raw_row("addr/", 50, &[1, 2, 3]);
    let range = scan_range_after_first_row("addr/", &window, 10, Ok(row.clone())).unwrap();
    assert_eq!(range.start_at, format!("addr/{}", slot_to_tx_by_addr_key(50)));
    assert_eq!(range.end_at, format!("addr/{}", slot_to_tx_by_addr_key(6)));
    assert_eq!(range.rows_limit, 13);
    assert_eq!(scan_range_after_first_row("addr/", &window, usize::MAX, Ok(row)), None);
}

#[test]
fn rows_with_malformed_keys_are_passed_over() {
    let prefix = "addr/".to_string();
    let rows = vec![
        row_of("addr/zzzz".to_string(), vec![entry(0)]),
        row_of("ad".to_string(), vec![entry(1)]),
        raw_row(&prefix, 3, &[2]),
    ];
    assert_eq!(history(open_window(), &prefix, 10, rows), vec![(3, 2)]);
    assert_eq!(slot_of_row("addr/ffffffffffffff9b", 5), Some(100));
    assert_eq!(slot_of_row("addr/", 5), None);
    assert_eq!(slot_of_row("addr", 5), None);
    assert_eq!(slot_of_row("ffffffffffffffff", 0), Some(0));
}

#[test]
fn corrupt_row_fails_the_scan_unless_the_limit_was_reached() {
    let prefix = "addr/".to_string();
    let corrupt = (address_row_key(&prefix, 3), vec![("x:proto".to_string(), vec![0, 0xff, 0xff])]);
    let rows = vec![raw_row(&prefix, 5, &[0, 1]), corrupt.clone()];
    assert_eq!(
        get_confirmed_signatures_for_address(open_window(), prefix.len(), 10, rows.clone()),
        Err(Error::StorageBackendError(StoreError::ObjectCorrupt(format!(
            "tx-by-addr/{}",
            corrupt.0
        ))))
    );
    let items =
        get_confirmed_signatures_for_address(open_window(), prefix.len(), 2, rows).unwrap();
    assert_eq!(places(&items), vec![(5, 1), (5, 0)]);
    let missing = vec![(address_row_key(&prefix, 3), vec![])];
    assert_eq!(
        get_confirmed_signatures_for_address(open_window(), prefix.len(), 2, missing.clone()),
        Err(Error::StorageBackendError(StoreError::ObjectNotFound(format!(
            "tx-by-addr/{}",
            missing[0].0
        ))))
    );
}

#[test]
fn limit_of_zero_gives_nothing() {
    let prefix = "addr/".to_string();
    let rows = vec![raw_row(&prefix, 5, &[0, 1])];
    assert!(history(open_window(), &prefix, 0, rows).is_empty());
    let mut scan = AddressScan::new(open_window(), 0);
    assert!(scan.is_done());
    assert!(scan.absorb_row(5, vec![entry(0)]));
    assert!(scan.into_items().is_empty());
}

#[test]
fn scan_absorbs_rows_until_it_is_done() {
    let mut scan = AddressScan::new(open_window(), 3);
    assert!(!scan.is_done());
    assert!(!scan.absorb_row(9, vec![entry(0), entry(1)]));
    assert!(scan.absorb_row(8, vec![entry(0), entry(1), entry(2)]));
    assert!(scan.absorb_row(7, vec![entry(0)]));
    assert_eq!(places(&scan.into_items()), vec![(9, 1), (9, 0), (8, 2)]);
}

#[test]
fn first_available_block() {
    assert!(first_available_block_scan(true).is_none());
    let scan = first_available_block_scan(false).unwrap();
    assert_eq!(scan.batch_size, Some(1));
    assert_eq!(scan.reversed, Some(false));
    assert_eq!(scan.filter_string, Some(b"KeyOnlyFilter()".to_vec()));
    assert_eq!(get_first_available_block(true, &vec![]), Some(0));
    assert_eq!(get_first_available_block(true, &vec![slot_to_key(9)]), Some(0));
    assert_eq!(get_first_available_block(false, &vec![]), None);
    assert_eq!(get_first_available_block(false, &vec![slot_to_key(9), slot_to_key(10)]), Some(9));
    assert_eq!(get_first_available_block(false, &vec!["nonsense".to_string()]), None);
}

#[test]
fn confirmed_blocks() {
    assert!(confirmed_blocks_scan(true, 5, 10).is_none());
    assert!(confirmed_blocks_scan(false, 5, 0).is_none());
    let scan = confirmed_blocks_scan(false, 5, 10).unwrap();
    assert_eq!(scan.start_row, Some(slot_to_key(5).into_bytes()));
    assert_eq!(scan.stop_row, Some(slot_to_key(15).into_bytes()));
    assert_eq!(scan.batch_size, Some(10));
    assert_eq!(scan.caching, Some(10));
    let keys = vec![slot_to_key(5), "not a key".to_string(), slot_to_key(7)];
    assert_eq!(get_confirmed_blocks(false, &keys), vec![5, 7]);
    assert_eq!(get_confirmed_blocks(true, &keys), Vec::<u64>::new());
    assert_eq!(get_confirmed_blocks(false, &vec![]), Vec::<u64>::new());
}

#[test]
fn latest_stored_slot() {
    assert_eq!(get_latest_stored_slot(Ok(slot_to_key(77))), Ok(77));
    assert_eq!(get_latest_stored_slot(Err(StoreError::RowNotFound)), Ok(0));
    assert_eq!(
        get_latest_stored_slot(Err(StoreError::Timeout)),
        Err(Error::StorageBackendError(StoreError::Timeout))
    );
    assert_eq!(
        get_latest_stored_slot(Ok("xyz".to_string())),
        Err(Error::StorageBackendError(StoreError::ObjectCorrupt(
            "Failed to parse row key 'xyz' as slot number".to_string()
        )))
    );
}

#[test]
fn block_rows() {
    assert_eq!(block_row(Err(StoreError::RowNotFound), 9), Err(Error::BlockNotFound(9)));
    assert_eq!(
        block_row(Err(StoreError::Timeout), 9),
        Err(Error::StorageBackendError(StoreError::Timeout))
    );
    let row = vec![("x:proto".to_string(), vec![0, 1, 2])];
    assert_eq!(block_row(Ok(row.clone()), 9), Ok(row.clone()));
    assert_eq!(block_payload(&row, 9, false), Ok(CellData::Protobuf(vec![1, 2])));
    assert_eq!(
        block_payload(&vec![], 9, false),
        Err(Error::StorageBackendError(StoreError::ObjectNotFound(format!(
            "blocks/{}",
            slot_to_key(9)
        ))))
    );
    assert_eq!(decoded_block(Some(confirmed_block()), 9, false), Ok(confirmed_block()));
    assert_eq!(
        decoded_block(None, 9, false),
        Err(Error::StorageBackendError(StoreError::ObjectCorrupt(format!(
            "blocks/{}",
            slot_to_key(9)
        ))))
    );
    assert!(uses_block_cache(true, true));
    assert!(!uses_block_cache(true, false));
    assert!(!uses_block_cache(false, true));
}

#[test]
fn signature_status() {
    let info = TransactionInfo { slot: 4, index: 2, err: None };
    let status = get_signature_status(Ok(info.clone())).unwrap();
    assert_eq!(status.slot, 4);
    assert_eq!(status.confirmations, None);
    assert_eq!(status.err, None);
    assert_eq!(status.confirmation_status, Some(TransactionConfirmationStatus::Finalized));
    assert_eq!(get_signature_status(Err(StoreError::RowNotFound)), Err(Error::SignatureNotFound));
    assert_eq!(
        get_signature_status(Err(StoreError::Timeout)),
        Err(Error::StorageBackendError(StoreError::Timeout))
    );
    assert_eq!(transaction_info(&tx_row(&info), "sig"), Ok(info.clone()));
    assert_eq!(
        transaction_info(&vec![("x:bin".to_string(), vec![0, 1, 2])], "sig"),
        Err(StoreError::ObjectCorrupt("tx/sig".to_string()))
    );
    assert_eq!(
        transaction_info(&vec![], "sig"),
        Err(StoreError::ObjectNotFound("tx/sig".to_string()))
    );
    assert_eq!(read_transaction_info(Ok(tx_row(&info)), &signature(1)), Ok(info));
    assert_eq!(
        read_transaction_info(Err(StoreError::RowNotFound), &signature(1)),
        Err(StoreError::RowNotFound)
    );
    let text = solana_signature::Signature::from(signature(1)).to_string();
    assert_eq!(
        read_transaction_info(Ok(vec![]), &signature(1)),
        Err(StoreError::ObjectNotFound(format!("tx/{text}")))
    );
}

#[test]
fn full_transaction() {
    let text = solana_signature::Signature::from(signature(1)).to_string();
    assert_eq!(
        full_transaction_payload(Err(StoreError::RowNotFound), &signature(1)),
        Err(Error::SignatureNotFound)
    );
    assert_eq!(
        full_transaction_payload(Ok(vec![("x:proto".to_string(), vec![0, 7])]), &signature(1)),
        Ok(CellData::Protobuf(vec![7]))
    );
    assert_eq!(
        full_transaction_payload(Ok(vec![("x:proto".to_string(), vec![])]), &signature(1)),
        Err(Error::StorageBackendError(StoreError::ObjectCorrupt(format!("tx_full/{text}"))))
    );
    assert_eq!(
        get_full_transaction(None, &signature(1)),
        Err(Error::StorageBackendError(StoreError::ObjectCorrupt(format!("tx_full/{text}"))))
    );
    let tx = ConfirmedTransactionWithStatusMeta {
        slot: 3,
        tx_with_meta: legacy_transaction(1),
        block_time: None,
    };
    assert_eq!(get_full_transaction(Some(tx.clone()), &signature(1)), Ok(Some(tx)));
}

#[test]
fn lookup_falls_back_from_tier_to_tier() {
    let tx = ConfirmedTransactionWithStatusMeta {
        slot: 3,
        tx_with_meta: legacy_transaction(1),
        block_time: None,
    };
    assert_eq!(start_lookup(true), LookupStage::Cache);
    assert_eq!(start_lookup(false), LookupStage::FullTransaction);
    assert!(matches!(after_cache(Ok(Some(tx.clone()))), Lookup::Found(t) if t == tx));
    assert!(matches!(after_cache(Ok(None)), Lookup::Next(LookupStage::FullTransaction)));
    assert!(matches!(
        after_cache(Err("down".to_string())),
        Lookup::Next(LookupStage::FullTransaction)
    ));
    assert!(matches!(after_full_transaction(Ok(Some(tx.clone())), true), Lookup::Found(t) if t == tx));
    assert!(matches!(after_full_transaction(Ok(None), true), Lookup::Absent));
    assert!(matches!(
        after_full_transaction(Err(Error::SignatureNotFound), true),
        Lookup::Absent
    ));
    assert!(matches!(
        after_full_transaction(Err(Error::SignatureNotFound), false),
        Lookup::Next(LookupStage::TransactionInfo)
    ));
    assert!(matches!(
        after_transaction_info(Ok(TransactionInfo { slot: 8, index: 1, err: None })),
        Lookup::Next(LookupStage::Block(8, 1))
    ));
    assert!(matches!(
        after_transaction_info(Err(StoreError::RowNotFound)),
        Lookup::Failed(Error::SignatureNotFound)
    ));
    assert!(matches!(
        after_transaction_info(Err(StoreError::Timeout)),
        Lookup::Failed(Error::StorageBackendError(StoreError::Timeout))
    ));
}

#[test]
fn transaction_is_taken_from_its_block() {
    match after_block(Ok(confirmed_block()), 8, 1, &signature(2)) {
        Lookup::Found(tx) => {
            assert_eq!(tx.slot, 8);
            assert_eq!(tx.block_time, Some(77));
            assert_eq!(tx.tx_with_meta, legacy_transaction(2));
        }
        other => panic!("unexpected lookup {other:?}"),
    }
    assert!(matches!(after_block(Ok(confirmed_block()), 8, 0, &signature(2)), Lookup::Absent));
    assert!(matches!(after_block(Ok(confirmed_block()), 8, 2, &signature(2)), Lookup::Absent));
    assert!(matches!(
        after_block(Err(Error::BlockNotFound(8)), 8, 0, &signature(1)),
        Lookup::Failed(Error::BlockNotFound(8))
    ));
}

#[test]
fn cached_transaction_is_unframed() {
    assert_eq!(get_cached_transaction(None), Ok(None));
    assert_eq!(get_cached_transaction(Some(vec![0, 4, 5])), Ok(Some(vec![4, 5])));
    assert!(get_cached_transaction(Some(vec![])).is_err());
    assert!(get_cached_transaction(Some(vec![3, 1])).is_err());
}

#[test]
fn reader_is_set_up_from_its_configuration() {
    let config = LedgerStorageConfig::default();
    assert!(config.read_only);
    assert_eq!(config.address, "127.0.0.1:9090");
    assert_eq!(config.cache_address, Some("127.0.0.1:9090".to_string()));
    assert_eq!(config.block_cache, None);
    let storage = LedgerStorage::new_with_config(&config, true);
    assert!(!storage.has_tx_cache);
    assert!(!storage.has_block_cache);
    let config = LedgerStorageConfig {
        enable_full_tx_cache: true,
        block_cache: Some(16),
        use_md5_row_key_salt: true,
        disable_tx_fallback: true,
        ..config
    };
    let storage = LedgerStorage::new_with_config(&config, true);
    assert!(storage.has_tx_cache && storage.has_block_cache);
    assert!(storage.use_md5_row_key_salt && storage.disable_tx_fallback);
    assert!(!LedgerStorage::new_with_config(&config, false).has_tx_cache);
}

#[test]
fn stored_form_keeps_slot_transaction_and_time() {
    let confirmed = ConfirmedTransactionWithStatusMeta {
        slot: 9,
        tx_with_meta: legacy_transaction(4),
        block_time: Some(1_700_000_000),
    };
    let stored = StoredConfirmedTransactionWithStatusMeta::from(confirmed.clone());
    assert_eq!(stored.slot, 9);
    assert_eq!(stored.tx_with_meta, legacy_transaction(4));
    assert_eq!(stored.block_time, Some(1_700_000_000));
    assert_eq!(ConfirmedTransactionWithStatusMeta::from(stored), confirmed);
}

#[test]
fn row_of_a_block_is_cached_after_a_miss_that_decodes() {
    let row = vec![("x:proto".to_string(), vec![0, 1, 2])];
    let block = confirmed_block();
    assert_eq!(
        after_block_read(true, false, row.clone(), Ok(block.clone())),
        (Ok(block.clone()), Some(row.clone()))
    );
    assert_eq!(after_block_read(true, true, row.clone(), Ok(block.clone())), (Ok(block.clone()), None));
    assert_eq!(after_block_read(false, false, row.clone(), Ok(block.clone())), (Ok(block), None));
    let corrupt = Error::StorageBackendError(StoreError::ObjectCorrupt("blocks/k".to_string()));
    assert_eq!(
        after_block_read(true, false, row.clone(), Err(corrupt.clone())),
        (Err(corrupt.clone()), None)
    );
    assert_eq!(after_block_read(false, false, row, Err(corrupt.clone())), (Err(corrupt), None));
}

#[test]
fn blocks_of_a_salted_store_are_not_listed_whatever_is_asked() {
    assert!(confirmed_blocks_scan(true, u64::MAX, usize::MAX).is_none());
    assert!(get_confirmed_blocks(true, &vec![slot_to_key(1)]).is_empty());
}
