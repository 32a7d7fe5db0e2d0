use ledger_gateway::address::LoadedAddresses;
use ledger_gateway::block::VersionedConfirmedBlock;
use ledger_gateway::cell::Error as StoreError;
use ledger_gateway::config::{FilterTxIncludeExclude, UploaderConfig};
use ledger_gateway::hbase::{put_bincode_cells, put_protobuf_cells};
use ledger_gateway::instruction::{CompiledInstruction, InnerInstruction, InnerInstructions};
use ledger_gateway::key::{slot_to_key, slot_to_tx_by_addr_key};
use ledger_gateway::message::Message;
use ledger_gateway::records::{derive_records, is_uploadable, tx_by_addr_payloads, tx_payloads};
use ledger_gateway::transaction::{VersionedTransaction, VersionedTransactionWithStatusMeta};
use ledger_gateway::tx_by_addr::{decode_entries, encode_entries, extract_and_fmt_memos};
use ledger_gateway::tx_status_meta::TransactionStatusMeta;
use ledger_gateway::tx_utils::{
    get_account_keys, has_account, is_error_tx, is_program_account, is_voting_tx,
};
use ledger_gateway::types::{TransactionByAddrInfo, TransactionError, TransactionInfo};
use ledger_gateway::ui::MessageHeader;
use ledger_gateway::upload::{
    next_step, secondary_tasks, CacheWriteError, Error, LedgerStorage, LedgerStorageAdapter,
    LedgerStorageConfig, TaskError, TaskResult, UploadStep, UploadTask,
};
use ledger_gateway::versioned_message::VersionedMessage;

fn key(seed: u8) -> [u8; 32] {
    let mut k = [seed; 32];
    k[0] = 200;
    k
}

fn signature(seed: u8) -> [u8; 64] {
    [seed; 64]
}

fn text(key: &[u8; 32]) -> String {
    solana_pubkey::Pubkey::new_from_array(*key).to_string()
}

fn vote_key() -> [u8; 32] {
    "Vote111111111111111111111111111111111111111".parse::<solana_pubkey::Pubkey>().unwrap().to_bytes()
}

fn memo_key() -> [u8; 32] {
    "MemoSq4gqABAXKb96qnH8TysNcWxMyWCqXgDLGmfcHr".parse::<solana_pubkey::Pubkey>().unwrap().to_bytes()
}

fn clock_key() -> [u8; 32] {
    "SysvarC1ock11111111111111111111111111111111".parse::<solana_pubkey::Pubkey>().unwrap().to_bytes()
}

fn account_in_use() -> TransactionError {
    TransactionError {
        encoded: bincode::serialize(&solana_transaction_error::TransactionError::AccountInUse)
            .unwrap(),
    }
}

fn transaction(
    seed: u8,
    keys: Vec<[u8; 32]>,
    instructions: Vec<CompiledInstruction>,
    err: Option<TransactionError>,
) -> VersionedTransactionWithStatusMeta {
    let mut meta = TransactionStatusMeta::empty();
    meta.err = err;
    VersionedTransactionWithStatusMeta {
        transaction: VersionedTransaction {
            signatures: vec![signature(seed)],
            message: VersionedMessage::Legacy(Message {
                header: MessageHeader {
                    num_required_signatures: 1,
                    num_readonly_signed_accounts: 0,
                    num_readonly_unsigned_accounts: 0,
                },
                account_keys: keys,
                recent_blockhash: [0; 32],
                instructions,
            }),
        },
        meta,
    }
}

fn block(transactions: Vec<VersionedTransactionWithStatusMeta>) -> VersionedConfirmedBlock {
    VersionedConfirmedBlock {
        previous_blockhash: "prev".to_string(),
        blockhash: "hash".to_string(),
        parent_slot: 41,
        transactions,
        rewards: vec![],
        num_partitions: None,
        block_time: Some(1_234_567_890),
        block_height: Some(1),
    }
}

fn sample_block() -> VersionedConfirmedBlock {
    block(vec![
        transaction(
            1,
            vec![key(1), key(2), key(3)],
            vec![CompiledInstruction { program_id_index: 2, accounts: vec![0, 1], data: vec![] }],
            None,
        ),
        transaction(2, vec![key(2), vote_key()], vec![], None),
        transaction(3, vec![key(1), clock_key()], vec![], Some(account_in_use())),
    ])
}

fn signature_text(seed: u8) -> String {
    solana_signature::Signature::from(signature(seed)).to_string()
}

#[test]
fn every_table_gets_its_records() {
    let mut config = UploaderConfig::default();
    config.enable_full_tx = true;
    let records = derive_records(42, &sample_block(), &config, true);

    assert_eq!(
        records.tx_cells,
        vec![
            (signature_text(1), TransactionInfo { slot: 42, index: 0, err: None }),
            (signature_text(2), TransactionInfo { slot: 42, index: 1, err: None }),
            (signature_text(3), TransactionInfo { slot: 42, index: 2, err: Some(account_in_use()) }),
        ]
    );
    assert_eq!(
        records.full_tx_cells,
        vec![(signature_text(1), 0), (signature_text(2), 1), (signature_text(3), 2)]
    );
    assert_eq!(records.full_tx_cache, vec![(signature_text(1), 0)]);
    assert_eq!(records.blocks_key, slot_to_key(42));

    let entry = |seed: u8, index: u32, err: Option<TransactionError>| TransactionByAddrInfo {
        signature: signature(seed),
        err,
        index,
        memo: None,
        block_time: Some(1_234_567_890),
    };
    let row_key = |k: [u8; 32]| format!("{}/{}", text(&k), slot_to_tx_by_addr_key(42));
    assert_eq!(
        records.tx_by_addr_cells,
        vec![
            (row_key(key(1)), vec![entry(1, 0, None), entry(3, 2, Some(account_in_use()))]),
            (row_key(key(2)), vec![entry(1, 0, None), entry(2, 1, None)]),
            (row_key(key(3)), vec![entry(1, 0, None)]),
            (row_key(vote_key()), vec![entry(2, 1, None)]),
        ]
    );
}

#[test]
fn upload_without_tx_and_with_full_tx() {
    let mut config = UploaderConfig::default();
    config.disable_tx = true;
    config.enable_full_tx = true;
    let records = derive_records(7, &sample_block(), &config, false);
    assert!(records.tx_cells.is_empty());
    assert_eq!(records.full_tx_cells.len(), 3);
    assert!(records.full_tx_cache.is_empty());
    assert_eq!(records.tx_by_addr_cells.len(), 4);
    let tasks = secondary_tasks(&records, &config, false);
    assert_eq!(tasks, vec![UploadTask::TxFull, UploadTask::TxByAddr]);

    let waiting = next_step(vec![Some(Ok(TaskResult::BytesWritten(10))), None], false, None);
    assert!(matches!(waiting, UploadStep::Wait));
    let ready = next_step(
        vec![Some(Ok(TaskResult::BytesWritten(10))), Some(Ok(TaskResult::BytesWritten(5)))],
        false,
        None,
    );
    assert!(matches!(ready, UploadStep::WriteBlocks));
    let done = next_step(
        vec![Some(Ok(TaskResult::BytesWritten(10))), Some(Ok(TaskResult::BytesWritten(5)))],
        false,
        Some(Ok(100)),
    );
    match done {
        UploadStep::Done(Ok(tally)) => {
            assert_eq!(tally.bytes_written, 115);
            assert_eq!(tally.cached_transactions, 0);
        }
        other => panic!("unexpected step {other:?}"),
    }
}

#[test]
fn block_is_not_written_after_a_failed_write() {
    let outcomes = vec![
        Some(Ok(TaskResult::BytesWritten(10))),
        Some(Err(TaskError::MemcacheError("down".to_string()))),
        Some(Err(TaskError::HBaseError(StoreError::Timeout))),
    ];
    match next_step(outcomes, false, None) {
        UploadStep::Done(Err(e)) => assert_eq!(e, Error::CacheError("down".to_string())),
        other => panic!("unexpected step {other:?}"),
    }
    let outcomes = vec![
        Some(Err(TaskError::Join("panicked".to_string()))),
        None,
        Some(Err(TaskError::HBaseError(StoreError::Timeout))),
    ];
    assert!(matches!(next_step(outcomes, false, None), UploadStep::Wait));
    let outcomes = vec![Some(Err(TaskError::HBaseError(StoreError::RowWriteFailed)))];
    match next_step(outcomes, true, None) {
        UploadStep::Done(Err(e)) => {
            assert_eq!(e, Error::StorageBackendError(StoreError::RowWriteFailed))
        }
        other => panic!("unexpected step {other:?}"),
    }
    let outcomes = vec![Some(Err(TaskError::IoError("disk".to_string())))];
    match next_step(outcomes, false, Some(Ok(1))) {
        UploadStep::Done(Err(e)) => assert_eq!(e, Error::IoError("disk".to_string())),
        other => panic!("unexpected step {other:?}"),
    }
    let outcomes = vec![Some(Err(TaskError::EncodingError("enc".to_string())))];
    match next_step(outcomes, false, None) {
        UploadStep::Done(Err(e)) => assert_eq!(e, Error::EncodingError("enc".to_string())),
        other => panic!("unexpected step {other:?}"),
    }
    let outcomes = vec![Some(Err(TaskError::Join("gone".to_string())))];
    match next_step(outcomes, false, None) {
        UploadStep::Done(Err(e)) => assert_eq!(e, Error::TokioJoinError("gone".to_string())),
        other => panic!("unexpected step {other:?}"),
    }
}

#[test]
fn upload_ends_with_the_outcome_of_the_block() {
    assert!(matches!(next_step(vec![], false, None), UploadStep::WriteBlocks));
    match next_step(vec![], false, Some(Err(StoreError::Timeout))) {
        UploadStep::Done(Err(e)) => assert_eq!(e, Error::StorageBackendError(StoreError::Timeout)),
        other => panic!("unexpected step {other:?}"),
    }
    match next_step(vec![Some(Ok(TaskResult::CachedTransactions(3)))], true, None) {
        UploadStep::Done(Ok(tally)) => {
            assert_eq!(tally.bytes_written, 0);
            assert_eq!(tally.cached_transactions, 3);
        }
        other => panic!("unexpected step {other:?}"),
    }
    match next_step(vec![Some(Ok(TaskResult::BytesWritten(usize::MAX)))], false, Some(Ok(9))) {
        UploadStep::Done(Ok(tally)) => assert_eq!(tally.bytes_written, usize::MAX),
        other => panic!("unexpected step {other:?}"),
    }
}

#[test]
fn tasks_are_spawned_for_tables_with_records_only() {
    let config = UploaderConfig::default();
    let records = derive_records(1, &block(vec![]), &config, true);
    assert!(secondary_tasks(&records, &config, true).is_empty());
    let mut config = UploaderConfig::default();
    config.enable_full_tx = true;
    let records = derive_records(1, &sample_block(), &config, true);
    assert_eq!(
        secondary_tasks(&records, &config, true),
        vec![UploadTask::TxFull, UploadTask::TxFullCache, UploadTask::Tx, UploadTask::TxByAddr]
    );
    config.disable_tx_by_addr = true;
    assert_eq!(
        secondary_tasks(&records, &config, false),
        vec![UploadTask::TxFull, UploadTask::Tx]
    );
}

#[test]
fn votes_and_failures_are_filtered_where_asked() {
    let mut config = UploaderConfig::default();
    config.enable_full_tx = true;
    config.filter_voting_tx = true;
    config.filter_error_tx = true;
    let records = derive_records(42, &sample_block(), &config, false);
    assert_eq!(records.full_tx_cells, vec![(signature_text(1), 0)]);
    assert_eq!(records.tx_cells.len(), 3);
    let addresses: Vec<&str> =
        records.tx_by_addr_cells.iter().map(|(k, _)| k.split('/').next().unwrap()).collect();
    assert_eq!(addresses, vec![text(&key(1)), text(&key(2)), text(&key(3))]);
    assert_eq!(records.tx_by_addr_cells[1].1.len(), 1);
}

#[test]
fn programs_and_system_variables_are_not_indexed() {
    let mut config = UploaderConfig::default();
    config.filter_program_accounts = true;
    let records = derive_records(42, &sample_block(), &config, false);
    let addresses: Vec<String> = records
        .tx_by_addr_cells
        .iter()
        .map(|(k, _)| k.split('/').next().unwrap().to_string())
        .collect();
    assert_eq!(addresses, vec![text(&key(1)), text(&key(2)), text(&vote_key())]);
    assert!(!addresses.contains(&text(&clock_key())));
}

#[test]
fn address_filters_pick_the_rows_and_bar_full_transactions() {
    let mut config = UploaderConfig::default();
    config.enable_full_tx = true;
    config.tx_by_addr_filter = Some(FilterTxIncludeExclude { exclude: false, addrs: vec![key(2)] });
    config.tx_full_filter = Some(FilterTxIncludeExclude { exclude: true, addrs: vec![key(3)] });
    let records = derive_records(42, &sample_block(), &config, false);
    assert_eq!(records.tx_by_addr_cells.len(), 1);
    assert!(records.tx_by_addr_cells[0].0.starts_with(&text(&key(2))));
    assert_eq!(records.full_tx_cells, vec![(signature_text(2), 1), (signature_text(3), 2)]);

    let storage = LedgerStorage::new_with_config(LedgerStorageConfig {
        uploader_config: config,
        ..LedgerStorageConfig::default()
    });
    assert!(storage.should_include_in_tx_by_addr(&key(2)));
    assert!(!storage.should_include_in_tx_by_addr(&key(1)));
    assert!(storage.should_include_in_tx_full(&key(1)));
    assert!(!storage.should_include_in_tx_full(&key(3)));
    let (records, tasks) = storage.upload_confirmed_block(42, &sample_block());
    assert_eq!(records.tx_by_addr_cells.len(), 1);
    assert_eq!(tasks, vec![UploadTask::TxFull, UploadTask::Tx, UploadTask::TxByAddr]);
}

#[test]
fn salted_blocks_key_is_used_where_asked() {
    let mut config = UploaderConfig::default();
    config.use_md5_row_key_salt = true;
    let records = derive_records(42, &block(vec![]), &config, false);
    assert_eq!(records.blocks_key.len(), 26);
    assert!(records.blocks_key.ends_with(&slot_to_key(42)));
}

#[test]
fn memo_is_taken_from_the_memo_program() {
    let tx = transaction(
        5,
        vec![key(1), memo_key()],
        vec![
            CompiledInstruction { program_id_index: 1, accounts: vec![], data: b"hello".to_vec() },
            CompiledInstruction { program_id_index: 0, accounts: vec![], data: b"no".to_vec() },
            CompiledInstruction { program_id_index: 1, accounts: vec![], data: b"you".to_vec() },
        ],
        None,
    );
    assert_eq!(extract_and_fmt_memos(&tx), Some("[5] hello; [3] you".to_string()));
    let plain = transaction(5, vec![key(1)], vec![], None);
    assert_eq!(extract_and_fmt_memos(&plain), None);

    let mut loaded = plain.clone();
    loaded.meta.loaded_addresses = LoadedAddresses { writable: vec![], readonly: vec![memo_key()] };
    if let VersionedMessage::Legacy(m) = &mut loaded.transaction.message {
        m.instructions =
            vec![CompiledInstruction { program_id_index: 1, accounts: vec![], data: b"x".to_vec() }];
    }
    assert_eq!(extract_and_fmt_memos(&loaded), Some("[1] x".to_string()));

    let records = derive_records(9, &block(vec![tx]), &UploaderConfig::default(), false);
    assert_eq!(records.tx_by_addr_cells[0].1[0].memo, Some("[5] hello; [3] you".to_string()));
}

#[test]
fn transaction_predicates() {
    let block = sample_block();
    assert!(!is_voting_tx(&block.transactions[0]));
    assert!(is_voting_tx(&block.transactions[1]));
    assert!(!is_error_tx(&block.transactions[0]));
    assert!(is_error_tx(&block.transactions[2]));
    assert!(has_account(&block.transactions[0], &key(3)));
    assert!(!has_account(&block.transactions[0], &key(4)));
    let keys = get_account_keys(&block.transactions[0]);
    assert_eq!(keys, vec![key(1), key(2), key(3)]);
    assert!(is_program_account(&key(3), &block.transactions[0], &keys));
    assert!(!is_program_account(&key(1), &block.transactions[0], &keys));

    let mut with_inner = block.transactions[0].clone();
    with_inner.meta.inner_instructions = Some(vec![InnerInstructions {
        index: 0,
        instructions: vec![InnerInstruction {
            instruction: CompiledInstruction { program_id_index: 0, accounts: vec![], data: vec![] },
            stack_height: None,
        }],
    }]);
    assert!(is_program_account(&key(1), &with_inner, &keys));
    let mut out_of_range = block.transactions[0].clone();
    if let VersionedMessage::Legacy(m) = &mut out_of_range.transaction.message {
        m.instructions[0].program_id_index = 9;
    }
    assert!(!is_program_account(&key(3), &out_of_range, &keys));
}

#[test]
fn loaded_keys_count_for_version_0_only() {
    let mut tx = transaction(1, vec![key(1)], vec![], None);
    tx.meta.loaded_addresses = LoadedAddresses { writable: vec![key(5)], readonly: vec![key(6)] };
    assert_eq!(get_account_keys(&tx), vec![key(1)]);
    tx.transaction.message = VersionedMessage::V0(ledger_gateway::message_v0::Message {
        header: MessageHeader::default(),
        account_keys: vec![key(1)],
        recent_blockhash: [0; 32],
        instructions: vec![],
        address_table_lookups: vec![],
    });
    assert_eq!(get_account_keys(&tx), vec![key(1), key(5), key(6)]);
    let records = derive_records(3, &block(vec![tx]), &UploaderConfig::default(), false);
    assert_eq!(records.tx_by_addr_cells.len(), 3);
}

#[test]
fn blocks_without_signatures_are_not_uploadable() {
    assert!(is_uploadable(&sample_block()));
    assert!(is_uploadable(&block(vec![])));
    let mut broken = sample_block();
    broken.transactions[1].transaction.signatures.clear();
    assert!(!is_uploadable(&broken));
}

#[test]
fn tx_rows_are_framed_under_the_legacy_qualifier() {
    let config = UploaderConfig::default();
    let records = derive_records(42, &sample_block(), &config, false);
    let payloads = tx_payloads(&records.tx_cells);
    assert_eq!(payloads[0].1, vec![42, 0, 0, 0, 0, 0, 0, 0, 0, 0, 0, 0, 0]);
    assert_eq!(payloads[2].1[..13], [42, 0, 0, 0, 0, 0, 0, 0, 2, 0, 0, 0, 1]);
    let (batches, bytes) = put_bincode_cells(&payloads, false, true).unwrap();
    assert_eq!(batches.len(), 3);
    assert_eq!(batches[0].row, signature_text(1).into_bytes());
    assert_eq!(batches[0].mutations.len(), 1);
    assert_eq!(batches[0].mutations[0].column, Some(b"x:bin".to_vec()));
    assert_eq!(batches[0].mutations[0].is_delete, Some(false));
    assert_eq!(batches[0].mutations[0].write_to_wal, Some(true));
    assert_eq!(
        batches[0].mutations[0].value,
        Some(vec![0, 42, 0, 0, 0, 0, 0, 0, 0, 0, 0, 0, 0, 0])
    );
    assert_eq!(bytes, 14 + 14 + 14 + account_in_use().encoded.len());

    let (batches, bytes) = put_protobuf_cells(&vec![("k".to_string(), vec![5u8; 1000])], true, false)
        .unwrap();
    assert_eq!(batches[0].mutations[0].column, Some(b"x:proto".to_vec()));
    assert_eq!(batches[0].mutations[0].write_to_wal, Some(false));
    let value = batches[0].mutations[0].value.clone().unwrap();
    assert_eq!(value[0], 3);
    assert_eq!(bytes, value.len());
    assert_eq!(ledger_gateway::compression::decompress(&value), Ok(vec![5u8; 1000]));
}

#[test]
fn tx_by_addr_rows_are_written_as_protobuf() {
    let records = derive_records(42, &sample_block(), &UploaderConfig::default(), false);
    let payloads = tx_by_addr_payloads(&records.tx_by_addr_cells).unwrap();
    assert_eq!(payloads.len(), 4);
    assert_eq!(payloads[0].0, records.tx_by_addr_cells[0].0);
    let decoded =
        decode_entries(&ledger_gateway::cell::CellData::Protobuf(payloads[0].1.clone())).unwrap();
    assert_eq!(decoded, records.tx_by_addr_cells[0].1);
    assert_ne!(payloads[0].1, payloads[1].1);

    let broken = vec![(
        "k".to_string(),
        vec![TransactionByAddrInfo {
            signature: signature(1),
            err: Some(TransactionError { encoded: vec![0xff; 3] }),
            index: 0,
            memo: None,
            block_time: None,
        }],
    )];
    assert_eq!(tx_by_addr_payloads(&broken), None);
    assert_eq!(encode_entries(&broken[0].1), None);
}

#[test]
fn legacy_rows_of_tx_by_addr_are_read() {
    let legacy = vec![
        (
            solana_signature::Signature::from(signature(4)),
            Some(solana_transaction_error::TransactionError::AccountInUse),
            7u32,
            Some("memo".to_string()),
        ),
        (solana_signature::Signature::from(signature(5)), None, 8u32, None),
    ];
    let bytes = bincode::serialize(&legacy).unwrap();
    let decoded = decode_entries(&ledger_gateway::cell::CellData::Bincode(bytes.clone())).unwrap();
    assert_eq!(
        decoded,
        vec![
            TransactionByAddrInfo {
                signature: signature(4),
                err: Some(account_in_use()),
                index: 7,
                memo: Some("memo".to_string()),
                block_time: None,
            },
            TransactionByAddrInfo {
                signature: signature(5),
                err: None,
                index: 8,
                memo: None,
                block_time: None,
            },
        ]
    );
    assert_eq!(decode_entries(&ledger_gateway::cell::CellData::Bincode(vec![1, 2, 3])), None);
    assert_eq!(decode_entries(&ledger_gateway::cell::CellData::Protobuf(vec![0xff, 0xff])), None);
    assert_eq!(decode_entries(&ledger_gateway::cell::CellData::Protobuf(bytes)), None);
}

#[test]
fn cached_transactions_are_framed_and_expire() {
    let mut storage = LedgerStorage::new_with_config(LedgerStorageConfig::default());
    let (cell, seconds) = storage.cache_transaction(&[1u8; 500]).unwrap();
    assert_eq!(cell[0], 3);
    assert_eq!(seconds, 14 * 24 * 60 * 60);
    storage.tx_cache_expiration = None;
    assert_eq!(storage.cache_transaction(&[1, 2]).unwrap(), (vec![0, 1, 2], 0));
    storage.tx_cache_expiration = Some(u64::MAX);
    assert_eq!(storage.cache_transaction(&[]).unwrap().1, u32::MAX);
}

#[test]
fn upload_made_twice_leaves_what_it_leaves_once() {
    let mut config = UploaderConfig::default();
    config.enable_full_tx = true;
    let first = derive_records(42, &sample_block(), &config, true);
    let second = derive_records(42, &sample_block(), &config, true);
    assert_eq!(first.tx_cells, second.tx_cells);
    assert_eq!(first.full_tx_cells, second.full_tx_cells);
    assert_eq!(first.full_tx_cache, second.full_tx_cache);
    assert_eq!(first.tx_by_addr_cells, second.tx_by_addr_cells);
    assert_eq!(first.blocks_key, second.blocks_key);

    let puts = |records: &ledger_gateway::records::UploadRecords| {
        let (tx, _) = put_bincode_cells(&tx_payloads(&records.tx_cells), true, true).unwrap();
        let by_addr = tx_by_addr_payloads(&records.tx_by_addr_cells).unwrap();
        let (by_addr, _) = put_protobuf_cells(&by_addr, true, true).unwrap();
        (tx, by_addr)
    };
    let mut table = std::collections::BTreeMap::new();
    table.insert((b"other row".to_vec(), b"x:bin".to_vec()), vec![1u8]);
    let mut apply = |batches: &Vec<ledger_gateway::hbase::BatchMutation>| {
        for batch in batches {
            for mutation in &batch.mutations {
                table.insert(
                    (batch.row.clone(), mutation.column.clone().unwrap()),
                    mutation.value.clone().unwrap(),
                );
            }
        }
        table.clone()
    };
    let (tx, by_addr) = puts(&first);
    apply(&tx);
    let once = apply(&by_addr);
    let (tx, by_addr) = puts(&second);
    apply(&tx);
    let twice = apply(&by_addr);
    assert_eq!(once, twice);
    assert_eq!(once.len(), 1 + 3 + 4);
}

#[test]
fn cloud_upload_lists_every_address_that_is_not_reserved() {
    let system_program = [0u8; 32];
    let block = block(vec![
        transaction(1, vec![key(1), system_program, clock_key()], vec![], None),
        transaction(2, vec![key(2), key(1), vote_key()], vec![], Some(account_in_use())),
    ]);
    let storage = ledger_gateway::bigtable_writer::LedgerStorage {};
    assert!(storage.should_include_in_tx_full(&key(1)));
    assert!(storage.should_include_in_tx_by_addr(&system_program));
    let (records, tasks) = storage.upload_confirmed_block(9, &block);
    assert_eq!(tasks, vec![UploadTask::Tx, UploadTask::TxByAddr]);
    assert_eq!(records.blocks_key, slot_to_key(9));
    assert_eq!(
        records.tx_cells,
        vec![
            (signature_text(1), TransactionInfo { slot: 9, index: 0, err: None }),
            (signature_text(2), TransactionInfo { slot: 9, index: 1, err: Some(account_in_use()) }),
        ]
    );
    let addresses: Vec<String> = records
        .tx_by_addr_cells
        .iter()
        .map(|(k, _)| k.split('/').next().unwrap().to_string())
        .collect();
    assert_eq!(addresses, vec![text(&key(1)), text(&key(2))]);
    assert_eq!(records.tx_by_addr_cells[0].1.len(), 2);
    assert_eq!(records.tx_by_addr_cells[0].1[1].index, 1);
    assert_eq!(records.tx_by_addr_cells[0].1[1].err, Some(account_in_use()));
    assert!(records.tx_by_addr_cells[0].0.ends_with(&slot_to_tx_by_addr_key(9)));

    let (records, tasks) = storage.upload_confirmed_block(9, &block_of_nothing());
    assert!(tasks.is_empty());
    assert!(records.tx_cells.is_empty() && records.tx_by_addr_cells.is_empty());
}

fn block_of_nothing() -> VersionedConfirmedBlock {
    block(vec![])
}

#[test]
fn failures_keep_their_kind_and_their_words() {
    assert_eq!(
        TaskError::from(CacheWriteError::MemcacheError("down".to_string())),
        TaskError::MemcacheError("down".to_string())
    );
    assert_eq!(
        TaskError::from(CacheWriteError::IoError("disk".to_string())),
        TaskError::IoError("disk".to_string())
    );
    assert_eq!(
        TaskError::from(CacheWriteError::EncodingError("enc".to_string())),
        TaskError::EncodingError("enc".to_string())
    );
    assert_eq!(
        Error::from(TaskError::HBaseError(StoreError::Timeout)),
        Error::StorageBackendError(StoreError::Timeout)
    );
    assert_eq!(
        Error::from(TaskError::MemcacheError("down".to_string())),
        Error::CacheError("down".to_string())
    );
    assert_eq!(Error::from(TaskError::IoError("disk".to_string())), Error::IoError("disk".to_string()));
    assert_eq!(
        Error::from(TaskError::EncodingError("enc".to_string())),
        Error::EncodingError("enc".to_string())
    );
    assert_eq!(
        Error::from(TaskError::Join("gone".to_string())),
        Error::TokioJoinError("gone".to_string())
    );
}

#[test]
fn program_filter_leaves_tx_full_alone() {
    // key(3) runs as a program in the first transaction and is barred from tx_full
    let mut config = UploaderConfig::default();
    config.enable_full_tx = true;
    config.tx_full_filter = Some(FilterTxIncludeExclude { exclude: true, addrs: vec![key(3)] });
    let without = derive_records(42, &sample_block(), &config, true);
    config.filter_program_accounts = true;
    let with = derive_records(42, &sample_block(), &config, true);
    assert_eq!(without.full_tx_cells, vec![(signature_text(2), 1), (signature_text(3), 2)]);
    assert_eq!(with.full_tx_cells, without.full_tx_cells);
    assert_eq!(with.tx_cells, without.tx_cells);
    assert_eq!(with.full_tx_cache, without.full_tx_cache);
    assert_eq!(with.blocks_key, without.blocks_key);
    let listed = |records: &ledger_gateway::records::UploadRecords| -> Vec<String> {
        records.tx_by_addr_cells.iter().map(|(k, _)| k.split('/').next().unwrap().to_string()).collect()
    };
    assert!(listed(&without).contains(&text(&key(3))));
    assert!(!listed(&with).contains(&text(&key(3))));
    assert!(!listed(&with).contains(&text(&clock_key())));
    assert!(!listed(&without).contains(&text(&clock_key())));
}
