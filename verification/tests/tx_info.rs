use ledger_gateway::seqs::append_bytes;
use ledger_gateway::types::{
    same_bytes, same_key, same_signature, LegacyTransactionByAddrInfo, TransactionByAddrInfo,
    TransactionConfirmationStatus, TransactionError, TransactionInfo, TransactionStatus,
    UploadedTransaction,
};

fn outside_error() -> solana_transaction_error::TransactionError {
    solana_transaction_error::TransactionError::InsufficientFundsForRent { account_index: 3 }
}

#[test]
fn record_without_failure_is_thirteen_bytes() {
    let info = TransactionInfo { slot: 0x0102030405060708, index: 0x0a0b0c0d, err: None };
    let bytes = info.to_bytes();
    assert_eq!(bytes, vec![8, 7, 6, 5, 4, 3, 2, 1, 0x0d, 0x0c, 0x0b, 0x0a, 0]);
    assert_eq!(TransactionInfo::from_bytes(&bytes), Some(info));
}

#[test]
fn record_is_written_as_bincode_writes_it() {
    let encoded = bincode::serialize(&outside_error()).unwrap();
    let info = TransactionInfo {
        slot: 99,
        index: 5,
        err: Some(TransactionError { encoded: encoded.clone() }),
    };
    let expected = bincode::serialize(&(99u64, 5u32, Some(outside_error()))).unwrap();
    assert_eq!(info.to_bytes(), expected);
    assert_eq!(TransactionInfo::from_bytes(&expected), Some(info));
    let plain = bincode::serialize(&(
        7u64,
        1u32,
        Option::<solana_transaction_error::TransactionError>::None,
    ))
    .unwrap();
    assert_eq!(
        TransactionInfo::from_bytes(&plain),
        Some(TransactionInfo { slot: 7, index: 1, err: None })
    );
}

#[test]
fn bytes_behind_a_record_are_cut_off() {
    let encoded = bincode::serialize(&outside_error()).unwrap();
    let mut bytes = bincode::serialize(&(99u64, 5u32, Some(outside_error()))).unwrap();
    bytes.extend_from_slice(&[1, 2, 3]);
    assert_eq!(
        TransactionInfo::from_bytes(&bytes),
        Some(TransactionInfo { slot: 99, index: 5, err: Some(TransactionError { encoded }) })
    );
}

#[test]
fn broken_records_are_refused() {
    assert_eq!(TransactionInfo::from_bytes(&[]), None);
    assert_eq!(TransactionInfo::from_bytes(&[0; 12]), None);
    let mut bytes = vec![0u8; 13];
    bytes[12] = 2;
    assert_eq!(TransactionInfo::from_bytes(&bytes), None);
    bytes[12] = 1;
    assert_eq!(TransactionInfo::from_bytes(&bytes), None);
    bytes.extend_from_slice(&[0xff, 0xff, 0xff, 0xff]);
    assert_eq!(TransactionInfo::from_bytes(&bytes), None);
}

#[test]
fn status_of_a_record_is_finalized() {
    let err = Some(TransactionError { encoded: vec![1, 0, 0, 0] });
    let status = TransactionStatus::from(TransactionInfo { slot: 4, index: 9, err: err.clone() });
    assert_eq!(
        status,
        TransactionStatus {
            slot: 4,
            confirmations: None,
            err: err.clone(),
            confirmation_status: Some(TransactionConfirmationStatus::Finalized),
        }
    );
    let uploaded = UploadedTransaction::from(TransactionInfo { slot: 4, index: 9, err: err.clone() });
    assert_eq!(uploaded, UploadedTransaction { slot: 4, index: 9, err });
}

#[test]
fn legacy_entry_has_no_block_time() {
    let legacy = LegacyTransactionByAddrInfo {
        signature: [3; 64],
        err: None,
        index: 2,
        memo: Some("m".to_string()),
    };
    assert_eq!(
        TransactionByAddrInfo::from(legacy),
        TransactionByAddrInfo {
            signature: [3; 64],
            err: None,
            index: 2,
            memo: Some("m".to_string()),
            block_time: None,
        }
    );
}

#[test]
fn byte_helpers() {
    assert!(same_bytes(&[], &[]));
    assert!(same_bytes(&[1, 2], &[1, 2]));
    assert!(!same_bytes(&[1, 2], &[1, 3]));
    assert!(!same_bytes(&[1, 2], &[1]));
    assert!(same_key(&[7; 32], &[7; 32]));
    let mut other = [7; 32];
    other[31] = 8;
    assert!(!same_key(&[7; 32], &other));
    assert!(same_signature(&[1; 64], &[1; 64]));
    assert!(!same_signature(&[1; 64], &[2; 64]));
    let mut out = vec![1];
    append_bytes(&mut out, &[2, 3]);
    assert_eq!(out, vec![1, 2, 3]);
}
