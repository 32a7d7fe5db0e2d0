use ledger_gateway::block::{
    add_empty_tx_metadata_if_missing, convert_block, encode_block, encode_transaction,
    is_switched_on, set_add_empty_tx_metadata_if_missing, ConfirmedBlock, ConvertBlockError,
    ConvertError, RuntimeToggles, TransactionWithStatusMeta, VersionedConfirmedBlock,
};
use ledger_gateway::errors::{ConversionError, DecodeError};
use ledger_gateway::message::Message;
use ledger_gateway::transaction::{Transaction, VersionedTransactionWithStatusMeta};
use ledger_gateway::tx_status_meta::{
    TransactionReturnData, TransactionStatusMeta, TransactionTokenBalance,
};
use ledger_gateway::tx_utils::{calculate_epoch, determine_transaction_type, TransactionType};
use ledger_gateway::types::TransactionError;
use ledger_gateway::ui::{
    BlockEncodingOptions, EncodedConfirmedBlock, EncodedTransaction,
    EncodedTransactionWithStatusMeta, MessageHeader, Reward, RewardType, TransactionDetails,
    TransactionVersion, UiCompiledInstruction, UiConfirmedBlock, UiInnerInstructions,
    UiInstruction, UiLoadedAddresses, UiMessage, UiRawMessage, UiTokenAmount, UiTransaction,
    UiTransactionEncoding, UiTransactionReturnData, UiTransactionStatusMeta,
    UiTransactionTokenBalance,
};
use ledger_gateway::versioned_message::VersionedMessage;

use base64::Engine;

fn ui_meta() -> UiTransactionStatusMeta {
    UiTransactionStatusMeta {
        err: None,
        fee: 1,
        pre_balances: vec![43, 0, 1],
        post_balances: vec![0, 42, 1],
        inner_instructions: Some(vec![UiInnerInstructions {
            index: 0,
            instructions: vec![UiInstruction::Compiled(UiCompiledInstruction {
                program_id_index: 1,
                accounts: vec![0],
                data: bs58::encode([9u8, 8]).into_string(),
                stack_height: Some(2),
            })],
        }]),
        log_messages: Some(vec!["log".to_string()]),
        pre_token_balances: Some(vec![UiTransactionTokenBalance {
            account_index: 1,
            mint: "mint".to_string(),
            ui_token_amount: UiTokenAmount {
                ui_amount_bits: Some(1.5f64.to_bits()),
                decimals: 2,
                amount: "150".to_string(),
                ui_amount_string: "1.5".to_string(),
            },
            owner: Some("owner".to_string()),
            program_id: None,
        }]),
        post_token_balances: None,
        rewards: Some(vec![Reward {
            pubkey: "r".to_string(),
            lamports: -5,
            post_balance: 10,
            reward_type: Some(RewardType::Fee),
            commission: None,
        }]),
        loaded_addresses: Some(UiLoadedAddresses { writable: vec![], readonly: vec![] }),
        return_data: Some(UiTransactionReturnData {
            program_id: "11111111111111111111111111111111".to_string(),
            data: base64::prelude::BASE64_STANDARD.encode([1u8, 2, 3]),
        }),
        compute_units_consumed: Some(1234),
    }
}

fn ui_transaction(signature: [u8; 64]) -> EncodedTransaction {
    EncodedTransaction::Json(UiTransaction {
        signatures: vec![solana_signature::Signature::from(signature).to_string()],
        message: UiMessage::Raw(UiRawMessage {
            header: MessageHeader {
                num_required_signatures: 1,
                num_readonly_signed_accounts: 0,
                num_readonly_unsigned_accounts: 0,
            },
            account_keys: vec!["11111111111111111111111111111111".to_string()],
            recent_blockhash: "11111111111111111111111111111111".to_string(),
            instructions: vec![],
            address_table_lookups: None,
        }),
    })
}

fn entry(signature: [u8; 64], with_meta: bool) -> EncodedTransactionWithStatusMeta {
    EncodedTransactionWithStatusMeta {
        transaction: ui_transaction(signature),
        meta: if with_meta { Some(ui_meta()) } else { None },
        version: None,
    }
}

fn encoded_block(entries: Vec<EncodedTransactionWithStatusMeta>) -> EncodedConfirmedBlock {
    EncodedConfirmedBlock {
        previous_blockhash: "prev".to_string(),
        blockhash: "hash".to_string(),
        parent_slot: 1,
        transactions: entries,
        rewards: vec![],
        num_partitions: Some(2),
        block_time: Some(1_234_567_890),
        block_height: Some(1),
    }
}

fn options(details: TransactionDetails) -> BlockEncodingOptions {
    BlockEncodingOptions {
        transaction_details: details,
        show_rewards: true,
        max_supported_transaction_version: Some(0),
    }
}

fn toggles(on: bool) -> RuntimeToggles {
    RuntimeToggles { add_empty_tx_metadata_if_missing: on }
}

fn legacy_message() -> Message {
    Message {
        header: MessageHeader {
            num_required_signatures: 1,
            num_readonly_signed_accounts: 0,
            num_readonly_unsigned_accounts: 0,
        },
        account_keys: vec![[0; 32]],
        recent_blockhash: [0; 32],
        instructions: vec![],
    }
}

#[test]
fn block_is_converted_for_upload() {
    let block = encoded_block(vec![entry([1; 64], true), entry([2; 64], true)]);
    let converted = convert_block(
        block,
        UiTransactionEncoding::Json,
        options(TransactionDetails::Full),
        &toggles(false),
    )
    .unwrap();
    assert_eq!(converted.previous_blockhash, "prev");
    assert_eq!(converted.blockhash, "hash");
    assert_eq!(converted.parent_slot, 1);
    assert_eq!(converted.num_partitions, Some(2));
    assert_eq!(converted.block_time, Some(1_234_567_890));
    assert_eq!(converted.block_height, Some(1));
    assert_eq!(converted.transactions.len(), 2);
    let first = &converted.transactions[0];
    assert_eq!(first.transaction.signatures, vec![[1; 64]]);
    assert_eq!(first.transaction.message, VersionedMessage::Legacy(legacy_message()));
    assert_eq!(first.meta.fee, 1);
    assert_eq!(first.meta.pre_balances, vec![43, 0, 1]);
    assert_eq!(first.meta.post_balances, vec![0, 42, 1]);
    assert_eq!(first.meta.compute_units_consumed, Some(1234));
    assert_eq!(first.meta.log_messages, Some(vec!["log".to_string()]));
    assert_eq!(first.meta.rewards, ui_meta().rewards);
    assert_eq!(
        first.meta.return_data,
        Some(TransactionReturnData { program_id: [0; 32], data: vec![1, 2, 3] })
    );
    let inner = first.meta.inner_instructions.as_ref().unwrap();
    assert_eq!(inner[0].instructions[0].instruction.data, vec![9, 8]);
    assert_eq!(inner[0].instructions[0].stack_height, Some(2));
    assert_eq!(
        first.meta.pre_token_balances,
        Some(vec![TransactionTokenBalance {
            account_index: 1,
            mint: "mint".to_string(),
            ui_token_amount: ui_meta().pre_token_balances.unwrap()[0].ui_token_amount.clone(),
            owner: "owner".to_string(),
            program_id: String::new(),
        }])
    );
    assert_eq!(first.meta.post_token_balances, None);
}

#[test]
fn transactions_without_metadata_fail_the_conversion() {
    let block = encoded_block(vec![entry([1; 64], true), entry([2; 64], false), entry([3; 64], false)]);
    assert_eq!(
        convert_block(
            block,
            UiTransactionEncoding::Json,
            options(TransactionDetails::Full),
            &toggles(false)
        ),
        Err(ConvertError::Convert(ConvertBlockError::TransactionsMissing(3, 1)))
    );
}

#[test]
fn transactions_without_metadata_get_empty_metadata_where_asked() {
    let block = encoded_block(vec![entry([1; 64], true), entry([2; 64], false)]);
    let converted = convert_block(
        block,
        UiTransactionEncoding::Json,
        options(TransactionDetails::Full),
        &toggles(true),
    )
    .unwrap();
    assert_eq!(converted.transactions.len(), 2);
    assert_eq!(converted.transactions[1].transaction.signatures, vec![[2; 64]]);
    assert_eq!(converted.transactions[1].meta, TransactionStatusMeta::empty());
    assert_eq!(converted.transactions[1].meta.fee, 0);
    assert_eq!(converted.transactions[1].meta.err, None);
    assert!(converted.transactions[1].meta.pre_balances.is_empty());
    assert_eq!(
        converted.transactions[1],
        VersionedTransactionWithStatusMeta::from_legacy(Transaction {
            signatures: vec![[2; 64]],
            message: legacy_message(),
        })
    );
}

#[test]
fn level_of_detail_decides_what_is_decoded() {
    let ui = UiConfirmedBlock::from(encoded_block(vec![entry([1; 64], false)]));
    let json = UiTransactionEncoding::Json;
    let full = ConfirmedBlock::decode_with_options(ui.clone(), json, options(TransactionDetails::Full))
        .unwrap();
    assert_eq!(
        full.transactions,
        vec![TransactionWithStatusMeta::MissingMetadata(Transaction {
            signatures: vec![[1; 64]],
            message: legacy_message(),
        })]
    );
    let accounts =
        ConfirmedBlock::decode_with_options(ui.clone(), json, options(TransactionDetails::Accounts))
            .unwrap();
    assert_eq!(accounts, full);
    let none =
        ConfirmedBlock::decode_with_options(ui.clone(), json, options(TransactionDetails::Omitted))
            .unwrap();
    assert!(none.transactions.is_empty());
    assert_eq!(none.blockhash, "hash");
    assert_eq!(
        ConfirmedBlock::decode_with_options(ui.clone(), json, options(TransactionDetails::Signatures)),
        Err(DecodeError::InvalidEncoding)
    );
    let mut with_signatures = ui.clone();
    with_signatures.signatures = Some(vec![]);
    assert_eq!(
        ConfirmedBlock::decode_with_options(
            with_signatures,
            json,
            options(TransactionDetails::Signatures)
        ),
        Err(DecodeError::NotImplemented)
    );
    let mut without = ui;
    without.transactions = None;
    without.rewards = None;
    assert_eq!(
        ConfirmedBlock::decode_with_options(without.clone(), json, options(TransactionDetails::Full)),
        Err(DecodeError::InvalidEncoding)
    );
    let none =
        ConfirmedBlock::decode_with_options(without, json, options(TransactionDetails::Omitted))
            .unwrap();
    assert!(none.rewards.is_empty());
}

#[test]
fn first_undecodable_entry_fails_the_block() {
    let mut broken = entry([2; 64], true);
    broken.version = Some(TransactionVersion::Number(3));
    let mut also_broken = entry([3; 64], true);
    also_broken.transaction = EncodedTransaction::Accounts;
    let block = encoded_block(vec![entry([1; 64], true), broken, also_broken]);
    assert_eq!(
        convert_block(
            block,
            UiTransactionEncoding::Json,
            options(TransactionDetails::Full),
            &toggles(true)
        ),
        Err(ConvertError::Decode(DecodeError::UnsupportedVersion))
    );
}

#[test]
fn metadata_is_converted_part_by_part() {
    let converted = TransactionStatusMeta::try_from_ui(ui_meta()).unwrap();
    assert_eq!(converted.loaded_addresses.writable.len(), 0);
    let mut meta = ui_meta();
    meta.loaded_addresses = None;
    assert_eq!(TransactionStatusMeta::try_from_ui(meta), Err(ConversionError::InvalidProgramId));
    let mut meta = ui_meta();
    meta.loaded_addresses =
        Some(UiLoadedAddresses { writable: vec!["12345".to_string()], readonly: vec![] });
    assert_eq!(TransactionStatusMeta::try_from_ui(meta), Err(ConversionError::InvalidProgramId));
    let mut meta = ui_meta();
    meta.return_data.as_mut().unwrap().data = "***".to_string();
    meta.loaded_addresses = None;
    assert_eq!(TransactionStatusMeta::try_from_ui(meta), Err(ConversionError::InvalidData));
    let mut meta = ui_meta();
    meta.return_data.as_mut().unwrap().program_id = "12345".to_string();
    assert_eq!(TransactionStatusMeta::try_from_ui(meta), Err(ConversionError::InvalidProgramId));
    let mut meta = ui_meta();
    meta.inner_instructions.as_mut().unwrap()[0].instructions.push(UiInstruction::Parsed);
    meta.return_data.as_mut().unwrap().data = "***".to_string();
    assert_eq!(
        TransactionStatusMeta::try_from_ui(meta),
        Err(ConversionError::UnsupportedInstructionFormat)
    );
    let mut meta = ui_meta();
    meta.err = Some(TransactionError { encoded: vec![1, 0, 0, 0] });
    meta.inner_instructions = None;
    meta.return_data = None;
    meta.log_messages = None;
    let converted = TransactionStatusMeta::try_from_ui(meta).unwrap();
    assert_eq!(converted.err, Some(TransactionError { encoded: vec![1, 0, 0, 0] }));
    assert_eq!(converted.inner_instructions, None);
    assert_eq!(converted.return_data, None);
    assert_eq!(converted.log_messages, None);
}

#[test]
fn entry_with_broken_metadata_is_invalid_data() {
    let mut broken = entry([1; 64], true);
    broken.meta.as_mut().unwrap().loaded_addresses = None;
    assert_eq!(
        VersionedTransactionWithStatusMeta::decode(broken.clone(), UiTransactionEncoding::Json),
        Err(DecodeError::InvalidData)
    );
    assert_eq!(
        TransactionWithStatusMeta::decode(broken, UiTransactionEncoding::Json),
        Err(DecodeError::InvalidData)
    );
    assert_eq!(
        VersionedTransactionWithStatusMeta::decode(entry([1; 64], false), UiTransactionEncoding::Json),
        Err(DecodeError::InvalidData)
    );
}

#[test]
fn versioned_block_keeps_the_count_of_transactions() {
    let complete = VersionedTransactionWithStatusMeta::from_legacy(Transaction {
        signatures: vec![[1; 64]],
        message: legacy_message(),
    });
    let block = ConfirmedBlock {
        previous_blockhash: "p".to_string(),
        blockhash: "b".to_string(),
        parent_slot: 3,
        transactions: vec![
            TransactionWithStatusMeta::Complete(complete.clone()),
            TransactionWithStatusMeta::MissingMetadata(Transaction::default()),
        ],
        rewards: vec![],
        num_partitions: None,
        block_time: None,
        block_height: Some(4),
    };
    assert_eq!(
        VersionedConfirmedBlock::try_from_block(block.clone(), false),
        Err(ConvertBlockError::TransactionsMissing(2, 1))
    );
    let versioned = VersionedConfirmedBlock::try_from_block(block, true).unwrap();
    assert_eq!(versioned.transactions.len(), 2);
    assert_eq!(versioned.transactions[0], complete);
    assert_eq!(versioned.block_height, Some(4));
    assert_eq!(versioned.parent_slot, 3);
}

#[test]
fn toggle_is_set_and_read() {
    let mut toggles = RuntimeToggles::from_setting(None);
    assert!(!add_empty_tx_metadata_if_missing(&toggles));
    set_add_empty_tx_metadata_if_missing(&mut toggles, true);
    assert!(add_empty_tx_metadata_if_missing(&toggles));
    set_add_empty_tx_metadata_if_missing(&mut toggles, false);
    assert!(!add_empty_tx_metadata_if_missing(&toggles));
    for on in ["1", "true", "TRUE", "True", "tRuE"] {
        assert!(is_switched_on(on), "{on}");
        assert!(RuntimeToggles::from_setting(Some(on)).add_empty_tx_metadata_if_missing);
    }
    for off in ["", "0", "2", "yes", "truee", "tru", " true", "11", "trüe", "é"] {
        assert!(!is_switched_on(off), "{off}");
        assert!(!RuntimeToggles::from_setting(Some(off)).add_empty_tx_metadata_if_missing);
    }
}

#[test]
fn encoded_records_are_framed_best() {
    assert_eq!(encode_block(&[1, 2]).unwrap(), vec![0, 1, 2]);
    let cell = encode_transaction(&[4u8; 600]).unwrap();
    assert_eq!(cell[0], 3);
    assert_eq!(ledger_gateway::compression::decompress(&cell), Ok(vec![4u8; 600]));
}

#[test]
fn epoch_and_kind_of_a_transaction() {
    assert_eq!(calculate_epoch(0), 0);
    assert_eq!(calculate_epoch(431_999), 0);
    assert_eq!(calculate_epoch(432_000), 1);
    assert_eq!(calculate_epoch(u64::MAX), u64::MAX / 432_000);
    let vote = "Vote111111111111111111111111111111111111111"
        .parse::<solana_pubkey::Pubkey>()
        .unwrap()
        .to_bytes();
    let mut legacy = Transaction { signatures: vec![[1; 64]], message: legacy_message() };
    assert_eq!(
        determine_transaction_type(&TransactionWithStatusMeta::MissingMetadata(legacy.clone())),
        TransactionType::Regular
    );
    legacy.message.account_keys.push(vote);
    assert_eq!(
        determine_transaction_type(&TransactionWithStatusMeta::MissingMetadata(legacy.clone())),
        TransactionType::Voting
    );
    let mut complete = VersionedTransactionWithStatusMeta::from_legacy(Transaction {
        signatures: vec![[1; 64]],
        message: legacy_message(),
    });
    complete.meta.err = Some(TransactionError { encoded: vec![0; 4] });
    assert_eq!(
        determine_transaction_type(&TransactionWithStatusMeta::Complete(complete.clone())),
        TransactionType::Error
    );
    complete.transaction.message = VersionedMessage::Legacy(legacy.message);
    assert_eq!(
        determine_transaction_type(&TransactionWithStatusMeta::Complete(complete)),
        TransactionType::Voting
    );
    assert_eq!(TransactionType::Voting.name(), "voting");
    assert_eq!(TransactionType::Error.name(), "error");
    assert_eq!(TransactionType::Regular.name(), "regular");
}

#[test]
fn errors_have_their_words() {
    assert_eq!(DecodeError::InvalidEncoding.message(), "Invalid encoding");
    assert_eq!(DecodeError::UnsupportedVersion.message(), "Transaction version is not supported");
    assert_eq!(ConversionError::InvalidProgramId.message(), "Invalid program id");
    assert_eq!(
        ConversionError::UnsupportedInstructionFormat.message(),
        "Cannot convert from UiInstruction::Parsed to CompiledInstruction"
    );
}
