//! Blocks and transactions as a JSON document gives them: keys, hashes and
//! signatures as base-58 text, binary data as base-58 or base-64 text.

use vstd::prelude::*;

use crate::types::{TransactionError, UnixTimestamp};

verus! {

/// The three counts that a message starts with.
#[derive(Clone, Copy, Debug, Default, PartialEq, Eq, Structural)]
pub struct MessageHeader {
    pub num_required_signatures: u8,
    pub num_readonly_signed_accounts: u8,
    pub num_readonly_unsigned_accounts: u8,
}

#[derive(Clone, Debug, PartialEq, Eq)]
pub struct UiCompiledInstruction {
    pub program_id_index: u8,
    pub accounts: Vec<u8>,
    /// The input of the program, in base 58.
    pub data: String,
    pub stack_height: Option<u32>,
}

/// An instruction in the compiled or in the parsed form. The parsed form
/// cannot be turned back into bytes, so nothing of it is held.
#[derive(Clone, Debug, PartialEq, Eq)]
pub enum UiInstruction {
    Compiled(UiCompiledInstruction),
    Parsed,
}

#[derive(Clone, Debug, PartialEq, Eq)]
pub struct UiInnerInstructions {
    pub index: u8,
    pub instructions: Vec<UiInstruction>,
}

#[derive(Clone, Debug, PartialEq, Eq)]
pub struct UiAddressTableLookup {
    pub account_key: String,
    pub writable_indexes: Vec<u8>,
    pub readonly_indexes: Vec<u8>,
}

#[derive(Clone, Debug, PartialEq, Eq)]
pub struct UiLoadedAddresses {
    pub writable: Vec<String>,
    pub readonly: Vec<String>,
}

#[derive(Clone, Debug, PartialEq, Eq)]
pub struct UiRawMessage {
    pub header: MessageHeader,
    pub account_keys: Vec<String>,
    pub recent_blockhash: String,
    pub instructions: Vec<UiCompiledInstruction>,
    pub address_table_lookups: Option<Vec<UiAddressTableLookup>>,
}

/// A message in the raw or in the parsed form. The parsed form loses
/// information, so nothing of it is held.
#[derive(Clone, Debug, PartialEq, Eq)]
pub enum UiMessage {
    Parsed,
    Raw(UiRawMessage),
}

#[derive(Clone, Debug, PartialEq, Eq)]
pub struct UiTransaction {
    pub signatures: Vec<String>,
    pub message: UiMessage,
}

#[derive(Clone, Copy, Debug, PartialEq, Eq, Structural)]
pub enum TransactionBinaryEncoding {
    Base58,
    Base64,
}

/// A transaction in one of the forms in which a document can hold it.
#[derive(Clone, Debug, PartialEq, Eq)]
pub enum EncodedTransaction {
    /// Base 58, the older way to write it.
    LegacyBinary(String),
    Binary(String, TransactionBinaryEncoding),
    Json(UiTransaction),
    /// Only the list of accounts: not enough to decode.
    Accounts,
}

/// The version that a document declares for a transaction.
#[derive(Clone, Copy, Debug, PartialEq, Eq, Structural)]
pub enum TransactionVersion {
    Legacy,
    Number(u8),
}

#[derive(Clone, Copy, Debug, PartialEq, Eq, Structural)]
pub enum UiTransactionEncoding {
    Binary,
    Base64,
    Base58,
    Json,
    JsonParsed,
}

/// How much of its transactions a block document holds.
#[derive(Clone, Copy, Debug, PartialEq, Eq, Structural)]
pub enum TransactionDetails {
    Full,
    Signatures,
    Omitted,
    Accounts,
}

#[derive(Clone, Copy, Debug, PartialEq, Eq, Structural)]
pub struct BlockEncodingOptions {
    pub transaction_details: TransactionDetails,
    pub show_rewards: bool,
    pub max_supported_transaction_version: Option<u8>,
}

#[derive(Clone, Debug, PartialEq, Eq)]
pub struct UiTransactionReturnData {
    pub program_id: String,
    /// The returned bytes, in base 64.
    pub data: String,
}

/// An amount of a token. The amount as a floating-point number is held by
/// its bits.
#[derive(Clone, Debug, PartialEq, Eq)]
pub struct UiTokenAmount {
    pub ui_amount_bits: Option<u64>,
    pub decimals: u8,
    pub amount: String,
    pub ui_amount_string: String,
}

#[derive(Clone, Debug, PartialEq, Eq)]
pub struct UiTransactionTokenBalance {
    pub account_index: u8,
    pub mint: String,
    pub ui_token_amount: UiTokenAmount,
    pub owner: Option<String>,
    pub program_id: Option<String>,
}

#[derive(Clone, Copy, Debug, PartialEq, Eq, Structural)]
pub enum RewardType {
    Fee,
    Rent,
    Staking,
    Voting,
}

#[derive(Clone, Debug, PartialEq, Eq)]
pub struct Reward {
    pub pubkey: String,
    pub lamports: i64,
    pub post_balance: u64,
    pub reward_type: Option<RewardType>,
    pub commission: Option<u8>,
}

pub type Rewards = Vec<Reward>;

/// The metadata of a transaction as a document gives it. A field that the
/// document leaves out or sets to null is `None`.
#[derive(Clone, Debug, PartialEq, Eq)]
pub struct UiTransactionStatusMeta {
    pub err: Option<TransactionError>,
    pub fee: u64,
    pub pre_balances: Vec<u64>,
    pub post_balances: Vec<u64>,
    pub inner_instructions: Option<Vec<UiInnerInstructions>>,
    pub log_messages: Option<Vec<String>>,
    pub pre_token_balances: Option<Vec<UiTransactionTokenBalance>>,
    pub post_token_balances: Option<Vec<UiTransactionTokenBalance>>,
    pub rewards: Option<Rewards>,
    pub loaded_addresses: Option<UiLoadedAddresses>,
    pub return_data: Option<UiTransactionReturnData>,
    pub compute_units_consumed: Option<u64>,
}

#[derive(Clone, Debug, PartialEq, Eq)]
pub struct EncodedTransactionWithStatusMeta {
    pub transaction: EncodedTransaction,
    pub meta: Option<UiTransactionStatusMeta>,
    pub version: Option<TransactionVersion>,
}

#[derive(Clone, Debug, PartialEq, Eq)]
pub struct EncodedConfirmedBlock {
    pub previous_blockhash: String,
    pub blockhash: String,
    pub parent_slot: u64,
    pub transactions: Vec<EncodedTransactionWithStatusMeta>,
    pub rewards: Rewards,
    pub num_partitions: Option<u64>,
    pub block_time: Option<UnixTimestamp>,
    pub block_height: Option<u64>,
}

#[derive(Clone, Debug, PartialEq, Eq)]
pub struct UiConfirmedBlock {
    pub previous_blockhash: String,
    pub blockhash: String,
    pub parent_slot: u64,
    pub transactions: Option<Vec<EncodedTransactionWithStatusMeta>>,
    pub signatures: Option<Vec<String>>,
    pub rewards: Option<Rewards>,
    pub num_reward_partitions: Option<u64>,
    pub block_time: Option<UnixTimestamp>,
    pub block_height: Option<u64>,
}

impl From<EncodedConfirmedBlock> for UiConfirmedBlock {
    /// The same block with every optional part present but the signatures.
    fn from(block: EncodedConfirmedBlock) -> (ui: UiConfirmedBlock) {
        UiConfirmedBlock {
            previous_blockhash: block.previous_blockhash,
            blockhash: block.blockhash,
            parent_slot: block.parent_slot,
            transactions: Some(block.transactions),
            signatures: None,
            rewards: Some(block.rewards),
            num_reward_partitions: block.num_partitions,
            block_time: block.block_time,
            block_height: block.block_height,
        }
    }
}

impl vstd::std_specs::convert::FromSpecImpl<EncodedConfirmedBlock> for UiConfirmedBlock {
    open spec fn obeys_from_spec() -> bool {
        true
    }

    open spec fn from_spec(block: EncodedConfirmedBlock) -> UiConfirmedBlock {
        UiConfirmedBlock {
            previous_blockhash: block.previous_blockhash,
            blockhash: block.blockhash,
            parent_slot: block.parent_slot,
            transactions: Some(block.transactions),
            signatures: None,
            rewards: Some(block.rewards),
            num_reward_partitions: block.num_partitions,
            block_time: block.block_time,
            block_height: block.block_height,
        }
    }
}

} // verus!
