//! What a reader makes of what the store hands out: the first and the
//! latest slot, the list of blocks, a block, the status of a signature and
//! a transaction.

use vstd::prelude::*;
use vstd::string::*;

use crate::block::{ConfirmedBlock, TransactionWithStatusMeta};
use crate::cell::{
    deserialize_bincode_cell_data, deserialize_protobuf_or_bincode_cell_data, object_id,
    object_name, record_payload, CellData, RowData, RowKey,
};
use crate::hbase::{get_row_keys, key_scan, Scan};
use crate::key::{blocks_key, key_slot, key_to_slot, slot_key, slot_to_blocks_key, Slot};
use crate::text::{signature_text, signature_to_string};
use crate::tx_info::info_of_bytes;
use crate::types::{
    same_signature, Signature, TransactionInfo, TransactionStatus, TransactionStatusView,
    UnixTimestamp,
};
use crate::upload::{Error, ErrorView};

verus! {

/// The slot that is reported as the first one where row keys are salted:
/// salted keys do not sort by slot, so the first row says nothing.
pub const FIRST_SLOT_SENTINEL: Slot = 0;

/// How a reader is set up.
#[derive(Clone, Debug)]
pub struct LedgerStorageConfig {
    pub read_only: bool,
    /// In seconds.
    pub timeout: Option<u64>,
    pub address: String,
    /// How many blocks the cache of blocks holds, if there is one.
    pub block_cache: Option<usize>,
    pub use_md5_row_key_salt: bool,
    pub enable_full_tx_cache: bool,
    pub disable_tx_fallback: bool,
    pub cache_address: Option<String>,
}

/// A transaction with its slot and the time of its block.
#[derive(Clone, Debug, PartialEq, Eq)]
pub struct ConfirmedTransactionWithStatusMeta {
    pub slot: Slot,
    pub tx_with_meta: TransactionWithStatusMeta,
    pub block_time: Option<UnixTimestamp>,
}

/// A full transaction in the legacy binary form.
#[derive(Clone, Debug, PartialEq, Eq)]
pub struct StoredConfirmedTransactionWithStatusMeta {
    pub slot: Slot,
    pub tx_with_meta: TransactionWithStatusMeta,
    pub block_time: Option<UnixTimestamp>,
}

/// The part of a reader that decides what is read and what the answer is.
#[derive(Clone, Copy, Debug, PartialEq, Eq, Structural)]
pub struct LedgerStorage {
    pub use_md5_row_key_salt: bool,
    pub disable_tx_fallback: bool,
    pub has_block_cache: bool,
    /// Whether the cache of full transactions is asked: it is switched on
    /// and the reader is connected to it.
    pub has_tx_cache: bool,
}

impl LedgerStorage {
    /// The reader that a configuration asks for. `cache_connected` tells
    /// whether the cache of full transactions could be reached.
    pub fn new_with_config(config: &LedgerStorageConfig, cache_connected: bool) -> (storage:
        LedgerStorage)
        ensures
            storage == (LedgerStorage {
                use_md5_row_key_salt: config.use_md5_row_key_salt,
                disable_tx_fallback: config.disable_tx_fallback,
                has_block_cache: config.block_cache is Some,
                has_tx_cache: config.enable_full_tx_cache && config.cache_address is Some
                    && cache_connected,
            }),
    {
        LedgerStorage {
            use_md5_row_key_salt: config.use_md5_row_key_salt,
            disable_tx_fallback: config.disable_tx_fallback,
            has_block_cache: config.block_cache.is_some(),
            has_tx_cache: config.enable_full_tx_cache && config.cache_address.is_some()
                && cache_connected,
        }
    }
}

/// The bytes of a cached transaction, from what the cache handed out: the
/// plain bytes of the cell where it holds one, or a message where the cell
/// cannot be unframed.
pub fn get_cached_transaction(cached: Option<Vec<u8>>) -> (payload: Result<Option<Vec<u8>>, String>)
    ensures
        match cached {
            None => payload matches Ok(None),
            Some(cell) => match crate::compression::decompressed(cell@) {
                Ok(plain) => payload matches Ok(Some(p)) && p@ == plain,
                Err(_) => payload matches Err(message) && message@ == "Decompression error"@,
            },
        },
{
    match cached {
        None => Ok(None),
        Some(cell) => match crate::compression::decompress(cell.as_slice()) {
            Ok(plain) => Ok(Some(plain)),
            Err(_) => Err(String::from_str("Decompression error")),
        },
    }
}

/// Where the search for a transaction looks next.
#[derive(Clone, Copy, Debug, PartialEq, Eq, Structural)]
pub enum LookupStage {
    /// In the cache of full transactions.
    Cache,
    /// In the table `tx_full`.
    FullTransaction,
    /// In the table `tx`, for the block and the place of the transaction.
    TransactionInfo,
    /// In the block of the slot, at the place.
    Block(Slot, u32),
}

/// What a step of the search for a transaction leads to.
#[derive(Debug)]
pub enum Lookup {
    Next(LookupStage),
    Found(ConfirmedTransactionWithStatusMeta),
    Absent,
    Failed(Error),
}

impl Default for LedgerStorageConfig {
    /// A reader of the store on this machine, without salt, cache of blocks
    /// or cache of transactions.
    fn default() -> (config: LedgerStorageConfig)
        ensures
            config.read_only,
            config.timeout is None,
            config.address@ == crate::config::DEFAULT_ADDRESS@,
            config.block_cache is None,
            !config.use_md5_row_key_salt,
            !config.enable_full_tx_cache,
            !config.disable_tx_fallback,
            config.cache_address matches Some(a) && a@ == crate::config::DEFAULT_ADDRESS@,
    {
        LedgerStorageConfig {
            read_only: true,
            timeout: None,
            address: String::from_str(crate::config::DEFAULT_ADDRESS),
            block_cache: None,
            use_md5_row_key_salt: false,
            enable_full_tx_cache: false,
            disable_tx_fallback: false,
            cache_address: Some(String::from_str(crate::config::DEFAULT_ADDRESS)),
        }
    }
}

impl From<StoredConfirmedTransactionWithStatusMeta> for ConfirmedTransactionWithStatusMeta {
    /// The transaction that its legacy binary form stands for.
    fn from(value: StoredConfirmedTransactionWithStatusMeta) -> (tx:
        ConfirmedTransactionWithStatusMeta) {
        ConfirmedTransactionWithStatusMeta {
            slot: value.slot,
            tx_with_meta: value.tx_with_meta,
            block_time: value.block_time,
        }
    }
}

impl vstd::std_specs::convert::FromSpecImpl<StoredConfirmedTransactionWithStatusMeta> for ConfirmedTransactionWithStatusMeta {
    open spec fn obeys_from_spec() -> bool {
        true
    }

    open spec fn from_spec(value: StoredConfirmedTransactionWithStatusMeta) -> ConfirmedTransactionWithStatusMeta {
        ConfirmedTransactionWithStatusMeta {
            slot: value.slot,
            tx_with_meta: value.tx_with_meta,
            block_time: value.block_time,
        }
    }
}

impl From<ConfirmedTransactionWithStatusMeta> for StoredConfirmedTransactionWithStatusMeta {
    /// The legacy binary form of a transaction.
    fn from(value: ConfirmedTransactionWithStatusMeta) -> (tx:
        StoredConfirmedTransactionWithStatusMeta) {
        StoredConfirmedTransactionWithStatusMeta {
            slot: value.slot,
            tx_with_meta: value.tx_with_meta,
            block_time: value.block_time,
        }
    }
}

impl vstd::std_specs::convert::FromSpecImpl<ConfirmedTransactionWithStatusMeta> for StoredConfirmedTransactionWithStatusMeta {
    open spec fn obeys_from_spec() -> bool {
        true
    }

    open spec fn from_spec(value: ConfirmedTransactionWithStatusMeta) -> StoredConfirmedTransactionWithStatusMeta {
        StoredConfirmedTransactionWithStatusMeta {
            slot: value.slot,
            tx_with_meta: value.tx_with_meta,
            block_time: value.block_time,
        }
    }
}

/// The error of an adapter that an error of the store stands for when a
/// row is read that should hold what was asked for: a missing row becomes
/// `missing`, anything else is handed on.
pub open spec fn read_error(err: crate::cell::Error, missing: ErrorView) -> ErrorView {
    match err {
        crate::cell::Error::RowNotFound => missing,
        e => ErrorView::StorageBackendError(e@),
    }
}

/// The slots that row keys stand for, in order; keys that stand for none
/// are passed over.
pub open spec fn slots_of(keys: Seq<String>) -> Seq<Slot>
    decreases keys.len(),
{
    if keys.len() == 0 {
        Seq::empty()
    } else {
        match key_slot(keys.last()@) {
            Some(slot) => slots_of(keys.drop_last()).push(slot),
            None => slots_of(keys.drop_last()),
        }
    }
}

/// The scan that finds the first block, or `None` where row keys are
/// salted and no scan can find it.
pub fn first_available_block_scan(use_md5_row_key_salt: bool) -> (scan: Option<Scan>)
    ensures
        scan is None <==> use_md5_row_key_salt,
        scan matches Some(s) ==> s@ == key_scan(None, None, 1, false),
{
    if use_md5_row_key_salt {
        None
    } else {
        get_row_keys(&None, &None, 1, false)
    }
}

/// The first slot that holds a block, from what the scan for it gave.
/// Where row keys are salted the answer is the sentinel, whatever the scan
/// gave.
pub fn get_first_available_block(use_md5_row_key_salt: bool, blocks: &Vec<RowKey>) -> (slot:
    Option<Slot>)
    ensures
        slot == if use_md5_row_key_salt {
            Some(FIRST_SLOT_SENTINEL)
        } else if blocks@.len() == 0 {
            None
        } else {
            key_slot(blocks@[0]@)
        },
{
    if use_md5_row_key_salt {
        return Some(FIRST_SLOT_SENTINEL);
    }
    if blocks.len() == 0 {
        return None;
    }
    key_to_slot(blocks[0].as_str())
}

/// The scan that lists the blocks from a slot on: from the key of the slot
/// to the key of the slot `limit` slots on, and `limit` rows at most. No
/// scan is made where row keys are salted or no block is asked for.
pub fn confirmed_blocks_scan(use_md5_row_key_salt: bool, start_slot: Slot, limit: usize) -> (scan:
    Option<Scan>)
    requires
        !use_md5_row_key_salt ==> start_slot + limit <= u64::MAX && limit <= i64::MAX,
    ensures
        scan is None <==> use_md5_row_key_salt || limit == 0,
        scan matches Some(s) ==> exists|start: String, end: String|
            start@ == slot_key(start_slot) && end@ == slot_key((start_slot + limit) as u64) && s@
                == key_scan(Some(start), Some(end), limit as i64, false),
{
    if use_md5_row_key_salt {
        return None;
    }
    let start = Some(slot_to_blocks_key(start_slot, false));
    let end = Some(slot_to_blocks_key(start_slot + limit as u64, false));
    get_row_keys(&start, &end, limit as i64, false)
}

/// The slots of the blocks that a scan listed. Where row keys are salted
/// the answer is the empty list.
pub fn get_confirmed_blocks(use_md5_row_key_salt: bool, blocks: &Vec<RowKey>) -> (slots: Vec<
    Slot,
>)
    ensures
        slots@ == if use_md5_row_key_salt {
            Seq::<Slot>::empty()
        } else {
            slots_of(blocks@)
        },
{
    let mut slots: Vec<Slot> = Vec::new();
    if use_md5_row_key_salt {
        return slots;
    }
    let mut i: usize = 0;
    assert(blocks@.subrange(0, 0) =~= Seq::<String>::empty());
    while i < blocks.len()
        invariant
            i <= blocks.len(),
            slots@ == slots_of(blocks@.subrange(0, i as int)),
        decreases blocks.len() - i,
    {
        proof {
            let longer = blocks@.subrange(0, i + 1);
            assert(longer.drop_last() =~= blocks@.subrange(0, i as int));
            assert(longer.last() == blocks@[i as int]);
        }
        match key_to_slot(blocks[i].as_str()) {
            Some(slot) => {
                slots.push(slot);
            },
            None => {},
        }
        i = i + 1;
    }
    assert(blocks@.subrange(0, blocks.len() as int) =~= blocks@);
    slots
}

/// The latest slot that holds a block, from the last row key of `blocks`:
/// zero where the table is empty; an error where the key stands for no
/// slot.
pub fn get_latest_stored_slot(last_row_key: Result<RowKey, crate::cell::Error>) -> (slot: Result<
    Slot,
    Error,
>)
    ensures
        match last_row_key {
            Ok(key) => match key_slot(key@) {
                Some(s) => slot == Ok::<Slot, Error>(s),
                None => slot matches Err(f) && f@ == ErrorView::StorageBackendError(
                    crate::cell::ErrorView::ObjectCorrupt(
                        "Failed to parse row key '"@ + key@ + "' as slot number"@,
                    ),
                ),
            },
            Err(crate::cell::Error::RowNotFound) => slot == Ok::<Slot, Error>(0),
            Err(e) => slot matches Err(f) && f@ == ErrorView::StorageBackendError(e@),
        },
{
    match last_row_key {
        Ok(key) => match key_to_slot(key.as_str()) {
            Some(slot) => Ok(slot),
            None => {
                let mut message = String::from_str("Failed to parse row key '");
                message.append(key.as_str());
                message.append("' as slot number");
                Err(Error::StorageBackendError(crate::cell::Error::ObjectCorrupt(message)))
            },
        },
        Err(crate::cell::Error::RowNotFound) => Ok(0),
        Err(e) => Err(Error::StorageBackendError(e)),
    }
}

/// Whether the cache of blocks is asked before the store, and filled
/// after a read from the store.
pub fn uses_block_cache(use_cache: bool, has_cache: bool) -> (uses: bool)
    ensures
        uses == (use_cache && has_cache),
{
    use_cache && has_cache
}

/// The row of a block, from what reading it gave: a missing row means
/// that there is no block in the slot.
pub fn block_row(read: Result<RowData, crate::cell::Error>, slot: Slot) -> (row: Result<
    RowData,
    Error,
>)
    ensures
        match read {
            Ok(r) => row == Ok::<RowData, Error>(r),
            Err(e) => row matches Err(f) && f@ == read_error(e, ErrorView::BlockNotFound(slot)),
        },
{
    match read {
        Ok(row) => Ok(row),
        Err(crate::cell::Error::RowNotFound) => Err(Error::BlockNotFound(slot)),
        Err(e) => Err(Error::StorageBackendError(e)),
    }
}

/// The bytes of the block that a row holds, and their encoding.
pub fn block_payload(row_data: &RowData, slot: Slot, use_md5_row_key_salt: bool) -> (payload:
    Result<CellData<Vec<u8>, Vec<u8>>, Error>)
    ensures
        match record_payload(
            row_data@,
            object_id("blocks"@, blocks_key(slot, use_md5_row_key_salt)),
        ) {
            Ok(p) => payload matches Ok(q) && crate::cell::payload_view(q) == p,
            Err(crate::cell::ErrorView::RowNotFound) => payload matches Err(f) && f@
                == ErrorView::BlockNotFound(slot),
            Err(e) => payload matches Err(f) && f@ == ErrorView::StorageBackendError(e),
        },
{
    let key = slot_to_blocks_key(slot, use_md5_row_key_salt);
    match deserialize_protobuf_or_bincode_cell_data(row_data.as_slice(), "blocks", key.as_str()) {
        Ok(payload) => Ok(payload),
        Err(crate::cell::Error::RowNotFound) => Err(Error::BlockNotFound(slot)),
        Err(e) => Err(Error::StorageBackendError(e)),
    }
}

/// The block of a slot, from what decoding the bytes of its cell gave: a
/// cell that cannot be decoded is corrupt.
pub fn decoded_block(decoded: Option<ConfirmedBlock>, slot: Slot, use_md5_row_key_salt: bool) -> (block:
    Result<ConfirmedBlock, Error>)
    ensures
        match decoded {
            Some(b) => block == Ok::<ConfirmedBlock, Error>(b),
            None => block matches Err(f) && f@ == ErrorView::StorageBackendError(
                crate::cell::ErrorView::ObjectCorrupt(
                    object_id("blocks"@, blocks_key(slot, use_md5_row_key_salt)),
                ),
            ),
        },
{
    match decoded {
        Some(block) => Ok(block),
        None => {
            let key = slot_to_blocks_key(slot, use_md5_row_key_salt);
            Err(
                Error::StorageBackendError(
                    crate::cell::Error::ObjectCorrupt(object_name("blocks", key.as_str())),
                ),
            )
        },
    }
}

/// The row that goes into the cache of blocks after a read: the row as it
/// was read from the store, still compressed, where the cache is used, the
/// row did not come from the cache, and the block was decoded from it.
pub open spec fn row_to_cache(
    use_cache: bool,
    from_cache: bool,
    row: RowData,
    block: Result<ConfirmedBlock, Error>,
) -> Option<RowData> {
    if use_cache && !from_cache && block is Ok {
        Some(row)
    } else {
        None
    }
}

/// What the read of a block ends with, from the row that was read and what
/// decoding it gave: the answer, and the row to put in the cache of blocks.
/// The answer is what decoding gave, with or without a cache. A row that
/// failed to decode is not stored, nor is a row that the cache handed out.
pub fn after_block_read(
    use_cache: bool,
    from_cache: bool,
    row: RowData,
    block: Result<ConfirmedBlock, Error>,
) -> (end: (Result<ConfirmedBlock, Error>, Option<RowData>))
    ensures
        end.0 == block,
        end.1 == row_to_cache(use_cache, from_cache, row, block),
{
    let store = match &block {
        Ok(_) => use_cache && !from_cache,
        Err(_) => false,
    };
    if store {
        (block, Some(row))
    } else {
        (block, None)
    }
}

/// The record of `tx` that a row holds under a key.
pub fn transaction_info(row_data: &RowData, key: &str) -> (info: Result<
    TransactionInfo,
    crate::cell::Error,
>)
    ensures
        match crate::cell::named_payload(
            row_data@,
            crate::cell::bin_cell(),
            object_id("tx"@, key@),
        ) {
            Err(e) => info matches Err(f) && f@ == e,
            Ok(bytes) => match info_of_bytes(bytes) {
                Some(i) => info matches Ok(j) && j@ == i,
                None => info matches Err(f) && f@ == crate::cell::ErrorView::ObjectCorrupt(
                    object_id("tx"@, key@),
                ),
            },
        },
{
    match deserialize_bincode_cell_data(row_data.as_slice(), "tx", key) {
        Err(e) => Err(e),
        Ok(bytes) => match TransactionInfo::from_bytes(bytes.as_slice()) {
            Some(info) => Ok(info),
            None => Err(crate::cell::Error::ObjectCorrupt(object_name("tx", key))),
        },
    }
}

/// The record of `tx` for a signature, from what reading its row gave.
pub fn read_transaction_info(read: Result<RowData, crate::cell::Error>, signature: &Signature) -> (info:
    Result<TransactionInfo, crate::cell::Error>)
    ensures
        match read {
            Err(e) => info matches Err(f) && f == e,
            Ok(row) => match crate::cell::named_payload(
                row@,
                crate::cell::bin_cell(),
                object_id("tx"@, signature_text(signature@)),
            ) {
                Err(e) => info matches Err(f) && f@ == e,
                Ok(bytes) => match info_of_bytes(bytes) {
                    Some(i) => info matches Ok(j) && j@ == i,
                    None => info matches Err(f) && f@ == crate::cell::ErrorView::ObjectCorrupt(
                        object_id("tx"@, signature_text(signature@)),
                    ),
                },
            },
        },
{
    match read {
        Err(e) => Err(e),
        Ok(row) => {
            let key = signature_to_string(signature);
            transaction_info(&row, key.as_str())
        },
    }
}

/// The status of a signature, from what reading its record in `tx` gave:
/// a missing row means that the signature is not known.
pub fn get_signature_status(read: Result<TransactionInfo, crate::cell::Error>) -> (status: Result<
    TransactionStatus,
    Error,
>)
    ensures
        match read {
            Ok(info) => status matches Ok(s) && s@ == (TransactionStatusView {
                slot: info.slot,
                confirmations: None,
                err: crate::types::err_view(info.err),
                confirmation_status: Some(
                    crate::types::TransactionConfirmationStatus::Finalized,
                ),
            }),
            Err(e) => status matches Err(f) && f@ == read_error(e, ErrorView::SignatureNotFound),
        },
{
    match read {
        Ok(info) => Ok(TransactionStatus::from(info)),
        Err(crate::cell::Error::RowNotFound) => Err(Error::SignatureNotFound),
        Err(e) => Err(Error::StorageBackendError(e)),
    }
}

/// The bytes of the full transaction of a signature and their encoding,
/// from what reading its row in `tx_full` gave.
pub fn full_transaction_payload(read: Result<RowData, crate::cell::Error>, signature: &Signature) -> (payload:
    Result<CellData<Vec<u8>, Vec<u8>>, Error>)
    ensures
        match read {
            Err(e) => payload matches Err(f) && f@ == read_error(e, ErrorView::SignatureNotFound),
            Ok(row) => match record_payload(
                row@,
                object_id("tx_full"@, signature_text(signature@)),
            ) {
                Ok(p) => payload matches Ok(q) && crate::cell::payload_view(q) == p,
                Err(crate::cell::ErrorView::RowNotFound) => payload matches Err(f) && f@
                    == ErrorView::SignatureNotFound,
                Err(e) => payload matches Err(f) && f@ == ErrorView::StorageBackendError(e),
            },
        },
{
    let key = signature_to_string(signature);
    match crate::hbase::get_protobuf_or_bincode_cell(read, "tx_full", key.as_str()) {
        Ok(payload) => Ok(payload),
        Err(crate::cell::Error::RowNotFound) => Err(Error::SignatureNotFound),
        Err(e) => Err(Error::StorageBackendError(e)),
    }
}

/// The full transaction of a signature, from what decoding the bytes of
/// its cell gave: a cell that cannot be decoded is corrupt.
pub fn get_full_transaction(decoded: Option<ConfirmedTransactionWithStatusMeta>, signature: &Signature) -> (tx:
    Result<Option<ConfirmedTransactionWithStatusMeta>, Error>)
    ensures
        match decoded {
            Some(t) => tx == Ok::<Option<ConfirmedTransactionWithStatusMeta>, Error>(Some(t)),
            None => tx matches Err(f) && f@ == ErrorView::StorageBackendError(
                crate::cell::ErrorView::ObjectCorrupt(
                    object_id("tx_full"@, signature_text(signature@)),
                ),
            ),
        },
{
    match decoded {
        Some(tx) => Ok(Some(tx)),
        None => {
            let key = signature_to_string(signature);
            Err(
                Error::StorageBackendError(
                    crate::cell::Error::ObjectCorrupt(object_name("tx_full", key.as_str())),
                ),
            )
        },
    }
}

/// The first signature of a transaction of a block, where it has one.
pub open spec fn first_signature(tx: TransactionWithStatusMeta) -> Option<Signature> {
    match tx {
        TransactionWithStatusMeta::MissingMetadata(t) => if t.signatures@.len() > 0 {
            Some(t.signatures@[0])
        } else {
            None
        },
        TransactionWithStatusMeta::Complete(t) => if t.transaction.signatures@.len() > 0 {
            Some(t.transaction.signatures@[0])
        } else {
            None
        },
    }
}

/// Whether the first signature of a transaction is the given one.
fn is_signed_by(tx: &TransactionWithStatusMeta, signature: &Signature) -> (signed: bool)
    ensures
        signed == (first_signature(*tx) == Some(*signature)),
{
    let signatures = match tx {
        TransactionWithStatusMeta::MissingMetadata(t) => &t.signatures,
        TransactionWithStatusMeta::Complete(t) => &t.transaction.signatures,
    };
    if signatures.len() == 0 {
        false
    } else {
        same_signature(&signatures[0], signature)
    }
}

/// Where the search for a transaction starts: in the cache where there is
/// one, else in `tx_full`.
pub fn start_lookup(has_tx_cache: bool) -> (stage: LookupStage)
    ensures
        stage == start_stage(has_tx_cache),
{
    if has_tx_cache {
        LookupStage::Cache
    } else {
        LookupStage::FullTransaction
    }
}

/// What the cache leads to: the transaction where it holds it; else the
/// search goes on in `tx_full`, whatever went wrong with the cache.
pub fn after_cache(read: Result<Option<ConfirmedTransactionWithStatusMeta>, String>) -> (lookup:
    Lookup)
    ensures
        match read {
            Ok(Some(tx)) => lookup matches Lookup::Found(t) && t == tx,
            _ => lookup matches Lookup::Next(stage) && Some(stage) == after_cache_stage(read),
        },
{
    match read {
        Ok(Some(tx)) => Lookup::Found(tx),
        _ => Lookup::Next(LookupStage::FullTransaction),
    }
}

/// What `tx_full` leads to: the transaction where it holds it; else the
/// search goes on in `tx`, unless that is switched off.
pub fn after_full_transaction(
    read: Result<Option<ConfirmedTransactionWithStatusMeta>, Error>,
    disable_tx_fallback: bool,
) -> (lookup: Lookup)
    ensures
        match read {
            Ok(Some(tx)) => lookup matches Lookup::Found(t) && t == tx,
            _ => if disable_tx_fallback {
                lookup is Absent
            } else {
                lookup matches Lookup::Next(LookupStage::TransactionInfo)
            },
        },
{
    match read {
        Ok(Some(tx)) => Lookup::Found(tx),
        _ => {
            if disable_tx_fallback {
                Lookup::Absent
            } else {
                Lookup::Next(LookupStage::TransactionInfo)
            }
        },
    }
}

/// What `tx` leads to: the block and the place to look at; a missing row
/// means that the signature is not known.
pub fn after_transaction_info(read: Result<TransactionInfo, crate::cell::Error>) -> (lookup:
    Lookup)
    ensures
        match read {
            Ok(info) => lookup matches Lookup::Next(LookupStage::Block(slot, index)) && slot
                == info.slot && index == info.index,
            Err(e) => lookup matches Lookup::Failed(f) && f@ == read_error(
                e,
                ErrorView::SignatureNotFound,
            ),
        },
{
    match read {
        Ok(info) => Lookup::Next(LookupStage::Block(info.slot, info.index)),
        Err(crate::cell::Error::RowNotFound) => Lookup::Failed(Error::SignatureNotFound),
        Err(e) => Lookup::Failed(Error::StorageBackendError(e)),
    }
}

/// What the block leads to: its transaction at the place, if the block has
/// one there and it bears the signature; else nothing, since the record
/// of `tx` or the block is corrupt.
pub fn after_block(read: Result<ConfirmedBlock, Error>, slot: Slot, index: u32, signature: &Signature) -> (lookup:
    Lookup)
    ensures
        match read {
            Err(e) => lookup matches Lookup::Failed(f) && f == e,
            Ok(block) => if index < block.transactions@.len() && first_signature(
                block.transactions@[index as int],
            ) == Some(*signature) {
                lookup matches Lookup::Found(t) && t.slot == slot && t.tx_with_meta
                    == block.transactions@[index as int] && t.block_time == block.block_time
            } else {
                lookup is Absent
            },
        },
{
    match read {
        Err(e) => Lookup::Failed(e),
        Ok(block) => {
            let place = index as usize;
            let block_time = block.block_time;
            let mut transactions = block.transactions;
            if place >= transactions.len() {
                return Lookup::Absent;
            }
            if !is_signed_by(&transactions[place], signature) {
                return Lookup::Absent;
            }
            let tx_with_meta = transactions.swap_remove(place);
            Lookup::Found(ConfirmedTransactionWithStatusMeta { slot, tx_with_meta, block_time })
        },
    }
}

/// A miss of the cache changes nothing: whatever the cache did, unless it
/// held the transaction, the search goes on where a search without cache
/// starts.
pub proof fn lemma_cache_miss_is_transparent(
    read: Result<Option<ConfirmedTransactionWithStatusMeta>, String>,
)
    requires
        !(read matches Ok(Some(_))),
    ensures
        after_cache_stage(read) == Some(start_stage(false)),
{
}

/// Where the search goes after the cache, if it goes on.
pub open spec fn after_cache_stage(
    read: Result<Option<ConfirmedTransactionWithStatusMeta>, String>,
) -> Option<LookupStage> {
    match read {
        Ok(Some(_)) => None,
        _ => Some(LookupStage::FullTransaction),
    }
}

/// Where the search starts.
pub open spec fn start_stage(has_tx_cache: bool) -> LookupStage {
    if has_tx_cache {
        LookupStage::Cache
    } else {
        LookupStage::FullTransaction
    }
}

} // verus!
