//! The order of the writes of an upload.
//!
//! The records of the tables `tx_full`, `tx` and `tx-by-addr` and of the
//! cache are written side by side. The block itself is written last, and
//! only if every one of those writes succeeded, so that nobody reads a
//! block whose indexes are missing.

use vstd::prelude::*;

use vstd::string::*;

use crate::block::VersionedConfirmedBlock;
use crate::config::{
    cache_expiration_seconds, filter_passes, passes, LedgerCacheConfig, UploaderConfig,
};
use crate::records::{derive_records, uploadable, UploadRecords};
use crate::types::Pubkey;

verus! {

/// What an adapter can fail with.
#[derive(Clone, Debug, PartialEq, Eq)]
pub enum Error {
    StorageBackendError(crate::cell::Error),
    IoError(String),
    UnsupportedTransactionEncoding,
    BlockNotFound(u64),
    SignatureNotFound,
    TokioJoinError(String),
    CacheError(String),
    EncodingError(String),
}

pub enum ErrorView {
    StorageBackendError(crate::cell::ErrorView),
    IoError(Seq<char>),
    UnsupportedTransactionEncoding,
    BlockNotFound(u64),
    SignatureNotFound,
    TokioJoinError(Seq<char>),
    CacheError(Seq<char>),
    EncodingError(Seq<char>),
}

impl View for Error {
    type V = ErrorView;

    open spec fn view(&self) -> ErrorView {
        match self {
            Error::StorageBackendError(e) => ErrorView::StorageBackendError(e@),
            Error::IoError(m) => ErrorView::IoError(m@),
            Error::UnsupportedTransactionEncoding => ErrorView::UnsupportedTransactionEncoding,
            Error::BlockNotFound(slot) => ErrorView::BlockNotFound(*slot),
            Error::SignatureNotFound => ErrorView::SignatureNotFound,
            Error::TokioJoinError(m) => ErrorView::TokioJoinError(m@),
            Error::CacheError(m) => ErrorView::CacheError(m@),
            Error::EncodingError(m) => ErrorView::EncodingError(m@),
        }
    }
}

/// How a writer is set up.
#[derive(Clone, Debug)]
pub struct LedgerStorageConfig {
    pub read_only: bool,
    /// In seconds.
    pub timeout: Option<u64>,
    pub address: String,
    pub uploader_config: UploaderConfig,
    pub cache_config: LedgerCacheConfig,
}

impl Default for LedgerStorageConfig {
    /// A writer to the store on this machine, with the defaults of the
    /// uploader and of the cache.
    fn default() -> (config: LedgerStorageConfig)
        ensures
            !config.read_only,
            config.timeout is None,
            config.address@ == crate::config::DEFAULT_ADDRESS@,
            crate::config::default_uploader(config.uploader_config),
            crate::config::default_cache(config.cache_config),
    {
        LedgerStorageConfig {
            read_only: false,
            timeout: None,
            address: String::from_str(crate::config::DEFAULT_ADDRESS),
            uploader_config: UploaderConfig::default(),
            cache_config: LedgerCacheConfig::default(),
        }
    }
}

/// The part of a writer that decides what an upload writes.
#[derive(Clone, Debug)]
pub struct LedgerStorage {
    pub uploader_config: UploaderConfig,
    pub enable_full_tx_cache: bool,
    /// In seconds.
    pub tx_cache_expiration: Option<u64>,
}

/// What the writers to the two stores have in common: each decides what
/// the upload of a block writes, and which addresses its indexes take.
pub trait LedgerStorageAdapter {
    /// What an upload writes besides the block.
    type Records;

    /// The records that the upload of a block writes besides the block,
    /// and the writes that go side by side for them.
    fn upload_confirmed_block(&self, slot: u64, confirmed_block: &VersionedConfirmedBlock) -> (plan:
        (Self::Records, Vec<UploadTask>))
        requires
            uploadable(*confirmed_block),
    ;

    /// Whether the index of full transactions takes the address.
    fn should_include_in_tx_full(&self, address: &Pubkey) -> (pass: bool);

    /// Whether the index by address takes the address.
    fn should_include_in_tx_by_addr(&self, address: &Pubkey) -> (pass: bool);
}

impl LedgerStorage {
    /// The writer that a configuration asks for.
    pub fn new_with_config(config: LedgerStorageConfig) -> (storage: LedgerStorage)
        ensures
            storage.uploader_config == config.uploader_config,
            storage.enable_full_tx_cache == config.cache_config.enable_full_tx_cache,
            storage.tx_cache_expiration == config.cache_config.tx_cache_expiration,
    {
        LedgerStorage {
            uploader_config: config.uploader_config,
            enable_full_tx_cache: config.cache_config.enable_full_tx_cache,
            tx_cache_expiration: config.cache_config.tx_cache_expiration,
        }
    }

    /// What the cache is handed for a full transaction: its encoded form
    /// in the best frame, and for how many seconds to keep it.
    pub fn cache_transaction(&self, encoded: &[u8]) -> (entry: Result<(Vec<u8>, u32), CacheWriteError>)
        ensures
            match entry {
                Ok((cell, seconds)) => crate::compression::compressed_best(encoded@) == Ok::<
                    Seq<u8>,
                    crate::compression::CompressionError,
                >(cell@) && seconds == (match self.tx_cache_expiration {
                    Some(s) => if s > u32::MAX {
                        u32::MAX
                    } else {
                        s as u32
                    },
                    None => 0u32,
                }),
                Err(e) => crate::compression::compressed_best(encoded@) is Err && (e matches CacheWriteError::IoError(
                    message,
                ) && message@ == "the transaction could not be compressed"@),
            },
    {
        match crate::compression::compress_best(encoded) {
            Ok(cell) => Ok((cell, cache_expiration_seconds(self.tx_cache_expiration))),
            Err(_) => Err(
                CacheWriteError::IoError(String::from_str("the transaction could not be compressed")),
            ),
        }
    }
}

impl LedgerStorageAdapter for LedgerStorage {
    type Records = UploadRecords;

    /// Whether the filter of `tx_full` lets the address pass.
    fn should_include_in_tx_full(&self, address: &Pubkey) -> (pass: bool)
        ensures
            pass == passes(self.uploader_config.tx_full_filter, *address),
    {
        filter_passes(&self.uploader_config.tx_full_filter, address)
    }

    /// Whether the filter of `tx-by-addr` lets the address pass.
    fn should_include_in_tx_by_addr(&self, address: &Pubkey) -> (pass: bool)
        ensures
            pass == passes(self.uploader_config.tx_by_addr_filter, *address),
    {
        filter_passes(&self.uploader_config.tx_by_addr_filter, address)
    }

    /// The records that the upload of a block writes besides the block,
    /// and the writes that go side by side for them.
    fn upload_confirmed_block(&self, slot: u64, confirmed_block: &VersionedConfirmedBlock) -> (plan:
        (UploadRecords, Vec<UploadTask>))
        ensures
            plan.1@ == tasks_for(plan.0, self.uploader_config, self.enable_full_tx_cache),
            crate::records::keyed_views(plan.0.tx_cells@) == crate::records::block_tx_rows(
                self.uploader_config,
                slot,
                *confirmed_block,
            ),
            crate::records::keyed_places(plan.0.full_tx_cells@) == crate::records::block_full_rows(
                self.uploader_config,
                *confirmed_block,
            ),
            crate::records::keyed_places(plan.0.full_tx_cache@) == crate::records::block_cache_rows(
                self.enable_full_tx_cache,
                *confirmed_block,
            ),
            crate::records::keyed_lists(plan.0.tx_by_addr_cells@) == crate::records::group_rows(
                crate::tx_by_addr::block_groups(self.uploader_config, *confirmed_block),
                slot,
            ),
            plan.0.blocks_key@ == crate::key::blocks_key(
                slot,
                self.uploader_config.use_md5_row_key_salt,
            ),
    {
        let records = derive_records(
            slot,
            confirmed_block,
            &self.uploader_config,
            self.enable_full_tx_cache,
        );
        let tasks = secondary_tasks(&records, &self.uploader_config, self.enable_full_tx_cache);
        (records, tasks)
    }
}

/// One of the writes that go side by side.
#[derive(Clone, Copy, Debug, PartialEq, Eq, Structural)]
pub enum UploadTask {
    TxFull,
    TxFullCache,
    Tx,
    TxByAddr,
}

/// What a write that succeeded reports.
#[derive(Clone, Copy, Debug, PartialEq, Eq, Structural)]
pub enum TaskResult {
    BytesWritten(usize),
    CachedTransactions(usize),
}

/// What a write can fail with. `Join` is the failure of a task that
/// panicked or was cancelled.
#[derive(Clone, Debug, PartialEq, Eq)]
pub enum TaskError {
    HBaseError(crate::cell::Error),
    MemcacheError(String),
    IoError(String),
    EncodingError(String),
    Join(String),
}

/// What a write that failed to store a cached transaction reports.
#[derive(Clone, Debug, PartialEq, Eq)]
pub enum CacheWriteError {
    MemcacheError(String),
    IoError(String),
    EncodingError(String),
}

/// What is to be done next in an upload.
#[derive(Debug)]
pub enum UploadStep {
    /// Some of the writes that go side by side have not ended.
    Wait,
    /// All of them succeeded: write the block.
    WriteBlocks,
    /// The upload has ended, with the bytes written and the transactions
    /// cached, or with its error.
    Done(Result<Tally, Error>),
}

/// What an upload has written.
#[derive(Clone, Copy, Debug, PartialEq, Eq, Structural)]
pub struct Tally {
    pub bytes_written: usize,
    pub cached_transactions: usize,
}

/// The error of an adapter that the failure of a write stands for.
pub open spec fn task_error_view(err: TaskError) -> ErrorView {
    match err {
        TaskError::HBaseError(e) => ErrorView::StorageBackendError(e@),
        TaskError::MemcacheError(m) => ErrorView::CacheError(m@),
        TaskError::IoError(m) => ErrorView::IoError(m@),
        TaskError::EncodingError(m) => ErrorView::EncodingError(m@),
        TaskError::Join(m) => ErrorView::TokioJoinError(m@),
    }
}

impl From<TaskError> for Error {
    /// The error of an adapter that the failure of a write stands for.
    fn from(err: TaskError) -> (error: Error) {
        match err {
            TaskError::HBaseError(e) => Error::StorageBackendError(e),
            TaskError::MemcacheError(m) => Error::CacheError(m),
            TaskError::IoError(m) => Error::IoError(m),
            TaskError::EncodingError(m) => Error::EncodingError(m),
            TaskError::Join(m) => Error::TokioJoinError(m),
        }
    }
}

impl vstd::std_specs::convert::FromSpecImpl<TaskError> for Error {
    open spec fn obeys_from_spec() -> bool {
        true
    }

    open spec fn from_spec(err: TaskError) -> Error {
        match err {
            TaskError::HBaseError(e) => Error::StorageBackendError(e),
            TaskError::MemcacheError(m) => Error::CacheError(m),
            TaskError::IoError(m) => Error::IoError(m),
            TaskError::EncodingError(m) => Error::EncodingError(m),
            TaskError::Join(m) => Error::TokioJoinError(m),
        }
    }
}

impl From<CacheWriteError> for TaskError {
    /// The failure of a write that a failure to cache stands for.
    fn from(err: CacheWriteError) -> (error: TaskError) {
        match err {
            CacheWriteError::MemcacheError(m) => TaskError::MemcacheError(m),
            CacheWriteError::IoError(m) => TaskError::IoError(m),
            CacheWriteError::EncodingError(m) => TaskError::EncodingError(m),
        }
    }
}

impl vstd::std_specs::convert::FromSpecImpl<CacheWriteError> for TaskError {
    open spec fn obeys_from_spec() -> bool {
        true
    }

    open spec fn from_spec(err: CacheWriteError) -> TaskError {
        match err {
            CacheWriteError::MemcacheError(m) => TaskError::MemcacheError(m),
            CacheWriteError::IoError(m) => TaskError::IoError(m),
            CacheWriteError::EncodingError(m) => TaskError::EncodingError(m),
        }
    }
}

/// The writes that go side by side for an upload, in the order in which
/// their errors count: each table that is switched on and has records.
pub open spec fn tasks_for(records: UploadRecords, config: UploaderConfig, enable_full_tx_cache: bool) -> Seq<
    UploadTask,
> {
    (if records.full_tx_cells@.len() > 0 && config.enable_full_tx {
        seq![UploadTask::TxFull]
    } else {
        Seq::empty()
    }) + (if records.full_tx_cache@.len() > 0 && enable_full_tx_cache {
        seq![UploadTask::TxFullCache]
    } else {
        Seq::empty()
    }) + (if records.tx_cells@.len() > 0 && !config.disable_tx {
        seq![UploadTask::Tx]
    } else {
        Seq::empty()
    }) + (if records.tx_by_addr_cells@.len() > 0 && !config.disable_tx_by_addr {
        seq![UploadTask::TxByAddr]
    } else {
        Seq::empty()
    })
}

/// The writes that go side by side for an upload.
pub fn secondary_tasks(records: &UploadRecords, config: &UploaderConfig, enable_full_tx_cache: bool) -> (tasks:
    Vec<UploadTask>)
    ensures
        tasks@ == tasks_for(*records, *config, enable_full_tx_cache),
{
    let mut tasks: Vec<UploadTask> = Vec::new();
    if records.full_tx_cells.len() > 0 && config.enable_full_tx {
        tasks.push(UploadTask::TxFull);
    }
    if records.full_tx_cache.len() > 0 && enable_full_tx_cache {
        tasks.push(UploadTask::TxFullCache);
    }
    if records.tx_cells.len() > 0 && !config.disable_tx {
        tasks.push(UploadTask::Tx);
    }
    if records.tx_by_addr_cells.len() > 0 && !config.disable_tx_by_addr {
        tasks.push(UploadTask::TxByAddr);
    }
    assert(tasks@ =~= tasks_for(*records, *config, enable_full_tx_cache));
    tasks
}

/// A table that is switched off gets no write: with `tx` switched off no
/// write goes to `tx`, with `tx-by-addr` switched off none goes to
/// `tx-by-addr`, and without full transactions none goes to `tx_full`.
pub proof fn lemma_switched_off_tables_get_no_write(
    records: UploadRecords,
    config: UploaderConfig,
    enable_full_tx_cache: bool,
)
    ensures
        config.disable_tx ==> !tasks_for(records, config, enable_full_tx_cache).contains(
            UploadTask::Tx,
        ),
        config.disable_tx_by_addr ==> !tasks_for(records, config, enable_full_tx_cache).contains(
            UploadTask::TxByAddr,
        ),
        !config.enable_full_tx ==> !tasks_for(records, config, enable_full_tx_cache).contains(
            UploadTask::TxFull,
        ),
        !enable_full_tx_cache ==> !tasks_for(records, config, enable_full_tx_cache).contains(
            UploadTask::TxFullCache,
        ),
{
}

/// Whether every write has ended.
pub open spec fn all_ended(outcomes: Seq<Option<Result<TaskResult, TaskError>>>) -> bool {
    forall|i: int| 0 <= i < outcomes.len() ==> (#[trigger] outcomes[i]) is Some
}

/// Whether every write has ended well.
pub open spec fn all_succeeded(outcomes: Seq<Option<Result<TaskResult, TaskError>>>) -> bool {
    forall|i: int| 0 <= i < outcomes.len() ==> (#[trigger] outcomes[i]) matches Some(Ok(_))
}

/// The first failure among the writes, in their order.
pub open spec fn first_failure(outcomes: Seq<Option<Result<TaskResult, TaskError>>>) -> Option<
    TaskError,
>
    decreases outcomes.len(),
{
    if outcomes.len() == 0 {
        None
    } else {
        match first_failure(outcomes.drop_last()) {
            Some(e) => Some(e),
            None => match outcomes.last() {
                Some(Err(e)) => Some(e),
                _ => None,
            },
        }
    }
}

/// The bytes that the writes report, as far as the machine can count.
pub open spec fn bytes_of(outcomes: Seq<Option<Result<TaskResult, TaskError>>>) -> usize
    decreases outcomes.len(),
{
    if outcomes.len() == 0 {
        0
    } else {
        let before = bytes_of(outcomes.drop_last());
        match outcomes.last() {
            Some(Ok(TaskResult::BytesWritten(bytes))) => before.saturating_add(bytes),
            _ => before,
        }
    }
}

/// The cached transactions that the writes report.
pub open spec fn cached_of(outcomes: Seq<Option<Result<TaskResult, TaskError>>>) -> usize
    decreases outcomes.len(),
{
    if outcomes.len() == 0 {
        0
    } else {
        let before = cached_of(outcomes.drop_last());
        match outcomes.last() {
            Some(Ok(TaskResult::CachedTransactions(count))) => before.saturating_add(count),
            _ => before,
        }
    }
}

/// What is to be done next, as a kind: the block is written exactly when
/// every write has ended well, the table of blocks is switched on and the
/// block has not been written yet.
pub open spec fn writes_block_next(
    outcomes: Seq<Option<Result<TaskResult, TaskError>>>,
    disable_blocks: bool,
    block_outcome: Option<Result<usize, crate::cell::Error>>,
) -> bool {
    all_succeeded(outcomes) && !disable_blocks && block_outcome is None
}

/// The block is written only behind the records: whenever the next step is
/// to write the block, each of the writes that go side by side has ended
/// well.
pub proof fn lemma_upload_barrier(
    outcomes: Seq<Option<Result<TaskResult, TaskError>>>,
    disable_blocks: bool,
    block_outcome: Option<Result<usize, crate::cell::Error>>,
    task: int,
)
    requires
        writes_block_next(outcomes, disable_blocks, block_outcome),
        0 <= task < outcomes.len(),
    ensures
        outcomes[task] matches Some(Ok(_)),
{
}

/// Where there is a failure, not every write has ended well, and the other
/// way round once all have ended.
pub proof fn lemma_first_failure(outcomes: Seq<Option<Result<TaskResult, TaskError>>>)
    requires
        all_ended(outcomes),
    ensures
        first_failure(outcomes) is None <==> all_succeeded(outcomes),
    decreases outcomes.len(),
{
    if outcomes.len() > 0 {
        let before = outcomes.drop_last();
        assert forall|i: int| 0 <= i < before.len() implies (#[trigger] before[i]) is Some by {
            assert(before[i] == outcomes[i]);
        }
        lemma_first_failure(before);
        if all_succeeded(outcomes) {
            assert forall|i: int| 0 <= i < before.len() implies (#[trigger] before[i]) matches Some(
                Ok(_),
            ) by {
                assert(before[i] == outcomes[i]);
            }
            assert(outcomes.last() == outcomes[outcomes.len() - 1]);
        }
        if first_failure(outcomes) is None {
            assert forall|i: int| 0 <= i < outcomes.len() implies (#[trigger] outcomes[i]) matches Some(Ok(_)) by {
                if i < before.len() {
                    assert(before[i] == outcomes[i]);
                } else {
                    assert(outcomes[i] == outcomes.last());
                }
            }
        }
    }
}

/// What is to be done next in an upload, from what the writes have
/// reported so far. While one of the writes that go side by side has not
/// ended, the upload waits. Once all have ended, the first failure in the
/// order of the writes ends the upload, and the block is not written.
/// Else the block is written, unless its table is switched off, and the
/// outcome of that write ends the upload.
pub fn next_step(
    outcomes: Vec<Option<Result<TaskResult, TaskError>>>,
    disable_blocks: bool,
    block_outcome: Option<Result<usize, crate::cell::Error>>,
) -> (step: UploadStep)
    ensures
        step is WriteBlocks <==> writes_block_next(outcomes@, disable_blocks, block_outcome),
        step is Wait <==> !all_ended(outcomes@),
        step matches UploadStep::Done(Err(e)) ==> all_ended(outcomes@) && match first_failure(
            outcomes@,
        ) {
            Some(failure) => e@ == task_error_view(failure),
            None => !disable_blocks && (block_outcome matches Some(Err(b)) && e@
                == ErrorView::StorageBackendError(b@)),
        },
        step matches UploadStep::Done(Ok(tally)) ==> all_succeeded(outcomes@) && (disable_blocks
            || (block_outcome matches Some(Ok(_)))) && tally.cached_transactions == cached_of(
            outcomes@,
        ) && tally.bytes_written == (match block_outcome {
            Some(Ok(bytes)) => if disable_blocks {
                bytes_of(outcomes@)
            } else {
                bytes_of(outcomes@).saturating_add(bytes)
            },
            _ => bytes_of(outcomes@),
        }),
{
    let ghost all = outcomes@;
    let mut rest = crate::seqs::reversed(outcomes);
    let mut bytes_written: usize = 0;
    let mut cached_transactions: usize = 0;
    let mut first_error: Option<TaskError> = None;
    let mut pending = false;
    let mut taken: usize = 0;
    let total = rest.len();
    proof {
        assert(all.subrange(0, 0) =~= Seq::<Option<Result<TaskResult, TaskError>>>::empty());
    }
    while rest.len() > 0
        invariant
            all.len() == total,
            taken + rest@.len() == all.len(),
            rest@ == all.reverse().subrange(0, rest@.len() as int),
            pending == !all_ended(all.subrange(0, taken as int)),
            first_error == first_failure(all.subrange(0, taken as int)),
            bytes_written == bytes_of(all.subrange(0, taken as int)),
            cached_transactions == cached_of(all.subrange(0, taken as int)),
        decreases rest.len(),
    {
        let outcome = rest.pop().unwrap();
        proof {
            assert(all.reverse()[all.len() - 1 - taken] == all[taken as int]);
            assert(outcome == all[taken as int]);
            let shorter = all.subrange(0, taken as int);
            let longer = all.subrange(0, taken + 1);
            assert(longer.drop_last() =~= shorter);
            assert(longer.last() == outcome);
            if all_ended(longer) {
                assert forall|i: int| 0 <= i < shorter.len() implies (#[trigger] shorter[i]) is Some by {
                    assert(shorter[i] == longer[i]);
                }
                assert(longer[taken as int] is Some);
            }
            if all_ended(shorter) && outcome is Some {
                assert forall|i: int| 0 <= i < longer.len() implies (#[trigger] longer[i]) is Some by {
                    if i < shorter.len() {
                        assert(shorter[i] == longer[i]);
                    }
                }
            }
        }
        match outcome {
            None => {
                pending = true;
            },
            Some(Err(e)) => {
                if first_error.is_none() {
                    first_error = Some(e);
                }
            },
            Some(Ok(TaskResult::BytesWritten(bytes))) => {
                bytes_written = bytes_written.saturating_add(bytes);
            },
            Some(Ok(TaskResult::CachedTransactions(count))) => {
                cached_transactions = cached_transactions.saturating_add(count);
            },
        }
        taken = taken + 1;
        assert(rest@ =~= all.reverse().subrange(0, rest@.len() as int));
    }
    assert(all.subrange(0, all.len() as int) =~= all);
    if pending {
        assert(!all_succeeded(all)) by {
            if all_succeeded(all) {
                assert forall|i: int| 0 <= i < all.len() implies (#[trigger] all[i]) is Some by {
                    assert(all[i] matches Some(Ok(_)));
                }
            }
        }
        return UploadStep::Wait;
    }
    proof {
        lemma_first_failure(all);
    }
    if let Some(e) = first_error {
        return UploadStep::Done(Err(Error::from(e)));
    }
    if disable_blocks {
        return UploadStep::Done(Ok(Tally { bytes_written, cached_transactions }));
    }
    match block_outcome {
        None => UploadStep::WriteBlocks,
        Some(Ok(bytes)) => UploadStep::Done(
            Ok(Tally { bytes_written: bytes_written.saturating_add(bytes), cached_transactions }),
        ),
        Some(Err(e)) => UploadStep::Done(Err(Error::StorageBackendError(e))),
    }
}

/// A table after cells were put into it one after the other.
pub open spec fn put_all<K, V>(table: Map<K, V>, puts: Seq<(K, V)>) -> Map<K, V>
    decreases puts.len(),
{
    if puts.len() == 0 {
        table
    } else {
        put_all(table, puts.drop_last()).insert(puts.last().0, puts.last().1)
    }
}

/// The value that puts leave under a key: that of the last put under it.
pub open spec fn last_put<K, V>(puts: Seq<(K, V)>, key: K) -> Option<V>
    decreases puts.len(),
{
    if puts.len() == 0 {
        None
    } else if puts.last().0 == key {
        Some(puts.last().1)
    } else {
        last_put(puts.drop_last(), key)
    }
}

/// What puts leave under a key: the value of the last put under it, or
/// what was there where nothing is put under it.
pub proof fn lemma_put_all_at<K, V>(table: Map<K, V>, puts: Seq<(K, V)>, key: K)
    ensures
        put_all(table, puts).dom().contains(key) <==> (last_put(puts, key) is Some
            || table.dom().contains(key)),
        put_all(table, puts).dom().contains(key) ==> put_all(table, puts)[key] == match last_put(
            puts,
            key,
        ) {
            Some(v) => v,
            None => table[key],
        },
    decreases puts.len(),
{
    if puts.len() > 0 {
        lemma_put_all_at(table, puts.drop_last(), key);
    }
}

/// An upload that is made twice leaves what it leaves when made once: to
/// put the same cells again changes nothing.
pub proof fn lemma_upload_idempotent<K, V>(table: Map<K, V>, puts: Seq<(K, V)>)
    ensures
        put_all(put_all(table, puts), puts) == put_all(table, puts),
{
    let once = put_all(table, puts);
    let twice = put_all(once, puts);
    assert forall|key: K| twice.dom().contains(key) == once.dom().contains(key) by {
        lemma_put_all_at(once, puts, key);
        lemma_put_all_at(table, puts, key);
    }
    assert forall|key: K| twice.dom().contains(key) implies #[trigger] twice[key] == once[key] by {
        lemma_put_all_at(once, puts, key);
        lemma_put_all_at(table, puts, key);
    }
    assert(twice =~= once);
}

} // verus!
