//! The upload to the cloud store: every transaction goes to `tx`, and to
//! `tx-by-addr` under each of its addresses that the protocol does not
//! reserve; the block goes to `blocks` under its plain key.

use vstd::prelude::*;

use crate::block::VersionedConfirmedBlock;
use crate::cell::RowKey;
use crate::key::{slot_key, slot_to_blocks_key, Slot};
use crate::records::{
    group_rows, info_at, keyed_lists, keyed_views, rows_of_groups, signature_key, tx_rows,
    uploadable,
};
use crate::text::signature_to_string;
use crate::transaction::VersionedTransactionWithStatusMeta;
use crate::tx_by_addr::{
    add_touch, all_account_keys, all_keys_of, entry_at, extract_and_fmt_memos, groups_of, lemma_with_touches_append, with_touches, Group, Touch,
};
use crate::types::{
    copy_err, copy_text, Pubkey, TransactionByAddrInfo, TransactionByAddrInfoView,
    TransactionInfo, TransactionInfoView,
};
use crate::upload::{LedgerStorageAdapter, UploadTask};

verus! {

/// Whether the protocol reserves an address, with every reservation taken
/// as active, as `agave_reserved_account_keys` tells.
pub uninterp spec fn reserved_key(key: Seq<u8>) -> bool;

/// Asks `agave_reserved_account_keys::ReservedAccountKeys`, with all its
/// keys active, whether the protocol reserves an address.
#[verifier::external_body]
fn is_reserved(key: &Pubkey) -> (reserved: bool)
    ensures
        reserved == reserved_key(key@),
{
    agave_reserved_account_keys::ReservedAccountKeys::new_all_activated().is_reserved(
        &solana_pubkey::Pubkey::new_from_array(*key),
    )
}

/// What an upload to the cloud store writes besides the block, and the key
/// under which the block goes.
#[derive(Clone, Debug)]
pub struct PlainRecords {
    pub tx_cells: Vec<(RowKey, TransactionInfo)>,
    pub tx_by_addr_cells: Vec<(RowKey, Vec<TransactionByAddrInfo>)>,
    pub blocks_key: RowKey,
}

/// The part of a writer to the cloud store that decides what an upload
/// writes.
#[derive(Clone, Copy, Debug, PartialEq, Eq, Structural)]
pub struct LedgerStorage {}

/// The touches of a transaction among its first `n` keys: one for each key
/// that is not reserved.
pub open spec fn plain_touches_among(
    tx: VersionedTransactionWithStatusMeta,
    entry: TransactionByAddrInfoView,
    n: nat,
) -> Seq<Touch>
    decreases n,
{
    if n == 0 {
        Seq::empty()
    } else {
        let before = plain_touches_among(tx, entry, (n - 1) as nat);
        let address = all_keys_of(tx)[n - 1];
        if reserved_key(address@) {
            before
        } else {
            before.push((address, entry))
        }
    }
}

/// The touches of the first `n` transactions of a block, in order.
pub open spec fn plain_block_touches(block: VersionedConfirmedBlock, n: nat) -> Seq<Touch>
    decreases n,
{
    if n == 0 {
        Seq::empty()
    } else {
        plain_block_touches(block, (n - 1) as nat) + plain_touches_among(
            block.transactions@[n - 1],
            entry_at(block, n - 1),
            all_keys_of(block.transactions@[n - 1]).len(),
        )
    }
}

/// The rows of `tx-by-addr` that a block gives, as groups.
pub open spec fn plain_block_groups(block: VersionedConfirmedBlock) -> Seq<Group> {
    with_touches(Seq::empty(), plain_block_touches(block, block.transactions@.len()))
}

/// The writes that go side by side: each table that has records.
pub open spec fn plain_tasks_for(records: PlainRecords) -> Seq<UploadTask> {
    (if records.tx_cells@.len() > 0 {
        seq![UploadTask::Tx]
    } else {
        Seq::empty()
    }) + (if records.tx_by_addr_cells@.len() > 0 {
        seq![UploadTask::TxByAddr]
    } else {
        Seq::empty()
    })
}

/// Lists one transaction under each of its addresses that is not reserved.
fn index_plain_transaction(
    tx: &VersionedTransactionWithStatusMeta,
    entry: &TransactionByAddrInfo,
    addresses: &mut Vec<Pubkey>,
    lists: &mut Vec<Vec<TransactionByAddrInfo>>,
)
    requires
        old(addresses)@.len() == old(lists)@.len(),
    ensures
        final(addresses)@.len() == final(lists)@.len(),
        groups_of(final(addresses)@, final(lists)@) == with_touches(
            groups_of(old(addresses)@, old(lists)@),
            plain_touches_among(*tx, entry@, all_keys_of(*tx).len()),
        ),
{
    let ghost start = groups_of(addresses@, lists@);
    let keys = all_account_keys(tx);
    let mut i: usize = 0;
    while i < keys.len()
        invariant
            i <= keys.len(),
            keys@ == all_keys_of(*tx),
            addresses@.len() == lists@.len(),
            groups_of(addresses@, lists@) == with_touches(
                start,
                plain_touches_among(*tx, entry@, i as nat),
            ),
        decreases keys.len() - i,
    {
        let address = &keys[i];
        let ghost before_touches = plain_touches_among(*tx, entry@, i as nat);
        if !is_reserved(address) {
            let touch = TransactionByAddrInfo {
                signature: entry.signature,
                err: copy_err(&entry.err),
                index: entry.index,
                memo: copy_text(&entry.memo),
                block_time: entry.block_time,
            };
            assert(touch@ == entry@);
            add_touch(addresses, lists, address, touch);
            proof {
                let after_touches = plain_touches_among(*tx, entry@, (i + 1) as nat);
                assert(after_touches.drop_last() =~= before_touches);
            }
        }
        i = i + 1;
    }
}

impl LedgerStorageAdapter for LedgerStorage {
    type Records = PlainRecords;

    /// Every address goes to `tx_full`.
    fn should_include_in_tx_full(&self, _address: &Pubkey) -> (pass: bool)
        ensures
            pass,
    {
        true
    }

    /// Every address goes to `tx-by-addr`, as far as this filter goes.
    fn should_include_in_tx_by_addr(&self, _address: &Pubkey) -> (pass: bool)
        ensures
            pass,
    {
        true
    }

    /// The records that the upload of a block writes besides the block,
    /// and the writes that go side by side for them: a row of `tx` for each
    /// transaction, and a row of `tx-by-addr` for each address that is not
    /// reserved.
    fn upload_confirmed_block(&self, slot: Slot, confirmed_block: &VersionedConfirmedBlock) -> (plan:
        (PlainRecords, Vec<UploadTask>))
        ensures
            keyed_views(plan.0.tx_cells@) == tx_rows(
                slot,
                *confirmed_block,
                confirmed_block.transactions@.len(),
            ),
            keyed_lists(plan.0.tx_by_addr_cells@) == group_rows(
                plain_block_groups(*confirmed_block),
                slot,
            ),
            plan.0.blocks_key@ == slot_key(slot),
            plan.1@ == plain_tasks_for(plan.0),
    {
        let mut addresses: Vec<Pubkey> = Vec::new();
        let mut lists: Vec<Vec<TransactionByAddrInfo>> = Vec::new();
        let mut tx_cells: Vec<(RowKey, TransactionInfo)> = Vec::new();
        let n = confirmed_block.transactions.len();
        let mut i: usize = 0;
        proof {
            assert(groups_of(addresses@, lists@) =~= Seq::<Group>::empty());
            assert(keyed_views(tx_cells@) =~= Seq::<(Seq<char>, TransactionInfoView)>::empty());
        }
        while i < n
            invariant
                i <= n,
                n == confirmed_block.transactions@.len(),
                uploadable(*confirmed_block),
                addresses@.len() == lists@.len(),
                groups_of(addresses@, lists@) == with_touches(
                    Seq::empty(),
                    plain_block_touches(*confirmed_block, i as nat),
                ),
                keyed_views(tx_cells@) == tx_rows(slot, *confirmed_block, i as nat),
            decreases n - i,
        {
            let tx = &confirmed_block.transactions[i];
            let signature = tx.transaction.signatures[0];
            let entry = TransactionByAddrInfo {
                signature,
                err: copy_err(&tx.meta.err),
                index: i as u32,
                memo: extract_and_fmt_memos(tx),
                block_time: confirmed_block.block_time,
            };
            assert(entry@ == entry_at(*confirmed_block, i as int));
            proof {
                lemma_with_touches_append(
                    Seq::empty(),
                    plain_block_touches(*confirmed_block, i as nat),
                    plain_touches_among(*tx, entry@, all_keys_of(*tx).len()),
                );
            }
            index_plain_transaction(tx, &entry, &mut addresses, &mut lists);
            let ghost before = keyed_views(tx_cells@);
            let info = TransactionInfo { slot, index: i as u32, err: entry.err };
            tx_cells.push((signature_to_string(&signature), info));
            assert(keyed_views(tx_cells@) =~= before.push(
                (signature_key(*tx), info_at(slot, *confirmed_block, i as int)),
            ));
            i = i + 1;
        }
        let tx_by_addr_cells = rows_of_groups(addresses, lists, slot);
        let records = PlainRecords {
            tx_cells,
            tx_by_addr_cells,
            blocks_key: slot_to_blocks_key(slot, false),
        };
        let mut tasks: Vec<UploadTask> = Vec::new();
        if records.tx_cells.len() > 0 {
            tasks.push(UploadTask::Tx);
        }
        if records.tx_by_addr_cells.len() > 0 {
            tasks.push(UploadTask::TxByAddr);
        }
        assert(tasks@ =~= plain_tasks_for(records));
        (records, tasks)
    }
}

} // verus!
