//! The records that the upload of a block writes besides the block itself.

use vstd::prelude::*;

use crate::block::VersionedConfirmedBlock;
use crate::cell::RowKey;
use crate::config::UploaderConfig;
use crate::seqs::{reversed, views};
use crate::key::{blocks_key, slot_to_blocks_key, Slot};
use crate::text::{signature_text, signature_to_string};
use crate::transaction::VersionedTransactionWithStatusMeta;
use crate::tx_by_addr::{
    block_groups, block_touches, entry_at, extract_and_fmt_memos, groups_of, index_transaction,
    lemma_with_touches_append, skips_full, touches_of, tx_by_addr_key, tx_by_addr_row_key,
    with_touches, Group,
};
use crate::tx_utils::{failed, is_error_tx, is_voting_tx, votes};
use crate::types::{
    copy_err, err_view, Pubkey, TransactionByAddrInfo, TransactionByAddrInfoView,
    TransactionInfo, TransactionInfoView,
};

verus! {

/// What the upload of a block writes to the tables `tx`, `tx_full` and
/// `tx-by-addr` and to the cache, and the key under which the block goes.
/// A full transaction is named by its place in the block.
#[derive(Clone, Debug)]
pub struct UploadRecords {
    pub tx_cells: Vec<(RowKey, TransactionInfo)>,
    pub full_tx_cells: Vec<(RowKey, usize)>,
    pub full_tx_cache: Vec<(RowKey, usize)>,
    pub tx_by_addr_cells: Vec<(RowKey, Vec<TransactionByAddrInfo>)>,
    pub blocks_key: RowKey,
}

/// Whether a block can be uploaded: every transaction has a signature, and
/// the place of every transaction fits in 32 bits.
pub open spec fn uploadable(block: VersionedConfirmedBlock) -> bool {
    &&& block.transactions@.len() <= u32::MAX
    &&& forall|i: int|
        0 <= i < block.transactions@.len() ==> (#[trigger] block.transactions@[i])
            .transaction.signatures@.len() > 0
}

/// The row key of a transaction in `tx` and `tx_full`: the text of its
/// first signature.
pub open spec fn signature_key(tx: VersionedTransactionWithStatusMeta) -> Seq<char> {
    signature_text(tx.transaction.signatures@[0]@)
}

/// The record of `tx` for the transaction at a place of a block.
pub open spec fn info_at(slot: Slot, block: VersionedConfirmedBlock, place: int) -> TransactionInfoView {
    TransactionInfoView {
        slot,
        index: place as u32,
        err: err_view(block.transactions@[place].meta.err),
    }
}

/// The rows of `tx` for the first `n` transactions of a block.
pub open spec fn tx_rows(slot: Slot, block: VersionedConfirmedBlock, n: nat) -> Seq<
    (Seq<char>, TransactionInfoView),
>
    decreases n,
{
    if n == 0 {
        Seq::empty()
    } else {
        tx_rows(slot, block, (n - 1) as nat).push(
            (signature_key(block.transactions@[n - 1]), info_at(slot, block, n - 1)),
        )
    }
}

/// Which transactions go to `tx_full`.
pub open spec fn full_picker(config: UploaderConfig) -> spec_fn(
    VersionedTransactionWithStatusMeta,
) -> bool {
    |tx: VersionedTransactionWithStatusMeta| !skips_full(config, tx)
}

/// Which transactions go to the cache: those that are neither votes nor
/// failures.
pub open spec fn cache_picker() -> spec_fn(VersionedTransactionWithStatusMeta) -> bool {
    |tx: VersionedTransactionWithStatusMeta| !votes(tx) && !failed(tx)
}

/// The row keys and places of those of the first `n` transactions of a
/// block that are picked, in order.
pub open spec fn picked(
    block: VersionedConfirmedBlock,
    n: nat,
    pick: spec_fn(VersionedTransactionWithStatusMeta) -> bool,
) -> Seq<(Seq<char>, int)>
    decreases n,
{
    if n == 0 {
        Seq::empty()
    } else {
        let before = picked(block, (n - 1) as nat, pick);
        if pick(block.transactions@[n - 1]) {
            before.push((signature_key(block.transactions@[n - 1]), n - 1))
        } else {
            before
        }
    }
}

/// Rows of records as characters and views.
pub open spec fn keyed_views<T: View>(rows: Seq<(String, T)>) -> Seq<(Seq<char>, T::V)> {
    Seq::new(rows.len(), |i: int| (rows[i].0@, rows[i].1@))
}

/// Rows of places as characters and numbers.
pub open spec fn keyed_places(rows: Seq<(String, usize)>) -> Seq<(Seq<char>, int)> {
    Seq::new(rows.len(), |i: int| (rows[i].0@, rows[i].1 as int))
}

/// Rows of lists as characters and views.
pub open spec fn keyed_lists(rows: Seq<(String, Vec<TransactionByAddrInfo>)>) -> Seq<
    (Seq<char>, Seq<TransactionByAddrInfoView>),
> {
    Seq::new(rows.len(), |i: int| (rows[i].0@, views(rows[i].1@)))
}

/// The rows of `tx-by-addr` that groups give for a slot.
pub open spec fn group_rows(groups: Seq<Group>, slot: Slot) -> Seq<
    (Seq<char>, Seq<TransactionByAddrInfoView>),
> {
    Seq::new(groups.len(), |i: int| (tx_by_addr_row_key(groups[i].0, slot), groups[i].1))
}

/// The rows of `tx` that a block gives: one for each transaction, unless
/// the table is switched off.
pub open spec fn block_tx_rows(config: UploaderConfig, slot: Slot, block: VersionedConfirmedBlock) -> Seq<
    (Seq<char>, TransactionInfoView),
> {
    if config.disable_tx {
        Seq::empty()
    } else {
        tx_rows(slot, block, block.transactions@.len())
    }
}

/// The transactions of a block that go to `tx_full`, if that table is
/// switched on.
pub open spec fn block_full_rows(config: UploaderConfig, block: VersionedConfirmedBlock) -> Seq<
    (Seq<char>, int),
> {
    if config.enable_full_tx {
        picked(block, block.transactions@.len(), full_picker(config))
    } else {
        Seq::empty()
    }
}

/// The transactions of a block that go to the cache, if it is switched on.
pub open spec fn block_cache_rows(enable_full_tx_cache: bool, block: VersionedConfirmedBlock) -> Seq<
    (Seq<char>, int),
> {
    if enable_full_tx_cache {
        picked(block, block.transactions@.len(), cache_picker())
    } else {
        Seq::empty()
    }
}

/// Whether a block can be uploaded.
pub fn is_uploadable(block: &VersionedConfirmedBlock) -> (ok: bool)
    ensures
        ok == uploadable(*block),
{
    if block.transactions.len() > 0xffff_ffff {
        return false;
    }
    let mut i: usize = 0;
    while i < block.transactions.len()
        invariant
            i <= block.transactions.len(),
            forall|j: int|
                0 <= j < i ==> (#[trigger] block.transactions@[j]).transaction.signatures@.len()
                    > 0,
        decreases block.transactions.len() - i,
    {
        if block.transactions[i].transaction.signatures.len() == 0 {
            return false;
        }
        i = i + 1;
    }
    true
}

/// Turns groups into rows.
pub fn rows_of_groups(addresses: Vec<Pubkey>, lists: Vec<Vec<TransactionByAddrInfo>>, slot: Slot) -> (rows:
    Vec<(RowKey, Vec<TransactionByAddrInfo>)>)
    requires
        addresses@.len() == lists@.len(),
    ensures
        keyed_lists(rows@) == group_rows(groups_of(addresses@, lists@), slot),
{
    let ghost all = lists@;
    let ghost groups = groups_of(addresses@, lists@);
    let mut rest = reversed(lists);
    let mut rows: Vec<(RowKey, Vec<TransactionByAddrInfo>)> = Vec::new();
    let mut i: usize = 0;
    while i < addresses.len()
        invariant
            i <= addresses.len(),
            addresses@.len() == all.len(),
            groups == groups_of(addresses@, all),
            i + rest@.len() == all.len(),
            rest@ == all.reverse().subrange(0, rest@.len() as int),
            rows@.len() == i,
            keyed_lists(rows@) == group_rows(groups, slot).subrange(0, i as int),
        decreases addresses.len() - i,
    {
        let list = rest.pop().unwrap();
        proof {
            assert(all.reverse()[all.len() - 1 - i] == all[i as int]);
            assert(list == all[i as int]);
        }
        let key = tx_by_addr_key(&addresses[i], slot);
        rows.push((key, list));
        assert(keyed_lists(rows@) =~= group_rows(groups, slot).subrange(0, i + 1));
        assert(rest@ =~= all.reverse().subrange(0, rest@.len() as int));
        i = i + 1;
    }
    assert(group_rows(groups, slot).subrange(0, i as int) =~= group_rows(groups, slot));
    rows
}

/// The records that the upload of a block writes.
pub fn derive_records(
    slot: Slot,
    block: &VersionedConfirmedBlock,
    config: &UploaderConfig,
    enable_full_tx_cache: bool,
) -> (records: UploadRecords)
    requires
        uploadable(*block),
    ensures
        keyed_views(records.tx_cells@) == block_tx_rows(*config, slot, *block),
        keyed_places(records.full_tx_cells@) == block_full_rows(*config, *block),
        keyed_places(records.full_tx_cache@) == block_cache_rows(enable_full_tx_cache, *block),
        keyed_lists(records.tx_by_addr_cells@) == group_rows(
            block_groups(*config, *block),
            slot,
        ),
        records.blocks_key@ == blocks_key(slot, config.use_md5_row_key_salt),
{
    let mut addresses: Vec<Pubkey> = Vec::new();
    let mut lists: Vec<Vec<TransactionByAddrInfo>> = Vec::new();
    let mut tx_cells: Vec<(RowKey, TransactionInfo)> = Vec::new();
    let mut full_tx_cells: Vec<(RowKey, usize)> = Vec::new();
    let mut full_tx_cache: Vec<(RowKey, usize)> = Vec::new();
    let n = block.transactions.len();
    let mut i: usize = 0;
    proof {
        assert(groups_of(addresses@, lists@) =~= Seq::<Group>::empty());
        assert(keyed_views(tx_cells@) =~= Seq::<(Seq<char>, TransactionInfoView)>::empty());
        assert(keyed_places(full_tx_cells@) =~= Seq::<(Seq<char>, int)>::empty());
        assert(keyed_places(full_tx_cache@) =~= Seq::<(Seq<char>, int)>::empty());
    }
    while i < n
        invariant
            i <= n,
            n == block.transactions@.len(),
            uploadable(*block),
            addresses@.len() == lists@.len(),
            groups_of(addresses@, lists@) == with_touches(
                Seq::empty(),
                block_touches(*config, *block, i as nat),
            ),
            keyed_views(tx_cells@) == if config.disable_tx {
                Seq::<(Seq<char>, TransactionInfoView)>::empty()
            } else {
                tx_rows(slot, *block, i as nat)
            },
            keyed_places(full_tx_cells@) == if config.enable_full_tx {
                picked(*block, i as nat, full_picker(*config))
            } else {
                Seq::<(Seq<char>, int)>::empty()
            },
            keyed_places(full_tx_cache@) == if enable_full_tx_cache {
                picked(*block, i as nat, cache_picker())
            } else {
                Seq::<(Seq<char>, int)>::empty()
            },
        decreases n - i,
    {
        let tx = &block.transactions[i];
        let signature = tx.transaction.signatures[0];
        let entry = TransactionByAddrInfo {
            signature,
            err: copy_err(&tx.meta.err),
            index: i as u32,
            memo: extract_and_fmt_memos(tx),
            block_time: block.block_time,
        };
        assert(entry@ == entry_at(*block, i as int));
        proof {
            lemma_with_touches_append(
                Seq::empty(),
                block_touches(*config, *block, i as nat),
                touches_of(*config, *tx, entry@),
            );
        }
        let skip_full = index_transaction(config, tx, &entry, &mut addresses, &mut lists);
        if config.enable_full_tx && !skip_full {
            let ghost before = keyed_places(full_tx_cells@);
            full_tx_cells.push((signature_to_string(&signature), i));
            assert(keyed_places(full_tx_cells@) =~= before.push((signature_key(*tx), i as int)));
        }
        if enable_full_tx_cache && !is_voting_tx(tx) && !is_error_tx(tx) {
            let ghost before = keyed_places(full_tx_cache@);
            full_tx_cache.push((signature_to_string(&signature), i));
            assert(keyed_places(full_tx_cache@) =~= before.push((signature_key(*tx), i as int)));
        }
        if !config.disable_tx {
            let ghost before = keyed_views(tx_cells@);
            let info = TransactionInfo { slot, index: i as u32, err: entry.err };
            tx_cells.push((signature_to_string(&signature), info));
            assert(keyed_views(tx_cells@) =~= before.push(
                (signature_key(*tx), info_at(slot, *block, i as int)),
            ));
        }
        i = i + 1;
    }
    let tx_by_addr_cells = rows_of_groups(addresses, lists, slot);
    UploadRecords {
        tx_cells,
        full_tx_cells,
        full_tx_cache,
        tx_by_addr_cells,
        blocks_key: slot_to_blocks_key(slot, config.use_md5_row_key_salt),
    }
}

/// The rows of `tx` with each record in the legacy binary form.
pub open spec fn tx_payload_rows(cells: Seq<(String, TransactionInfo)>) -> Seq<
    (Seq<char>, Seq<u8>),
> {
    Seq::new(cells.len(), |i: int| (cells[i].0@, crate::tx_info::info_bytes(cells[i].1@)))
}

/// Writes one row of `tx-by-addr` in the protobuf form.
pub open spec fn entries_writer() -> spec_fn((String, Vec<TransactionByAddrInfo>)) -> Result<
    (Seq<char>, Seq<u8>),
    (),
> {
    |row: (String, Vec<TransactionByAddrInfo>)|
        match crate::tx_by_addr::entries_proto(views(row.1@)) {
            Some(bytes) => Ok((row.0@, bytes)),
            None => Err(()),
        }
}

/// The rows of `tx` with each record in the legacy binary form.
pub fn tx_payloads(cells: &Vec<(RowKey, TransactionInfo)>) -> (rows: Vec<(RowKey, Vec<u8>)>)
    ensures
        crate::hbase::record_views(rows@) == tx_payload_rows(cells@),
{
    let mut rows: Vec<(RowKey, Vec<u8>)> = Vec::new();
    let mut i: usize = 0;
    while i < cells.len()
        invariant
            i <= cells.len(),
            crate::hbase::record_views(rows@) == tx_payload_rows(cells@).subrange(0, i as int),
        decreases cells.len() - i,
    {
        let ghost before = crate::hbase::record_views(rows@);
        let key = cells[i].0.clone();
        let bytes = cells[i].1.to_bytes();
        rows.push((key, bytes));
        assert(crate::hbase::record_views(rows@) =~= before.push((key@, bytes@)));
        assert(tx_payload_rows(cells@)[i as int] == (key@, bytes@));
        assert(crate::hbase::record_views(rows@) =~= tx_payload_rows(cells@).subrange(0, i + 1));
        i = i + 1;
    }
    assert(tx_payload_rows(cells@).subrange(0, cells@.len() as int) =~= tx_payload_rows(cells@));
    rows
}

/// The rows of `tx-by-addr` with the entries of each row in the protobuf
/// form. `None` where the entries of a row cannot be written.
pub fn tx_by_addr_payloads(cells: &Vec<(RowKey, Vec<TransactionByAddrInfo>)>) -> (rows: Option<
    Vec<(RowKey, Vec<u8>)>,
>)
    ensures
        crate::seqs::try_map(cells@, entries_writer()) == match rows {
            Some(r) => Ok::<Seq<(Seq<char>, Seq<u8>)>, ()>(crate::hbase::record_views(r@)),
            None => Err(()),
        },
{
    let mut rows: Vec<(RowKey, Vec<u8>)> = Vec::new();
    let mut i: usize = 0;
    proof {
        assert(cells@.subrange(0, 0) =~= Seq::<(String, Vec<TransactionByAddrInfo>)>::empty());
        assert(crate::hbase::record_views(rows@) =~= Seq::<(Seq<char>, Seq<u8>)>::empty());
    }
    while i < cells.len()
        invariant
            i <= cells.len(),
            crate::seqs::try_map(cells@.subrange(0, i as int), entries_writer()) == Ok::<
                Seq<(Seq<char>, Seq<u8>)>,
                (),
            >(crate::hbase::record_views(rows@)),
        decreases cells.len() - i,
    {
        proof {
            crate::seqs::lemma_try_map_step(cells@, entries_writer(), i as int);
        }
        match crate::tx_by_addr::encode_entries(&cells[i].1) {
            Some(bytes) => {
                let ghost before = crate::hbase::record_views(rows@);
                rows.push((cells[i].0.clone(), bytes));
                assert(crate::hbase::record_views(rows@) =~= before.push((cells@[i as int].0@, bytes@)));
            },
            None => {
                proof {
                    crate::seqs::lemma_try_map_prefix(cells@, entries_writer(), i + 1);
                }
                return None;
            },
        }
        i = i + 1;
    }
    assert(cells@.subrange(0, cells.len() as int) =~= cells@);
    Some(rows)
}

} // verus!
