//! The history of an address: the transactions that touch it, newest first.
//!
//! The rows of an address in `tx-by-addr` are keyed by the complement of
//! the slot, so a forward scan meets the newest slot first. Within a row
//! the entries stand in the order of the block, so they are taken from the
//! back. A cursor on either side of the window cuts entries off the row of
//! its slot.

use vstd::prelude::*;
use vstd::string::*;

use crate::cell::{RowData, RowKey};
use crate::seqs::views;
use crate::key::{key_slot, key_to_slot, slot_to_tx_by_addr_key, tx_by_addr_slot_key, Slot};
use crate::text::{pubkey_text, pubkey_to_string};
use crate::types::{
    ConfirmedTransactionStatusWithSignature, ConfirmedTransactionStatusWithSignatureView, Pubkey,
    TransactionByAddrInfo, TransactionByAddrInfoView, TransactionInfo,
};
use crate::upload::{Error, ErrorView};

verus! {

/// One end of the window of a scan: a place in the ledger. A cursor with
/// `fallback` set names a slot and no place in it: it was found through
/// `tx_full`, or it is the open end of a scan. Such a cursor cuts nothing
/// off the row of its slot.
#[derive(Clone, Copy, Debug, PartialEq, Eq, Structural)]
pub struct Cursor {
    pub slot: Slot,
    pub index: u32,
    pub fallback: bool,
}

/// The window of a scan: it starts below `before` and ends above `until`.
#[derive(Clone, Copy, Debug, PartialEq, Eq, Structural)]
pub struct Window {
    pub before: Cursor,
    pub until: Cursor,
}

/// What reading `tx` for the signature of a cursor leads to.
#[derive(Debug)]
pub enum CursorStep {
    /// The cursor is known.
    Resolved(Cursor),
    /// `tx` does not know the signature: ask `tx_full`.
    AskFullTransaction,
    /// The scan fails.
    Failed(Error),
}

/// What reading `tx_full` for the signature of a cursor leads to.
#[derive(Debug)]
pub enum FallbackStep {
    Resolved(Cursor),
    /// Nobody knows the signature: the history is empty.
    Empty,
    Failed(Error),
}

/// The rows to read for a scan.
#[derive(Clone, Debug, PartialEq, Eq)]
pub struct RowRange {
    pub start_at: RowKey,
    pub end_at: RowKey,
    pub rows_limit: i64,
}

/// One item of a history, and the place of the transaction in its block.
pub type Item = (ConfirmedTransactionStatusWithSignatureView, u32);

/// The cursor before which everything lies: the end of the ledger. It
/// cuts nothing off the row of the last slot.
pub open spec fn open_before() -> Cursor {
    Cursor { slot: u64::MAX, index: 0, fallback: true }
}

/// The cursor behind which everything lies: the start of the ledger. It
/// cuts nothing off the row of slot 0.
pub open spec fn open_until() -> Cursor {
    Cursor { slot: 0, index: 0, fallback: true }
}

/// Whether the window keeps the entry at a place of the row of a slot: not
/// if it lies at or behind `before` in the row of its slot, nor if it lies
/// at or before `until` in the row of its slot. An end that names no place
/// cuts nothing, so an open scan keeps every entry.
pub open spec fn keeps(window: Window, slot: Slot, index: u32) -> bool {
    &&& !(!window.before.fallback && slot == window.before.slot && index >= window.before.index)
    &&& !(!window.until.fallback && slot == window.until.slot && index <= window.until.index)
}

/// The item that an entry of the row of a slot gives.
pub open spec fn item_of(slot: Slot, entry: TransactionByAddrInfoView) -> Item {
    (
        ConfirmedTransactionStatusWithSignatureView {
            signature: entry.signature,
            slot,
            err: entry.err,
            memo: entry.memo,
            block_time: entry.block_time,
        },
        entry.index,
    )
}

/// The items that the row of a slot gives: those of its entries that the
/// window keeps, the last entry first.
pub open spec fn row_items(window: Window, slot: Slot, entries: Seq<TransactionByAddrInfoView>) -> Seq<
    Item,
>
    decreases entries.len(),
{
    if entries.len() == 0 {
        Seq::empty()
    } else {
        (if keeps(window, slot, entries.last().index) {
            seq![item_of(slot, entries.last())]
        } else {
            Seq::empty()
        }) + row_items(window, slot, entries.drop_last())
    }
}

/// The first `limit` items, or all of them where there are fewer.
pub open spec fn up_to(items: Seq<Item>, limit: nat) -> Seq<Item> {
    if items.len() <= limit {
        items
    } else {
        items.subrange(0, limit as int)
    }
}

/// The slot of a row of an address: the complement of the number that
/// follows the prefix of the address in the row key. `None` where the key
/// is shorter than the prefix or holds no number behind it.
pub open spec fn row_slot(row_key: Seq<char>, prefix_len: nat) -> Option<Slot> {
    if row_key.len() < prefix_len {
        None
    } else {
        match key_slot(row_key.subrange(prefix_len as int, row_key.len() as int)) {
            Some(complement) => Some(!complement),
            None => None,
        }
    }
}

/// The prefix of the row keys of an address: its text and a slash.
pub open spec fn address_prefix(address: Pubkey) -> Seq<char> {
    pubkey_text(address@) + seq!['/']
}

/// The views of items.
pub open spec fn item_views(items: Seq<(ConfirmedTransactionStatusWithSignature, u32)>) -> Seq<
    Item,
> {
    Seq::new(items.len(), |i: int| (items[i].0@, items[i].1))
}

impl Cursor {
    /// The cursor of a scan without a `before` signature.
    pub fn start_of_scan() -> (cursor: Cursor)
        ensures
            cursor == open_before(),
    {
        Cursor { slot: 0xffff_ffff_ffff_ffff, index: 0, fallback: true }
    }

    /// The cursor of a scan without an `until` signature.
    pub fn end_of_scan() -> (cursor: Cursor)
        ensures
            cursor == open_until(),
    {
        Cursor { slot: 0, index: 0, fallback: true }
    }

    /// What reading `tx` for the signature of a cursor leads to: the place
    /// that the record names; a second try in `tx_full` where `tx` has no
    /// row; failure on any other error.
    pub fn from_tx(read: Result<TransactionInfo, crate::cell::Error>) -> (step: CursorStep)
        ensures
            match read {
                Ok(info) => step matches CursorStep::Resolved(c) && c == (Cursor {
                    slot: info.slot,
                    index: info.index,
                    fallback: false,
                }),
                Err(crate::cell::Error::RowNotFound) => step is AskFullTransaction,
                Err(e) => step matches CursorStep::Failed(f) && f@
                    == ErrorView::StorageBackendError(e@),
            },
    {
        match read {
            Ok(info) => CursorStep::Resolved(
                Cursor { slot: info.slot, index: info.index, fallback: false },
            ),
            Err(crate::cell::Error::RowNotFound) => CursorStep::AskFullTransaction,
            Err(e) => CursorStep::Failed(Error::StorageBackendError(e)),
        }
    }

    /// What reading `tx_full` for the signature of a cursor leads to: the
    /// slot of the transaction, without a place in it; an empty history
    /// where `tx_full` does not know the signature either; failure on any
    /// other error.
    pub fn from_full_transaction(read: Result<Option<Slot>, Error>) -> (step: FallbackStep)
        ensures
            match read {
                Ok(Some(slot)) => step matches FallbackStep::Resolved(c) && c == (Cursor {
                    slot,
                    index: 0,
                    fallback: true,
                }),
                Ok(None) => step is Empty,
                Err(Error::SignatureNotFound) => step is Empty,
                Err(e) => step matches FallbackStep::Failed(f) && f == e,
            },
    {
        match read {
            Ok(Some(slot)) => FallbackStep::Resolved(Cursor { slot, index: 0, fallback: true }),
            Ok(None) => FallbackStep::Empty,
            Err(Error::SignatureNotFound) => FallbackStep::Empty,
            Err(e) => FallbackStep::Failed(e),
        }
    }
}

/// The prefix of the row keys of an address.
pub fn address_row_prefix(address: &Pubkey) -> (prefix: String)
    ensures
        prefix@ == address_prefix(*address),
{
    proof {
        reveal_strlit("/");
    }
    let mut prefix = pubkey_to_string(address);
    prefix.append("/");
    prefix
}

/// The row key of an address and a slot.
pub fn address_row_key(prefix: &str, slot: Slot) -> (key: RowKey)
    ensures
        key@ == prefix@ + tx_by_addr_slot_key(slot),
{
    let mut key = String::from_str(prefix);
    let slot_key = slot_to_tx_by_addr_key(slot);
    key.append(slot_key.as_str());
    key
}

/// How many entries the row of the first slot holds, from what reading it
/// gave: none where the row could not be read.
pub fn starting_slot_tx_len<E>(read: &Result<usize, E>) -> (len: usize)
    ensures
        len == match *read {
            Ok(n) => n,
            Err(_) => 0usize,
        },
{
    match read {
        Ok(n) => *n,
        Err(_) => 0,
    }
}

/// The rows to read for a window: from the row of the slot of `before` to
/// the row of the slot below that of `until`, and as many rows as items
/// are wanted and the first row holds entries, since all of these may be
/// cut off.
pub fn scan_range(prefix: &str, window: &Window, limit: usize, starting_slot_tx_len: usize) -> (range:
    RowRange)
    requires
        limit + starting_slot_tx_len <= i64::MAX,
    ensures
        range.start_at@ == prefix@ + tx_by_addr_slot_key(window.before.slot),
        range.end_at@ == prefix@ + tx_by_addr_slot_key(
            if window.until.slot == 0 {
                0u64
            } else {
                (window.until.slot - 1) as u64
            },
        ),
        range.rows_limit == limit + starting_slot_tx_len,
{
    let last = if window.until.slot == 0 {
        0
    } else {
        window.until.slot - 1
    };
    RowRange {
        start_at: address_row_key(prefix, window.before.slot),
        end_at: address_row_key(prefix, last),
        rows_limit: limit as i64 + starting_slot_tx_len as i64,
    }
}

/// The slot of a row of an address.
pub fn slot_of_row(row_key: &str, prefix_len: usize) -> (slot: Option<Slot>)
    ensures
        slot == row_slot(row_key@, prefix_len as nat),
{
    let n = row_key.unicode_len();
    if n < prefix_len {
        return None;
    }
    match key_to_slot(row_key.substring_char(prefix_len, n)) {
        Some(complement) => Some(!complement),
        None => None,
    }
}

/// A scan of the history of an address while it gathers items.
#[derive(Debug)]
pub struct AddressScan {
    pub window: Window,
    pub limit: usize,
    pub infos: Vec<(ConfirmedTransactionStatusWithSignature, u32)>,
}

impl AddressScan {
    /// The scan never holds more items than were asked for.
    pub open spec fn wf(&self) -> bool {
        self.infos@.len() <= self.limit
    }

    /// Whether as many items were gathered as were asked for.
    pub open spec fn done(&self) -> bool {
        self.infos@.len() >= self.limit
    }

    /// A scan that has gathered nothing.
    pub fn new(window: Window, limit: usize) -> (scan: AddressScan)
        ensures
            scan.wf(),
            scan.window == window,
            scan.limit == limit,
            scan.infos@.len() == 0,
    {
        AddressScan { window, limit, infos: Vec::new() }
    }

    /// Whether as many items were gathered as were asked for.
    pub fn is_done(&self) -> (done: bool)
        ensures
            done == self.done(),
    {
        self.infos.len() >= self.limit
    }

    /// Takes the items of the row of a slot, as many as are still wanted,
    /// and tells whether the scan has what it was asked for.
    pub fn absorb_row(&mut self, slot: Slot, entries: Vec<TransactionByAddrInfo>) -> (done: bool)
        requires
            old(self).wf(),
        ensures
            final(self).wf(),
            final(self).window == old(self).window,
            final(self).limit == old(self).limit,
            item_views(final(self).infos@) == up_to(
                item_views(old(self).infos@) + row_items(old(self).window, slot, views(entries@)),
                old(self).limit as nat,
            ),
            done == final(self).done(),
    {
        let ghost start = item_views(self.infos@);
        let ghost all = row_items(self.window, slot, views(entries@));
        let mut rest = entries;
        loop
            invariant_except_break
                self.wf(),
                self.window == old(self).window,
                self.limit == old(self).limit,
                start + all == item_views(self.infos@) + row_items(
                    self.window,
                    slot,
                    views(rest@),
                ),
            ensures
                self.wf(),
                self.window == old(self).window,
                self.limit == old(self).limit,
                item_views(self.infos@) == up_to(start + all, self.limit as nat),
            decreases rest@.len(),
        {
            if self.infos.len() >= self.limit {
                proof {
                    let gathered = item_views(self.infos@);
                    let total = start + all;
                    assert(gathered =~= total.subrange(0, self.limit as int));
                }
                break ;
            }
            let ghost before_rest = views(rest@);
            match rest.pop() {
                None => {
                    proof {
                        assert(row_items(self.window, slot, views(rest@)) =~= Seq::<Item>::empty());
                        assert(item_views(self.infos@) =~= start + all);
                    }
                    break ;
                },
                Some(entry) => {
                    proof {
                        assert(before_rest.drop_last() =~= views(rest@));
                        assert(before_rest.last() == entry@);
                    }
                    if keep_entry(&self.window, slot, entry.index) {
                        let ghost gathered = item_views(self.infos@);
                        let index = entry.index;
                        self.infos.push(
                            (
                                ConfirmedTransactionStatusWithSignature {
                                    signature: entry.signature,
                                    slot,
                                    err: entry.err,
                                    memo: entry.memo,
                                    block_time: entry.block_time,
                                },
                                index,
                            ),
                        );
                        assert(item_views(self.infos@) =~= gathered.push(item_of(slot, entry@)));
                        assert(start + all =~= item_views(self.infos@) + row_items(
                            self.window,
                            slot,
                            views(rest@),
                        ));
                    }
                },
            }
        }
        self.infos.len() >= self.limit
    }

    /// The items that were gathered.
    pub fn into_items(self) -> (items: Vec<(ConfirmedTransactionStatusWithSignature, u32)>)
        ensures
            items == self.infos,
    {
        self.infos
    }
}

/// Whether the window keeps the entry at a place of the row of a slot.
pub fn keep_entry(window: &Window, slot: Slot, index: u32) -> (keep: bool)
    ensures
        keep == keeps(*window, slot, index),
{
    if !window.before.fallback && slot == window.before.slot && index >= window.before.index {
        return false;
    }
    if !window.until.fallback && slot == window.until.slot && index <= window.until.index {
        return false;
    }
    true
}

/// The entries of a row of `tx-by-addr`: those that its cell holds, the
/// protobuf cell before the legacy one, or why there are none.
pub open spec fn entries_of_row(row_key: Seq<char>, row_data: Seq<(String, Vec<u8>)>) -> Result<
    Seq<TransactionByAddrInfoView>,
    crate::cell::ErrorView,
> {
    match crate::cell::record_payload(row_data, crate::cell::object_id("tx-by-addr"@, row_key)) {
        Err(e) => Err(e),
        Ok(payload) => match crate::tx_by_addr::cell_entries(payload) {
            Some(entries) => Ok(entries),
            None => Err(
                crate::cell::ErrorView::ObjectCorrupt(
                    crate::cell::object_id("tx-by-addr"@, row_key),
                ),
            ),
        },
    }
}

/// The history that the rows of a scan give. The rows are taken in order
/// until `limit` items are found; rows behind that are not looked at. A row
/// whose key gives no slot is passed over; a row whose cell cannot be read
/// fails the scan.
pub open spec fn history(
    window: Window,
    prefix_len: nat,
    limit: nat,
    rows: Seq<(String, RowData)>,
) -> Result<Seq<Item>, ErrorView>
    decreases rows.len(),
{
    if rows.len() == 0 {
        Ok(Seq::empty())
    } else {
        match history(window, prefix_len, limit, rows.drop_last()) {
            Err(e) => Err(e),
            Ok(before) => if before.len() >= limit {
                Ok(before)
            } else {
                match row_slot(rows.last().0@, prefix_len) {
                    None => Ok(before),
                    Some(slot) => match entries_of_row(rows.last().0@, rows.last().1@) {
                        Err(e) => Err(ErrorView::StorageBackendError(e)),
                        Ok(entries) => Ok(
                            up_to(before + row_items(window, slot, entries), limit),
                        ),
                    },
                }
            },
        }
    }
}

/// The entries of a row of `tx-by-addr`.
pub fn row_entries(row_key: &str, row_data: &RowData) -> (entries: Result<
    Vec<TransactionByAddrInfo>,
    crate::cell::Error,
>)
    ensures
        entries_of_row(row_key@, row_data@) == match entries {
            Ok(e) => Ok::<Seq<TransactionByAddrInfoView>, crate::cell::ErrorView>(views(e@)),
            Err(e) => Err(e@),
        },
{
    match crate::cell::deserialize_protobuf_or_bincode_cell_data(
        row_data.as_slice(),
        "tx-by-addr",
        row_key,
    ) {
        Err(e) => Err(e),
        Ok(payload) => match crate::tx_by_addr::decode_entries(&payload) {
            Some(entries) => Ok(entries),
            None => Err(
                crate::cell::Error::ObjectCorrupt(crate::cell::object_name("tx-by-addr", row_key)),
            ),
        },
    }
}

/// How many entries the row of the first slot of a scan holds, from what
/// reading it gave: none where the row is missing or cannot be read.
pub open spec fn first_len(read: Result<RowData, crate::cell::Error>, row_key: Seq<char>) -> usize {
    match read {
        Ok(row) => match entries_of_row(row_key, row@) {
            Ok(entries) => entries.len() as usize,
            Err(_) => 0usize,
        },
        Err(_) => 0usize,
    }
}

/// How many entries the row of the first slot of a scan holds, from what
/// reading it gave: none where the row is missing or cannot be read.
pub fn first_row_len(read: Result<RowData, crate::cell::Error>, row_key: &str) -> (len: usize)
    ensures
        len == first_len(read, row_key@),
{
    match read {
        Ok(row) => match row_entries(row_key, &row) {
            Ok(entries) => entries.len(),
            Err(_) => 0,
        },
        Err(_) => 0,
    }
}

/// The rows to read for a window, from what reading the row of its first
/// slot gave. A first row that is missing or cannot be read counts as
/// empty: the scan goes on all the same, and asks for `limit` rows. `None`
/// where the number of rows to ask for does not fit.
pub fn scan_range_after_first_row(
    prefix: &str,
    window: &Window,
    limit: usize,
    first_row: Result<RowData, crate::cell::Error>,
) -> (range: Option<RowRange>)
    ensures
        match range {
            Some(r) => r.start_at@ == prefix@ + tx_by_addr_slot_key(window.before.slot) && r.end_at@
                == prefix@ + tx_by_addr_slot_key(
                if window.until.slot == 0 {
                    0u64
                } else {
                    (window.until.slot - 1) as u64
                },
            ) && r.rows_limit == limit + first_len(
                first_row,
                prefix@ + tx_by_addr_slot_key(window.before.slot),
            ),
            None => limit + first_len(
                first_row,
                prefix@ + tx_by_addr_slot_key(window.before.slot),
            ) > i64::MAX,
        },
        first_row is Err && limit <= i64::MAX ==> (range matches Some(r) && r.rows_limit == limit),
{
    let first_key = address_row_key(prefix, window.before.slot);
    let len = first_row_len(first_row, first_key.as_str());
    let most: u64 = 0x7fff_ffff_ffff_ffff;
    if limit as u64 > most || len as u64 > most - limit as u64 {
        return None;
    }
    Some(scan_range(prefix, window, limit, len))
}

/// An open scan keeps every entry: with neither `before` nor `until`
/// nothing is cut off any row, that of slot 0 included.
pub proof fn lemma_open_window_keeps_all(slot: Slot, index: u32)
    ensures
        keeps(Window { before: open_before(), until: open_until() }, slot, index),
{
}

/// An end that was found through `tx_full` cuts nothing off the row of its
/// slot: below such a `before`, with no `until`, every entry of every slot
/// up to that of `before` is kept.
pub proof fn lemma_fallback_keeps_its_slot(before_slot: Slot, slot: Slot, index: u32)
    ensures
        keeps(
            Window {
                before: Cursor { slot: before_slot, index: 0, fallback: true },
                until: open_until(),
            },
            slot,
            index,
        ),
{
}

/// The history of an address, from the rows that the scan of its window
/// gave: the transactions that touch the address, newest first, `limit` of
/// them at most.
pub fn get_confirmed_signatures_for_address(
    window: Window,
    prefix_len: usize,
    limit: usize,
    rows: Vec<(RowKey, RowData)>,
) -> (items: Result<Vec<(ConfirmedTransactionStatusWithSignature, u32)>, Error>)
    ensures
        history(window, prefix_len as nat, limit as nat, rows@) == match items {
            Ok(list) => Ok::<Seq<Item>, ErrorView>(item_views(list@)),
            Err(e) => Err(e@),
        },
{
    let ghost all = rows@;
    let mut rest = crate::seqs::reversed(rows);
    let mut scan = AddressScan::new(window, limit);
    let mut taken: usize = 0;
    let total = rest.len();
    proof {
        assert(all.subrange(0, 0) =~= Seq::<(String, RowData)>::empty());
        assert(item_views(scan.infos@) =~= Seq::<Item>::empty());
    }
    while rest.len() > 0
        invariant
            scan.wf(),
            scan.window == window,
            scan.limit == limit,
            all == rows@,
            all.len() == total,
            taken + rest@.len() == all.len(),
            rest@ == all.reverse().subrange(0, rest@.len() as int),
            history(window, prefix_len as nat, limit as nat, all.subrange(0, taken as int)) == Ok::<
                Seq<Item>,
                ErrorView,
            >(item_views(scan.infos@)),
        decreases rest.len(),
    {
        let (row_key, row_data) = rest.pop().unwrap();
        proof {
            assert(all.reverse()[all.len() - 1 - taken] == all[taken as int]);
            let longer = all.subrange(0, taken + 1);
            assert(longer.drop_last() =~= all.subrange(0, taken as int));
            assert(longer.last() == (row_key, row_data));
        }
        if !scan.is_done() {
            match slot_of_row(row_key.as_str(), prefix_len) {
                None => {},
                Some(slot) => match row_entries(row_key.as_str(), &row_data) {
                    Err(e) => {
                        proof {
                            lemma_history_fails(
                                window,
                                prefix_len as nat,
                                limit as nat,
                                all,
                                taken + 1,
                            );
                        }
                        return Err(Error::StorageBackendError(e));
                    },
                    Ok(entries) => {
                        scan.absorb_row(slot, entries);
                    },
                },
            }
        }
        taken = taken + 1;
        assert(rest@ =~= all.reverse().subrange(0, rest@.len() as int));
    }
    assert(all.subrange(0, all.len() as int) =~= all);
    Ok(scan.into_items())
}

/// A scan that fails on the start of the rows fails in the same way on all
/// of them.
pub proof fn lemma_history_fails(
    window: Window,
    prefix_len: nat,
    limit: nat,
    rows: Seq<(String, RowData)>,
    n: int,
)
    requires
        0 <= n <= rows.len(),
        history(window, prefix_len, limit, rows.subrange(0, n)) is Err,
    ensures
        history(window, prefix_len, limit, rows) == history(
            window,
            prefix_len,
            limit,
            rows.subrange(0, n),
        ),
    decreases rows.len(),
{
    if n < rows.len() {
        assert(rows.drop_last().subrange(0, n) =~= rows.subrange(0, n));
        lemma_history_fails(window, prefix_len, limit, rows.drop_last(), n);
    } else {
        assert(rows.subrange(0, n) =~= rows);
    }
}

/// Whether one item lies above another in the ledger: in a later slot, or
/// later in the same slot.
pub open spec fn above(a: Item, b: Item) -> bool {
    a.0.slot > b.0.slot || (a.0.slot == b.0.slot && a.1 > b.1)
}

/// Whether each item lies above all that follow it.
pub open spec fn descending(items: Seq<Item>) -> bool {
    forall|i: int, j: int| 0 <= i < j < items.len() ==> above(#[trigger] items[i], #[trigger] items[j])
}

/// Whether the entries of a row stand in the order of the block.
pub open spec fn ascending(entries: Seq<TransactionByAddrInfoView>) -> bool {
    forall|i: int, j: int|
        0 <= i < j < entries.len() ==> (#[trigger] entries[i]).index < (#[trigger] entries[j]).index
}

/// The items of a row lie in the slot of the row, at places of its entries.
proof fn lemma_row_items_bounds(
    window: Window,
    slot: Slot,
    entries: Seq<TransactionByAddrInfoView>,
    bound: int,
)
    requires
        forall|i: int| 0 <= i < entries.len() ==> (#[trigger] entries[i]).index < bound,
    ensures
        forall|k: int|
            0 <= k < row_items(window, slot, entries).len() ==> (#[trigger] row_items(
                window,
                slot,
                entries,
            )[k]).0.slot == slot && row_items(window, slot, entries)[k].1 < bound,
    decreases entries.len(),
{
    if entries.len() > 0 {
        let shorter = entries.drop_last();
        assert forall|i: int| 0 <= i < shorter.len() implies (#[trigger] shorter[i]).index
            < bound by {
            assert(shorter[i] == entries[i]);
        }
        lemma_row_items_bounds(window, slot, shorter, bound);
        assert(entries.last() == entries[entries.len() - 1]);
    }
}

/// The items of a row run down the row.
proof fn lemma_row_items_descend(window: Window, slot: Slot, entries: Seq<TransactionByAddrInfoView>)
    requires
        ascending(entries),
    ensures
        descending(row_items(window, slot, entries)),
    decreases entries.len(),
{
    if entries.len() > 0 {
        let shorter = entries.drop_last();
        let last = entries.last();
        assert(last == entries[entries.len() - 1]);
        assert forall|i: int, j: int| 0 <= i < j < shorter.len() implies (#[trigger] shorter[
            i
        ]).index < (#[trigger] shorter[j]).index by {
            assert(shorter[i] == entries[i]);
            assert(shorter[j] == entries[j]);
        }
        assert forall|i: int| 0 <= i < shorter.len() implies (#[trigger] shorter[i]).index
            < last.index as int by {
            assert(shorter[i] == entries[i]);
        }
        lemma_row_items_descend(window, slot, shorter);
        lemma_row_items_bounds(window, slot, shorter, last.index as int);
    }
}

/// A row in the slot of a window whose two ends are the same place gives
/// no items.
proof fn lemma_row_items_of_shut_window(
    window: Window,
    slot: Slot,
    entries: Seq<TransactionByAddrInfoView>,
)
    requires
        window.before == window.until,
        !window.before.fallback,
        slot == window.before.slot,
    ensures
        row_items(window, slot, entries).len() == 0,
    decreases entries.len(),
{
    if entries.len() > 0 {
        lemma_row_items_of_shut_window(window, slot, entries.drop_last());
    }
}

/// Whether rows stand as a forward scan hands them out: each row that
/// has a slot has a later slot than all such rows that follow it.
pub open spec fn newest_first(rows: Seq<(String, RowData)>, prefix_len: nat) -> bool {
    forall|i: int, j: int|
        0 <= i < j < rows.len() ==> match (
            row_slot((#[trigger] rows[i]).0@, prefix_len),
            row_slot((#[trigger] rows[j]).0@, prefix_len),
        ) {
            (Some(a), Some(b)) => a > b,
            _ => true,
        }
}

/// Whether every row that can be read holds its entries in the order
/// of the block.
pub open spec fn ascending_rows(rows: Seq<(String, RowData)>) -> bool {
    forall|i: int|
        0 <= i < rows.len() ==> match entries_of_row((#[trigger] rows[i]).0@, rows[i].1@) {
            Ok(entries) => ascending(entries),
            Err(_) => true,
        }
}

/// The items of a history lie in slots of its rows.
proof fn lemma_history_bounds(
    window: Window,
    prefix_len: nat,
    limit: nat,
    rows: Seq<(String, RowData)>,
    bound: int,
)
    requires
        forall|i: int|
            0 <= i < rows.len() ==> match row_slot((#[trigger] rows[i]).0@, prefix_len) {
                Some(slot) => slot > bound,
                None => true,
            },
    ensures
        history(window, prefix_len, limit, rows) matches Ok(items) ==> forall|k: int|
            0 <= k < items.len() ==> (#[trigger] items[k]).0.slot > bound,
    decreases rows.len(),
{
    if rows.len() > 0 {
        let shorter = rows.drop_last();
        assert forall|i: int| 0 <= i < shorter.len() implies match row_slot(
            (#[trigger] shorter[i]).0@,
            prefix_len,
        ) {
            Some(slot) => slot > bound,
            None => true,
        } by {
            assert(shorter[i] == rows[i]);
        }
        lemma_history_bounds(window, prefix_len, limit, shorter, bound);
        assert(rows.last() == rows[rows.len() - 1]);
        match row_slot(rows.last().0@, prefix_len) {
            Some(slot) => match entries_of_row(rows.last().0@, rows.last().1@) {
                Ok(entries) => {
                    lemma_row_items_bounds(window, slot, entries, u32::MAX + 1);
                },
                Err(_) => {},
            },
            None => {},
        }
    }
}

/// A history runs down the ledger: where the rows come newest first and
/// each row holds its entries in the order of the block, each item of the
/// history lies above all that follow it.
pub proof fn lemma_history_descends(
    window: Window,
    prefix_len: nat,
    limit: nat,
    rows: Seq<(String, RowData)>,
)
    requires
        newest_first(rows, prefix_len),
        ascending_rows(rows),
    ensures
        history(window, prefix_len, limit, rows) matches Ok(items) ==> descending(items),
    decreases rows.len(),
{
    if rows.len() > 0 {
        let shorter = rows.drop_last();
        let last = rows.last();
        assert(last == rows[rows.len() - 1]);
        assert forall|i: int, j: int| 0 <= i < j < shorter.len() implies match (
            row_slot((#[trigger] shorter[i]).0@, prefix_len),
            row_slot((#[trigger] shorter[j]).0@, prefix_len),
        ) {
            (Some(a), Some(b)) => a > b,
            _ => true,
        } by {
            assert(shorter[i] == rows[i]);
            assert(shorter[j] == rows[j]);
        }
        assert forall|i: int| 0 <= i < shorter.len() implies match entries_of_row(
            (#[trigger] shorter[i]).0@,
            shorter[i].1@,
        ) {
            Ok(entries) => ascending(entries),
            Err(_) => true,
        } by {
            assert(shorter[i] == rows[i]);
        }
        lemma_history_descends(window, prefix_len, limit, shorter);
        match row_slot(last.0@, prefix_len) {
            Some(slot) => {
                assert forall|i: int| 0 <= i < shorter.len() implies match row_slot(
                    (#[trigger] shorter[i]).0@,
                    prefix_len,
                ) {
                    Some(s) => s > slot as int,
                    None => true,
                } by {
                    assert(shorter[i] == rows[i]);
                }
                lemma_history_bounds(window, prefix_len, limit, shorter, slot as int);
                match entries_of_row(last.0@, last.1@) {
                    Ok(entries) => {
                        lemma_row_items_descend(window, slot, entries);
                        lemma_row_items_bounds(window, slot, entries, u32::MAX + 1);
                    },
                    Err(_) => {},
                }
            },
            None => {},
        }
    }
}

/// A window whose two ends are the same place is empty: where `before` and
/// `until` are one transaction that `tx` knows, the rows of the slots
/// between them give an empty history.
pub proof fn lemma_shut_window_is_empty(
    window: Window,
    prefix_len: nat,
    limit: nat,
    rows: Seq<(String, RowData)>,
)
    requires
        window.before == window.until,
        !window.before.fallback,
        forall|i: int|
            0 <= i < rows.len() ==> match row_slot((#[trigger] rows[i]).0@, prefix_len) {
                Some(slot) => window.until.slot <= slot <= window.before.slot,
                None => true,
            },
    ensures
        history(window, prefix_len, limit, rows) matches Ok(items) ==> items.len() == 0,
    decreases rows.len(),
{
    if rows.len() > 0 {
        let shorter = rows.drop_last();
        assert forall|i: int| 0 <= i < shorter.len() implies match row_slot(
            (#[trigger] shorter[i]).0@,
            prefix_len,
        ) {
            Some(slot) => window.until.slot <= slot <= window.before.slot,
            None => true,
        } by {
            assert(shorter[i] == rows[i]);
        }
        lemma_shut_window_is_empty(window, prefix_len, limit, shorter);
        assert(rows.last() == rows[rows.len() - 1]);
        match row_slot(rows.last().0@, prefix_len) {
            Some(slot) => match entries_of_row(rows.last().0@, rows.last().1@) {
                Ok(entries) => {
                    lemma_row_items_of_shut_window(window, slot, entries);
                },
                Err(_) => {},
            },
            None => {},
        }
    }
}

} // verus!
