//! The rows of the `tx-by-addr` table that a block gives: for each address
//! that its transactions touch, the list of those transactions.

use prost::Message;
use vstd::prelude::*;
use vstd::string::*;

use crate::block::VersionedConfirmedBlock;
use crate::cell::RowKey;
use crate::config::{filter_passes, passes, UploaderConfig};
use crate::instruction::{CompiledInstruction, CompiledInstructionView};
use crate::seqs::{lemma_views_push, views};
use crate::key::{slot_to_tx_by_addr_key, tx_by_addr_slot_key, Slot};
use crate::text::{pubkey_text, pubkey_to_string};
use crate::transaction::VersionedTransactionWithStatusMeta;
use crate::tx_utils::{
    account_keys_of, failed, get_account_keys, is_error_tx, is_program_account, is_voting_tx,
    program_account, votes,
};
use crate::types::{
    copy_err, copy_text, err_view, same_key, text_view, LegacyTransactionByAddrInfo, Pubkey,
    TransactionByAddrInfo, TransactionByAddrInfoView, TransactionError,
};

verus! {

/// Whether an address is that of a system variable, as
/// `solana_sysvar::is_sysvar_id` tells.
pub uninterp spec fn sysvar_key(key: Seq<u8>) -> bool;

/// Asks `solana_sysvar::is_sysvar_id` whether an address is that of a
/// system variable.
#[verifier::external_body]
#[allow(deprecated)]
fn is_sysvar_id(key: &Pubkey) -> (is_sysvar: bool)
    ensures
        is_sysvar == sysvar_key(key@),
{
    solana_sysvar::is_sysvar_id(&solana_pubkey::Pubkey::new_from_array(*key))
}

/// The memo that `solana_transaction_status::extract_and_fmt_memos` finds in
/// a message with the given account keys and instructions: the data of the
/// instructions that run a memo program, each behind its length, joined by
/// a semicolon and a blank. `None` where no instruction runs a memo
/// program.
pub uninterp spec fn memo_text(keys: Seq<Pubkey>, instructions: Seq<CompiledInstructionView>) -> Option<
    Seq<char>,
>;

/// The entries that `prost` and `solana_storage_proto` read from the
/// protobuf form of a row of `tx-by-addr`; `None` where they read none.
pub uninterp spec fn proto_entries(bytes: Seq<u8>) -> Option<Seq<TransactionByAddrInfoView>>;

/// The protobuf form that `solana_storage_proto` and `prost` write for the
/// entries of a row of `tx-by-addr`; `None` where an entry holds a failure
/// that is none.
pub uninterp spec fn entries_proto(entries: Seq<TransactionByAddrInfoView>) -> Option<Seq<u8>>;

/// The entries that `bincode` reads from the legacy binary form of a row
/// of `tx-by-addr`: for each entry its signature, its failure, its place
/// and its memo. `None` where it reads none.
pub uninterp spec fn legacy_entries(bytes: Seq<u8>) -> Option<
    Seq<(crate::types::Signature, Option<Seq<u8>>, u32, Option<Seq<char>>)>,
>;

/// Asks `solana_transaction_status::extract_and_fmt_memos` for the memo of
/// a message with the given account keys and instructions.
#[verifier::external_body]
fn extract_memo(keys: &Vec<Pubkey>, instructions: &Vec<CompiledInstruction>) -> (memo: Option<
    String,
>)
    ensures
        memo_text(keys@, views(instructions@)) == text_view(memo),
{
    let account_keys = keys.iter().map(|k| solana_pubkey::Pubkey::new_from_array(*k)).collect();
    let mut list = Vec::new();
    for i in instructions.iter() {
        let (program_id_index, accounts, data) = (i.program_id_index, i.accounts.clone(), i.data.clone());
        list.push(solana_message::compiled_instruction::CompiledInstruction { program_id_index, accounts, data });
    }
    let message = solana_message::Message { account_keys, instructions: list, ..Default::default() };
    solana_transaction_status::extract_and_fmt_memos(&message)
}

/// Reads the protobuf form of a row with `prost` and turns it into entries
/// with `solana_storage_proto`; each failure is written as `bincode` writes
/// it.
#[verifier::external_body]
fn decode_proto_entries(bytes: &[u8]) -> (entries: Option<Vec<TransactionByAddrInfo>>)
    ensures
        proto_entries(bytes@) == match entries {
            Some(e) => Some(views(e@)),
            None => None,
        },
{
    let row = solana_storage_proto::convert::tx_by_addr::TransactionByAddr::decode(bytes).ok()?;
    let infos: Vec<solana_transaction_status::TransactionByAddrInfo> = row.try_into().ok()?;
    let mut entries = Vec::new();
    for i in infos {
        let encoded = i.err.map(|e| bincode::serialize(&e)).transpose().ok()?;
        let err = encoded.map(|encoded| TransactionError { encoded });
        let (signature, index, memo, block_time) = (i.signature.into(), i.index, i.memo, i.block_time);
        entries.push(TransactionByAddrInfo { signature, err, index, memo, block_time });
    }
    Some(entries)
}

/// Turns entries into the protobuf form of a row with
/// `solana_storage_proto` and writes it with `prost`; each failure is read
/// as `bincode` reads it.
#[verifier::external_body]
fn encode_proto_entries(entries: &Vec<TransactionByAddrInfo>) -> (bytes: Option<Vec<u8>>)
    ensures
        entries_proto(views(entries@)) == match bytes {
            Some(b) => Some(b@),
            None => None,
        },
{
    let mut tx_by_addrs = Vec::new();
    for e in entries.iter() {
        let err = e.err.as_ref().map(|x| bincode::deserialize(&x.encoded)).transpose().ok()?;
        let (signature, index, memo, block_time) = (e.signature.into(), e.index, e.memo.clone(), e.block_time);
        let info = solana_transaction_status::TransactionByAddrInfo { signature, err, index, memo, block_time };
        tx_by_addrs.push(info.into());
    }
    Some(solana_storage_proto::convert::tx_by_addr::TransactionByAddr { tx_by_addrs }.encode_to_vec())
}

/// Reads the legacy binary form of a row with `bincode`; each failure is
/// written again as `bincode` writes it.
#[verifier::external_body]
fn decode_legacy_entries(bytes: &[u8]) -> (entries: Option<Vec<LegacyTransactionByAddrInfo>>)
    ensures
        legacy_entries(bytes@) == match entries {
            Some(e) => Some(
                Seq::new(
                    e@.len(),
                    |i: int| (e@[i].signature, err_view(e@[i].err), e@[i].index, text_view(e@[i].memo)),
                ),
            ),
            None => None,
        },
{
    let infos = bincode::deserialize::<Vec<(solana_signature::Signature, Option<solana_transaction_error::TransactionError>, u32, Option<String>)>>(bytes).ok()?;
    let mut entries = Vec::new();
    for (signature, err, index, memo) in infos {
        let encoded = err.map(|e| bincode::serialize(&e)).transpose().ok()?;
        let err = encoded.map(|encoded| TransactionError { encoded });
        entries.push(LegacyTransactionByAddrInfo { signature: signature.into(), err, index, memo });
    }
    Some(entries)
}

/// The entry that an entry of the legacy form stands for.
pub open spec fn from_legacy_view(
    legacy: (crate::types::Signature, Option<Seq<u8>>, u32, Option<Seq<char>>),
) -> TransactionByAddrInfoView {
    TransactionByAddrInfoView {
        signature: legacy.0,
        err: legacy.1,
        index: legacy.2,
        memo: legacy.3,
        block_time: None,
    }
}

/// The entries that the bytes of a cell of `tx-by-addr` hold, in the
/// encoding of the cell. Entries of the legacy form have no block time.
pub open spec fn cell_entries(payload: crate::cell::CellData<Seq<u8>, Seq<u8>>) -> Option<
    Seq<TransactionByAddrInfoView>,
> {
    match payload {
        crate::cell::CellData::Protobuf(bytes) => proto_entries(bytes),
        crate::cell::CellData::Bincode(bytes) => match legacy_entries(bytes) {
            Some(list) => Some(Seq::new(list.len(), |i: int| from_legacy_view(list[i]))),
            None => None,
        },
    }
}

/// The entries that the bytes of a cell of `tx-by-addr` hold.
pub fn decode_entries(payload: &crate::cell::CellData<Vec<u8>, Vec<u8>>) -> (entries: Option<
    Vec<TransactionByAddrInfo>,
>)
    ensures
        cell_entries(crate::cell::payload_view(*payload)) == match entries {
            Some(e) => Some(views(e@)),
            None => None,
        },
{
    match payload {
        crate::cell::CellData::Protobuf(bytes) => decode_proto_entries(bytes.as_slice()),
        crate::cell::CellData::Bincode(bytes) => match decode_legacy_entries(bytes.as_slice()) {
            None => None,
            Some(list) => {
                let ghost all = list@;
                let ghost wanted = Seq::new(
                    all.len(),
                    |i: int|
                        from_legacy_view(
                            (
                                all[i].signature,
                                err_view(all[i].err),
                                all[i].index,
                                text_view(all[i].memo),
                            ),
                        ),
                );
                let mut rest = crate::seqs::reversed(list);
                let mut out: Vec<TransactionByAddrInfo> = Vec::new();
                assert(views(out@) =~= wanted.subrange(0, 0));
                while rest.len() > 0
                    invariant
                        out@.len() + rest@.len() == all.len(),
                        rest@ == all.reverse().subrange(0, rest@.len() as int),
                        wanted == Seq::new(
                            all.len(),
                            |i: int|
                                from_legacy_view(
                                    (
                                        all[i].signature,
                                        err_view(all[i].err),
                                        all[i].index,
                                        text_view(all[i].memo),
                                    ),
                                ),
                        ),
                        views(out@) == wanted.subrange(0, out@.len() as int),
                    decreases rest.len(),
                {
                    let ghost n = out@.len() as int;
                    let legacy = rest.pop().unwrap();
                    proof {
                        assert(all.reverse()[all.len() - 1 - n] == all[n]);
                    }
                    let entry = TransactionByAddrInfo::from(legacy);
                    proof {
                        lemma_views_push(out@, entry);
                    }
                    out.push(entry);
                    assert(views(out@) =~= wanted.subrange(0, n + 1));
                    assert(rest@ =~= all.reverse().subrange(0, rest@.len() as int));
                }
                assert(wanted.subrange(0, all.len() as int) =~= wanted);
                Some(out)
            },
        },
    }
}

/// The protobuf form of the entries of a row of `tx-by-addr`.
pub fn encode_entries(entries: &Vec<TransactionByAddrInfo>) -> (bytes: Option<Vec<u8>>)
    ensures
        entries_proto(views(entries@)) == match bytes {
            Some(b) => Some(b@),
            None => None,
        },
{
    encode_proto_entries(entries)
}

/// All keys of a transaction: those that the message lists and those that
/// it loaded, writable ones first.
pub open spec fn all_keys_of(tx: VersionedTransactionWithStatusMeta) -> Seq<Pubkey> {
    tx.transaction.message.static_keys() + tx.meta.loaded_addresses.writable@
        + tx.meta.loaded_addresses.readonly@
}

/// The memo of a transaction.
pub open spec fn memo_of(tx: VersionedTransactionWithStatusMeta) -> Option<Seq<char>> {
    memo_text(all_keys_of(tx), views(tx.transaction.message.instruction_list()))
}

/// All keys of a transaction.
pub fn all_account_keys(tx: &VersionedTransactionWithStatusMeta) -> (keys: Vec<Pubkey>)
    ensures
        keys@ == all_keys_of(*tx),
{
    let mut keys: Vec<Pubkey> = Vec::new();
    let static_keys = tx.transaction.message.static_account_keys();
    let writable = &tx.meta.loaded_addresses.writable;
    let readonly = &tx.meta.loaded_addresses.readonly;
    let mut i: usize = 0;
    while i < static_keys.len()
        invariant
            i <= static_keys.len(),
            keys@ == static_keys@.subrange(0, i as int),
        decreases static_keys.len() - i,
    {
        keys.push(static_keys[i]);
        assert(keys@ =~= static_keys@.subrange(0, i + 1));
        i = i + 1;
    }
    assert(static_keys@.subrange(0, static_keys@.len() as int) =~= static_keys@);
    let mut j: usize = 0;
    while j < writable.len()
        invariant
            j <= writable.len(),
            keys@ == static_keys@ + writable@.subrange(0, j as int),
        decreases writable.len() - j,
    {
        keys.push(writable[j]);
        assert(keys@ =~= static_keys@ + writable@.subrange(0, j + 1));
        j = j + 1;
    }
    assert(writable@.subrange(0, writable@.len() as int) =~= writable@);
    let mut k: usize = 0;
    while k < readonly.len()
        invariant
            k <= readonly.len(),
            keys@ == static_keys@ + writable@ + readonly@.subrange(0, k as int),
        decreases readonly.len() - k,
    {
        keys.push(readonly[k]);
        assert(keys@ =~= static_keys@ + writable@ + readonly@.subrange(0, k + 1));
        k = k + 1;
    }
    assert(readonly@.subrange(0, readonly@.len() as int) =~= readonly@);
    keys
}

/// The memo of a transaction: what its instructions hand to a memo
/// program, the program being looked up among all keys of the transaction.
pub fn extract_and_fmt_memos(tx: &VersionedTransactionWithStatusMeta) -> (memo: Option<String>)
    ensures
        text_view(memo) == memo_of(*tx),
{
    let keys = all_account_keys(tx);
    extract_memo(&keys, tx.transaction.message.instructions())
}

/// An address and the entries of the transactions that touch it.
pub type Group = (Pubkey, Seq<TransactionByAddrInfoView>);

/// An address and the entry of one transaction that touches it.
pub type Touch = (Pubkey, TransactionByAddrInfoView);

/// Whether `tx-by-addr` looks at an address of a transaction at all: it
/// passes over the programs that the transaction runs, if programs are
/// filtered out. The other tables are not touched by this.
pub open spec fn considered(
    config: UploaderConfig,
    tx: VersionedTransactionWithStatusMeta,
    address: Pubkey,
) -> bool {
    !(config.filter_program_accounts && program_account(address, tx, account_keys_of(tx)))
}

/// Whether the transaction is listed under the address in `tx-by-addr`.
pub open spec fn indexed(
    config: UploaderConfig,
    tx: VersionedTransactionWithStatusMeta,
    address: Pubkey,
) -> bool {
    considered(config, tx, address) && !sysvar_key(address@) && passes(
        config.tx_by_addr_filter,
        address,
    )
}

/// Whether the key at a place keeps the transaction out of `tx_full`: the
/// filter of `tx_full` does not let it pass.
pub open spec fn bars_full_at(
    config: UploaderConfig,
    tx: VersionedTransactionWithStatusMeta,
    place: int,
) -> bool {
    !passes(config.tx_full_filter, account_keys_of(tx)[place])
}

/// Whether the transaction is kept out of `tx-by-addr`: votes are, if
/// votes are filtered out.
pub open spec fn skips_by_addr(config: UploaderConfig, tx: VersionedTransactionWithStatusMeta) -> bool {
    config.filter_voting_tx && votes(tx)
}

/// Whether the transaction is kept out of `tx_full`: votes and failures
/// are, if they are filtered out, and transactions with a key that the
/// filter of `tx_full` does not let pass.
pub open spec fn skips_full(config: UploaderConfig, tx: VersionedTransactionWithStatusMeta) -> bool {
    ||| skips_by_addr(config, tx)
    ||| config.filter_error_tx && failed(tx)
    ||| exists|place: int|
        0 <= place < account_keys_of(tx).len() && #[trigger] bars_full_at(config, tx, place)
}

/// The filter for programs bears on `tx-by-addr` only: whether a
/// transaction is kept out of `tx_full` does not depend on it.
pub proof fn lemma_program_filter_leaves_tx_full(
    config: UploaderConfig,
    other: UploaderConfig,
    tx: VersionedTransactionWithStatusMeta,
)
    requires
        other.tx_full_filter == config.tx_full_filter,
        other.filter_voting_tx == config.filter_voting_tx,
        other.filter_error_tx == config.filter_error_tx,
    ensures
        skips_full(other, tx) == skips_full(config, tx),
{
    if exists|place: int|
        0 <= place < account_keys_of(tx).len() && #[trigger] bars_full_at(config, tx, place) {
        let place = choose|place: int|
            0 <= place < account_keys_of(tx).len() && #[trigger] bars_full_at(config, tx, place);
        assert(bars_full_at(other, tx, place));
    }
    if exists|place: int|
        0 <= place < account_keys_of(tx).len() && #[trigger] bars_full_at(other, tx, place) {
        let place = choose|place: int|
            0 <= place < account_keys_of(tx).len() && #[trigger] bars_full_at(other, tx, place);
        assert(bars_full_at(config, tx, place));
    }
}

/// The touches of a transaction among its first `n` keys, in the order of
/// the keys.
pub open spec fn touches_among(
    config: UploaderConfig,
    tx: VersionedTransactionWithStatusMeta,
    entry: TransactionByAddrInfoView,
    n: nat,
) -> Seq<Touch>
    decreases n,
{
    if n == 0 {
        Seq::empty()
    } else {
        let before = touches_among(config, tx, entry, (n - 1) as nat);
        let address = account_keys_of(tx)[n - 1];
        if indexed(config, tx, address) {
            before.push((address, entry))
        } else {
            before
        }
    }
}

/// The touches of a transaction.
pub open spec fn touches_of(
    config: UploaderConfig,
    tx: VersionedTransactionWithStatusMeta,
    entry: TransactionByAddrInfoView,
) -> Seq<Touch> {
    if skips_by_addr(config, tx) {
        Seq::empty()
    } else {
        touches_among(config, tx, entry, account_keys_of(tx).len())
    }
}

/// The entry of the transaction at a place of a block.
pub open spec fn entry_at(block: VersionedConfirmedBlock, place: int) -> TransactionByAddrInfoView {
    TransactionByAddrInfoView {
        signature: block.transactions@[place].transaction.signatures@[0],
        err: err_view(block.transactions@[place].meta.err),
        index: place as u32,
        memo: memo_of(block.transactions@[place]),
        block_time: block.block_time,
    }
}

/// The touches of the first `n` transactions of a block, in order.
pub open spec fn block_touches(config: UploaderConfig, block: VersionedConfirmedBlock, n: nat) -> Seq<
    Touch,
>
    decreases n,
{
    if n == 0 {
        Seq::empty()
    } else {
        block_touches(config, block, (n - 1) as nat) + touches_of(
            config,
            block.transactions@[n - 1],
            entry_at(block, n - 1),
        )
    }
}

/// The place of the group of an address: the first group with that address.
pub open spec fn group_place(groups: Seq<Group>, address: Pubkey) -> Option<int>
    decreases groups.len(),
{
    if groups.len() == 0 {
        None
    } else if groups[0].0 == address {
        Some(0)
    } else {
        match group_place(groups.drop_first(), address) {
            Some(i) => Some(i + 1),
            None => None,
        }
    }
}

/// The groups with one more touch: the entry goes to the end of the group
/// of its address, or into a new group behind the others.
pub open spec fn with_touch(groups: Seq<Group>, touch: Touch) -> Seq<Group> {
    match group_place(groups, touch.0) {
        Some(i) => groups.update(i, (touch.0, groups[i].1.push(touch.1))),
        None => groups.push((touch.0, seq![touch.1])),
    }
}

/// The groups with more touches, taken in order.
pub open spec fn with_touches(groups: Seq<Group>, touches: Seq<Touch>) -> Seq<Group>
    decreases touches.len(),
{
    if touches.len() == 0 {
        groups
    } else {
        with_touch(with_touches(groups, touches.drop_last()), touches.last())
    }
}

/// The touches grouped by address: the groups in the order in which their
/// addresses are first touched, the entries of a group in the order of the
/// touches.
pub open spec fn grouped(touches: Seq<Touch>) -> Seq<Group> {
    with_touches(Seq::empty(), touches)
}

/// The row key of an address and a slot in `tx-by-addr`: the address, a
/// slash, the key of the complement of the slot.
pub open spec fn tx_by_addr_row_key(address: Pubkey, slot: Slot) -> Seq<char> {
    pubkey_text(address@) + seq!['/'] + tx_by_addr_slot_key(slot)
}

/// The rows of `tx-by-addr` that a block gives, as groups.
pub open spec fn block_groups(config: UploaderConfig, block: VersionedConfirmedBlock) -> Seq<Group> {
    grouped(block_touches(config, block, block.transactions@.len()))
}

/// Touches taken in two parts are taken in order.
pub proof fn lemma_with_touches_append(groups: Seq<Group>, first: Seq<Touch>, second: Seq<Touch>)
    ensures
        with_touches(groups, first + second) == with_touches(
            with_touches(groups, first),
            second,
        ),
    decreases second.len(),
{
    if second.len() == 0 {
        assert(first + second =~= first);
    } else {
        assert((first + second).drop_last() =~= first + second.drop_last());
        assert((first + second).last() == second.last());
        lemma_with_touches_append(groups, first, second.drop_last());
    }
}

/// The place of a group is that of the first group with the address.
pub proof fn lemma_group_place(groups: Seq<Group>, address: Pubkey, place: int)
    requires
        0 <= place <= groups.len(),
        forall|j: int| 0 <= j < place ==> (#[trigger] groups[j]).0 != address,
        place < groups.len() ==> groups[place].0 == address,
    ensures
        group_place(groups, address) == if place < groups.len() {
            Some(place)
        } else {
            None
        },
    decreases groups.len(),
{
    if groups.len() > 0 && place > 0 {
        let rest = groups.drop_first();
        assert forall|j: int| 0 <= j < place - 1 implies (#[trigger] rest[j]).0 != address by {
            assert(rest[j] == groups[j + 1]);
        }
        if place < groups.len() {
            assert(rest[place - 1] == groups[place]);
        }
        lemma_group_place(rest, address, place - 1);
    }
}

/// The groups that lists of addresses and of entries stand for.
pub open spec fn groups_of(
    addresses: Seq<Pubkey>,
    lists: Seq<Vec<TransactionByAddrInfo>>,
) -> Seq<Group> {
    Seq::new(addresses.len(), |i: int| (addresses[i], views(lists[i]@)))
}

/// The place of an address in a list, if it is there.
fn place_of(addresses: &Vec<Pubkey>, address: &Pubkey) -> (place: Option<usize>)
    ensures
        match place {
            Some(i) => i < addresses@.len() && addresses@[i as int] == *address && forall|j: int|
                0 <= j < i ==> addresses@[j] != *address,
            None => forall|j: int| 0 <= j < addresses@.len() ==> addresses@[j] != *address,
        },
{
    let mut i: usize = 0;
    while i < addresses.len()
        invariant
            i <= addresses.len(),
            forall|j: int| 0 <= j < i ==> addresses@[j] != *address,
        decreases addresses.len() - i,
    {
        if same_key(&addresses[i], address) {
            return Some(i);
        }
        i = i + 1;
    }
    None
}

/// Adds one touch to the groups.
pub fn add_touch(
    addresses: &mut Vec<Pubkey>,
    lists: &mut Vec<Vec<TransactionByAddrInfo>>,
    address: &Pubkey,
    entry: TransactionByAddrInfo,
)
    requires
        old(addresses)@.len() == old(lists)@.len(),
    ensures
        final(addresses)@.len() == final(lists)@.len(),
        groups_of(final(addresses)@, final(lists)@) == with_touch(
            groups_of(old(addresses)@, old(lists)@),
            (*address, entry@),
        ),
{
    let ghost before = groups_of(addresses@, lists@);
    let found = place_of(addresses, address);
    proof {
        let place = match found {
            Some(i) => i as int,
            None => before.len() as int,
        };
        lemma_group_place(before, *address, place);
    }
    match found {
        Some(i) => {
            let ghost old_lists = lists@;
            let mut list = lists.remove(i);
            proof {
                lemma_views_push(list@, entry);
            }
            list.push(entry);
            lists.insert(i, list);
            assert(groups_of(addresses@, lists@) =~= with_touch(before, (*address, entry@)));
        },
        None => {
            let mut list: Vec<TransactionByAddrInfo> = Vec::new();
            list.push(entry);
            assert(views(list@) =~= seq![entry@]);
            addresses.push(*address);
            lists.push(list);
            assert(groups_of(addresses@, lists@) =~= with_touch(before, (*address, entry@)));
        },
    }
}

/// Lists one transaction under the addresses that it touches, and tells
/// whether it is kept out of `tx_full`.
pub fn index_transaction(
    config: &UploaderConfig,
    tx: &VersionedTransactionWithStatusMeta,
    entry: &TransactionByAddrInfo,
    addresses: &mut Vec<Pubkey>,
    lists: &mut Vec<Vec<TransactionByAddrInfo>>,
) -> (skip_full: bool)
    requires
        old(addresses)@.len() == old(lists)@.len(),
    ensures
        final(addresses)@.len() == final(lists)@.len(),
        groups_of(final(addresses)@, final(lists)@) == with_touches(
            groups_of(old(addresses)@, old(lists)@),
            touches_of(*config, *tx, entry@),
        ),
        skip_full == skips_full(*config, *tx),
{
    let ghost start = groups_of(addresses@, lists@);
    let is_voting = is_voting_tx(tx);
    if config.filter_voting_tx && is_voting {
        return true;
    }
    let mut skip_full = config.filter_error_tx && is_error_tx(tx);
    let keys = get_account_keys(tx);
    let mut i: usize = 0;
    while i < keys.len()
        invariant
            i <= keys.len(),
            keys@ == account_keys_of(*tx),
            addresses@.len() == lists@.len(),
            groups_of(addresses@, lists@) == with_touches(
                start,
                touches_among(*config, *tx, entry@, i as nat),
            ),
            skip_full == (config.filter_error_tx && failed(*tx) || exists|place: int|
                0 <= place < i && #[trigger] bars_full_at(*config, *tx, place)),
        decreases keys.len() - i,
    {
        let address = &keys[i];
        let ghost before_touches = touches_among(*config, *tx, entry@, i as nat);
        if !filter_passes(&config.tx_full_filter, address) {
            assert(bars_full_at(*config, *tx, i as int));
            skip_full = true;
        } else {
            assert(!bars_full_at(*config, *tx, i as int));
        }
        let is_program = config.filter_program_accounts && is_program_account(
            address,
            tx,
            keys.as_slice(),
        );
        if !is_program && !is_sysvar_id(address) && filter_passes(
            &config.tx_by_addr_filter,
            address,
        ) {
            let touch = TransactionByAddrInfo {
                signature: entry.signature,
                err: copy_err(&entry.err),
                index: entry.index,
                memo: copy_text(&entry.memo),
                block_time: entry.block_time,
            };
            assert(touch@ == entry@);
            add_touch(addresses, lists, address, touch);
            proof {
                let after_touches = touches_among(*config, *tx, entry@, (i + 1) as nat);
                assert(after_touches.drop_last() =~= before_touches);
            }
        }
        i = i + 1;
    }
    skip_full
}

/// The row key of an address and a slot in `tx-by-addr`.
pub fn tx_by_addr_key(address: &Pubkey, slot: Slot) -> (key: RowKey)
    ensures
        key@ == tx_by_addr_row_key(*address, slot),
{
    proof {
        reveal_strlit("/");
    }
    let mut key = pubkey_to_string(address);
    key.append("/");
    let slot_key = slot_to_tx_by_addr_key(slot);
    key.append(slot_key.as_str());
    assert(key@ =~= tx_by_addr_row_key(*address, slot));
    key
}

} // verus!
