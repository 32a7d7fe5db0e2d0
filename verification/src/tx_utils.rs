//! What an upload and a reader ask of a transaction.

use vstd::prelude::*;

use crate::block::TransactionWithStatusMeta;
use crate::instruction::CompiledInstruction;
use crate::text::{parse_pubkey, pubkey_from_text};
use crate::transaction::{Transaction, VersionedTransactionWithStatusMeta};
use crate::types::{same_key, Pubkey};
use crate::versioned_message::VersionedMessage;

verus! {

/// Slots in an epoch.
pub const SLOTS_PER_EPOCH: u64 = 432_000;

/// The text of the address of the vote program.
pub const VOTE_PROGRAM: &'static str = "Vote111111111111111111111111111111111111111";

/// The keys that the instructions of a transaction count through: those
/// that the message lists and, for a version-0 message, those that it
/// loaded, writable ones first.
pub open spec fn account_keys_of(tx: VersionedTransactionWithStatusMeta) -> Seq<Pubkey> {
    match tx.transaction.message {
        VersionedMessage::V0(m) => m.account_keys@ + tx.meta.loaded_addresses.writable@
            + tx.meta.loaded_addresses.readonly@,
        VersionedMessage::Legacy(m) => m.account_keys@,
    }
}

/// Whether the message of the transaction lists the address.
pub open spec fn lists_key(tx: VersionedTransactionWithStatusMeta, address: Pubkey) -> bool {
    tx.transaction.message.static_keys().contains(address)
}

/// Whether the transaction is a vote: its message lists the vote program.
pub open spec fn votes(tx: VersionedTransactionWithStatusMeta) -> bool {
    match pubkey_from_text(VOTE_PROGRAM@) {
        Ok(vote) => lists_key(tx, vote),
        Err(_) => false,
    }
}

/// Whether the transaction failed.
pub open spec fn failed(tx: VersionedTransactionWithStatusMeta) -> bool {
    tx.meta.err is Some
}

/// Whether an instruction runs the program at the address, the program
/// being looked up among `keys`.
pub open spec fn runs_program(ix: CompiledInstruction, keys: Seq<Pubkey>, address: Pubkey) -> bool {
    ix.program_id_index < keys.len() && keys[ix.program_id_index as int] == address
}

/// Whether an instruction of the message runs the program at the address.
pub open spec fn used_in_outer(
    tx: VersionedTransactionWithStatusMeta,
    keys: Seq<Pubkey>,
    address: Pubkey,
) -> bool {
    exists|i: int|
        0 <= i < tx.transaction.message.instruction_list().len() && #[trigger] runs_program(
            tx.transaction.message.instruction_list()[i],
            keys,
            address,
        )
}

/// Whether an inner instruction of the transaction runs the program at the
/// address.
pub open spec fn used_in_inner(
    tx: VersionedTransactionWithStatusMeta,
    keys: Seq<Pubkey>,
    address: Pubkey,
) -> bool {
    match tx.meta.inner_instructions {
        None => false,
        Some(groups) => exists|g: int, i: int|
            0 <= g < groups@.len() && 0 <= i < groups@[g].instructions@.len()
                && #[trigger] runs_program(
                groups@[g].instructions@[i].instruction,
                keys,
                address,
            ),
    }
}

/// Whether the address is that of a program that the transaction runs.
pub open spec fn program_account(
    address: Pubkey,
    tx: VersionedTransactionWithStatusMeta,
    keys: Seq<Pubkey>,
) -> bool {
    used_in_outer(tx, keys, address) || used_in_inner(tx, keys, address)
}

/// The epoch of a slot.
pub fn calculate_epoch(slot: u64) -> (epoch: u64)
    ensures
        epoch == slot / SLOTS_PER_EPOCH,
{
    slot / SLOTS_PER_EPOCH
}

/// The keys that the instructions of a transaction count through.
pub fn get_account_keys(transaction_with_meta: &VersionedTransactionWithStatusMeta) -> (keys: Vec<
    Pubkey,
>)
    ensures
        keys@ == account_keys_of(*transaction_with_meta),
{
    let static_keys = transaction_with_meta.transaction.message.static_account_keys();
    let mut keys: Vec<Pubkey> = Vec::new();
    append_keys(&mut keys, static_keys);
    if transaction_with_meta.transaction.message.is_v0() {
        append_keys(&mut keys, &transaction_with_meta.meta.loaded_addresses.writable);
        append_keys(&mut keys, &transaction_with_meta.meta.loaded_addresses.readonly);
    }
    assert(keys@ =~= account_keys_of(*transaction_with_meta));
    keys
}

/// Appends copies of keys to a list.
fn append_keys(keys: &mut Vec<Pubkey>, more: &Vec<Pubkey>)
    ensures
        final(keys)@ == old(keys)@ + more@,
{
    let mut i: usize = 0;
    while i < more.len()
        invariant
            i <= more.len(),
            keys@ == old(keys)@ + more@.subrange(0, i as int),
        decreases more.len() - i,
    {
        keys.push(more[i]);
        assert(more@.subrange(0, i + 1) =~= more@.subrange(0, i as int).push(more@[i as int]));
        i = i + 1;
    }
    assert(more@.subrange(0, more.len() as int) =~= more@);
}

/// Whether the transaction failed.
pub fn is_error_tx(transaction_with_meta: &VersionedTransactionWithStatusMeta) -> (is_error:
    bool)
    ensures
        is_error == failed(*transaction_with_meta),
{
    transaction_with_meta.meta.err.is_some()
}

/// Whether a list holds an address.
pub fn key_in(keys: &Vec<Pubkey>, address: &Pubkey) -> (held: bool)
    ensures
        held == keys@.contains(*address),
{
    crate::config::holds_key(keys, address)
}

/// Whether the message of the transaction lists the address.
pub fn has_account(transaction_with_meta: &VersionedTransactionWithStatusMeta, address: &Pubkey) -> (held:
    bool)
    ensures
        held == lists_key(*transaction_with_meta, *address),
{
    key_in(transaction_with_meta.transaction.message.static_account_keys(), address)
}

/// Whether the message of a legacy transaction lists the address.
pub fn has_account_in_transaction(transaction: &Transaction, address: &Pubkey) -> (held: bool)
    ensures
        held == transaction.message.account_keys@.contains(*address),
{
    key_in(&transaction.message.account_keys, address)
}

/// Whether the transaction is a vote.
pub fn is_voting_tx(transaction_with_meta: &VersionedTransactionWithStatusMeta) -> (is_voting:
    bool)
    ensures
        is_voting == votes(*transaction_with_meta),
{
    match parse_pubkey(VOTE_PROGRAM) {
        Ok(vote) => has_account(transaction_with_meta, &vote),
        Err(_) => false,
    }
}

/// Whether an instruction runs the program at the address.
fn check_program_id(instruction: &CompiledInstruction, account_keys: &[Pubkey], address: &Pubkey) -> (runs:
    bool)
    ensures
        runs == runs_program(*instruction, account_keys@, *address),
{
    let place = instruction.program_id_index as usize;
    if place < account_keys.len() {
        same_key(&account_keys[place], address)
    } else {
        false
    }
}

/// Whether the address is that of a program that the transaction runs, in
/// an instruction of its message or in an inner instruction. An instruction
/// whose program lies beyond the keys runs none of them.
pub fn is_program_account(
    address: &Pubkey,
    transaction_with_meta: &VersionedTransactionWithStatusMeta,
    combined_keys: &[Pubkey],
) -> (is_program: bool)
    ensures
        is_program == program_account(*address, *transaction_with_meta, combined_keys@),
{
    let instructions = transaction_with_meta.transaction.message.instructions();
    let mut i: usize = 0;
    while i < instructions.len()
        invariant
            i <= instructions.len(),
            instructions@ == transaction_with_meta.transaction.message.instruction_list(),
            forall|j: int|
                0 <= j < i ==> !#[trigger] runs_program(
                    instructions@[j],
                    combined_keys@,
                    *address,
                ),
        decreases instructions.len() - i,
    {
        if check_program_id(&instructions[i], combined_keys, address) {
            return true;
        }
        i = i + 1;
    }
    match &transaction_with_meta.meta.inner_instructions {
        None => false,
        Some(groups) => {
            let mut g: usize = 0;
            while g < groups.len()
                invariant
                    g <= groups.len(),
                    transaction_with_meta.meta.inner_instructions == Some(*groups),
                    !used_in_outer(*transaction_with_meta, combined_keys@, *address),
                    forall|h: int, j: int|
                        0 <= h < g && 0 <= j < groups@[h].instructions@.len()
                            ==> !#[trigger] runs_program(
                            groups@[h].instructions@[j].instruction,
                            combined_keys@,
                            *address,
                        ),
                decreases groups.len() - g,
            {
                let group = &groups[g];
                let mut k: usize = 0;
                while k < group.instructions.len()
                    invariant
                        k <= group.instructions.len(),
                        g < groups.len(),
                        *group == groups@[g as int],
                        transaction_with_meta.meta.inner_instructions == Some(*groups),
                        forall|j: int|
                            0 <= j < k ==> !#[trigger] runs_program(
                                group.instructions@[j].instruction,
                                combined_keys@,
                                *address,
                            ),
                    decreases group.instructions.len() - k,
                {
                    if check_program_id(&group.instructions[k].instruction, combined_keys, address) {
                        return true;
                    }
                    k = k + 1;
                }
                g = g + 1;
            }
            false
        },
    }
}

/// Whether a transaction of a block is a vote.
pub fn is_voting(transaction_with_status_meta: &TransactionWithStatusMeta) -> (is_voting: bool)
    ensures
        is_voting == match *transaction_with_status_meta {
            TransactionWithStatusMeta::MissingMetadata(t) => match pubkey_from_text(VOTE_PROGRAM@) {
                Ok(vote) => t.message.account_keys@.contains(vote),
                Err(_) => false,
            },
            TransactionWithStatusMeta::Complete(t) => votes(t),
        },
{
    match transaction_with_status_meta {
        TransactionWithStatusMeta::MissingMetadata(transaction) => match parse_pubkey(
            VOTE_PROGRAM,
        ) {
            Ok(vote) => has_account_in_transaction(transaction, &vote),
            Err(_) => false,
        },
        TransactionWithStatusMeta::Complete(complete) => is_voting_tx(complete),
    }
}

/// What kind a transaction is of, for the count of what was read.
#[derive(Clone, Copy, Debug, PartialEq, Eq, Structural)]
pub enum TransactionType {
    Voting,
    Error,
    Regular,
}

impl TransactionType {
    /// The name under which the kind is counted.
    pub fn name(&self) -> (name: &'static str)
        ensures
            name@ == match self {
                TransactionType::Voting => "voting"@,
                TransactionType::Error => "error"@,
                TransactionType::Regular => "regular"@,
            },
    {
        match self {
            TransactionType::Voting => "voting",
            TransactionType::Error => "error",
            TransactionType::Regular => "regular",
        }
    }
}

/// The kind of a transaction of a block: a vote, else a failure, else a
/// regular one. A transaction without metadata is no failure.
pub fn determine_transaction_type(transaction_with_status_meta: &TransactionWithStatusMeta) -> (kind:
    TransactionType)
    ensures
        kind == match *transaction_with_status_meta {
            TransactionWithStatusMeta::MissingMetadata(t) => match pubkey_from_text(VOTE_PROGRAM@) {
                Ok(vote) => if t.message.account_keys@.contains(vote) {
                    TransactionType::Voting
                } else {
                    TransactionType::Regular
                },
                Err(_) => TransactionType::Regular,
            },
            TransactionWithStatusMeta::Complete(t) => if votes(t) {
                TransactionType::Voting
            } else if failed(t) {
                TransactionType::Error
            } else {
                TransactionType::Regular
            },
        },
{
    if is_voting(transaction_with_status_meta) {
        TransactionType::Voting
    } else {
        match transaction_with_status_meta {
            TransactionWithStatusMeta::MissingMetadata(_) => TransactionType::Regular,
            TransactionWithStatusMeta::Complete(complete) => {
                if is_error_tx(complete) {
                    TransactionType::Error
                } else {
                    TransactionType::Regular
                }
            },
        }
    }
}

} // verus!
