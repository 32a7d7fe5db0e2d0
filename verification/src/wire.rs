//! Transactions and messages in the legacy binary form.
//!
//! A list is written as its length in one to three bytes, seven bits to a
//! byte, low bits first, and then its items. Keys, hashes and signatures are
//! written as their bytes. A legacy message starts with its header, whose
//! first byte is below 0x80; the message of a version starts with the byte
//! 0x80 plus the version.

use vstd::array::*;
use vstd::prelude::*;

use crate::address::{MessageAddressTableLookup, MessageAddressTableLookupView};
use crate::instruction::{CompiledInstruction, CompiledInstructionView};
use crate::seqs::{lemma_views_empty, lemma_views_push, views};
use crate::message::Message;
use crate::types::{Pubkey, Signature};
use crate::ui::MessageHeader;
use crate::versioned_message::{VersionedMessage, VersionedMessageView};

verus! {

/// Why bytes are no message.
#[derive(Clone, Copy, Debug, PartialEq, Eq, Structural)]
pub enum WireError {
    /// The bytes end early, or a length is not in its shortest form.
    Malformed,
    /// The first byte is 0xff, which marks a message that is signed off the
    /// chain and is never a transaction.
    OffChainMessage,
    /// The first byte names a version that is not known.
    UnsupportedVersion(u8),
}

/// The key whose bytes are given.
pub open spec fn key_of(bytes: Seq<u8>) -> Pubkey {
    choose|key: Pubkey| key@ == bytes
}

/// The signature whose bytes are given.
pub open spec fn signature_of(bytes: Seq<u8>) -> Signature {
    choose|signature: Signature| signature@ == bytes
}

/// The byte at a position, and the position behind it.
pub open spec fn byte_at(b: Seq<u8>, at: int) -> Option<(u8, int)> {
    if 0 <= at < b.len() {
        Some((b[at], at + 1))
    } else {
        None
    }
}

/// The length that is written at a position, and the position behind it.
/// A length takes one to three bytes; all but the last have the high bit
/// set, and the last is not zero unless it is the only one.
pub open spec fn short_len_at(b: Seq<u8>, at: int) -> Option<(int, int)> {
    if !(0 <= at < b.len()) {
        None
    } else if b[at] < 0x80 {
        Some((b[at] as int, at + 1))
    } else if !(at + 1 < b.len()) || b[at + 1] == 0 {
        None
    } else if b[at + 1] < 0x80 {
        Some(((b[at] - 0x80) + b[at + 1] * 0x80, at + 2))
    } else if !(at + 2 < b.len()) || b[at + 2] == 0 || b[at + 2] > 3 {
        None
    } else {
        Some(((b[at] - 0x80) + (b[at + 1] - 0x80) * 0x80 + b[at + 2] * 0x4000, at + 3))
    }
}

/// The `n` bytes at a position, and the position behind them.
pub open spec fn bytes_at(b: Seq<u8>, at: int, n: int) -> Option<(Seq<u8>, int)> {
    if 0 <= at && 0 <= n && at + n <= b.len() {
        Some((b.subrange(at, at + n), at + n))
    } else {
        None
    }
}

/// The list of bytes at a position.
pub open spec fn short_bytes_at(b: Seq<u8>, at: int) -> Option<(Seq<u8>, int)> {
    match short_len_at(b, at) {
        Some((n, mid)) => bytes_at(b, mid, n),
        None => None,
    }
}

/// The key at a position.
pub open spec fn key_at(b: Seq<u8>, at: int) -> Option<(Pubkey, int)> {
    match bytes_at(b, at, 32) {
        Some((bytes, next)) => Some((key_of(bytes), next)),
        None => None,
    }
}

/// The signature at a position.
pub open spec fn signature_at(b: Seq<u8>, at: int) -> Option<(Signature, int)> {
    match bytes_at(b, at, 64) {
        Some((bytes, next)) => Some((signature_of(bytes), next)),
        None => None,
    }
}

/// `n` items one behind the other, each read by `item`.
pub open spec fn items_at<T>(
    b: Seq<u8>,
    at: int,
    n: nat,
    item: spec_fn(Seq<u8>, int) -> Option<(T, int)>,
) -> Option<(Seq<T>, int)>
    decreases n,
{
    if n == 0 {
        Some((Seq::empty(), at))
    } else {
        match items_at(b, at, (n - 1) as nat, item) {
            Some((before, mid)) => match item(b, mid) {
                Some((last, next)) => Some((before.push(last), next)),
                None => None,
            },
            None => None,
        }
    }
}

/// A list of items at a position: its length, then the items.
pub open spec fn short_items_at<T>(
    b: Seq<u8>,
    at: int,
    item: spec_fn(Seq<u8>, int) -> Option<(T, int)>,
) -> Option<(Seq<T>, int)> {
    match short_len_at(b, at) {
        Some((n, mid)) => items_at(b, mid, n as nat, item),
        None => None,
    }
}

/// Reads a key.
pub open spec fn key_reader() -> spec_fn(Seq<u8>, int) -> Option<(Pubkey, int)> {
    |b: Seq<u8>, at: int| key_at(b, at)
}

/// Reads a signature.
pub open spec fn signature_reader() -> spec_fn(Seq<u8>, int) -> Option<(Signature, int)> {
    |b: Seq<u8>, at: int| signature_at(b, at)
}

/// Reads an instruction.
pub open spec fn instruction_reader() -> spec_fn(Seq<u8>, int) -> Option<
    (CompiledInstructionView, int),
> {
    |b: Seq<u8>, at: int| instruction_at(b, at)
}

/// Reads a lookup.
pub open spec fn lookup_reader() -> spec_fn(Seq<u8>, int) -> Option<
    (MessageAddressTableLookupView, int),
> {
    |b: Seq<u8>, at: int| lookup_at(b, at)
}

/// The instruction at a position: the place of the program, the accounts,
/// the data.
pub open spec fn instruction_at(b: Seq<u8>, at: int) -> Option<(CompiledInstructionView, int)> {
    match byte_at(b, at) {
        None => None,
        Some((program_id_index, at1)) => match short_bytes_at(b, at1) {
            None => None,
            Some((accounts, at2)) => match short_bytes_at(b, at2) {
                None => None,
                Some((data, at3)) => Some(
                    (CompiledInstructionView { program_id_index, accounts, data }, at3),
                ),
            },
        },
    }
}

/// The lookup at a position: the key of the table, the writable places,
/// the read-only places.
pub open spec fn lookup_at(b: Seq<u8>, at: int) -> Option<(MessageAddressTableLookupView, int)> {
    match key_at(b, at) {
        None => None,
        Some((account_key, at1)) => match short_bytes_at(b, at1) {
            None => None,
            Some((writable_indexes, at2)) => match short_bytes_at(b, at2) {
                None => None,
                Some((readonly_indexes, at3)) => Some(
                    (
                        MessageAddressTableLookupView {
                            account_key,
                            writable_indexes,
                            readonly_indexes,
                        },
                        at3,
                    ),
                ),
            },
        },
    }
}

/// What follows the first byte of a legacy message, with that byte given:
/// the rest of the header, the account keys, the block hash, the
/// instructions.
pub open spec fn legacy_body_at(b: Seq<u8>, at: int, num_required_signatures: u8) -> Option<
    (crate::message::MessageView, int),
> {
    match byte_at(b, at) {
        None => None,
        Some((num_readonly_signed_accounts, at1)) => match byte_at(b, at1) {
            None => None,
            Some((num_readonly_unsigned_accounts, at2)) => match short_items_at(
                b,
                at2,
                key_reader(),
            ) {
                None => None,
                Some((account_keys, at3)) => match key_at(b, at3) {
                    None => None,
                    Some((recent_blockhash, at4)) => match short_items_at(
                        b,
                        at4,
                        instruction_reader(),
                    ) {
                        None => None,
                        Some((instructions, at5)) => Some(
                            (
                                crate::message::MessageView {
                                    header: MessageHeader {
                                        num_required_signatures,
                                        num_readonly_signed_accounts,
                                        num_readonly_unsigned_accounts,
                                    },
                                    account_keys,
                                    recent_blockhash,
                                    instructions,
                                },
                                at5,
                            ),
                        ),
                    },
                },
            },
        },
    }
}

/// The legacy message at a position.
pub open spec fn legacy_message_at(b: Seq<u8>, at: int) -> Option<
    (crate::message::MessageView, int),
> {
    match byte_at(b, at) {
        None => None,
        Some((first, at1)) => legacy_body_at(b, at1, first),
    }
}

/// The version-0 message at a position, behind its prefix byte: a legacy
/// message, then the lookups.
pub open spec fn v0_message_at(b: Seq<u8>, at: int) -> Option<
    (crate::message_v0::MessageView, int),
> {
    match legacy_message_at(b, at) {
        None => None,
        Some((m, at1)) => match short_items_at(b, at1, lookup_reader()) {
            None => None,
            Some((address_table_lookups, at2)) => Some(
                (
                    crate::message_v0::MessageView {
                        header: m.header,
                        account_keys: m.account_keys,
                        recent_blockhash: m.recent_blockhash,
                        instructions: m.instructions,
                        address_table_lookups,
                    },
                    at2,
                ),
            ),
        },
    }
}

/// The message of either form at a position. A first byte below 0x80 is the
/// first byte of a legacy header. A first byte of 0x80 starts a version-0
/// message; 0xff is refused as an off-chain message; any other is an
/// unknown version.
pub open spec fn versioned_message_at(b: Seq<u8>, at: int) -> Result<
    (VersionedMessageView, int),
    WireError,
> {
    match byte_at(b, at) {
        None => Err(WireError::Malformed),
        Some((first, at1)) => if first < 0x80 {
            match legacy_body_at(b, at1, first) {
                Some((m, next)) => Ok((VersionedMessageView::Legacy(m), next)),
                None => Err(WireError::Malformed),
            }
        } else if first == 0x80 {
            match v0_message_at(b, at1) {
                Some((m, next)) => Ok((VersionedMessageView::V0(m), next)),
                None => Err(WireError::Malformed),
            }
        } else if first == 0xff {
            Err(WireError::OffChainMessage)
        } else {
            Err(WireError::UnsupportedVersion((first - 0x80) as u8))
        },
    }
}

/// Reads a byte.
fn read_byte(bytes: &[u8], at: usize) -> (r: Option<(u8, usize)>)
    ensures
        byte_at(bytes@, at as int) == match r {
            Some((v, next)) => Some((v, next as int)),
            None => None,
        },
        r matches Some((_, next)) ==> next <= bytes.len(),
{
    if at < bytes.len() {
        Some((bytes[at], at + 1))
    } else {
        None
    }
}

/// Reads a length.
pub fn read_short_len(bytes: &[u8], at: usize) -> (r: Option<(usize, usize)>)
    ensures
        short_len_at(bytes@, at as int) == match r {
            Some((n, next)) => Some((n as int, next as int)),
            None => None,
        },
        r matches Some((n, next)) ==> next <= bytes.len() && n <= 0xffff,
{
    if at >= bytes.len() {
        return None;
    }
    let b0 = bytes[at];
    if b0 < 0x80 {
        return Some((b0 as usize, at + 1));
    }
    if at + 1 >= bytes.len() {
        return None;
    }
    let b1 = bytes[at + 1];
    if b1 == 0 {
        return None;
    }
    let low: usize = (b0 - 0x80) as usize;
    if b1 < 0x80 {
        return Some((low + (b1 as usize) * 0x80, at + 2));
    }
    if at + 2 >= bytes.len() {
        return None;
    }
    let b2 = bytes[at + 2];
    if b2 == 0 || b2 > 3 {
        return None;
    }
    Some((low + ((b1 - 0x80) as usize) * 0x80 + (b2 as usize) * 0x4000, at + 3))
}

/// Reads a list of bytes.
fn read_short_bytes(bytes: &[u8], at: usize) -> (r: Option<(Vec<u8>, usize)>)
    ensures
        short_bytes_at(bytes@, at as int) == match r {
            Some((v, next)) => Some((v@, next as int)),
            None => None,
        },
        r matches Some((_, next)) ==> next <= bytes.len(),
{
    match read_short_len(bytes, at) {
        None => None,
        Some((n, mid)) => {
            if n > bytes.len() - mid {
                return None;
            }
            let mut out: Vec<u8> = Vec::new();
            let mut i: usize = 0;
            while i < n
                invariant
                    i <= n,
                    mid + n <= bytes.len(),
                    out@ == bytes@.subrange(mid as int, mid + i),
                decreases n - i,
            {
                out.push(bytes[mid + i]);
                assert(bytes@.subrange(mid as int, mid + i + 1) =~= bytes@.subrange(
                    mid as int,
                    mid + i,
                ).push(bytes@[mid + i]));
                i = i + 1;
            }
            Some((out, mid + n))
        },
    }
}

/// Reads a key.
fn read_key(bytes: &[u8], at: usize) -> (r: Option<(Pubkey, usize)>)
    ensures
        key_at(bytes@, at as int) == match r {
            Some((k, next)) => Some((k, next as int)),
            None => None,
        },
        r matches Some((_, next)) ==> next <= bytes.len(),
{
    if at > bytes.len() || bytes.len() - at < 32 {
        return None;
    }
    let mut key: Pubkey = [0u8; 32];
    let mut i: usize = 0;
    while i < 32
        invariant
            i <= 32,
            at + 32 <= bytes.len(),
            key@.subrange(0, i as int) == bytes@.subrange(at as int, at + i),
        decreases 32 - i,
    {
        key[i] = bytes[at + i];
        assert(key@.subrange(0, i + 1) =~= bytes@.subrange(at as int, at + i + 1));
        i = i + 1;
    }
    proof {
        let wanted = bytes@.subrange(at as int, at + 32);
        assert(key@ =~= wanted);
        assert(key_of(wanted) =~= key);
    }
    Some((key, at + 32))
}

/// Reads a signature.
fn read_signature(bytes: &[u8], at: usize) -> (r: Option<(Signature, usize)>)
    ensures
        signature_at(bytes@, at as int) == match r {
            Some((s, next)) => Some((s, next as int)),
            None => None,
        },
        r matches Some((_, next)) ==> next <= bytes.len(),
{
    if at > bytes.len() || bytes.len() - at < 64 {
        return None;
    }
    let mut signature: Signature = [0u8; 64];
    let mut i: usize = 0;
    while i < 64
        invariant
            i <= 64,
            at + 64 <= bytes.len(),
            signature@.subrange(0, i as int) == bytes@.subrange(at as int, at + i),
        decreases 64 - i,
    {
        signature[i] = bytes[at + i];
        assert(signature@.subrange(0, i + 1) =~= bytes@.subrange(at as int, at + i + 1));
        i = i + 1;
    }
    proof {
        let wanted = bytes@.subrange(at as int, at + 64);
        assert(signature@ =~= wanted);
        assert(signature_of(wanted) =~= signature);
    }
    Some((signature, at + 64))
}

/// Where fewer items cannot be read, more cannot.
pub proof fn lemma_items_fail<T>(
    b: Seq<u8>,
    at: int,
    m: nat,
    n: nat,
    item: spec_fn(Seq<u8>, int) -> Option<(T, int)>,
)
    requires
        m <= n,
        items_at(b, at, m, item) is None,
    ensures
        items_at(b, at, n, item) is None,
    decreases n,
{
    if m < n {
        lemma_items_fail(b, at, m, (n - 1) as nat, item);
    }
}

/// Reads a list of keys.
fn read_keys(bytes: &[u8], at: usize) -> (r: Option<(Vec<Pubkey>, usize)>)
    ensures
        short_items_at(bytes@, at as int, key_reader()) == match r {
            Some((keys, next)) => Some((keys@, next as int)),
            None => None,
        },
        r matches Some((_, next)) ==> next <= bytes.len(),
{
    match read_short_len(bytes, at) {
        None => None,
        Some((n, mid)) => {
            let mut out: Vec<Pubkey> = Vec::new();
            let mut pos: usize = mid;
            let mut i: usize = 0;
            while i < n
                invariant
                    i <= n,
                    pos <= bytes.len(),
                    short_len_at(bytes@, at as int) == Some((n as int, mid as int)),
                    items_at(bytes@, mid as int, i as nat, key_reader()) == Some(
                        (out@, pos as int),
                    ),
                decreases n - i,
            {
                match read_key(bytes, pos) {
                    Some((key, next)) => {
                        out.push(key);
                        pos = next;
                    },
                    None => {
                        proof {
                            assert(items_at(bytes@, mid as int, (i + 1) as nat, key_reader())
                                is None);
                            lemma_items_fail(
                                bytes@,
                                mid as int,
                                (i + 1) as nat,
                                n as nat,
                                key_reader(),
                            );
                        }
                        return None;
                    },
                }
                i = i + 1;
            }
            Some((out, pos))
        },
    }
}

/// Reads a list of signatures.
pub fn read_signatures(bytes: &[u8], at: usize) -> (r: Option<(Vec<Signature>, usize)>)
    ensures
        short_items_at(bytes@, at as int, signature_reader()) == match r {
            Some((signatures, next)) => Some((signatures@, next as int)),
            None => None,
        },
        r matches Some((_, next)) ==> next <= bytes.len(),
{
    match read_short_len(bytes, at) {
        None => None,
        Some((n, mid)) => {
            let mut out: Vec<Signature> = Vec::new();
            let mut pos: usize = mid;
            let mut i: usize = 0;
            while i < n
                invariant
                    i <= n,
                    pos <= bytes.len(),
                    short_len_at(bytes@, at as int) == Some((n as int, mid as int)),
                    items_at(bytes@, mid as int, i as nat, signature_reader()) == Some(
                        (out@, pos as int),
                    ),
                decreases n - i,
            {
                match read_signature(bytes, pos) {
                    Some((signature, next)) => {
                        out.push(signature);
                        pos = next;
                    },
                    None => {
                        proof {
                            assert(items_at(
                                bytes@,
                                mid as int,
                                (i + 1) as nat,
                                signature_reader(),
                            ) is None);
                            lemma_items_fail(
                                bytes@,
                                mid as int,
                                (i + 1) as nat,
                                n as nat,
                                signature_reader(),
                            );
                        }
                        return None;
                    },
                }
                i = i + 1;
            }
            Some((out, pos))
        },
    }
}

/// Reads an instruction.
fn read_instruction(bytes: &[u8], at: usize) -> (r: Option<(CompiledInstruction, usize)>)
    ensures
        instruction_at(bytes@, at as int) == match r {
            Some((instruction, next)) => Some((instruction@, next as int)),
            None => None,
        },
        r matches Some((_, next)) ==> next <= bytes.len(),
{
    let (program_id_index, at1) = match read_byte(bytes, at) {
        Some(v) => v,
        None => {
            return None;
        },
    };
    let (accounts, at2) = match read_short_bytes(bytes, at1) {
        Some(v) => v,
        None => {
            return None;
        },
    };
    let (data, at3) = match read_short_bytes(bytes, at2) {
        Some(v) => v,
        None => {
            return None;
        },
    };
    Some((CompiledInstruction { program_id_index, accounts, data }, at3))
}

/// Reads a lookup.
fn read_lookup(bytes: &[u8], at: usize) -> (r: Option<(MessageAddressTableLookup, usize)>)
    ensures
        lookup_at(bytes@, at as int) == match r {
            Some((lookup, next)) => Some((lookup@, next as int)),
            None => None,
        },
        r matches Some((_, next)) ==> next <= bytes.len(),
{
    let (account_key, at1) = match read_key(bytes, at) {
        Some(v) => v,
        None => {
            return None;
        },
    };
    let (writable_indexes, at2) = match read_short_bytes(bytes, at1) {
        Some(v) => v,
        None => {
            return None;
        },
    };
    let (readonly_indexes, at3) = match read_short_bytes(bytes, at2) {
        Some(v) => v,
        None => {
            return None;
        },
    };
    Some((MessageAddressTableLookup { account_key, writable_indexes, readonly_indexes }, at3))
}

/// Reads a list of instructions.
fn read_instructions(bytes: &[u8], at: usize) -> (r: Option<(Vec<CompiledInstruction>, usize)>)
    ensures
        short_items_at(bytes@, at as int, instruction_reader()) == match r {
            Some((list, next)) => Some((views(list@), next as int)),
            None => None,
        },
        r matches Some((_, next)) ==> next <= bytes.len(),
{
    match read_short_len(bytes, at) {
        None => None,
        Some((n, mid)) => {
            let mut out: Vec<CompiledInstruction> = Vec::new();
            let mut pos: usize = mid;
            let mut i: usize = 0;
            proof {
                lemma_views_empty::<CompiledInstruction>();
            }
            while i < n
                invariant
                    i <= n,
                    pos <= bytes.len(),
                    short_len_at(bytes@, at as int) == Some((n as int, mid as int)),
                    items_at(bytes@, mid as int, i as nat, instruction_reader()) == Some(
                        (views(out@), pos as int),
                    ),
                decreases n - i,
            {
                match read_instruction(bytes, pos) {
                    Some((instruction, next)) => {
                        proof {
                            lemma_views_push(out@, instruction);
                        }
                        out.push(instruction);
                        pos = next;
                    },
                    None => {
                        proof {
                            assert(items_at(
                                bytes@,
                                mid as int,
                                (i + 1) as nat,
                                instruction_reader(),
                            ) is None);
                            lemma_items_fail(
                                bytes@,
                                mid as int,
                                (i + 1) as nat,
                                n as nat,
                                instruction_reader(),
                            );
                        }
                        return None;
                    },
                }
                i = i + 1;
            }
            Some((out, pos))
        },
    }
}

/// Reads a list of lookups.
fn read_lookups(bytes: &[u8], at: usize) -> (r: Option<(Vec<MessageAddressTableLookup>, usize)>)
    ensures
        short_items_at(bytes@, at as int, lookup_reader()) == match r {
            Some((list, next)) => Some((views(list@), next as int)),
            None => None,
        },
        r matches Some((_, next)) ==> next <= bytes.len(),
{
    match read_short_len(bytes, at) {
        None => None,
        Some((n, mid)) => {
            let mut out: Vec<MessageAddressTableLookup> = Vec::new();
            let mut pos: usize = mid;
            let mut i: usize = 0;
            proof {
                lemma_views_empty::<MessageAddressTableLookup>();
            }
            while i < n
                invariant
                    i <= n,
                    pos <= bytes.len(),
                    short_len_at(bytes@, at as int) == Some((n as int, mid as int)),
                    items_at(bytes@, mid as int, i as nat, lookup_reader()) == Some(
                        (views(out@), pos as int),
                    ),
                decreases n - i,
            {
                match read_lookup(bytes, pos) {
                    Some((lookup, next)) => {
                        proof {
                            lemma_views_push(out@, lookup);
                        }
                        out.push(lookup);
                        pos = next;
                    },
                    None => {
                        proof {
                            assert(items_at(bytes@, mid as int, (i + 1) as nat, lookup_reader())
                                is None);
                            lemma_items_fail(
                                bytes@,
                                mid as int,
                                (i + 1) as nat,
                                n as nat,
                                lookup_reader(),
                            );
                        }
                        return None;
                    },
                }
                i = i + 1;
            }
            Some((out, pos))
        },
    }
}

/// Reads what follows the first byte of a legacy message.
fn read_legacy_body(bytes: &[u8], at: usize, num_required_signatures: u8) -> (r: Option<
    (Message, usize),
>)
    ensures
        legacy_body_at(bytes@, at as int, num_required_signatures) == match r {
            Some((m, next)) => Some((m@, next as int)),
            None => None,
        },
        r matches Some((_, next)) ==> next <= bytes.len(),
{
    let (num_readonly_signed_accounts, at1) = match read_byte(bytes, at) {
        Some(v) => v,
        None => {
            return None;
        },
    };
    let (num_readonly_unsigned_accounts, at2) = match read_byte(bytes, at1) {
        Some(v) => v,
        None => {
            return None;
        },
    };
    let (account_keys, at3) = match read_keys(bytes, at2) {
        Some(v) => v,
        None => {
            return None;
        },
    };
    let (recent_blockhash, at4) = match read_key(bytes, at3) {
        Some(v) => v,
        None => {
            return None;
        },
    };
    let (instructions, at5) = match read_instructions(bytes, at4) {
        Some(v) => v,
        None => {
            return None;
        },
    };
    Some(
        (
            Message {
                header: MessageHeader {
                    num_required_signatures,
                    num_readonly_signed_accounts,
                    num_readonly_unsigned_accounts,
                },
                account_keys,
                recent_blockhash,
                instructions,
            },
            at5,
        ),
    )
}

/// Reads a legacy message.
pub fn read_legacy_message(bytes: &[u8], at: usize) -> (r: Option<(Message, usize)>)
    ensures
        legacy_message_at(bytes@, at as int) == match r {
            Some((m, next)) => Some((m@, next as int)),
            None => None,
        },
        r matches Some((_, next)) ==> next <= bytes.len(),
{
    match read_byte(bytes, at) {
        Some((first, at1)) => read_legacy_body(bytes, at1, first),
        None => None,
    }
}

/// Reads a version-0 message behind its prefix byte.
fn read_v0_message(bytes: &[u8], at: usize) -> (r: Option<(crate::message_v0::Message, usize)>)
    ensures
        v0_message_at(bytes@, at as int) == match r {
            Some((m, next)) => Some((m@, next as int)),
            None => None,
        },
        r matches Some((_, next)) ==> next <= bytes.len(),
{
    let (m, at1) = match read_legacy_message(bytes, at) {
        Some(v) => v,
        None => {
            return None;
        },
    };
    let (address_table_lookups, at2) = match read_lookups(bytes, at1) {
        Some(v) => v,
        None => {
            return None;
        },
    };
    Some(
        (
            crate::message_v0::Message {
                header: m.header,
                account_keys: m.account_keys,
                recent_blockhash: m.recent_blockhash,
                instructions: m.instructions,
                address_table_lookups,
            },
            at2,
        ),
    )
}

/// Reads a message of either form.
pub fn read_versioned_message(bytes: &[u8], at: usize) -> (r: Result<
    (VersionedMessage, usize),
    WireError,
>)
    ensures
        versioned_message_at(bytes@, at as int) == match r {
            Ok((m, next)) => Ok::<(VersionedMessageView, int), WireError>((m@, next as int)),
            Err(e) => Err(e),
        },
        r matches Ok((_, next)) ==> next <= bytes.len(),
{
    let (first, at1) = match read_byte(bytes, at) {
        Some(v) => v,
        None => {
            return Err(WireError::Malformed);
        },
    };
    if first < 0x80 {
        match read_legacy_body(bytes, at1, first) {
            Some((m, next)) => Ok((VersionedMessage::Legacy(m), next)),
            None => Err(WireError::Malformed),
        }
    } else if first == 0x80 {
        match read_v0_message(bytes, at1) {
            Some((m, next)) => Ok((VersionedMessage::V0(m), next)),
            None => Err(WireError::Malformed),
        }
    } else if first == 0xff {
        Err(WireError::OffChainMessage)
    } else {
        Err(WireError::UnsupportedVersion(first - 0x80))
    }
}

/// The bytes of a length: one to three bytes, seven bits to a byte, low
/// bits first, every byte but the last with the high bit set.
pub open spec fn short_len_bytes(n: int) -> Seq<u8> {
    if n < 0x80 {
        seq![n as u8]
    } else if n < 0x4000 {
        seq![(n % 0x80 + 0x80) as u8, (n / 0x80) as u8]
    } else {
        seq![(n % 0x80 + 0x80) as u8, (n / 0x80 % 0x80 + 0x80) as u8, (n / 0x4000) as u8]
    }
}

/// The bytes of items one behind the other, each written by `item`.
pub open spec fn items_bytes<T>(items: Seq<T>, item: spec_fn(T) -> Seq<u8>) -> Seq<u8>
    decreases items.len(),
{
    if items.len() == 0 {
        Seq::empty()
    } else {
        items_bytes(items.drop_last(), item) + item(items.last())
    }
}

/// The bytes of a list: its length, then its items.
pub open spec fn short_items_bytes<T>(items: Seq<T>, item: spec_fn(T) -> Seq<u8>) -> Seq<u8> {
    short_len_bytes(items.len() as int) + items_bytes(items, item)
}

/// The bytes of a list of bytes.
pub open spec fn short_bytes(bytes: Seq<u8>) -> Seq<u8> {
    short_len_bytes(bytes.len() as int) + bytes
}

/// Writes a key.
pub open spec fn key_writer() -> spec_fn(Pubkey) -> Seq<u8> {
    |key: Pubkey| key@
}

/// Writes a signature.
pub open spec fn signature_writer() -> spec_fn(Signature) -> Seq<u8> {
    |signature: Signature| signature@
}

/// Writes an instruction.
pub open spec fn instruction_writer() -> spec_fn(CompiledInstructionView) -> Seq<u8> {
    |instruction: CompiledInstructionView| instruction_bytes(instruction)
}

/// Writes a lookup.
pub open spec fn lookup_writer() -> spec_fn(MessageAddressTableLookupView) -> Seq<u8> {
    |lookup: MessageAddressTableLookupView| lookup_bytes(lookup)
}

/// The bytes of an instruction.
pub open spec fn instruction_bytes(instruction: CompiledInstructionView) -> Seq<u8> {
    seq![instruction.program_id_index] + short_bytes(instruction.accounts) + short_bytes(
        instruction.data,
    )
}

/// The bytes of a lookup.
pub open spec fn lookup_bytes(lookup: MessageAddressTableLookupView) -> Seq<u8> {
    lookup.account_key@ + short_bytes(lookup.writable_indexes) + short_bytes(
        lookup.readonly_indexes,
    )
}

/// The bytes of a legacy message: the header, the account keys, the block
/// hash, the instructions.
pub open spec fn legacy_message_bytes(m: crate::message::MessageView) -> Seq<u8> {
    seq![
        m.header.num_required_signatures,
        m.header.num_readonly_signed_accounts,
        m.header.num_readonly_unsigned_accounts,
    ] + short_items_bytes(m.account_keys, key_writer()) + m.recent_blockhash@ + short_items_bytes(
        m.instructions,
        instruction_writer(),
    )
}

/// The bytes of a version-0 message without its prefix byte.
pub open spec fn v0_message_bytes(m: crate::message_v0::MessageView) -> Seq<u8> {
    legacy_message_bytes(
        crate::message::MessageView {
            header: m.header,
            account_keys: m.account_keys,
            recent_blockhash: m.recent_blockhash,
            instructions: m.instructions,
        },
    ) + short_items_bytes(m.address_table_lookups, lookup_writer())
}

/// The bytes of a message of either form: a legacy message as it is, a
/// version-0 message behind the byte 0x80.
pub open spec fn versioned_message_bytes(m: VersionedMessageView) -> Seq<u8> {
    match m {
        VersionedMessageView::Legacy(legacy) => legacy_message_bytes(legacy),
        VersionedMessageView::V0(v0) => seq![0x80u8] + v0_message_bytes(v0),
    }
}

/// Whether every list of an instruction is short enough to be written.
pub open spec fn instruction_fits(instruction: CompiledInstructionView) -> bool {
    instruction.accounts.len() <= 0xffff && instruction.data.len() <= 0xffff
}

/// Whether every list of a lookup is short enough to be written.
pub open spec fn lookup_fits(lookup: MessageAddressTableLookupView) -> bool {
    lookup.writable_indexes.len() <= 0xffff && lookup.readonly_indexes.len() <= 0xffff
}

/// Whether every list of a legacy message is short enough to be written.
pub open spec fn legacy_fits(m: crate::message::MessageView) -> bool {
    &&& m.account_keys.len() <= 0xffff
    &&& m.instructions.len() <= 0xffff
    &&& forall|i: int| 0 <= i < m.instructions.len() ==> instruction_fits(#[trigger] m.instructions[i])
}

/// Whether a message can be written: no list of it has more than 65535
/// items.
pub open spec fn message_fits(m: VersionedMessageView) -> bool {
    match m {
        VersionedMessageView::Legacy(legacy) => legacy_fits(legacy),
        VersionedMessageView::V0(v0) => {
            &&& legacy_fits(
                crate::message::MessageView {
                    header: v0.header,
                    account_keys: v0.account_keys,
                    recent_blockhash: v0.recent_blockhash,
                    instructions: v0.instructions,
                },
            )
            &&& v0.address_table_lookups.len() <= 0xffff
            &&& forall|i: int|
                0 <= i < v0.address_table_lookups.len() ==> lookup_fits(
                    #[trigger] v0.address_table_lookups[i],
                )
        },
    }
}

/// Writes a length, if it fits in 16 bits.
pub fn write_short_len(out: &mut Vec<u8>, n: usize) -> (ok: bool)
    ensures
        ok == (n <= 0xffff),
        ok ==> final(out)@ == old(out)@ + short_len_bytes(n as int),
        !ok ==> final(out)@ == old(out)@,
{
    if n > 0xffff {
        return false;
    }
    if n < 0x80 {
        out.push(n as u8);
    } else if n < 0x4000 {
        out.push((n % 0x80 + 0x80) as u8);
        out.push((n / 0x80) as u8);
    } else {
        out.push((n % 0x80 + 0x80) as u8);
        out.push((n / 0x80 % 0x80 + 0x80) as u8);
        out.push((n / 0x4000) as u8);
    }
    assert(out@ =~= old(out)@ + short_len_bytes(n as int));
    true
}

/// Writes a list of bytes, if it is short enough.
fn write_short_bytes(out: &mut Vec<u8>, bytes: &Vec<u8>) -> (ok: bool)
    ensures
        ok == (bytes@.len() <= 0xffff),
        ok ==> final(out)@ == old(out)@ + short_bytes(bytes@),
{
    if !write_short_len(out, bytes.len()) {
        return false;
    }
    crate::seqs::append_bytes(out, bytes.as_slice());
    assert(out@ =~= old(out)@ + short_bytes(bytes@));
    true
}

/// Writes a list of keys, if it is short enough.
fn write_keys(out: &mut Vec<u8>, keys: &Vec<Pubkey>) -> (ok: bool)
    ensures
        ok == (keys@.len() <= 0xffff),
        ok ==> final(out)@ == old(out)@ + short_items_bytes(keys@, key_writer()),
{
    if !write_short_len(out, keys.len()) {
        return false;
    }
    let ghost start = out@;
    let mut i: usize = 0;
    assert(keys@.subrange(0, 0) =~= Seq::<Pubkey>::empty());
    while i < keys.len()
        invariant
            i <= keys.len(),
            out@ == start + items_bytes(keys@.subrange(0, i as int), key_writer()),
        decreases keys.len() - i,
    {
        proof {
            let longer = keys@.subrange(0, i + 1);
            assert(longer.drop_last() =~= keys@.subrange(0, i as int));
            assert(longer.last() == keys@[i as int]);
        }
        crate::seqs::append_bytes(out, keys[i].as_slice());
        assert(out@ =~= start + items_bytes(keys@.subrange(0, i + 1), key_writer()));
        i = i + 1;
    }
    assert(keys@.subrange(0, keys.len() as int) =~= keys@);
    assert(out@ =~= old(out)@ + short_items_bytes(keys@, key_writer()));
    true
}

/// Writes a list of signatures, if it is short enough.
pub fn write_signatures(out: &mut Vec<u8>, signatures: &Vec<Signature>) -> (ok: bool)
    ensures
        ok == (signatures@.len() <= 0xffff),
        ok ==> final(out)@ == old(out)@ + short_items_bytes(signatures@, signature_writer()),
        !ok ==> final(out)@ == old(out)@,
{
    if !write_short_len(out, signatures.len()) {
        return false;
    }
    let ghost start = out@;
    let mut i: usize = 0;
    assert(signatures@.subrange(0, 0) =~= Seq::<Signature>::empty());
    while i < signatures.len()
        invariant
            i <= signatures.len(),
            out@ == start + items_bytes(signatures@.subrange(0, i as int), signature_writer()),
        decreases signatures.len() - i,
    {
        proof {
            let longer = signatures@.subrange(0, i + 1);
            assert(longer.drop_last() =~= signatures@.subrange(0, i as int));
            assert(longer.last() == signatures@[i as int]);
        }
        crate::seqs::append_bytes(out, signatures[i].as_slice());
        assert(out@ =~= start + items_bytes(signatures@.subrange(0, i + 1), signature_writer()));
        i = i + 1;
    }
    assert(signatures@.subrange(0, signatures.len() as int) =~= signatures@);
    assert(out@ =~= old(out)@ + short_items_bytes(signatures@, signature_writer()));
    true
}

/// Writes an instruction, if its lists are short enough.
fn write_instruction(out: &mut Vec<u8>, instruction: &CompiledInstruction) -> (ok: bool)
    ensures
        ok == instruction_fits(instruction@),
        ok ==> final(out)@ == old(out)@ + instruction_bytes(instruction@),
{
    out.push(instruction.program_id_index);
    if !write_short_bytes(out, &instruction.accounts) {
        return false;
    }
    if !write_short_bytes(out, &instruction.data) {
        return false;
    }
    assert(out@ =~= old(out)@ + instruction_bytes(instruction@));
    true
}

/// Writes a lookup, if its lists are short enough.
fn write_lookup(out: &mut Vec<u8>, lookup: &MessageAddressTableLookup) -> (ok: bool)
    ensures
        ok == lookup_fits(lookup@),
        ok ==> final(out)@ == old(out)@ + lookup_bytes(lookup@),
{
    crate::seqs::append_bytes(out, lookup.account_key.as_slice());
    if !write_short_bytes(out, &lookup.writable_indexes) {
        return false;
    }
    if !write_short_bytes(out, &lookup.readonly_indexes) {
        return false;
    }
    assert(out@ =~= old(out)@ + lookup_bytes(lookup@));
    true
}

/// Writes a list of instructions, if every list is short enough.
fn write_instructions(out: &mut Vec<u8>, instructions: &Vec<CompiledInstruction>) -> (ok: bool)
    ensures
        ok == (instructions@.len() <= 0xffff && forall|i: int|
            0 <= i < instructions@.len() ==> instruction_fits(#[trigger] views(instructions@)[i])),
        ok ==> final(out)@ == old(out)@ + short_items_bytes(
            views(instructions@),
            instruction_writer(),
        ),
{
    if !write_short_len(out, instructions.len()) {
        return false;
    }
    let ghost start = out@;
    let ghost all = views(instructions@);
    let mut i: usize = 0;
    assert(all.subrange(0, 0) =~= Seq::<CompiledInstructionView>::empty());
    while i < instructions.len()
        invariant
            i <= instructions.len(),
            all == views(instructions@),
            forall|j: int| 0 <= j < i ==> instruction_fits(#[trigger] all[j]),
            out@ == start + items_bytes(all.subrange(0, i as int), instruction_writer()),
        decreases instructions.len() - i,
    {
        proof {
            let longer = all.subrange(0, i + 1);
            assert(longer.drop_last() =~= all.subrange(0, i as int));
            assert(longer.last() == instructions@[i as int]@);
        }
        if !write_instruction(out, &instructions[i]) {
            assert(!instruction_fits(all[i as int]));
            return false;
        }
        assert(out@ =~= start + items_bytes(all.subrange(0, i + 1), instruction_writer()));
        i = i + 1;
    }
    assert(all.subrange(0, all.len() as int) =~= all);
    assert(out@ =~= old(out)@ + short_items_bytes(all, instruction_writer()));
    true
}

/// Writes a list of lookups, if every list is short enough.
fn write_lookups(out: &mut Vec<u8>, lookups: &Vec<MessageAddressTableLookup>) -> (ok: bool)
    ensures
        ok == (lookups@.len() <= 0xffff && forall|i: int|
            0 <= i < lookups@.len() ==> lookup_fits(#[trigger] views(lookups@)[i])),
        ok ==> final(out)@ == old(out)@ + short_items_bytes(views(lookups@), lookup_writer()),
{
    if !write_short_len(out, lookups.len()) {
        return false;
    }
    let ghost start = out@;
    let ghost all = views(lookups@);
    let mut i: usize = 0;
    assert(all.subrange(0, 0) =~= Seq::<MessageAddressTableLookupView>::empty());
    while i < lookups.len()
        invariant
            i <= lookups.len(),
            all == views(lookups@),
            forall|j: int| 0 <= j < i ==> lookup_fits(#[trigger] all[j]),
            out@ == start + items_bytes(all.subrange(0, i as int), lookup_writer()),
        decreases lookups.len() - i,
    {
        proof {
            let longer = all.subrange(0, i + 1);
            assert(longer.drop_last() =~= all.subrange(0, i as int));
            assert(longer.last() == lookups@[i as int]@);
        }
        if !write_lookup(out, &lookups[i]) {
            assert(!lookup_fits(all[i as int]));
            return false;
        }
        assert(out@ =~= start + items_bytes(all.subrange(0, i + 1), lookup_writer()));
        i = i + 1;
    }
    assert(all.subrange(0, all.len() as int) =~= all);
    assert(out@ =~= old(out)@ + short_items_bytes(all, lookup_writer()));
    true
}

/// Writes the parts that both forms of a message have.
fn write_message_parts(
    out: &mut Vec<u8>,
    header: &MessageHeader,
    account_keys: &Vec<Pubkey>,
    recent_blockhash: &crate::types::Hash,
    instructions: &Vec<CompiledInstruction>,
) -> (ok: bool)
    ensures
        ok == legacy_fits(
            crate::message::MessageView {
                header: *header,
                account_keys: account_keys@,
                recent_blockhash: *recent_blockhash,
                instructions: views(instructions@),
            },
        ),
        ok ==> final(out)@ == old(out)@ + legacy_message_bytes(
            crate::message::MessageView {
                header: *header,
                account_keys: account_keys@,
                recent_blockhash: *recent_blockhash,
                instructions: views(instructions@),
            },
        ),
{
    out.push(header.num_required_signatures);
    out.push(header.num_readonly_signed_accounts);
    out.push(header.num_readonly_unsigned_accounts);
    if !write_keys(out, account_keys) {
        return false;
    }
    crate::seqs::append_bytes(out, recent_blockhash.as_slice());
    if !write_instructions(out, instructions) {
        return false;
    }
    assert(out@ =~= old(out)@ + legacy_message_bytes(
        crate::message::MessageView {
            header: *header,
            account_keys: account_keys@,
            recent_blockhash: *recent_blockhash,
            instructions: views(instructions@),
        },
    ));
    true
}

impl VersionedMessage {
    /// Writes the message in the legacy binary form. A legacy message
    /// starts with the first byte of its header, the number of required
    /// signatures; a version-0 message starts with the byte 0x80. `None`
    /// where a list of the message has more than 65535 items.
    pub fn serialize(&self) -> (bytes: Option<Vec<u8>>)
        ensures
            bytes is Some <==> message_fits(self@),
            bytes matches Some(b) ==> b@ == versioned_message_bytes(self@) && b@.len() > 0 && b@[0]
                == (match self@ {
                VersionedMessageView::Legacy(m) => m.header.num_required_signatures,
                VersionedMessageView::V0(_) => 0x80u8,
            }),
    {
        let mut out: Vec<u8> = Vec::new();
        match self {
            VersionedMessage::Legacy(m) => {
                if !write_message_parts(
                    &mut out,
                    &m.header,
                    &m.account_keys,
                    &m.recent_blockhash,
                    &m.instructions,
                ) {
                    return None;
                }
                Some(out)
            },
            VersionedMessage::V0(m) => {
                out.push(0x80);
                if !write_message_parts(
                    &mut out,
                    &m.header,
                    &m.account_keys,
                    &m.recent_blockhash,
                    &m.instructions,
                ) {
                    return None;
                }
                if !write_lookups(&mut out, &m.address_table_lookups) {
                    return None;
                }
                assert(out@ =~= versioned_message_bytes(self@));
                Some(out)
            },
        }
    }

    /// Reads a message from the legacy binary form. Bytes behind the
    /// message are ignored.
    pub fn deserialize(bytes: &[u8]) -> (message: Result<VersionedMessage, WireError>)
        ensures
            match versioned_message_at(bytes@, 0) {
                Ok((m, _)) => message matches Ok(n) && n@ == m,
                Err(e) => message == Err::<VersionedMessage, WireError>(e),
            },
    {
        match read_versioned_message(bytes, 0) {
            Ok((message, _)) => Ok(message),
            Err(e) => Err(e),
        }
    }
}

/// A byte stream whose first byte has the high bit set is a message of
/// version 0 only if that byte is 0x80. The byte 0xff, which stands for
/// version 127, is refused as an off-chain message, and every other such
/// byte as an unknown version.
pub proof fn lemma_version_prefix(b: Seq<u8>)
    requires
        b.len() > 0,
        b[0] >= 0x80,
    ensures
        b[0] == 0xff ==> versioned_message_at(b, 0) == Err::<(VersionedMessageView, int), WireError>(
            WireError::OffChainMessage,
        ),
        b[0] != 0x80 ==> versioned_message_at(b, 0) is Err,
        versioned_message_at(b, 0) matches Ok((m, _)) ==> m is V0,
{
}

/// The first byte of a written message tells its form: a version-0
/// message starts with 0x80, a legacy message with the number of its
/// required signatures.
pub proof fn lemma_first_byte(m: VersionedMessageView)
    ensures
        versioned_message_bytes(m).len() > 0,
        versioned_message_bytes(m)[0] == (match m {
            VersionedMessageView::Legacy(legacy) => legacy.header.num_required_signatures,
            VersionedMessageView::V0(_) => 0x80u8,
        }),
{
}

} // verus!
