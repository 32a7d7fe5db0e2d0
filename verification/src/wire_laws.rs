//! What is written in the legacy binary form reads back as it was.

use vstd::prelude::*;

use crate::address::MessageAddressTableLookupView;
use crate::instruction::CompiledInstructionView;
use crate::types::{Pubkey, Signature};
use crate::ui::MessageHeader;
use crate::versioned_message::VersionedMessageView;
use crate::wire::{
    instruction_at, instruction_bytes, instruction_fits, instruction_reader, instruction_writer,
    items_at, items_bytes, key_at, key_of, key_reader, key_writer, legacy_fits,
    legacy_message_at, legacy_message_bytes, lookup_at, lookup_bytes, lookup_fits, lookup_reader,
    lookup_writer, message_fits, short_bytes, short_bytes_at, short_items_at, short_items_bytes,
    short_len_at, short_len_bytes, signature_at, signature_of, v0_message_at, v0_message_bytes,
    versioned_message_at, versioned_message_bytes, WireError,
};

verus! {

/// Whether a byte string holds the given bytes at a place.
pub open spec fn holds_at(b: Seq<u8>, at: int, x: Seq<u8>) -> bool {
    0 <= at && at + x.len() <= b.len() && b.subrange(at, at + x.len()) == x
}

/// What holds two parts one behind the other holds each of them.
pub proof fn lemma_holds_split(b: Seq<u8>, at: int, x: Seq<u8>, y: Seq<u8>)
    requires
        holds_at(b, at, x + y),
    ensures
        holds_at(b, at, x),
        holds_at(b, at + x.len(), y),
{
    let whole = b.subrange(at, at + (x + y).len());
    assert(b.subrange(at, at + x.len()) =~= whole.subrange(0, x.len() as int));
    assert(whole.subrange(0, x.len() as int) =~= x);
    assert(b.subrange(at + x.len(), at + x.len() + y.len()) =~= whole.subrange(
        x.len() as int,
        (x + y).len() as int,
    ));
    assert(whole.subrange(x.len() as int, (x + y).len() as int) =~= y);
}

/// A length reads back.
pub proof fn lemma_short_len_round_trip(b: Seq<u8>, at: int, n: int)
    requires
        0 <= n <= 0xffff,
        holds_at(b, at, short_len_bytes(n)),
    ensures
        short_len_at(b, at) == Some((n, at + short_len_bytes(n).len())),
{
    let x = short_len_bytes(n);
    let window = b.subrange(at, at + x.len());
    assert(forall|i: int| 0 <= i < x.len() ==> b[at + i] == #[trigger] window[i]);
    if n < 0x80 {
        assert(x[0] == n as u8);
        assert(b[at] == x[0]);
    } else if n < 0x4000 {
        assert(x[0] == (n % 0x80 + 0x80) as u8);
        assert(x[1] == (n / 0x80) as u8);
        assert(b[at] == x[0]);
        assert(b[at + 1] == x[1]);
    } else {
        assert(x[0] == (n % 0x80 + 0x80) as u8);
        assert(x[1] == (n / 0x80 % 0x80 + 0x80) as u8);
        assert(x[2] == (n / 0x4000) as u8);
        assert(b[at] == x[0]);
        assert(b[at + 1] == x[1]);
        assert(b[at + 2] == x[2]);
        assert(n / 0x80 == (n / 0x4000) * 0x80 + n / 0x80 % 0x80);
    }
}

/// A list of bytes reads back.
pub proof fn lemma_short_bytes_round_trip(b: Seq<u8>, at: int, x: Seq<u8>)
    requires
        x.len() <= 0xffff,
        holds_at(b, at, short_bytes(x)),
    ensures
        short_bytes_at(b, at) == Some((x, at + short_bytes(x).len())),
{
    lemma_holds_split(b, at, short_len_bytes(x.len() as int), x);
    lemma_short_len_round_trip(b, at, x.len() as int);
}

/// A key reads back.
pub proof fn lemma_pubkey_round_trip(b: Seq<u8>, at: int, key: Pubkey)
    requires
        holds_at(b, at, key@),
    ensures
        key_at(b, at) == Some((key, at + 32)),
        key@.len() == 32,
{
    assert(key_of(key@) =~= key);
}

/// A signature reads back.
pub proof fn lemma_signature_round_trip(b: Seq<u8>, at: int, signature: Signature)
    requires
        holds_at(b, at, signature@),
    ensures
        signature_at(b, at) == Some((signature, at + 64)),
        signature@.len() == 64,
{
    assert(signature_of(signature@) =~= signature);
}

/// Whether `read` reads back what `write` writes for an item, wherever it
/// stands.
pub open spec fn reads_back<T>(
    b: Seq<u8>,
    item: T,
    read: spec_fn(Seq<u8>, int) -> Option<(T, int)>,
    write: spec_fn(T) -> Seq<u8>,
) -> bool {
    forall|p: int| #[trigger]
        holds_at(b, p, write(item)) ==> read(b, p) == Some((item, p + write(item).len()))
}

/// Items read back one behind the other, if each reads back.
pub proof fn lemma_items_round_trip<T>(
    b: Seq<u8>,
    at: int,
    items: Seq<T>,
    read: spec_fn(Seq<u8>, int) -> Option<(T, int)>,
    write: spec_fn(T) -> Seq<u8>,
)
    requires
        holds_at(b, at, items_bytes(items, write)),
        forall|i: int| 0 <= i < items.len() ==> reads_back(b, #[trigger] items[i], read, write),
    ensures
        items_at(b, at, items.len(), read) == Some((items, at + items_bytes(items, write).len())),
    decreases items.len(),
{
    if items.len() > 0 {
        let before = items.drop_last();
        let last = items.last();
        lemma_holds_split(b, at, items_bytes(before, write), write(last));
        assert forall|i: int| 0 <= i < before.len() implies reads_back(
            b,
            #[trigger] before[i],
            read,
            write,
        ) by {
            assert(before[i] == items[i]);
        }
        lemma_items_round_trip(b, at, before, read, write);
        assert(reads_back(b, items[items.len() - 1], read, write));
        let mid = at + items_bytes(before, write).len();
        assert(holds_at(b, mid, write(last)));
        assert(before.push(last) =~= items);
    }
}

/// A list reads back, if each of its items reads back.
pub proof fn lemma_short_items_round_trip<T>(
    b: Seq<u8>,
    at: int,
    items: Seq<T>,
    read: spec_fn(Seq<u8>, int) -> Option<(T, int)>,
    write: spec_fn(T) -> Seq<u8>,
)
    requires
        items.len() <= 0xffff,
        holds_at(b, at, short_items_bytes(items, write)),
        forall|i: int| 0 <= i < items.len() ==> reads_back(b, #[trigger] items[i], read, write),
    ensures
        short_items_at(b, at, read) == Some((items, at + short_items_bytes(items, write).len())),
{
    lemma_holds_split(b, at, short_len_bytes(items.len() as int), items_bytes(items, write));
    lemma_short_len_round_trip(b, at, items.len() as int);
    lemma_items_round_trip(
        b,
        at + short_len_bytes(items.len() as int).len(),
        items,
        read,
        write,
    );
}

/// An instruction reads back.
pub proof fn lemma_instruction_round_trip(b: Seq<u8>, at: int, instruction: CompiledInstructionView)
    requires
        instruction_fits(instruction),
        holds_at(b, at, instruction_bytes(instruction)),
    ensures
        instruction_at(b, at) == Some((instruction, at + instruction_bytes(instruction).len())),
{
    let head = seq![instruction.program_id_index];
    let accounts = short_bytes(instruction.accounts);
    let data = short_bytes(instruction.data);
    assert(instruction_bytes(instruction) =~= head + (accounts + data));
    lemma_holds_split(b, at, head, accounts + data);
    lemma_holds_split(b, at + 1, accounts, data);
    assert(b[at] == b.subrange(at, at + 1)[0]);
    lemma_short_bytes_round_trip(b, at + 1, instruction.accounts);
    lemma_short_bytes_round_trip(b, at + 1 + accounts.len(), instruction.data);
}

/// A lookup reads back.
pub proof fn lemma_lookup_round_trip(b: Seq<u8>, at: int, lookup: MessageAddressTableLookupView)
    requires
        lookup_fits(lookup),
        holds_at(b, at, lookup_bytes(lookup)),
    ensures
        lookup_at(b, at) == Some((lookup, at + lookup_bytes(lookup).len())),
{
    let key = lookup.account_key@;
    let writable = short_bytes(lookup.writable_indexes);
    let readonly = short_bytes(lookup.readonly_indexes);
    assert(lookup_bytes(lookup) =~= key + (writable + readonly));
    lemma_holds_split(b, at, key, writable + readonly);
    lemma_holds_split(b, at + 32, writable, readonly);
    lemma_pubkey_round_trip(b, at, lookup.account_key);
    lemma_short_bytes_round_trip(b, at + 32, lookup.writable_indexes);
    lemma_short_bytes_round_trip(b, at + 32 + writable.len(), lookup.readonly_indexes);
}

/// A legacy message reads back.
pub proof fn lemma_legacy_round_trip(b: Seq<u8>, at: int, m: crate::message::MessageView)
    requires
        legacy_fits(m),
        holds_at(b, at, legacy_message_bytes(m)),
    ensures
        legacy_message_at(b, at) == Some((m, at + legacy_message_bytes(m).len())),
{
    let head = seq![
        m.header.num_required_signatures,
        m.header.num_readonly_signed_accounts,
        m.header.num_readonly_unsigned_accounts,
    ];
    let keys = short_items_bytes(m.account_keys, key_writer());
    let hash = m.recent_blockhash@;
    let instructions = short_items_bytes(m.instructions, instruction_writer());
    assert(legacy_message_bytes(m) =~= head + (keys + (hash + instructions)));
    lemma_holds_split(b, at, head, keys + (hash + instructions));
    lemma_holds_split(b, at + 3, keys, hash + instructions);
    lemma_holds_split(b, at + 3 + keys.len(), hash, instructions);
    let window = b.subrange(at, at + 3);
    assert(b[at] == window[0]);
    assert(b[at + 1] == window[1]);
    assert(b[at + 2] == window[2]);
    assert forall|i: int| 0 <= i < m.account_keys.len() implies reads_back(
        b,
        #[trigger] m.account_keys[i],
        key_reader(),
        key_writer(),
    ) by {
        let key = m.account_keys[i];
        assert forall|p: int| #[trigger]
            holds_at(b, p, key_writer()(key)) implies key_reader()(b, p) == Some(
            (key, p + key_writer()(key).len()),
        ) by {
            lemma_pubkey_round_trip(b, p, key);
        }
    }
    lemma_short_items_round_trip(b, at + 3, m.account_keys, key_reader(), key_writer());
    lemma_pubkey_round_trip(b, at + 3 + keys.len(), m.recent_blockhash);
    assert forall|i: int| 0 <= i < m.instructions.len() implies reads_back(
        b,
        #[trigger] m.instructions[i],
        instruction_reader(),
        instruction_writer(),
    ) by {
        let instruction = m.instructions[i];
        assert(instruction_fits(instruction));
        assert forall|p: int| #[trigger]
            holds_at(b, p, instruction_writer()(instruction)) implies instruction_reader()(b, p)
            == Some((instruction, p + instruction_writer()(instruction).len())) by {
            lemma_instruction_round_trip(b, p, instruction);
        }
    }
    lemma_short_items_round_trip(
        b,
        at + 3 + keys.len() + 32,
        m.instructions,
        instruction_reader(),
        instruction_writer(),
    );
    assert(m.header == (MessageHeader {
        num_required_signatures: m.header.num_required_signatures,
        num_readonly_signed_accounts: m.header.num_readonly_signed_accounts,
        num_readonly_unsigned_accounts: m.header.num_readonly_unsigned_accounts,
    }));
}

/// The legacy part of a version-0 message.
pub open spec fn legacy_part(m: crate::message_v0::MessageView) -> crate::message::MessageView {
    crate::message::MessageView {
        header: m.header,
        account_keys: m.account_keys,
        recent_blockhash: m.recent_blockhash,
        instructions: m.instructions,
    }
}

/// A version-0 message reads back behind its prefix byte.
pub proof fn lemma_v0_round_trip(b: Seq<u8>, at: int, m: crate::message_v0::MessageView)
    requires
        message_fits(VersionedMessageView::V0(m)),
        holds_at(b, at, v0_message_bytes(m)),
    ensures
        v0_message_at(b, at) == Some((m, at + v0_message_bytes(m).len())),
{
    let legacy = legacy_message_bytes(legacy_part(m));
    let lookups = short_items_bytes(m.address_table_lookups, lookup_writer());
    lemma_holds_split(b, at, legacy, lookups);
    lemma_legacy_round_trip(b, at, legacy_part(m));
    assert forall|i: int| 0 <= i < m.address_table_lookups.len() implies reads_back(
        b,
        #[trigger] m.address_table_lookups[i],
        lookup_reader(),
        lookup_writer(),
    ) by {
        let lookup = m.address_table_lookups[i];
        assert(lookup_fits(lookup));
        assert forall|p: int| #[trigger]
            holds_at(b, p, lookup_writer()(lookup)) implies lookup_reader()(b, p) == Some(
            (lookup, p + lookup_writer()(lookup).len()),
        ) by {
            lemma_lookup_round_trip(b, p, lookup);
        }
    }
    lemma_short_items_round_trip(
        b,
        at + legacy.len(),
        m.address_table_lookups,
        lookup_reader(),
        lookup_writer(),
    );
}

/// A message that was written reads back as it was, whatever follows it: a
/// version-0 message always, a legacy message if the number of its
/// required signatures is below 128, so that its first byte is not taken
/// for the prefix of a version.
pub proof fn lemma_message_round_trip(m: VersionedMessageView, rest: Seq<u8>)
    requires
        message_fits(m),
        m matches VersionedMessageView::Legacy(legacy) ==> legacy.header.num_required_signatures
            < 0x80,
    ensures
        versioned_message_at(versioned_message_bytes(m) + rest, 0) == Ok::<
            (VersionedMessageView, int),
            WireError,
        >((m, versioned_message_bytes(m).len() as int)),
{
    let written = versioned_message_bytes(m);
    let b = written + rest;
    assert(b.subrange(0, written.len() as int) =~= written);
    assert(holds_at(b, 0, written));
    match m {
        VersionedMessageView::Legacy(legacy) => {
            lemma_legacy_round_trip(b, 0, legacy);
            assert(b[0] == written[0]);
        },
        VersionedMessageView::V0(v0) => {
            lemma_holds_split(b, 0, seq![0x80u8], v0_message_bytes(v0));
            assert(b[0] == written[0]);
            lemma_v0_round_trip(b, 1, v0);
        },
    }
}

/// A list of signatures reads back.
pub proof fn lemma_signatures_round_trip(b: Seq<u8>, at: int, signatures: Seq<Signature>)
    requires
        signatures.len() <= 0xffff,
        holds_at(b, at, short_items_bytes(signatures, crate::wire::signature_writer())),
    ensures
        short_items_at(b, at, crate::wire::signature_reader()) == Some(
            (
                signatures,
                at + short_items_bytes(signatures, crate::wire::signature_writer()).len(),
            ),
        ),
{
    assert forall|i: int| 0 <= i < signatures.len() implies reads_back(
        b,
        #[trigger] signatures[i],
        crate::wire::signature_reader(),
        crate::wire::signature_writer(),
    ) by {
        let signature = signatures[i];
        assert forall|p: int| #[trigger]
            holds_at(b, p, crate::wire::signature_writer()(signature))
            implies crate::wire::signature_reader()(b, p) == Some(
            (signature, p + crate::wire::signature_writer()(signature).len()),
        ) by {
            lemma_signature_round_trip(b, p, signature);
        }
    }
    lemma_short_items_round_trip(
        b,
        at,
        signatures,
        crate::wire::signature_reader(),
        crate::wire::signature_writer(),
    );
}

/// A transaction that was written reads back as it was, whatever follows
/// it, if its message does.
pub proof fn lemma_transaction_round_trip(
    t: crate::transaction::VersionedTransactionView,
    rest: Seq<u8>,
)
    requires
        crate::transaction::transaction_fits(t),
        t.message matches VersionedMessageView::Legacy(legacy)
            ==> legacy.header.num_required_signatures < 0x80,
    ensures
        crate::transaction::wire_versioned_transaction(
            crate::transaction::versioned_transaction_bytes(t) + rest,
        ) == Ok::<crate::transaction::VersionedTransactionView, WireError>(t),
{
    let signatures = short_items_bytes(t.signatures, crate::wire::signature_writer());
    let message = versioned_message_bytes(t.message);
    let tail = message + rest;
    let b = signatures + tail;
    assert(crate::transaction::versioned_transaction_bytes(t) + rest =~= b);
    assert(holds_at(b, 0, signatures)) by {
        assert(b.subrange(0, signatures.len() as int) =~= signatures);
    }
    lemma_signatures_round_trip(b, 0, t.signatures);
    assert(holds_at(tail, 0, message)) by {
        assert(tail.subrange(0, message.len() as int) =~= message);
    }
    lemma_message_at_offset(signatures, tail, t.message);
}

/// What a message reads as does not depend on what stands before it.
pub proof fn lemma_message_at_offset(before: Seq<u8>, b: Seq<u8>, m: VersionedMessageView)
    requires
        message_fits(m),
        m matches VersionedMessageView::Legacy(legacy) ==> legacy.header.num_required_signatures
            < 0x80,
        holds_at(b, 0, versioned_message_bytes(m)),
    ensures
        versioned_message_at(before + b, before.len() as int) == Ok::<
            (VersionedMessageView, int),
            WireError,
        >((m, (before.len() + versioned_message_bytes(m).len()) as int)),
{
    let whole = before + b;
    let at = before.len() as int;
    let written = versioned_message_bytes(m);
    assert(whole.subrange(at, at + written.len()) =~= b.subrange(0, written.len() as int));
    assert(holds_at(whole, at, written));
    match m {
        VersionedMessageView::Legacy(legacy) => {
            lemma_legacy_round_trip(whole, at, legacy);
            assert(whole[at] == written[0]);
        },
        VersionedMessageView::V0(v0) => {
            lemma_holds_split(whole, at, seq![0x80u8], v0_message_bytes(v0));
            assert(whole[at] == written[0]);
            lemma_v0_round_trip(whole, at + 1, v0);
        },
    }
}

} // verus!
