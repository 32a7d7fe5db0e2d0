//! The message of a version-0 transaction: a legacy message and lookups of
//! further addresses in tables on the chain.

use vstd::prelude::*;

use crate::address::{
    parse_keys, parsed_keys, parsed_lookup, MessageAddressTableLookup,
    MessageAddressTableLookupView,
};
use crate::decodable::DecodableWithMeta;
use crate::errors::DecodeError;
use crate::instruction::{CompiledInstruction, CompiledInstructionView};
use crate::seqs::{
    lemma_try_map_prefix, lemma_try_map_step, lemma_views_empty, lemma_views_push, try_map, views,
};
use crate::message::{decode_instructions, decoded_instructions};
use crate::text::{hash_from_text, parse_hash};
use crate::types::Pubkey;
use crate::ui::{
    MessageHeader, TransactionVersion, UiAddressTableLookup, UiMessage, UiRawMessage,
    UiTransactionEncoding,
};

verus! {

/// A version-0 message. The header counts only the keys of `account_keys`,
/// not those that the lookups load.
#[derive(Clone, Debug, Default, PartialEq, Eq)]
pub struct Message {
    pub header: MessageHeader,
    pub account_keys: Vec<Pubkey>,
    pub recent_blockhash: crate::types::Hash,
    pub instructions: Vec<CompiledInstruction>,
    pub address_table_lookups: Vec<MessageAddressTableLookup>,
}

pub struct MessageView {
    pub header: MessageHeader,
    pub account_keys: Seq<Pubkey>,
    pub recent_blockhash: crate::types::Hash,
    pub instructions: Seq<CompiledInstructionView>,
    pub address_table_lookups: Seq<MessageAddressTableLookupView>,
}

impl View for Message {
    type V = MessageView;

    open spec fn view(&self) -> MessageView {
        MessageView {
            header: self.header,
            account_keys: self.account_keys@,
            recent_blockhash: self.recent_blockhash,
            instructions: views(self.instructions@),
            address_table_lookups: views(self.address_table_lookups@),
        }
    }
}

/// Reads one lookup.
pub open spec fn lookup_parser() -> spec_fn(UiAddressTableLookup) -> Result<
    MessageAddressTableLookupView,
    DecodeError,
> {
    |ui: UiAddressTableLookup| parsed_lookup(ui)
}

/// The lookups that a document's lookups stand for: none where the document
/// has none.
pub open spec fn parsed_lookups(uis: Option<Vec<UiAddressTableLookup>>) -> Result<
    Seq<MessageAddressTableLookupView>,
    DecodeError,
> {
    match uis {
        Some(list) => try_map(list@, lookup_parser()),
        None => Ok(Seq::empty()),
    }
}

/// The version-0 message that a raw message stands for. The parts are read
/// in the order of the fields; the error is that of the first part that
/// cannot be read. A key or a hash that is no base-58 text of the right
/// size fails as it does in a legacy message.
pub open spec fn decoded_raw_message(raw: UiRawMessage) -> Result<MessageView, DecodeError> {
    match parsed_keys(raw.account_keys@) {
        Err(e) => Err(DecodeError::ParsePubkeyFailed(e)),
        Ok(account_keys) => match hash_from_text(raw.recent_blockhash@) {
            Err(e) => Err(DecodeError::ParseHashFailed(e)),
            Ok(recent_blockhash) => match decoded_instructions(raw.instructions@) {
                Err(e) => Err(e),
                Ok(instructions) => match parsed_lookups(raw.address_table_lookups) {
                    Err(e) => Err(e),
                    Ok(address_table_lookups) => Ok(
                        MessageView {
                            header: raw.header,
                            account_keys,
                            recent_blockhash,
                            instructions,
                            address_table_lookups,
                        },
                    ),
                },
            },
        },
    }
}

/// The version-0 message that a document's message stands for.
pub open spec fn json_decoded(ui: UiMessage) -> Result<MessageView, DecodeError> {
    match ui {
        UiMessage::Raw(raw) => decoded_raw_message(raw),
        UiMessage::Parsed => Err(DecodeError::UnsupportedEncoding),
    }
}

/// The version-0 message that a document's message stands for under an
/// encoding: only the JSON encoding can hold one.
pub open spec fn decoded_with_meta(ui: UiMessage, encoding: UiTransactionEncoding) -> Result<
    MessageView,
    DecodeError,
> {
    match encoding {
        UiTransactionEncoding::Json => json_decoded(ui),
        _ => Err(DecodeError::UnsupportedEncoding),
    }
}

/// Reads the lookups of a message in order.
pub fn parse_lookups(uis: &Option<Vec<UiAddressTableLookup>>) -> (lookups: Result<
    Vec<MessageAddressTableLookup>,
    DecodeError,
>)
    ensures
        parsed_lookups(*uis) == match lookups {
            Ok(list) => Ok::<Seq<MessageAddressTableLookupView>, DecodeError>(views(list@)),
            Err(e) => Err(e),
        },
{
    let mut out: Vec<MessageAddressTableLookup> = Vec::new();
    proof {
        lemma_views_empty::<MessageAddressTableLookup>();
    }
    match uis {
        None => Ok(out),
        Some(list) => {
            let mut i: usize = 0;
            assert(list@.subrange(0, 0) =~= Seq::<UiAddressTableLookup>::empty());
            while i < list.len()
                invariant
                    i <= list.len(),
                    *uis == Some(*list),
                    try_map(list@.subrange(0, i as int), lookup_parser()) == Ok::<
                        Seq<MessageAddressTableLookupView>,
                        DecodeError,
                    >(views(out@)),
                decreases list.len() - i,
            {
                proof {
                    lemma_try_map_step(list@, lookup_parser(), i as int);
                }
                match MessageAddressTableLookup::try_from_ui(&list[i]) {
                    Ok(lookup) => {
                        proof {
                            lemma_views_push(out@, lookup);
                        }
                        out.push(lookup);
                    },
                    Err(e) => {
                        proof {
                            lemma_try_map_prefix(list@, lookup_parser(), i + 1);
                        }
                        return Err(e);
                    },
                }
                i = i + 1;
            }
            assert(list@.subrange(0, list.len() as int) =~= list@);
            Ok(out)
        },
    }
}

impl DecodableWithMeta for Message {
    type Encoded = UiMessage;

    type Decoded = Message;

    /// Decodes the message of a document as a version-0 message, under the
    /// encoding that the document is in.
    fn decode_with_meta(
        encoded: UiMessage,
        decoding: UiTransactionEncoding,
        version: Option<TransactionVersion>,
    ) -> (message: Result<Message, DecodeError>)
        ensures
            decoded_with_meta(encoded, decoding) == match message {
                Ok(m) => Ok::<MessageView, DecodeError>(m@),
                Err(e) => Err(e),
            },
    {
        match decoding {
            UiTransactionEncoding::Json => Message::json_decode(encoded, version),
            _ => Err(DecodeError::UnsupportedEncoding),
        }
    }

    /// Decodes the message of a JSON document as a version-0 message. The
    /// declared version plays no part.
    fn json_decode(encoded: UiMessage, _version: Option<TransactionVersion>) -> (message: Result<
        Message,
        DecodeError,
    >)
        ensures
            json_decoded(encoded) == match message {
                Ok(m) => Ok::<MessageView, DecodeError>(m@),
                Err(e) => Err(e),
            },
    {
        match &encoded {
            UiMessage::Raw(raw) => {
                let account_keys = match parse_keys(&raw.account_keys) {
                    Ok(keys) => keys,
                    Err(e) => {
                        return Err(DecodeError::ParsePubkeyFailed(e));
                    },
                };
                let recent_blockhash = match parse_hash(raw.recent_blockhash.as_str()) {
                    Ok(hash) => hash,
                    Err(e) => {
                        return Err(DecodeError::ParseHashFailed(e));
                    },
                };
                let instructions = match decode_instructions(&raw.instructions) {
                    Ok(instructions) => instructions,
                    Err(e) => {
                        return Err(e);
                    },
                };
                let address_table_lookups = match parse_lookups(&raw.address_table_lookups) {
                    Ok(lookups) => lookups,
                    Err(e) => {
                        return Err(e);
                    },
                };
                Ok(
                    Message {
                        header: raw.header,
                        account_keys,
                        recent_blockhash,
                        instructions,
                        address_table_lookups,
                    },
                )
            },
            UiMessage::Parsed => Err(DecodeError::UnsupportedEncoding),
        }
    }
}

} // verus!
