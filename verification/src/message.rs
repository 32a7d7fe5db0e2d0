//! The legacy message of a transaction.

use vstd::prelude::*;

use crate::address::{parse_keys, parsed_keys};
use crate::decodable::Decodable;
use crate::errors::DecodeError;
use crate::instruction::{decoded_instruction, CompiledInstruction, CompiledInstructionView};
use crate::seqs::{
    lemma_try_map_prefix, lemma_try_map_step, lemma_views_empty, lemma_views_push, try_map, views,
};
use crate::text::{hash_from_text, parse_hash};
use crate::types::Pubkey;
use crate::ui::{MessageHeader, UiCompiledInstruction, UiMessage, UiRawMessage};

verus! {

/// What a transaction asks for: the accounts it touches and the
/// instructions to run on them.
#[derive(Clone, Debug, Default, PartialEq, Eq)]
pub struct Message {
    pub header: MessageHeader,
    pub account_keys: Vec<Pubkey>,
    pub recent_blockhash: crate::types::Hash,
    pub instructions: Vec<CompiledInstruction>,
}

pub struct MessageView {
    pub header: MessageHeader,
    pub account_keys: Seq<Pubkey>,
    pub recent_blockhash: crate::types::Hash,
    pub instructions: Seq<CompiledInstructionView>,
}

impl View for Message {
    type V = MessageView;

    open spec fn view(&self) -> MessageView {
        MessageView {
            header: self.header,
            account_keys: self.account_keys@,
            recent_blockhash: self.recent_blockhash,
            instructions: views(self.instructions@),
        }
    }
}

/// Decodes one instruction of a message.
pub open spec fn instruction_decoder() -> spec_fn(UiCompiledInstruction) -> Result<
    CompiledInstructionView,
    DecodeError,
> {
    |ui: UiCompiledInstruction|
        match decoded_instruction(ui) {
            Some(instruction) => Ok(instruction),
            None => Err(DecodeError::InvalidData),
        }
}

/// The instructions that a document's instructions stand for, in order, or
/// `InvalidData` where the data of one of them is not base 58.
pub open spec fn decoded_instructions(uis: Seq<UiCompiledInstruction>) -> Result<
    Seq<CompiledInstructionView>,
    DecodeError,
> {
    try_map(uis, instruction_decoder())
}

/// The legacy message that a raw message stands for. The account keys are
/// read first, then the block hash, then the instructions; the error is
/// that of the first part that cannot be read.
pub open spec fn decoded_raw_message(raw: UiRawMessage) -> Result<MessageView, DecodeError> {
    match parsed_keys(raw.account_keys@) {
        Err(e) => Err(DecodeError::ParsePubkeyFailed(e)),
        Ok(account_keys) => match hash_from_text(raw.recent_blockhash@) {
            Err(e) => Err(DecodeError::ParseHashFailed(e)),
            Ok(recent_blockhash) => match decoded_instructions(raw.instructions@) {
                Err(e) => Err(e),
                Ok(instructions) => Ok(
                    MessageView { header: raw.header, account_keys, recent_blockhash, instructions },
                ),
            },
        },
    }
}

/// The legacy message that a document's message stands for. A parsed
/// message stands for none.
pub open spec fn decoded_message(ui: UiMessage) -> Result<MessageView, DecodeError> {
    match ui {
        UiMessage::Raw(raw) => decoded_raw_message(raw),
        UiMessage::Parsed => Err(DecodeError::UnsupportedEncoding),
    }
}

/// Decodes the instructions of a message in order.
pub fn decode_instructions(uis: &Vec<UiCompiledInstruction>) -> (instructions: Result<
    Vec<CompiledInstruction>,
    DecodeError,
>)
    ensures
        decoded_instructions(uis@) == match instructions {
            Ok(list) => Ok::<Seq<CompiledInstructionView>, DecodeError>(views(list@)),
            Err(e) => Err(e),
        },
{
    let mut out: Vec<CompiledInstruction> = Vec::new();
    let mut i: usize = 0;
    proof {
        lemma_views_empty::<CompiledInstruction>();
        assert(uis@.subrange(0, 0) =~= Seq::<UiCompiledInstruction>::empty());
    }
    while i < uis.len()
        invariant
            i <= uis.len(),
            try_map(uis@.subrange(0, i as int), instruction_decoder()) == Ok::<
                Seq<CompiledInstructionView>,
                DecodeError,
            >(views(out@)),
        decreases uis.len() - i,
    {
        proof {
            lemma_try_map_step(uis@, instruction_decoder(), i as int);
        }
        match CompiledInstruction::try_from_ui(&uis[i]) {
            Some(instruction) => {
                proof {
                    lemma_views_push(out@, instruction);
                }
                out.push(instruction);
            },
            None => {
                proof {
                    lemma_try_map_prefix(uis@, instruction_decoder(), i + 1);
                }
                return Err(DecodeError::InvalidData);
            },
        }
        i = i + 1;
    }
    assert(uis@.subrange(0, uis.len() as int) =~= uis@);
    Ok(out)
}

impl Decodable for Message {
    type Encoded = UiMessage;

    type Decoded = Message;

    /// Decodes the message of a document as a legacy message.
    fn decode(encoded: &UiMessage) -> (message: Result<Message, DecodeError>)
        ensures
            decoded_message(*encoded) == match message {
                Ok(m) => Ok::<MessageView, DecodeError>(m@),
                Err(e) => Err(e),
            },
    {
        match encoded {
            UiMessage::Raw(raw) => {
                let account_keys = match parse_keys(&raw.account_keys) {
                    Ok(keys) => keys,
                    Err(e) => {
                        return Err(DecodeError::ParsePubkeyFailed(e));
                    },
                };
                let recent_blockhash = match parse_hash(raw.recent_blockhash.as_str()) {
                    Ok(hash) => hash,
                    Err(e) => {
                        return Err(DecodeError::ParseHashFailed(e));
                    },
                };
                let instructions = match decode_instructions(&raw.instructions) {
                    Ok(instructions) => instructions,
                    Err(e) => {
                        return Err(e);
                    },
                };
                Ok(Message { header: raw.header, account_keys, recent_blockhash, instructions })
            },
            UiMessage::Parsed => Err(DecodeError::UnsupportedEncoding),
        }
    }
}

} // verus!
