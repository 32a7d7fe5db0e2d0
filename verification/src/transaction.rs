//! Transactions, and their decoding from the forms that a document holds.

use vstd::prelude::*;

use crate::decodable::{Decodable, DecodableWithMeta};
use crate::errors::DecodeError;
use crate::message::{decoded_message, Message, MessageView};
use crate::seqs::{lemma_try_map_prefix, lemma_try_map_step, try_map};
use crate::text::{
    base58_decoded, base64_decoded, decode_base58, decode_base64, parse_signature,
    signature_from_text, ParseError,
};
use crate::tx_status_meta::{
    converted_meta, TransactionStatusMeta, TransactionStatusMetaView,
};
use crate::types::Signature;
use crate::ui::{
    EncodedTransaction, EncodedTransactionWithStatusMeta, TransactionBinaryEncoding,
    TransactionVersion, UiMessage, UiTransactionEncoding,
};
use crate::versioned_message::{VersionedMessage, VersionedMessageView};
use crate::wire::{
    legacy_message_at, read_legacy_message, read_versioned_message, short_items_at,
    signature_reader, versioned_message_at, WireError,
};

verus! {

/// A legacy transaction: its signatures and its message.
#[derive(Clone, Debug, Default, PartialEq, Eq)]
pub struct Transaction {
    pub signatures: Vec<Signature>,
    pub message: Message,
}

pub struct TransactionView {
    pub signatures: Seq<Signature>,
    pub message: MessageView,
}

impl View for Transaction {
    type V = TransactionView;

    open spec fn view(&self) -> TransactionView {
        TransactionView { signatures: self.signatures@, message: self.message@ }
    }
}

/// A transaction with a message of either form.
#[derive(Clone, Debug, PartialEq, Eq)]
pub struct VersionedTransaction {
    pub signatures: Vec<Signature>,
    pub message: VersionedMessage,
}

pub struct VersionedTransactionView {
    pub signatures: Seq<Signature>,
    pub message: VersionedMessageView,
}

impl View for VersionedTransaction {
    type V = VersionedTransactionView;

    open spec fn view(&self) -> VersionedTransactionView {
        VersionedTransactionView { signatures: self.signatures@, message: self.message@ }
    }
}

/// A transaction together with what was recorded when it ran.
#[derive(Clone, Debug, PartialEq, Eq)]
pub struct VersionedTransactionWithStatusMeta {
    pub transaction: VersionedTransaction,
    pub meta: TransactionStatusMeta,
}

pub struct VersionedTransactionWithStatusMetaView {
    pub transaction: VersionedTransactionView,
    pub meta: TransactionStatusMetaView,
}

impl View for VersionedTransactionWithStatusMeta {
    type V = VersionedTransactionWithStatusMetaView;

    open spec fn view(&self) -> VersionedTransactionWithStatusMetaView {
        VersionedTransactionWithStatusMetaView { transaction: self.transaction@, meta: self.meta@ }
    }
}

/// Whether `bincode` reads a transaction from the bytes and
/// `solana_transaction`'s `sanitize` accepts it.
pub uninterp spec fn sane_transaction(bytes: Seq<u8>) -> bool;

/// Reads a transaction from the bytes with `bincode::deserialize` and asks
/// `VersionedTransaction::sanitize` whether it holds together.
#[verifier::external_body]
fn is_sane(bytes: &[u8]) -> (sane: bool)
    ensures
        sane == sane_transaction(bytes@),
{
    match bincode::deserialize::<solana_transaction::versioned::VersionedTransaction>(bytes) {
        Ok(transaction) => transaction.sanitize().is_ok(),
        Err(_) => false,
    }
}

/// The transaction that the binary form of a document's transaction holds,
/// if it holds one that is sane. The JSON form and the list of accounts
/// hold none.
pub open spec fn decoded_sane(encoded: EncodedTransaction) -> Option<VersionedTransactionView> {
    let text = match encoded {
        EncodedTransaction::LegacyBinary(text) => Some(
            (text@, TransactionBinaryEncoding::Base58),
        ),
        EncodedTransaction::Binary(text, code) => Some((text@, code)),
        _ => None,
    };
    match text {
        None => None,
        Some((chars, code)) => match text_bytes(chars, code) {
            None => None,
            Some(bytes) => match wire_versioned_transaction(bytes) {
                Err(_) => None,
                Ok(transaction) => if sane_transaction(bytes) {
                    Some(transaction)
                } else {
                    None
                },
            },
        },
    }
}

impl EncodedTransaction {
    /// The transaction that the binary form holds, if it is sane.
    pub fn decode(&self) -> (transaction: Option<VersionedTransaction>)
        ensures
            decoded_sane(*self) == match transaction {
                Some(t) => Some(t@),
                None => None,
            },
    {
        let bytes = match self {
            EncodedTransaction::LegacyBinary(text) => decode_text(
                text.as_str(),
                TransactionBinaryEncoding::Base58,
            ),
            EncodedTransaction::Binary(text, code) => decode_text(text.as_str(), *code),
            _ => {
                return None;
            },
        };
        match bytes {
            None => None,
            Some(bytes) => match VersionedTransaction::deserialize(bytes.as_slice()) {
                Err(_) => None,
                Ok(transaction) => {
                    if is_sane(bytes.as_slice()) {
                        Some(transaction)
                    } else {
                        None
                    }
                },
            },
        }
    }
}

/// Reads one signature.
pub open spec fn signature_parser() -> spec_fn(String) -> Result<Signature, ParseError> {
    |text: String| signature_from_text(text@)
}

/// The signatures that a list of texts stands for, or the error of the
/// first text that is no signature.
pub open spec fn parsed_signatures(texts: Seq<String>) -> Result<Seq<Signature>, ParseError> {
    try_map(texts, signature_parser())
}

/// The legacy transaction that bytes in the legacy binary form start with.
pub open spec fn wire_transaction(b: Seq<u8>) -> Option<TransactionView> {
    match short_items_at(b, 0, signature_reader()) {
        None => None,
        Some((signatures, at1)) => match legacy_message_at(b, at1) {
            None => None,
            Some((message, _)) => Some(TransactionView { signatures, message }),
        },
    }
}

/// The transaction that bytes in the legacy binary form start with.
pub open spec fn wire_versioned_transaction(b: Seq<u8>) -> Result<
    VersionedTransactionView,
    WireError,
> {
    match short_items_at(b, 0, signature_reader()) {
        None => Err(WireError::Malformed),
        Some((signatures, at1)) => match versioned_message_at(b, at1) {
            Err(e) => Err(e),
            Ok((message, _)) => Ok(VersionedTransactionView { signatures, message }),
        },
    }
}

/// The bytes of a transaction in the legacy binary form: its signatures,
/// then its message.
pub open spec fn versioned_transaction_bytes(t: VersionedTransactionView) -> Seq<u8> {
    crate::wire::short_items_bytes(t.signatures, crate::wire::signature_writer())
        + crate::wire::versioned_message_bytes(t.message)
}

/// Whether a transaction can be written: no list of it has more than
/// 65535 items.
pub open spec fn transaction_fits(t: VersionedTransactionView) -> bool {
    t.signatures.len() <= 0xffff && crate::wire::message_fits(t.message)
}

/// The bytes that a text stands for in a binary-to-text code.
pub open spec fn text_bytes(text: Seq<char>, code: TransactionBinaryEncoding) -> Option<Seq<u8>> {
    match code {
        TransactionBinaryEncoding::Base58 => base58_decoded(text),
        TransactionBinaryEncoding::Base64 => base64_decoded(text),
    }
}

/// The legacy transaction that a text in a binary-to-text code stands for.
pub open spec fn decoded_binary(text: Seq<char>, code: TransactionBinaryEncoding) -> Result<
    TransactionView,
    DecodeError,
> {
    match text_bytes(text, code) {
        None => Err(DecodeError::DeserializeFailed),
        Some(bytes) => match wire_transaction(bytes) {
            Some(transaction) => Ok(transaction),
            None => Err(DecodeError::DeserializeFailed),
        },
    }
}

/// The transaction that a text in a binary-to-text code stands for.
pub open spec fn decoded_versioned_binary(
    text: Seq<char>,
    code: TransactionBinaryEncoding,
) -> Result<VersionedTransactionView, DecodeError> {
    match text_bytes(text, code) {
        None => Err(DecodeError::DeserializeFailed),
        Some(bytes) => match wire_versioned_transaction(bytes) {
            Ok(transaction) => Ok(transaction),
            Err(_) => Err(DecodeError::DeserializeFailed),
        },
    }
}

/// The legacy transaction that a document's transaction stands for. Of a
/// JSON transaction the message is read first, then the signatures.
pub open spec fn decoded_transaction(encoded: EncodedTransaction) -> Result<
    TransactionView,
    DecodeError,
> {
    match encoded {
        EncodedTransaction::LegacyBinary(text) => decoded_binary(
            text@,
            TransactionBinaryEncoding::Base58,
        ),
        EncodedTransaction::Binary(text, code) => decoded_binary(text@, code),
        EncodedTransaction::Json(ui) => match decoded_message(ui.message) {
            Err(e) => Err(e),
            Ok(message) => match parsed_signatures(ui.signatures@) {
                Err(e) => Err(DecodeError::ParseSignatureFailed(e)),
                Ok(signatures) => Ok(TransactionView { signatures, message }),
            },
        },
        EncodedTransaction::Accounts => Err(DecodeError::UnsupportedEncoding),
    }
}

/// The message that a raw message stands for under a declared version:
/// version 0 gives a version-0 message, the legacy version or none a legacy
/// message, and any other version none.
pub open spec fn decoded_versioned_message(
    message: UiMessage,
    version: Option<TransactionVersion>,
) -> Result<VersionedMessageView, DecodeError> {
    match message {
        UiMessage::Parsed => Err(DecodeError::UnsupportedEncoding),
        UiMessage::Raw(_) => match version {
            Some(TransactionVersion::Number(n)) => if n == 0 {
                match crate::message_v0::json_decoded(message) {
                    Ok(m) => Ok(VersionedMessageView::V0(m)),
                    Err(e) => Err(e),
                }
            } else {
                Err(DecodeError::UnsupportedVersion)
            },
            _ => match decoded_message(message) {
                Ok(m) => Ok(VersionedMessageView::Legacy(m)),
                Err(e) => Err(e),
            },
        },
    }
}

/// The transaction that a JSON transaction stands for. The signatures are
/// read first, then the message.
pub open spec fn json_decoded(
    encoded: EncodedTransaction,
    version: Option<TransactionVersion>,
) -> Result<VersionedTransactionView, DecodeError> {
    match encoded {
        EncodedTransaction::Json(ui) => match parsed_signatures(ui.signatures@) {
            Err(e) => Err(DecodeError::ParseSignatureFailed(e)),
            Ok(signatures) => match decoded_versioned_message(ui.message, version) {
                Err(e) => Err(e),
                Ok(message) => Ok(VersionedTransactionView { signatures, message }),
            },
        },
        _ => Err(DecodeError::UnsupportedEncoding),
    }
}

/// The transaction that a document's transaction stands for under the
/// encoding of the document. Under base 58 both binary forms in base 58
/// are read, the old one and the one that names its code; under base 64
/// the form that names base 64. A form in another code than the document's
/// is refused.
pub open spec fn decoded_with_meta(
    encoded: EncodedTransaction,
    decoding: UiTransactionEncoding,
    version: Option<TransactionVersion>,
) -> Result<VersionedTransactionView, DecodeError> {
    match decoding {
        UiTransactionEncoding::Binary | UiTransactionEncoding::Base58 => match encoded {
            EncodedTransaction::LegacyBinary(text) => decoded_versioned_binary(
                text@,
                TransactionBinaryEncoding::Base58,
            ),
            EncodedTransaction::Binary(text, TransactionBinaryEncoding::Base58) => decoded_versioned_binary(
                text@,
                TransactionBinaryEncoding::Base58,
            ),
            _ => Err(DecodeError::UnsupportedEncoding),
        },
        UiTransactionEncoding::Base64 => match encoded {
            EncodedTransaction::Binary(text, TransactionBinaryEncoding::Base64) => decoded_versioned_binary(
                text@,
                TransactionBinaryEncoding::Base64,
            ),
            _ => Err(DecodeError::UnsupportedEncoding),
        },
        UiTransactionEncoding::Json => json_decoded(encoded, version),
        UiTransactionEncoding::JsonParsed => Err(DecodeError::UnsupportedEncoding),
    }
}

/// The transaction with metadata that a document's entry stands for. The
/// transaction is decoded first; metadata that is missing or cannot be
/// converted gives `InvalidData`.
pub open spec fn decoded_complete(
    encoded: EncodedTransactionWithStatusMeta,
    encoding: UiTransactionEncoding,
) -> Result<VersionedTransactionWithStatusMetaView, DecodeError> {
    match decoded_with_meta(encoded.transaction, encoding, encoded.version) {
        Err(e) => Err(e),
        Ok(transaction) => match encoded.meta {
            None => Err(DecodeError::InvalidData),
            Some(ui_meta) => match converted_meta(ui_meta) {
                Err(_) => Err(DecodeError::InvalidData),
                Ok(meta) => Ok(VersionedTransactionWithStatusMetaView { transaction, meta }),
            },
        },
    }
}

/// Reads a list of signatures.
pub fn parse_signatures(texts: &Vec<String>) -> (signatures: Result<Vec<Signature>, ParseError>)
    ensures
        parsed_signatures(texts@) == match signatures {
            Ok(s) => Ok::<Seq<Signature>, ParseError>(s@),
            Err(e) => Err(e),
        },
{
    let mut signatures: Vec<Signature> = Vec::new();
    let mut i: usize = 0;
    assert(texts@.subrange(0, 0) =~= Seq::<String>::empty());
    while i < texts.len()
        invariant
            i <= texts.len(),
            try_map(texts@.subrange(0, i as int), signature_parser()) == Ok::<
                Seq<Signature>,
                ParseError,
            >(signatures@),
        decreases texts.len() - i,
    {
        proof {
            lemma_try_map_step(texts@, signature_parser(), i as int);
        }
        match parse_signature(texts[i].as_str()) {
            Ok(signature) => {
                signatures.push(signature);
            },
            Err(e) => {
                proof {
                    lemma_try_map_prefix(texts@, signature_parser(), i + 1);
                }
                return Err(e);
            },
        }
        i = i + 1;
    }
    assert(texts@.subrange(0, texts.len() as int) =~= texts@);
    Ok(signatures)
}

/// Decodes a text in a binary-to-text code.
pub fn decode_text(text: &str, code: TransactionBinaryEncoding) -> (bytes: Option<Vec<u8>>)
    ensures
        text_bytes(text@, code) == match bytes {
            Some(b) => Some(b@),
            None => None,
        },
{
    match code {
        TransactionBinaryEncoding::Base58 => decode_base58(text),
        TransactionBinaryEncoding::Base64 => decode_base64(text),
    }
}

impl Transaction {
    /// Reads a legacy transaction from the legacy binary form. Bytes behind
    /// the transaction are ignored.
    pub fn deserialize(bytes: &[u8]) -> (transaction: Option<Transaction>)
        ensures
            wire_transaction(bytes@) == match transaction {
                Some(t) => Some(t@),
                None => None,
            },
    {
        let (signatures, at1) = match crate::wire::read_signatures(bytes, 0) {
            Some(v) => v,
            None => {
                return None;
            },
        };
        match read_legacy_message(bytes, at1) {
            Some((message, _)) => Some(Transaction { signatures, message }),
            None => None,
        }
    }

}

impl Decodable for Transaction {
    type Encoded = EncodedTransaction;

    type Decoded = Transaction;

    /// Decodes the transaction of a document as a legacy transaction.
    fn decode(encoded: &EncodedTransaction) -> (transaction: Result<Transaction, DecodeError>)
        ensures
            decoded_transaction(*encoded) == match transaction {
                Ok(t) => Ok::<TransactionView, DecodeError>(t@),
                Err(e) => Err(e),
            },
    {
        match encoded {
            EncodedTransaction::LegacyBinary(text) => Transaction::decode_binary(
                text.as_str(),
                TransactionBinaryEncoding::Base58,
            ),
            EncodedTransaction::Binary(text, code) => Transaction::decode_binary(
                text.as_str(),
                *code,
            ),
            EncodedTransaction::Json(ui) => {
                let message = match Message::decode(&ui.message) {
                    Ok(message) => message,
                    Err(e) => {
                        return Err(e);
                    },
                };
                match parse_signatures(&ui.signatures) {
                    Ok(signatures) => Ok(Transaction { signatures, message }),
                    Err(e) => Err(DecodeError::ParseSignatureFailed(e)),
                }
            },
            EncodedTransaction::Accounts => Err(DecodeError::UnsupportedEncoding),
        }
    }

}

impl Transaction {
    /// Decodes a legacy transaction from a text in a binary-to-text code.
    pub fn decode_binary(text: &str, code: TransactionBinaryEncoding) -> (transaction: Result<
        Transaction,
        DecodeError,
    >)
        ensures
            decoded_binary(text@, code) == match transaction {
                Ok(t) => Ok::<TransactionView, DecodeError>(t@),
                Err(e) => Err(e),
            },
    {
        match decode_text(text, code) {
            None => Err(DecodeError::DeserializeFailed),
            Some(bytes) => match Transaction::deserialize(bytes.as_slice()) {
                Some(transaction) => Ok(transaction),
                None => Err(DecodeError::DeserializeFailed),
            },
        }
    }
}

impl VersionedTransaction {
    /// Writes the transaction in the legacy binary form. `None` where a
    /// list of the transaction has more than 65535 items.
    pub fn serialize(&self) -> (bytes: Option<Vec<u8>>)
        ensures
            bytes is Some <==> transaction_fits(self@),
            bytes matches Some(b) ==> b@ == versioned_transaction_bytes(self@),
    {
        let mut out: Vec<u8> = Vec::new();
        if !crate::wire::write_signatures(&mut out, &self.signatures) {
            return None;
        }
        match self.message.serialize() {
            None => None,
            Some(message) => {
                crate::seqs::append_bytes(&mut out, message.as_slice());
                assert(out@ =~= versioned_transaction_bytes(self@));
                Some(out)
            },
        }
    }

    /// Reads a transaction from the legacy binary form. Bytes behind the
    /// transaction are ignored.
    pub fn deserialize(bytes: &[u8]) -> (transaction: Result<VersionedTransaction, WireError>)
        ensures
            wire_versioned_transaction(bytes@) == match transaction {
                Ok(t) => Ok::<VersionedTransactionView, WireError>(t@),
                Err(e) => Err(e),
            },
    {
        let (signatures, at1) = match crate::wire::read_signatures(bytes, 0) {
            Some(v) => v,
            None => {
                return Err(WireError::Malformed);
            },
        };
        match read_versioned_message(bytes, at1) {
            Ok((message, _)) => Ok(VersionedTransaction { signatures, message }),
            Err(e) => Err(e),
        }
    }

    /// Decodes a transaction from a text in a binary-to-text code.
    pub fn decode_binary(text: &str, code: TransactionBinaryEncoding) -> (transaction: Result<
        VersionedTransaction,
        DecodeError,
    >)
        ensures
            decoded_versioned_binary(text@, code) == match transaction {
                Ok(t) => Ok::<VersionedTransactionView, DecodeError>(t@),
                Err(e) => Err(e),
            },
    {
        match decode_text(text, code) {
            None => Err(DecodeError::DeserializeFailed),
            Some(bytes) => match VersionedTransaction::deserialize(bytes.as_slice()) {
                Ok(transaction) => Ok(transaction),
                Err(_) => Err(DecodeError::DeserializeFailed),
            },
        }
    }

}

impl DecodableWithMeta for VersionedTransaction {
    type Encoded = EncodedTransaction;

    type Decoded = VersionedTransaction;

    /// Decodes the transaction of a document under the encoding of the
    /// document and the version that the document declares.
    fn decode_with_meta(
        encoded: EncodedTransaction,
        decoding: UiTransactionEncoding,
        version: Option<TransactionVersion>,
    ) -> (transaction: Result<VersionedTransaction, DecodeError>)
        ensures
            decoded_with_meta(encoded, decoding, version) == match transaction {
                Ok(t) => Ok::<VersionedTransactionView, DecodeError>(t@),
                Err(e) => Err(e),
            },
    {
        match decoding {
            UiTransactionEncoding::Binary | UiTransactionEncoding::Base58 => match &encoded {
                EncodedTransaction::LegacyBinary(text) => VersionedTransaction::decode_binary(
                    text.as_str(),
                    TransactionBinaryEncoding::Base58,
                ),
                EncodedTransaction::Binary(
                    text,
                    TransactionBinaryEncoding::Base58,
                ) => VersionedTransaction::decode_binary(
                    text.as_str(),
                    TransactionBinaryEncoding::Base58,
                ),
                _ => Err(DecodeError::UnsupportedEncoding),
            },
            UiTransactionEncoding::Base64 => match &encoded {
                EncodedTransaction::Binary(
                    text,
                    TransactionBinaryEncoding::Base64,
                ) => VersionedTransaction::decode_binary(
                    text.as_str(),
                    TransactionBinaryEncoding::Base64,
                ),
                _ => Err(DecodeError::UnsupportedEncoding),
            },
            UiTransactionEncoding::Json => VersionedTransaction::json_decode(encoded, version),
            UiTransactionEncoding::JsonParsed => Err(DecodeError::UnsupportedEncoding),
        }
    }

    /// Decodes a JSON transaction under the version that the document
    /// declares.
    fn json_decode(encoded: EncodedTransaction, version: Option<TransactionVersion>) -> (transaction:
        Result<VersionedTransaction, DecodeError>)
        ensures
            json_decoded(encoded, version) == match transaction {
                Ok(t) => Ok::<VersionedTransactionView, DecodeError>(t@),
                Err(e) => Err(e),
            },
    {
        match encoded {
            EncodedTransaction::Json(ui) => {
                let signatures = match parse_signatures(&ui.signatures) {
                    Ok(signatures) => signatures,
                    Err(e) => {
                        return Err(DecodeError::ParseSignatureFailed(e));
                    },
                };
                let message = match &ui.message {
                    UiMessage::Parsed => {
                        return Err(DecodeError::UnsupportedEncoding);
                    },
                    UiMessage::Raw(_) => match version {
                        Some(TransactionVersion::Number(n)) => {
                            if n == 0 {
                                match crate::message_v0::Message::json_decode(
                                    ui.message,
                                    version,
                                ) {
                                    Ok(m) => VersionedMessage::V0(m),
                                    Err(e) => {
                                        return Err(e);
                                    },
                                }
                            } else {
                                return Err(DecodeError::UnsupportedVersion);
                            }
                        },
                        _ => match Message::decode(&ui.message) {
                            Ok(m) => VersionedMessage::Legacy(m),
                            Err(e) => {
                                return Err(e);
                            },
                        },
                    },
                };
                Ok(VersionedTransaction { signatures, message })
            },
            _ => Err(DecodeError::UnsupportedEncoding),
        }
    }
}

impl VersionedTransactionWithStatusMeta {
    /// Decodes an entry of a document that has metadata.
    pub fn decode(encoded: EncodedTransactionWithStatusMeta, encoding: UiTransactionEncoding) -> (complete:
        Result<VersionedTransactionWithStatusMeta, DecodeError>)
        ensures
            decoded_complete(encoded, encoding) == match complete {
                Ok(c) => Ok::<VersionedTransactionWithStatusMetaView, DecodeError>(c@),
                Err(e) => Err(e),
            },
    {
        let transaction = match VersionedTransaction::decode_with_meta(
            encoded.transaction,
            encoding,
            encoded.version,
        ) {
            Ok(decoded) => decoded,
            Err(e) => {
                return Err(e);
            },
        };
        let meta = match encoded.meta {
            Some(ui_meta) => match TransactionStatusMeta::try_from_ui(ui_meta) {
                Ok(meta) => meta,
                Err(_) => {
                    return Err(DecodeError::InvalidData);
                },
            },
            None => {
                return Err(DecodeError::InvalidData);
            },
        };
        Ok(VersionedTransactionWithStatusMeta { transaction, meta })
    }
}

} // verus!
