//! What the decoders of a document's parts have in common.

use vstd::prelude::*;

use crate::errors::DecodeError;
use crate::ui::{TransactionVersion, UiTransactionEncoding};

verus! {

/// A part of a transaction that is decoded from its form in a document.
/// Each type says in the contract of its own `decode` what it reads.
pub trait Decodable {
    /// The form in the document.
    type Encoded;

    /// What the form stands for.
    type Decoded;

    /// Decodes the form.
    fn decode(encoded: &Self::Encoded) -> (decoded: Result<Self::Decoded, DecodeError>);
}

/// A part of a transaction whose form in a document is read in the light
/// of the encoding and the version that the document gives beside it.
pub trait DecodableWithMeta {
    /// The form in the document.
    type Encoded;

    /// What the form stands for.
    type Decoded;

    /// Decodes the form as the encoding asks.
    fn decode_with_meta(
        encoded: Self::Encoded,
        encoding: UiTransactionEncoding,
        version: Option<TransactionVersion>,
    ) -> (decoded: Result<Self::Decoded, DecodeError>);

    /// Decodes the JSON form.
    fn json_decode(encoded: Self::Encoded, version: Option<TransactionVersion>) -> (decoded: Result<
        Self::Decoded,
        DecodeError,
    >);
}

} // verus!
