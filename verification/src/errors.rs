//! What decoding and converting can fail with.

use vstd::prelude::*;

use crate::text::ParseError;

verus! {

/// Why an encoded block, transaction or message could not be decoded.
#[derive(Clone, Copy, Debug, PartialEq, Eq, Structural)]
pub enum DecodeError {
    InvalidEncoding,
    InvalidAccountKey,
    InvalidBlockhash,
    DecodeFailed,
    DeserializeFailed,
    ParseSignatureFailed(ParseError),
    ParseHashFailed(ParseError),
    ParsePubkeyFailed(ParseError),
    NotImplemented,
    InvalidData,
    UnsupportedEncoding,
    UnsupportedVersion,
}

/// Why the metadata of a transaction could not be converted.
#[derive(Clone, Copy, Debug, PartialEq, Eq, Structural)]
pub enum ConversionError {
    InvalidProgramId,
    InvalidData,
    UnsupportedInstructionFormat,
}

impl DecodeError {
    /// The error in words.
    pub fn message(&self) -> (text: &'static str)
        ensures
            text@ == self.message_spec()@,
    {
        match self {
            DecodeError::InvalidEncoding => "Invalid encoding",
            DecodeError::DecodeFailed => "Decoding failed",
            DecodeError::DeserializeFailed => "Deserialization failed",
            DecodeError::InvalidAccountKey => "Invalid account key",
            DecodeError::InvalidBlockhash => "Invalid blockhash",
            DecodeError::ParseSignatureFailed(_) => "Failed to parse signature",
            DecodeError::ParseHashFailed(_) => "Failed to parse hash",
            DecodeError::ParsePubkeyFailed(_) => "Failed to parse pubkey",
            DecodeError::NotImplemented => "Not implemented",
            DecodeError::InvalidData => "Invalid data",
            DecodeError::UnsupportedEncoding => "Encoding is not supported",
            DecodeError::UnsupportedVersion => "Transaction version is not supported",
        }
    }

    /// The words of the error.
    pub open spec fn message_spec(&self) -> &'static str {
        match self {
            DecodeError::InvalidEncoding => "Invalid encoding",
            DecodeError::DecodeFailed => "Decoding failed",
            DecodeError::DeserializeFailed => "Deserialization failed",
            DecodeError::InvalidAccountKey => "Invalid account key",
            DecodeError::InvalidBlockhash => "Invalid blockhash",
            DecodeError::ParseSignatureFailed(_) => "Failed to parse signature",
            DecodeError::ParseHashFailed(_) => "Failed to parse hash",
            DecodeError::ParsePubkeyFailed(_) => "Failed to parse pubkey",
            DecodeError::NotImplemented => "Not implemented",
            DecodeError::InvalidData => "Invalid data",
            DecodeError::UnsupportedEncoding => "Encoding is not supported",
            DecodeError::UnsupportedVersion => "Transaction version is not supported",
        }
    }
}

impl ConversionError {
    /// The error in words.
    pub fn message(&self) -> (text: &'static str)
        ensures
            text@ == self.message_spec()@,
    {
        match self {
            ConversionError::InvalidProgramId => "Invalid program id",
            ConversionError::InvalidData => "Invalid data",
            ConversionError::UnsupportedInstructionFormat => {
                "Cannot convert from UiInstruction::Parsed to CompiledInstruction"
            },
        }
    }

    /// The words of the error.
    pub open spec fn message_spec(&self) -> &'static str {
        match self {
            ConversionError::InvalidProgramId => "Invalid program id",
            ConversionError::InvalidData => "Invalid data",
            ConversionError::UnsupportedInstructionFormat => {
                "Cannot convert from UiInstruction::Parsed to CompiledInstruction"
            },
        }
    }
}

} // verus!
