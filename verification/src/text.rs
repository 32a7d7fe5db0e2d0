//! Text forms of addresses, signatures and hashes, and the two binary-to-text
//! codes in which transactions arrive.

use base64::Engine;
use vstd::prelude::*;

use crate::types::{Pubkey, Signature};

verus! {

/// Why a text is not the base-58 form of a value of fixed size.
#[derive(Clone, Copy, Debug, PartialEq, Eq, Structural)]
pub enum ParseError {
    /// The text stands for more or fewer bytes than the value has.
    WrongSize,
    /// The text holds a character that base 58 does not use.
    Invalid,
}

/// What `solana_pubkey::Pubkey::from_str` makes of a text.
pub uninterp spec fn pubkey_from_text(text: Seq<char>) -> Result<Pubkey, ParseError>;

/// What `solana_signature::Signature::from_str` makes of a text.
pub uninterp spec fn signature_from_text(text: Seq<char>) -> Result<Signature, ParseError>;

/// What `solana_hash::Hash::from_str` makes of a text.
pub uninterp spec fn hash_from_text(text: Seq<char>) -> Result<crate::types::Hash, ParseError>;

/// The base-58 text of an address, as `solana_pubkey::Pubkey` displays it.
pub uninterp spec fn pubkey_text(key: Seq<u8>) -> Seq<char>;

/// The base-58 text of a signature, as `solana_signature::Signature` displays it.
pub uninterp spec fn signature_text(signature: Seq<u8>) -> Seq<char>;

/// The bytes that `bs58` decodes a text to, with the Bitcoin alphabet; `None`
/// where it refuses the text.
pub uninterp spec fn base58_decoded(text: Seq<char>) -> Option<Seq<u8>>;

/// The bytes that `base64` decodes a text to, with the standard alphabet and
/// padding; `None` where it refuses the text.
pub uninterp spec fn base64_decoded(text: Seq<char>) -> Option<Seq<u8>>;

/// Reads an address with `solana_pubkey::Pubkey::from_str`. The result is the
/// named one; the two errors of the outside crate map to the two of this one.
#[verifier::external_body]
pub(crate) fn parse_pubkey(text: &str) -> (parsed: Result<Pubkey, ParseError>)
    ensures
        pubkey_from_text(text@) == parsed,
{
    match text.parse::<solana_pubkey::Pubkey>() {
        Ok(key) => Ok(key.to_bytes()),
        Err(solana_pubkey::ParsePubkeyError::WrongSize) => Err(ParseError::WrongSize),
        Err(solana_pubkey::ParsePubkeyError::Invalid) => Err(ParseError::Invalid),
    }
}

/// Reads a signature with `solana_signature::Signature::from_str`.
#[verifier::external_body]
pub(crate) fn parse_signature(text: &str) -> (parsed: Result<Signature, ParseError>)
    ensures
        signature_from_text(text@) == parsed,
{
    match text.parse::<solana_signature::Signature>() {
        Ok(signature) => Ok(signature.into()),
        Err(solana_signature::ParseSignatureError::WrongSize) => Err(ParseError::WrongSize),
        Err(solana_signature::ParseSignatureError::Invalid) => Err(ParseError::Invalid),
    }
}

/// Reads a hash with `solana_hash::Hash::from_str`.
#[verifier::external_body]
pub(crate) fn parse_hash(text: &str) -> (parsed: Result<crate::types::Hash, ParseError>)
    ensures
        hash_from_text(text@) == parsed,
{
    match text.parse::<solana_hash::Hash>() {
        Ok(hash) => Ok(hash.to_bytes()),
        Err(solana_hash::ParseHashError::WrongSize) => Err(ParseError::WrongSize),
        Err(solana_hash::ParseHashError::Invalid) => Err(ParseError::Invalid),
    }
}

/// Writes an address as `solana_pubkey::Pubkey` displays it.
#[verifier::external_body]
pub(crate) fn pubkey_to_string(key: &Pubkey) -> (text: String)
    ensures
        text@ == pubkey_text(key@),
{
    solana_pubkey::Pubkey::new_from_array(*key).to_string()
}

/// Writes a signature as `solana_signature::Signature` displays it.
#[verifier::external_body]
pub(crate) fn signature_to_string(signature: &Signature) -> (text: String)
    ensures
        text@ == signature_text(signature@),
{
    solana_signature::Signature::from(*signature).to_string()
}

/// Decodes base 58 with `bs58::decode(..).into_vec()`.
#[verifier::external_body]
pub(crate) fn decode_base58(text: &str) -> (bytes: Option<Vec<u8>>)
    ensures
        base58_decoded(text@) == match bytes {
            Some(b) => Some(b@),
            None => None,
        },
{
    bs58::decode(text).into_vec().ok()
}

/// Decodes base 64 with `base64`'s standard engine.
#[verifier::external_body]
pub(crate) fn decode_base64(text: &str) -> (bytes: Option<Vec<u8>>)
    ensures
        base64_decoded(text@) == match bytes {
            Some(b) => Some(b@),
            None => None,
        },
{
    base64::prelude::BASE64_STANDARD.decode(text).ok()
}

} // verus!
