//! Addresses that a transaction loads from lookup tables.

use vstd::prelude::*;

use crate::errors::DecodeError;
use crate::seqs::{lemma_try_map_prefix, lemma_try_map_step, try_map};
use crate::text::{parse_pubkey, pubkey_from_text, ParseError};
use crate::types::Pubkey;
use crate::ui::{UiAddressTableLookup, UiLoadedAddresses};

verus! {

/// The addresses that a transaction loaded, writable ones and read-only ones.
#[derive(Clone, Debug, Default, PartialEq, Eq)]
pub struct LoadedAddresses {
    pub writable: Vec<Pubkey>,
    pub readonly: Vec<Pubkey>,
}

/// A lookup of addresses in a table on the chain.
#[derive(Clone, Debug, PartialEq, Eq)]
pub struct MessageAddressTableLookup {
    /// The account that holds the table.
    pub account_key: Pubkey,
    pub writable_indexes: Vec<u8>,
    pub readonly_indexes: Vec<u8>,
}

pub struct MessageAddressTableLookupView {
    pub account_key: Pubkey,
    pub writable_indexes: Seq<u8>,
    pub readonly_indexes: Seq<u8>,
}

impl View for MessageAddressTableLookup {
    type V = MessageAddressTableLookupView;

    open spec fn view(&self) -> MessageAddressTableLookupView {
        MessageAddressTableLookupView {
            account_key: self.account_key,
            writable_indexes: self.writable_indexes@,
            readonly_indexes: self.readonly_indexes@,
        }
    }
}

/// Reads one address.
pub open spec fn key_parser() -> spec_fn(String) -> Result<Pubkey, ParseError> {
    |text: String| pubkey_from_text(text@)
}

/// The addresses that a list of texts stands for, or the error of the first
/// text that is no address.
pub open spec fn parsed_keys(texts: Seq<String>) -> Result<Seq<Pubkey>, ParseError> {
    try_map(texts, key_parser())
}

/// The loaded addresses that a document's lists stand for. The writable
/// list is read first; where both lists hold a text that is no address, the
/// error is that of the writable list.
pub open spec fn parsed_loaded_addresses(ui: UiLoadedAddresses) -> Result<
    (Seq<Pubkey>, Seq<Pubkey>),
    ParseError,
> {
    match parsed_keys(ui.writable@) {
        Ok(writable) => match parsed_keys(ui.readonly@) {
            Ok(readonly) => Ok((writable, readonly)),
            Err(e) => Err(e),
        },
        Err(e) => Err(e),
    }
}

/// The lookup that a document's lookup stands for.
pub open spec fn parsed_lookup(ui: UiAddressTableLookup) -> Result<
    MessageAddressTableLookupView,
    DecodeError,
> {
    match pubkey_from_text(ui.account_key@) {
        Ok(account_key) => Ok(
            MessageAddressTableLookupView {
                account_key,
                writable_indexes: ui.writable_indexes@,
                readonly_indexes: ui.readonly_indexes@,
            },
        ),
        Err(_) => Err(DecodeError::ParsePubkeyFailed(ParseError::Invalid)),
    }
}

/// Reads a list of addresses.
pub fn parse_keys(texts: &Vec<String>) -> (keys: Result<Vec<Pubkey>, ParseError>)
    ensures
        parsed_keys(texts@) == match keys {
            Ok(k) => Ok::<Seq<Pubkey>, ParseError>(k@),
            Err(e) => Err(e),
        },
{
    let mut keys: Vec<Pubkey> = Vec::new();
    let mut i: usize = 0;
    assert(texts@.subrange(0, 0) =~= Seq::<String>::empty());
    while i < texts.len()
        invariant
            i <= texts.len(),
            try_map(texts@.subrange(0, i as int), key_parser()) == Ok::<Seq<Pubkey>, ParseError>(
                keys@,
            ),
        decreases texts.len() - i,
    {
        proof {
            lemma_try_map_step(texts@, key_parser(), i as int);
        }
        match parse_pubkey(texts[i].as_str()) {
            Ok(key) => {
                keys.push(key);
            },
            Err(e) => {
                proof {
                    lemma_try_map_prefix(texts@, key_parser(), i + 1);
                }
                return Err(e);
            },
        }
        i = i + 1;
    }
    assert(texts@.subrange(0, texts.len() as int) =~= texts@);
    Ok(keys)
}

impl LoadedAddresses {
    /// Reads the loaded addresses of a document.
    pub fn try_from_ui(ui: &UiLoadedAddresses) -> (loaded: Result<LoadedAddresses, ParseError>)
        ensures
            parsed_loaded_addresses(*ui) == match loaded {
                Ok(l) => Ok::<(Seq<Pubkey>, Seq<Pubkey>), ParseError>((l.writable@, l.readonly@)),
                Err(e) => Err(e),
            },
    {
        match parse_keys(&ui.writable) {
            Ok(writable) => match parse_keys(&ui.readonly) {
                Ok(readonly) => Ok(LoadedAddresses { writable, readonly }),
                Err(e) => Err(e),
            },
            Err(e) => Err(e),
        }
    }

    /// No loaded addresses.
    pub fn empty() -> (loaded: LoadedAddresses)
        ensures
            loaded.writable@.len() == 0,
            loaded.readonly@.len() == 0,
    {
        LoadedAddresses { writable: Vec::new(), readonly: Vec::new() }
    }
}

impl MessageAddressTableLookup {
    /// Reads a lookup of a document. A key that is no address is reported
    /// as invalid, whatever is wrong with it.
    pub fn try_from_ui(ui: &UiAddressTableLookup) -> (lookup: Result<
        MessageAddressTableLookup,
        DecodeError,
    >)
        ensures
            parsed_lookup(*ui) == match lookup {
                Ok(l) => Ok::<MessageAddressTableLookupView, DecodeError>(l@),
                Err(e) => Err(e),
            },
    {
        match parse_pubkey(ui.account_key.as_str()) {
            Ok(account_key) => {
                let writable_indexes = ui.writable_indexes.clone();
                let readonly_indexes = ui.readonly_indexes.clone();
                assert(writable_indexes@ =~= ui.writable_indexes@);
                assert(readonly_indexes@ =~= ui.readonly_indexes@);
                Ok(MessageAddressTableLookup { account_key, writable_indexes, readonly_indexes })
            },
            Err(_) => Err(DecodeError::ParsePubkeyFailed(ParseError::Invalid)),
        }
    }
}

} // verus!
