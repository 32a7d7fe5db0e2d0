//! What is recorded of a transaction once it has run.

use vstd::prelude::*;

use crate::address::{parsed_loaded_addresses, LoadedAddresses};
use crate::errors::ConversionError;
use crate::instruction::{group_converter, InnerInstructions, InnerInstructionsView};
use crate::seqs::{lemma_views_empty, lemma_views_push, try_map, views};
use crate::text::{base64_decoded, decode_base64, parse_pubkey, pubkey_from_text};
use crate::types::{err_view, Pubkey, TransactionError};
use crate::ui::{
    Rewards, UiInnerInstructions, UiLoadedAddresses, UiTokenAmount, UiTransactionReturnData, UiTransactionStatusMeta, UiTransactionTokenBalance,
};

verus! {

/// What a program handed back when the transaction ended.
#[derive(Clone, Debug, Default, PartialEq, Eq)]
pub struct TransactionReturnData {
    pub program_id: Pubkey,
    pub data: Vec<u8>,
}

pub struct TransactionReturnDataView {
    pub program_id: Pubkey,
    pub data: Seq<u8>,
}

impl View for TransactionReturnData {
    type V = TransactionReturnDataView;

    open spec fn view(&self) -> TransactionReturnDataView {
        TransactionReturnDataView { program_id: self.program_id, data: self.data@ }
    }
}

/// The balance of a token account before or after a transaction.
#[derive(Clone, Debug, PartialEq, Eq)]
pub struct TransactionTokenBalance {
    pub account_index: u8,
    pub mint: String,
    pub ui_token_amount: UiTokenAmount,
    pub owner: String,
    pub program_id: String,
}

pub struct TransactionTokenBalanceView {
    pub account_index: u8,
    pub mint: Seq<char>,
    pub ui_token_amount: UiTokenAmount,
    pub owner: Seq<char>,
    pub program_id: Seq<char>,
}

impl View for TransactionTokenBalance {
    type V = TransactionTokenBalanceView;

    open spec fn view(&self) -> TransactionTokenBalanceView {
        TransactionTokenBalanceView {
            account_index: self.account_index,
            mint: self.mint@,
            ui_token_amount: self.ui_token_amount,
            owner: self.owner@,
            program_id: self.program_id@,
        }
    }
}

/// The outcome of a transaction and what it changed.
#[derive(Clone, Debug, PartialEq, Eq)]
pub struct TransactionStatusMeta {
    /// `None` if the transaction succeeded.
    pub err: Option<TransactionError>,
    pub fee: u64,
    /// The balances of the accounts before the transaction, by the place of
    /// the account among the account keys.
    pub pre_balances: Vec<u64>,
    pub post_balances: Vec<u64>,
    pub inner_instructions: Option<Vec<InnerInstructions>>,
    pub log_messages: Option<Vec<String>>,
    pub pre_token_balances: Option<Vec<TransactionTokenBalance>>,
    pub post_token_balances: Option<Vec<TransactionTokenBalance>>,
    pub rewards: Option<Rewards>,
    pub loaded_addresses: LoadedAddresses,
    pub return_data: Option<TransactionReturnData>,
    pub compute_units_consumed: Option<u64>,
}

pub struct TransactionStatusMetaView {
    pub err: Option<Seq<u8>>,
    pub fee: u64,
    pub pre_balances: Seq<u64>,
    pub post_balances: Seq<u64>,
    pub inner_instructions: Option<Seq<InnerInstructionsView>>,
    pub log_messages: Option<Vec<String>>,
    pub pre_token_balances: Option<Seq<TransactionTokenBalanceView>>,
    pub post_token_balances: Option<Seq<TransactionTokenBalanceView>>,
    pub rewards: Option<Rewards>,
    pub loaded_writable: Seq<Pubkey>,
    pub loaded_readonly: Seq<Pubkey>,
    pub return_data: Option<TransactionReturnDataView>,
    pub compute_units_consumed: Option<u64>,
}

/// The views of the items of a list, where there is a list.
pub open spec fn option_views<T: View>(items: Option<Vec<T>>) -> Option<Seq<T::V>> {
    match items {
        Some(list) => Some(views(list@)),
        None => None,
    }
}

impl View for TransactionStatusMeta {
    type V = TransactionStatusMetaView;

    open spec fn view(&self) -> TransactionStatusMetaView {
        TransactionStatusMetaView {
            err: err_view(self.err),
            fee: self.fee,
            pre_balances: self.pre_balances@,
            post_balances: self.post_balances@,
            inner_instructions: option_views(self.inner_instructions),
            log_messages: self.log_messages,
            pre_token_balances: option_views(self.pre_token_balances),
            post_token_balances: option_views(self.post_token_balances),
            rewards: self.rewards,
            loaded_writable: self.loaded_addresses.writable@,
            loaded_readonly: self.loaded_addresses.readonly@,
            return_data: match self.return_data {
                Some(data) => Some(data@),
                None => None,
            },
            compute_units_consumed: self.compute_units_consumed,
        }
    }
}

/// The text of an optional field; the empty text where the field is absent.
pub open spec fn text_or_empty(text: Option<String>) -> Seq<char> {
    match text {
        Some(t) => t@,
        None => Seq::empty(),
    }
}

/// The token balance that a document's token balance stands for.
pub open spec fn converted_token_balance(ui: UiTransactionTokenBalance) -> TransactionTokenBalanceView {
    TransactionTokenBalanceView {
        account_index: ui.account_index,
        mint: ui.mint@,
        ui_token_amount: ui.ui_token_amount,
        owner: text_or_empty(ui.owner),
        program_id: text_or_empty(ui.program_id),
    }
}

/// The token balances that a document's list stands for.
pub open spec fn converted_token_balances(uis: Option<Vec<UiTransactionTokenBalance>>) -> Option<
    Seq<TransactionTokenBalanceView>,
> {
    match uis {
        Some(list) => Some(Seq::new(list@.len(), |i: int| converted_token_balance(list@[i]))),
        None => None,
    }
}

/// The return data that a document's return data stands for. The program
/// is read first, then the data.
pub open spec fn converted_return_data(ui: UiTransactionReturnData) -> Result<
    TransactionReturnDataView,
    ConversionError,
> {
    match pubkey_from_text(ui.program_id@) {
        Err(_) => Err(ConversionError::InvalidProgramId),
        Ok(program_id) => match base64_decoded(ui.data@) {
            None => Err(ConversionError::InvalidData),
            Some(data) => Ok(TransactionReturnDataView { program_id, data }),
        },
    }
}

/// The groups of inner instructions that a document's list stands for.
pub open spec fn converted_groups(uis: Option<Vec<UiInnerInstructions>>) -> Result<
    Option<Seq<InnerInstructionsView>>,
    ConversionError,
> {
    match uis {
        None => Ok(None),
        Some(list) => match try_map(list@, group_converter()) {
            Ok(groups) => Ok(Some(groups)),
            Err(e) => Err(e),
        },
    }
}

/// The loaded addresses that a document's metadata stands for. Metadata
/// without loaded addresses, or with one that is no address, stands for none.
pub open spec fn converted_loaded(ui: Option<UiLoadedAddresses>) -> Result<
    (Seq<Pubkey>, Seq<Pubkey>),
    ConversionError,
> {
    match ui {
        None => Err(ConversionError::InvalidProgramId),
        Some(loaded) => match parsed_loaded_addresses(loaded) {
            Ok(lists) => Ok(lists),
            Err(_) => Err(ConversionError::InvalidProgramId),
        },
    }
}

/// The metadata that a document's metadata stands for. The inner
/// instructions are converted first, then the return data, then the loaded
/// addresses; the error is that of the first part that cannot be converted.
pub open spec fn converted_meta(ui: UiTransactionStatusMeta) -> Result<
    TransactionStatusMetaView,
    ConversionError,
> {
    match converted_groups(ui.inner_instructions) {
        Err(e) => Err(e),
        Ok(inner_instructions) => match converted_optional_return_data(ui.return_data) {
            Err(e) => Err(e),
            Ok(return_data) => match converted_loaded(ui.loaded_addresses) {
                Err(e) => Err(e),
                Ok((loaded_writable, loaded_readonly)) => Ok(
                    TransactionStatusMetaView {
                        err: err_view(ui.err),
                        fee: ui.fee,
                        pre_balances: ui.pre_balances@,
                        post_balances: ui.post_balances@,
                        inner_instructions,
                        log_messages: ui.log_messages,
                        pre_token_balances: converted_token_balances(ui.pre_token_balances),
                        post_token_balances: converted_token_balances(ui.post_token_balances),
                        rewards: ui.rewards,
                        loaded_writable,
                        loaded_readonly,
                        return_data,
                        compute_units_consumed: ui.compute_units_consumed,
                    },
                ),
            },
        },
    }
}

/// The return data that a document's metadata stands for, where it has any.
pub open spec fn converted_optional_return_data(ui: Option<UiTransactionReturnData>) -> Result<
    Option<TransactionReturnDataView>,
    ConversionError,
> {
    match ui {
        None => Ok(None),
        Some(data) => match converted_return_data(data) {
            Ok(converted) => Ok(Some(converted)),
            Err(e) => Err(e),
        },
    }
}

/// The metadata of a transaction of which nothing was recorded: a success
/// without fee, balances or loaded addresses.
pub open spec fn empty_meta() -> TransactionStatusMetaView {
    TransactionStatusMetaView {
        err: None,
        fee: 0,
        pre_balances: Seq::empty(),
        post_balances: Seq::empty(),
        inner_instructions: None,
        log_messages: None,
        pre_token_balances: None,
        post_token_balances: None,
        rewards: None,
        loaded_writable: Seq::empty(),
        loaded_readonly: Seq::empty(),
        return_data: None,
        compute_units_consumed: None,
    }
}

impl TransactionReturnData {
    /// Converts the return data of a document.
    pub fn try_from_ui(ui: &UiTransactionReturnData) -> (data: Result<
        TransactionReturnData,
        ConversionError,
    >)
        ensures
            converted_return_data(*ui) == match data {
                Ok(d) => Ok::<TransactionReturnDataView, ConversionError>(d@),
                Err(e) => Err(e),
            },
    {
        let program_id = match parse_pubkey(ui.program_id.as_str()) {
            Ok(key) => key,
            Err(_) => {
                return Err(ConversionError::InvalidProgramId);
            },
        };
        match decode_base64(ui.data.as_str()) {
            Some(data) => Ok(TransactionReturnData { program_id, data }),
            None => Err(ConversionError::InvalidData),
        }
    }
}

/// The text of an optional field; the empty text where the field is absent.
fn text_or_default(text: Option<String>) -> (out: String)
    ensures
        out@ == text_or_empty(text),
{
    match text {
        Some(t) => t,
        None => String::new(),
    }
}

impl TransactionTokenBalance {
    /// Converts a token balance of a document: an absent owner or program
    /// becomes the empty text.
    pub fn from_ui(ui: UiTransactionTokenBalance) -> (balance: TransactionTokenBalance)
        ensures
            balance@ == converted_token_balance(ui),
    {
        TransactionTokenBalance {
            account_index: ui.account_index,
            mint: ui.mint,
            ui_token_amount: ui.ui_token_amount,
            owner: text_or_default(ui.owner),
            program_id: text_or_default(ui.program_id),
        }
    }

    /// Converts the token balances of a document in order.
    pub fn from_ui_list(uis: Option<Vec<UiTransactionTokenBalance>>) -> (balances: Option<
        Vec<TransactionTokenBalance>,
    >)
        ensures
            option_views(balances) == converted_token_balances(uis),
    {
        match uis {
            None => None,
            Some(list) => {
                let ghost all = list@;
                let mut rest = crate::seqs::reversed(list);
                let mut out: Vec<TransactionTokenBalance> = Vec::new();
                proof {
                    lemma_views_empty::<TransactionTokenBalance>();
                    assert(all.reverse().reverse() =~= all);
                }
                while rest.len() > 0
                    invariant
                        rest@.len() <= all.len(),
                        out@.len() + rest@.len() == all.len(),
                        rest@ == all.reverse().subrange(0, rest@.len() as int),
                        views(out@) == Seq::new(
                            out@.len(),
                            |i: int| converted_token_balance(all[i]),
                        ),
                    decreases rest.len(),
                {
                    let ghost n = out@.len() as int;
                    let ui = rest.pop().unwrap();
                    assert(ui == all[n]) by {
                        assert(all.reverse()[all.len() - 1 - n] == all[n]);
                    }
                    let balance = TransactionTokenBalance::from_ui(ui);
                    proof {
                        lemma_views_push(out@, balance);
                    }
                    out.push(balance);
                    assert(views(out@) =~= Seq::new(
                        out@.len(),
                        |i: int| converted_token_balance(all[i]),
                    ));
                    assert(rest@ =~= all.reverse().subrange(0, rest@.len() as int));
                }
                assert(views(out@) =~= Seq::new(
                    all.len(),
                    |i: int| converted_token_balance(all[i]),
                ));
                Some(out)
            },
        }
    }
}

impl TransactionStatusMeta {
    /// Converts the metadata of a document.
    pub fn try_from_ui(meta: UiTransactionStatusMeta) -> (converted: Result<
        TransactionStatusMeta,
        ConversionError,
    >)
        ensures
            converted_meta(meta) == match converted {
                Ok(m) => Ok::<TransactionStatusMetaView, ConversionError>(m@),
                Err(e) => Err(e),
            },
    {
        let inner_instructions = match &meta.inner_instructions {
            Some(groups) => match InnerInstructions::try_from_ui_list(groups) {
                Ok(converted) => Some(converted),
                Err(e) => {
                    return Err(e);
                },
            },
            None => None,
        };
        let return_data = match &meta.return_data {
            Some(data) => match TransactionReturnData::try_from_ui(data) {
                Ok(converted) => Some(converted),
                Err(e) => {
                    return Err(e);
                },
            },
            None => None,
        };
        let loaded_addresses = match &meta.loaded_addresses {
            Some(loaded) => match LoadedAddresses::try_from_ui(loaded) {
                Ok(converted) => converted,
                Err(_) => {
                    return Err(ConversionError::InvalidProgramId);
                },
            },
            None => {
                return Err(ConversionError::InvalidProgramId);
            },
        };
        let pre_token_balances = TransactionTokenBalance::from_ui_list(meta.pre_token_balances);
        let post_token_balances = TransactionTokenBalance::from_ui_list(meta.post_token_balances);
        Ok(
            TransactionStatusMeta {
                err: meta.err,
                fee: meta.fee,
                pre_balances: meta.pre_balances,
                post_balances: meta.post_balances,
                inner_instructions,
                log_messages: meta.log_messages,
                pre_token_balances,
                post_token_balances,
                rewards: meta.rewards,
                loaded_addresses,
                return_data,
                compute_units_consumed: meta.compute_units_consumed,
            },
        )
    }

    /// The metadata of a transaction of which nothing was recorded.
    pub fn empty() -> (meta: TransactionStatusMeta)
        ensures
            meta@ == empty_meta(),
    {
        let meta = TransactionStatusMeta {
            err: None,
            fee: 0,
            pre_balances: Vec::new(),
            post_balances: Vec::new(),
            inner_instructions: None,
            log_messages: None,
            pre_token_balances: None,
            post_token_balances: None,
            rewards: None,
            loaded_addresses: LoadedAddresses::empty(),
            return_data: None,
            compute_units_consumed: None,
        };
        assert(meta@.pre_balances =~= Seq::<u64>::empty());
        assert(meta@.post_balances =~= Seq::<u64>::empty());
        assert(meta@.loaded_writable =~= Seq::<Pubkey>::empty());
        assert(meta@.loaded_readonly =~= Seq::<Pubkey>::empty());
        meta
    }
}

} // verus!
