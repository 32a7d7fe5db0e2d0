//! Confirmed blocks: decoding them from a document and turning them into the
//! form in which they are uploaded.

use vstd::prelude::*;
use vstd::string::*;

use crate::decodable::Decodable;
use crate::errors::DecodeError;
use crate::seqs::{
    lemma_try_map_prefix, lemma_try_map_step, lemma_views_empty, lemma_views_push, reversed, try_map, views,
};
use crate::transaction::{
    decoded_complete, decoded_transaction, Transaction, TransactionView, VersionedTransaction,
    VersionedTransactionView, VersionedTransactionWithStatusMeta,
    VersionedTransactionWithStatusMetaView,
};
use crate::tx_status_meta::{empty_meta, TransactionStatusMeta};
use crate::types::UnixTimestamp;
use crate::ui::{
    BlockEncodingOptions, EncodedConfirmedBlock, EncodedTransactionWithStatusMeta, Reward,
    Rewards, TransactionDetails, UiConfirmedBlock, UiTransactionEncoding,
};
use crate::versioned_message::{VersionedMessage, VersionedMessageView};

verus! {

/// A transaction of a block, with its metadata where it was recorded. Very
/// old transactions have none.
#[derive(Clone, Debug, PartialEq, Eq)]
pub enum TransactionWithStatusMeta {
    MissingMetadata(Transaction),
    Complete(VersionedTransactionWithStatusMeta),
}

pub enum TransactionWithStatusMetaView {
    MissingMetadata(TransactionView),
    Complete(VersionedTransactionWithStatusMetaView),
}

impl View for TransactionWithStatusMeta {
    type V = TransactionWithStatusMetaView;

    open spec fn view(&self) -> TransactionWithStatusMetaView {
        match self {
            TransactionWithStatusMeta::MissingMetadata(t) => {
                TransactionWithStatusMetaView::MissingMetadata(t@)
            },
            TransactionWithStatusMeta::Complete(t) => TransactionWithStatusMetaView::Complete(t@),
        }
    }
}

/// A confirmed block.
#[derive(Clone, Debug, PartialEq, Eq)]
pub struct ConfirmedBlock {
    pub previous_blockhash: String,
    pub blockhash: String,
    pub parent_slot: u64,
    pub transactions: Vec<TransactionWithStatusMeta>,
    pub rewards: Rewards,
    pub num_partitions: Option<u64>,
    pub block_time: Option<UnixTimestamp>,
    pub block_height: Option<u64>,
}

pub struct ConfirmedBlockView {
    pub previous_blockhash: Seq<char>,
    pub blockhash: Seq<char>,
    pub parent_slot: u64,
    pub transactions: Seq<TransactionWithStatusMetaView>,
    pub rewards: Seq<Reward>,
    pub num_partitions: Option<u64>,
    pub block_time: Option<UnixTimestamp>,
    pub block_height: Option<u64>,
}

impl View for ConfirmedBlock {
    type V = ConfirmedBlockView;

    open spec fn view(&self) -> ConfirmedBlockView {
        ConfirmedBlockView {
            previous_blockhash: self.previous_blockhash@,
            blockhash: self.blockhash@,
            parent_slot: self.parent_slot,
            transactions: views(self.transactions@),
            rewards: self.rewards@,
            num_partitions: self.num_partitions,
            block_time: self.block_time,
            block_height: self.block_height,
        }
    }
}

/// A confirmed block every transaction of which has metadata: the form in
/// which a block is uploaded.
#[derive(Clone, Debug, PartialEq, Eq)]
pub struct VersionedConfirmedBlock {
    pub previous_blockhash: String,
    pub blockhash: String,
    pub parent_slot: u64,
    pub transactions: Vec<VersionedTransactionWithStatusMeta>,
    pub rewards: Rewards,
    pub num_partitions: Option<u64>,
    pub block_time: Option<UnixTimestamp>,
    pub block_height: Option<u64>,
}

pub struct VersionedConfirmedBlockView {
    pub previous_blockhash: Seq<char>,
    pub blockhash: Seq<char>,
    pub parent_slot: u64,
    pub transactions: Seq<VersionedTransactionWithStatusMetaView>,
    pub rewards: Seq<Reward>,
    pub num_partitions: Option<u64>,
    pub block_time: Option<UnixTimestamp>,
    pub block_height: Option<u64>,
}

impl View for VersionedConfirmedBlock {
    type V = VersionedConfirmedBlockView;

    open spec fn view(&self) -> VersionedConfirmedBlockView {
        VersionedConfirmedBlockView {
            previous_blockhash: self.previous_blockhash@,
            blockhash: self.blockhash@,
            parent_slot: self.parent_slot,
            transactions: views(self.transactions@),
            rewards: self.rewards@,
            num_partitions: self.num_partitions,
            block_time: self.block_time,
            block_height: self.block_height,
        }
    }
}

/// Why a block cannot be uploaded: it had this many transactions, and only
/// that many of them have metadata.
#[derive(Clone, Copy, Debug, PartialEq, Eq, Structural)]
pub enum ConvertBlockError {
    TransactionsMissing(usize, usize),
}

/// Why a document gives no block to upload.
#[derive(Clone, Copy, Debug, PartialEq, Eq, Structural)]
pub enum ConvertError {
    Decode(DecodeError),
    Convert(ConvertBlockError),
}

/// The switches that a process sets once and reads often.
#[derive(Clone, Copy, Debug, PartialEq, Eq, Structural)]
pub struct RuntimeToggles {
    /// Whether a transaction without metadata is given empty metadata when
    /// a block is converted for upload, instead of being dropped.
    pub add_empty_tx_metadata_if_missing: bool,
}

/// The transaction that an entry of a document stands for: one with
/// metadata where the entry has metadata, a bare legacy transaction where
/// it has none.
pub open spec fn decoded_entry(
    encoded: EncodedTransactionWithStatusMeta,
    encoding: UiTransactionEncoding,
) -> Result<TransactionWithStatusMetaView, DecodeError> {
    match encoded.meta {
        Some(_) => match decoded_complete(encoded, encoding) {
            Ok(complete) => Ok(TransactionWithStatusMetaView::Complete(complete)),
            Err(e) => Err(e),
        },
        None => match decoded_transaction(encoded.transaction) {
            Ok(transaction) => Ok(TransactionWithStatusMetaView::MissingMetadata(transaction)),
            Err(e) => Err(e),
        },
    }
}

/// Decodes one entry under an encoding.
pub open spec fn entry_decoder(encoding: UiTransactionEncoding) -> spec_fn(
    EncodedTransactionWithStatusMeta,
) -> Result<TransactionWithStatusMetaView, DecodeError> {
    |encoded: EncodedTransactionWithStatusMeta| decoded_entry(encoded, encoding)
}

/// The transactions that a block document stands for under the level of
/// detail that was asked for.
pub open spec fn decoded_transactions(
    ui: UiConfirmedBlock,
    encoding: UiTransactionEncoding,
    details: TransactionDetails,
) -> Result<Seq<TransactionWithStatusMetaView>, DecodeError> {
    match details {
        TransactionDetails::Full | TransactionDetails::Accounts => match ui.transactions {
            None => Err(DecodeError::InvalidEncoding),
            Some(list) => try_map(list@, entry_decoder(encoding)),
        },
        TransactionDetails::Signatures => match ui.signatures {
            None => Err(DecodeError::InvalidEncoding),
            Some(_) => Err(DecodeError::NotImplemented),
        },
        TransactionDetails::Omitted => Ok(Seq::empty()),
    }
}

/// The rewards of a document; none where it has none.
pub open spec fn rewards_or_none(rewards: Option<Rewards>) -> Seq<Reward> {
    match rewards {
        Some(list) => list@,
        None => Seq::empty(),
    }
}

/// The block that a block document stands for.
pub open spec fn decoded_block(
    ui: UiConfirmedBlock,
    encoding: UiTransactionEncoding,
    options: BlockEncodingOptions,
) -> Result<ConfirmedBlockView, DecodeError> {
    match decoded_transactions(ui, encoding, options.transaction_details) {
        Err(e) => Err(e),
        Ok(transactions) => Ok(
            ConfirmedBlockView {
                previous_blockhash: ui.previous_blockhash@,
                blockhash: ui.blockhash@,
                parent_slot: ui.parent_slot,
                transactions,
                rewards: rewards_or_none(ui.rewards),
                num_partitions: ui.num_reward_partitions,
                block_time: ui.block_time,
                block_height: ui.block_height,
            },
        ),
    }
}

/// A legacy transaction with the metadata of a transaction of which
/// nothing was recorded.
pub open spec fn with_empty_meta(transaction: TransactionView) -> VersionedTransactionWithStatusMetaView {
    VersionedTransactionWithStatusMetaView {
        transaction: VersionedTransactionView {
            signatures: transaction.signatures,
            message: VersionedMessageView::Legacy(transaction.message),
        },
        meta: empty_meta(),
    }
}

/// The uploadable form of a transaction: itself where it has metadata; with
/// empty metadata where it has none and the switch is on; none otherwise.
pub open spec fn completed(transaction: TransactionWithStatusMetaView, add_empty: bool) -> Option<
    VersionedTransactionWithStatusMetaView,
> {
    match transaction {
        TransactionWithStatusMetaView::Complete(t) => Some(t),
        TransactionWithStatusMetaView::MissingMetadata(t) => if add_empty {
            Some(with_empty_meta(t))
        } else {
            None
        },
    }
}

/// The uploadable forms of the transactions that have one, in order.
pub open spec fn completed_all(
    transactions: Seq<TransactionWithStatusMetaView>,
    add_empty: bool,
) -> Seq<VersionedTransactionWithStatusMetaView>
    decreases transactions.len(),
{
    if transactions.len() == 0 {
        Seq::empty()
    } else {
        let before = completed_all(transactions.drop_last(), add_empty);
        match completed(transactions.last(), add_empty) {
            Some(t) => before.push(t),
            None => before,
        }
    }
}

/// The uploadable form of a block: the same block, if every transaction
/// has an uploadable form; else the count of transactions before and after.
pub open spec fn versioned_block(block: ConfirmedBlockView, add_empty: bool) -> Result<
    VersionedConfirmedBlockView,
    ConvertBlockError,
> {
    let transactions = completed_all(block.transactions, add_empty);
    if transactions.len() != block.transactions.len() {
        Err(
            ConvertBlockError::TransactionsMissing(
                block.transactions.len() as usize,
                transactions.len() as usize,
            ),
        )
    } else {
        Ok(
            VersionedConfirmedBlockView {
                previous_blockhash: block.previous_blockhash,
                blockhash: block.blockhash,
                parent_slot: block.parent_slot,
                transactions,
                rewards: block.rewards,
                num_partitions: block.num_partitions,
                block_time: block.block_time,
                block_height: block.block_height,
            },
        )
    }
}

/// The block document that an encoded block is: every optional part
/// present but the signatures.
pub open spec fn ui_block(block: EncodedConfirmedBlock) -> UiConfirmedBlock {
    UiConfirmedBlock {
        previous_blockhash: block.previous_blockhash,
        blockhash: block.blockhash,
        parent_slot: block.parent_slot,
        transactions: Some(block.transactions),
        signatures: None,
        rewards: Some(block.rewards),
        num_reward_partitions: block.num_partitions,
        block_time: block.block_time,
        block_height: block.block_height,
    }
}

/// The block to upload that an encoded block stands for.
pub open spec fn converted_block(
    block: EncodedConfirmedBlock,
    encoding: UiTransactionEncoding,
    options: BlockEncodingOptions,
    add_empty: bool,
) -> Result<VersionedConfirmedBlockView, ConvertError> {
    match decoded_block(ui_block(block), encoding, options) {
        Err(e) => Err(ConvertError::Decode(e)),
        Ok(confirmed) => match versioned_block(confirmed, add_empty) {
            Err(e) => Err(ConvertError::Convert(e)),
            Ok(versioned) => Ok(versioned),
        },
    }
}

/// No more transactions have an uploadable form than there are.
pub proof fn lemma_completed_all_len(
    transactions: Seq<TransactionWithStatusMetaView>,
    add_empty: bool,
)
    ensures
        completed_all(transactions, add_empty).len() <= transactions.len(),
        add_empty ==> completed_all(transactions, add_empty).len() == transactions.len(),
    decreases transactions.len(),
{
    if transactions.len() > 0 {
        lemma_completed_all_len(transactions.drop_last(), add_empty);
    }
}

/// With the switch on, every block has an uploadable form with as many
/// transactions as it has.
pub proof fn lemma_add_empty_keeps_count(block: ConfirmedBlockView)
    ensures
        versioned_block(block, true) matches Ok(versioned) && versioned.transactions.len()
            == block.transactions.len(),
{
    lemma_completed_all_len(block.transactions, true);
}

/// Sets the switch for transactions without metadata.
pub fn set_add_empty_tx_metadata_if_missing(toggles: &mut RuntimeToggles, value: bool)
    ensures
        final(toggles).add_empty_tx_metadata_if_missing == value,
{
    toggles.add_empty_tx_metadata_if_missing = value;
}

/// Reads the switch for transactions without metadata.
pub fn add_empty_tx_metadata_if_missing(toggles: &RuntimeToggles) -> (value: bool)
    ensures
        value == toggles.add_empty_tx_metadata_if_missing,
{
    toggles.add_empty_tx_metadata_if_missing
}

/// Whether a text switches something on: it is `1`, or `true` in any case
/// of the letters.
pub open spec fn switches_on(text: Seq<char>) -> bool {
    ||| text == seq!['1']
    ||| (text.len() == 4 && (text[0] == 't' || text[0] == 'T') && (text[1] == 'r' || text[1]
        == 'R') && (text[2] == 'u' || text[2] == 'U') && (text[3] == 'e' || text[3] == 'E'))
}

/// Whether a text switches something on.
pub fn is_switched_on(text: &str) -> (on: bool)
    ensures
        on == switches_on(text@),
{
    if !text.is_ascii() {
        proof {
            let i = choose|i: int|
                0 <= i < text@.len() && !('\0' <= #[trigger] text@[i] <= '\u{7f}');
            assert(!switches_on(text@));
        }
        return false;
    }
    let n = text.as_bytes().len();
    proof {
        is_ascii_spec_bytes(text);
        assert(text.spec_bytes().len() == text@.len());
    }
    if n == 1 {
        let c = text.get_ascii(0);
        assert(text@ =~= seq![text@[0]]);
        c == 49
    } else if n == 4 {
        let a = text.get_ascii(0);
        let b = text.get_ascii(1);
        let c = text.get_ascii(2);
        let d = text.get_ascii(3);
        (a == 116 || a == 84) && (b == 114 || b == 82) && (c == 117 || c == 85) && (d == 101 || d
            == 69)
    } else {
        false
    }
}

impl RuntimeToggles {
    /// The switches of a process, from the value of the variable
    /// `ADD_EMPTY_TX_METADATA_IF_MISSING` in its environment, if it is set.
    pub fn from_setting(setting: Option<&str>) -> (toggles: RuntimeToggles)
        ensures
            toggles.add_empty_tx_metadata_if_missing == match setting {
                Some(text) => switches_on(text@),
                None => false,
            },
    {
        RuntimeToggles {
            add_empty_tx_metadata_if_missing: match setting {
                Some(text) => is_switched_on(text),
                None => false,
            },
        }
    }
}

impl TransactionWithStatusMeta {
    /// Decodes an entry of a document.
    pub fn decode(encoded: EncodedTransactionWithStatusMeta, encoding: UiTransactionEncoding) -> (transaction:
        Result<TransactionWithStatusMeta, DecodeError>)
        ensures
            decoded_entry(encoded, encoding) == match transaction {
                Ok(t) => Ok::<TransactionWithStatusMetaView, DecodeError>(t@),
                Err(e) => Err(e),
            },
    {
        match encoded.meta {
            Some(_) => match VersionedTransactionWithStatusMeta::decode(encoded, encoding) {
                Ok(complete) => Ok(TransactionWithStatusMeta::Complete(complete)),
                Err(e) => Err(e),
            },
            None => match Transaction::decode(&encoded.transaction) {
                Ok(transaction) => Ok(TransactionWithStatusMeta::MissingMetadata(transaction)),
                Err(e) => Err(e),
            },
        }
    }

    /// Decodes the entries of a document in order. The error is that of the
    /// first entry that cannot be decoded.
    pub fn decode_list(list: Vec<EncodedTransactionWithStatusMeta>, encoding: UiTransactionEncoding) -> (transactions:
        Result<Vec<TransactionWithStatusMeta>, DecodeError>)
        ensures
            try_map(list@, entry_decoder(encoding)) == match transactions {
                Ok(t) => Ok::<Seq<TransactionWithStatusMetaView>, DecodeError>(views(t@)),
                Err(e) => Err(e),
            },
    {
        let ghost all = list@;
        let mut rest = reversed(list);
        let mut out: Vec<TransactionWithStatusMeta> = Vec::new();
        proof {
            lemma_views_empty::<TransactionWithStatusMeta>();
            assert(all.subrange(0, 0) =~= Seq::<EncodedTransactionWithStatusMeta>::empty());
        }
        while rest.len() > 0
            invariant
                all == list@,
                out@.len() + rest@.len() == all.len(),
                rest@ == all.reverse().subrange(0, rest@.len() as int),
                try_map(all.subrange(0, out@.len() as int), entry_decoder(encoding)) == Ok::<
                    Seq<TransactionWithStatusMetaView>,
                    DecodeError,
                >(views(out@)),
            decreases rest.len(),
        {
            let ghost n = out@.len() as int;
            let entry = rest.pop().unwrap();
            proof {
                assert(all.reverse()[all.len() - 1 - n] == all[n]);
                assert(entry == all[n]);
                lemma_try_map_step(all, entry_decoder(encoding), n);
            }
            match TransactionWithStatusMeta::decode(entry, encoding) {
                Ok(transaction) => {
                    proof {
                        lemma_views_push(out@, transaction);
                    }
                    out.push(transaction);
                },
                Err(e) => {
                    proof {
                        lemma_try_map_prefix(all, entry_decoder(encoding), n + 1);
                    }
                    return Err(e);
                },
            }
            assert(rest@ =~= all.reverse().subrange(0, rest@.len() as int));
        }
        assert(all.subrange(0, all.len() as int) =~= all);
        Ok(out)
    }
}

impl ConfirmedBlock {
    /// Decodes a block document under the level of detail that was asked for.
    pub fn decode_with_options(
        ui_confirmed_block: UiConfirmedBlock,
        encoding: UiTransactionEncoding,
        options: BlockEncodingOptions,
    ) -> (block: Result<ConfirmedBlock, DecodeError>)
        ensures
            decoded_block(ui_confirmed_block, encoding, options) == match block {
                Ok(b) => Ok::<ConfirmedBlockView, DecodeError>(b@),
                Err(e) => Err(e),
            },
    {
        let transactions = match options.transaction_details {
            TransactionDetails::Full | TransactionDetails::Accounts => {
                match ui_confirmed_block.transactions {
                    None => {
                        return Err(DecodeError::InvalidEncoding);
                    },
                    Some(list) => match TransactionWithStatusMeta::decode_list(list, encoding) {
                        Ok(transactions) => transactions,
                        Err(e) => {
                            return Err(e);
                        },
                    },
                }
            },
            TransactionDetails::Signatures => {
                match ui_confirmed_block.signatures {
                    None => {
                        return Err(DecodeError::InvalidEncoding);
                    },
                    Some(_) => {
                        return Err(DecodeError::NotImplemented);
                    },
                }
            },
            TransactionDetails::Omitted => {
                proof {
                    lemma_views_empty::<TransactionWithStatusMeta>();
                }
                Vec::new()
            },
        };
        let rewards = match ui_confirmed_block.rewards {
            Some(rewards) => rewards,
            None => Vec::new(),
        };
        Ok(
            ConfirmedBlock {
                previous_blockhash: ui_confirmed_block.previous_blockhash,
                blockhash: ui_confirmed_block.blockhash,
                parent_slot: ui_confirmed_block.parent_slot,
                transactions,
                rewards,
                num_partitions: ui_confirmed_block.num_reward_partitions,
                block_time: ui_confirmed_block.block_time,
                block_height: ui_confirmed_block.block_height,
            },
        )
    }
}

impl VersionedTransactionWithStatusMeta {
    /// The uploadable form of a transaction without metadata: the same
    /// transaction with the metadata of one of which nothing was recorded.
    pub fn from_legacy(transaction: Transaction) -> (complete: VersionedTransactionWithStatusMeta)
        ensures
            complete@ == with_empty_meta(transaction@),
    {
        VersionedTransactionWithStatusMeta {
            transaction: VersionedTransaction {
                signatures: transaction.signatures,
                message: VersionedMessage::Legacy(transaction.message),
            },
            meta: TransactionStatusMeta::empty(),
        }
    }
}

impl VersionedConfirmedBlock {
    /// Turns a block into the form in which it is uploaded. A transaction
    /// without metadata is given empty metadata if `add_empty` is set; else
    /// the block is refused, with the count of its transactions and the
    /// count of those that have metadata.
    pub fn try_from_block(block: ConfirmedBlock, add_empty: bool) -> (versioned: Result<
        VersionedConfirmedBlock,
        ConvertBlockError,
    >)
        ensures
            versioned_block(block@, add_empty) == match versioned {
                Ok(v) => Ok::<VersionedConfirmedBlockView, ConvertBlockError>(v@),
                Err(e) => Err(e),
            },
    {
        let expected_transaction_count = block.transactions.len();
        let ghost all = block.transactions@;
        let mut rest = reversed(block.transactions);
        let mut txs: Vec<VersionedTransactionWithStatusMeta> = Vec::new();
        let mut taken: usize = 0;
        proof {
            lemma_views_empty::<VersionedTransactionWithStatusMeta>();
            assert(views(all).subrange(0, 0) =~= Seq::<TransactionWithStatusMetaView>::empty());
        }
        while rest.len() > 0
            invariant
                all == block.transactions@,
                all.len() == expected_transaction_count,
                taken + rest@.len() == all.len(),
                rest@ == all.reverse().subrange(0, rest@.len() as int),
                completed_all(views(all).subrange(0, taken as int), add_empty) == views(txs@),
            decreases rest.len(),
        {
            let tx = rest.pop().unwrap();
            proof {
                assert(all.reverse()[all.len() - 1 - taken] == all[taken as int]);
                assert(tx == all[taken as int]);
                let longer = views(all).subrange(0, taken + 1);
                assert(longer.drop_last() =~= views(all).subrange(0, taken as int));
                assert(longer.last() == tx@);
            }
            match tx {
                TransactionWithStatusMeta::MissingMetadata(transaction) => {
                    if add_empty {
                        let complete = VersionedTransactionWithStatusMeta::from_legacy(transaction);
                        proof {
                            lemma_views_push(txs@, complete);
                        }
                        txs.push(complete);
                    }
                },
                TransactionWithStatusMeta::Complete(complete) => {
                    proof {
                        lemma_views_push(txs@, complete);
                    }
                    txs.push(complete);
                },
            }
            taken = taken + 1;
            assert(rest@ =~= all.reverse().subrange(0, rest@.len() as int));
        }
        assert(views(all).subrange(0, all.len() as int) =~= views(all));
        if txs.len() != expected_transaction_count {
            return Err(
                ConvertBlockError::TransactionsMissing(expected_transaction_count, txs.len()),
            );
        }
        Ok(
            VersionedConfirmedBlock {
                previous_blockhash: block.previous_blockhash,
                blockhash: block.blockhash,
                parent_slot: block.parent_slot,
                transactions: txs,
                rewards: block.rewards,
                num_partitions: block.num_partitions,
                block_time: block.block_time,
                block_height: block.block_height,
            },
        )
    }
}

/// The cell that holds a block: its encoded form in the best frame.
pub fn encode_block(encoded: &[u8]) -> (cell: Result<Vec<u8>, crate::compression::CompressionError>)
    ensures
        crate::compression::compressed_best(encoded@) == match cell {
            Ok(c) => Ok::<Seq<u8>, crate::compression::CompressionError>(c@),
            Err(e) => Err(e),
        },
{
    crate::compression::compress_best(encoded)
}

/// The cell that holds a transaction: its encoded form in the best frame.
pub fn encode_transaction(encoded: &[u8]) -> (cell: Result<
    Vec<u8>,
    crate::compression::CompressionError,
>)
    ensures
        crate::compression::compressed_best(encoded@) == match cell {
            Ok(c) => Ok::<Seq<u8>, crate::compression::CompressionError>(c@),
            Err(e) => Err(e),
        },
{
    crate::compression::compress_best(encoded)
}

/// Decodes an encoded block and turns it into the form in which it is
/// uploaded.
pub fn convert_block(
    encoded_block: EncodedConfirmedBlock,
    encoding: UiTransactionEncoding,
    options: BlockEncodingOptions,
    toggles: &RuntimeToggles,
) -> (block: Result<VersionedConfirmedBlock, ConvertError>)
    ensures
        converted_block(encoded_block, encoding, options, toggles.add_empty_tx_metadata_if_missing)
            == match block {
            Ok(b) => Ok::<VersionedConfirmedBlockView, ConvertError>(b@),
            Err(e) => Err(e),
        },
{
    let ui = UiConfirmedBlock::from(encoded_block);
    assert(ui == ui_block(encoded_block));
    let confirmed = match ConfirmedBlock::decode_with_options(ui, encoding, options) {
        Ok(confirmed) => confirmed,
        Err(e) => {
            return Err(ConvertError::Decode(e));
        },
    };
    match VersionedConfirmedBlock::try_from_block(
        confirmed,
        add_empty_tx_metadata_if_missing(toggles),
    ) {
        Ok(versioned) => Ok(versioned),
        Err(e) => Err(ConvertError::Convert(e)),
    }
}

} // verus!
