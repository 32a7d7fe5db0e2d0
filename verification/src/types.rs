//! Values that the tables hold and the adapters hand out.

use vstd::prelude::*;

verus! {

/// The address of an account: 32 bytes, written in base 58.
pub type Pubkey = [u8; 32];

/// A block hash: 32 bytes, written in base 58.
pub type Hash = [u8; 32];

/// What identifies a transaction: 64 bytes, written in base 58.
pub type Signature = [u8; 64];

/// Seconds since the Unix epoch.
pub type UnixTimestamp = i64;

/// Why a transaction failed. The library never looks inside: it holds the
/// failure in the legacy binary form in which the `tx` table stores it.
#[derive(Clone, Debug, PartialEq, Eq)]
pub struct TransactionError {
    pub encoded: Vec<u8>,
}

impl View for TransactionError {
    type V = Seq<u8>;

    open spec fn view(&self) -> Seq<u8> {
        self.encoded@
    }
}

/// The failure of a transaction, if it failed, as bytes.
pub open spec fn err_view(err: Option<TransactionError>) -> Option<Seq<u8>> {
    match err {
        Some(e) => Some(e@),
        None => None,
    }
}

/// A memo, if there is one, as characters.
pub open spec fn text_view(text: Option<String>) -> Option<Seq<char>> {
    match text {
        Some(t) => Some(t@),
        None => None,
    }
}

/// A copy of a failure.
pub fn copy_err(err: &Option<TransactionError>) -> (copy: Option<TransactionError>)
    ensures
        err_view(copy) == err_view(*err),
{
    match err {
        Some(e) => {
            let encoded = e.encoded.clone();
            assert(encoded@ =~= e.encoded@);
            Some(TransactionError { encoded })
        },
        None => None,
    }
}

/// A copy of a memo.
pub fn copy_text(text: &Option<String>) -> (copy: Option<String>)
    ensures
        text_view(copy) == text_view(*text),
{
    match text {
        Some(t) => Some(t.clone()),
        None => None,
    }
}

/// Whether two byte strings are the same.
pub fn same_bytes(a: &[u8], b: &[u8]) -> (same: bool)
    ensures
        same == (a@ == b@),
{
    if a.len() != b.len() {
        return false;
    }
    let mut i: usize = 0;
    while i < a.len()
        invariant
            i <= a.len(),
            a.len() == b.len(),
            a@.subrange(0, i as int) == b@.subrange(0, i as int),
        decreases a.len() - i,
    {
        if a[i] != b[i] {
            assert(a@[i as int] != b@[i as int]);
            return false;
        }
        assert(a@.subrange(0, i + 1) =~= a@.subrange(0, i as int).push(a@[i as int]));
        assert(b@.subrange(0, i + 1) =~= b@.subrange(0, i as int).push(b@[i as int]));
        i = i + 1;
    }
    assert(a@.subrange(0, a.len() as int) =~= a@);
    assert(b@.subrange(0, b.len() as int) =~= b@);
    true
}

/// Whether two addresses are the same.
pub fn same_key(a: &Pubkey, b: &Pubkey) -> (same: bool)
    ensures
        same == (*a == *b),
{
    let same = same_bytes(a.as_slice(), b.as_slice());
    assert(same == (a@ == b@));
    assert((a@ == b@) == (*a == *b)) by {
        if a@ == b@ {
            assert(*a =~= *b);
        }
    }
    same
}

/// Whether two signatures are the same.
pub fn same_signature(a: &Signature, b: &Signature) -> (same: bool)
    ensures
        same == (*a == *b),
{
    let same = same_bytes(a.as_slice(), b.as_slice());
    assert((a@ == b@) == (*a == *b)) by {
        if a@ == b@ {
            assert(*a =~= *b);
        }
    }
    same
}

/// The compact record of the `tx` table: where a transaction is to be found.
#[derive(Clone, Debug, PartialEq, Eq)]
pub struct TransactionInfo {
    /// The slot of the block that holds the transaction.
    pub slot: u64,
    /// The place of the transaction in that block.
    pub index: u32,
    /// `None` if the transaction succeeded.
    pub err: Option<TransactionError>,
}

pub struct TransactionInfoView {
    pub slot: u64,
    pub index: u32,
    pub err: Option<Seq<u8>>,
}

impl View for TransactionInfo {
    type V = TransactionInfoView;

    open spec fn view(&self) -> TransactionInfoView {
        TransactionInfoView { slot: self.slot, index: self.index, err: err_view(self.err) }
    }
}

/// One entry of a row of the `tx-by-addr` table.
#[derive(Clone, Debug, PartialEq, Eq)]
pub struct TransactionByAddrInfo {
    pub signature: Signature,
    /// `None` if the transaction succeeded.
    pub err: Option<TransactionError>,
    /// The place of the transaction in its block.
    pub index: u32,
    pub memo: Option<String>,
    pub block_time: Option<UnixTimestamp>,
}

pub struct TransactionByAddrInfoView {
    pub signature: Signature,
    pub err: Option<Seq<u8>>,
    pub index: u32,
    pub memo: Option<Seq<char>>,
    pub block_time: Option<UnixTimestamp>,
}

impl View for TransactionByAddrInfo {
    type V = TransactionByAddrInfoView;

    open spec fn view(&self) -> TransactionByAddrInfoView {
        TransactionByAddrInfoView {
            signature: self.signature,
            err: err_view(self.err),
            index: self.index,
            memo: text_view(self.memo),
            block_time: self.block_time,
        }
    }
}

/// What an address scan reports of one transaction.
#[derive(Clone, Debug, PartialEq, Eq)]
pub struct ConfirmedTransactionStatusWithSignature {
    pub signature: Signature,
    pub slot: u64,
    pub err: Option<TransactionError>,
    pub memo: Option<String>,
    pub block_time: Option<UnixTimestamp>,
}

pub struct ConfirmedTransactionStatusWithSignatureView {
    pub signature: Signature,
    pub slot: u64,
    pub err: Option<Seq<u8>>,
    pub memo: Option<Seq<char>>,
    pub block_time: Option<UnixTimestamp>,
}

impl View for ConfirmedTransactionStatusWithSignature {
    type V = ConfirmedTransactionStatusWithSignatureView;

    open spec fn view(&self) -> ConfirmedTransactionStatusWithSignatureView {
        ConfirmedTransactionStatusWithSignatureView {
            signature: self.signature,
            slot: self.slot,
            err: err_view(self.err),
            memo: text_view(self.memo),
            block_time: self.block_time,
        }
    }
}

/// How far a transaction has been confirmed.
#[derive(Clone, Copy, Debug, PartialEq, Eq, Structural)]
pub enum TransactionConfirmationStatus {
    Processed,
    Confirmed,
    Finalized,
}

/// The status of a transaction, as the `tx` table gives it. A transaction
/// found there is finalized; `err` is `None` if it succeeded.
#[derive(Clone, Debug, PartialEq, Eq)]
pub struct TransactionStatus {
    pub slot: u64,
    pub confirmations: Option<usize>,
    pub err: Option<TransactionError>,
    pub confirmation_status: Option<TransactionConfirmationStatus>,
}

pub struct TransactionStatusView {
    pub slot: u64,
    pub confirmations: Option<usize>,
    pub err: Option<Seq<u8>>,
    pub confirmation_status: Option<TransactionConfirmationStatus>,
}

impl View for TransactionStatus {
    type V = TransactionStatusView;

    open spec fn view(&self) -> TransactionStatusView {
        TransactionStatusView {
            slot: self.slot,
            confirmations: self.confirmations,
            err: err_view(self.err),
            confirmation_status: self.confirmation_status,
        }
    }
}

impl From<TransactionInfo> for TransactionStatus {
    /// The status that a record of the `tx` table stands for.
    fn from(info: TransactionInfo) -> (status: TransactionStatus) {
        TransactionStatus {
            slot: info.slot,
            confirmations: None,
            err: info.err,
            confirmation_status: Some(TransactionConfirmationStatus::Finalized),
        }
    }
}

impl vstd::std_specs::convert::FromSpecImpl<TransactionInfo> for TransactionStatus {
    open spec fn obeys_from_spec() -> bool {
        true
    }

    open spec fn from_spec(info: TransactionInfo) -> TransactionStatus {
        TransactionStatus {
            slot: info.slot,
            confirmations: None,
            err: info.err,
            confirmation_status: Some(TransactionConfirmationStatus::Finalized),
        }
    }
}

/// What an upload has written for one transaction.
#[derive(Clone, Debug, PartialEq, Eq)]
pub struct UploadedTransaction {
    pub slot: u64,
    pub index: u32,
    pub err: Option<TransactionError>,
}

impl View for UploadedTransaction {
    type V = TransactionInfoView;

    open spec fn view(&self) -> TransactionInfoView {
        TransactionInfoView { slot: self.slot, index: self.index, err: err_view(self.err) }
    }
}

impl From<TransactionInfo> for UploadedTransaction {
    /// What was uploaded for a record of the `tx` table.
    fn from(info: TransactionInfo) -> (uploaded: UploadedTransaction) {
        UploadedTransaction { slot: info.slot, index: info.index, err: info.err }
    }
}

impl vstd::std_specs::convert::FromSpecImpl<TransactionInfo> for UploadedTransaction {
    open spec fn obeys_from_spec() -> bool {
        true
    }

    open spec fn from_spec(info: TransactionInfo) -> UploadedTransaction {
        UploadedTransaction { slot: info.slot, index: info.index, err: info.err }
    }
}

impl From<LegacyTransactionByAddrInfo> for TransactionByAddrInfo {
    /// The entry that an entry of the legacy form stands for: one without a
    /// block time.
    fn from(legacy: LegacyTransactionByAddrInfo) -> (info: TransactionByAddrInfo) {
        TransactionByAddrInfo {
            signature: legacy.signature,
            err: legacy.err,
            index: legacy.index,
            memo: legacy.memo,
            block_time: None,
        }
    }
}

impl vstd::std_specs::convert::FromSpecImpl<LegacyTransactionByAddrInfo> for TransactionByAddrInfo {
    open spec fn obeys_from_spec() -> bool {
        true
    }

    open spec fn from_spec(legacy: LegacyTransactionByAddrInfo) -> TransactionByAddrInfo {
        TransactionByAddrInfo {
            signature: legacy.signature,
            err: legacy.err,
            index: legacy.index,
            memo: legacy.memo,
            block_time: None,
        }
    }
}

/// An entry of a `tx-by-addr` row in the legacy binary form.
#[derive(Clone, Debug, PartialEq, Eq)]
pub struct LegacyTransactionByAddrInfo {
    pub signature: Signature,
    pub err: Option<TransactionError>,
    pub index: u32,
    pub memo: Option<String>,
}

} // verus!
