//! The legacy binary form of the records of the `tx` table: the slot in
//! eight bytes and the place in four, low byte first, then a byte that
//! tells whether the transaction failed, then the failure.

use vstd::bytes::*;
use vstd::prelude::*;

use crate::seqs::append_bytes;
use crate::types::{TransactionError, TransactionInfo, TransactionInfoView};

verus! {

/// The length of a record without a failure.
pub const INFO_HEAD_LEN: usize = 13;

/// The failure that bytes start with, written out again: what `bincode`
/// reads as a `solana_transaction_error::TransactionError` and writes back.
/// `None` where the bytes start with no failure.
pub uninterp spec fn leading_error(bytes: Seq<u8>) -> Option<Seq<u8>>;

/// Reads a failure with `bincode::deserialize` and writes it back with
/// `bincode::serialize`, so that what follows the failure is cut off.
#[verifier::external_body]
fn read_error(bytes: &[u8]) -> (err: Option<Vec<u8>>)
    ensures
        leading_error(bytes@) == match err {
            Some(e) => Some(e@),
            None => None,
        },
{
    let err = bincode::deserialize::<solana_transaction_error::TransactionError>(bytes).ok()?;
    bincode::serialize(&err).ok()
}

/// The bytes of a record.
pub open spec fn info_bytes(info: TransactionInfoView) -> Seq<u8> {
    spec_u64_to_le_bytes(info.slot) + spec_u32_to_le_bytes(info.index) + match info.err {
        None => seq![0u8],
        Some(e) => seq![1u8] + e,
    }
}

/// The record that the start of a byte string holds. Bytes behind the
/// record are ignored.
pub open spec fn info_of_bytes(b: Seq<u8>) -> Option<TransactionInfoView> {
    if b.len() < 13 {
        None
    } else {
        let slot = spec_u64_from_le_bytes(b.subrange(0, 8));
        let index = spec_u32_from_le_bytes(b.subrange(8, 12));
        if b[12] == 0 {
            Some(TransactionInfoView { slot, index, err: None })
        } else if b[12] == 1 {
            match leading_error(b.subrange(13, b.len() as int)) {
                Some(e) => Some(TransactionInfoView { slot, index, err: Some(e) }),
                None => None,
            }
        } else {
            None
        }
    }
}

impl TransactionInfo {
    /// Writes the record in the legacy binary form.
    pub fn to_bytes(&self) -> (bytes: Vec<u8>)
        ensures
            bytes@ == info_bytes(self@),
    {
        let mut bytes = u64_to_le_bytes(self.slot);
        let index = u32_to_le_bytes(self.index);
        append_bytes(&mut bytes, index.as_slice());
        match &self.err {
            None => {
                bytes.push(0);
            },
            Some(e) => {
                bytes.push(1);
                append_bytes(&mut bytes, e.encoded.as_slice());
            },
        }
        assert(bytes@ =~= info_bytes(self@));
        bytes
    }

    /// Reads a record in the legacy binary form.
    pub fn from_bytes(bytes: &[u8]) -> (info: Option<TransactionInfo>)
        ensures
            info_of_bytes(bytes@) == match info {
                Some(i) => Some(i@),
                None => None,
            },
    {
        if bytes.len() < INFO_HEAD_LEN {
            return None;
        }
        let (head, rest) = bytes.split_at(8);
        let (middle, tail) = rest.split_at(4);
        assert(head@ =~= bytes@.subrange(0, 8));
        assert(middle@ =~= bytes@.subrange(8, 12));
        let slot = u64_from_le_bytes(head);
        let index = u32_from_le_bytes(middle);
        let tag = tail[0];
        assert(tag == bytes@[12]);
        if tag == 0 {
            Some(TransactionInfo { slot, index, err: None })
        } else if tag == 1 {
            let (_, failure) = tail.split_at(1);
            assert(failure@ =~= bytes@.subrange(13, bytes@.len() as int));
            match read_error(failure) {
                Some(encoded) => Some(
                    TransactionInfo { slot, index, err: Some(TransactionError { encoded }) },
                ),
                None => None,
            }
        } else {
            None
        }
    }
}

/// The record of a transaction that succeeded reads back as it was written.
pub proof fn lemma_info_round_trip(info: TransactionInfoView)
    requires
        info.err is None,
    ensures
        info_of_bytes(info_bytes(info)) == Some(info),
{
    lemma_auto_spec_u64_to_from_le_bytes();
    lemma_auto_spec_u32_to_from_le_bytes();
    let b = info_bytes(info);
    assert(b.subrange(0, 8) =~= spec_u64_to_le_bytes(info.slot));
    assert(b.subrange(8, 12) =~= spec_u32_to_le_bytes(info.index));
    assert(b[12] == 0);
}

} // verus!
