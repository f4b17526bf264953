//! The failures of environment preparation and result interpretation.
use crate::amount::Amount;
use vstd::prelude::*;

verus! {

#[derive(Clone, Debug, PartialEq, Eq)]
pub enum CallError {
    /// Fee fields of incompatible models were given together.
    ConflictingFeeFieldsInRequest,
    /// The max fee per gas is below the block's base fee.
    FeeCapTooLow,
    /// The priority fee exceeds the max fee per gas.
    TipAboveFeeCap,
    /// Without a max fee, the base fee plus the priority fee does not fit in
    /// 128 bits.
    TipVeryHigh,
    /// A blob transaction without any blob hash.
    BlobTransactionMissingBlobHashes,
    /// The caller's balance cannot cover the transferred value.
    InsufficientFunds { cost: Amount, balance: Amount },
    /// The execution reverted or halted; the revert payload, empty for a halt.
    Revert { data: Vec<u8> },
}

} // verus!
