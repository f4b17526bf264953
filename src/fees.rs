//! Resolution of the fee fields of a call request into one consistent set of
//! fees.
use crate::error::CallError;
use vstd::prelude::*;

verus! {

/// The fee model that the presence of the fee fields selects.
#[derive(Clone, Copy, Debug, PartialEq, Eq)]
pub enum FeeModel {
    /// No market field: a legacy gas price, or no fee at all.
    Legacy,
    /// Max fee and/or priority fee, without a blob fee.
    Market,
    /// Max fee and/or priority fee, with a blob fee.
    Blob,
    /// Fields of incompatible models together.
    Conflicting,
}

/// Which model the presence of the legacy price, the max fee, the priority fee
/// and the blob max fee selects.
pub open spec fn fee_model_of(legacy: bool, max_fee: bool, priority: bool, blob: bool) -> FeeModel {
    if !max_fee && !priority && !blob {
        FeeModel::Legacy
    } else if !legacy && !blob {
        FeeModel::Market
    } else if !legacy && blob {
        FeeModel::Blob
    } else {
        FeeModel::Conflicting
    }
}

/// Looks the model up in a table indexed by the presence bits
/// `legacy | max_fee | priority | blob`, most significant first.
pub fn fee_model(legacy: bool, max_fee: bool, priority: bool, blob: bool) -> (r: FeeModel)
    ensures
        r == fee_model_of(legacy, max_fee, priority, blob),
{
    let mask: u8 = (if legacy { 8u8 } else { 0u8 }) + (if max_fee { 4u8 } else { 0u8 }) + (
    if priority { 2u8 } else { 0u8 }) + (if blob { 1u8 } else { 0u8 });
    match mask {
        0 | 8 => FeeModel::Legacy,
        2 | 4 | 6 => FeeModel::Market,
        1 | 3 | 5 | 7 => FeeModel::Blob,
        _ => FeeModel::Conflicting,
    }
}

/// The effective gas price of the fee-market model: the max fee capped at the
/// base fee plus the priority fee, after the checks that the max fee covers
/// the base fee and the priority fee. Capped by a max fee the price always
/// fits; without one, the sum itself must fit in 128 bits.
pub open spec fn effective_gas_price_of(
    max_fee: Option<u128>,
    priority_fee: Option<u128>,
    base_fee: u128,
) -> Result<u128, CallError> {
    let tip = match priority_fee {
        Some(p) => p,
        None => 0u128,
    };
    match max_fee {
        Some(m) => if m < base_fee {
            Err(CallError::FeeCapTooLow)
        } else if m < tip {
            Err(CallError::TipAboveFeeCap)
        } else if m <= base_fee + tip {
            Ok(m)
        } else {
            Ok((base_fee + tip) as u128)
        },
        None => if base_fee + tip > u128::MAX {
            Err(CallError::TipVeryHigh)
        } else {
            Ok((base_fee + tip) as u128)
        },
    }
}

pub fn get_effective_gas_price(
    max_fee: Option<u128>,
    priority_fee: Option<u128>,
    base_fee: u128,
) -> (r: Result<u128, CallError>)
    ensures
        r == effective_gas_price_of(max_fee, priority_fee, base_fee),
{
    let tip: u128 = match priority_fee {
        Some(p) => p,
        None => 0,
    };
    match max_fee {
        Some(m) => {
            if m < base_fee {
                return Err(CallError::FeeCapTooLow);
            }
            if m < tip {
                return Err(CallError::TipAboveFeeCap);
            }
            match base_fee.checked_add(tip) {
                Some(sum) => if m <= sum {
                    Ok(m)
                } else {
                    Ok(sum)
                },
                None => Ok(m),
            }
        },
        None => match base_fee.checked_add(tip) {
            Some(sum) => Ok(sum),
            None => Err(CallError::TipVeryHigh),
        },
    }
}

/// The fees of a call after resolution.
#[derive(Clone, Copy, Debug, PartialEq, Eq)]
pub struct CallFees {
    /// The priority fee, absent under the legacy model.
    pub max_priority_fee_per_gas: Option<u128>,
    /// The single effective price per unit of gas.
    pub gas_price: u128,
    /// The max fee per blob gas, if the call carries blobs.
    pub max_fee_per_blob_gas: Option<u128>,
}

/// The block's blob fee when the call carries blob hashes, none otherwise.
pub open spec fn implied_blob_fee(has_blob_hashes: bool, block_blob_fee: Option<u128>) -> Option<
    u128,
> {
    if has_blob_hashes {
        block_blob_fee
    } else {
        None
    }
}

/// The outcome of fee resolution, one case per fee model.
pub open spec fn resolved_fees(
    gas_price: Option<u128>,
    max_fee: Option<u128>,
    priority_fee: Option<u128>,
    base_fee: u128,
    has_blob_hashes: bool,
    max_fee_per_blob_gas: Option<u128>,
    block_blob_fee: Option<u128>,
) -> Result<CallFees, CallError> {
    match fee_model_of(
        gas_price is Some,
        max_fee is Some,
        priority_fee is Some,
        max_fee_per_blob_gas is Some,
    ) {
        FeeModel::Legacy => Ok(
            CallFees {
                max_priority_fee_per_gas: None,
                gas_price: match gas_price {
                    Some(p) => p,
                    None => 0u128,
                },
                max_fee_per_blob_gas: implied_blob_fee(has_blob_hashes, block_blob_fee),
            },
        ),
        FeeModel::Market => match effective_gas_price_of(max_fee, priority_fee, base_fee) {
            Ok(price) => Ok(
                CallFees {
                    max_priority_fee_per_gas: priority_fee,
                    gas_price: price,
                    max_fee_per_blob_gas: implied_blob_fee(has_blob_hashes, block_blob_fee),
                },
            ),
            Err(e) => Err(e),
        },
        FeeModel::Blob => match effective_gas_price_of(max_fee, priority_fee, base_fee) {
            Ok(price) => if has_blob_hashes {
                Ok(
                    CallFees {
                        max_priority_fee_per_gas: priority_fee,
                        gas_price: price,
                        max_fee_per_blob_gas: max_fee_per_blob_gas,
                    },
                )
            } else {
                Err(CallError::BlobTransactionMissingBlobHashes)
            },
            Err(e) => if e is TipVeryHigh && !has_blob_hashes {
                Err(CallError::BlobTransactionMissingBlobHashes)
            } else {
                Err(e)
            },
        },
        FeeModel::Conflicting => Err(CallError::ConflictingFeeFieldsInRequest),
    }
}

impl CallFees {
    /// Checks that the fee fields of a request do not conflict and resolves
    /// them against the block's base fee and blob fee.
    pub fn ensure_fees(
        call_gas_price: Option<u128>,
        call_max_fee: Option<u128>,
        call_priority_fee: Option<u128>,
        block_base_fee: u128,
        has_blob_hashes: bool,
        max_fee_per_blob_gas: Option<u128>,
        block_blob_fee: Option<u128>,
    ) -> (r: Result<CallFees, CallError>)
        ensures
            r == resolved_fees(
                call_gas_price,
                call_max_fee,
                call_priority_fee,
                block_base_fee,
                has_blob_hashes,
                max_fee_per_blob_gas,
                block_blob_fee,
            ),
    {
        let model = fee_model(
            call_gas_price.is_some(),
            call_max_fee.is_some(),
            call_priority_fee.is_some(),
            max_fee_per_blob_gas.is_some(),
        );
        match model {
            FeeModel::Legacy => {
                let gas_price: u128 = match call_gas_price {
                    Some(p) => p,
                    None => 0,
                };
                Ok(
                    CallFees {
                        max_priority_fee_per_gas: None,
                        gas_price,
                        max_fee_per_blob_gas: if has_blob_hashes {
                            block_blob_fee
                        } else {
                            None
                        },
                    },
                )
            },
            FeeModel::Market => {
                let price = get_effective_gas_price(
                    call_max_fee,
                    call_priority_fee,
                    block_base_fee,
                )?;
                Ok(
                    CallFees {
                        max_priority_fee_per_gas: call_priority_fee,
                        gas_price: price,
                        max_fee_per_blob_gas: if has_blob_hashes {
                            block_blob_fee
                        } else {
                            None
                        },
                    },
                )
            },
            FeeModel::Blob => {
                // The fee checks come first, then the blob hashes, then
                // whether an uncapped price fits.
                let price = match get_effective_gas_price(
                    call_max_fee,
                    call_priority_fee,
                    block_base_fee,
                ) {
                    Ok(price) => price,
                    Err(CallError::TipVeryHigh) => {
                        return Err(
                            if has_blob_hashes {
                                CallError::TipVeryHigh
                            } else {
                                CallError::BlobTransactionMissingBlobHashes
                            },
                        );
                    },
                    Err(e) => {
                        return Err(e);
                    },
                };
                if !has_blob_hashes {
                    return Err(CallError::BlobTransactionMissingBlobHashes);
                }
                Ok(
                    CallFees {
                        max_priority_fee_per_gas: call_priority_fee,
                        gas_price: price,
                        max_fee_per_blob_gas,
                    },
                )
            },
            FeeModel::Conflicting => Err(CallError::ConflictingFeeFieldsInRequest),
        }
    }
}

/// Fee resolution is a function of its arguments: two resolutions of the same
/// arguments agree, result or failure.
pub proof fn lemma_resolution_deterministic(
    gas_price: Option<u128>,
    max_fee: Option<u128>,
    priority_fee: Option<u128>,
    base_fee: u128,
    has_blob_hashes: bool,
    max_fee_per_blob_gas: Option<u128>,
    block_blob_fee: Option<u128>,
    first: Result<CallFees, CallError>,
    second: Result<CallFees, CallError>,
)
    requires
        first == resolved_fees(
            gas_price,
            max_fee,
            priority_fee,
            base_fee,
            has_blob_hashes,
            max_fee_per_blob_gas,
            block_blob_fee,
        ),
        second == resolved_fees(
            gas_price,
            max_fee,
            priority_fee,
            base_fee,
            has_blob_hashes,
            max_fee_per_blob_gas,
            block_blob_fee,
        ),
    ensures
        first == second,
{
}

/// A max fee below the base fee fails with `FeeCapTooLow`, whatever the
/// priority fee, the blob fields and the block's blob fee, provided no legacy
/// price is given alongside (that conflicts first).
pub proof fn lemma_fee_cap_below_base_fee(
    max_fee: u128,
    priority_fee: Option<u128>,
    base_fee: u128,
    has_blob_hashes: bool,
    max_fee_per_blob_gas: Option<u128>,
    block_blob_fee: Option<u128>,
)
    requires
        max_fee < base_fee,
    ensures
        resolved_fees(
            None,
            Some(max_fee),
            priority_fee,
            base_fee,
            has_blob_hashes,
            max_fee_per_blob_gas,
            block_blob_fee,
        ) == Err::<CallFees, CallError>(CallError::FeeCapTooLow),
{
}

/// A priority fee above a max fee that covers the base fee fails with
/// `TipAboveFeeCap`, provided no legacy price is given alongside.
pub proof fn lemma_tip_above_fee_cap(
    max_fee: u128,
    priority_fee: u128,
    base_fee: u128,
    has_blob_hashes: bool,
    max_fee_per_blob_gas: Option<u128>,
    block_blob_fee: Option<u128>,
)
    requires
        max_fee < priority_fee,
        max_fee >= base_fee,
    ensures
        resolved_fees(
            None,
            Some(max_fee),
            Some(priority_fee),
            base_fee,
            has_blob_hashes,
            max_fee_per_blob_gas,
            block_blob_fee,
        ) == Err::<CallFees, CallError>(CallError::TipAboveFeeCap),
{
}

/// A legacy price alone never fails: it becomes the effective price, with no
/// priority fee.
pub proof fn lemma_legacy_price_only(
    gas_price: u128,
    base_fee: u128,
    has_blob_hashes: bool,
    block_blob_fee: Option<u128>,
)
    ensures
        resolved_fees(Some(gas_price), None, None, base_fee, has_blob_hashes, None, block_blob_fee)
            is Ok,
        resolved_fees(
            Some(gas_price),
            None,
            None,
            base_fee,
            has_blob_hashes,
            None,
            block_blob_fee,
        )->Ok_0.gas_price == gas_price,
        resolved_fees(
            Some(gas_price),
            None,
            None,
            base_fee,
            has_blob_hashes,
            None,
            block_blob_fee,
        )->Ok_0.max_priority_fee_per_gas is None,
{
}

} // verus!
