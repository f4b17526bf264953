//! Assembly of the transaction environment of a simulated call, and the cap
//! on its gas limit that the caller's funds impose.
use crate::amount::{checked_div_by_price, checked_sub, to_u64, Amount};
use crate::error::CallError;
use crate::fees::{resolved_fees, CallFees};
use crate::request::{Address, BlockContext, CallRequest, TransactionEnvironment, TxKind};
use vstd::prelude::*;

verus! {

/// The elements of an optional list, none when it is absent.
pub open spec fn seq_or_empty<T>(v: Option<Vec<T>>) -> Seq<T> {
    match v {
        Some(v) => v@,
        None => Seq::empty(),
    }
}

/// The fees that a request resolves to in a block.
pub open spec fn request_fees<A, Z>(block: BlockContext, request: CallRequest<A, Z>) -> Result<
    CallFees,
    CallError,
> {
    resolved_fees(
        request.gas_price,
        request.max_fee_per_gas,
        request.max_priority_fee_per_gas,
        block.base_fee as u128,
        request.has_blob_hashes(),
        request.max_fee_per_blob_gas,
        block.blob_gas_price,
    )
}

/// `env` carries the request's fields, with their defaults where absent, and
/// the resolved fees. The gas limit and the nonce are stated apart.
pub open spec fn assembled_from<A, Z>(
    request: CallRequest<A, Z>,
    fees: CallFees,
    env: TransactionEnvironment<A, Z>,
) -> bool {
    &&& match request.from {
        Some(a) => env.caller == a,
        None => env.caller.is_zero(),
    }
    &&& env.kind == match request.to {
        Some(k) => k,
        None => TxKind::Create,
    }
    &&& match request.value {
        Some(v) => env.value == v,
        None => env.value.value() == 0,
    }
    &&& env.data@ == seq_or_empty(request.input)
    &&& env.chain_id == request.chain_id
    &&& env.access_list@ == seq_or_empty(request.access_list)
    &&& env.blob_hashes@ == seq_or_empty(request.blob_versioned_hashes)
    &&& env.authorization_list@ == seq_or_empty(request.authorization_list)
    &&& env.tx_type == match request.transaction_type {
        Some(t) => t,
        None => 0u8,
    }
    &&& env.gas_price == fees.gas_price
    &&& env.gas_priority_fee == fees.max_priority_fee_per_gas
    &&& env.max_fee_per_blob_gas == match fees.max_fee_per_blob_gas {
        Some(f) => f,
        None => 0u128,
    }
}

fn list_or_empty<T>(v: Option<Vec<T>>) -> (r: Vec<T>)
    ensures
        r@ == seq_or_empty(v),
{
    match v {
        Some(v) => v,
        None => Vec::new(),
    }
}

/// Builds the transaction environment of a request: rejects an explicitly
/// empty blob-hash list, resolves the fees, and fills every absent field with
/// its default. The gas limit defaults to the block's.
pub fn create_txn_env<A, Z>(block: &BlockContext, request: CallRequest<A, Z>) -> (r: Result<
    TransactionEnvironment<A, Z>,
    CallError,
>)
    ensures
        request.has_empty_blob_hashes() ==> r == Err::<TransactionEnvironment<A, Z>, CallError>(
            CallError::BlobTransactionMissingBlobHashes,
        ),
        !request.has_empty_blob_hashes() && request_fees(*block, request) is Err ==> r
            == Err::<TransactionEnvironment<A, Z>, CallError>(
            request_fees(*block, request)->Err_0,
        ),
        !request.has_empty_blob_hashes() && request_fees(*block, request) is Ok ==> {
            &&& r is Ok
            &&& assembled_from(request, request_fees(*block, request)->Ok_0, r->Ok_0)
            &&& r->Ok_0.nonce == request.nonce
            &&& r->Ok_0.gas_limit == match request.gas {
                Some(g) => g,
                None => block.gas_limit,
            }
        },
{
    let has_blob_hashes = match &request.blob_versioned_hashes {
        Some(hashes) => {
            if hashes.len() == 0 {
                return Err(CallError::BlobTransactionMissingBlobHashes);
            }
            true
        },
        None => false,
    };
    let fees = CallFees::ensure_fees(
        request.gas_price,
        request.max_fee_per_gas,
        request.max_priority_fee_per_gas,
        block.base_fee as u128,
        has_blob_hashes,
        request.max_fee_per_blob_gas,
        block.blob_gas_price,
    )?;
    let gas_limit = match request.gas {
        Some(g) => g,
        None => block.gas_limit,
    };
    let caller = match request.from {
        Some(a) => a,
        None => Address::zero(),
    };
    let value = match request.value {
        Some(v) => v,
        None => Amount::zero(),
    };
    let kind = match request.to {
        Some(k) => k,
        None => TxKind::Create,
    };
    let tx_type: u8 = match request.transaction_type {
        Some(t) => t,
        None => 0,
    };
    let max_fee_per_blob_gas: u128 = match fees.max_fee_per_blob_gas {
        Some(f) => f,
        None => 0,
    };
    Ok(
        TransactionEnvironment {
            tx_type,
            caller,
            gas_limit,
            gas_price: fees.gas_price,
            kind,
            value,
            data: list_or_empty(request.input),
            nonce: request.nonce,
            chain_id: request.chain_id,
            access_list: list_or_empty(request.access_list),
            gas_priority_fee: fees.max_priority_fee_per_gas,
            blob_hashes: list_or_empty(request.blob_versioned_hashes),
            max_fee_per_blob_gas,
            authorization_list: list_or_empty(request.authorization_list),
        },
    )
}

/// The balance of an account that may not exist: zero when it does not.
pub open spec fn balance_or_zero(account_balance: Option<Amount>) -> nat {
    match account_balance {
        Some(b) => b.value(),
        None => 0,
    }
}

/// The gas the caller can pay for at the environment's price once the value is
/// transferred, rounded down; zero at a zero price.
pub open spec fn allowance_of(balance: nat, value: nat, gas_price: u128) -> nat {
    if gas_price == 0 {
        0
    } else {
        ((balance - value) as nat) / (gas_price as nat)
    }
}

/// The amount of gas the caller can afford: its balance less the transferred
/// value, divided by the gas price. An absent account has a zero balance.
pub fn caller_gas_allowance<A, Z>(
    account_balance: Option<Amount>,
    env: &TransactionEnvironment<A, Z>,
) -> (r: Result<Amount, CallError>)
    ensures
        balance_or_zero(account_balance) < env.value.value() ==> (r matches Err(
            CallError::InsufficientFunds { cost, balance },
        ) && cost == env.value && balance.value() == balance_or_zero(account_balance) && (
        account_balance is Some ==> balance == account_balance->0)),
        balance_or_zero(account_balance) >= env.value.value() ==> r is Ok && r->Ok_0.value()
            == allowance_of(balance_or_zero(account_balance), env.value.value(), env.gas_price),
{
    let balance = match account_balance {
        Some(b) => b,
        None => Amount::zero(),
    };
    match checked_sub(balance, env.value) {
        Some(rest) => match checked_div_by_price(rest, env.gas_price) {
            Some(allowance) => Ok(allowance),
            None => Ok(Amount::zero()),
        },
        None => Err(CallError::InsufficientFunds { cost: env.value, balance }),
    }
}

/// Lowers the gas limit to what the caller can afford, where that number fits
/// in 64 bits; a larger allowance leaves the gas limit as it was. Fails only
/// when the balance does not cover the transferred value.
pub fn cap_tx_gas_limit_with_caller_allowance<A, Z>(
    account_balance: Option<Amount>,
    env: &mut TransactionEnvironment<A, Z>,
) -> (r: Result<(), CallError>)
    ensures
        balance_or_zero(account_balance) < old(env).value.value() ==> (r matches Err(
            CallError::InsufficientFunds { cost, balance },
        ) && cost == old(env).value && balance.value() == balance_or_zero(account_balance) && (
        account_balance is Some ==> balance == account_balance->0)),
        balance_or_zero(account_balance) >= old(env).value.value() ==> r is Ok,
        final(env).gas_limit == if balance_or_zero(account_balance) >= old(env).value.value()
            && allowance_of(
            balance_or_zero(account_balance),
            old(env).value.value(),
            old(env).gas_price,
        ) <= u64::MAX {
            allowance_of(
                balance_or_zero(account_balance),
                old(env).value.value(),
                old(env).gas_price,
            )
        } else {
            old(env).gas_limit as nat
        },
        *final(env) == (TransactionEnvironment { gas_limit: final(env).gas_limit, ..*old(env) }),
{
    let allowance = caller_gas_allowance(account_balance, env)?;
    if let Some(gas_limit) = to_u64(allowance) {
        env.gas_limit = gas_limit;
    }
    Ok(())
}

/// Where building a transaction environment stands.
#[derive(Clone, Debug, PartialEq, Eq)]
pub enum TxEnvStep<A, Z> {
    /// The environment is complete.
    Ready(TransactionEnvironment<A, Z>),
    /// The gas limit is still to be capped with the caller's balance, which
    /// must be looked up first.
    NeedsCallerBalance(TransactionEnvironment<A, Z>),
}

impl<A, Z> TxEnvStep<A, Z> {
    pub open spec fn env(self) -> TransactionEnvironment<A, Z> {
        match self {
            TxEnvStep::Ready(e) => e,
            TxEnvStep::NeedsCallerBalance(e) => e,
        }
    }
}

/// Builds the environment of a simulated call. The request's nonce is
/// discarded so that the account's next nonce is used. Without a gas limit in
/// the request, a positive gas price asks for the caller's balance to cap the
/// block's gas limit, and a zero price takes the configured `gas_limit`
/// ceiling; the balance is never asked for at a zero price.
pub fn build_tx_env<A, Z>(block: &BlockContext, request: CallRequest<A, Z>, gas_limit: u64) -> (r:
    Result<TxEnvStep<A, Z>, CallError>)
    ensures
        request.has_empty_blob_hashes() ==> r == Err::<TxEnvStep<A, Z>, CallError>(
            CallError::BlobTransactionMissingBlobHashes,
        ),
        !request.has_empty_blob_hashes() && request_fees(*block, request) is Err ==> r == Err::<
            TxEnvStep<A, Z>,
            CallError,
        >(request_fees(*block, request)->Err_0),
        !request.has_empty_blob_hashes() && request_fees(*block, request) is Ok ==> {
            let fees = request_fees(*block, request)->Ok_0;
            &&& r is Ok
            &&& assembled_from(request, fees, r->Ok_0.env())
            &&& r->Ok_0.env().nonce is None
            &&& (r->Ok_0 is NeedsCallerBalance <==> request.gas is None && fees.gas_price > 0)
            &&& r->Ok_0.env().gas_limit == match request.gas {
                Some(g) => g,
                None => if fees.gas_price > 0 {
                    block.gas_limit
                } else {
                    gas_limit
                },
            }
        },
        r matches Ok(TxEnvStep::NeedsCallerBalance(e)) ==> e.gas_price > 0,
{
    let request_gas = request.gas;
    let mut request = request;
    request.nonce = None;
    let mut tx = create_txn_env(block, request)?;
    if request_gas.is_none() {
        if tx.gas_price > 0 {
            return Ok(TxEnvStep::NeedsCallerBalance(tx));
        } else {
            tx.gas_limit = gas_limit;
        }
    }
    Ok(TxEnvStep::Ready(tx))
}

/// Two environments agree on every field: amounts by value, lists and
/// addresses element by element.
pub open spec fn same_env<A, Z>(
    e1: TransactionEnvironment<A, Z>,
    e2: TransactionEnvironment<A, Z>,
) -> bool {
    &&& e1.tx_type == e2.tx_type
    &&& e1.caller.bytes@ == e2.caller.bytes@
    &&& e1.gas_limit == e2.gas_limit
    &&& e1.gas_price == e2.gas_price
    &&& e1.kind == e2.kind
    &&& e1.value.value() == e2.value.value()
    &&& e1.data@ == e2.data@
    &&& e1.nonce == e2.nonce
    &&& e1.chain_id == e2.chain_id
    &&& e1.access_list@ == e2.access_list@
    &&& e1.gas_priority_fee == e2.gas_priority_fee
    &&& e1.blob_hashes@ == e2.blob_hashes@
    &&& e1.max_fee_per_blob_gas == e2.max_fee_per_blob_gas
    &&& e1.authorization_list@ == e2.authorization_list@
}

/// The environment is a function of the request and its fees: two
/// environments assembled from the same request and fees, with the same gas
/// limit and nonce, agree on every field.
pub proof fn lemma_assembly_deterministic<A, Z>(
    request: CallRequest<A, Z>,
    fees: CallFees,
    e1: TransactionEnvironment<A, Z>,
    e2: TransactionEnvironment<A, Z>,
)
    requires
        assembled_from(request, fees, e1),
        assembled_from(request, fees, e2),
        e1.gas_limit == e2.gas_limit,
        e1.nonce == e2.nonce,
    ensures
        same_env(e1, e2),
{
    if request.from is None {
        assert(e1.caller.bytes@ =~= e2.caller.bytes@);
    }
}

} // verus!
