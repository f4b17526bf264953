//! The inbound call request, the block context it is simulated against, and
//! the fully resolved transaction environment handed to the executor.
use crate::amount::Amount;
use vstd::prelude::*;

verus! {

/// A 20-byte account address.
#[derive(Clone, Copy, Debug, PartialEq, Eq)]
pub struct Address {
    pub bytes: [u8; 20],
}

impl Address {
    pub open spec fn is_zero(self) -> bool {
        forall|i: int| 0 <= i < 20 ==> self.bytes@[i] == 0u8
    }

    pub fn zero() -> (r: Address)
        ensures
            r.is_zero(),
    {
        Address { bytes: [0u8; 20] }
    }
}

/// What a transaction does: create a contract or call an address.
#[derive(Clone, Copy, Debug, PartialEq, Eq)]
pub enum TxKind {
    Create,
    Call(Address),
}

/// A simulated-call request; every field may be absent. `A` is an entry of the
/// access list and `Z` an entry of the authorization list, which are carried
/// through unchanged.
#[derive(Clone, Debug, PartialEq, Eq)]
pub struct CallRequest<A, Z> {
    pub from: Option<Address>,
    pub to: Option<TxKind>,
    pub gas_price: Option<u128>,
    pub max_fee_per_gas: Option<u128>,
    pub max_priority_fee_per_gas: Option<u128>,
    pub max_fee_per_blob_gas: Option<u128>,
    pub gas: Option<u64>,
    pub value: Option<Amount>,
    pub input: Option<Vec<u8>>,
    pub nonce: Option<u64>,
    pub access_list: Option<Vec<A>>,
    pub chain_id: Option<u64>,
    pub blob_versioned_hashes: Option<Vec<[u8; 32]>>,
    pub transaction_type: Option<u8>,
    pub authorization_list: Option<Vec<Z>>,
}

impl<A, Z> CallRequest<A, Z> {
    /// A request with every field absent.
    pub fn empty() -> (r: CallRequest<A, Z>)
        ensures
            r.from is None,
            r.to is None,
            r.gas_price is None,
            r.max_fee_per_gas is None,
            r.max_priority_fee_per_gas is None,
            r.max_fee_per_blob_gas is None,
            r.gas is None,
            r.value is None,
            r.input is None,
            r.nonce is None,
            r.access_list is None,
            r.chain_id is None,
            r.blob_versioned_hashes is None,
            r.transaction_type is None,
            r.authorization_list is None,
    {
        CallRequest {
            from: None,
            to: None,
            gas_price: None,
            max_fee_per_gas: None,
            max_priority_fee_per_gas: None,
            max_fee_per_blob_gas: None,
            gas: None,
            value: None,
            input: None,
            nonce: None,
            access_list: None,
            chain_id: None,
            blob_versioned_hashes: None,
            transaction_type: None,
            authorization_list: None,
        }
    }

    /// The blob-hash list is present and holds at least one hash.
    pub open spec fn has_blob_hashes(self) -> bool {
        self.blob_versioned_hashes is Some && self.blob_versioned_hashes->0@.len() > 0
    }

    /// The blob-hash list is present but empty.
    pub open spec fn has_empty_blob_hashes(self) -> bool {
        self.blob_versioned_hashes is Some && self.blob_versioned_hashes->0@.len() == 0
    }
}

/// The block a call is simulated against.
#[derive(Clone, Copy, Debug, PartialEq, Eq)]
pub struct BlockContext {
    /// The block's base fee per gas; may be zero.
    pub base_fee: u64,
    /// The block's gas limit.
    pub gas_limit: u64,
    /// The block's blob gas price.
    pub blob_gas_price: Option<u128>,
}

/// A fully resolved transaction, ready for the executor.
#[derive(Clone, Debug, PartialEq, Eq)]
pub struct TransactionEnvironment<A, Z> {
    pub tx_type: u8,
    pub caller: Address,
    pub gas_limit: u64,
    pub gas_price: u128,
    pub kind: TxKind,
    pub value: Amount,
    pub data: Vec<u8>,
    /// `None` lets the executor use the account's next nonce.
    pub nonce: Option<u64>,
    pub chain_id: Option<u64>,
    pub access_list: Vec<A>,
    pub gas_priority_fee: Option<u128>,
    pub blob_hashes: Vec<[u8; 32]>,
    pub max_fee_per_blob_gas: u128,
    pub authorization_list: Vec<Z>,
}

} // verus!
