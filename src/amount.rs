//! 256-bit unsigned amounts (balances and transferred values), held as four
//! little-endian 64-bit limbs.
use alloy_primitives::U256;
use vstd::prelude::*;

verus! {

/// Two to the power of 64.
pub open spec fn limb_base() -> int {
    0x1_0000_0000_0000_0000
}

/// A 256-bit unsigned integer, least significant limb first.
#[derive(Clone, Copy, Debug, PartialEq, Eq)]
pub struct Amount {
    pub limbs: [u64; 4],
}

impl Amount {
    /// The number this amount stands for.
    pub open spec fn value(self) -> nat {
        (self.limbs@[0] + limb_base() * (self.limbs@[1] + limb_base() * (self.limbs@[2]
            + limb_base() * self.limbs@[3] as int))) as nat
    }

    pub fn zero() -> (r: Amount)
        ensures
            r.value() == 0,
    {
        Amount { limbs: [0u64, 0u64, 0u64, 0u64] }
    }

    pub fn from_u64(v: u64) -> (r: Amount)
        ensures
            r.value() == v,
    {
        Amount { limbs: [v, 0u64, 0u64, 0u64] }
    }

    pub fn from_limbs(limbs: [u64; 4]) -> (r: Amount)
        ensures
            r.limbs == limbs,
    {
        Amount { limbs }
    }
}

/// Relies on ruint's `Uint::checked_sub`: the difference when it is not
/// negative, `None` otherwise.
#[verifier::external_body]
pub(crate) fn checked_sub(a: Amount, b: Amount) -> (r: Option<Amount>)
    ensures
        r is Some <==> a.value() >= b.value(),
        r is Some ==> r->0.value() == a.value() - b.value(),
{
    U256::from_limbs(a.limbs).checked_sub(U256::from_limbs(b.limbs)).map(
        |d| Amount { limbs: d.into_limbs() },
    )
}

/// Relies on ruint's `Uint::checked_div`: the floor of the quotient, `None`
/// for a zero divisor.
#[verifier::external_body]
pub(crate) fn checked_div_by_price(a: Amount, price: u128) -> (r: Option<Amount>)
    ensures
        r is Some <==> price > 0,
        r is Some ==> r->0.value() == a.value() / (price as nat),
{
    U256::from_limbs(a.limbs).checked_div(U256::from(price)).map(
        |q| Amount { limbs: q.into_limbs() },
    )
}

/// Relies on ruint's `TryFrom<Uint>` for `u64`: the same number when it fits
/// in 64 bits, an error otherwise.
#[verifier::external_body]
pub(crate) fn to_u64(a: Amount) -> (r: Option<u64>)
    ensures
        r is Some <==> a.value() <= u64::MAX,
        r is Some ==> r->0 == a.value(),
{
    u64::try_from(U256::from_limbs(a.limbs)).ok()
}

} // verus!
