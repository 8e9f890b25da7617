//! Unsigned 256-bit amounts, held as four little-endian 64-bit limbs.
//! The arithmetic itself is done by the `U256` type that stylus-sdk
//! re-exports; this module states what each operation returns.

use stylus_sdk::alloy_primitives::U256;
use vstd::prelude::*;

verus! {

/// The weight of one limb: 2^64.
pub open spec fn limb_base() -> nat {
    0x1_0000_0000_0000_0000nat
}

/// 2^256, one more than the largest amount.
pub open spec fn modulus() -> nat {
    limb_base() * limb_base() * limb_base() * limb_base()
}

/// A non-negative integer below 2^256.
#[derive(Clone, Copy, Debug, PartialEq, Eq)]
pub struct Amount {
    pub l0: u64,
    pub l1: u64,
    pub l2: u64,
    pub l3: u64,
}

impl Amount {
    /// The integer this amount stands for.
    pub open spec fn value(self) -> nat {
        (self.l0 + limb_base() * (self.l1 + limb_base() * (self.l2 + limb_base() * self.l3))) as nat
    }

    /// Builds an amount from its limbs, least significant first.
    pub fn from_limbs(limbs: [u64; 4]) -> (r: Amount)
        ensures
            r.value() == limbs@[0] + limb_base() * (limbs@[1] + limb_base() * (limbs@[2]
                + limb_base() * limbs@[3])),
    {
        Amount { l0: limbs[0], l1: limbs[1], l2: limbs[2], l3: limbs[3] }
    }

    /// The limbs of this amount, least significant first.
    pub fn limbs(&self) -> (r: [u64; 4])
        ensures
            self.value() == r@[0] + limb_base() * (r@[1] + limb_base() * (r@[2] + limb_base()
                * r@[3])),
    {
        [self.l0, self.l1, self.l2, self.l3]
    }

    pub fn from_u64(n: u64) -> (r: Amount)
        ensures
            r.value() == n,
    {
        Amount { l0: n, l1: 0, l2: 0, l3: 0 }
    }

    pub fn zero() -> (r: Amount)
        ensures
            r.value() == 0,
    {
        Amount::from_u64(0)
    }

    /// The largest amount, 2^256 - 1.
    pub fn max_value() -> (r: Amount)
        ensures
            r.value() == modulus() - 1,
    {
        let m: u64 = 0xffff_ffff_ffff_ffff;
        let r = Amount { l0: m, l1: m, l2: m, l3: m };
        proof {
            let b = limb_base() as int;
            let v = (b - 1) + b * ((b - 1) + b * ((b - 1) + b * (b - 1)));
            assert(v == b * b * b * b - 1) by (nonlinear_arith)
                requires
                    v == (b - 1) + b * ((b - 1) + b * ((b - 1) + b * (b - 1))),
            ;
        }
        r
    }

    pub fn is_zero(&self) -> (r: bool)
        ensures
            r == (self.value() == 0),
    {
        proof {
            lemma_value_zero(*self);
        }
        self.l0 == 0 && self.l1 == 0 && self.l2 == 0 && self.l3 == 0
    }
}

/// Every amount lies below 2^256.
pub proof fn lemma_value_bound(a: Amount)
    ensures
        a.value() < modulus(),
{
    let b = limb_base() as int;
    let x3 = a.l3 as int;
    let x2 = a.l2 as int + b * x3;
    let x1 = a.l1 as int + b * x2;
    assert(x2 < b * b) by (nonlinear_arith)
        requires
            0 <= a.l2 < b,
            0 <= x3 < b,
            x2 == a.l2 + b * x3,
    ;
    assert(x1 < b * b * b) by (nonlinear_arith)
        requires
            0 <= a.l1 < b,
            0 <= x2 < b * b,
            x1 == a.l1 + b * x2,
    ;
    assert(a.l0 + b * x1 < b * b * b * b) by (nonlinear_arith)
        requires
            0 <= a.l0 < b,
            0 <= x1 < b * b * b,
    ;
}

proof fn lemma_value_zero(a: Amount)
    ensures
        (a.value() == 0) == (a.l0 == 0 && a.l1 == 0 && a.l2 == 0 && a.l3 == 0),
{
    let b = limb_base() as int;
    assert(b * (a.l2 + b * a.l3) >= 0) by (nonlinear_arith)
        requires
            b > 0,
            a.l2 >= 0,
            a.l3 >= 0,
    ;
    assert(b * (a.l1 + b * (a.l2 + b * a.l3)) >= 0) by (nonlinear_arith)
        requires
            b > 0,
            a.l1 + b * (a.l2 + b * a.l3) >= 0,
    ;
    assert((b * (a.l1 + b * (a.l2 + b * a.l3)) == 0) == (a.l1 + b * (a.l2 + b * a.l3) == 0))
        by (nonlinear_arith)
        requires
            b > 0,
    ;
    assert((b * (a.l2 + b * a.l3) == 0) == (a.l2 + b * a.l3 == 0)) by (nonlinear_arith)
        requires
            b > 0,
    ;
    assert((b * a.l3 == 0) == (a.l3 == 0)) by (nonlinear_arith)
        requires
            b > 0,
    ;
}

/// Relies on `U256::checked_add` (ruint): the sum, or `None` on overflow.
#[verifier::external_body]
pub(crate) fn u256_checked_add(a: Amount, b: Amount) -> (r: Option<Amount>)
    ensures
        r is Some == (a.value() + b.value() < modulus()),
        r is Some ==> r.unwrap().value() == a.value() + b.value(),
{
    let x = U256::from_limbs([a.l0, a.l1, a.l2, a.l3]);
    let y = U256::from_limbs([b.l0, b.l1, b.l2, b.l3]);
    match x.checked_add(y) {
        Some(c) => {
            let l = c.into_limbs();
            Some(Amount { l0: l[0], l1: l[1], l2: l[2], l3: l[3] })
        },
        None => None,
    }
}

/// Relies on `U256::checked_sub` (ruint): the difference, or `None` when it
/// would be negative.
#[verifier::external_body]
pub(crate) fn u256_checked_sub(a: Amount, b: Amount) -> (r: Option<Amount>)
    ensures
        r is Some == (b.value() <= a.value()),
        r is Some ==> r.unwrap().value() == a.value() - b.value(),
{
    let x = U256::from_limbs([a.l0, a.l1, a.l2, a.l3]);
    let y = U256::from_limbs([b.l0, b.l1, b.l2, b.l3]);
    match x.checked_sub(y) {
        Some(c) => {
            let l = c.into_limbs();
            Some(Amount { l0: l[0], l1: l[1], l2: l[2], l3: l[3] })
        },
        None => None,
    }
}

/// Relies on `U256::checked_mul` (ruint): the product, or `None` on overflow.
#[verifier::external_body]
pub(crate) fn u256_checked_mul(a: Amount, b: Amount) -> (r: Option<Amount>)
    ensures
        r is Some == (a.value() * b.value() < modulus()),
        r is Some ==> r.unwrap().value() == a.value() * b.value(),
{
    let x = U256::from_limbs([a.l0, a.l1, a.l2, a.l3]);
    let y = U256::from_limbs([b.l0, b.l1, b.l2, b.l3]);
    match x.checked_mul(y) {
        Some(c) => {
            let l = c.into_limbs();
            Some(Amount { l0: l[0], l1: l[1], l2: l[2], l3: l[3] })
        },
        None => None,
    }
}

/// Relies on `<` of `U256` (ruint): the numeric order.
#[verifier::external_body]
pub(crate) fn u256_lt(a: Amount, b: Amount) -> (r: bool)
    ensures
        r == (a.value() < b.value()),
{
    U256::from_limbs([a.l0, a.l1, a.l2, a.l3]) < U256::from_limbs([b.l0, b.l1, b.l2, b.l3])
}

/// `a + b`, or the largest amount where the sum does not fit.
pub fn saturating_add(a: Amount, b: Amount) -> (r: Amount)
    ensures
        a.value() + b.value() < modulus() ==> r.value() == a.value() + b.value(),
        a.value() + b.value() >= modulus() ==> r.value() == modulus() - 1,
{
    match u256_checked_add(a, b) {
        Some(c) => c,
        None => Amount::max_value(),
    }
}

} // verus!
