//! Arithmetic in the prime field of the circuit, on canonical
//! representatives held as big integers. The characteristic is given by
//! the caller; nothing here relies on its being prime.

use crate::expression::large_field;
use num_bigint::BigUint;
use vstd::arithmetic::div_mod::{
    lemma_mod_add_multiples_vanish, lemma_small_mod, lemma_sub_mod_noop,
};
use vstd::prelude::*;

verus! {

/// `num_bigint::BigUint`, an unsigned integer of any size. Nothing is known
/// of a value of it but the number that it holds.
#[verifier::external_type_specification]
#[verifier::external_body]
pub struct ExBigUint(num_bigint::BigUint);

/// The natural number that a `num_bigint::BigUint` holds.
pub uninterp spec fn big_value(n: BigUint) -> nat;

/// `BigUint::from` on a `u128`: the big integer that holds the same
/// number.
#[verifier::external_body]
fn big_from_u128(x: u128) -> (r: BigUint)
    ensures
        big_value(r) == x,
{
    BigUint::from(x)
}

/// `u128::try_from` on a `BigUint`: the number it holds, where that fits
/// in 128 bits, and nothing where it does not.
#[verifier::external_body]
fn big_to_u128(n: &BigUint) -> (r: Option<u128>)
    ensures
        r == if big_value(*n) <= u128::MAX {
            Some(big_value(*n) as u128)
        } else {
            None
        },
{
    u128::try_from(n).ok()
}

/// `+` on two `BigUint`: their sum, which never overflows.
#[verifier::external_body]
fn big_sum(a: &BigUint, b: &BigUint) -> (r: BigUint)
    ensures
        big_value(r) == big_value(*a) + big_value(*b),
{
    a + b
}

/// `*` on two `BigUint`: their product, which never overflows.
#[verifier::external_body]
fn big_product(a: &BigUint, b: &BigUint) -> (r: BigUint)
    ensures
        big_value(r) == big_value(*a) * big_value(*b),
{
    a * b
}

/// `-` on two `BigUint`, which panics where the result would be negative:
/// their difference.
#[verifier::external_body]
fn big_difference(a: &BigUint, b: &BigUint) -> (r: BigUint)
    requires
        big_value(*a) >= big_value(*b),
    ensures
        big_value(r) == big_value(*a) - big_value(*b),
{
    a - b
}

/// `%` on two `BigUint`, which panics on a zero divisor: the remainder of
/// the division.
#[verifier::external_body]
fn big_remainder(a: &BigUint, m: &BigUint) -> (r: BigUint)
    requires
        big_value(*m) > 0,
    ensures
        big_value(r) == big_value(*a) % big_value(*m),
{
    a % m
}

/// The number that four 64-bit limbs hold, least significant first.
pub open spec fn limbs_value(limbs: [u64; 4]) -> nat {
    (limbs[0] + limbs[1] * 0x1_0000_0000_0000_0000 + limbs[2]
        * 0x1_0000_0000_0000_0000_0000_0000_0000_0000 + limbs[3]
        * 0x1_0000_0000_0000_0000_0000_0000_0000_0000_0000_0000_0000_0000) as nat
}

/// The characteristic of the field. It is at least 2^128.
pub struct Modulus {
    p: BigUint,
}

/// An element of the field, as the number that represents it.
pub struct FieldElement {
    n: BigUint,
}

impl FieldElement {
    /// The number that represents the element.
    pub closed spec fn value(&self) -> nat {
        big_value(self.n)
    }

    /// The number that represents the element, where it fits in 128 bits.
    pub fn to_u128(&self) -> (r: Option<u128>)
        ensures
            r == if self.value() <= u128::MAX {
                Some(self.value() as u128)
            } else {
                None
            },
    {
        big_to_u128(&self.n)
    }

    /// Whether the element is the zero of the field.
    pub fn is_zero(&self) -> (r: bool)
        ensures
            r == (self.value() == 0),
    {
        match big_to_u128(&self.n) {
            Some(n) => n == 0,
            None => false,
        }
    }
}

impl Modulus {
    /// The characteristic as a number.
    pub closed spec fn value(&self) -> nat {
        big_value(self.p)
    }

    #[verifier::type_invariant]
    spec fn large(&self) -> bool {
        large_field(big_value(self.p))
    }

    /// The characteristic that the limbs hold, least significant first;
    /// `None` where that is less than 2^128.
    pub fn from_limbs(limbs: [u64; 4]) -> (r: Option<Modulus>)
        ensures
            r is Some <==> large_field(limbs_value(limbs)),
            r is Some ==> r->0.value() == limbs_value(limbs),
    {
        if limbs[2] == 0 && limbs[3] == 0 {
            return None;
        }
        let base = big_from_u128(0x1_0000_0000_0000_0000);
        let l3 = big_from_u128(limbs[3] as u128);
        let l2 = big_from_u128(limbs[2] as u128);
        let l1 = big_from_u128(limbs[1] as u128);
        let l0 = big_from_u128(limbs[0] as u128);
        let h3 = big_product(&l3, &base);
        let h2 = big_sum(&h3, &l2);
        let h2 = big_product(&h2, &base);
        let h1 = big_sum(&h2, &l1);
        let h1 = big_product(&h1, &base);
        let p = big_sum(&h1, &l0);
        assert(big_value(p) == limbs_value(limbs)) by (nonlinear_arith)
            requires
                big_value(p) == ((limbs[3] * 0x1_0000_0000_0000_0000 + limbs[2])
                    * 0x1_0000_0000_0000_0000 + limbs[1]) * 0x1_0000_0000_0000_0000 + limbs[0],
                limbs_value(limbs) == limbs[0] + limbs[1] * 0x1_0000_0000_0000_0000 + limbs[2]
                    * 0x1_0000_0000_0000_0000_0000_0000_0000_0000 + limbs[3]
                    * 0x1_0000_0000_0000_0000_0000_0000_0000_0000_0000_0000_0000_0000,
        ;
        Some(Modulus { p })
    }

    /// The element that a number below 2^128 represents. Such a number is
    /// below the characteristic.
    pub fn element(&self, x: u128) -> (r: FieldElement)
        ensures
            r.value() == x,
            large_field(self.value()),
    {
        proof {
            use_type_invariant(self);
        }
        FieldElement { n: big_from_u128(x) }
    }

    /// The sum of two elements.
    pub fn sum(&self, a: &FieldElement, b: &FieldElement) -> (r: FieldElement)
        ensures
            r.value() == (a.value() + b.value()) % self.value(),
    {
        proof {
            use_type_invariant(self);
        }
        let s = big_sum(&a.n, &b.n);
        FieldElement { n: big_remainder(&s, &self.p) }
    }

    /// The product of two elements.
    pub fn product(&self, a: &FieldElement, b: &FieldElement) -> (r: FieldElement)
        ensures
            r.value() == (a.value() * b.value()) % self.value(),
    {
        proof {
            use_type_invariant(self);
        }
        let s = big_product(&a.n, &b.n);
        FieldElement { n: big_remainder(&s, &self.p) }
    }

    /// The additive inverse of an element.
    pub fn negation(&self, a: &FieldElement) -> (r: FieldElement)
        ensures
            r.value() == (-(a.value() as int)) % (self.value() as int),
    {
        proof {
            use_type_invariant(self);
        }
        let reduced = big_remainder(&a.n, &self.p);
        let complement = big_difference(&self.p, &reduced);
        let r = FieldElement { n: big_remainder(&complement, &self.p) };
        proof {
            let x = a.value() as int;
            let p = self.value() as int;
            lemma_mod_add_multiples_vanish(-(x % p), p);
            lemma_sub_mod_noop(0, x, p);
            lemma_small_mod(0, p as nat);
        }
        r
    }
}

} // verus!
