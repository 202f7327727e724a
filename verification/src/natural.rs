//! Natural numbers of any size. The arithmetic is that of `num::BigUint`.
use vstd::prelude::*;

use crate::digits;

verus! {

/// A natural number of any size, held as its base 2^32 digits, least significant digit first and
/// without leading zeros.
#[derive(Debug, PartialEq, Eq)]
pub struct Natural {
    digits: Vec<u32>,
}

impl View for Natural {
    type V = nat;

    closed spec fn view(&self) -> nat {
        digits::digits_value(self.digits@)
    }
}

impl Natural {
    #[verifier::type_invariant]
    spec fn wf(self) -> bool {
        digits::canonical(self.digits@)
    }

    /// The number zero.
    pub fn zero() -> (r: Natural)
        ensures
            r@ == 0,
    {
        Natural { digits: Vec::new() }
    }

    /// The number one.
    pub fn one() -> (r: Natural)
        ensures
            r@ == 1,
    {
        Natural::from_u32(1)
    }

    /// The number `value`.
    pub fn from_u32(value: u32) -> (r: Natural)
        ensures
            r@ == value,
    {
        let mut digits: Vec<u32> = Vec::new();
        if value != 0 {
            digits.push(value);
            assert(digits@.drop_first() =~= Seq::<u32>::empty());
            assert(digits::digits_value(digits@.drop_first()) == 0);
        }
        Natural { digits }
    }

    /// The number whose base 256 digits are `bytes`, least significant byte first.
    pub fn from_bytes_le(bytes: &[u8]) -> (r: Natural)
        ensures
            r@ == digits::bytes_value(bytes@),
    {
        Natural { digits: biguint_from_bytes_le(bytes) }
    }

    /// The base 2^32 digits, least significant digit first and without leading zeros.
    pub fn digits(&self) -> (r: &Vec<u32>)
        ensures
            digits::digits_value(r@) == self@,
            digits::canonical(r@),
    {
        proof {
            use_type_invariant(self);
        }
        &self.digits
    }

    /// The product of two numbers.
    pub fn mul(&self, other: &Natural) -> (r: Natural)
        ensures
            r@ == self@ * other@,
    {
        Natural { digits: biguint_mul(self.digits.as_slice(), other.digits.as_slice()) }
    }

    /// The sum of two numbers.
    pub fn add(&self, other: &Natural) -> (r: Natural)
        ensures
            r@ == self@ + other@,
    {
        Natural { digits: biguint_add(self.digits.as_slice(), other.digits.as_slice()) }
    }

    /// The difference of two numbers, of which the second is not the larger one.
    pub fn sub(&self, other: &Natural) -> (r: Natural)
        requires
            self@ >= other@,
        ensures
            r@ == self@ - other@,
    {
        Natural { digits: biguint_sub(self.digits.as_slice(), other.digits.as_slice()) }
    }

    /// The remainder on division by a number that is not zero.
    pub fn rem(&self, modulus: &Natural) -> (r: Natural)
        requires
            modulus@ > 0,
        ensures
            r@ == self@ % modulus@,
    {
        Natural { digits: biguint_rem(self.digits.as_slice(), modulus.digits.as_slice()) }
    }
}

impl Clone for Natural {
    fn clone(&self) -> (r: Natural)
        ensures
            r@ == self@,
    {
        proof {
            use_type_invariant(self);
        }
        let digits: Vec<u32> = self.digits.clone();
        assert(digits@ =~= self.digits@);
        Natural { digits }
    }
}

/// Calls `num::BigUint::from_bytes_le` and lists the digits of the number it makes. Claims that the
/// number is the one that the bytes stand for, least significant byte first, and that the digits
/// have no leading zero.
#[verifier::external_body]
fn biguint_from_bytes_le(bytes: &[u8]) -> (r: Vec<u32>)
    ensures
        digits::digits_value(r@) == digits::bytes_value(bytes@),
        digits::canonical(r@),
{
    num::BigUint::from_bytes_le(bytes).to_u32_digits()
}

/// Calls `*` on two `num::BigUint` made of the digits given. Claims that the digits of the result
/// stand for the product and have no leading zero.
#[verifier::external_body]
fn biguint_mul(a: &[u32], b: &[u32]) -> (r: Vec<u32>)
    ensures
        digits::digits_value(r@) == digits::digits_value(a@) * digits::digits_value(b@),
        digits::canonical(r@),
{
    (&num::BigUint::from_slice(a) * &num::BigUint::from_slice(b)).to_u32_digits()
}

/// Calls `+` on two `num::BigUint` made of the digits given. Claims that the digits of the result
/// stand for the sum and have no leading zero.
#[verifier::external_body]
fn biguint_add(a: &[u32], b: &[u32]) -> (r: Vec<u32>)
    ensures
        digits::digits_value(r@) == digits::digits_value(a@) + digits::digits_value(b@),
        digits::canonical(r@),
{
    (&num::BigUint::from_slice(a) + &num::BigUint::from_slice(b)).to_u32_digits()
}

/// Calls `-` on two `num::BigUint` made of the digits given, which panics where the second number
/// is the larger one. Claims that the digits of the result stand for the difference and have no
/// leading zero.
#[verifier::external_body]
fn biguint_sub(a: &[u32], b: &[u32]) -> (r: Vec<u32>)
    requires
        digits::digits_value(a@) >= digits::digits_value(b@),
    ensures
        digits::digits_value(r@) == digits::digits_value(a@) - digits::digits_value(b@),
        digits::canonical(r@),
{
    (&num::BigUint::from_slice(a) - &num::BigUint::from_slice(b)).to_u32_digits()
}

/// Calls `%` on two `num::BigUint` made of the digits given, which panics where the second number
/// is zero. Claims that the digits of the result stand for the remainder and have no leading zero.
#[verifier::external_body]
fn biguint_rem(a: &[u32], modulus: &[u32]) -> (r: Vec<u32>)
    requires
        digits::digits_value(modulus@) > 0,
    ensures
        digits::digits_value(r@) == digits::digits_value(a@) % digits::digits_value(modulus@),
        digits::canonical(r@),
{
    (&num::BigUint::from_slice(a) % &num::BigUint::from_slice(modulus)).to_u32_digits()
}

} // verus!
