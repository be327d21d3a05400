//! Arbitrary-precision amounts. Amounts, prices, fee rates and item ids are
//! `candid::Nat` values; contracts speak of them through [`nat_value`].

use vstd::prelude::*;
use candid::{Int, Nat};
use num_bigint::Sign;

verus! {

/// `candid::Nat`, an unbounded natural number. Nothing of its inside is
/// visible here.
#[verifier::external_type_specification]
#[verifier::external_body]
pub struct ExNat(candid::Nat);

/// `candid::Int`, an unbounded integer. Nothing of its inside is visible
/// here.
#[verifier::external_type_specification]
#[verifier::external_body]
pub struct ExInt(candid::Int);

/// The digits that a `Nat` holds: base 2^64, least significant first.
pub uninterp spec fn nat_digits(n: Nat) -> Seq<u64>;

/// The digits of the magnitude that an `Int` holds: base 2^64, least
/// significant first.
pub uninterp spec fn int_digits(i: Int) -> Seq<u64>;

/// Whether the sign that an `Int` holds is minus.
pub uninterp spec fn int_is_negative(i: Int) -> bool;

/// The natural number that a `Nat` holds.
pub open spec fn nat_value(n: Nat) -> nat {
    digits64_value(nat_digits(n))
}

/// The integer that an `Int` holds.
pub open spec fn int_value(i: Int) -> int {
    if int_is_negative(i) {
        -(digits64_value(int_digits(i)) as int)
    } else {
        digits64_value(int_digits(i)) as int
    }
}

/// `Nat::from(u64)`: the number itself, as a `Nat`.
#[verifier::external_body]
pub(crate) fn nat_from_u64(v: u64) -> (r: Nat)
    ensures
        nat_value(r) == v,
{
    Nat::from(v)
}

/// `Nat::clone`: a copy of every digit, so the result is the same value.
pub assume_specification[ <candid::Nat as Clone>::clone ](n: &candid::Nat) -> (r: candid::Nat)
    ensures
        r == *n,
;

/// `Nat + Nat`: the sum. Big-integer addition cannot overflow.
#[verifier::external_body]
pub(crate) fn nat_add(a: &Nat, b: &Nat) -> (r: Nat)
    ensures
        nat_value(r) == nat_value(*a) + nat_value(*b),
{
    a.clone() + b.clone()
}

/// `Nat - Nat`: the difference. The subtraction panics when the result would
/// be negative, so the subtrahend may not exceed the minuend.
#[verifier::external_body]
pub(crate) fn nat_sub(a: &Nat, b: &Nat) -> (r: Nat)
    requires
        nat_value(*b) <= nat_value(*a),
    ensures
        nat_value(r) == nat_value(*a) - nat_value(*b),
{
    a.clone() - b.clone()
}

/// `Nat * Nat`: the product.
#[verifier::external_body]
pub(crate) fn nat_mul(a: &Nat, b: &Nat) -> (r: Nat)
    ensures
        nat_value(r) == nat_value(*a) * nat_value(*b),
{
    a.clone() * b.clone()
}

/// `Nat / Nat`: the truncated quotient. Division by zero panics, so the
/// divisor may not be zero.
#[verifier::external_body]
pub(crate) fn nat_div(a: &Nat, b: &Nat) -> (r: Nat)
    requires
        nat_value(*b) != 0,
    ensures
        nat_value(r) == nat_value(*a) / nat_value(*b),
{
    a.clone() / b.clone()
}

/// `Nat < Nat`: the order of the numbers held.
#[verifier::external_body]
pub(crate) fn nat_lt(a: &Nat, b: &Nat) -> (r: bool)
    ensures
        r == (nat_value(*a) < nat_value(*b)),
{
    a < b
}

/// `Nat == Nat`: whether both hold the same number.
#[verifier::external_body]
pub(crate) fn nat_eq(a: &Nat, b: &Nat) -> (r: bool)
    ensures
        r == (nat_value(*a) == nat_value(*b)),
{
    a == b
}

/// The number written by little-endian digits in base 2^64.
pub open spec fn digits64_value(d: Seq<u64>) -> nat
    decreases d.len(),
{
    if d.len() == 0 {
        0
    } else {
        d[0] as nat + 0x1_0000_0000_0000_0000 * digits64_value(d.skip(1))
    }
}

/// The number written by little-endian digits in base 2^32.
pub open spec fn digits32_value(d: Seq<u32>) -> nat
    decreases d.len(),
{
    if d.len() == 0 {
        0
    } else {
        d[0] as nat + 0x1_0000_0000 * digits32_value(d.skip(1))
    }
}

/// `BigUint::to_u64_digits` on the number inside a `Nat`: the digits that it
/// holds. The highest digit is never zero (zero has no digits at all).
#[verifier::external_body]
fn nat_u64_digits(n: &Nat) -> (d: Vec<u64>)
    ensures
        d@ == nat_digits(*n),
        d@.len() > 0 ==> d@.last() != 0,
{
    n.0.to_u64_digits()
}

/// `BigUint::to_u32_digits` on the number inside a `Nat`: its digits in base
/// 2^32, least significant first. The highest digit is never zero.
#[verifier::external_body]
fn nat_u32_digits(n: &Nat) -> (d: Vec<u32>)
    ensures
        digits32_value(d@) == digits64_value(nat_digits(*n)),
        d@.len() > 0 ==> d@.last() != 0,
{
    n.0.to_u32_digits()
}

/// `BigInt::to_u64_digits` on the number inside an `Int`: whether the sign is
/// minus, and the digits of the magnitude. The highest digit is never zero,
/// and a number with the sign minus is not zero.
#[verifier::external_body]
fn int_u64_digits(i: &Int) -> (r: (bool, Vec<u64>))
    ensures
        r.0 == int_is_negative(*i),
        r.1@ == int_digits(*i),
        r.1@.len() > 0 ==> r.1@.last() != 0,
        r.0 ==> r.1@.len() > 0,
{
    let (sign, digits) = i.0.to_u64_digits();
    let minus = match sign {
        Sign::Minus => true,
        Sign::NoSign => false,
        Sign::Plus => false,
    };
    (minus, digits)
}

/// Digits whose highest is not zero write a number that is not zero, and
/// two or more of them a number beyond 64 bits.
proof fn lemma_digits64_top(d: Seq<u64>)
    requires
        d.len() > 0,
        d.last() != 0,
    ensures
        digits64_value(d) >= 1,
        d.len() >= 2 ==> digits64_value(d) >= 0x1_0000_0000_0000_0000,
    decreases d.len(),
{
    if d.len() >= 2 {
        let rest = d.skip(1);
        assert(rest.last() == d.last());
        lemma_digits64_top(rest);
    } else {
        assert(digits64_value(d.skip(1)) == 0);
    }
}

/// Digits whose highest is not zero write a number that is not zero, and
/// two or more of them a number beyond 32 bits.
proof fn lemma_digits32_top(d: Seq<u32>)
    requires
        d.len() > 0,
        d.last() != 0,
    ensures
        digits32_value(d) >= 1,
        d.len() >= 2 ==> digits32_value(d) >= 0x1_0000_0000,
    decreases d.len(),
{
    if d.len() >= 2 {
        let rest = d.skip(1);
        assert(rest.last() == d.last());
        lemma_digits32_top(rest);
    } else {
        assert(digits32_value(d.skip(1)) == 0);
    }
}

/// The `u64` that a `Nat` holds, or an error when it does not fit.
pub fn convert_nat_to_u64(num: Nat) -> (r: Result<u64, String>)
    ensures
        r is Ok <==> nat_value(num) <= u64::MAX,
        r is Ok ==> r->Ok_0 == nat_value(num),
        r is Err ==> r->Err_0@ == "Nat -> Nat64 conversion failed"@,
{
    let digits = nat_u64_digits(&num);
    proof {
        if digits@.len() > 0 {
            lemma_digits64_top(digits@);
        }
        if digits@.len() == 1 {
            assert(digits64_value(digits@.skip(1)) == 0);
        }
    }
    if digits.len() == 0 {
        Ok(0)
    } else if digits.len() == 1 {
        Ok(digits[0])
    } else {
        Err("Nat -> Nat64 conversion failed".to_string())
    }
}

/// The `u32` that a `Nat` holds, or an error when it does not fit.
pub fn convert_nat_to_u32(num: Nat) -> (r: Result<u32, String>)
    ensures
        r is Ok <==> nat_value(num) <= u32::MAX,
        r is Ok ==> r->Ok_0 == nat_value(num),
        r is Err ==> r->Err_0@ == "Nat -> Nat32 conversion failed"@,
{
    let digits = nat_u32_digits(&num);
    proof {
        if digits@.len() > 0 {
            lemma_digits32_top(digits@);
        }
        if digits@.len() == 1 {
            assert(digits32_value(digits@.skip(1)) == 0);
        }
    }
    if digits.len() == 0 {
        Ok(0)
    } else if digits.len() == 1 {
        Ok(digits[0])
    } else {
        Err("Nat -> Nat32 conversion failed".to_string())
    }
}

/// The `u64` that an `Int` holds, or an error when it is negative or does not
/// fit.
pub fn convert_int_to_u64(num: Int) -> (r: Result<u64, String>)
    ensures
        r is Ok <==> 0 <= int_value(num) <= u64::MAX,
        r is Ok ==> r->Ok_0 == int_value(num),
        int_value(num) < 0 ==> r is Err && r->Err_0@
            == "negative number cannot be converted to u64"@,
        int_value(num) > u64::MAX ==> r is Err && r->Err_0@ == "Int -> Nat64 conversion failed"@,
{
    let (minus, digits) = int_u64_digits(&num);
    if minus {
        proof {
            lemma_digits64_top(digits@);
        }
        return Err("negative number cannot be converted to u64".to_string());
    }
    proof {
        if digits@.len() > 0 {
            lemma_digits64_top(digits@);
        }
        if digits@.len() == 1 {
            assert(digits64_value(digits@.skip(1)) == 0);
        }
    }
    if digits.len() == 0 {
        Ok(0)
    } else if digits.len() == 1 {
        Ok(digits[0])
    } else {
        Err("Int -> Nat64 conversion failed".to_string())
    }
}

} // verus!
