//! 256-bit unsigned integers and decimals, as the mantra fee computation uses them.
//! A value is held as two 128-bit halves; the wide multiplications are done by
//! `cosmwasm_std`.

use vstd::prelude::*;
use crate::decimal::{product_atomics, DECIMAL_FRACTIONAL};

verus! {

/// `2^128`
pub open spec fn two_pow_128() -> int {
    (u128::MAX as int) + 1
}

/// The largest 256-bit value.
pub open spec fn uint256_max() -> int {
    two_pow_128() * two_pow_128() - 1
}

/// An unsigned 256-bit integer: `hi * 2^128 + lo`.
#[derive(Clone, Copy, Debug, PartialEq, Eq, Structural)]
pub struct Uint256 {
    pub hi: u128,
    pub lo: u128,
}

impl Uint256 {
    pub open spec fn value(&self) -> int {
        self.hi * two_pow_128() + self.lo
    }

    /// The 256-bit integer equal to `v`.
    pub fn from_u128(v: u128) -> (r: Uint256)
        ensures
            r.value() == v,
    {
        Uint256 { hi: 0, lo: v }
    }

    /// `0`
    pub fn zero() -> (r: Uint256)
        ensures
            r.value() == 0,
    {
        Uint256 { hi: 0, lo: 0 }
    }

    /// `self + other`, or `None` when the sum needs more than 256 bits.
    pub fn checked_add(self, other: Uint256) -> (r: Option<Uint256>)
        ensures
            self.value() + other.value() <= uint256_max() ==> (r matches Some(s) && s.value()
                == self.value() + other.value()),
            self.value() + other.value() > uint256_max() ==> r is None,
    {
        let (lo, carry) = if self.lo <= u128::MAX - other.lo {
            (self.lo + other.lo, 0u128)
        } else {
            (self.lo - (u128::MAX - other.lo) - 1, 1u128)
        };
        assert(lo + carry * two_pow_128() == self.lo + other.lo);
        if self.hi > u128::MAX - other.hi {
            return None;
        }
        let hi_sum = self.hi + other.hi;
        if hi_sum > u128::MAX - carry {
            return None;
        }
        let r = Uint256 { hi: hi_sum + carry, lo };
        assert(r.value() == self.value() + other.value()) by (nonlinear_arith)
            requires
                r.hi == self.hi + other.hi + carry,
                r.lo + carry * two_pow_128() == self.lo + other.lo,
        ;
        Some(r)
    }

    /// The value as a `u128`, or `None` when it does not fit.
    pub fn to_u128(self) -> (r: Option<u128>)
        ensures
            self.value() <= u128::MAX ==> r == Some(self.value() as u128),
            self.value() > u128::MAX ==> r is None,
    {
        if self.hi == 0 {
            Some(self.lo)
        } else {
            assert(self.value() >= two_pow_128()) by (nonlinear_arith)
                requires
                    self.hi >= 1,
                    self.value() == self.hi * two_pow_128() + self.lo,
            ;
            None
        }
    }
}

/// A non-negative fixed point number of 256 bits: `atomics / 10^18`.
#[derive(Clone, Copy, Debug, PartialEq, Eq, Structural)]
pub struct Decimal256 {
    pub atomics: Uint256,
}

/// `Decimal256::from_ratio(amount, 1)` of `cosmwasm_std`: claims the decimal whose
/// atomics are `amount * 10^18`; the caller keeps that within 256 bits (the function
/// panics otherwise).
#[verifier::external_body]
fn cw_decimal256_from_integer(amount: Uint256) -> (r: Uint256)
    requires
        amount.value() * DECIMAL_FRACTIONAL <= uint256_max(),
    ensures
        r.value() == amount.value() * DECIMAL_FRACTIONAL,
{
    let mut bytes = [0u8; 32];
    bytes[..16].copy_from_slice(&amount.hi.to_be_bytes());
    bytes[16..].copy_from_slice(&amount.lo.to_be_bytes());
    let d = cosmwasm_std::Decimal256::from_ratio(cosmwasm_std::Uint256::from_be_bytes(bytes), 1u128);
    let out = d.atomics().to_be_bytes();
    Uint256 {
        hi: u128::from_be_bytes(out[..16].try_into().unwrap()),
        lo: u128::from_be_bytes(out[16..].try_into().unwrap()),
    }
}

/// `Decimal256::checked_mul` of `cosmwasm_std`: claims `floor(a * b / 10^18)` of the
/// atomics, failing exactly when that exceeds 256 bits, with the text of its
/// overflow error: `Cannot Mul with given operands`.
#[verifier::external_body]
fn cw_decimal256_checked_mul(a: Uint256, b: Uint256) -> (r: Result<Uint256, String>)
    ensures
        r is Ok <==> product_atomics(a.value(), b.value()) <= uint256_max(),
        r matches Ok(p) ==> p.value() == product_atomics(a.value(), b.value()),
        r matches Err(m) ==> m@ == "Cannot Mul with given operands"@,
{
    let x = [a.hi.to_be_bytes(), a.lo.to_be_bytes()].concat();
    let y = [b.hi.to_be_bytes(), b.lo.to_be_bytes()].concat();
    let dx = cosmwasm_std::Decimal256::new(cosmwasm_std::Uint256::from_be_bytes(x.try_into().unwrap()));
    let dy = cosmwasm_std::Decimal256::new(cosmwasm_std::Uint256::from_be_bytes(y.try_into().unwrap()));
    match dx.checked_mul(dy) {
        Ok(p) => {
            let o = p.atomics().to_be_bytes();
            Ok(Uint256 { hi: u128::from_be_bytes(o[..16].try_into().unwrap()), lo: u128::from_be_bytes(o[16..].try_into().unwrap()) })
        },
        Err(e) => Err(e.to_string()),
    }
}

/// `Decimal256::to_uint_floor` of `cosmwasm_std`: claims the whole part,
/// `floor(atomics / 10^18)`.
#[verifier::external_body]
fn cw_decimal256_to_uint_floor(atomics: Uint256) -> (r: Uint256)
    ensures
        r.value() == atomics.value() / (DECIMAL_FRACTIONAL as int),
{
    let mut bytes = [0u8; 32];
    bytes[..16].copy_from_slice(&atomics.hi.to_be_bytes());
    bytes[16..].copy_from_slice(&atomics.lo.to_be_bytes());
    let d = cosmwasm_std::Decimal256::new(cosmwasm_std::Uint256::from_be_bytes(bytes));
    let out = d.to_uint_floor().to_be_bytes();
    Uint256 {
        hi: u128::from_be_bytes(out[..16].try_into().unwrap()),
        lo: u128::from_be_bytes(out[16..].try_into().unwrap()),
    }
}

impl Decimal256 {
    /// The decimal equal to the integer `amount`; requires `amount * 10^18` to fit.
    pub fn from_integer(amount: Uint256) -> (r: Decimal256)
        requires
            amount.value() * DECIMAL_FRACTIONAL <= uint256_max(),
        ensures
            r.atomics.value() == amount.value() * DECIMAL_FRACTIONAL,
    {
        Decimal256 { atomics: cw_decimal256_from_integer(amount) }
    }

    /// `self * other`, rounded down, or the error message on an overflow.
    pub fn checked_mul(self, other: Decimal256) -> (r: Result<Decimal256, String>)
        ensures
            self.atomics.value() * other.atomics.value() / (DECIMAL_FRACTIONAL as int) <= uint256_max()
                ==> (r matches Ok(p) && p.atomics.value() == self.atomics.value() * other.atomics.value()
                / (DECIMAL_FRACTIONAL as int)),
            self.atomics.value() * other.atomics.value() / (DECIMAL_FRACTIONAL as int) > uint256_max()
                ==> (r matches Err(m) && m@ == "Cannot Mul with given operands"@),
    {
        match cw_decimal256_checked_mul(self.atomics, other.atomics) {
            Ok(p) => Ok(Decimal256 { atomics: p }),
            Err(e) => Err(e),
        }
    }

    /// The whole part, rounded down.
    pub fn to_uint_floor(self) -> (r: Uint256)
        ensures
            r.value() == self.atomics.value() / (DECIMAL_FRACTIONAL as int),
    {
        cw_decimal256_to_uint_floor(self.atomics)
    }
}

} // verus!
