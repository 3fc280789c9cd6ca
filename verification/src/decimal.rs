//! Fixed point decimals with 18 fractional digits, as the adapters use them for
//! prices, fee shares and exchange rates. The value of a `Decimal` is
//! `atomics / 10^18`. Arithmetic that needs wide intermediate values is done by
//! `cosmwasm_std`, the parsing of numbers by `cosmwasm_std` and `std`.

use vstd::prelude::*;
use crate::error::StdError;
use crate::strings::spec_starts_with;

verus! {

/// `10^18`, the number of atomics in `1.0`.
pub const DECIMAL_FRACTIONAL: u128 = 1_000_000_000_000_000_000u128;

/// A non-negative fixed point number: `atomics / 10^18`.
#[derive(Clone, Copy, Debug, PartialEq, Eq, Structural)]
pub struct Decimal {
    pub atomics: u128,
}

/// `floor(numerator * 10^18 / denominator)`, the atomics of the ratio.
pub open spec fn ratio_atomics(numerator: int, denominator: int) -> int {
    numerator * (DECIMAL_FRACTIONAL as int) / denominator
}

/// The atomics of `numerator / denominator`, when the ratio is defined and fits.
pub open spec fn spec_checked_from_ratio(numerator: u128, denominator: u128) -> Option<Decimal> {
    if denominator == 0 || ratio_atomics(numerator as int, denominator as int) > u128::MAX {
        None
    } else {
        Some(Decimal { atomics: ratio_atomics(numerator as int, denominator as int) as u128 })
    }
}

/// `floor(a * b / 10^18)`, the atomics of the product of two decimals.
pub open spec fn product_atomics(a: int, b: int) -> int {
    a * b / (DECIMAL_FRACTIONAL as int)
}

/// The product of two decimals, rounded down, when it fits.
pub open spec fn spec_checked_mul(a: Decimal, b: Decimal) -> Option<Decimal> {
    if product_atomics(a.atomics as int, b.atomics as int) > u128::MAX {
        None
    } else {
        Some(Decimal { atomics: product_atomics(a.atomics as int, b.atomics as int) as u128 })
    }
}

/// The quotient of two decimals, rounded down, when it is defined and fits.
pub open spec fn spec_checked_div(a: Decimal, b: Decimal) -> Option<Decimal> {
    spec_checked_from_ratio(a.atomics, b.atomics)
}

/// The sum of two decimals, when it fits.
pub open spec fn spec_checked_add(a: Decimal, b: Decimal) -> Option<Decimal> {
    if a.atomics + b.atomics > u128::MAX {
        None
    } else {
        Some(Decimal { atomics: (a.atomics + b.atomics) as u128 })
    }
}

/// `floor(amount * d)`, when it fits in 128 bits.
pub open spec fn spec_mul_floor(amount: u128, d: Decimal) -> Option<u128> {
    if product_atomics(amount as int, d.atomics as int) > u128::MAX {
        None
    } else {
        Some(product_atomics(amount as int, d.atomics as int) as u128)
    }
}

/// `floor(amount / d)`, when `d` is not zero and the quotient fits in 128 bits.
pub open spec fn spec_div_floor(amount: u128, d: Decimal) -> Option<u128> {
    if d.atomics == 0 || ratio_atomics(amount as int, d.atomics as int) > u128::MAX {
        None
    } else {
        Some(ratio_atomics(amount as int, d.atomics as int) as u128)
    }
}

pub open spec fn is_ascii_digit(c: char) -> bool {
    '0' <= c && c <= '9'
}

/// The value of a string of decimal digits.
pub open spec fn digits_value(s: Seq<char>) -> nat
    decreases s.len(),
{
    if s.len() == 0 {
        0
    } else {
        digits_value(s.drop_last()) * 10 + ((s.last() as nat) - ('0' as nat)) as nat
    }
}

/// What `str::parse` accepts for an unsigned integer, without the width limit:
/// an optional `+` followed by at least one ASCII digit.
pub open spec fn spec_parse_unsigned(s: Seq<char>) -> Option<nat> {
    let body = if s.len() > 0 && s[0] == '+' { s.drop_first() } else { s };
    if body.len() > 0 && (forall|i: int| 0 <= i < body.len() ==> is_ascii_digit(#[trigger] body[i])) {
        Some(digits_value(body))
    } else {
        None
    }
}

/// `str::parse::<u128>`.
pub open spec fn spec_parse_u128(s: Seq<char>) -> Option<u128> {
    match spec_parse_unsigned(s) {
        Some(v) => if v <= u128::MAX { Some(v as u128) } else { None },
        None => None,
    }
}

/// `str::parse::<u64>`.
pub open spec fn spec_parse_u64(s: Seq<char>) -> Option<u64> {
    match spec_parse_unsigned(s) {
        Some(v) => if v <= u64::MAX { Some(v as u64) } else { None },
        None => None,
    }
}

/// `str::parse::<u16>`.
pub open spec fn spec_parse_u16(s: Seq<char>) -> Option<u16> {
    match spec_parse_unsigned(s) {
        Some(v) => if v <= u16::MAX { Some(v as u16) } else { None },
        None => None,
    }
}

/// The index of the first occurrence of `c` in `s`, or `-1`.
pub open spec fn first_index_of(s: Seq<char>, c: char) -> int
    decreases s.len(),
{
    if s.len() == 0 {
        -1
    } else if s[0] == c {
        0
    } else {
        let r = first_index_of(s.drop_first(), c);
        if r < 0 { -1 } else { r + 1 }
    }
}

pub open spec fn pow10(n: nat) -> nat
    decreases n,
{
    if n == 0 { 1 } else { 10 * pow10((n - 1) as nat) }
}

/// The atomics that `Decimal::from_str` of `cosmwasm_std` gives for a string:
/// a whole part, optionally a dot and at most 18 fractional digits, both parsed as
/// `u128`, no rounding, no second dot.
pub open spec fn spec_decimal_from_str(s: Seq<char>) -> Option<Decimal> {
    let k = first_index_of(s, '.');
    let whole = if k < 0 { s } else { s.take(k) };
    match spec_parse_u128(whole) {
        None => None,
        Some(w) => if w * DECIMAL_FRACTIONAL > u128::MAX {
            None
        } else if k < 0 {
            Some(Decimal { atomics: (w * DECIMAL_FRACTIONAL) as u128 })
        } else {
            let frac = s.skip(k + 1);
            match spec_parse_u128(frac) {
                None => None,
                Some(f) => if frac.len() > 18 {
                    None
                } else if w * DECIMAL_FRACTIONAL + f * pow10((18 - frac.len()) as nat) > u128::MAX {
                    None
                } else if first_index_of(frac, '.') >= 0 {
                    None
                } else {
                    Some(Decimal {
                        atomics: (w * DECIMAL_FRACTIONAL + f * pow10((18 - frac.len()) as nat)) as u128,
                    })
                },
            }
        },
    }
}

/// The message of the error that `Decimal::from_str` of `cosmwasm_std` gives for a
/// string that it refuses: the first check that fails, in its order (the whole part;
/// its size; the fractional part up to the next dot; its length; the size of the
/// sum; a second dot).
pub open spec fn spec_decimal_from_str_error(s: Seq<char>) -> Seq<char> {
    let k = first_index_of(s, '.');
    let whole = if k < 0 { s } else { s.take(k) };
    match spec_parse_u128(whole) {
        None => "Error parsing whole"@,
        Some(w) => if w * DECIMAL_FRACTIONAL > u128::MAX || k < 0 {
            "Value too big"@
        } else {
            let rest = s.skip(k + 1);
            let j = first_index_of(rest, '.');
            let frac = if j < 0 { rest } else { rest.take(j) };
            match spec_parse_u128(frac) {
                None => "Error parsing fractional"@,
                Some(f) => if frac.len() > 18 {
                    "Cannot parse more than 18 fractional digits"@
                } else if w * DECIMAL_FRACTIONAL + f * pow10((18 - frac.len()) as nat) > u128::MAX {
                    "Value too big"@
                } else {
                    "Unexpected number of dots"@
                },
            }
        },
    }
}

/// The text of a generic error of `cosmwasm_std` with message `msg`.
pub open spec fn generic_error_text(msg: Seq<char>) -> Seq<char> {
    "Generic error: "@ + msg
}

/// The ASCII digit of `d < 10`.
pub open spec fn digit_char(d: nat) -> char {
    (48 + d) as char
}

/// `n` written in decimal digits, without leading zeros.
pub open spec fn nat_text(n: nat) -> Seq<char>
    decreases n,
{
    if n < 10 {
        seq![digit_char(n)]
    } else {
        nat_text(n / 10).push(digit_char(n % 10))
    }
}

/// The last `width` decimal digits of `n`, with leading zeros.
pub open spec fn padded_text(n: nat, width: nat) -> Seq<char>
    decreases width,
{
    if width == 0 {
        Seq::empty()
    } else {
        padded_text(n / 10, (width - 1) as nat).push(digit_char(n % 10))
    }
}

/// `s` without its trailing zeros.
pub open spec fn trim_trailing_zeros(s: Seq<char>) -> Seq<char>
    decreases s.len(),
{
    if s.len() > 0 && s.last() == '0' {
        trim_trailing_zeros(s.drop_last())
    } else {
        s
    }
}

/// How `cosmwasm_std` displays a decimal: the whole part, then, when the fraction
/// is not zero, a dot and its 18 digits without the trailing zeros.
pub open spec fn spec_decimal_text(atomics: u128) -> Seq<char> {
    let whole = (atomics / DECIMAL_FRACTIONAL) as nat;
    let fractional = (atomics % DECIMAL_FRACTIONAL) as nat;
    if fractional == 0 {
        nat_text(whole)
    } else {
        nat_text(whole) + "."@ + trim_trailing_zeros(padded_text(fractional, 18))
    }
}

/// `<cosmwasm_std::Decimal as Display>::fmt`, through `to_string`: claims the text
/// that its source writes (see `spec_decimal_text`).
#[verifier::external_body]
fn cw_decimal_to_string(atomics: u128) -> (r: String)
    ensures
        r@ == spec_decimal_text(atomics),
{
    cosmwasm_std::Decimal::raw(atomics).to_string()
}

/// `Decimal::checked_from_ratio` of `cosmwasm_std`: claims that the ratio is
/// `floor(numerator * 10^18 / denominator)` and that it fails exactly on a zero
/// denominator or a result above `u128::MAX` (it computes in 256 bits), with the
/// text of its error: `Denominator must not be zero`, or else `Overflow`.
#[verifier::external_body]
fn cw_checked_from_ratio(numerator: u128, denominator: u128) -> (r: Result<u128, String>)
    ensures
        match spec_checked_from_ratio(numerator, denominator) {
            Some(d) => r == Ok::<u128, String>(d.atomics),
            None => r matches Err(m) && (denominator == 0 ==> m@ == "Denominator must not be zero"@) && (
            denominator != 0 ==> m@ == "Overflow"@),
        },
{
    match cosmwasm_std::Decimal::checked_from_ratio(numerator, denominator) {
        Ok(d) => Ok(d.atomics().u128()),
        Err(e) => Err(e.to_string()),
    }
}

/// `Decimal::checked_mul` of `cosmwasm_std`: claims the product of the atomics
/// divided by `10^18`, rounded down, failing exactly when it exceeds `u128::MAX`,
/// with the text of its overflow error: `Cannot Mul with given operands`.
#[verifier::external_body]
fn cw_checked_mul(a: u128, b: u128) -> (r: Result<u128, String>)
    ensures
        match spec_checked_mul(Decimal { atomics: a }, Decimal { atomics: b }) {
            Some(d) => r == Ok::<u128, String>(d.atomics),
            None => r matches Err(m) && m@ == "Cannot Mul with given operands"@,
        },
{
    match cosmwasm_std::Decimal::raw(a).checked_mul(cosmwasm_std::Decimal::raw(b)) {
        Ok(d) => Ok(d.atomics().u128()),
        Err(e) => Err(e.to_string()),
    }
}

/// `Uint128::checked_mul_floor` of `cosmwasm_std` with a `Decimal` factor: claims
/// `floor(amount * atomics / 10^18)`, failing exactly when it exceeds `u128::MAX`.
#[verifier::external_body]
fn cw_checked_mul_floor(amount: u128, d: u128) -> (r: Option<u128>)
    ensures
        r == spec_mul_floor(amount, Decimal { atomics: d }),
{
    match cosmwasm_std::Uint128::new(amount).checked_mul_floor(cosmwasm_std::Decimal::raw(d)) {
        Ok(v) => Some(v.u128()),
        Err(_) => None,
    }
}

/// `Uint128::checked_div_floor` of `cosmwasm_std` with a `Decimal` divisor: claims
/// `floor(amount * 10^18 / atomics)`, failing exactly on a zero divisor or a result
/// above `u128::MAX`.
#[verifier::external_body]
fn cw_checked_div_floor(amount: u128, d: u128) -> (r: Option<u128>)
    ensures
        r == spec_div_floor(amount, Decimal { atomics: d }),
{
    match cosmwasm_std::Uint128::new(amount).checked_div_floor(cosmwasm_std::Decimal::raw(d)) {
        Ok(v) => Some(v.u128()),
        Err(_) => None,
    }
}

/// `<cosmwasm_std::Decimal as FromStr>::from_str`: claims the result that its source
/// shows (see `spec_decimal_from_str`), or else the message of the generic error that
/// it returns, that of the first check that failed (see `spec_decimal_from_str_error`).
#[verifier::external_body]
fn cw_decimal_from_str(s: &str) -> (r: Result<u128, String>)
    ensures
        match spec_decimal_from_str(s@) {
            Some(d) => r == Ok::<u128, String>(d.atomics),
            None => r matches Err(m) && m@ == spec_decimal_from_str_error(s@),
        },
{
    match <cosmwasm_std::Decimal as std::str::FromStr>::from_str(s) {
        Ok(d) => Ok(d.atomics().u128()),
        Err(cosmwasm_std::StdError::GenericErr { msg, .. }) => Err(msg),
        Err(e) => Err(e.to_string()),
    }
}

/// `<cosmwasm_std::Uint128 as FromStr>::from_str`, which reads the text as
/// `str::parse::<u128>` does (an optional `+`, then decimal digits, in range): claims
/// that number, or else an error carrying the message of the generic error it returns,
/// which begins with `Parsing u128: ` (the rest, the parser's own words, is left
/// unsaid).
#[verifier::external_body]
fn cw_uint128_from_str(s: &str) -> (r: Result<u128, String>)
    ensures
        match spec_parse_u128(s@) {
            Some(v) => r == Ok::<u128, String>(v),
            None => r matches Err(m) && spec_starts_with(m@, parse_u128_error_prefix()),
        },
{
    match <cosmwasm_std::Uint128 as std::str::FromStr>::from_str(s) {
        Ok(u) => Ok(u.u128()),
        Err(cosmwasm_std::StdError::GenericErr { msg, .. }) => Err(msg),
        Err(e) => Err(e.to_string()),
    }
}

/// `str::parse::<u64>`: an optional `+` and at least one digit, in range.
#[verifier::external_body]
pub(crate) fn parse_u64(s: &str) -> (r: Option<u64>)
    ensures
        r == spec_parse_u64(s@),
{
    match s.parse::<u64>() {
        Ok(v) => Some(v),
        Err(_) => None,
    }
}

/// `str::parse::<u16>`: an optional `+` and at least one digit, in range.
#[verifier::external_body]
pub(crate) fn parse_u16(s: &str) -> (r: Option<u16>)
    ensures
        r == spec_parse_u16(s@),
{
    match s.parse::<u16>() {
        Ok(v) => Some(v),
        Err(_) => None,
    }
}

impl Decimal {
    /// `1.0`
    pub fn one() -> (r: Decimal)
        ensures
            r.atomics == DECIMAL_FRACTIONAL,
    {
        Decimal { atomics: DECIMAL_FRACTIONAL }
    }

    /// `0.0`
    pub fn zero() -> (r: Decimal)
        ensures
            r.atomics == 0,
    {
        Decimal { atomics: 0 }
    }

    /// `x / 100`
    pub fn percent(x: u64) -> (r: Decimal)
        ensures
            r.atomics == x * 10_000_000_000_000_000,
    {
        Decimal { atomics: (x as u128) * 10_000_000_000_000_000u128 }
    }

    /// `x / 1000`
    pub fn permille(x: u64) -> (r: Decimal)
        ensures
            r.atomics == x * 1_000_000_000_000_000,
    {
        Decimal { atomics: (x as u128) * 1_000_000_000_000_000u128 }
    }

    /// The decimal with the given atomics.
    pub fn raw(atomics: u128) -> (r: Decimal)
        ensures
            r.atomics == atomics,
    {
        Decimal { atomics }
    }

    /// `numerator / denominator`, or `None` on a zero denominator or an overflow.
    pub fn checked_from_ratio(numerator: u128, denominator: u128) -> (r: Option<Decimal>)
        ensures
            r == spec_checked_from_ratio(numerator, denominator),
    {
        match cw_checked_from_ratio(numerator, denominator) {
            Ok(a) => Some(Decimal { atomics: a }),
            Err(_) => None,
        }
    }

    /// `numerator / denominator`, on the inputs where it is defined.
    pub fn from_ratio(numerator: u128, denominator: u128) -> (r: Decimal)
        requires
            spec_checked_from_ratio(numerator, denominator) is Some,
        ensures
            Some(r) == spec_checked_from_ratio(numerator, denominator),
    {
        match cw_checked_from_ratio(numerator, denominator) {
            Ok(a) => Decimal { atomics: a },
            Err(_) => Decimal { atomics: 0 },
        }
    }

    /// `self * other`, rounded down, or `None` on an overflow.
    pub fn checked_mul(self, other: Decimal) -> (r: Option<Decimal>)
        ensures
            r == spec_checked_mul(self, other),
    {
        match cw_checked_mul(self.atomics, other.atomics) {
            Ok(a) => Some(Decimal { atomics: a }),
            Err(_) => None,
        }
    }

    /// `self * other`, rounded down; on an overflow, the error's text.
    pub fn checked_mul_with_message(self, other: Decimal) -> (r: Result<Decimal, String>)
        ensures
            match spec_checked_mul(self, other) {
                Some(d) => r == Ok::<Decimal, String>(d),
                None => r matches Err(m) && m@ == "Cannot Mul with given operands"@,
            },
    {
        match cw_checked_mul(self.atomics, other.atomics) {
            Ok(a) => Ok(Decimal { atomics: a }),
            Err(m) => Err(m),
        }
    }

    /// `self / other`, rounded down; on a zero divisor or an overflow, the error's
    /// text.
    pub fn checked_div_with_message(self, other: Decimal) -> (r: Result<Decimal, String>)
        ensures
            match spec_checked_div(self, other) {
                Some(d) => r == Ok::<Decimal, String>(d),
                None => r matches Err(m) && (other.atomics == 0 ==> m@ == "Denominator must not be zero"@) && (
                other.atomics != 0 ==> m@ == "Overflow"@),
            },
    {
        match cw_checked_from_ratio(self.atomics, other.atomics) {
            Ok(a) => Ok(Decimal { atomics: a }),
            Err(m) => Err(m),
        }
    }

    /// `self / other`, rounded down, or `None` on a zero divisor or an overflow.
    pub fn checked_div(self, other: Decimal) -> (r: Option<Decimal>)
        ensures
            r == spec_checked_div(self, other),
    {
        Decimal::checked_from_ratio(self.atomics, other.atomics)
    }

    /// `self + other`, or `None` on an overflow.
    pub fn checked_add(self, other: Decimal) -> (r: Option<Decimal>)
        ensures
            r == spec_checked_add(self, other),
    {
        match self.atomics.checked_add(other.atomics) {
            Some(a) => Some(Decimal { atomics: a }),
            None => None,
        }
    }

    /// `self > other`
    pub fn gt(self, other: Decimal) -> (r: bool)
        ensures
            r == (self.atomics > other.atomics),
    {
        self.atomics > other.atomics
    }

    /// `self >= other`
    pub fn ge(self, other: Decimal) -> (r: bool)
        ensures
            r == (self.atomics >= other.atomics),
    {
        self.atomics >= other.atomics
    }

    /// The decimal as text, as the contracts display it.
    pub fn to_string(&self) -> (r: String)
        ensures
            r@ == spec_decimal_text(self.atomics),
    {
        cw_decimal_to_string(self.atomics)
    }

    /// Parses a decimal string such as `"0.5"` or `"12"`; a refused string is a
    /// generic error that says why.
    pub fn from_str(s: &str) -> (r: Result<Decimal, StdError>)
        ensures
            match spec_decimal_from_str(s@) {
                Some(d) => r == Ok::<Decimal, StdError>(d),
                None => r matches Err(StdError::GenericErr { msg }) && msg@ == spec_decimal_from_str_error(s@),
            },
    {
        match cw_decimal_from_str(s) {
            Ok(a) => Ok(Decimal { atomics: a }),
            Err(msg) => Err(StdError::GenericErr { msg }),
        }
    }
}

/// The beginning of the message of a failed parse of an amount.
pub open spec fn parse_u128_error_prefix() -> Seq<char> {
    seq!['P', 'a', 'r', 's', 'i', 'n', 'g', ' ', 'u', '1', '2', '8', ':', ' ']
}

/// Parses an amount written in decimal digits, as the contracts' `Uint128` does.
pub fn uint128_from_str(s: &str) -> (r: Result<u128, StdError>)
    ensures
        match spec_parse_u128(s@) {
            Some(v) => r == Ok::<u128, StdError>(v),
            None => r matches Err(StdError::GenericErr { msg }) && spec_starts_with(msg@, parse_u128_error_prefix()),
        },
{
    match cw_uint128_from_str(s) {
        Ok(v) => Ok(v),
        Err(msg) => Err(StdError::GenericErr { msg }),
    }
}

/// `floor(amount * d)`, or `None` when it does not fit in 128 bits.
pub fn checked_mul_floor(amount: u128, d: Decimal) -> (r: Option<u128>)
    ensures
        r == spec_mul_floor(amount, d),
{
    cw_checked_mul_floor(amount, d.atomics)
}

/// `floor(amount / d)`, or `None` on a zero `d` or a quotient above 128 bits.
pub fn checked_div_floor(amount: u128, d: Decimal) -> (r: Option<u128>)
    ensures
        r == spec_div_floor(amount, d),
{
    cw_checked_div_floor(amount, d.atomics)
}

} // verus!
