//! Fixed-point and ratio arithmetic on unsigned 128-bit amounts.

use vstd::prelude::*;

verus! {

/// The number of atomic units in one whole [`Decimal`]: ten to the eighteenth.
pub const DECIMAL_FRACTIONAL: u128 = 1_000_000_000_000_000_000u128;

/// A non-negative fixed-point number with eighteen decimal places, held as its atomic count.
#[derive(Clone, Copy, Debug, PartialEq, Eq, Structural)]
pub struct Decimal {
    /// The value times ten to the eighteenth.
    pub atomics: u128,
}

/// `value * numerator / denominator`, rounded down, in mathematical integers.
pub open spec fn ratio(value: int, numerator: int, denominator: int) -> int {
    value * numerator / denominator
}

/// `value * numerator / denominator`, rounded up.
pub open spec fn ratio_ceil(value: int, numerator: int, denominator: int) -> int {
    (value * numerator + denominator - 1) / denominator
}

impl Decimal {
    /// The whole number one.
    pub fn one() -> (d: Decimal)
        ensures
            d.atomics == DECIMAL_FRACTIONAL,
    {
        Decimal { atomics: DECIMAL_FRACTIONAL }
    }

    /// The whole number zero.
    pub fn zero() -> (d: Decimal)
        ensures
            d.atomics == 0,
    {
        Decimal { atomics: 0 }
    }

    /// Builds a decimal from its atomic count.
    pub fn raw(atomics: u128) -> (d: Decimal)
        ensures
            d.atomics == atomics,
    {
        Decimal { atomics }
    }

    /// `numerator / denominator`, rounded down to eighteen decimal places.
    pub fn from_ratio(numerator: u128, denominator: u128) -> (d: Decimal)
        requires
            denominator > 0,
            ratio(numerator as int, DECIMAL_FRACTIONAL as int, denominator as int) <= u128::MAX,
        ensures
            d.atomics == ratio(numerator as int, DECIMAL_FRACTIONAL as int, denominator as int),
    {
        decimal_from_ratio(numerator, denominator)
    }
}

/// Calls `cosmwasm_std::Uint128::multiply_ratio`, which returns
/// `value * numerator / denominator` rounded down, computed without intermediate overflow,
/// and panics when the denominator is zero or the quotient does not fit in 128 bits.
#[verifier::external_body]
pub(crate) fn uint_multiply_ratio(value: u128, numerator: u128, denominator: u128) -> (r: u128)
    requires
        denominator > 0,
        ratio(value as int, numerator as int, denominator as int) <= u128::MAX,
    ensures
        r == ratio(value as int, numerator as int, denominator as int),
{
    cosmwasm_std::Uint128::new(value).multiply_ratio(numerator, denominator).u128()
}

/// Calls `cosmwasm_std::Decimal::from_ratio`, which holds
/// `numerator * 10^18 / denominator` rounded down as its atomics, and panics when the
/// denominator is zero or that quotient does not fit in 128 bits.
#[verifier::external_body]
fn decimal_from_ratio(numerator: u128, denominator: u128) -> (d: Decimal)
    requires
        denominator > 0,
        ratio(numerator as int, DECIMAL_FRACTIONAL as int, denominator as int) <= u128::MAX,
    ensures
        d.atomics == ratio(numerator as int, DECIMAL_FRACTIONAL as int, denominator as int),
{
    Decimal { atomics: cosmwasm_std::Decimal::from_ratio(numerator, denominator).atomics().u128() }
}

/// Calls `Uint128 * Decimal` of `cosmwasm_std`, which is zero when either factor is zero and
/// otherwise `value * atomics / 10^18` rounded down; it panics when the product does not fit.
#[verifier::external_body]
fn uint_mul_decimal(value: u128, d: Decimal) -> (r: u128)
    requires
        ratio(value as int, d.atomics as int, DECIMAL_FRACTIONAL as int) <= u128::MAX,
    ensures
        r == ratio(value as int, d.atomics as int, DECIMAL_FRACTIONAL as int),
{
    (cosmwasm_std::Uint128::new(value) * cosmwasm_std::Decimal::raw(d.atomics)).u128()
}

/// `value * numerator / denominator`, rounded down.
pub fn multiply_ratio(value: u128, numerator: u128, denominator: u128) -> (r: u128)
    requires
        denominator > 0,
        ratio(value as int, numerator as int, denominator as int) <= u128::MAX,
    ensures
        r == ratio(value as int, numerator as int, denominator as int),
{
    uint_multiply_ratio(value, numerator, denominator)
}

/// `value * numerator / denominator` rounded down, or `None` when it does not fit in 128 bits.
pub fn checked_multiply_ratio(value: u128, numerator: u128, denominator: u128) -> (r: Option<u128>)
    requires
        denominator > 0,
    ensures
        r == if ratio(value as int, numerator as int, denominator as int) <= u128::MAX {
            Some(ratio(value as int, numerator as int, denominator as int) as u128)
        } else {
            None::<u128>
        },
{
    uint_checked_multiply_ratio(value, numerator, denominator)
}

/// Calls `cosmwasm_std::Uint128::checked_multiply_ratio`, which computes
/// `value * numerator / denominator` rounded down without intermediate overflow, and refuses
/// a zero denominator or a quotient that does not fit in 128 bits.
#[verifier::external_body]
fn uint_checked_multiply_ratio(value: u128, numerator: u128, denominator: u128) -> (r: Option<
    u128,
>)
    requires
        denominator > 0,
    ensures
        r == if ratio(value as int, numerator as int, denominator as int) <= u128::MAX {
            Some(ratio(value as int, numerator as int, denominator as int) as u128)
        } else {
            None::<u128>
        },
{
    cosmwasm_std::Uint128::new(value).checked_multiply_ratio(numerator, denominator).ok().map(
        |q| q.u128(),
    )
}

/// `value * numerator / denominator` rounded up, or `None` when it does not fit in 128 bits.
pub fn checked_multiply_ratio_ceil(value: u128, numerator: u128, denominator: u128) -> (r: Option<
    u128,
>)
    requires
        denominator > 0,
    ensures
        r == if ratio_ceil(value as int, numerator as int, denominator as int) <= u128::MAX {
            Some(ratio_ceil(value as int, numerator as int, denominator as int) as u128)
        } else {
            None::<u128>
        },
{
    uint_checked_mul_ceil(value, numerator, denominator)
}

/// Calls `cosmwasm_std::Uint128::checked_mul_ceil` with the fraction
/// `numerator / denominator`: `value * numerator / denominator` rounded up (the quotient rounded
/// down, plus one when there is a remainder), computed without intermediate overflow, and
/// refused for a zero denominator or a result that does not fit in 128 bits.
#[verifier::external_body]
fn uint_checked_mul_ceil(value: u128, numerator: u128, denominator: u128) -> (r: Option<u128>)
    requires
        denominator > 0,
    ensures
        r == if ratio_ceil(value as int, numerator as int, denominator as int) <= u128::MAX {
            Some(ratio_ceil(value as int, numerator as int, denominator as int) as u128)
        } else {
            None::<u128>
        },
{
    cosmwasm_std::Uint128::new(value).checked_mul_ceil((numerator, denominator)).ok().map(
        |q| q.u128(),
    )
}

/// `value * d`, rounded down to a whole number.
pub fn mul_decimal(value: u128, d: Decimal) -> (r: u128)
    requires
        ratio(value as int, d.atomics as int, DECIMAL_FRACTIONAL as int) <= u128::MAX,
    ensures
        r == ratio(value as int, d.atomics as int, DECIMAL_FRACTIONAL as int),
{
    uint_mul_decimal(value, d)
}

/// A ratio taken with a numerator no larger than the denominator is no larger than the value.
pub proof fn lemma_ratio_at_most(value: int, numerator: int, denominator: int)
    requires
        0 <= value,
        0 <= numerator <= denominator,
        0 < denominator,
    ensures
        0 <= ratio(value, numerator, denominator) <= value,
{
    assert(value * numerator <= value * denominator) by (nonlinear_arith)
        requires
            0 <= value,
            0 <= numerator <= denominator,
    ;
    assert(0 <= value * numerator) by (nonlinear_arith)
        requires
            0 <= value,
            0 <= numerator,
    ;
    vstd::arithmetic::div_mod::lemma_div_is_ordered(
        value * numerator,
        value * denominator,
        denominator,
    );
    vstd::arithmetic::div_mod::lemma_div_by_multiple(value, denominator);
    vstd::arithmetic::div_mod::lemma_div_pos_is_pos(value * numerator, denominator);
}

/// Multiplying by a ratio of a number to itself gives back the value.
pub proof fn lemma_ratio_cancel(value: int, d: int)
    requires
        d > 0,
        value >= 0,
    ensures
        ratio(value, d, d) == value,
{
    vstd::arithmetic::div_mod::lemma_div_by_multiple(value, d);
}

/// When `x * b <= y * c` with `c > 0`, then `x * b / c <= y`.
pub proof fn lemma_ratio_bounded(x: int, b: int, c: int, y: int)
    requires
        c > 0,
        0 <= x,
        0 <= b,
        0 <= y,
        x * b <= y * c,
    ensures
        ratio(x, b, c) <= y,
{
    vstd::arithmetic::div_mod::lemma_div_is_ordered(x * b, y * c, c);
    vstd::arithmetic::div_mod::lemma_div_by_multiple(y, c);
}

/// The quotient rounded down, multiplied back, is at most the dividend.
pub proof fn lemma_ratio_times_divisor(value: int, numerator: int, denominator: int)
    requires
        denominator > 0,
        0 <= value,
        0 <= numerator,
    ensures
        ratio(value, numerator, denominator) * denominator <= value * numerator,
{
    vstd::arithmetic::div_mod::lemma_fundamental_div_mod(value * numerator, denominator);
    vstd::arithmetic::div_mod::lemma_mod_pos_bound(value * numerator, denominator);
    vstd::arithmetic::mul::lemma_mul_is_commutative(
        denominator,
        (value * numerator) / denominator,
    );
}

/// When `y * c <= x * b` with `c > 0`, then `y <= x * b / c`.
pub proof fn lemma_ratio_at_least(x: int, b: int, c: int, y: int)
    requires
        c > 0,
        0 <= y,
        y * c <= x * b,
    ensures
        y <= ratio(x, b, c),
{
    vstd::arithmetic::div_mod::lemma_div_is_ordered(y * c, x * b, c);
    vstd::arithmetic::div_mod::lemma_div_by_multiple(y, c);
}

/// The quotient rounded down, plus one, multiplied back, exceeds the dividend.
pub proof fn lemma_ratio_plus_one_above(value: int, numerator: int, denominator: int)
    requires
        denominator > 0,
        0 <= value,
        0 <= numerator,
    ensures
        value * numerator < (ratio(value, numerator, denominator) + 1) * denominator,
{
    let q = (value * numerator) / denominator;
    vstd::arithmetic::div_mod::lemma_fundamental_div_mod(value * numerator, denominator);
    vstd::arithmetic::div_mod::lemma_mod_pos_bound(value * numerator, denominator);
    assert((q + 1) * denominator == denominator * q + denominator) by (nonlinear_arith);
}

} // verus!
