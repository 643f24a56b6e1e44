//! Decimal arithmetic as `rust_decimal` performs it.
//!
//! A decimal is handed over as its two parts: a signed mantissa of at most 96
//! bits and a scale, the number of fractional digits, so that the value is
//! `mantissa / 10^scale`.  The five functions at the end of this file turn
//! the parts into a `Decimal` with `Decimal::from_i128_with_scale`, make one
//! call each, and read the parts of what comes back with `mantissa` and
//! `scale`.  Their contracts are not proved: they say what that crate does,
//! over the spec functions that come first, and everything else in this
//! library is proved from them.

use rust_decimal::Decimal;
use vstd::prelude::*;

verus! {

/// The number of fractional digits that an amount may have.
pub const DECIMAL_PRECISION: u32 = 4;

/// One more than the largest magnitude that a 96-bit mantissa holds.
pub const MANTISSA_LIMIT: i128 = 79228162514264337593543950336;

/// Whether `mantissa` fits the 96 bits a decimal has for it.
pub open spec fn mantissa_in_range(mantissa: int) -> bool {
    -MANTISSA_LIMIT < mantissa < MANTISSA_LIMIT
}

/// Whether the two parts describe a decimal of this library.
pub open spec fn parts_valid(mantissa: int, scale: int) -> bool {
    mantissa_in_range(mantissa) && 0 <= scale <= DECIMAL_PRECISION
}

/// `mantissa * 10^places` for up to four places.
pub open spec fn scaled_up(mantissa: int, places: int) -> int {
    if places <= 0 {
        mantissa
    } else if places == 1 {
        mantissa * 10
    } else if places == 2 {
        mantissa * 100
    } else if places == 3 {
        mantissa * 1000
    } else {
        mantissa * 10000
    }
}

/// The larger of two scales.
pub open spec fn wider(s1: int, s2: int) -> int {
    if s1 >= s2 {
        s1
    } else {
        s2
    }
}

/// Whether the sum of two decimals can be written without rounding: one of
/// them is zero, or both mantissas, brought to the wider scale, and their sum
/// fit in 96 bits.
pub open spec fn sum_is_exact(m1: int, s1: int, m2: int, s2: int) -> bool {
    let s = wider(s1, s2);
    m1 == 0 || m2 == 0 || (mantissa_in_range(scaled_up(m1, s - s1)) && mantissa_in_range(
        scaled_up(m2, s - s2),
    ) && mantissa_in_range(scaled_up(m1, s - s1) + scaled_up(m2, s - s2)))
}

/// The parts of the sum of two decimals: where one is zero the other comes
/// back as it is, else the mantissas are added at the wider scale.
pub open spec fn exact_sum(m1: int, s1: int, m2: int, s2: int) -> (int, int) {
    let s = wider(s1, s2);
    if m1 == 0 {
        (m2, s2)
    } else if m2 == 0 {
        (m1, s1)
    } else {
        (scaled_up(m1, s - s1) + scaled_up(m2, s - s2), s)
    }
}

/// The parts of the decimal that a text denotes, `None` where it denotes none.
pub uninterp spec fn exact_decimal(text: Seq<char>) -> Option<(int, int)>;

/// The text that a decimal is written as.
pub uninterp spec fn decimal_text(mantissa: int, scale: int) -> Seq<char>;

/// Calls `Decimal::from_str_exact`.
///
/// Taken on trust: what comes back depends on the text alone, which is what
/// the name `exact_decimal` stands for, with `None` for a text that the crate
/// rejects; and a decimal that comes back has a mantissa within 96 bits and
/// at most 28 fractional digits, as every `Decimal` has.  Nothing is said
/// about which texts are accepted.
#[verifier::external_body]
pub(crate) fn decimal_from_str_exact(text: &str) -> (r: Option<(i128, u32)>)
    ensures
        match r {
            Some((mantissa, scale)) => exact_decimal(text@) == Some(
                (mantissa as int, scale as int),
            ) && mantissa_in_range(mantissa as int) && scale <= 28,
            None => exact_decimal(text@) is None,
        },
{
    match Decimal::from_str_exact(text) {
        Ok(d) => Some((d.mantissa(), d.scale())),
        Err(_) => None,
    }
}

/// Calls `+` on two `Decimal`s.
///
/// Taken on trust: where the sum can be written without rounding
/// (`sum_is_exact`), the call returns, and what it returns has the parts that
/// `exact_sum` gives: a zero operand gives the other operand back as it is,
/// else the mantissas are added at the wider of the two scales.
#[verifier::external_body]
pub(crate) fn decimal_add(m1: i128, s1: u32, m2: i128, s2: u32) -> (r: (i128, u32))
    requires
        parts_valid(m1 as int, s1 as int),
        parts_valid(m2 as int, s2 as int),
        sum_is_exact(m1 as int, s1 as int, m2 as int, s2 as int),
    ensures
        (r.0 as int, r.1 as int) == exact_sum(m1 as int, s1 as int, m2 as int, s2 as int),
{
    let sum = Decimal::from_i128_with_scale(m1, s1) + Decimal::from_i128_with_scale(m2, s2);
    (sum.mantissa(), sum.scale())
}

/// Calls `-` on two `Decimal`s.
///
/// Taken on trust: the difference is the sum with the second operand
/// negated.  Where that sum can be written without rounding, the call
/// returns, and what it returns has the parts that `exact_sum` gives for it.
#[verifier::external_body]
pub(crate) fn decimal_sub(m1: i128, s1: u32, m2: i128, s2: u32) -> (r: (i128, u32))
    requires
        parts_valid(m1 as int, s1 as int),
        parts_valid(m2 as int, s2 as int),
        sum_is_exact(m1 as int, s1 as int, -(m2 as int), s2 as int),
    ensures
        (r.0 as int, r.1 as int) == exact_sum(m1 as int, s1 as int, -(m2 as int), s2 as int),
{
    let difference = Decimal::from_i128_with_scale(m1, s1) - Decimal::from_i128_with_scale(m2, s2);
    (difference.mantissa(), difference.scale())
}

/// Calls `<` on two `Decimal`s.
///
/// Taken on trust: decimals are ordered by their values, whatever their
/// scales; the values are compared here in ten-thousandths.
#[verifier::external_body]
pub(crate) fn decimal_lt(m1: i128, s1: u32, m2: i128, s2: u32) -> (r: bool)
    requires
        parts_valid(m1 as int, s1 as int),
        parts_valid(m2 as int, s2 as int),
    ensures
        r == (scaled_up(m1 as int, DECIMAL_PRECISION - s1) < scaled_up(
            m2 as int,
            DECIMAL_PRECISION - s2,
        )),
{
    Decimal::from_i128_with_scale(m1, s1) < Decimal::from_i128_with_scale(m2, s2)
}

/// Calls `to_string` on a `Decimal`.
///
/// Taken on trust: the text depends on the parts alone, which is what the
/// name `decimal_text` stands for.
#[verifier::external_body]
pub(crate) fn decimal_to_string(mantissa: i128, scale: u32) -> (r: String)
    requires
        parts_valid(mantissa as int, scale as int),
    ensures
        r@ == decimal_text(mantissa as int, scale as int),
{
    Decimal::from_i128_with_scale(mantissa, scale).to_string()
}

} // verus!
