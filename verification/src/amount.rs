//! Amounts of money: exact decimals with at most four fractional digits.

use crate::decimal::{
    decimal_add, decimal_lt, decimal_sub, decimal_text, decimal_to_string, exact_sum,
    mantissa_in_range, parts_valid, scaled_up, sum_is_exact, DECIMAL_PRECISION,
    MANTISSA_LIMIT,
};
use crate::error::RecordError;
use vstd::prelude::*;
use vstd::std_specs::cmp::PartialEqSpecImpl;

verus! {

/// An exact decimal, `mantissa / 10^scale`, whose scale is at most
/// `DECIMAL_PRECISION` and whose mantissa fits in 96 bits.
#[derive(Clone, Copy, Debug)]
pub struct Amount {
    mantissa: i128,
    scale: u32,
}

impl Amount {
    #[verifier::type_invariant]
    spec fn well_formed(self) -> bool {
        parts_valid(self.mantissa as int, self.scale as int)
    }

    /// The mantissa, as contracts see it.
    pub closed spec fn spec_mantissa(&self) -> i128 {
        self.mantissa
    }

    /// The scale, as contracts see it.
    pub closed spec fn spec_scale(&self) -> u32 {
        self.scale
    }

    /// The amount with the given parts.
    pub closed spec fn of_parts(mantissa: int, scale: int) -> Amount {
        Amount { mantissa: mantissa as i128, scale: scale as u32 }
    }

    /// What every amount that the program holds satisfies.
    pub open spec fn valid(self) -> bool {
        parts_valid(self.mantissa() as int, self.scale() as int)
    }

    /// The value in ten-thousandths, the unit in which amounts of every scale
    /// are whole numbers.
    pub open spec fn units(self) -> int {
        scaled_up(self.mantissa() as int, DECIMAL_PRECISION - self.scale())
    }

    /// Whether `self + other` can be written without rounding.
    pub open spec fn adds_exactly(self, other: Amount) -> bool {
        sum_is_exact(
            self.mantissa() as int,
            self.scale() as int,
            other.mantissa() as int,
            other.scale() as int,
        )
    }

    /// Whether `self - other` can be written without rounding.
    pub open spec fn subtracts_exactly(self, other: Amount) -> bool {
        sum_is_exact(
            self.mantissa() as int,
            self.scale() as int,
            -(other.mantissa() as int),
            other.scale() as int,
        )
    }

    /// Whether the parts of `self` are those of the sum of `a` and `b`.
    pub open spec fn is_sum_of(self, a: Amount, b: Amount) -> bool {
        (self.mantissa() as int, self.scale() as int) == exact_sum(
            a.mantissa() as int,
            a.scale() as int,
            b.mantissa() as int,
            b.scale() as int,
        )
    }

    /// Whether the parts of `self` are those of the difference of `a` and `b`.
    pub open spec fn is_difference_of(self, a: Amount, b: Amount) -> bool {
        (self.mantissa() as int, self.scale() as int) == exact_sum(
            a.mantissa() as int,
            a.scale() as int,
            -(b.mantissa() as int),
            b.scale() as int,
        )
    }

    /// The parts of `of_parts` are the ones it was given.
    pub broadcast proof fn lemma_of_parts(mantissa: int, scale: int)
        requires
            i128::MIN <= mantissa <= i128::MAX,
            0 <= scale <= u32::MAX,
        ensures
            (#[trigger] Amount::of_parts(mantissa, scale)).mantissa() == mantissa,
            Amount::of_parts(mantissa, scale).scale() == scale,
    {
    }

    /// The amount `num / 10^scale`.
    pub fn new(num: i64, scale: u32) -> (r: Amount)
        requires
            scale <= DECIMAL_PRECISION,
        ensures
            r == Amount::of_parts(num as int, scale as int),
            r.mantissa() == num,
            r.scale() == scale,
            r.valid(),
    {
        Amount { mantissa: num as i128, scale }
    }

    /// The amount with the given parts, if they are those of an amount:
    /// a mantissa beyond 96 bits is no number, a scale beyond
    /// `DECIMAL_PRECISION` is too precise.
    pub fn from_parts(mantissa: i128, scale: u32) -> (r: Result<Amount, RecordError>)
        ensures
            r == Amount::parts_checked(mantissa as int, scale as int),
    {
        if mantissa <= -MANTISSA_LIMIT || mantissa >= MANTISSA_LIMIT {
            Err(RecordError::InvalidNumber)
        } else if scale > DECIMAL_PRECISION {
            Err(RecordError::InvalidPrecision)
        } else {
            Ok(Amount { mantissa, scale })
        }
    }

    /// What `from_parts` returns.
    pub open spec fn parts_checked(mantissa: int, scale: int) -> Result<Amount, RecordError> {
        if !mantissa_in_range(mantissa) {
            Err(RecordError::InvalidNumber)
        } else if scale > DECIMAL_PRECISION {
            Err(RecordError::InvalidPrecision)
        } else {
            Ok(Amount::of_parts(mantissa, scale))
        }
    }

    /// The mantissa.
    #[verifier::when_used_as_spec(spec_mantissa)]
    pub fn mantissa(&self) -> (m: i128)
        ensures
            m == self.mantissa(),
            mantissa_in_range(m as int),
    {
        proof {
            use_type_invariant(self);
        }
        self.mantissa
    }

    /// The scale.
    #[verifier::when_used_as_spec(spec_scale)]
    pub fn scale(&self) -> (s: u32)
        ensures
            s == self.scale(),
            s <= DECIMAL_PRECISION,
    {
        proof {
            use_type_invariant(self);
        }
        self.scale
    }

    /// The amount zero, written without fractional digits.
    pub fn zero() -> (r: Amount)
        ensures
            r == Amount::of_parts(0, 0),
            r.mantissa() == 0,
            r.scale() == 0,
            r.units() == 0,
            r.valid(),
    {
        Amount { mantissa: 0, scale: 0 }
    }

    /// Whether the amount is below zero.
    pub fn is_negative(&self) -> (r: bool)
        ensures
            r == (self.units() < 0),
    {
        proof {
            use_type_invariant(self);
        }
        decimal_lt(self.mantissa, self.scale, 0, DECIMAL_PRECISION)
    }

    /// Whether `self` is the smaller amount.
    pub fn less_than(&self, other: &Amount) -> (r: bool)
        ensures
            r == (self.units() < other.units()),
    {
        proof {
            use_type_invariant(self);
            use_type_invariant(other);
        }
        decimal_lt(self.mantissa, self.scale, other.mantissa, other.scale)
    }

    /// Whether `self + other` can be written without rounding.
    pub fn can_add(&self, other: &Amount) -> (r: bool)
        ensures
            r == self.adds_exactly(*other),
    {
        proof {
            use_type_invariant(self);
            use_type_invariant(other);
        }
        sum_fits(self.mantissa, self.scale, other.mantissa, other.scale)
    }

    /// Whether `self - other` can be written without rounding.
    pub fn can_subtract(&self, other: &Amount) -> (r: bool)
        ensures
            r == self.subtracts_exactly(*other),
    {
        proof {
            use_type_invariant(self);
            use_type_invariant(other);
        }
        sum_fits(self.mantissa, self.scale, -other.mantissa, other.scale)
    }

    /// The sum of two amounts.
    pub fn plus(self, other: Amount) -> (r: Amount)
        requires
            self.adds_exactly(other),
        ensures
            r.is_sum_of(self, other),
            r.units() == self.units() + other.units(),
            r.valid(),
    {
        proof {
            use_type_invariant(&self);
            use_type_invariant(&other);
        }
        let (mantissa, scale) = decimal_add(self.mantissa, self.scale, other.mantissa, other.scale);
        let r = Amount { mantissa, scale };
        proof {
            lemma_sum_units(
                self.mantissa as int,
                self.scale as int,
                other.mantissa as int,
                other.scale as int,
            );
        }
        r
    }

    /// The difference of two amounts.
    pub fn minus(self, other: Amount) -> (r: Amount)
        requires
            self.subtracts_exactly(other),
        ensures
            r.is_difference_of(self, other),
            r.units() == self.units() - other.units(),
            r.valid(),
    {
        proof {
            use_type_invariant(&self);
            use_type_invariant(&other);
        }
        let (mantissa, scale) = decimal_sub(self.mantissa, self.scale, other.mantissa, other.scale);
        let r = Amount { mantissa, scale };
        proof {
            lemma_sum_units(
                self.mantissa as int,
                self.scale as int,
                -(other.mantissa as int),
                other.scale as int,
            );
        }
        r
    }

    /// The amount as decimal text.
    pub fn to_string(&self) -> (r: String)
        ensures
            r@ == decimal_text(self.mantissa() as int, self.scale() as int),
    {
        proof {
            use_type_invariant(self);
        }
        decimal_to_string(self.mantissa, self.scale)
    }
}

/// In ten-thousandths, the sum that `exact_sum` describes is the sum of its
/// operands.
pub proof fn lemma_sum_units(m1: int, s1: int, m2: int, s2: int)
    requires
        0 <= s1 <= DECIMAL_PRECISION,
        0 <= s2 <= DECIMAL_PRECISION,
    ensures
        ({
            let (m, s) = exact_sum(m1, s1, m2, s2);
            &&& (s == s1 || s == s2)
            &&& scaled_up(m, DECIMAL_PRECISION - s) == scaled_up(m1, DECIMAL_PRECISION - s1)
                + scaled_up(m2, DECIMAL_PRECISION - s2)
        }),
{
}

/// `mantissa * 10^places`.
fn scale_up(mantissa: i128, places: u32) -> (r: i128)
    requires
        mantissa_in_range(mantissa as int),
        places <= DECIMAL_PRECISION,
    ensures
        r == scaled_up(mantissa as int, places as int),
{
    if places == 0 {
        mantissa
    } else if places == 1 {
        mantissa * 10
    } else if places == 2 {
        mantissa * 100
    } else if places == 3 {
        mantissa * 1000
    } else {
        mantissa * 10000
    }
}

/// Whether `m` fits in 96 bits.
fn fits(m: i128) -> (r: bool)
    ensures
        r == mantissa_in_range(m as int),
{
    -MANTISSA_LIMIT < m && m < MANTISSA_LIMIT
}

/// Whether the sum of two decimals can be written without rounding.
fn sum_fits(m1: i128, s1: u32, m2: i128, s2: u32) -> (r: bool)
    requires
        parts_valid(m1 as int, s1 as int),
        parts_valid(m2 as int, s2 as int),
    ensures
        r == sum_is_exact(m1 as int, s1 as int, m2 as int, s2 as int),
{
    if m1 == 0 || m2 == 0 {
        return true;
    }
    let s = if s1 >= s2 {
        s1
    } else {
        s2
    };
    let a = scale_up(m1, s - s1);
    let b = scale_up(m2, s - s2);
    fits(a) && fits(b) && fits(a + b)
}

impl PartialEq for Amount {
    /// Amounts are equal where their values are, whatever their scales.
    fn eq(&self, other: &Amount) -> (r: bool) {
        !self.less_than(other) && !other.less_than(self)
    }
}

impl PartialEqSpecImpl for Amount {
    open spec fn obeys_eq_spec() -> bool {
        true
    }

    open spec fn eq_spec(&self, other: &Amount) -> bool {
        self.units() == other.units()
    }
}

} // verus!
