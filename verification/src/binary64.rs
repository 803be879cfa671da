//! Double-precision numbers as bit patterns, with their order.

use vstd::arithmetic::mul::{
    lemma_mul_inequality, lemma_mul_left_inequality, lemma_mul_strict_inequality,
};
use vstd::arithmetic::power2::{
    lemma_pow2_pos, lemma_pow2_strictly_increases, lemma_pow2_unfold, pow2,
};
use vstd::prelude::*;

verus! {

/// The sign bit of a pattern.
pub const SIGN_BIT: u64 = 0x8000_0000_0000_0000;

/// The pattern of positive infinity. A larger magnitude is not a number.
pub const INFINITY_BITS: u64 = 0x7FF0_0000_0000_0000;

/// Two to the fifty-second: the weight of the lowest exponent bit.
pub const FRACTION_END: u64 = 0x0010_0000_0000_0000;

/// A double-precision number, held by its IEEE 754 bit pattern: one sign bit,
/// eleven exponent bits, fifty-two fraction bits.
#[derive(Clone, Copy, Debug, PartialEq, Eq, Structural)]
pub struct Binary64 {
    pub bits: u64,
}

impl Binary64 {
    /// The pattern without its sign bit.
    pub open spec fn magnitude(self) -> int {
        if self.bits >= SIGN_BIT {
            self.bits - SIGN_BIT
        } else {
            self.bits as int
        }
    }

    /// Whether the sign bit is set.
    pub open spec fn is_negative(self) -> bool {
        self.bits >= SIGN_BIT
    }

    /// Whether the pattern is not a number: all exponent bits set and a
    /// fraction that is not zero.
    pub open spec fn is_nan(self) -> bool {
        self.magnitude() > INFINITY_BITS
    }

    /// Whether the pattern is a finite number.
    pub open spec fn is_finite(self) -> bool {
        self.magnitude() < INFINITY_BITS
    }

    /// The exponent field: the eleven bits below the sign.
    pub open spec fn exponent(self) -> int {
        self.magnitude() / (FRACTION_END as int)
    }

    /// The fraction field: the lowest fifty-two bits.
    pub open spec fn fraction(self) -> int {
        self.magnitude() % (FRACTION_END as int)
    }

    /// The absolute value of a finite number, counted in the least positive
    /// number, which is 2^-1074. With the exponent field zero the fraction is
    /// that count; otherwise the fraction has an implicit bit above it, and
    /// each step of the exponent doubles the count.
    pub open spec fn units(self) -> int {
        if self.exponent() == 0 {
            self.fraction()
        } else {
            (FRACTION_END + self.fraction()) * pow2((self.exponent() - 1) as nat)
        }
    }

    /// The value of a finite number, counted in the least positive number.
    pub open spec fn value(self) -> int {
        if self.is_negative() {
            -self.units()
        } else {
            self.units()
        }
    }

    /// Where the number stands on the number line. Among patterns of one
    /// sign the magnitude grows with the number's absolute value, so the
    /// signed magnitude orders all numbers, both zeros standing at 0
    /// (`rank_orders_values`).
    pub open spec fn rank(self) -> int {
        if self.is_negative() {
            -self.magnitude()
        } else {
            self.magnitude()
        }
    }

    /// `self <= other` as IEEE 754 compares: false when either is not a
    /// number.
    pub open spec fn le(self, other: Binary64) -> bool {
        !self.is_nan() && !other.is_nan() && self.rank() <= other.rank()
    }

    /// `self < other` as IEEE 754 compares: false when either is not a
    /// number.
    pub open spec fn lt(self, other: Binary64) -> bool {
        !self.is_nan() && !other.is_nan() && self.rank() < other.rank()
    }

    /// `low <= self && self <= high`.
    pub open spec fn within(self, low: Binary64, high: Binary64) -> bool {
        low.le(self) && self.le(high)
    }

    pub open spec fn spec_from_bits(bits: u64) -> Binary64 {
        Binary64 { bits }
    }

    /// The number with the given bit pattern.
    #[verifier::when_used_as_spec(spec_from_bits)]
    pub fn from_bits(bits: u64) -> (number: Binary64)
        ensures
            number == (Binary64 { bits }),
    {
        Binary64 { bits }
    }

    /// The number's bit pattern.
    pub fn to_bits(&self) -> (bits: u64)
        ensures
            bits == self.bits,
    {
        self.bits
    }

    /// The pattern without its sign bit.
    fn magnitude_bits(&self) -> (m: u64)
        ensures
            m == self.magnitude(),
            m < SIGN_BIT,
    {
        if self.bits >= SIGN_BIT {
            self.bits - SIGN_BIT
        } else {
            self.bits
        }
    }

    /// Whether the pattern is not a number.
    pub fn is_not_a_number(&self) -> (nan: bool)
        ensures
            nan == self.is_nan(),
    {
        self.magnitude_bits() > INFINITY_BITS
    }

    /// Whether `self <= other`.
    pub fn at_most(&self, other: &Binary64) -> (holds: bool)
        ensures
            holds == self.le(*other),
    {
        if self.is_not_a_number() || other.is_not_a_number() {
            return false;
        }
        let a: u64 = self.magnitude_bits();
        let b: u64 = other.magnitude_bits();
        if self.bits >= SIGN_BIT {
            if other.bits >= SIGN_BIT {
                b <= a
            } else {
                true
            }
        } else {
            if other.bits >= SIGN_BIT {
                a == 0 && b == 0
            } else {
                a <= b
            }
        }
    }

    /// Whether `self < other`.
    pub fn below(&self, other: &Binary64) -> (holds: bool)
        ensures
            holds == self.lt(*other),
    {
        if self.is_not_a_number() || other.is_not_a_number() {
            return false;
        }
        let a: u64 = self.magnitude_bits();
        let b: u64 = other.magnitude_bits();
        if self.bits >= SIGN_BIT {
            if other.bits >= SIGN_BIT {
                b < a
            } else {
                a != 0 || b != 0
            }
        } else {
            if other.bits >= SIGN_BIT {
                false
            } else {
                a < b
            }
        }
    }

    /// Whether `low <= self && self <= high`.
    pub fn is_within(&self, low: &Binary64, high: &Binary64) -> (holds: bool)
        ensures
            holds == self.within(*low, *high),
    {
        low.at_most(self) && self.at_most(high)
    }
}

/// A greater magnitude stands for a greater absolute value.
pub proof fn units_rise_with_magnitude(a: Binary64, b: Binary64)
    requires
        a.magnitude() < b.magnitude(),
    ensures
        0 <= a.units() < b.units(),
{
    let unit = FRACTION_END as int;
    let (ea, fa) = (a.exponent(), a.fraction());
    let (eb, fb) = (b.exponent(), b.fraction());
    assert(0 <= ea <= eb && 0 <= fa < unit && 0 <= fb < unit);
    assert(a.magnitude() == unit * ea + fa && b.magnitude() == unit * eb + fb);
    if ea > 0 {
        let pa = pow2((ea - 1) as nat) as int;
        lemma_pow2_pos((ea - 1) as nat);
        lemma_mul_inequality(0, unit + fa, pa);
    }
    if ea == eb {
        if ea > 0 {
            lemma_mul_strict_inequality(unit + fa, unit + fb, pow2((ea - 1) as nat) as int);
        }
    } else {
        let pb = pow2((eb - 1) as nat) as int;
        lemma_pow2_pos((eb - 1) as nat);
        lemma_mul_left_inequality(unit + fb, 1, pb);
        if ea > 0 {
            let pa = pow2((ea - 1) as nat) as int;
            lemma_mul_strict_inequality(unit + fa, 2 * unit, pa);
            lemma_pow2_unfold(ea as nat);
            assert((2 * unit) * pa == unit * (2 * pa)) by (nonlinear_arith);
            if ea < eb - 1 {
                lemma_pow2_strictly_increases(ea as nat, (eb - 1) as nat);
            }
            lemma_mul_left_inequality(unit, pow2(ea as nat) as int, pb);
            lemma_mul_inequality(unit, unit + fb, pb);
        }
    }
}

/// The rank orders finite numbers as their values do. Of the two patterns
/// that are not finite and still numbers, the infinities, the positive one
/// has a rank above, the negative one a rank below every finite number's.
pub proof fn rank_orders_values(a: Binary64, b: Binary64)
    requires
        a.is_finite(),
        b.is_finite(),
    ensures
        a.rank() <= b.rank() <==> a.value() <= b.value(),
        a.rank() < b.rank() <==> a.value() < b.value(),
        -(INFINITY_BITS as int) < a.rank() < INFINITY_BITS as int,
{
    let zero = Binary64::from_bits(0);
    assert(zero.units() == 0);
    if a.magnitude() < b.magnitude() {
        units_rise_with_magnitude(a, b);
    }
    if b.magnitude() < a.magnitude() {
        units_rise_with_magnitude(b, a);
    }
    if 0 < a.magnitude() {
        units_rise_with_magnitude(zero, a);
    }
    if 0 < b.magnitude() {
        units_rise_with_magnitude(zero, b);
    }
}

} // verus!
