//! Binary32 numbers held by their bit patterns, and their order.

use vstd::arithmetic::mul::lemma_mul_inequality;
use vstd::arithmetic::mul::lemma_mul_strict_inequality;
use vstd::arithmetic::power2::lemma_pow2_pos;
use vstd::arithmetic::power2::lemma_pow2_strictly_increases;
use vstd::arithmetic::power2::lemma_pow2_unfold;
use vstd::arithmetic::power2::pow2;
use vstd::prelude::*;

verus! {

/// The sign bit of a bit pattern.
pub const SIGN_BIT: u32 = 0x8000_0000;

/// The bit pattern of positive infinity. A magnitude above it is a NaN.
pub const INFINITY_BITS: u32 = 0x7f80_0000;

/// The bit pattern of the number one.
pub const ONE_BITS: u32 = 0x3f80_0000;

/// The weight of the lowest exponent bit: two to the 23rd.
pub const FRACTION_RANGE: u32 = 0x80_0000;

/// What a magnitude stands for, times two to the 149th: the fraction alone
/// while the exponent field is zero, else the fraction with its hidden bit,
/// doubled once for each step of the exponent above one. Infinity comes out
/// as two to the 277th, above every finite number.
pub open spec fn scaled(magnitude: u32) -> nat {
    let exponent = magnitude / FRACTION_RANGE;
    let fraction = magnitude % FRACTION_RANGE;
    if exponent == 0 {
        fraction as nat
    } else {
        ((FRACTION_RANGE + fraction) * pow2((exponent - 1) as nat)) as nat
    }
}

/// A larger magnitude stands for a larger number.
pub proof fn lemma_scaled_increases(low: u32, high: u32)
    requires
        low < high,
    ensures
        scaled(low) < scaled(high),
{
    let e1 = (low / FRACTION_RANGE) as nat;
    let f1 = (low % FRACTION_RANGE) as int;
    let e2 = (high / FRACTION_RANGE) as nat;
    let f2 = (high % FRACTION_RANGE) as int;
    let range = FRACTION_RANGE as int;
    assert(e1 <= e2);
    if e2 == 0 {
    } else {
        let p2 = pow2((e2 - 1) as nat) as int;
        lemma_pow2_pos((e2 - 1) as nat);
        if e1 == 0 {
            lemma_mul_inequality(1, p2, range + f2);
            assert(f1 < range + f2 <= p2 * (range + f2));
            assert(p2 * (range + f2) == (range + f2) * p2) by (nonlinear_arith);
        } else if e1 == e2 {
            lemma_mul_strict_inequality(range + f1, range + f2, p2);
        } else {
            let p1 = pow2((e1 - 1) as nat) as int;
            lemma_pow2_pos((e1 - 1) as nat);
            lemma_pow2_unfold(e1);
            if e1 < e2 - 1 {
                lemma_pow2_strictly_increases(e1, (e2 - 1) as nat);
            }
            assert(2 * p1 <= p2);
            lemma_mul_strict_inequality(range + f1, 2 * range, p1);
            assert(2 * range * p1 == range * (2 * p1)) by (nonlinear_arith);
            assert(range * (2 * p1) <= range * p2) by (nonlinear_arith)
                requires
                    2 * p1 <= p2,
                    range >= 0,
            ;
            lemma_mul_inequality(range, range + f2, p2);
        }
    }
}

/// An IEEE 754 binary32 number, held by its bit pattern.
#[derive(Clone, Copy, Debug)]
pub struct Scalar {
    pub bits: u32,
}

impl Scalar {
    /// The bit pattern without its sign bit.
    pub open spec fn magnitude(self) -> u32 {
        if self.bits >= SIGN_BIT {
            (self.bits - SIGN_BIT) as u32
        } else {
            self.bits
        }
    }

    /// Whether the sign bit is set. True of negative zero and of half the NaNs.
    pub open spec fn sign_negative(self) -> bool {
        self.bits >= SIGN_BIT
    }

    /// Whether the pattern is a NaN, which compares false with everything.
    pub open spec fn nan(self) -> bool {
        self.magnitude() > INFINITY_BITS
    }

    /// The number that the pattern stands for, times two to the 149th. Both
    /// zeros have the value 0, and an infinity lies beyond every finite
    /// number. The value of a NaN has no meaning.
    pub open spec fn value(self) -> int {
        if self.sign_negative() {
            -(scaled(self.magnitude()) as int)
        } else {
            scaled(self.magnitude()) as int
        }
    }

    /// The magnitude with the sign in front. Both zeros have rank 0.
    pub open spec fn rank(self) -> int {
        if self.sign_negative() {
            -(self.magnitude() as int)
        } else {
            self.magnitude() as int
        }
    }

    /// The place of the pattern in the total order of all patterns: the
    /// negative NaNs first, then negative infinity, the negative numbers,
    /// negative zero, positive zero, the positive numbers, positive infinity
    /// and the positive NaNs.
    pub open spec fn total_rank(self) -> int {
        if self.sign_negative() {
            -(self.magnitude() as int) - 1
        } else {
            self.magnitude() as int
        }
    }

    /// `self < other` as IEEE 754 has it: false where either is a NaN.
    pub open spec fn spec_lt(self, other: Scalar) -> bool {
        !self.nan() && !other.nan() && self.value() < other.value()
    }

    /// `self <= other` as IEEE 754 has it: false where either is a NaN.
    pub open spec fn spec_le(self, other: Scalar) -> bool {
        !self.nan() && !other.nan() && self.value() <= other.value()
    }

    /// `self > other` as IEEE 754 has it: false where either is a NaN.
    pub open spec fn spec_gt(self, other: Scalar) -> bool {
        other.spec_lt(self)
    }

    /// `self >= other` as IEEE 754 has it: false where either is a NaN.
    pub open spec fn spec_ge(self, other: Scalar) -> bool {
        other.spec_le(self)
    }

    /// `self >= 0`: a number, a zero or positive infinity with a value of
    /// at least zero. Negative zero is at least zero; no NaN is.
    pub open spec fn ge_zero(self) -> bool {
        !self.nan() && self.value() >= 0
    }

    /// `self < 0`: a negative number or negative infinity.
    pub open spec fn lt_zero(self) -> bool {
        !self.nan() && self.value() < 0
    }

    /// `self > 0`: a positive number or positive infinity.
    pub open spec fn gt_zero(self) -> bool {
        !self.nan() && self.value() > 0
    }

    /// Whether `self` comes no later than `other` in the total order.
    pub open spec fn spec_total_le(self, other: Scalar) -> bool {
        self.total_rank() <= other.total_rank()
    }

    /// The pattern with the sign bit cleared.
    pub open spec fn spec_abs(self) -> Scalar {
        Scalar { bits: self.magnitude() }
    }

    /// The ranks of two patterns compare as their values do.
    pub proof fn lemma_rank_orders_as_value(self, other: Scalar)
        ensures
            self.rank() < other.rank() <==> self.value() < other.value(),
            self.rank() == other.rank() <==> self.value() == other.value(),
    {
        let a = self.magnitude();
        let b = other.magnitude();
        if a < b {
            lemma_scaled_increases(a, b);
        }
        if b < a {
            lemma_scaled_increases(b, a);
        }
        if 0 < a {
            lemma_scaled_increases(0, a);
        }
        if 0 < b {
            lemma_scaled_increases(0, b);
        }
        assert(scaled(0) == 0);
    }

    pub fn from_bits(bits: u32) -> (r: Self)
        ensures
            r.bits == bits,
    {
        Scalar { bits }
    }

    pub fn to_bits(&self) -> (r: u32)
        ensures
            r == self.bits,
    {
        self.bits
    }

    /// Positive zero.
    pub fn zero() -> (r: Self)
        ensures
            r.bits == 0,
    {
        Scalar { bits: 0 }
    }

    /// The number one.
    pub fn one() -> (r: Self)
        ensures
            r.bits == ONE_BITS,
    {
        Scalar { bits: ONE_BITS }
    }

    fn magnitude_bits(&self) -> (r: u32)
        ensures
            r == self.magnitude(),
    {
        if self.bits >= SIGN_BIT {
            self.bits - SIGN_BIT
        } else {
            self.bits
        }
    }

    fn signed_magnitude(&self) -> (r: i64)
        ensures
            r == self.rank(),
    {
        let magnitude: u32 = self.magnitude_bits();
        if self.bits >= SIGN_BIT {
            -(magnitude as i64)
        } else {
            magnitude as i64
        }
    }

    pub fn is_nan(&self) -> (r: bool)
        ensures
            r == self.nan(),
    {
        self.magnitude_bits() > INFINITY_BITS
    }

    /// The absolute value: the sign bit is cleared, also on a NaN.
    pub fn abs(&self) -> (r: Self)
        ensures
            r == self.spec_abs(),
            r.nan() == self.nan(),
            !self.nan() ==> r.value() >= 0 && (r.value() == self.value() || r.value()
                == -self.value()),
    {
        Scalar { bits: self.magnitude_bits() }
    }

    pub fn lt(&self, other: &Scalar) -> (r: bool)
        ensures
            r == self.spec_lt(*other),
    {
        proof {
            self.lemma_rank_orders_as_value(*other);
        }
        !self.is_nan() && !other.is_nan() && self.signed_magnitude() < other.signed_magnitude()
    }

    pub fn le(&self, other: &Scalar) -> (r: bool)
        ensures
            r == self.spec_le(*other),
    {
        proof {
            self.lemma_rank_orders_as_value(*other);
        }
        !self.is_nan() && !other.is_nan() && self.signed_magnitude() <= other.signed_magnitude()
    }

    pub fn gt(&self, other: &Scalar) -> (r: bool)
        ensures
            r == self.spec_gt(*other),
    {
        other.lt(self)
    }

    pub fn ge(&self, other: &Scalar) -> (r: bool)
        ensures
            r == self.spec_ge(*other),
    {
        other.le(self)
    }

    /// `self >= 0`.
    pub fn is_ge_zero(&self) -> (r: bool)
        ensures
            r == self.ge_zero(),
            r == self.spec_ge(Scalar { bits: 0 }),
    {
        let zero = Scalar::zero();
        self.ge(&zero)
    }

    /// `self < 0`.
    pub fn is_lt_zero(&self) -> (r: bool)
        ensures
            r == self.lt_zero(),
            r == self.spec_lt(Scalar { bits: 0 }),
    {
        let zero = Scalar::zero();
        self.lt(&zero)
    }

    /// `self > 0`.
    pub fn is_gt_zero(&self) -> (r: bool)
        ensures
            r == self.gt_zero(),
            r == self.spec_gt(Scalar { bits: 0 }),
    {
        let zero = Scalar::zero();
        self.gt(&zero)
    }

    /// Whether `self` comes no later than `other` in the total order of all
    /// bit patterns.
    pub fn total_le(&self, other: &Scalar) -> (r: bool)
        ensures
            r == self.spec_total_le(*other),
    {
        let left: i64 = if self.bits >= SIGN_BIT {
            -(self.magnitude_bits() as i64) - 1
        } else {
            self.bits as i64
        };
        let right: i64 = if other.bits >= SIGN_BIT {
            -(other.magnitude_bits() as i64) - 1
        } else {
            other.bits as i64
        };
        left <= right
    }
}

} // verus!
