//! Binary64 values as bit patterns, with the comparisons of IEEE-754.
//!
//! A pattern is a sign bit followed by 63 bits of exponent and fraction. This
//! module compares and selects patterns, and never rounds. Its comparisons
//! are stated over the signed magnitude of a pattern, under which the two
//! zeros are equal and a NaN is neither below nor above anything.
//! `lemma_order_is_that_of_the_values` shows that this is the order of the
//! numbers that the patterns stand for.
use vstd::prelude::*;
use vstd::arithmetic::div_mod::lemma_basic_div;
use vstd::arithmetic::div_mod::lemma_div_by_multiple;
use vstd::arithmetic::div_mod::lemma_div_denominator;
use vstd::arithmetic::div_mod::lemma_div_is_ordered;
use vstd::arithmetic::div_mod::lemma_div_is_ordered_by_denominator;
use vstd::arithmetic::mul::lemma_mul_inequality;
use vstd::arithmetic::mul::lemma_mul_strict_inequality;
use vstd::arithmetic::power2::lemma_pow2_adds;
use vstd::arithmetic::power2::lemma_pow2_pos;
use vstd::arithmetic::power2::lemma_pow2_strictly_increases;
use vstd::arithmetic::power2::lemma_pow2_unfold;
use vstd::arithmetic::power2::lemma2_to64_rest;
use vstd::arithmetic::power2::pow2;

verus! {

/// The sign bit of a pattern.
pub const SIGN_BIT: u64 = 0x8000_0000_0000_0000;

/// Positive infinity. A pattern whose magnitude is above it is a NaN.
pub const INFINITY_BITS: u64 = 0x7ff0_0000_0000_0000;

/// Negative infinity.
pub const NEG_INFINITY_BITS: u64 = 0xfff0_0000_0000_0000;

/// Positive zero.
pub const ZERO_BITS: u64 = 0;

/// One.
pub const ONE_BITS: u64 = 0x3ff0_0000_0000_0000;

/// Minus one.
pub const NEG_ONE_BITS: u64 = 0xbff0_0000_0000_0000;

/// The largest finite value.
pub const MAX_BITS: u64 = 0x7fef_ffff_ffff_ffff;

/// The smallest finite value, the negative of `MAX_BITS`.
pub const MIN_BITS: u64 = 0xffef_ffff_ffff_ffff;

/// The weight of the bit that a normal value keeps hidden in front of its
/// fraction: two to the power 52.
pub const HIDDEN_BIT: u64 = 0x0010_0000_0000_0000;

/// Two hundred and fifty-six, the least whole number that is no byte.
pub const BYTE_END_BITS: u64 = 0x4070_0000_0000_0000;

/// A binary64 value, held as its bit pattern. Every pattern is a value.
#[derive(Clone, Copy, Debug)]
pub struct Scalar {
    pub bits: u64,
}

impl Scalar {
    /// Exponent and fraction, without the sign.
    pub open spec fn magnitude(self) -> int {
        (self.bits % SIGN_BIT) as int
    }

    /// Whether the sign bit is set. It may be set on a zero and on a NaN.
    pub open spec fn sign_spec(self) -> bool {
        self.bits >= SIGN_BIT
    }

    /// Whether the pattern is a NaN.
    pub open spec fn is_nan_spec(self) -> bool {
        self.magnitude() > INFINITY_BITS
    }

    /// Where the value stands among the values that are no NaN: `a` is below
    /// `b` exactly when `a.rank() < b.rank()`. Both zeros have rank 0.
    pub open spec fn rank(self) -> int {
        if self.sign_spec() {
            -self.magnitude()
        } else {
            self.magnitude()
        }
    }

    /// Whether the pattern is neither an infinity nor a NaN.
    pub open spec fn is_finite_spec(self) -> bool {
        self.magnitude() < INFINITY_BITS
    }

    /// The size of the finite value with the given magnitude, counted in
    /// units of the least positive value, two to the power -1074. With an
    /// exponent field of zero the fraction counts as it is; above that the
    /// hidden bit stands in front of it, and each step of the exponent
    /// doubles the whole.
    pub open spec fn size(magnitude: int) -> int {
        let exponent = magnitude / (HIDDEN_BIT as int);
        let fraction = magnitude % (HIDDEN_BIT as int);
        if exponent == 0 {
            fraction
        } else {
            (HIDDEN_BIT + fraction) * pow2((exponent - 1) as nat)
        }
    }

    /// The number that a finite pattern stands for, counted in units of two
    /// to the power -1074. Every finite value is a whole number of them.
    pub open spec fn scaled(self) -> int {
        if self.sign_spec() {
            -Self::size(self.magnitude())
        } else {
            Self::size(self.magnitude())
        }
    }

    /// The value cut down to the interval from `min` to `max`: `min` where it
    /// is below, `max` where it is above, and itself otherwise. A NaN stays
    /// as it is.
    pub open spec fn clamp_spec(self, min: Scalar, max: Scalar) -> Scalar {
        if self.lt_spec(min) {
            min
        } else if self.gt_spec(max) {
            max
        } else {
            self
        }
    }

    /// The byte nearest to the value among those that are not beyond it when
    /// seen from zero: the whole part of the value, but zero for a negative
    /// value and for a NaN, and 255 for all that is above it.
    pub open spec fn to_byte_spec(self) -> u8 {
        if self.is_nan_spec() || self.sign_spec() {
            0
        } else if !self.is_finite_spec() {
            255
        } else {
            let whole = self.scaled() / (pow2(1074) as int);
            if whole > 255 {
                255
            } else {
                whole as u8
            }
        }
    }

    /// `self < other`: false as soon as one of them is a NaN.
    pub open spec fn lt_spec(self, other: Scalar) -> bool {
        !self.is_nan_spec() && !other.is_nan_spec() && self.rank() < other.rank()
    }

    /// `self <= other`: false as soon as one of them is a NaN.
    pub open spec fn le_spec(self, other: Scalar) -> bool {
        !self.is_nan_spec() && !other.is_nan_spec() && self.rank() <= other.rank()
    }

    /// `self > other`, which is `other < self`.
    pub open spec fn gt_spec(self, other: Scalar) -> bool {
        other.lt_spec(self)
    }

    /// `self >= other`, which is `other <= self`.
    pub open spec fn ge_spec(self, other: Scalar) -> bool {
        other.le_spec(self)
    }

    /// The value with the sign bit cleared.
    pub open spec fn abs_spec(self) -> Scalar {
        Scalar { bits: (self.bits % SIGN_BIT) as u64 }
    }

    /// The value with the given pattern.
    pub open spec fn from_bits_spec(bits: u64) -> Scalar {
        Scalar { bits }
    }

    #[verifier::when_used_as_spec(from_bits_spec)]
    pub fn from_bits(bits: u64) -> (s: Scalar)
        ensures
            s == Self::from_bits_spec(bits),
    {
        Scalar { bits }
    }

    pub fn to_bits(self) -> (bits: u64)
        ensures
            bits == self.bits,
    {
        self.bits
    }

    /// Positive zero.
    pub open spec fn zero_spec() -> Scalar {
        Scalar { bits: ZERO_BITS }
    }

    /// Positive zero.
    #[verifier::when_used_as_spec(zero_spec)]
    pub fn zero() -> (s: Scalar)
        ensures
            s == Self::zero_spec(),
    {
        Scalar { bits: ZERO_BITS }
    }

    /// One.
    pub open spec fn one_spec() -> Scalar {
        Scalar { bits: ONE_BITS }
    }

    /// One.
    #[verifier::when_used_as_spec(one_spec)]
    pub fn one() -> (s: Scalar)
        ensures
            s == Self::one_spec(),
    {
        Scalar { bits: ONE_BITS }
    }

    /// Minus one.
    pub open spec fn neg_one_spec() -> Scalar {
        Scalar { bits: NEG_ONE_BITS }
    }

    /// Minus one.
    #[verifier::when_used_as_spec(neg_one_spec)]
    pub fn neg_one() -> (s: Scalar)
        ensures
            s == Self::neg_one_spec(),
    {
        Scalar { bits: NEG_ONE_BITS }
    }

    /// The largest finite value.
    pub open spec fn max_value_spec() -> Scalar {
        Scalar { bits: MAX_BITS }
    }

    /// The largest finite value.
    #[verifier::when_used_as_spec(max_value_spec)]
    pub fn max_value() -> (s: Scalar)
        ensures
            s == Self::max_value_spec(),
    {
        Scalar { bits: MAX_BITS }
    }

    /// The smallest finite value.
    pub open spec fn min_value_spec() -> Scalar {
        Scalar { bits: MIN_BITS }
    }

    /// The smallest finite value.
    #[verifier::when_used_as_spec(min_value_spec)]
    pub fn min_value() -> (s: Scalar)
        ensures
            s == Self::min_value_spec(),
    {
        Scalar { bits: MIN_BITS }
    }

    /// Positive infinity.
    pub open spec fn infinity_spec() -> Scalar {
        Scalar { bits: INFINITY_BITS }
    }

    /// Positive infinity.
    #[verifier::when_used_as_spec(infinity_spec)]
    pub fn infinity() -> (s: Scalar)
        ensures
            s == Self::infinity_spec(),
    {
        Scalar { bits: INFINITY_BITS }
    }

    /// Negative infinity.
    pub open spec fn neg_infinity_spec() -> Scalar {
        Scalar { bits: NEG_INFINITY_BITS }
    }

    /// Negative infinity.
    #[verifier::when_used_as_spec(neg_infinity_spec)]
    pub fn neg_infinity() -> (s: Scalar)
        ensures
            s == Self::neg_infinity_spec(),
    {
        Scalar { bits: NEG_INFINITY_BITS }
    }

    #[verifier::when_used_as_spec(sign_spec)]
    pub fn sign(self) -> (negative: bool)
        ensures
            negative == self.sign_spec(),
    {
        self.bits >= SIGN_BIT
    }

    #[verifier::when_used_as_spec(is_finite_spec)]
    pub fn is_finite(self) -> (finite: bool)
        ensures
            finite == self.is_finite_spec(),
    {
        self.bits % SIGN_BIT < INFINITY_BITS
    }

    #[verifier::when_used_as_spec(is_nan_spec)]
    pub fn is_nan(self) -> (nan: bool)
        ensures
            nan == self.is_nan_spec(),
    {
        self.bits % SIGN_BIT > INFINITY_BITS
    }

    #[verifier::when_used_as_spec(abs_spec)]
    pub fn abs(self) -> (a: Scalar)
        ensures
            a == self.abs_spec(),
            a.is_nan() == self.is_nan(),
            !a.sign(),
            a.rank() == self.magnitude(),
    {
        Scalar { bits: self.bits % SIGN_BIT }
    }

    /// What one unit of the significand of a value between one and 256 is
    /// worth as a divisor: two to the power 1075 less the exponent field.
    fn unit_weight(exponent: u64) -> (weight: u64)
        requires
            1023 <= exponent <= 1030,
        ensures
            weight == pow2((1075 - exponent) as nat),
            0x2000_0000_0000 <= weight <= HIDDEN_BIT,
    {
        let mut weight: u64 = HIDDEN_BIT;
        let mut e: u64 = 1023;
        proof {
            lemma2_to64_rest();
        }
        while e < exponent
            invariant
                1023 <= e <= exponent <= 1030,
                weight == pow2((1075 - e) as nat),
                weight <= HIDDEN_BIT,
            decreases exponent - e,
        {
            proof {
                lemma_pow2_unfold((1075 - e) as nat);
            }
            weight = weight / 2;
            e += 1;
        }
        proof {
            lemma2_to64_rest();
            if 1075 - exponent > 45 {
                lemma_pow2_strictly_increases(45, (1075 - exponent) as nat);
            }
        }
        weight
    }

    /// The byte that the value is cut down to: see `to_byte_spec`.
    #[verifier::when_used_as_spec(to_byte_spec)]
    pub fn to_byte(self) -> (byte: u8)
        ensures
            byte == self.to_byte_spec(),
    {
        if self.is_nan() || self.sign() {
            return 0;
        }
        let magnitude: u64 = self.bits % SIGN_BIT;
        if magnitude < ONE_BITS {
            proof {
                lemma_zero_and_one();
                lemma_size_increases(magnitude as int, ONE_BITS as int);
                lemma_pow2_pos(1074);
                lemma_basic_div(self.scaled(), pow2(1074) as int);
            }
            return 0;
        }
        if magnitude >= BYTE_END_BITS {
            proof {
                if self.is_finite() {
                    lemma_byte_end(magnitude as int);
                }
            }
            return 255;
        }
        let exponent: u64 = magnitude / HIDDEN_BIT;
        let significand: u64 = HIDDEN_BIT + magnitude % HIDDEN_BIT;
        let weight: u64 = Self::unit_weight(exponent);
        proof {
            let p = pow2((exponent - 1) as nat) as int;
            lemma_pow2_pos((exponent - 1) as nat);
            lemma_pow2_adds((exponent - 1) as nat, (1075 - exponent) as nat);
            assert(pow2(1074) == p * weight);
            assert(self.scaled() == significand * p);
            assert(0 <= significand * p) by (nonlinear_arith)
                requires
                    0 <= significand,
                    0 < p,
            ;
            lemma_div_denominator(significand * p, p, weight as int);
            lemma_div_by_multiple(significand as int, p);
            assert(self.scaled() / (pow2(1074) as int) == significand as int / (weight as int));
            lemma_div_is_ordered_by_denominator(
                significand as int,
                0x2000_0000_0000,
                weight as int,
            );
        }
        (significand / weight) as u8
    }

    #[verifier::when_used_as_spec(clamp_spec)]
    pub fn clamp(self, min: Scalar, max: Scalar) -> (clamped: Scalar)
        requires
            min.le(max),
        ensures
            clamped == self.clamp_spec(min, max),
    {
        if self.lt(min) {
            min
        } else if self.gt(max) {
            max
        } else {
            self
        }
    }

    #[verifier::when_used_as_spec(lt_spec)]
    pub fn lt(self, other: Scalar) -> (below: bool)
        ensures
            below == self.lt_spec(other),
    {
        if self.is_nan() || other.is_nan() {
            return false;
        }
        let a: u64 = self.bits % SIGN_BIT;
        let b: u64 = other.bits % SIGN_BIT;
        if self.sign() {
            if other.sign() {
                a > b
            } else {
                a != 0 || b != 0
            }
        } else {
            !other.sign() && a < b
        }
    }

    #[verifier::when_used_as_spec(le_spec)]
    pub fn le(self, other: Scalar) -> (at_most: bool)
        ensures
            at_most == self.le_spec(other),
    {
        if self.is_nan() || other.is_nan() {
            return false;
        }
        let a: u64 = self.bits % SIGN_BIT;
        let b: u64 = other.bits % SIGN_BIT;
        if self.sign() {
            !other.sign() || a >= b
        } else if other.sign() {
            a == 0 && b == 0
        } else {
            a <= b
        }
    }

    #[verifier::when_used_as_spec(gt_spec)]
    pub fn gt(self, other: Scalar) -> (above: bool)
        ensures
            above == self.gt_spec(other),
    {
        other.lt(self)
    }

    #[verifier::when_used_as_spec(ge_spec)]
    pub fn ge(self, other: Scalar) -> (at_least: bool)
        ensures
            at_least == self.ge_spec(other),
    {
        other.le(self)
    }
}

/// Among values that are no NaN exactly one of `a < b` and `a >= b` holds,
/// and `<` is transitive. With a NaN on either side both comparisons fail.
pub proof fn lemma_comparisons_order(a: Scalar, b: Scalar, c: Scalar)
    ensures
        !(a.lt(b) && a.ge(b)),
        !a.is_nan() && !b.is_nan() ==> a.lt(b) || a.ge(b),
        a.is_nan() || b.is_nan() ==> !a.lt(b) && !a.ge(b) && !a.le(b) && !a.gt(b),
        a.lt(b) && b.lt(c) ==> a.lt(c),
        a.le(b) && b.le(c) ==> a.le(c),
        a.lt(b) ==> a.le(b),
{
}

/// A greater magnitude stands for a greater size: among the finite values
/// of one sign the patterns are ordered as the numbers are.
pub proof fn lemma_size_increases(low: int, high: int)
    requires
        0 <= low < high < INFINITY_BITS,
    ensures
        0 <= Scalar::size(low) < Scalar::size(high),
{
    let h = HIDDEN_BIT as int;
    let (e1, f1) = (low / h, low % h);
    let (e2, f2) = (high / h, high % h);
    assert(e1 <= e2 && (e1 == e2 ==> f1 < f2));
    if e1 == 0 {
        if e2 > 0 {
            let p2 = pow2((e2 - 1) as nat) as int;
            lemma_pow2_pos((e2 - 1) as nat);
            lemma_mul_inequality(1, p2, h + f2);
            assert((h + f2) * p2 == p2 * (h + f2)) by (nonlinear_arith);
        }
    } else {
        let p1 = pow2((e1 - 1) as nat) as int;
        let p2 = pow2((e2 - 1) as nat) as int;
        lemma_pow2_pos((e1 - 1) as nat);
        assert(0 <= (h + f1) * p1) by (nonlinear_arith)
            requires
                0 <= h + f1,
                0 < p1,
        ;
        if e1 == e2 {
            lemma_mul_strict_inequality(h + f1, h + f2, p1);
        } else {
            // One step of the exponent outweighs any fraction.
            lemma_pow2_unfold(e1 as nat);
            if e1 < e2 - 1 {
                lemma_pow2_strictly_increases(e1 as nat, (e2 - 1) as nat);
            }
            let q = pow2(e1 as nat) as int;
            assert(q == 2 * p1);
            assert(q <= p2);
            assert((h + f1) * p1 < h * q) by (nonlinear_arith)
                requires
                    0 <= f1 < h,
                    0 < p1,
                    q == 2 * p1,
            ;
            assert(h * q <= (h + f2) * p2) by (nonlinear_arith)
                requires
                    0 <= f2,
                    0 < h,
                    0 < q <= p2,
            ;
        }
    }
}

/// The comparisons of two finite patterns are those of the numbers that the
/// patterns stand for. Either infinity lies beyond every finite value.
pub proof fn lemma_order_is_that_of_the_values(a: Scalar, b: Scalar)
    requires
        a.is_finite(),
        b.is_finite(),
    ensures
        a.lt(b) <==> a.scaled() < b.scaled(),
        a.le(b) <==> a.scaled() <= b.scaled(),
        a.lt(Scalar::infinity()),
        Scalar::neg_infinity().lt(a),
{
    let (m, n) = (a.magnitude(), b.magnitude());
    if m < n {
        lemma_size_increases(m, n);
    } else if n < m {
        lemma_size_increases(n, m);
    }
    if 0 < m {
        lemma_size_increases(0, m);
    }
    if 0 < n {
        lemma_size_increases(0, n);
    }
    assert(Scalar::size(0) == 0);
}

/// A finite value whose pattern is not below that of 256 is at least 256.
proof fn lemma_byte_end(magnitude: int)
    requires
        BYTE_END_BITS <= magnitude < INFINITY_BITS,
    ensures
        Scalar::size(magnitude) / (pow2(1074) as int) >= 256,
{
    let unit = pow2(1074) as int;
    lemma_pow2_pos(1074);
    lemma_pow2_adds(52, 1030);
    lemma_pow2_adds(8, 1074);
    lemma2_to64_rest();
    vstd::arithmetic::power2::lemma2_to64();
    assert(BYTE_END_BITS as int / (HIDDEN_BIT as int) == 1031);
    assert(BYTE_END_BITS as int % (HIDDEN_BIT as int) == 0);
    assert(Scalar::size(BYTE_END_BITS as int) == HIDDEN_BIT * pow2(1030));
    assert(Scalar::size(BYTE_END_BITS as int) == 256 * unit);
    if BYTE_END_BITS < magnitude {
        lemma_size_increases(BYTE_END_BITS as int, magnitude);
    }
    lemma_div_by_multiple(256, unit);
    lemma_div_is_ordered(256 * unit, Scalar::size(magnitude), unit);
}

/// The pattern of 255 becomes the byte 255, and that of zero the byte zero:
/// a channel of one, scaled to 255, is the brightest that a pixel holds.
pub proof fn lemma_byte_of_255()
    ensures
        Scalar::from_bits(0x406f_e000_0000_0000).to_byte() == 255,
        Scalar::from_bits(0x406f_e000_0000_0000).scaled() == 255 * pow2(1074),
        Scalar::zero().to_byte() == 0,
{
    let unit = pow2(1074) as int;
    let bits: int = 0x406f_e000_0000_0000;
    lemma_pow2_pos(1074);
    lemma_pow2_adds(45, 1029);
    lemma2_to64_rest();
    assert(bits / (HIDDEN_BIT as int) == 1030);
    assert(HIDDEN_BIT + bits % (HIDDEN_BIT as int) == 255 * pow2(45));
    assert(Scalar::size(bits) == 255 * pow2(45) * pow2(1029));
    assert(255 * pow2(45) * pow2(1029) == 255 * unit) by (nonlinear_arith)
        requires
            pow2(45) * pow2(1029) == unit,
    ;
    lemma_div_by_multiple(255, unit);
    lemma_zero_and_one();
    lemma_basic_div(0, unit);
}

/// Zero, one and minus one are the patterns of those numbers: one is two to
/// the power 1074 units of two to the power -1074.
pub proof fn lemma_zero_and_one()
    ensures
        Scalar::zero().scaled() == 0,
        Scalar::one().scaled() == pow2(1074),
        Scalar::neg_one().scaled() == -pow2(1074),
{
    lemma_pow2_adds(52, 1022);
    vstd::arithmetic::power2::lemma2_to64_rest();
    assert(pow2(52) == HIDDEN_BIT);
    assert(ONE_BITS as int / (HIDDEN_BIT as int) == 1023);
    assert(ONE_BITS as int % (HIDDEN_BIT as int) == 0);
    assert(NEG_ONE_BITS as int % (SIGN_BIT as int) == ONE_BITS);
    assert(Scalar::size(ONE_BITS as int) == HIDDEN_BIT * pow2(1022));
}

} // verus!
