//! An exact integer model of double-precision readings.
//!
//! Utilisation percentages and load averages reach the policy as IEEE 754
//! binary64 numbers. The library holds such a number as its 64-bit pattern and
//! compares patterns by the numbers they stand for, measured in units of
//! 2^-1074 (the spacing of the smallest subnormals), so that every finite
//! pattern stands for an integer.

use vstd::prelude::*;
use vstd::arithmetic::power2::*;
use vstd::bits::*;

verus! {

/// Number of distinct fraction fields: 2^52.
pub const FRACTION_SPAN: u64 = 0x10_0000_0000_0000;

/// Number of distinct exponent fields: 2^11.
pub const EXPONENT_SPAN: u64 = 0x800;

/// The pattern's top bit, set for negative numbers: 2^63.
pub const SIGN_BIT: u64 = 0x8000_0000_0000_0000;

/// The exponent field that marks infinities and NaNs.
pub const EXPONENT_TOP: u64 = 0x7ff;

/// The magnitude, in units of 2^-1074, of a pattern with exponent field `e`
/// and fraction field `f`. An infinity's fields give 2^2098, which lies above
/// every finite magnitude.
pub open spec fn magnitude_of(e: int, f: int) -> int {
    if e <= 0 {
        f
    } else {
        (FRACTION_SPAN + f) * pow2((e - 1) as nat)
    }
}

/// A double-precision number, held as its bit pattern.
#[derive(Clone, Copy, Debug)]
pub struct Binary64 {
    pub bits: u64,
}

impl Binary64 {
    /// The low 52 bits.
    pub open spec fn fraction(self) -> int {
        (self.bits % FRACTION_SPAN) as int
    }

    /// The 11 bits above the fraction.
    pub open spec fn exponent(self) -> int {
        ((self.bits / FRACTION_SPAN) % EXPONENT_SPAN) as int
    }

    /// Whether the sign bit is set.
    pub open spec fn negative(self) -> bool {
        self.bits >= SIGN_BIT
    }

    /// Whether the pattern is not a number.
    pub open spec fn nan(self) -> bool {
        self.exponent() == EXPONENT_TOP && self.fraction() != 0
    }

    /// The number the pattern stands for, in units of 2^-1074. Both zeros
    /// stand for 0; the infinities stand for plus and minus 2^2098.
    pub open spec fn scaled(self) -> int {
        if self.negative() {
            -magnitude_of(self.exponent(), self.fraction())
        } else {
            magnitude_of(self.exponent(), self.fraction())
        }
    }

    /// `self >= other` as IEEE 754 defines it: false when either side is not
    /// a number, the comparison of the two numbers otherwise.
    pub open spec fn at_least(self, other: Binary64) -> bool {
        !self.nan() && !other.nan() && self.scaled() >= other.scaled()
    }

    /// `self >= n` for a whole number `n`: false when `self` is not a number,
    /// the comparison of the number with `n` itself otherwise.
    pub open spec fn at_least_count(self, n: int) -> bool {
        !self.nan() && self.scaled() >= n * pow2(1074)
    }

    /// Wraps a bit pattern.
    pub fn from_bits(bits: u64) -> (r: Binary64)
        ensures
            r.bits == bits,
    {
        Binary64 { bits }
    }

    /// The bit pattern.
    pub fn to_bits(&self) -> (bits: u64)
        ensures
            bits == self.bits,
    {
        self.bits
    }

    /// Whether the pattern is not a number.
    pub fn is_nan(&self) -> (b: bool)
        ensures
            b == self.nan(),
    {
        let e: u64 = (self.bits / FRACTION_SPAN) % EXPONENT_SPAN;
        let f: u64 = self.bits % FRACTION_SPAN;
        e == EXPONENT_TOP && f != 0
    }

    /// Floating-point `self >= other`.
    pub fn ge(&self, other: &Binary64) -> (b: bool)
        ensures
            b == self.at_least(*other),
    {
        if self.is_nan() || other.is_nan() {
            return false;
        }
        let x: u64 = self.bits % SIGN_BIT;
        let y: u64 = other.bits % SIGN_BIT;
        proof {
            let (ex, fx) = (self.exponent(), self.fraction());
            let (ey, fy) = (other.exponent(), other.fraction());
            assert(x == ex * FRACTION_SPAN + fx);
            assert(y == ey * FRACTION_SPAN + fy);
            lemma_magnitude_bounds(ex, fx);
            lemma_magnitude_bounds(ey, fy);
            if x < y {
                lemma_magnitude_increases(ex, fx, ey, fy);
            }
            if y < x {
                lemma_magnitude_increases(ey, fy, ex, fx);
            }
        }
        if self.bits >= SIGN_BIT {
            if other.bits >= SIGN_BIT {
                x <= y
            } else {
                x == 0 && y == 0
            }
        } else {
            if other.bits >= SIGN_BIT {
                true
            } else {
                x >= y
            }
        }
    }

    /// Whether `self >= n`. Up to 2^53 every whole number is a double, and
    /// the answer is that of the floating-point comparison with `n` as a
    /// double; beyond, `n` is compared as it is, not as rounded to a double.
    pub fn ge_count(&self, n: u64) -> (b: bool)
        ensures
            b == self.at_least_count(n as int),
    {
        if self.is_nan() {
            return false;
        }
        let e: u64 = (self.bits / FRACTION_SPAN) % EXPONENT_SPAN;
        let f: u64 = self.bits % FRACTION_SPAN;
        proof {
            lemma_magnitude_bounds(e as int, f as int);
            lemma_pow2_pos(1074);
            lemma_scale_order(0, n as int, pow2(1074) as int);
            lemma_scale_order(1, n as int, pow2(1074) as int);
        }
        if self.bits >= SIGN_BIT {
            return n == 0 && e == 0 && f == 0;
        }
        if n == 0 {
            return true;
        }
        if e == 0 {
            proof {
                lemma_pow2_strictly_increases(52, 1074);
                lemma2_to64_rest();
            }
            return false;
        }
        let mantissa: u64 = FRACTION_SPAN + f;
        if e >= 1075 {
            let k: u64 = e - 1075;
            proof {
                lemma_pow2_adds(k as nat, 1074);
                lemma_pow2_pos(k as nat);
                lemma_split_product(mantissa as int, pow2(k as nat) as int, pow2(1074) as int);
                lemma_scale_order(
                    n as int,
                    mantissa * pow2(k as nat),
                    pow2(1074) as int,
                );
                lemma2_to64();
            }
            if k >= 12 {
                proof {
                    if k > 12 {
                        lemma_pow2_strictly_increases(12, k as nat);
                    }
                    assert(mantissa * pow2(k as nat) >= 0x1_0000_0000_0000_0000) by (nonlinear_arith)
                        requires
                            mantissa >= 0x10_0000_0000_0000,
                            pow2(k as nat) >= 0x1000,
                    ;
                }
                return true;
            }
            proof {
                if k < 11 {
                    lemma_pow2_strictly_increases(k as nat, 11);
                }
                assert(mantissa * pow2(k as nat) < 0x1_0000_0000_0000_0000) by (nonlinear_arith)
                    requires
                        mantissa < 0x20_0000_0000_0000,
                        0 < pow2(k as nat) <= 0x800,
                ;
                lemma_u64_shl_is_mul(mantissa, k);
            }
            let widened: u64 = mantissa << k;
            widened >= n
        } else {
            let s: u64 = 1075 - e;
            proof {
                lemma_pow2_adds((e - 1) as nat, s as nat);
                lemma_pow2_pos((e - 1) as nat);
                lemma_pow2_pos(s as nat);
                lemma_split_product(n as int, pow2(s as nat) as int, pow2((e - 1) as nat) as int);
                assert(n * pow2(1074) == (n * pow2(s as nat)) * pow2((e - 1) as nat)) by {
                    assert(pow2(1074) == pow2(s as nat) * pow2((e - 1) as nat)) by (nonlinear_arith)
                        requires
                            pow2(1074) == pow2((e - 1) as nat) * pow2(s as nat),
                    ;
                }
                lemma_scale_order(
                    n * pow2(s as nat),
                    mantissa as int,
                    pow2((e - 1) as nat) as int,
                );
                lemma_floor_order(mantissa as int, n as int, pow2(s as nat) as int);
            }
            if s >= 53 {
                proof {
                    lemma2_to64_rest();
                    if s > 53 {
                        lemma_pow2_strictly_increases(53, s as nat);
                    }
                    assert(mantissa as int / pow2(s as nat) as int == 0) by (nonlinear_arith)
                        requires
                            0 <= mantissa < 0x20_0000_0000_0000,
                            pow2(s as nat) >= 0x20_0000_0000_0000,
                    ;
                }
                return false;
            }
            proof {
                lemma_u64_shr_is_div(mantissa, s);
            }
            let narrowed: u64 = mantissa >> s;
            narrowed >= n
        }
    }
}

/// Comparing with a whole number is comparing with the double that stands
/// for it, where there is one.
pub proof fn law_count_as_double(x: Binary64, d: Binary64, n: int)
    requires
        !d.nan(),
        d.scaled() == n * pow2(1074),
    ensures
        x.at_least_count(n) == x.at_least(d),
{
}

/// Multiplying both sides by a positive number keeps an order as it is.
pub proof fn lemma_scale_order(x: int, y: int, p: int)
    requires
        p > 0,
    ensures
        x <= y <==> x * p <= y * p,
{
    assert(x <= y ==> x * p <= y * p) by (nonlinear_arith)
        requires
            p > 0,
    ;
    assert(x > y ==> x * p > y * p) by (nonlinear_arith)
        requires
            p > 0,
    ;
}

/// A product of three factors may be grouped either way.
pub proof fn lemma_split_product(x: int, y: int, z: int)
    ensures
        x * (y * z) == (x * y) * z,
{
    assert(x * (y * z) == (x * y) * z) by (nonlinear_arith);
}

/// A whole number lies under `x / d` exactly when its `d`-fold lies under `x`.
pub proof fn lemma_floor_order(x: int, n: int, d: int)
    requires
        d > 0,
    ensures
        n * d <= x <==> n <= x / d,
{
    assert(n * d <= x <==> n <= x / d) by (nonlinear_arith)
        requires
            d > 0,
    ;
}

/// A magnitude is never negative, and is zero only for the all-zero fields.
pub proof fn lemma_magnitude_bounds(e: int, f: int)
    requires
        0 <= e < EXPONENT_SPAN,
        0 <= f < FRACTION_SPAN,
    ensures
        magnitude_of(e, f) >= 0,
        magnitude_of(e, f) == 0 <==> e == 0 && f == 0,
{
    if e > 0 {
        let p = pow2((e - 1) as nat) as int;
        lemma_pow2_pos((e - 1) as nat);
        assert((FRACTION_SPAN + f) * p > 0) by (nonlinear_arith)
            requires
                p > 0,
                f >= 0,
        ;
    }
}

/// Magnitudes grow with the pattern: the order of the fields, exponent first,
/// is the order of the numbers.
pub proof fn lemma_magnitude_increases(e1: int, f1: int, e2: int, f2: int)
    requires
        0 <= e1 < EXPONENT_SPAN,
        0 <= e2 < EXPONENT_SPAN,
        0 <= f1 < FRACTION_SPAN,
        0 <= f2 < FRACTION_SPAN,
        e1 * FRACTION_SPAN + f1 < e2 * FRACTION_SPAN + f2,
    ensures
        magnitude_of(e1, f1) < magnitude_of(e2, f2),
{
    assert(e1 <= e2);
    if e1 == e2 {
        if e1 > 0 {
            let p = pow2((e1 - 1) as nat) as int;
            lemma_pow2_pos((e1 - 1) as nat);
            assert((FRACTION_SPAN + f1) * p < (FRACTION_SPAN + f2) * p) by (nonlinear_arith)
                requires
                    p > 0,
                    f1 < f2,
            ;
        }
    } else {
        let high = pow2((e2 - 1) as nat) as int;
        lemma_pow2_pos((e2 - 1) as nat);
        assert((FRACTION_SPAN + f2) * high >= FRACTION_SPAN * high) by (nonlinear_arith)
            requires
                high > 0,
                f2 >= 0,
        ;
        if e1 == 0 {
            assert(FRACTION_SPAN * high >= FRACTION_SPAN) by (nonlinear_arith)
                requires
                    high >= 1,
            ;
        } else {
            let low = pow2((e1 - 1) as nat) as int;
            lemma_pow2_pos((e1 - 1) as nat);
            lemma_pow2_unfold(e1 as nat);
            if e1 < e2 - 1 {
                lemma_pow2_strictly_increases(e1 as nat, (e2 - 1) as nat);
            }
            assert(2 * low <= high);
            assert((FRACTION_SPAN + f1) * low < FRACTION_SPAN * high) by (nonlinear_arith)
                requires
                    low > 0,
                    2 * low <= high,
                    0 <= f1 < FRACTION_SPAN,
            ;
        }
    }
}

} // verus!
