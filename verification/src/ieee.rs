//! IEEE-754 numbers carried by their bit patterns.
//!
//! The library never does arithmetic on a number: it stores, compares and
//! classifies them. A `Double` is a binary64 value and a `Single` a binary32
//! value, each held as the unsigned integer with the same bits.
use vstd::prelude::*;

verus! {

/// Bit pattern of the binary64 sign bit.
pub const DOUBLE_SIGN: u64 = 0x8000_0000_0000_0000;

/// Bit pattern of binary64 positive infinity; every larger magnitude is a NaN.
pub const DOUBLE_INFINITY: u64 = 0x7FF0_0000_0000_0000;

/// A binary64 number, held by its bits. `==` on two of them compares the
/// bits, so that `0.0` differs from `-0.0` and a NaN equals itself; the
/// comparisons of numbers are `lt`, `le`, `gt`, `ge` and `eq_number`.
#[derive(Clone, Copy, Debug, PartialEq, Eq, Structural)]
pub struct Double {
    pub bits: u64,
}

impl Double {
    /// The bits without the sign bit.
    pub open spec fn magnitude(self) -> int {
        if self.bits >= DOUBLE_SIGN {
            self.bits - DOUBLE_SIGN
        } else {
            self.bits as int
        }
    }

    /// The sign bit is set (true of `-0.0` and of negative NaNs too).
    pub open spec fn sign_bit(self) -> bool {
        self.bits >= DOUBLE_SIGN
    }

    /// The value is not a number.
    pub open spec fn nan(self) -> bool {
        self.magnitude() > DOUBLE_INFINITY
    }

    /// The value is a number and not an infinity.
    pub open spec fn finite(self) -> bool {
        self.magnitude() < DOUBLE_INFINITY
    }

    /// The place of a number on the number line: magnitudes of one sign are
    /// ordered as their bits are, and both zeros share the place 0.
    pub open spec fn key(self) -> int {
        if self.sign_bit() {
            -self.magnitude()
        } else {
            self.magnitude()
        }
    }

    /// `self < other` as IEEE-754 orders numbers: false if either is a NaN.
    pub open spec fn below(self, other: Double) -> bool {
        !self.nan() && !other.nan() && self.key() < other.key()
    }

    /// `self <= other` as IEEE-754 orders numbers: false if either is a NaN.
    pub open spec fn at_most(self, other: Double) -> bool {
        !self.nan() && !other.nan() && self.key() <= other.key()
    }

    /// `self == other` as IEEE-754 compares numbers: `-0.0` equals `0.0`, and a
    /// NaN equals nothing.
    pub open spec fn same_number(self, other: Double) -> bool {
        !self.nan() && !other.nan() && self.key() == other.key()
    }

    /// `self > 0`.
    pub open spec fn positive(self) -> bool {
        !self.nan() && self.key() > 0
    }

    /// `self < 0`.
    pub open spec fn negative(self) -> bool {
        !self.nan() && self.key() < 0
    }

    /// `self == 0`, of either sign.
    pub open spec fn zero(self) -> bool {
        self.magnitude() == 0
    }

    /// The number with the sign bit cleared.
    pub open spec fn magnitude_value(self) -> Double {
        Double { bits: self.magnitude() as u64 }
    }

    pub fn from_bits(bits: u64) -> (d: Double)
        ensures
            d.bits == bits,
    {
        Double { bits }
    }

    pub fn to_bits(self) -> (bits: u64)
        ensures
            bits == self.bits,
    {
        self.bits
    }

    fn magnitude_bits(self) -> (m: u64)
        ensures
            m == self.magnitude(),
    {
        if self.bits >= DOUBLE_SIGN {
            self.bits - DOUBLE_SIGN
        } else {
            self.bits
        }
    }

    pub fn is_nan(self) -> (b: bool)
        ensures
            b == self.nan(),
    {
        self.magnitude_bits() > DOUBLE_INFINITY
    }

    pub fn is_finite(self) -> (b: bool)
        ensures
            b == self.finite(),
    {
        self.magnitude_bits() < DOUBLE_INFINITY
    }

    pub fn is_sign_negative(self) -> (b: bool)
        ensures
            b == self.sign_bit(),
    {
        self.bits >= DOUBLE_SIGN
    }

    /// Absolute value: clears the sign bit, of a NaN too.
    pub fn abs(self) -> (d: Double)
        ensures
            d == self.magnitude_value(),
            !d.sign_bit(),
            d.magnitude() == self.magnitude(),
    {
        Double { bits: self.magnitude_bits() }
    }

    /// `self < other`.
    pub fn lt(self, other: Double) -> (b: bool)
        ensures
            b == self.below(other),
    {
        if self.is_nan() || other.is_nan() {
            return false;
        }
        let a: u64 = self.magnitude_bits();
        let c: u64 = other.magnitude_bits();
        if self.bits >= DOUBLE_SIGN {
            if other.bits >= DOUBLE_SIGN {
                c < a
            } else {
                a > 0 || c > 0
            }
        } else {
            if other.bits >= DOUBLE_SIGN {
                false
            } else {
                a < c
            }
        }
    }

    /// `self <= other`.
    pub fn le(self, other: Double) -> (b: bool)
        ensures
            b == self.at_most(other),
    {
        if self.is_nan() || other.is_nan() {
            return false;
        }
        !other.lt(self)
    }

    /// `self > other`.
    pub fn gt(self, other: Double) -> (b: bool)
        ensures
            b == other.below(self),
    {
        other.lt(self)
    }

    /// `self >= other`.
    pub fn ge(self, other: Double) -> (b: bool)
        ensures
            b == other.at_most(self),
    {
        other.le(self)
    }

    /// `self == other` as numbers.
    pub fn eq_number(self, other: Double) -> (b: bool)
        ensures
            b == self.same_number(other),
    {
        self.le(other) && other.le(self)
    }

    /// `self > 0`.
    pub fn is_positive(self) -> (b: bool)
        ensures
            b == self.positive(),
    {
        !self.is_nan() && self.bits < DOUBLE_SIGN && self.bits > 0
    }

    /// `self < 0`.
    pub fn is_negative(self) -> (b: bool)
        ensures
            b == self.negative(),
    {
        !self.is_nan() && self.bits > DOUBLE_SIGN
    }

    /// `self == 0`.
    pub fn is_zero(self) -> (b: bool)
        ensures
            b == self.zero(),
    {
        self.magnitude_bits() == 0
    }
}

/// Two numbers multiply to a negative number: they are nonzero numbers of
/// opposite sign.
pub open spec fn opposite_signs(a: Double, b: Double) -> bool {
    (a.negative() && b.positive()) || (a.positive() && b.negative())
}

pub fn have_opposite_signs(a: Double, b: Double) -> (r: bool)
    ensures
        r == opposite_signs(a, b),
{
    (a.is_negative() && b.is_positive()) || (a.is_positive() && b.is_negative())
}

/// The IEEE-754 order is strict: nothing is below itself, and it is
/// transitive.
pub proof fn lemma_below_is_strict_order(a: Double, b: Double, c: Double)
    ensures
        !a.below(a),
        a.below(b) && b.below(c) ==> a.below(c),
        a.below(b) ==> !b.below(a),
        a.at_most(b) <==> (a.below(b) || a.same_number(b)),
{
}

/// A binary32 number, held by its bits.
#[derive(Clone, Copy, Debug, PartialEq, Eq, Structural)]
pub struct Single {
    pub bits: u32,
}

/// Bits of the binary32 number 0.0.
pub const SINGLE_ZERO: u32 = 0;

/// Two to the power of 23, the number of stored fraction bits of a binary32
/// number.
pub const SINGLE_HIDDEN_BIT: u32 = 0x80_0000;

/// Exponent field of a binary32 number in [1, 2).
pub const SINGLE_BIAS: u32 = 127;

/// The largest power of two that is at most `n`, for `n` in 1..=255.
pub open spec fn leading_power(n: int) -> int {
    if n >= 128 {
        128
    } else if n >= 64 {
        64
    } else if n >= 32 {
        32
    } else if n >= 16 {
        16
    } else if n >= 8 {
        8
    } else if n >= 4 {
        4
    } else if n >= 2 {
        2
    } else {
        1
    }
}

/// The exponent `p` with `leading_power(n) == 2^p`.
pub open spec fn leading_exponent(n: int) -> int {
    if n >= 128 {
        7
    } else if n >= 64 {
        6
    } else if n >= 32 {
        5
    } else if n >= 16 {
        4
    } else if n >= 8 {
        3
    } else if n >= 4 {
        2
    } else if n >= 2 {
        1
    } else {
        0
    }
}

/// Bits of the binary32 number equal to the integer `n`: exponent field
/// `127 + p`, and in the fraction field what `n` has beyond its leading bit,
/// shifted to the top of the field.
pub open spec fn single_bits_of(n: u8) -> int {
    if n == 0 {
        0
    } else {
        (SINGLE_BIAS + leading_exponent(n as int)) * SINGLE_HIDDEN_BIT + (n - leading_power(
            n as int,
        )) * (SINGLE_HIDDEN_BIT as int / leading_power(n as int))
    }
}

impl Single {
    pub fn from_bits(bits: u32) -> (s: Single)
        ensures
            s.bits == bits,
    {
        Single { bits }
    }

    pub fn to_bits(self) -> (bits: u32)
        ensures
            bits == self.bits,
    {
        self.bits
    }

    /// Exponent field of the number.
    pub open spec fn exponent_field(self) -> int {
        (self.bits as int / SINGLE_HIDDEN_BIT as int) % 256
    }

    /// Fraction field of the number.
    pub open spec fn fraction_field(self) -> int {
        self.bits as int % SINGLE_HIDDEN_BIT as int
    }

    /// The binary32 number equal to a small integer, exactly.
    pub fn from_u8(n: u8) -> (s: Single)
        ensures
            s.bits == single_bits_of(n),
    {
        if n == 0 {
            return Single { bits: SINGLE_ZERO };
        }
        let mut top: u32 = 1;
        let mut p: u32 = 0;
        while top * 2 <= n as u32
            invariant
                1 <= top <= n,
                top <= leading_power(n as int),
                p <= 7,
                (top == 1 && p == 0) || (top == 2 && p == 1) || (top == 4 && p == 2) || (top == 8
                    && p == 3) || (top == 16 && p == 4) || (top == 32 && p == 5) || (top == 64
                    && p == 6) || (top == 128 && p == 7),
            decreases 256 - top,
        {
            top = top * 2;
            p = p + 1;
        }
        let scale: u32 = SINGLE_HIDDEN_BIT / top;
        let rest: u32 = n as u32 - top;
        proof {
            assert(top == leading_power(n as int) && p == leading_exponent(n as int));
            assert(scale * top == SINGLE_HIDDEN_BIT);
            assert(rest * scale < SINGLE_HIDDEN_BIT) by (nonlinear_arith)
                requires
                    scale * top == SINGLE_HIDDEN_BIT,
                    0 <= rest < top,
                    scale > 0,
            ;
        }
        Single { bits: (SINGLE_BIAS + p) * SINGLE_HIDDEN_BIT + rest * scale }
    }
}

/// What `Single::from_u8` returns stands for the integer it was given: with
/// the hidden bit restored, the fraction is `n` scaled by the power of two
/// that the exponent field takes back.
pub proof fn lemma_single_of_integer(n: u8)
    requires
        n > 0,
    ensures
        0 <= single_bits_of(n) < 0x8000_0000,
        (Single { bits: single_bits_of(n) as u32 }).exponent_field() == SINGLE_BIAS
            + leading_exponent(n as int),
        (SINGLE_HIDDEN_BIT + (Single { bits: single_bits_of(n) as u32 }).fraction_field())
            * leading_power(n as int) == n * SINGLE_HIDDEN_BIT,
{
    let top = leading_power(n as int);
    let p = leading_exponent(n as int);
    let scale = SINGLE_HIDDEN_BIT as int / top;
    assert(scale * top == SINGLE_HIDDEN_BIT);
    let frac = (n - top) * scale;
    assert(0 <= frac < SINGLE_HIDDEN_BIT) by (nonlinear_arith)
        requires
            frac == (n - top) * scale,
            scale * top == SINGLE_HIDDEN_BIT,
            0 <= n - top < top,
            scale > 0,
    ;
    let e = SINGLE_BIAS + p;
    assert(single_bits_of(n) == e * SINGLE_HIDDEN_BIT + frac);
    assert((e * SINGLE_HIDDEN_BIT + frac) / (SINGLE_HIDDEN_BIT as int) == e && (e
        * SINGLE_HIDDEN_BIT + frac) % (SINGLE_HIDDEN_BIT as int) == frac) by (nonlinear_arith)
        requires
            0 <= frac < SINGLE_HIDDEN_BIT,
            0 <= e,
    ;
    assert((SINGLE_HIDDEN_BIT + frac) * top == n * SINGLE_HIDDEN_BIT) by (nonlinear_arith)
        requires
            frac == (n - top) * scale,
            scale * top == SINGLE_HIDDEN_BIT,
    ;
}

/// Two to the power of 52, the number of stored fraction bits of a binary64
/// number.
pub const DOUBLE_HIDDEN_BIT: u64 = 0x10_0000_0000_0000;

/// Exponent field of a binary64 number in [1, 2).
pub const DOUBLE_BIAS: u64 = 1023;

/// Bits of binary32 positive infinity.
pub const SINGLE_INFINITY: u32 = 0x7F80_0000;

/// Bits of the binary32 quiet NaN without payload.
pub const SINGLE_QUIET_NAN: u32 = 0x7FC0_0000;

/// Two to the power of 29: what a binary64 fraction has more than a binary32
/// one.
pub const DROPPED: u64 = 0x2000_0000;

/// Two to the power of `k`.
pub open spec fn two_to(k: int) -> int
    decreases k,
{
    if k <= 0 {
        1
    } else {
        2 * two_to(k - 1)
    }
}

/// `m / unit`, rounded to the nearest whole number and, half way between two,
/// to the even one.
pub open spec fn rounded_half_even(m: int, unit: int) -> int {
    let q = m / unit;
    let rest = m % unit;
    if 2 * rest > unit || (2 * rest == unit && q % 2 == 1) {
        q + 1
    } else {
        q
    }
}

/// The bits of the binary32 number nearest to a binary64 number, with ties
/// going to the even fraction. Numbers too large become infinity, numbers too
/// small zero or a subnormal number, and a NaN a quiet NaN with the leading
/// bits of its payload; all keep their sign.
pub open spec fn single_bits_nearest(d: Double) -> int {
    let sign: int = if d.sign_bit() {
        0x8000_0000
    } else {
        0
    };
    let field = d.magnitude() / (DOUBLE_HIDDEN_BIT as int);
    let fraction = d.magnitude() % (DOUBLE_HIDDEN_BIT as int);
    let exponent = field - DOUBLE_BIAS;
    let significand = DOUBLE_HIDDEN_BIT + fraction;
    if field == 2047 {
        if fraction == 0 {
            sign + SINGLE_INFINITY
        } else {
            sign + SINGLE_QUIET_NAN + (fraction / (DROPPED as int)) % 0x40_0000
        }
    } else if field == 0 {
        sign
    } else if exponent > 127 {
        sign + SINGLE_INFINITY
    } else if exponent >= -126 {
        sign + (exponent + 126) * SINGLE_HIDDEN_BIT + rounded_half_even(
            significand,
            DROPPED as int,
        )
    } else {
        sign + rounded_half_even(significand, two_to(-exponent - 97))
    }
}

/// `two_to` is positive.
pub proof fn lemma_two_to_positive(k: int)
    ensures
        0 < two_to(k),
    decreases k,
{
    if k > 0 {
        lemma_two_to_positive(k - 1);
    }
}

/// `two_to` grows with its exponent.
pub proof fn lemma_two_to_grows(a: int, b: int)
    requires
        a <= b,
    ensures
        0 < two_to(a) <= two_to(b),
    decreases b - a,
{
    lemma_two_to_positive(a);
    if a < b {
        lemma_two_to_grows(a, b - 1);
    }
}

proof fn lemma_two_to_values()
    ensures
        two_to(29) == 0x2000_0000,
        two_to(54) == 0x40_0000_0000_0000,
        two_to(55) == 0x80_0000_0000_0000,
{
    reveal_with_fuel(two_to, 30);
    assert(two_to(29) == 0x2000_0000);
    assert(two_to(54) == 0x200_0000 * two_to(29));
}

fn power_of_two(k: u64) -> (p: u64)
    requires
        k <= 54,
    ensures
        p == two_to(k as int),
        0 < p <= 0x40_0000_0000_0000,
{
    let mut p: u64 = 1;
    let mut i: u64 = 0;
    while i < k
        invariant
            i <= k <= 54,
            p == two_to(i as int),
        decreases k - i,
    {
        proof {
            lemma_two_to_grows(i as int + 1, 54);
            lemma_two_to_values();
        }
        p = p * 2;
        i = i + 1;
    }
    proof {
        lemma_two_to_grows(k as int, 54);
        lemma_two_to_values();
    }
    p
}

fn round_half_even(m: u64, unit: u64) -> (q: u64)
    requires
        0 < unit <= 0x40_0000_0000_0000,
        m < 0x20_0000_0000_0000,
    ensures
        q == rounded_half_even(m as int, unit as int),
        q <= m / unit + 1,
{
    let q: u64 = m / unit;
    let rest: u64 = m % unit;
    if rest > unit - rest || (rest == unit - rest && q % 2 == 1) {
        q + 1
    } else {
        q
    }
}

/// Rounding to single precision keeps what kind of number a number is: the
/// result fits in 32 bits, has the sign of the number, is a NaN exactly if the
/// number is one, and is zero if the number is.
pub proof fn lemma_nearest_keeps_class(d: Double)
    ensures
        0 <= single_bits_nearest(d) <= u32::MAX,
        Single::nearest(d).sign_bit() == d.sign_bit(),
        Single::nearest(d).nan() == d.nan(),
        d.zero() ==> Single::nearest(d).zero(),
{
    let field = d.magnitude() / (DOUBLE_HIDDEN_BIT as int);
    let fraction = d.magnitude() % (DOUBLE_HIDDEN_BIT as int);
    let exponent = field - DOUBLE_BIAS;
    let significand = DOUBLE_HIDDEN_BIT + fraction;
    assert(0 <= field <= 2047);
    if field == 2047 {
    } else if field == 0 {
    } else if exponent > 127 {
    } else if exponent >= -126 {
        let q = rounded_half_even(significand, DROPPED as int);
        assert(0x80_0000 <= significand / (DROPPED as int) < 0x100_0000);
        assert(0x80_0000 <= q <= 0x100_0000);
        assert((exponent + 126) * SINGLE_HIDDEN_BIT + q <= 0x7F80_0000) by (nonlinear_arith)
            requires
                0 <= exponent + 126 <= 253,
                q <= 0x100_0000,
        ;
        assert((exponent + 126) * SINGLE_HIDDEN_BIT + q >= 0) by (nonlinear_arith)
            requires
                0 <= exponent + 126,
                q >= 0,
        ;
    } else {
        let shift = -exponent - 97;
        let unit = two_to(shift);
        lemma_two_to_grows(30, shift);
        lemma_two_to_values();
        assert(two_to(30) == 2 * two_to(29));
        assert(0 <= significand / unit < 0x80_0000) by (nonlinear_arith)
            requires
                0 <= significand < 0x20_0000_0000_0000,
                unit >= 0x4000_0000,
        ;
    }
}

impl Single {
    /// The bits without the sign bit.
    pub open spec fn magnitude(self) -> int {
        if self.bits >= 0x8000_0000 {
            self.bits - 0x8000_0000
        } else {
            self.bits as int
        }
    }

    /// The sign bit is set.
    pub open spec fn sign_bit(self) -> bool {
        self.bits >= 0x8000_0000
    }

    /// The value is not a number.
    pub open spec fn nan(self) -> bool {
        self.magnitude() > SINGLE_INFINITY
    }

    /// `self == 0`, of either sign.
    pub open spec fn zero(self) -> bool {
        self.magnitude() == 0
    }

    /// The binary32 number nearest to a binary64 number.
    pub open spec fn nearest(d: Double) -> Single {
        Single { bits: single_bits_nearest(d) as u32 }
    }

    /// Rounds a binary64 number to the nearest binary32 number.
    pub fn from_double(d: Double) -> (s: Single)
        ensures
            s.bits == single_bits_nearest(d),
            s == Single::nearest(d),
    {
        let sign: u32 = if d.bits >= DOUBLE_SIGN {
            0x8000_0000
        } else {
            0
        };
        let magnitude: u64 = if d.bits >= DOUBLE_SIGN {
            d.bits - DOUBLE_SIGN
        } else {
            d.bits
        };
        let field: u64 = magnitude / DOUBLE_HIDDEN_BIT;
        let fraction: u64 = magnitude % DOUBLE_HIDDEN_BIT;
        let significand: u64 = DOUBLE_HIDDEN_BIT + fraction;
        if field == 2047 {
            if fraction == 0 {
                Single { bits: sign + SINGLE_INFINITY }
            } else {
                let payload: u64 = (fraction / DROPPED) % 0x40_0000;
                Single { bits: sign + SINGLE_QUIET_NAN + payload as u32 }
            }
        } else if field == 0 {
            Single { bits: sign }
        } else if field > DOUBLE_BIAS + 127 {
            Single { bits: sign + SINGLE_INFINITY }
        } else if field + 126 >= DOUBLE_BIAS {
            // At most 24 bits are left of the significand, or 2^24 after
            // rounding up: the carry then moves into the exponent field.
            let q: u64 = round_half_even(significand, DROPPED);
            let exponent: u64 = field + 126 - DOUBLE_BIAS;
            assert(significand / DROPPED < 0x100_0000);
            let low: u64 = exponent * 0x80_0000 + q;
            Single { bits: sign + low as u32 }
        } else {
            // Below the smallest normal number a unit in the last place is
            // 2^-149, whatever the exponent.
            let shift: u64 = DOUBLE_BIAS - field - 97;
            if shift > 54 {
                proof {
                    lemma_two_to_grows(55, shift as int);
                    lemma_two_to_values();
                    vstd::arithmetic::div_mod::lemma_basic_div(
                        significand as int,
                        two_to(shift as int),
                    );
                    vstd::arithmetic::div_mod::lemma_small_mod(
                        significand as nat,
                        two_to(shift as int) as nat,
                    );
                }
                Single { bits: sign }
            } else {
                let unit: u64 = power_of_two(shift);
                let q: u64 = round_half_even(significand, unit);
                proof {
                    lemma_two_to_grows(30, shift as int);
                    lemma_two_to_values();
                    assert(two_to(30) == 2 * two_to(29));
                    assert(significand / unit < 0x80_0000) by (nonlinear_arith)
                        requires
                            significand < 0x20_0000_0000_0000,
                            unit >= 0x4000_0000,
                    ;
                }
                Single { bits: sign + q as u32 }
            }
        }
    }
}

} // verus!
