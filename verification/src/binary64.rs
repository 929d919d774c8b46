//! Double-precision numbers held by their bit pattern.
//!
//! The verifier does not reason about floating-point arithmetic, so every
//! decision that this library takes on a real quantity is taken on the 64 bits
//! of its IEEE 754 binary64 encoding. The arithmetic itself (sums, products,
//! roots, logarithms) is done by the caller on the machine's own doubles; what
//! is decided here is how two encoded numbers compare, which class a number
//! belongs to, and which 8-bit level a number truncates to.
//!
//! The model is exact. Every finite double is a whole multiple of the smallest
//! subnormal, two to the power -1074, so `Binary64::value` gives the number as
//! an integer count of that unit. An infinity counts as the number that its
//! bit pattern would encode if the exponent field had no reserved value, which
//! lies beyond every finite double, so that order is decided in one way.
use vstd::prelude::*;
use vstd::arithmetic::power2::*;
use vstd::arithmetic::div_mod::*;
use vstd::bits::*;

verus! {

/// The bit pattern in which only the sign bit is set.
pub const SIGN_MASK: u64 = 0x8000_0000_0000_0000;

/// Two to the power 52: the weight of the lowest exponent bit, and the hidden
/// leading bit of a normal significand.
pub const HIDDEN_BIT: u64 = 0x0010_0000_0000_0000;

/// The bit pattern of positive infinity.
pub const INFINITY_BITS: u64 = 0x7ff0_0000_0000_0000;

/// The biased exponent of the number one.
pub const EXPONENT_BIAS: u64 = 1023;

/// The number one in the unit of `Binary64::value`, which is two to the
/// power -1074.
pub open spec fn unit() -> int {
    pow2(1074) as int
}

/// The count of units of two to the power -1074 that the integer `n` amounts to.
pub open spec fn units(n: int) -> int {
    n * unit()
}

/// A double-precision number, held by the bits of its encoding.
///
/// `==` on this type compares bit patterns. It tells the two zeros apart and
/// holds of a NaN and itself; `Binary64::same` is the numerical equality.
#[derive(Clone, Copy, Debug, PartialEq, Eq, Structural)]
pub struct Binary64 {
    pub bits: u64,
}

impl Binary64 {
    /// The sign bit is set.
    pub open spec fn negative(self) -> bool {
        self.bits >= SIGN_MASK
    }

    /// The encoding without its sign bit.
    pub open spec fn abs_bits(self) -> nat {
        if self.bits >= SIGN_MASK {
            (self.bits - SIGN_MASK) as nat
        } else {
            self.bits as nat
        }
    }

    /// The biased exponent field, between 0 and 2047.
    pub open spec fn exponent(self) -> nat {
        self.abs_bits() / (HIDDEN_BIT as nat)
    }

    /// The fraction field, below two to the power 52.
    pub open spec fn fraction(self) -> nat {
        self.abs_bits() % (HIDDEN_BIT as nat)
    }

    /// The encoding is one of the NaNs.
    pub open spec fn nan(self) -> bool {
        self.abs_bits() > INFINITY_BITS
    }

    /// The encoding is positive or negative infinity.
    pub open spec fn infinite(self) -> bool {
        self.abs_bits() == INFINITY_BITS
    }

    /// The encoding is a zero, a subnormal or a normal number.
    pub open spec fn finite(self) -> bool {
        self.abs_bits() < INFINITY_BITS
    }

    /// The absolute value in units of two to the power -1074.
    ///
    /// With exponent field 0 the number is subnormal and is its fraction
    /// field; otherwise the significand carries the hidden bit and is scaled
    /// by two to the power of the exponent field less one.
    pub open spec fn magnitude(self) -> nat {
        if self.exponent() == 0 {
            self.fraction()
        } else {
            (HIDDEN_BIT + self.fraction()) as nat * pow2((self.exponent() - 1) as nat)
        }
    }

    /// The number in units of two to the power -1074. It is the exact value of
    /// a finite encoding, lies beyond every finite value for an infinity, and
    /// means nothing for a NaN.
    pub open spec fn value(self) -> int {
        if self.negative() {
            -(self.magnitude() as int)
        } else {
            self.magnitude() as int
        }
    }

    /// Numerical equality: neither is a NaN and the values agree. The two
    /// zeros are the same number.
    pub open spec fn same(self, other: Binary64) -> bool {
        !self.nan() && !other.nan() && self.value() == other.value()
    }

    /// Numerical strict order: neither is a NaN and `self` is the smaller.
    pub open spec fn below(self, other: Binary64) -> bool {
        !self.nan() && !other.nan() && self.value() < other.value()
    }

    /// Numerical order: neither is a NaN and `self` is not the larger.
    pub open spec fn at_most(self, other: Binary64) -> bool {
        !self.nan() && !other.nan() && self.value() <= other.value()
    }

    /// The whole part towards minus infinity of the number.
    pub open spec fn floor(self) -> int {
        self.value() / unit()
    }

    /// The 8-bit level that the number truncates to: 0 for a NaN, otherwise
    /// the whole part of the number held to the range from 0 to 255.
    pub open spec fn level(self) -> int {
        if self.nan() || self.floor() < 0 {
            0
        } else if self.floor() > 255 {
            255
        } else {
            self.floor()
        }
    }

    /// The number with the given encoding.
    pub fn from_bits(bits: u64) -> (x: Binary64)
        ensures
            x.bits == bits,
    {
        Binary64 { bits }
    }

    /// The encoding of the number.
    pub fn to_bits(self) -> (bits: u64)
        ensures
            bits == self.bits,
    {
        self.bits
    }

    /// Positive zero.
    pub fn zero() -> (x: Binary64)
        ensures
            x.bits == 0,
            !x.nan(),
            x.value() == 0,
    {
        let x = Binary64 { bits: 0 };
        proof {
            lemma_value_of_zero_bits(x);
        }
        x
    }

    /// One half.
    pub fn half() -> (x: Binary64)
        ensures
            x.bits == 0x3fe0_0000_0000_0000,
            x.finite(),
            !x.negative(),
            2 * x.value() == units(1),
    {
        let x = Binary64 { bits: 0x3fe0_0000_0000_0000 };
        proof {
            lemma_value_of_power(x, 1022);
            lemma_pow2_unfold(1074);
        }
        x
    }

    /// One.
    pub fn one() -> (x: Binary64)
        ensures
            x.bits == 0x3ff0_0000_0000_0000,
            x.finite(),
            !x.negative(),
            x.value() == units(1),
    {
        let x = Binary64 { bits: 0x3ff0_0000_0000_0000 };
        proof {
            lemma_value_of_power(x, 1023);
        }
        x
    }

    /// Four.
    pub fn four() -> (x: Binary64)
        ensures
            x.bits == 0x4010_0000_0000_0000,
            x.finite(),
            !x.negative(),
            x.value() == units(4),
    {
        let x = Binary64 { bits: 0x4010_0000_0000_0000 };
        proof {
            lemma_value_of_power(x, 1025);
            lemma_pow2_adds(2, 1074);
            lemma2_to64();
        }
        x
    }

    /// One hundred.
    pub fn hundred() -> (x: Binary64)
        ensures
            x.bits == 0x4059_0000_0000_0000,
            x.finite(),
            !x.negative(),
            x.value() == units(100),
    {
        let x = Binary64 { bits: 0x4059_0000_0000_0000 };
        proof {
            lemma_value_of_hundred(x);
        }
        x
    }

    /// Whether the number is a NaN.
    pub fn is_nan(self) -> (r: bool)
        ensures
            r == self.nan(),
    {
        self.magnitude_bits() > INFINITY_BITS
    }

    /// Whether the number is an infinity.
    pub fn is_infinite(self) -> (r: bool)
        ensures
            r == self.infinite(),
    {
        self.magnitude_bits() == INFINITY_BITS
    }

    /// Whether the number is neither an infinity nor a NaN.
    pub fn is_finite(self) -> (r: bool)
        ensures
            r == self.finite(),
    {
        self.magnitude_bits() < INFINITY_BITS
    }

    /// Whether the sign bit is set, which it may be on a zero and on a NaN too.
    pub fn is_sign_negative(self) -> (r: bool)
        ensures
            r == self.negative(),
    {
        self.bits >= SIGN_MASK
    }

    /// Whether the number is one of the two zeros.
    pub fn is_zero(self) -> (r: bool)
        ensures
            r == (!self.nan() && self.value() == 0),
    {
        proof {
            lemma_zero_magnitude(self);
        }
        self.magnitude_bits() == 0
    }

    /// The encoding with the sign bit cleared.
    pub fn magnitude_bits(self) -> (m: u64)
        ensures
            m == self.abs_bits(),
            m < SIGN_MASK,
    {
        if self.bits >= SIGN_MASK {
            self.bits - SIGN_MASK
        } else {
            self.bits
        }
    }

    /// Whether the two numbers are equal, as `==` on doubles decides it.
    pub fn equals(self, other: Binary64) -> (r: bool)
        ensures
            r == self.same(other),
    {
        if self.is_nan() || other.is_nan() {
            return false;
        }
        let a: u64 = self.magnitude_bits();
        let b: u64 = other.magnitude_bits();
        proof {
            lemma_magnitude_injective(self, other);
            lemma_zero_magnitude(self);
            lemma_zero_magnitude(other);
        }
        if self.is_sign_negative() == other.is_sign_negative() {
            a == b
        } else {
            a == 0 && b == 0
        }
    }

    /// Whether `self` is less than `other`, as `<` on doubles decides it.
    pub fn lt(self, other: Binary64) -> (r: bool)
        ensures
            r == self.below(other),
    {
        if self.is_nan() || other.is_nan() {
            return false;
        }
        let a: u64 = self.magnitude_bits();
        let b: u64 = other.magnitude_bits();
        proof {
            lemma_magnitude_injective(self, other);
            lemma_zero_magnitude(self);
            lemma_zero_magnitude(other);
            if a < b {
                lemma_magnitude_increases(self, other);
            }
            if b < a {
                lemma_magnitude_increases(other, self);
            }
        }
        if self.is_sign_negative() {
            if other.is_sign_negative() {
                b < a
            } else {
                a != 0 || b != 0
            }
        } else {
            if other.is_sign_negative() {
                false
            } else {
                a < b
            }
        }
    }

    /// Whether `self` is less than or equal to `other`, as `<=` on doubles
    /// decides it.
    pub fn le(self, other: Binary64) -> (r: bool)
        ensures
            r == self.at_most(other),
    {
        if self.is_nan() || other.is_nan() {
            return false;
        }
        !other.lt(self)
    }

    /// Whether `self` is greater than `other`, as `>` on doubles decides it.
    pub fn gt(self, other: Binary64) -> (r: bool)
        ensures
            r == other.below(self),
    {
        other.lt(self)
    }

    /// Whether `self` is greater than or equal to `other`, as `>=` on doubles
    /// decides it.
    pub fn ge(self, other: Binary64) -> (r: bool)
        ensures
            r == other.at_most(self),
    {
        other.le(self)
    }

    /// The number truncated to eight bits as a saturating conversion does it:
    /// a NaN gives 0, a number below 0 gives 0, one above 255 gives 255, and
    /// any other loses the part behind the point.
    pub fn to_u8(self) -> (r: u8)
        ensures
            r == self.level(),
    {
        if self.is_nan() {
            return 0;
        }
        let m: u64 = self.magnitude_bits();
        let e: u64 = m / HIDDEN_BIT;
        let f: u64 = m % HIDDEN_BIT;
        if self.is_sign_negative() {
            proof {
                lemma_pow2_pos(1074);
                if self.value() < 0 {
                    lemma_div_is_ordered(self.value(), -1, unit());
                    lemma_floor_of_minus_one();
                } else {
                    lemma_basic_div(0, unit());
                }
            }
            return 0;
        }
        if e < EXPONENT_BIAS {
            proof {
                lemma_below_one(self);
            }
            return 0;
        }
        if e > EXPONENT_BIAS + 7 {
            proof {
                lemma_beyond_levels(self);
            }
            return 255;
        }
        let shift: u64 = 52 - (e - EXPONENT_BIAS);
        let whole: u64 = (HIDDEN_BIT + f) >> shift;
        proof {
            lemma_whole_part(self);
            lemma_u64_shr_is_div((HIDDEN_BIT + f) as u64, shift);
        }
        whole as u8
    }
}

/// An encoding of all zero bits, sign aside, has magnitude 0.
pub proof fn lemma_value_of_zero_bits(x: Binary64)
    requires
        x.abs_bits() == 0,
    ensures
        x.magnitude() == 0,
        x.value() == 0,
        x.finite(),
{
}

/// A number whose fraction field is 0 and whose exponent field is `e`, at
/// least 1, is two to the power `e - 1` in units of two to the power -1022:
/// its value is `pow2(e + 51)`.
pub proof fn lemma_value_of_power(x: Binary64, e: nat)
    requires
        1 <= e <= 2046,
        x.bits == e * HIDDEN_BIT,
    ensures
        x.finite(),
        !x.negative(),
        x.value() == pow2(e + 51),
{
    assert(e * HIDDEN_BIT < INFINITY_BITS) by (nonlinear_arith)
        requires
            e <= 2046,
            HIDDEN_BIT == 0x0010_0000_0000_0000,
            INFINITY_BITS == 0x7ff0_0000_0000_0000,
    ;
    lemma_fundamental_div_mod_converse(x.abs_bits() as int, HIDDEN_BIT as int, e as int, 0);
    lemma2_to64_rest();
    lemma_pow2_adds(52, (e - 1) as nat);
}

/// A positive normal number with exponent field `e` and fraction field `f`
/// is the significand, hidden bit included, times two to the power `e - 1`.
pub proof fn lemma_value_of_normal(x: Binary64, e: nat, f: nat)
    requires
        1 <= e <= 2046,
        f < HIDDEN_BIT,
        x.bits == e * HIDDEN_BIT + f,
    ensures
        x.finite(),
        !x.negative(),
        x.exponent() == e,
        x.fraction() == f,
        x.value() == (HIDDEN_BIT + f) * pow2((e - 1) as nat),
{
    assert(e * HIDDEN_BIT + f < INFINITY_BITS) by (nonlinear_arith)
        requires
            e <= 2046,
            f < HIDDEN_BIT,
            HIDDEN_BIT == 0x0010_0000_0000_0000,
            INFINITY_BITS == 0x7ff0_0000_0000_0000,
    ;
    lemma_fundamental_div_mod_converse(
        x.abs_bits() as int,
        HIDDEN_BIT as int,
        e as int,
        f as int,
    );
}

/// The encoding `0x4059_0000_0000_0000` is the number one hundred.
pub proof fn lemma_value_of_hundred(x: Binary64)
    requires
        x.bits == 0x4059_0000_0000_0000,
    ensures
        x.finite(),
        !x.negative(),
        x.value() == units(100),
{
    // exponent field 1029, fraction nine sixteenths: 25 * 2^48 * 2^1028
    lemma_fundamental_div_mod_converse(
        x.abs_bits() as int,
        HIDDEN_BIT as int,
        1029,
        0x9_0000_0000_0000,
    );
    lemma2_to64_rest();
    lemma2_to64();
    lemma_pow2_adds(48, 1028);
    lemma_pow2_adds(2, 1074);
    let p = pow2(1028);
    assert((HIDDEN_BIT + 0x9_0000_0000_0000) as nat * p == 25 * (pow2(48) * p)) by (nonlinear_arith)
        requires
            HIDDEN_BIT == 0x0010_0000_0000_0000,
            pow2(48) == 0x1_0000_0000_0000,
    ;
    assert(25 * (4 * unit()) == 100 * unit()) by (nonlinear_arith);
}

/// The magnitude grows strictly with the encoding: of two encodings, sign
/// aside, the larger bit pattern is the larger number. This is why doubles of
/// one sign can be ordered as integers.
pub proof fn lemma_magnitude_increases(a: Binary64, b: Binary64)
    requires
        a.abs_bits() < b.abs_bits(),
    ensures
        a.magnitude() < b.magnitude(),
{
    let s = HIDDEN_BIT as int;
    let (ea, fa) = (a.exponent() as int, a.fraction() as int);
    let (eb, fb) = (b.exponent() as int, b.fraction() as int);
    lemma_fundamental_div_mod(a.abs_bits() as int, s);
    lemma_fundamental_div_mod(b.abs_bits() as int, s);
    lemma_div_is_ordered(a.abs_bits() as int, b.abs_bits() as int, s);
    assert(ea <= eb);
    if ea == eb {
        assert(fa < fb);
        if ea != 0 {
            let p = pow2((ea - 1) as nat) as int;
            lemma_pow2_pos((ea - 1) as nat);
            assert((s + fa) * p < (s + fb) * p) by (nonlinear_arith)
                requires
                    fa < fb,
                    p > 0,
            ;
        }
    } else {
        let q = pow2((eb - 1) as nat) as int;
        lemma_pow2_pos((eb - 1) as nat);
        assert(s <= (s + fb) * q) by (nonlinear_arith)
            requires
                s > 0,
                fb >= 0,
                q >= 1,
        ;
        if ea != 0 {
            let p = pow2((ea - 1) as nat) as int;
            lemma_pow2_pos((ea - 1) as nat);
            lemma_pow2_unfold(ea as nat);
            if ea < eb - 1 {
                lemma_pow2_strictly_increases(ea as nat, (eb - 1) as nat);
            }
            assert(2 * p <= q);
            assert((s + fa) * p < (s + fb) * q) by (nonlinear_arith)
                requires
                    0 <= fa < s,
                    fb >= 0,
                    p > 0,
                    2 * p <= q,
            ;
        }
    }
}

/// Two encodings with the same bits, sign aside, have the same magnitude, and
/// only they.
pub proof fn lemma_magnitude_injective(a: Binary64, b: Binary64)
    ensures
        (a.abs_bits() == b.abs_bits()) == (a.magnitude() == b.magnitude()),
{
    if a.abs_bits() < b.abs_bits() {
        lemma_magnitude_increases(a, b);
    }
    if b.abs_bits() < a.abs_bits() {
        lemma_magnitude_increases(b, a);
    }
}

/// The magnitude is 0 for the two zeros and for no other encoding.
pub proof fn lemma_zero_magnitude(a: Binary64)
    ensures
        (a.abs_bits() == 0) == (a.magnitude() == 0),
        (a.abs_bits() == 0) == (a.value() == 0),
{
    let z = Binary64 { bits: 0 };
    lemma_magnitude_injective(z, a);
}

/// Minus one unit has floor minus one.
proof fn lemma_floor_of_minus_one()
    ensures
        (-1int) / unit() == -1,
{
    let d = unit();
    lemma_pow2_pos(1074);
    lemma_fundamental_div_mod_converse(-1, d, -1, d - 1);
}

/// A number that is not negative and whose exponent field is below the bias
/// is less than one: its whole part is 0.
proof fn lemma_below_one(x: Binary64)
    requires
        !x.negative(),
        x.exponent() < EXPONENT_BIAS,
    ensures
        x.floor() == 0,
{
    let one = Binary64 { bits: 0x3ff0_0000_0000_0000 };
    lemma_value_of_power(one, 1023);
    lemma_fundamental_div_mod(x.abs_bits() as int, HIDDEN_BIT as int);
    assert(x.abs_bits() < one.abs_bits()) by (nonlinear_arith)
        requires
            x.abs_bits() == HIDDEN_BIT * (x.abs_bits() / (HIDDEN_BIT as nat)) + x.abs_bits() % (
            HIDDEN_BIT as nat),
            x.abs_bits() / (HIDDEN_BIT as nat) < 1023,
            x.abs_bits() % (HIDDEN_BIT as nat) < HIDDEN_BIT,
            one.abs_bits() == 0x3ff0_0000_0000_0000,
            HIDDEN_BIT == 0x0010_0000_0000_0000,
    ;
    lemma_magnitude_increases(x, one);
    lemma_basic_div(x.value(), unit());
}

/// A number that is not negative and whose exponent field is above the bias
/// by more than 7 is at least 256, an infinity included.
proof fn lemma_beyond_levels(x: Binary64)
    requires
        !x.negative(),
        x.exponent() > EXPONENT_BIAS + 7,
    ensures
        x.floor() > 255,
{
    let e = x.exponent();
    let f = x.fraction();
    let p = pow2((e - 1) as nat) as int;
    let u = unit();
    lemma_pow2_pos(1074);
    lemma2_to64();
    lemma2_to64_rest();
    // 2^52 * 2^1030 is 256 units
    lemma_pow2_adds(8, 1074);
    lemma_pow2_adds(52, 1030);
    if e - 1 > 1030 {
        lemma_pow2_strictly_increases(1030, (e - 1) as nat);
    }
    assert(pow2(1030) <= p);
    assert((HIDDEN_BIT + f) * p >= 256 * u) by (nonlinear_arith)
        requires
            HIDDEN_BIT == pow2(52),
            f >= 0,
            pow2(1030) <= p,
            pow2(52) * pow2(1030) == pow2(8) * u,
            pow2(8) == 256,
            u > 0,
    ;
    lemma_div_is_ordered(256 * u, x.value(), u);
    lemma_div_by_multiple(256, u);
}

/// For a number that is not negative and whose exponent field is above the
/// bias by `k`, at most 7, the whole part is the significand without its
/// lowest `52 - k` bits, and fits eight bits.
proof fn lemma_whole_part(x: Binary64)
    requires
        !x.negative(),
        EXPONENT_BIAS <= x.exponent() <= EXPONENT_BIAS + 7,
    ensures
        x.floor() == (HIDDEN_BIT + x.fraction()) as int / (pow2(
            (52 - (x.exponent() - EXPONENT_BIAS)) as nat,
        ) as int),
        0 < x.floor() <= 255,
{
    let e = x.exponent();
    let sig = (HIDDEN_BIT + x.fraction()) as int;
    let drop = (1075 - e) as nat;
    let p = pow2((e - 1) as nat) as int;
    let q = pow2(drop) as int;
    lemma_pow2_pos(drop);
    lemma_pow2_pos((e - 1) as nat);
    lemma_pow2_adds((e - 1) as nat, drop);
    assert(unit() == p * q);
    lemma_div_multiples_vanish_quotient(p, sig, q);
    assert(sig * p == p * sig) by (nonlinear_arith);
    assert(x.floor() == sig / q);
    // the significand lies between 2^52 and 2^53, and 45 <= drop <= 52
    lemma2_to64();
    lemma2_to64_rest();
    if drop < 52 {
        lemma_pow2_strictly_increases(drop, 52);
    }
    if 45 < drop {
        lemma_pow2_strictly_increases(45, drop);
    }
    lemma_div_is_ordered(q, sig, q);
    lemma_div_by_multiple(1, q);
    assert(sig < 256 * q) by (nonlinear_arith)
        requires
            sig < 0x20_0000_0000_0000,
            q >= 0x2000_0000_0000,
    ;
    lemma_div_is_ordered(sig, 256 * q - 1, q);
    lemma_fundamental_div_mod_converse(256 * q - 1, q, 255, q - 1);
}

} // verus!
