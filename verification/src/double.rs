//! IEEE 754 binary64 numbers, held by their bit pattern and worked on with integers only.
//!
//! A finite number is `significand * 2^exponent`, negated where the sign bit is set. What the
//! drawing context needs of such numbers is here: the tests for zero, infinity and NaN, the
//! conversion to an integer by truncation, the quotient of two pixel counts and the product of
//! two numbers, both correctly rounded.

use vstd::prelude::*;
use vstd::arithmetic::power2::*;
use vstd::arithmetic::div_mod::*;
use vstd::arithmetic::mul::*;
use crate::ieee::{
    bit_length, divide_round_half_even, lemma_bit_length_bounds, lemma_bit_length_shift,
    lemma_bit_length_unique, lemma_round_exact, power_of_two, quantum, round_half_even,
    round_to_quantum, rounded,
};

verus! {

/// The weight of the lowest exponent bit, `2^52`.
pub const FRACTION_UNIT: u64 = 0x10_0000_0000_0000;

/// The weight of the sign bit, `2^63`.
pub const SIGN_UNIT: u64 = 0x8000_0000_0000_0000;

/// The bit pattern of positive infinity, and the least pattern that is not a finite magnitude.
pub const INFINITY_BITS: u64 = 0x7ff0_0000_0000_0000;

/// The bit pattern of the NaN that the operations here return.
pub const NAN_BITS: u64 = 0x7ff8_0000_0000_0000;

/// The bit pattern of 1.
pub const ONE_BITS: u64 = 0x3ff0_0000_0000_0000;

/// A binary64 number, by its bit pattern. Two are equal where their bits are.
#[derive(Clone, Copy, Debug, PartialEq, Eq, Structural)]
pub struct Double {
    pub bits: u64,
}

/// The powers of two that the binary64 layout is made of.
pub proof fn lemma_layout_powers()
    ensures
        pow2(11) == 0x800,
        pow2(31) == 0x8000_0000,
        pow2(32) == 0x1_0000_0000,
        pow2(52) == 0x10_0000_0000_0000,
        pow2(53) == 0x20_0000_0000_0000,
        pow2(63) == 0x8000_0000_0000_0000,
        pow2(64) == 0x1_0000_0000_0000_0000,
        pow2(106) == 0x400_0000_0000_0000_0000_0000_0000,
        pow2(127) == 0x8000_0000_0000_0000_0000_0000_0000_0000,
{
    lemma2_to64();
    lemma_pow2_adds(32, 20);
    lemma_pow2_adds(32, 21);
    lemma_pow2_adds(32, 31);
    lemma_pow2_adds(53, 53);
    lemma_pow2_adds(64, 63);
    assert(pow2(53) * pow2(53) == 0x400_0000_0000_0000_0000_0000_0000) by (nonlinear_arith)
        requires
            pow2(53) == 0x20_0000_0000_0000,
    ;
}

/// The least number of doublings that bring `part` up to `whole`.
pub open spec fn doublings(part: nat, whole: nat) -> nat
    decreases
        (if part < whole {
            whole - part
        } else {
            0
        }),
{
    if part == 0 || part >= whole {
        0
    } else {
        1 + doublings(2 * part, whole)
    }
}

impl Double {
    /// Whether the sign bit is set.
    pub open spec fn negative(self) -> bool {
        self.bits >= SIGN_UNIT
    }

    /// The eleven exponent bits.
    pub open spec fn biased_exponent(self) -> nat {
        ((self.bits / FRACTION_UNIT) % 0x800) as nat
    }

    /// The fifty-two fraction bits.
    pub open spec fn fraction(self) -> nat {
        (self.bits % FRACTION_UNIT) as nat
    }

    /// Not a number: the exponent bits are all set, and the fraction is not zero.
    pub open spec fn spec_is_nan(self) -> bool {
        self.biased_exponent() == 0x7ff && self.fraction() != 0
    }

    /// An infinity: the exponent bits are all set, and the fraction is zero.
    pub open spec fn spec_is_infinite(self) -> bool {
        self.biased_exponent() == 0x7ff && self.fraction() == 0
    }

    /// Neither NaN nor an infinity.
    pub open spec fn spec_is_finite(self) -> bool {
        self.biased_exponent() < 0x7ff
    }

    /// The significand of a finite number: the fraction, with the hidden bit for a normal one.
    pub open spec fn significand(self) -> nat {
        if self.biased_exponent() == 0 {
            self.fraction()
        } else {
            self.fraction() + FRACTION_UNIT as nat
        }
    }

    /// The exponent of the lowest bit of the significand.
    pub open spec fn exponent(self) -> int {
        if self.biased_exponent() == 0 {
            -1074
        } else {
            self.biased_exponent() - 1075
        }
    }

    /// Positive or negative zero.
    pub open spec fn spec_is_zero(self) -> bool {
        self.biased_exponent() == 0 && self.fraction() == 0
    }

    /// The magnitude of a finite number without its fractional part.
    pub open spec fn whole_part(self) -> nat {
        if self.exponent() >= 0 {
            self.significand() * pow2(self.exponent() as nat)
        } else {
            self.significand() / pow2((-self.exponent()) as nat)
        }
    }

    /// A finite number rounded toward zero to an integer.
    pub open spec fn truncated(self) -> int {
        if self.negative() {
            -(self.whole_part() as int)
        } else {
            self.whole_part() as int
        }
    }

    /// The number as an `i32`, as the conversion `as` gives it: rounded toward zero; the
    /// nearest `i32` where the number lies beyond them all; 0 for NaN.
    pub open spec fn spec_to_i32(self) -> i32 {
        if self.spec_is_nan() {
            0
        } else if self.spec_is_infinite() || self.truncated() < i32::MIN || self.truncated()
            > i32::MAX {
            if self.negative() {
                i32::MIN
            } else {
                i32::MAX
            }
        } else {
            self.truncated() as i32
        }
    }

    /// The number as a `u32`, as the conversion `as` gives it: rounded toward zero; the
    /// nearest `u32` where the number lies beyond them all; 0 for NaN.
    pub open spec fn spec_to_u32(self) -> u32 {
        if self.spec_is_nan() {
            0
        } else if self.negative() {
            0
        } else if self.spec_is_infinite() || self.truncated() > u32::MAX {
            u32::MAX
        } else {
            self.truncated() as u32
        }
    }

    /// The number without its sign.
    pub open spec fn spec_abs(self) -> Double {
        Double { bits: self.bits % SIGN_UNIT }
    }

    /// Zero of the given sign.
    pub open spec fn spec_zero(negative: bool) -> Double {
        Double { bits: if negative { SIGN_UNIT } else { 0 } }
    }

    /// The infinity of the given sign.
    pub open spec fn spec_infinity(negative: bool) -> Double {
        Double { bits: if negative { (SIGN_UNIT + INFINITY_BITS) as u64 } else { INFINITY_BITS } }
    }

    /// The number 1.
    pub open spec fn spec_one() -> Double {
        Double { bits: ONE_BITS }
    }

    /// The number of `quanta` quanta of `2^q`, where `q` is at least -1074 and `quanta` has 53
    /// digits, or fewer where `q` is -1074. The exponent field counts the quanta's exponent from
    /// -1075; a 53rd digit of `quanta` adds the one that the hidden bit stands for. A number too
    /// large for the format is an infinity.
    pub open spec fn spec_pack(negative: bool, quanta: nat, q: int) -> Double {
        let body = (q + 1074) * FRACTION_UNIT + quanta;
        let magnitude = if body >= INFINITY_BITS { INFINITY_BITS as int } else { body };
        Double { bits: (if negative { SIGN_UNIT + magnitude } else { magnitude }) as u64 }
    }

    /// The binary64 number nearest to `part / whole`, for `0 <= part <= whole` and `whole > 0`.
    /// With `i` doublings `part * 2^i` lies from `whole` up to twice `whole`, so that the
    /// quotient by `whole` of `part * 2^(52 + i)` has the 53 digits of a significand.
    pub open spec fn spec_ratio(part: nat, whole: nat) -> Double {
        if part == 0 {
            Double::spec_zero(false)
        } else {
            let i = doublings(part, whole);
            Double::spec_pack(false, round_half_even(part * pow2(52 + i), whole), -(52 + i))
        }
    }

    /// The binary64 number that is `v`: every `i32` is one exactly.
    pub open spec fn spec_from_i32(v: i32) -> Double {
        if v == 0 {
            Double::spec_zero(false)
        } else {
            let mag = (if v < 0 {
                -v
            } else {
                v as int
            }) as nat;
            Double::spec_pack(v < 0, rounded(mag, 0, 53, -1074), quantum(mag, 0, 53, -1074))
        }
    }

    /// The product as IEEE 754 defines it, rounded to nearest, ties to even. Every NaN result is
    /// the one of `NAN_BITS`.
    pub open spec fn spec_mul(self, rhs: Double) -> Double {
        let negative = self.negative() != rhs.negative();
        if self.spec_is_nan() || rhs.spec_is_nan() {
            Double { bits: NAN_BITS }
        } else if self.spec_is_infinite() || rhs.spec_is_infinite() {
            if self.spec_is_zero() || rhs.spec_is_zero() {
                Double { bits: NAN_BITS }
            } else {
                Double::spec_infinity(negative)
            }
        } else if self.spec_is_zero() || rhs.spec_is_zero() {
            Double::spec_zero(negative)
        } else {
            let mag = self.significand() * rhs.significand();
            let exp = self.exponent() + rhs.exponent();
            Double::spec_pack(negative, rounded(mag, exp, 53, -1074), quantum(mag, exp, 53, -1074))
        }
    }

    /// The number of a bit pattern.
    pub fn from_bits(bits: u64) -> (r: Double)
        ensures
            r.bits == bits,
    {
        Double { bits }
    }

    /// The bit pattern of the number.
    pub fn to_bits(self) -> (r: u64)
        ensures
            r == self.bits,
    {
        self.bits
    }

    #[verifier::when_used_as_spec(spec_is_nan)]
    pub fn is_nan(self) -> (r: bool)
        ensures
            r == self.spec_is_nan(),
    {
        (self.bits / FRACTION_UNIT) % 0x800 == 0x7ff && self.bits % FRACTION_UNIT != 0
    }

    #[verifier::when_used_as_spec(spec_is_infinite)]
    pub fn is_infinite(self) -> (r: bool)
        ensures
            r == self.spec_is_infinite(),
    {
        (self.bits / FRACTION_UNIT) % 0x800 == 0x7ff && self.bits % FRACTION_UNIT == 0
    }

    #[verifier::when_used_as_spec(spec_is_finite)]
    pub fn is_finite(self) -> (r: bool)
        ensures
            r == self.spec_is_finite(),
    {
        (self.bits / FRACTION_UNIT) % 0x800 != 0x7ff
    }

    /// Whether the number compares equal to zero.
    #[verifier::when_used_as_spec(spec_is_zero)]
    pub fn is_zero(self) -> (r: bool)
        ensures
            r == self.spec_is_zero(),
    {
        (self.bits / FRACTION_UNIT) % 0x800 == 0 && self.bits % FRACTION_UNIT == 0
    }

    #[verifier::when_used_as_spec(spec_abs)]
    pub fn abs(self) -> (r: Double)
        ensures
            r == self.spec_abs(),
    {
        Double { bits: self.bits % SIGN_UNIT }
    }

    /// The significand and the exponent of a finite number.
    pub fn parts(self) -> (r: (u64, i32))
        requires
            self.spec_is_finite(),
        ensures
            r.0 == self.significand(),
            r.1 == self.exponent(),
            r.0 < 0x20_0000_0000_0000,
            -1074 <= r.1 <= 971,
            r.1 > -1074 ==> r.0 >= FRACTION_UNIT,
    {
        let biased = (self.bits / FRACTION_UNIT) % 0x800;
        let fraction = self.bits % FRACTION_UNIT;
        if biased == 0 {
            (fraction, -1074)
        } else {
            (fraction + FRACTION_UNIT, biased as i32 - 1075)
        }
    }

    /// The whole part of a finite number, where it is below `2^52`.
    fn whole(self) -> (r: Option<u64>)
        requires
            self.spec_is_finite(),
        ensures
            match r {
                Some(w) => w == self.whole_part() && w < FRACTION_UNIT,
                None => self.whole_part() >= FRACTION_UNIT,
            },
    {
        let (significand, exponent) = self.parts();
        proof {
            lemma_layout_powers();
        }
        if exponent >= 0 {
            proof {
                lemma_pow2_pos(exponent as nat);
                lemma_mul_inequality(1, pow2(exponent as nat) as int, significand as int);
                lemma_mul_is_commutative(significand as int, pow2(exponent as nat) as int);
            }
            None
        } else if exponent <= -64 {
            proof {
                lemma_pow2_strictly_increases(53, (-exponent) as nat);
                lemma_basic_div(significand as int, pow2((-exponent) as nat) as int);
            }
            Some(0)
        } else {
            let unit = power_of_two((-exponent) as u32);
            proof {
                lemma2_to64();
                lemma_pow2_strictly_increases(0, (-exponent) as nat);
                lemma_fundamental_div_mod(significand as int, unit as int);
                lemma_mod_bound(significand as int, unit as int);
                let quotient = (significand as int) / (unit as int);
                assert(quotient < 0x10_0000_0000_0000) by (nonlinear_arith)
                    requires
                        significand == unit * quotient + (significand as int) % (unit as int),
                        0 <= (significand as int) % (unit as int),
                        significand < 0x20_0000_0000_0000,
                        unit >= 2,
                ;
            }
            Some((significand as u128 / unit) as u64)
        }
    }

    #[verifier::when_used_as_spec(spec_to_i32)]
    pub fn to_i32(self) -> (r: i32)
        ensures
            r == self.spec_to_i32(),
    {
        let negative = self.bits >= SIGN_UNIT;
        if self.is_nan() {
            return 0;
        }
        let whole = if self.is_finite() {
            self.whole()
        } else {
            None
        };
        match whole {
            Some(w) => {
                if negative {
                    if w <= 0x8000_0000 {
                        (-(w as i64)) as i32
                    } else {
                        i32::MIN
                    }
                } else if w <= 0x7fff_ffff {
                    w as i32
                } else {
                    i32::MAX
                }
            },
            None => if negative {
                i32::MIN
            } else {
                i32::MAX
            },
        }
    }

    #[verifier::when_used_as_spec(spec_to_u32)]
    pub fn to_u32(self) -> (r: u32)
        ensures
            r == self.spec_to_u32(),
    {
        if self.is_nan() || self.bits >= SIGN_UNIT {
            return 0;
        }
        let whole = if self.is_finite() {
            self.whole()
        } else {
            None
        };
        match whole {
            Some(w) => if w <= 0xffff_ffff {
                w as u32
            } else {
                u32::MAX
            },
            None => u32::MAX,
        }
    }

    pub fn zero(negative: bool) -> (r: Double)
        ensures
            r == Double::spec_zero(negative),
    {
        Double { bits: if negative { SIGN_UNIT } else { 0 } }
    }

    pub fn infinity(negative: bool) -> (r: Double)
        ensures
            r == Double::spec_infinity(negative),
    {
        Double { bits: if negative { SIGN_UNIT + INFINITY_BITS } else { INFINITY_BITS } }
    }

    /// Puts a rounded magnitude into the format.
    pub fn pack(negative: bool, quanta: u64, q: i32) -> (r: Double)
        requires
            quanta <= 0x20_0000_0000_0000,
            -1074 <= q <= 4096,
        ensures
            r == Double::spec_pack(negative, quanta as nat, q as int),
    {
        let magnitude: u64 = if q + 1074 >= 0x7ff {
            INFINITY_BITS
        } else {
            let body: u64 = (q + 1074) as u64 * FRACTION_UNIT + quanta;
            if body >= INFINITY_BITS {
                INFINITY_BITS
            } else {
                body
            }
        };
        Double { bits: if negative { SIGN_UNIT + magnitude } else { magnitude } }
    }

    #[verifier::when_used_as_spec(spec_mul)]
    pub fn mul(self, rhs: Double) -> (r: Double)
        ensures
            r == self.spec_mul(rhs),
    {
        let negative = (self.bits >= SIGN_UNIT) != (rhs.bits >= SIGN_UNIT);
        if self.is_nan() || rhs.is_nan() {
            Double { bits: NAN_BITS }
        } else if self.is_infinite() || rhs.is_infinite() {
            if self.is_zero() || rhs.is_zero() {
                Double { bits: NAN_BITS }
            } else {
                Double::infinity(negative)
            }
        } else if self.is_zero() || rhs.is_zero() {
            Double::zero(negative)
        } else {
            let (m1, e1) = self.parts();
            let (m2, e2) = rhs.parts();
            proof {
                lemma_layout_powers();
                lemma_mul_strict_upper_bound(
                    m1 as int,
                    0x20_0000_0000_0000,
                    m2 as int,
                    0x20_0000_0000_0000,
                );
                lemma_mul_strictly_positive(m1 as int, m2 as int);
            }
            let (quanta, q) = round_to_quantum(m1 as u128 * m2 as u128, e1 + e2, 53, -1074);
            proof {
                lemma_bit_length_bounds((m1 * m2) as nat);
                if bit_length((m1 * m2) as nat) > 106 {
                    lemma_pow2_strictly_increases(106, (bit_length((m1 * m2) as nat) - 1) as nat);
                }
            }
            Double::pack(negative, quanta, q)
        }
    }

    /// The binary64 number nearest to `part / whole`.
    pub fn ratio(part: u32, whole: u32) -> (r: Double)
        requires
            part <= whole,
            whole > 0,
        ensures
            r == Double::spec_ratio(part as nat, whole as nat),
    {
        if part == 0 {
            return Double::zero(false);
        }
        let mut scaled: u64 = part as u64;
        let mut i: u32 = 0;
        proof {
            lemma2_to64();
        }
        while scaled < whole as u64
            invariant
                0 < scaled < 2 * whole,
                i <= 32,
                scaled == part * pow2(i as nat),
                doublings(part as nat, whole as nat) == i + doublings(scaled as nat, whole as nat),
                scaled >= pow2(i as nat),
            decreases
                (if scaled < whole {
                    whole - scaled
                } else {
                    0
                }),
        {
            proof {
                lemma_pow2_unfold((i + 1) as nat);
                lemma_mul_is_associative(part as int, pow2(i as nat) as int, 2);
                lemma_layout_powers();
                if i >= 32 {
                    lemma_pow2_strictly_increases(32, (i + 1) as nat);
                }
            }
            scaled = scaled * 2;
            i = i + 1;
        }
        proof {
            lemma_layout_powers();
            lemma_pow2_adds(52, i as nat);
            lemma_mul_is_associative(part as int, pow2(i as nat) as int, pow2(52) as int);
            lemma_mul_is_commutative(pow2(i as nat) as int, pow2(52) as int);
        }
        let numerator: u128 = scaled as u128 * FRACTION_UNIT as u128;
        let quanta = divide_round_half_even(numerator, whole as u128);
        proof {
            // the quotient is below 2^53, so that the rounded one is at most 2^53
            lemma_fundamental_div_mod(numerator as int, whole as int);
            lemma_mod_bound(numerator as int, whole as int);
            let quotient = numerator as int / whole as int;
            assert(quotient < 0x20_0000_0000_0000) by (nonlinear_arith)
                requires
                    numerator == whole * quotient + numerator % (whole as u128),
                    0 <= numerator % (whole as u128),
                    numerator == scaled * 0x10_0000_0000_0000,
                    scaled < 2 * whole,
                    whole > 0,
            ;
        }
        Double::pack(false, quanta as u64, -(52 + i as i32))
    }
    #[verifier::when_used_as_spec(spec_from_i32)]
    pub fn from_i32(v: i32) -> (r: Double)
        ensures
            r == Double::spec_from_i32(v),
    {
        if v == 0 {
            return Double::zero(false);
        }
        let mag: u128 = if v < 0 {
            (-(v as i64)) as u128
        } else {
            v as u128
        };
        proof {
            lemma_layout_powers();
        }
        let (quanta, q) = round_to_quantum(mag, 0, 53, -1074);
        proof {
            lemma_bit_length_bounds(mag as nat);
            if bit_length(mag as nat) > 33 {
                lemma_pow2_strictly_increases(32, (bit_length(mag as nat) - 1) as nat);
            }
        }
        Double::pack(v < 0, quanta, q)
    }

    /// A finite number that is not zero is its own sign, exponent and significand, put together.
    pub proof fn lemma_pack_parts(self)
        requires
            self.spec_is_finite(),
            !self.spec_is_zero(),
        ensures
            Double::spec_pack(self.negative(), self.significand(), self.exponent()) == self,
    {
    }

    /// What was put together comes apart again: a significand of 53 digits, or of fewer at the
    /// least exponent, and an exponent within the format.
    pub proof fn lemma_parts_of_pack(negative: bool, quanta: nat, q: int)
        requires
            -1074 <= q <= 971,
            quanta < 0x20_0000_0000_0000,
            q > -1074 ==> quanta >= FRACTION_UNIT,
        ensures
            ({
                let d = Double::spec_pack(negative, quanta, q);
                &&& d.spec_is_finite()
                &&& d.negative() == negative
                &&& d.significand() == quanta
                &&& d.exponent() == q
            }),
    {
    }

    /// Every `i32` comes back from its binary64 number.
    pub proof fn lemma_from_i32_to_i32(v: i32)
        ensures
            Double::spec_from_i32(v).spec_to_i32() == v,
    {
        lemma_layout_powers();
        lemma2_to64();
        if v == 0 {
            lemma_pow2_pos(1074);
            lemma_div_of0(pow2(1074) as int);
        } else {
            let mag = (if v < 0 {
                -v
            } else {
                v as int
            }) as nat;
            let l = bit_length(mag);
            lemma_bit_length_bounds(mag);
            if l > 33 {
                lemma_pow2_strictly_increases(32, (l - 1) as nat);
            }
            let shift = (53 - l) as nat;
            let quanta = mag * pow2(shift);
            lemma_pow2_adds(l, shift);
            lemma_pow2_adds((l - 1) as nat, shift);
            lemma_pow2_pos(shift);
            lemma_mul_strict_inequality(mag as int, pow2(l) as int, pow2(shift) as int);
            lemma_mul_inequality(pow2((l - 1) as nat) as int, mag as int, pow2(shift) as int);
            assert(quantum(mag, 0, 53, -1074) == l - 53);
            assert(quanta == rounded(mag, 0, 53, -1074));
            Double::lemma_parts_of_pack(v < 0, quanta, l - 53);
            lemma_mul_is_commutative(mag as int, pow2(shift) as int);
            lemma_div_multiples_vanish(mag as int, pow2(shift) as int);
            let d = Double::spec_from_i32(v);
            assert(d == Double::spec_pack(v < 0, quanta, l - 53));
            assert(d.exponent() == l - 53);
            assert((-d.exponent()) as nat == shift);
            assert(d.whole_part() == quanta / pow2(shift));
            assert(d.whole_part() == mag);
        }
    }

    /// A whole taken as a part of itself is 1.
    pub proof fn lemma_ratio_of_whole(whole: nat)
        requires
            whole > 0,
        ensures
            Double::spec_ratio(whole, whole) == Double::spec_one(),
    {
        lemma_layout_powers();
        lemma_round_exact(pow2(52), whole);
        lemma_mul_is_commutative(pow2(52) as int, whole as int);
        assert(doublings(whole, whole) == 0);
        assert(pow2(52 + 0) == pow2(52));
    }

    /// Multiplying by 1 changes no number. (A NaN becomes the NaN of `NAN_BITS`.)
    pub proof fn lemma_mul_one(self)
        requires
            !self.spec_is_nan(),
        ensures
            self.spec_mul(Double::spec_one()) == self,
    {
        lemma_layout_powers();
        let one = Double::spec_one();
        assert(one.biased_exponent() == 1023 && one.fraction() == 0);
        if self.spec_is_finite() && !self.spec_is_zero() {
            let m = self.significand();
            let e = self.exponent();
            lemma_bit_length_shift(m, 52);
            lemma_bit_length_bounds(m);
            if m >= FRACTION_UNIT {
                lemma_bit_length_unique(m, 53);
            } else if bit_length(m) > 53 {
                lemma_pow2_strictly_increases(52, (bit_length(m) - 1) as nat);
            }
            assert(one.significand() == pow2(52) && one.exponent() == -52);
            assert(quantum(m * pow2(52), e - 52, 53, -1074) == e);
            lemma_round_exact(m, pow2(52));
            assert(rounded(m * pow2(52), e - 52, 53, -1074) == m);
            self.lemma_pack_parts();
        }
    }
}

} // verus!
