//! IEEE 754 binary32 numbers, held by their bit pattern and worked on with integers only.
//!
//! The drawing commands carry coordinates in this format, and the transform is kept in it. Here
//! are the conversion from binary64 and the sum and the product of two numbers, each rounded to
//! nearest, ties to even.

use vstd::prelude::*;
use vstd::arithmetic::power2::*;
use vstd::arithmetic::div_mod::*;
use vstd::arithmetic::mul::*;
use crate::double::Double;
use crate::ieee::{
    bit_length, lemma_bit_length_bounds, lemma_bit_length_unique, power_of_two, quantum,
    round_to_quantum, rounded,
};

verus! {

/// The weight of the lowest exponent bit, `2^23`.
pub const SINGLE_FRACTION_UNIT: u32 = 0x80_0000;

/// The weight of the sign bit, `2^31`.
pub const SINGLE_SIGN_UNIT: u32 = 0x8000_0000;

/// The bit pattern of positive infinity, and the least pattern that is not a finite magnitude.
pub const SINGLE_INFINITY_BITS: u32 = 0x7f80_0000;

/// The bit pattern of the NaN that the operations here return.
pub const SINGLE_NAN_BITS: u32 = 0x7fc0_0000;

/// The bit pattern of 1.
pub const SINGLE_ONE_BITS: u32 = 0x3f80_0000;

/// A binary32 number, by its bit pattern. Two are equal where their bits are.
#[derive(Clone, Copy, Debug, PartialEq, Eq, Structural)]
pub struct Single {
    pub bits: u32,
}

/// `magnitude`, negated where `negative` is set.
pub open spec fn signed(negative: bool, magnitude: nat) -> int {
    if negative {
        -(magnitude as int)
    } else {
        magnitude as int
    }
}

/// The powers of two that the binary32 layout and its sums are made of.
pub proof fn lemma_single_powers()
    ensures
        pow2(0) == 1,
        pow2(8) == 0x100,
        pow2(23) == 0x80_0000,
        pow2(24) == 0x100_0000,
        pow2(25) == 0x200_0000,
        pow2(31) == 0x8000_0000,
        pow2(48) == 0x1_0000_0000_0000,
        pow2(53) == 0x20_0000_0000_0000,
        pow2(64) == 0x1_0000_0000_0000_0000,
        pow2(100) == 0x10_0000_0000_0000_0000_0000_0000,
        pow2(127) == 0x8000_0000_0000_0000_0000_0000_0000_0000,
{
    lemma2_to64();
    lemma_pow2_adds(24, 24);
    lemma_pow2_adds(32, 21);
    lemma_pow2_adds(64, 36);
    lemma_pow2_adds(32, 4);
    lemma_pow2_adds(64, 63);
    lemma_pow2_adds(32, 31);
}

/// Far below a normal significand, a second number leaves no trace. Let `big` be a significand
/// of 24 digits and `small` one of at most 24, at an exponent `gap` below: the sum or the
/// difference of `big * 2^gap` and `small`, rounded to 24 digits, is `big * 2^gap` again. Here
/// `low` is the exponent of `small`, and the conclusion compares the packed magnitudes.
pub proof fn lemma_absorbed(big: nat, small: nat, gap: nat, plus: bool, low: int)
    requires
        0x80_0000 <= big < 0x100_0000,
        small < 0x100_0000,
        gap >= 27,
        low >= -149,
    ensures
        ({
            let a: int = if plus {
                (big * pow2(gap) + small) as int
            } else {
                big * pow2(gap) - small
            };
            &&& a > 0
            &&& (quantum(a as nat, low, 24, -149) + 149) * 0x80_0000 + rounded(
                a as nat,
                low,
                24,
                -149,
            ) == (low + gap + 149) * 0x80_0000 + big
        }),
{
    lemma_single_powers();
    let unit = pow2(gap);
    let half = pow2((gap - 1) as nat);
    lemma_pow2_unfold(gap);
    lemma_pow2_strictly_increases(25, (gap - 1) as nat);
    lemma_pow2_adds(23, gap);
    lemma_pow2_adds(24, gap);
    lemma_pow2_adds(22, gap);
    lemma2_to64();
    assert(unit == 2 * half);
    assert(half > 0x200_0000);
    assert(0x80_0000 * unit <= big * unit < 0x100_0000 * unit) by (nonlinear_arith)
        requires
            0x80_0000 <= big < 0x100_0000,
            unit > 0,
    ;
    if plus || small == 0 {
        let a = (big * unit + small) as nat;
        assert(a < 0x100_0000 * unit) by (nonlinear_arith)
            requires
                a == big * unit + small,
                big < 0x100_0000,
                small < unit,
        ;
        lemma_bit_length_unique(a, 24 + gap);
        lemma_fundamental_div_mod_converse(a as int, unit as int, big as int, small as int);
    } else if big > 0x80_0000 {
        let a = (big * unit - small) as nat;
        assert(a == (big - 1) * unit + (unit - small) && (big - 1) * unit >= 0x80_0000 * unit)
            by (nonlinear_arith)
            requires
                a == big * unit - small,
                big > 0x80_0000,
                unit > 0,
        ;
        lemma_bit_length_unique(a, 24 + gap);
        lemma_fundamental_div_mod_converse(
            a as int,
            unit as int,
            big - 1,
            unit - small,
        );
    } else {
        let a = (big * unit - small) as nat;
        assert(a == 0xff_ffff * half + (half - small) && 0x80_0000 * unit == 0x100_0000 * half
            && 0x40_0000 * unit == 0x80_0000 * half) by (nonlinear_arith)
            requires
                a == big * unit - small,
                big == 0x80_0000,
                unit == 2 * half,
        ;
        assert(0x80_0000 * half - small >= 0x40_0000 * half) by (nonlinear_arith)
            requires
                half > 0x200_0000,
                small < 0x100_0000,
        ;
        assert(a >= pow2(22 + gap));
        lemma_bit_length_unique(a, 23 + gap);
        lemma_fundamental_div_mod_converse(
            a as int,
            half as int,
            0xff_ffff,
            half - small,
        );
    }
}

impl Single {
    /// Whether the sign bit is set.
    pub open spec fn negative(self) -> bool {
        self.bits >= SINGLE_SIGN_UNIT
    }

    /// The eight exponent bits.
    pub open spec fn biased_exponent(self) -> nat {
        ((self.bits / SINGLE_FRACTION_UNIT) % 0x100) as nat
    }

    /// The twenty-three fraction bits.
    pub open spec fn fraction(self) -> nat {
        (self.bits % SINGLE_FRACTION_UNIT) as nat
    }

    /// Not a number: the exponent bits are all set, and the fraction is not zero.
    pub open spec fn spec_is_nan(self) -> bool {
        self.biased_exponent() == 0xff && self.fraction() != 0
    }

    /// An infinity: the exponent bits are all set, and the fraction is zero.
    pub open spec fn spec_is_infinite(self) -> bool {
        self.biased_exponent() == 0xff && self.fraction() == 0
    }

    /// Neither NaN nor an infinity.
    pub open spec fn spec_is_finite(self) -> bool {
        self.biased_exponent() < 0xff
    }

    /// The significand of a finite number: the fraction, with the hidden bit for a normal one.
    pub open spec fn significand(self) -> nat {
        if self.biased_exponent() == 0 {
            self.fraction()
        } else {
            self.fraction() + SINGLE_FRACTION_UNIT as nat
        }
    }

    /// The exponent of the lowest bit of the significand.
    pub open spec fn exponent(self) -> int {
        if self.biased_exponent() == 0 {
            -149
        } else {
            self.biased_exponent() - 150
        }
    }

    /// Positive or negative zero.
    pub open spec fn spec_is_zero(self) -> bool {
        self.biased_exponent() == 0 && self.fraction() == 0
    }

    /// Zero of the given sign.
    pub open spec fn spec_zero(negative: bool) -> Single {
        Single { bits: if negative { SINGLE_SIGN_UNIT } else { 0 } }
    }

    /// The number 1.
    pub open spec fn spec_one() -> Single {
        Single { bits: SINGLE_ONE_BITS }
    }

    /// The infinity of the given sign.
    pub open spec fn spec_infinity(negative: bool) -> Single {
        Single {
            bits: if negative {
                (SINGLE_SIGN_UNIT + SINGLE_INFINITY_BITS) as u32
            } else {
                SINGLE_INFINITY_BITS
            },
        }
    }

    /// The NaN that the operations here return.
    pub open spec fn spec_nan() -> Single {
        Single { bits: SINGLE_NAN_BITS }
    }

    /// The number of `quanta` quanta of `2^q`, where `q` is at least -149 and `quanta` has 24
    /// digits, or fewer where `q` is -149. The exponent field counts the quanta's exponent from
    /// -150; a 24th digit of `quanta` adds the one that the hidden bit stands for. A number too
    /// large for the format is an infinity.
    pub open spec fn spec_pack(negative: bool, quanta: nat, q: int) -> Single {
        let body = (q + 149) * SINGLE_FRACTION_UNIT + quanta;
        let magnitude = if body >= SINGLE_INFINITY_BITS {
            SINGLE_INFINITY_BITS as int
        } else {
            body
        };
        Single { bits: (if negative { SINGLE_SIGN_UNIT + magnitude } else { magnitude }) as u32 }
    }

    /// `mag * 2^exp`, for a `mag` that is not zero, rounded to binary32.
    pub open spec fn spec_round(negative: bool, mag: nat, exp: int) -> Single {
        Single::spec_pack(negative, rounded(mag, exp, 24, -149), quantum(mag, exp, 24, -149))
    }

    /// The binary32 number nearest to a binary64 number. Every NaN becomes the one of
    /// `SINGLE_NAN_BITS`.
    pub open spec fn spec_from_double(d: Double) -> Single {
        if d.spec_is_nan() {
            Single::spec_nan()
        } else if d.spec_is_infinite() {
            Single::spec_infinity(d.negative())
        } else if d.spec_is_zero() {
            Single::spec_zero(d.negative())
        } else {
            Single::spec_round(d.negative(), d.significand(), d.exponent())
        }
    }

    /// The product as IEEE 754 defines it, rounded to nearest, ties to even. Every NaN result is
    /// the one of `SINGLE_NAN_BITS`.
    pub open spec fn spec_mul(self, rhs: Single) -> Single {
        let negative = self.negative() != rhs.negative();
        if self.spec_is_nan() || rhs.spec_is_nan() {
            Single::spec_nan()
        } else if self.spec_is_infinite() || rhs.spec_is_infinite() {
            if self.spec_is_zero() || rhs.spec_is_zero() {
                Single::spec_nan()
            } else {
                Single::spec_infinity(negative)
            }
        } else if self.spec_is_zero() || rhs.spec_is_zero() {
            Single::spec_zero(negative)
        } else {
            Single::spec_round(
                negative,
                self.significand() * rhs.significand(),
                self.exponent() + rhs.exponent(),
            )
        }
    }

    /// The lesser of the exponents of two finite numbers: the sum of the two is a whole multiple
    /// of `2^common_exponent`.
    pub open spec fn common_exponent(self, rhs: Single) -> int {
        if self.exponent() <= rhs.exponent() {
            self.exponent()
        } else {
            rhs.exponent()
        }
    }

    /// A finite number as a multiple of `2^exp`, for an `exp` that is not above its exponent.
    pub open spec fn multiple_of(self, exp: int) -> int {
        signed(self.negative(), self.significand() * pow2((self.exponent() - exp) as nat))
    }

    /// The sum as IEEE 754 defines it, rounded to nearest, ties to even. A sum that is exactly
    /// zero is negative only where both numbers are. Every NaN result is the one of
    /// `SINGLE_NAN_BITS`.
    pub open spec fn spec_add(self, rhs: Single) -> Single {
        if self.spec_is_nan() || rhs.spec_is_nan() {
            Single::spec_nan()
        } else if self.spec_is_infinite() {
            if rhs.spec_is_infinite() && self.negative() != rhs.negative() {
                Single::spec_nan()
            } else {
                Single::spec_infinity(self.negative())
            }
        } else if rhs.spec_is_infinite() {
            Single::spec_infinity(rhs.negative())
        } else {
            let exp = self.common_exponent(rhs);
            let sum = self.multiple_of(exp) + rhs.multiple_of(exp);
            if sum == 0 {
                Single::spec_zero(self.negative() && rhs.negative())
            } else if sum < 0 {
                Single::spec_round(true, (-sum) as nat, exp)
            } else {
                Single::spec_round(false, sum as nat, exp)
            }
        }
    }

    /// The number of a bit pattern.
    pub fn from_bits(bits: u32) -> (r: Single)
        ensures
            r.bits == bits,
    {
        Single { bits }
    }

    /// The bit pattern of the number.
    pub fn to_bits(self) -> (r: u32)
        ensures
            r == self.bits,
    {
        self.bits
    }

    #[verifier::when_used_as_spec(spec_is_nan)]
    pub fn is_nan(self) -> (r: bool)
        ensures
            r == self.spec_is_nan(),
    {
        (self.bits / SINGLE_FRACTION_UNIT) % 0x100 == 0xff && self.bits % SINGLE_FRACTION_UNIT != 0
    }

    #[verifier::when_used_as_spec(spec_is_infinite)]
    pub fn is_infinite(self) -> (r: bool)
        ensures
            r == self.spec_is_infinite(),
    {
        (self.bits / SINGLE_FRACTION_UNIT) % 0x100 == 0xff && self.bits % SINGLE_FRACTION_UNIT == 0
    }

    #[verifier::when_used_as_spec(spec_is_zero)]
    pub fn is_zero(self) -> (r: bool)
        ensures
            r == self.spec_is_zero(),
    {
        (self.bits / SINGLE_FRACTION_UNIT) % 0x100 == 0 && self.bits % SINGLE_FRACTION_UNIT == 0
    }

    pub fn zero(negative: bool) -> (r: Single)
        ensures
            r == Single::spec_zero(negative),
    {
        Single { bits: if negative { SINGLE_SIGN_UNIT } else { 0 } }
    }

    pub fn one() -> (r: Single)
        ensures
            r == Single::spec_one(),
    {
        Single { bits: SINGLE_ONE_BITS }
    }

    pub fn infinity(negative: bool) -> (r: Single)
        ensures
            r == Single::spec_infinity(negative),
    {
        Single {
            bits: if negative {
                SINGLE_SIGN_UNIT + SINGLE_INFINITY_BITS
            } else {
                SINGLE_INFINITY_BITS
            },
        }
    }

    pub fn nan() -> (r: Single)
        ensures
            r == Single::spec_nan(),
    {
        Single { bits: SINGLE_NAN_BITS }
    }

    /// The significand and the exponent of a finite number.
    pub fn parts(self) -> (r: (u32, i32))
        requires
            self.spec_is_finite(),
        ensures
            r.0 == self.significand(),
            r.1 == self.exponent(),
            r.0 < 0x100_0000,
            -149 <= r.1 <= 104,
            r.1 > -149 ==> r.0 >= SINGLE_FRACTION_UNIT,
    {
        let biased = (self.bits / SINGLE_FRACTION_UNIT) % 0x100;
        let fraction = self.bits % SINGLE_FRACTION_UNIT;
        if biased == 0 {
            (fraction, -149)
        } else {
            (fraction + SINGLE_FRACTION_UNIT, biased as i32 - 150)
        }
    }

    /// Puts a rounded magnitude into the format.
    pub fn pack(negative: bool, quanta: u64, q: i32) -> (r: Single)
        requires
            quanta <= 0x100_0000,
            -149 <= q <= 4096,
        ensures
            r == Single::spec_pack(negative, quanta as nat, q as int),
    {
        let magnitude: u32 = if q + 149 >= 0xff {
            SINGLE_INFINITY_BITS
        } else {
            let body: u32 = (q + 149) as u32 * SINGLE_FRACTION_UNIT + quanta as u32;
            if body >= SINGLE_INFINITY_BITS {
                SINGLE_INFINITY_BITS
            } else {
                body
            }
        };
        Single { bits: if negative { SINGLE_SIGN_UNIT + magnitude } else { magnitude } }
    }

    /// Rounds `mag * 2^exp` into the format.
    pub fn round(negative: bool, mag: u128, exp: i32) -> (r: Single)
        requires
            0 < mag < pow2(127),
            -2200 <= exp <= 2200,
        ensures
            r == Single::spec_round(negative, mag as nat, exp as int),
    {
        let (quanta, q) = round_to_quantum(mag, exp, 24, -149);
        proof {
            lemma_single_powers();
            lemma_bit_length_bounds(mag as nat);
            if bit_length(mag as nat) > 127 {
                lemma_pow2_strictly_increases(127, (bit_length(mag as nat) - 1) as nat);
            }
        }
        Single::pack(negative, quanta, q)
    }

    pub fn from_double(d: Double) -> (r: Single)
        ensures
            r == Single::spec_from_double(d),
    {
        let negative = d.bits >= crate::double::SIGN_UNIT;
        if d.is_nan() {
            Single::nan()
        } else if d.is_infinite() {
            Single::infinity(negative)
        } else if d.is_zero() {
            Single::zero(negative)
        } else {
            let (significand, exponent) = d.parts();
            proof {
                lemma_single_powers();
            }
            Single::round(negative, significand as u128, exponent)
        }
    }

    #[verifier::when_used_as_spec(spec_mul)]
    pub fn mul(self, rhs: Single) -> (r: Single)
        ensures
            r == self.spec_mul(rhs),
    {
        let negative = (self.bits >= SINGLE_SIGN_UNIT) != (rhs.bits >= SINGLE_SIGN_UNIT);
        if self.is_nan() || rhs.is_nan() {
            Single::nan()
        } else if self.is_infinite() || rhs.is_infinite() {
            if self.is_zero() || rhs.is_zero() {
                Single::nan()
            } else {
                Single::infinity(negative)
            }
        } else if self.is_zero() || rhs.is_zero() {
            Single::zero(negative)
        } else {
            let (m1, e1) = self.parts();
            let (m2, e2) = rhs.parts();
            proof {
                lemma_single_powers();
                lemma_mul_strict_upper_bound(m1 as int, 0x100_0000, m2 as int, 0x100_0000);
                lemma_mul_strictly_positive(m1 as int, m2 as int);
            }
            Single::round(negative, m1 as u128 * m2 as u128, e1 + e2)
        }
    }
    /// A finite number is its own sign, exponent field and fraction, put together.
    pub proof fn lemma_pack_parts(self)
        requires
            self.spec_is_finite(),
            !self.spec_is_zero(),
        ensures
            Single::spec_pack(self.negative(), self.significand(), self.exponent()) == self,
    {
    }

    /// The sum of two finite numbers of which the first has the greater exponent, or the same.
    fn sum_ordered(high: Single, low: Single) -> (r: Single)
        requires
            high.spec_is_finite(),
            low.spec_is_finite(),
            high.exponent() >= low.exponent(),
        ensures
            r == high.spec_add(low),
            r == low.spec_add(high),
    {
        let high_negative = high.bits >= SINGLE_SIGN_UNIT;
        let low_negative = low.bits >= SINGLE_SIGN_UNIT;
        let (mh, eh) = high.parts();
        let (ml, el) = low.parts();
        let gap: i32 = eh - el;
        proof {
            lemma_single_powers();
            lemma_mul_basics(ml as int);
            assert(high.common_exponent(low) == el && low.common_exponent(high) == el);
            assert(low.multiple_of(el as int) == signed(low_negative, ml as nat));
            assert(high.multiple_of(el as int) == signed(
                high_negative,
                (mh * pow2(gap as nat)) as nat,
            ));
        }
        if gap > 100 {
            proof {
                lemma_absorbed(
                    mh as nat,
                    ml as nat,
                    gap as nat,
                    high_negative == low_negative,
                    el as int,
                );
                lemma_pow2_strictly_increases(24, gap as nat);
                assert(mh * pow2(gap as nat) >= pow2(gap as nat)) by (nonlinear_arith)
                    requires
                        mh >= 1,
                ;
                high.lemma_pack_parts();
            }
            high
        } else {
            let unit = power_of_two(gap as u32);
            proof {
                if gap < 100 {
                    lemma_pow2_strictly_increases(gap as nat, 100);
                }
                lemma_pow2_pos(gap as nat);
                assert(mh * unit < 0x100_0000 * 0x10_0000_0000_0000_0000_0000_0000 + 1)
                    by (nonlinear_arith)
                    requires
                        mh < 0x100_0000,
                        0 < unit <= 0x10_0000_0000_0000_0000_0000_0000,
                ;
            }
            let ah: u128 = mh as u128 * unit;
            let al: u128 = ml as u128;
            if high_negative == low_negative {
                if ah + al == 0 {
                    Single::zero(high_negative)
                } else {
                    Single::round(high_negative, ah + al, el)
                }
            } else if ah > al {
                Single::round(high_negative, ah - al, el)
            } else if ah < al {
                Single::round(low_negative, al - ah, el)
            } else {
                Single::zero(false)
            }
        }
    }

    #[verifier::when_used_as_spec(spec_add)]
    pub fn add(self, rhs: Single) -> (r: Single)
        ensures
            r == self.spec_add(rhs),
    {
        if self.is_nan() || rhs.is_nan() {
            Single::nan()
        } else if self.is_infinite() {
            if rhs.is_infinite() && (self.bits >= SINGLE_SIGN_UNIT) != (rhs.bits
                >= SINGLE_SIGN_UNIT) {
                Single::nan()
            } else {
                Single::infinity(self.bits >= SINGLE_SIGN_UNIT)
            }
        } else if rhs.is_infinite() {
            Single::infinity(rhs.bits >= SINGLE_SIGN_UNIT)
        } else {
            let (_, e1) = self.parts();
            let (_, e2) = rhs.parts();
            if e1 >= e2 {
                Single::sum_ordered(self, rhs)
            } else {
                Single::sum_ordered(rhs, self)
            }
        }
    }
}

} // verus!
