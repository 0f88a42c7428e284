//! Rounding of exact binary values, as IEEE 754 does it in its default mode: to the nearest
//! representable value, and to the one with an even significand where two are equally near.
//!
//! A value is given exactly as `mag * 2^exp`. A format is given by its precision, the number of
//! binary digits of a significand, and by the exponent of its least quantum, below which it has
//! no digits.

use vstd::prelude::*;
use vstd::arithmetic::power2::*;
use vstd::arithmetic::div_mod::*;
use vstd::arithmetic::mul::*;

verus! {

/// The number of binary digits of `m`: the least `l` with `m < 2^l`.
pub open spec fn bit_length(m: nat) -> nat
    decreases m,
{
    if m == 0 {
        0
    } else {
        1 + bit_length(m / 2)
    }
}

/// The integer nearest to `n / d`, and the even one of the two where `n / d` lies half way.
pub open spec fn round_half_even(n: nat, d: nat) -> nat
    recommends
        d > 0,
{
    let q = n / d;
    let r = n % d;
    if 2 * r < d || (2 * r == d && q % 2 == 0) {
        q
    } else {
        q + 1
    }
}

/// The exponent of the quantum in which `mag * 2^exp` is rounded: the one that leaves `prec`
/// digits, but not below `qmin`.
pub open spec fn quantum(mag: nat, exp: int, prec: nat, qmin: int) -> int {
    let q = bit_length(mag) + exp - prec;
    if q < qmin {
        qmin
    } else {
        q
    }
}

/// The number of quanta nearest to `mag * 2^exp`, ties to even. The rounded value is this
/// number times `2^quantum(..)`.
pub open spec fn rounded(mag: nat, exp: int, prec: nat, qmin: int) -> nat {
    let q = quantum(mag, exp, prec, qmin);
    if q >= exp {
        round_half_even(mag, pow2((q - exp) as nat))
    } else {
        mag * pow2((exp - q) as nat)
    }
}

/// `m` has at most `bit_length(m)` digits, and no fewer.
pub proof fn lemma_bit_length_bounds(m: nat)
    ensures
        m < pow2(bit_length(m)),
        m > 0 ==> pow2((bit_length(m) - 1) as nat) <= m,
    decreases m,
{
    lemma2_to64();
    if m > 0 {
        lemma_bit_length_bounds(m / 2);
        let l = bit_length(m / 2);
        lemma_pow2_unfold(l + 1);
        if m / 2 > 0 {
            lemma_pow2_unfold(l);
        }
    }
}

/// The digit count is the only `l` with `2^(l-1) <= m < 2^l`.
pub proof fn lemma_bit_length_unique(m: nat, l: nat)
    requires
        m < pow2(l),
        l > 0 ==> pow2((l - 1) as nat) <= m,
    ensures
        bit_length(m) == l,
{
    lemma_bit_length_bounds(m);
    lemma2_to64();
    let b = bit_length(m);
    if b < l {
        if b < l - 1 {
            lemma_pow2_strictly_increases(b, (l - 1) as nat);
        }
    } else if l < b {
        if l < b - 1 {
            lemma_pow2_strictly_increases(l, (b - 1) as nat);
        }
    }
}

/// Multiplying by `2^k` adds `k` digits.
pub proof fn lemma_bit_length_shift(m: nat, k: nat)
    requires
        m > 0,
    ensures
        bit_length(m * pow2(k)) == bit_length(m) + k,
{
    lemma_bit_length_bounds(m);
    let l = bit_length(m);
    lemma_pow2_adds(l, k);
    lemma_pow2_adds((l - 1) as nat, k);
    lemma_pow2_pos(k);
    lemma_mul_strict_inequality(m as int, pow2(l) as int, pow2(k) as int);
    lemma_mul_inequality(pow2((l - 1) as nat) as int, m as int, pow2(k) as int);
    lemma_bit_length_unique(m * pow2(k), l + k);
}

/// Rounding gives a nearest integer: it is half a unit from `n / d` at most, and even where it
/// is exactly half a unit away.
pub proof fn lemma_round_is_nearest(n: nat, d: nat)
    requires
        d > 0,
    ensures
        ({
            let r = round_half_even(n, d);
            &&& -(d as int) <= 2 * (r * d - n) <= d
            &&& (2 * (r * d - n) == d || 2 * (r * d - n) == -(d as int)) ==> r % 2 == 0
        }),
{
    let q = n / d;
    let rest = n % d;
    lemma_fundamental_div_mod(n as int, d as int);
    lemma_mod_bound(n as int, d as int);
    lemma_mul_is_commutative(d as int, q as int);
    lemma_mul_is_distributive_add_other_way(d as int, q as int, 1);
}

/// A value below half a quantum rounds to no quantum at all.
pub proof fn lemma_round_small(n: nat, d: nat)
    requires
        2 * n < d,
    ensures
        round_half_even(n, d) == 0,
{
    lemma_small_mod(n, d);
    lemma_basic_div(n as int, d as int);
}

/// A whole number of quanta is left as it is.
pub proof fn lemma_round_exact(n: nat, d: nat)
    requires
        d > 0,
    ensures
        round_half_even(n * d, d) == n,
{
    lemma_mul_is_commutative(n as int, d as int);
    lemma_div_multiples_vanish(n as int, d as int);
    lemma_mod_multiples_basic(n as int, d as int);
}

/// `2^e` as a machine integer.
pub fn power_of_two(e: u32) -> (r: u128)
    requires
        e < 128,
    ensures
        r == pow2(e as nat),
{
    let mut r: u128 = 1;
    let mut i: u32 = 0;
    proof {
        lemma2_to64();
    }
    while i < e
        invariant
            i <= e < 128,
            r == pow2(i as nat),
        decreases e - i,
    {
        proof {
            lemma_pow2_unfold((i + 1) as nat);
            lemma_pow2_strictly_increases((i + 1) as nat, 128);
            lemma_pow2_adds(64, 64);
            lemma2_to64();
        }
        r = r * 2;
        i = i + 1;
    }
    r
}

/// The digit count of a machine integer.
pub fn count_bits(m: u128) -> (l: u32)
    ensures
        l == bit_length(m as nat),
        l <= 128,
{
    let mut rest: u128 = m;
    let mut l: u32 = 0;
    proof {
        lemma_bit_length_bounds(m as nat);
        lemma_pow2_adds(64, 64);
        lemma2_to64();
        if bit_length(m as nat) > 128 {
            lemma_pow2_strictly_increases(128, (bit_length(m as nat) - 1) as nat);
        }
    }
    while rest > 0
        invariant
            bit_length(m as nat) == l + bit_length(rest as nat),
            bit_length(m as nat) <= 128,
        decreases rest,
    {
        rest = rest / 2;
        l = l + 1;
    }
    l
}

/// Division by `d` that rounds to the nearest integer, ties to even.
pub fn divide_round_half_even(n: u128, d: u128) -> (r: u128)
    requires
        d > 0,
    ensures
        r == round_half_even(n as nat, d as nat),
{
    let q = n / d;
    let rem = n % d;
    let rest = d - rem;
    proof {
        lemma_fundamental_div_mod(n as int, d as int);
        lemma_mul_is_commutative(d as int, (n as int) / (d as int));
        if q == u128::MAX {
            assert(d == 1 && rem == 0) by (nonlinear_arith)
                requires
                    n == q * d + rem,
                    n <= u128::MAX,
                    q == u128::MAX,
                    d >= 1,
                    rem >= 0,
            ;
        }
    }
    if rem < rest || (rem == rest && q % 2 == 0) {
        q
    } else {
        q + 1
    }
}

/// Rounds `mag * 2^exp` to a format of `prec` digits whose least quantum is `2^qmin`. Returns the
/// number of quanta and the exponent of the quantum.
pub fn round_to_quantum(mag: u128, exp: i32, prec: u32, qmin: i32) -> (r: (u64, i32))
    requires
        0 < mag < pow2(127),
        1 <= prec <= 63,
        -4096 <= exp <= 4096,
        -4096 <= qmin <= 4096,
    ensures
        r.0 == rounded(mag as nat, exp as int, prec as nat, qmin as int),
        r.1 == quantum(mag as nat, exp as int, prec as nat, qmin as int),
        r.0 <= pow2(prec as nat),
{
    let l = count_bits(mag);
    proof {
        lemma_bit_length_bounds(mag as nat);
        if l > 127 {
            lemma_pow2_strictly_increases(127, (l - 1) as nat);
        }
    }
    let natural: i32 = l as i32 + exp - prec as i32;
    let q: i32 = if natural < qmin { qmin } else { natural };
    if q >= exp {
        let s: i32 = q - exp;
        if s >= 128 {
            proof {
                if s > 128 {
                    lemma_pow2_strictly_increases(127, (s - 1) as nat);
                }
                lemma_pow2_unfold(s as nat);
                lemma_round_small(mag as nat, pow2(s as nat));
            }
            (0, q)
        } else {
            let unit = power_of_two(s as u32);
            proof {
                lemma_pow2_pos(s as nat);
            }
            let n = divide_round_half_even(mag, unit);
            proof {
                lemma_round_bound(mag as nat, s as nat, prec as nat);
                lemma_pow2_strictly_increases(prec as nat, 64);
                lemma2_to64();
            }
            (n as u64, q)
        }
    } else {
        let s: i32 = exp - q;
        proof {
            lemma_pow2_adds(l as nat, s as nat);
            lemma_pow2_pos(s as nat);
            lemma_mul_strict_inequality(mag as int, pow2(l as nat) as int, pow2(s as nat) as int);
            if l + s < prec {
                lemma_pow2_strictly_increases((l + s) as nat, prec as nat);
            }
            lemma_pow2_strictly_increases(prec as nat, 64);
            lemma_pow2_strictly_increases(s as nat, 64);
            lemma2_to64();
        }
        let unit = power_of_two(s as u32);
        ((mag * unit) as u64, q)
    }
}

/// Rounding away at least `l - prec` of the `l` digits of `mag` leaves at most `2^prec` quanta.
pub proof fn lemma_round_bound(mag: nat, s: nat, prec: nat)
    requires
        bit_length(mag) <= s + prec,
    ensures
        round_half_even(mag, pow2(s)) <= pow2(prec),
{
    lemma_bit_length_bounds(mag);
    let l = bit_length(mag);
    let d = pow2(s);
    lemma_pow2_pos(s);
    lemma_pow2_adds(s, prec);
    if l < s + prec {
        lemma_pow2_strictly_increases(l, s + prec);
    }
    // mag < d * 2^prec, so the quotient is below 2^prec
    lemma_fundamental_div_mod(mag as int, d as int);
    lemma_mod_bound(mag as int, d as int);
    let q = mag / d;
    assert(q < pow2(prec)) by (nonlinear_arith)
        requires
            mag == d * q + mag % d,
            0 <= mag % d,
            mag < d * pow2(prec),
            d > 0,
    ;
}

} // verus!
