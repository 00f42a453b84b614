//! Fixed-point numeric kernel: integer square root, a base-2 logarithm and a
//! decaying exponential, all over plain integers.  Scores and exponents in
//! the rest of the crate are held in units of one millionth ("micro" units),
//! so these routines work to that resolution.

use vstd::prelude::*;

verus! {

use vstd::arithmetic::power2::{pow2, lemma_pow2_strictly_increases, lemma_pow2_unfold, lemma2_to64};

/// Holds exactly when `r` is the integer square root of `x`.
pub open spec fn is_isqrt(x: int, r: int) -> bool {
    &&& 0 <= r
    &&& r * r <= x
    &&& x < (r + 1) * (r + 1)
}

/// The integer square root as a specification-level function.
pub open spec fn spec_isqrt(x: int) -> int {
    choose|r: int| is_isqrt(x, r)
}

/// The integer square root of a nonnegative number is unique.
pub proof fn lemma_isqrt_unique(x: int, r1: int, r2: int)
    requires
        is_isqrt(x, r1),
        is_isqrt(x, r2),
    ensures
        r1 == r2,
{
    if r1 < r2 {
        assert((r1 + 1) * (r1 + 1) <= r2 * r2) by (nonlinear_arith)
            requires 0 <= r1 && r1 < r2;
    }
    if r2 < r1 {
        assert((r2 + 1) * (r2 + 1) <= r1 * r1) by (nonlinear_arith)
            requires 0 <= r2 && r2 < r1;
    }
}

/// Any witness of `is_isqrt` equals `spec_isqrt`.
pub proof fn lemma_isqrt_is(x: int, r: int)
    requires
        is_isqrt(x, r),
    ensures
        spec_isqrt(x) == r,
{
    let w = choose|w: int| is_isqrt(x, w);
    lemma_isqrt_unique(x, w, r);
}

/// Integer square root by bisection.
pub fn isqrt(x: u128) -> (r: u64)
    ensures
        is_isqrt(x as int, r as int),
        r == spec_isqrt(x as int),
{
    let mut lo: u128 = 0;
    let mut hi: u128 = 0x1_0000_0000_0000_0000;
    assert((hi as int) * (hi as int) > x as int) by (nonlinear_arith)
        requires hi == 0x1_0000_0000_0000_0000u128 && x <= u128::MAX;
    while hi - lo > 1
        invariant
            lo < hi <= 0x1_0000_0000_0000_0000u128,
            (lo as int) * (lo as int) <= x as int,
            (x as int) < (hi as int) * (hi as int),
        decreases hi - lo,
    {
        let mid: u128 = lo + (hi - lo) / 2;
        assert((mid as int) * (mid as int) < 0x1_0000_0000_0000_0000_0000_0000_0000_0000int)
            by (nonlinear_arith)
            requires mid < 0x1_0000_0000_0000_0000u128;
        if mid * mid <= x {
            lo = mid;
        } else {
            hi = mid;
        }
    }
    proof {
        lemma_isqrt_is(x as int, lo as int);
    }
    lo as u64
}

/// Precomputed factor `round(e^(-2^k * 1e-6) * 2^32)` for bit `k` of a
/// micro-unit exponent; the identity factor `2^32` past the last used bit.
pub open spec fn spec_exp_factor(k: u64) -> u64 {
    if k == 0 { 4294963001 }
    else if k == 1 { 4294958706 }
    else if k == 2 { 4294950116 }
    else if k == 3 { 4294932936 }
    else if k == 4 { 4294898577 }
    else if k == 5 { 4294829859 }
    else if k == 6 { 4294692427 }
    else if k == 7 { 4294417575 }
    else if k == 8 { 4293867925 }
    else if k == 9 { 4292768836 }
    else if k == 10 { 4290571501 }
    else if k == 11 { 4286180204 }
    else if k == 12 { 4277411090 }
    else if k == 13 { 4259926646 }
    else if k == 14 { 4225171877 }
    else if k == 15 { 4156510670 }
    else if k == 16 { 4022517462 }
    else if k == 17 { 3767350393 }
    else if k == 18 { 3304548791 }
    else if k == 19 { 2542520574 }
    else if k == 20 { 1505112944 }
    else if k == 21 { 527446385 }
    else if k == 22 { 64773413 }
    else if k == 23 { 976863 }
    else { 0x1_0000_0000 }
}

fn exp_factor(k: u64) -> (f: u64)
    ensures
        f == spec_exp_factor(k),
{
    match k {
        0 => 4294963001,
        1 => 4294958706,
        2 => 4294950116,
        3 => 4294932936,
        4 => 4294898577,
        5 => 4294829859,
        6 => 4294692427,
        7 => 4294417575,
        8 => 4293867925,
        9 => 4292768836,
        10 => 4290571501,
        11 => 4286180204,
        12 => 4277411090,
        13 => 4259926646,
        14 => 4225171877,
        15 => 4156510670,
        16 => 4022517462,
        17 => 3767350393,
        18 => 3304548791,
        19 => 2542520574,
        20 => 1505112944,
        21 => 527446385,
        22 => 64773413,
        23 => 976863,
        _ => 0x1_0000_0000,
    }
}

/// One multiply-and-rescale step of the product accumulator at scale `2^32`.
pub open spec fn spec_exp_step(acc: u64, f: u64) -> u64 {
    ((acc * f) / 0x1_0000_0000) as u64
}

fn exp_step(acc: u64, f: u64) -> (r: u64)
    requires
        acc <= 0x1_0000_0000,
        f <= 0x1_0000_0000,
    ensures
        r == spec_exp_step(acc, f),
        r <= 0x1_0000_0000,
{
    proof {
        assert(acc * f <= 0x1_0000_0000u64 * 0x1_0000_0000u64) by (nonlinear_arith)
            requires acc <= 0x1_0000_0000u64 && f <= 0x1_0000_0000u64;
    }
    let p: u128 = (acc as u128) * (f as u128);
    let q: u128 = p / 0x1_0000_0000;
    q as u64
}

/// Accumulated product of the factors for the set bits of `xx`, starting at
/// bit `k`, at scale `2^32`.
pub open spec fn spec_exp_acc(xx: u64, k: u64, acc: u64) -> u64
    decreases 24 - k,
{
    if k >= 24 {
        acc
    } else {
        let acc2 = if xx % 2 == 1 { spec_exp_step(acc, spec_exp_factor(k)) } else { acc };
        spec_exp_acc(xx / 2, (k + 1) as u64, acc2)
    }
}

/// `e^(-x * 1e-6)` in micro units, by binary decomposition of `x` over the
/// precomputed factors; exponents of 16.78 or more round to zero.
pub open spec fn spec_exp_neg_micro(x: u64) -> u64 {
    if x >= 0x100_0000 {
        0
    } else {
        ((spec_exp_acc(x, 0, 0x1_0000_0000) * 1_000_000) / 0x1_0000_0000) as u64
    }
}

/// Decaying exponential `e^(-x * 1e-6)` in micro units.
pub fn exp_neg_micro(x: u64) -> (r: u64)
    ensures
        r == spec_exp_neg_micro(x),
        r <= 1_000_000,
{
    if x >= 0x100_0000 {
        return 0;
    }
    let mut xx: u64 = x;
    let mut acc: u64 = 0x1_0000_0000;
    for k in 0..24u64
        invariant
            acc <= 0x1_0000_0000,
            spec_exp_acc(x, 0, 0x1_0000_0000) == spec_exp_acc(xx, k, acc),
    {
        if xx % 2 == 1 {
            acc = exp_step(acc, exp_factor(k));
        }
        xx = xx / 2;
    }
    let p: u128 = (acc as u128) * 1_000_000;
    proof {
        assert(acc * 1_000_000int <= 0x1_0000_0000int * 1_000_000int) by (nonlinear_arith)
            requires acc <= 0x1_0000_0000u64;
        assert(0x1_0000_0000int * 1_000_000int / 0x1_0000_0000int == 1_000_000int);
        assert(acc * 1_000_000int / 0x1_0000_0000int <= 0x1_0000_0000int * 1_000_000int / 0x1_0000_0000int)
            by (nonlinear_arith)
            requires acc * 1_000_000int <= 0x1_0000_0000int * 1_000_000int;
    }
    (p / 0x1_0000_0000) as u64
}

/// The input normalized into `[2^63, 2^64)` by doubling (zero stays zero).
pub open spec fn spec_norm(x: u64) -> u64
    decreases u64::MAX - x,
{
    if x == 0 {
        0
    } else if x >= 0x8000_0000_0000_0000 {
        x
    } else {
        spec_norm((x * 2) as u64)
    }
}

/// How many doublings `spec_norm` takes.
pub open spec fn spec_norm_shift(x: u64) -> int
    decreases u64::MAX - x,
{
    if x == 0 {
        0
    } else if x >= 0x8000_0000_0000_0000 {
        0
    } else {
        1 + spec_norm_shift((x * 2) as u64)
    }
}

/// Binary fraction digits of `log2(m / 2^63)` by repeated squaring:
/// `t` more digits, most significant first, into the accumulator.
pub open spec fn spec_log_bits(m: u64, t: u64, acc: u64) -> u64
    decreases t,
{
    if t == 0 {
        acc
    } else {
        let sq = (m * m) / 0x8000_0000_0000_0000;
        if sq >= 0x1_0000_0000_0000_0000 {
            spec_log_bits((sq / 2) as u64, (t - 1) as u64, ((acc * 2 + 1) as u64))
        } else {
            spec_log_bits(sq as u64, (t - 1) as u64, ((acc * 2) as u64))
        }
    }
}

fn log_frac_bits(m0: u64) -> (frac: u64)
    requires
        m0 >= 0x8000_0000_0000_0000,
    ensures
        frac == spec_log_bits(m0, 30, 0),
        frac < 0x4000_0000,
{
    let mut m: u64 = m0;
    let mut acc: u64 = 0;
    proof {
        lemma2_to64();
    }
    for i in 0..30u64
        invariant
            m >= 0x8000_0000_0000_0000,
            acc < pow2(i as nat),
            i <= 30,
            spec_log_bits(m0, 30, 0) == spec_log_bits(m, (30 - i) as u64, acc),
    {
        proof {
            lemma_pow2_strictly_increases(i as nat, 30);
            lemma2_to64();
            assert(m * m >= 0x8000_0000_0000_0000u64 * 0x8000_0000_0000_0000u64) by (nonlinear_arith)
                requires m >= 0x8000_0000_0000_0000u64;
            assert(m * m <= u64::MAX * u64::MAX) by (nonlinear_arith)
                requires m <= u64::MAX;
            lemma_pow2_unfold((i + 1) as nat);
        }
        let sq: u128 = ((m as u128) * (m as u128)) / 0x8000_0000_0000_0000;
        if sq >= 0x1_0000_0000_0000_0000 {
            m = (sq / 2) as u64;
            acc = acc * 2 + 1;
        } else {
            m = sq as u64;
            acc = acc * 2;
        }
    }
    proof {
        lemma2_to64();
    }
    acc
}

/// `log2(x)` in micro units (for `x >= 1`): the normalization exponent plus
/// 30 binary fraction digits.
pub open spec fn spec_log2_micro(x: u64) -> int {
    (63 - spec_norm_shift(x)) * 1_000_000
        + spec_log_bits(spec_norm(x), 30, 0) * 1_000_000 / 0x4000_0000
}

/// Base-2 logarithm of a positive integer, in micro units.
pub fn log2_micro(x: u64) -> (r: u64)
    requires
        x >= 1,
    ensures
        r == spec_log2_micro(x),
        r < 64_000_000,
{
    let mut m: u64 = x;
    let mut j: u64 = 0;
    proof {
        lemma2_to64();
    }
    while m < 0x8000_0000_0000_0000
        invariant
            m >= 1,
            j <= 63,
            pow2(j as nat) <= m,
            spec_norm(x) == spec_norm(m),
            spec_norm_shift(x) == j + spec_norm_shift(m),
        decreases u64::MAX - m,
    {
        proof {
            lemma2_to64();
            if j >= 63 {
                lemma_pow2_strictly_increases(62, j as nat);
            }
            lemma_pow2_unfold((j + 1) as nat);
        }
        m = m * 2;
        j = j + 1;
    }
    let k: u64 = 63 - j;
    let frac: u64 = log_frac_bits(m);
    k * 1_000_000 + (frac * 1_000_000) / 0x4000_0000
}

/// `log10(x)` in micro units, converted from base 2 with
/// `log10(2) ~= 0.301030`.
pub open spec fn spec_log10_micro(x: u64) -> int {
    spec_log2_micro(x) * 301_030 / 1_000_000
}

/// Base-10 logarithm of a positive integer, in micro units.
pub fn log10_micro(x: u64) -> (r: u64)
    requires
        x >= 1,
    ensures
        r == spec_log10_micro(x),
        r < 19_300_000,
{
    let l2: u64 = log2_micro(x);
    (l2 * 301_030) / 1_000_000
}

} // verus!
