//! Fixed-point scalars.
//!
//! A real number `v` is stored as the `i64` raw value `v * 2^32`, truncated.
//! Every operation clips its result into `[-FX_MAX, FX_MAX]`, so all
//! operations are total: no overflow, no panic, no undefined input.

use vstd::prelude::*;

verus! {

/// Raw representation of 1.0.
pub const FX_ONE: i64 = 4294967296;

/// Largest raw magnitude a fixed-point value may take (2^52, about 2^20 as a
/// real number). Keeping values inside this range lets every intermediate
/// product fit comfortably in `i128`.
pub const FX_MAX: i64 = 4503599627370496;

/// Clip an unbounded integer into the representable raw range.
pub open spec fn spec_clip(x: int) -> i64 {
    if x > FX_MAX {
        FX_MAX
    } else if x < -FX_MAX {
        (-FX_MAX) as i64
    } else {
        x as i64
    }
}

/// Division truncated toward zero, for a positive divisor.
pub open spec fn spec_tdiv(n: int, d: int) -> int
    recommends
        d > 0,
{
    if n >= 0 {
        n / d
    } else {
        -((-n) / d)
    }
}

/// Saturating fixed-point addition.
pub open spec fn spec_add(a: i64, b: i64) -> i64 {
    spec_clip(a + b)
}

/// Saturating fixed-point subtraction.
pub open spec fn spec_sub(a: i64, b: i64) -> i64 {
    spec_clip(a - b)
}

/// Saturating negation.
pub open spec fn spec_neg(a: i64) -> i64 {
    spec_clip(-a)
}

/// Saturating fixed-point product: `a * b / 2^32`, truncated toward zero.
pub open spec fn spec_mul(a: i64, b: i64) -> i64 {
    spec_clip(spec_tdiv(a * b, FX_ONE as int))
}

/// Saturating fixed-point quotient, truncated toward zero; division by zero
/// yields zero (a degenerate geometric configuration, treated as "no
/// contribution" rather than an error).
pub open spec fn spec_div(a: i64, b: i64) -> i64 {
    if b == 0 {
        0
    } else if b > 0 {
        spec_clip(spec_tdiv(a * FX_ONE, b as int))
    } else {
        spec_clip(spec_tdiv(-(a * FX_ONE), -b as int))
    }
}

/// Saturating scale by a plain integer.
pub open spec fn spec_muln(a: i64, n: i64) -> i64 {
    spec_clip(a * n)
}

/// Division of a fixed-point value by a plain integer, truncated toward zero;
/// a zero divisor yields zero.
pub open spec fn spec_divn(a: i64, n: i64) -> i64 {
    if n == 0 {
        0
    } else if n > 0 {
        spec_clip(spec_tdiv(a as int, n as int))
    } else {
        spec_clip(spec_tdiv(-a as int, -n as int))
    }
}

/// The fixed-point value of a plain integer.
pub open spec fn spec_from_int(n: i64) -> i64 {
    spec_clip(n * FX_ONE)
}

/// Absolute value (saturating, so `i64::MIN` is handled).
pub open spec fn spec_abs(a: i64) -> i64 {
    if a >= 0 {
        a
    } else {
        spec_clip(-a)
    }
}

pub open spec fn spec_min(a: i64, b: i64) -> i64 {
    if a <= b {
        a
    } else {
        b
    }
}

pub open spec fn spec_max(a: i64, b: i64) -> i64 {
    if a >= b {
        a
    } else {
        b
    }
}

/// `r` is the integer square root of `n`.
pub open spec fn is_isqrt(n: int, r: int) -> bool {
    0 <= r && r * r <= n && n < (r + 1) * (r + 1)
}

/// The integer square root of a nonnegative integer.
pub open spec fn int_sqrt(n: int) -> int {
    choose|r: int| is_isqrt(n, r)
}

/// Fixed-point square root: `sqrt(a * 2^32)` on raw values; nonpositive
/// inputs yield zero.
pub open spec fn spec_sqrt(a: i64) -> i64 {
    if a <= 0 {
        0
    } else {
        int_sqrt(a * FX_ONE) as i64
    }
}

/// Fixed-point power with a plain natural exponent.
pub open spec fn spec_powi(a: i64, k: nat) -> i64
    decreases k,
{
    if k == 0 {
        FX_ONE
    } else {
        spec_mul(spec_powi(a, (k - 1) as nat), a)
    }
}

proof fn lemma_isqrt_unique(n: int, a: int, b: int)
    requires
        is_isqrt(n, a),
        is_isqrt(n, b),
    ensures
        a == b,
{
    if a < b {
        assert((a + 1) * (a + 1) <= b * b) by (nonlinear_arith)
            requires
                0 <= a + 1,
                a + 1 <= b,
        ;
    }
    if b < a {
        assert((b + 1) * (b + 1) <= a * a) by (nonlinear_arith)
            requires
                0 <= b + 1,
                b + 1 <= a,
        ;
    }
}

proof fn lemma_prod_bound(a: int, b: int, m: int)
    requires
        -m <= a <= m,
        -m <= b <= m,
        0 <= m,
    ensures
        -(m * m) <= a * b <= m * m,
{
    assert(-(m * m) <= a * b <= m * m) by (nonlinear_arith)
        requires
            -m <= a <= m,
            -m <= b <= m,
            0 <= m,
    ;
}

fn clip128(x: i128) -> (r: i64)
    ensures
        r == spec_clip(x as int),
{
    if x > FX_MAX as i128 {
        FX_MAX
    } else if x < -(FX_MAX as i128) {
        -FX_MAX
    } else {
        x as i64
    }
}

/// Clip a magnitude-and-sign pair into the representable raw range.
fn clip_mag(m: u128, neg: bool) -> (r: i64)
    ensures
        r == spec_clip(
            if neg {
                -(m as int)
            } else {
                m as int
            },
        ),
{
    if m > FX_MAX as u128 {
        if neg {
            -FX_MAX
        } else {
            FX_MAX
        }
    } else {
        if neg {
            -(m as i64)
        } else {
            m as i64
        }
    }
}

/// Saturating addition.
pub fn fx_add(a: i64, b: i64) -> (r: i64)
    ensures
        r == spec_add(a, b),
{
    clip128(a as i128 + b as i128)
}

/// Saturating subtraction.
pub fn fx_sub(a: i64, b: i64) -> (r: i64)
    ensures
        r == spec_sub(a, b),
{
    clip128(a as i128 - b as i128)
}

/// Saturating negation.
pub fn fx_neg(a: i64) -> (r: i64)
    ensures
        r == spec_neg(a),
{
    clip128(-(a as i128))
}

/// Saturating fixed-point multiplication.
pub fn fx_mul(a: i64, b: i64) -> (r: i64)
    ensures
        r == spec_mul(a, b),
{
    proof {
        lemma_prod_bound(a as int, b as int, 0x8000000000000000);
    }
    let p: i128 = (a as i128) * (b as i128);
    let m: u128 = if p >= 0 {
        p as u128
    } else {
        (-p) as u128
    };
    let q: u128 = m / (FX_ONE as u128);
    clip_mag(q, p < 0)
}

/// Saturating fixed-point division; a zero divisor yields zero.
pub fn fx_div(a: i64, b: i64) -> (r: i64)
    ensures
        r == spec_div(a, b),
{
    if b == 0 {
        return 0;
    }
    proof {
        lemma_prod_bound(a as int, FX_ONE as int, 0x8000000000000000);
    }
    let num: i128 = (a as i128) * (FX_ONE as i128);
    let nm: u128 = if num >= 0 {
        num as u128
    } else {
        (-num) as u128
    };
    let dm: u128 = if b >= 0 {
        b as u128
    } else {
        (-(b as i128)) as u128
    };
    let q: u128 = nm / dm;
    clip_mag(q, (a < 0) != (b < 0) && q > 0)
}

/// Saturating scale by a plain integer.
pub fn fx_muln(a: i64, n: i64) -> (r: i64)
    ensures
        r == spec_muln(a, n),
{
    proof {
        lemma_prod_bound(a as int, n as int, 0x8000000000000000);
    }
    let p: i128 = (a as i128) * (n as i128);
    let m: u128 = if p >= 0 {
        p as u128
    } else {
        (-p) as u128
    };
    clip_mag(m, p < 0)
}

/// Division of a fixed-point value by a plain integer, truncated toward zero;
/// a zero divisor yields zero.
pub fn fx_divn(a: i64, n: i64) -> (r: i64)
    ensures
        r == spec_divn(a, n),
{
    if n == 0 {
        return 0;
    }
    let nm: u128 = if a >= 0 {
        a as u128
    } else {
        ((-(a as i128)) as u128)
    };
    let dm: u128 = if n >= 0 {
        n as u128
    } else {
        ((-(n as i128)) as u128)
    };
    let q: u128 = nm / dm;
    clip_mag(q, (a < 0) != (n < 0) && q > 0)
}

/// The fixed-point value of a plain integer.
pub fn fx_from_int(n: i64) -> (r: i64)
    ensures
        r == spec_from_int(n),
{
    proof {
        lemma_prod_bound(n as int, FX_ONE as int, 0x8000000000000000);
    }
    let p: i128 = (n as i128) * (FX_ONE as i128);
    let m: u128 = if p >= 0 {
        p as u128
    } else {
        (-p) as u128
    };
    clip_mag(m, p < 0)
}

/// Absolute value.
pub fn fx_abs(a: i64) -> (r: i64)
    ensures
        r == spec_abs(a),
{
    if a >= 0 {
        a
    } else {
        clip128(-(a as i128))
    }
}

pub fn fx_min(a: i64, b: i64) -> (r: i64)
    ensures
        r == spec_min(a, b),
{
    if a <= b {
        a
    } else {
        b
    }
}

pub fn fx_max(a: i64, b: i64) -> (r: i64)
    ensures
        r == spec_max(a, b),
{
    if a >= b {
        a
    } else {
        b
    }
}

/// Integer square root by bisection.
fn isqrt_u128(n: u128) -> (r: u128)
    requires
        n < 0x1000000000000000000000000,
    ensures
        is_isqrt(n as int, r as int),
{
    let mut lo: u128 = 0;
    let mut hi: u128 = 0x1000000000000;
    proof {
        assert((hi + 1) * (hi + 1) > n) by (nonlinear_arith)
            requires
                hi == 0x1000000000000,
                n < 0x1000000000000000000000000,
        ;
    }
    while lo < hi
        invariant
            lo <= hi,
            hi <= 0x1000000000000,
            (lo as int) * (lo as int) <= n as int,
            ((hi as int) + 1) * ((hi as int) + 1) > n as int,
        decreases hi - lo,
    {
        let mid: u128 = lo + (hi - lo + 1) / 2;
        proof {
            assert(mid * mid <= 0x1000000000000000000000000) by (nonlinear_arith)
                requires
                    mid <= 0x1000000000000,
            ;
        }
        if mid * mid <= n {
            lo = mid;
        } else {
            hi = mid - 1;
        }
    }
    lo
}

/// Fixed-point square root; nonpositive inputs yield zero.
pub fn fx_sqrt(a: i64) -> (r: i64)
    ensures
        r == spec_sqrt(a),
{
    if a <= 0 {
        return 0;
    }
    proof {
        assert((a as int) * (FX_ONE as int) < 0x1000000000000000000000000) by (nonlinear_arith)
            requires
                0 < a < 0x8000000000000000,
                FX_ONE == 0x100000000,
        ;
    }
    let n: u128 = (a as u128) * (FX_ONE as u128);
    let r: u128 = isqrt_u128(n);
    proof {
        assert(r < 0x1000000000000) by (nonlinear_arith)
            requires
                (r as int) * (r as int) <= n as int,
                n < 0x1000000000000000000000000,
        ;
        assert(is_isqrt(n as int, r as int));
        assert(int_sqrt(n as int) == r as int) by {
            assert(is_isqrt(n as int, int_sqrt(n as int)));
            lemma_isqrt_unique(n as int, int_sqrt(n as int), r as int);
        }
    }
    r as i64
}

/// Fixed-point power with a plain natural exponent, by iterated
/// multiplication.
pub fn fx_powi(a: i64, k: u32) -> (r: i64)
    ensures
        r == spec_powi(a, k as nat),
{
    let mut acc: i64 = FX_ONE;
    let mut i: u32 = 0;
    while i < k
        invariant
            i <= k,
            acc == spec_powi(a, i as nat),
        decreases k - i,
    {
        acc = fx_mul(acc, a);
        i = i + 1;
    }
    acc
}


/// A product of nonnegative values is nonnegative, and every product is in
/// range.
pub proof fn lemma_mul_range(a: i64, b: i64)
    ensures
        -FX_MAX <= spec_mul(a, b) <= FX_MAX,
        a >= 0 && b >= 0 ==> spec_mul(a, b) >= 0,
{
    if a >= 0 && b >= 0 {
        assert(a * b >= 0) by (nonlinear_arith)
            requires
                a >= 0,
                b >= 0,
        ;
        vstd::arithmetic::div_mod::lemma_div_pos_is_pos(a * b, FX_ONE as int);
    }
}

/// A sum of nonnegative values is nonnegative, and every sum is in range.
pub proof fn lemma_add_range(a: i64, b: i64)
    ensures
        -FX_MAX <= spec_add(a, b) <= FX_MAX,
        a >= 0 && b >= 0 ==> spec_add(a, b) >= 0,
{
}

/// A quotient of nonnegative values is nonnegative, and every quotient is in
/// range.
pub proof fn lemma_div_range(a: i64, b: i64)
    ensures
        -FX_MAX <= spec_div(a, b) <= FX_MAX,
        a >= 0 && b >= 0 ==> spec_div(a, b) >= 0,
{
    if a >= 0 && b > 0 {
        assert(a * FX_ONE >= 0) by (nonlinear_arith)
            requires
                a >= 0,
                FX_ONE > 0,
        ;
        vstd::arithmetic::div_mod::lemma_div_pos_is_pos(a * FX_ONE, b as int);
    }
}

/// Powers of a nonnegative base are nonnegative and in range.
pub proof fn lemma_powi_nonneg(a: i64, k: nat)
    requires
        a >= 0,
    ensures
        0 <= spec_powi(a, k) <= FX_MAX,
    decreases k,
{
    if k == 0 {
    } else {
        lemma_powi_nonneg(a, (k - 1) as nat);
        lemma_mul_range(spec_powi(a, (k - 1) as nat), a);
    }
}

/// The integer square root exists (so `int_sqrt` denotes it) for every
/// nonnegative argument.
pub proof fn lemma_isqrt_exists(n: int)
    requires
        n >= 0,
    ensures
        is_isqrt(n, int_sqrt(n)),
        int_sqrt(n) >= 0,
    decreases n,
{
    if n == 0 {
        assert(is_isqrt(0, 0));
    } else {
        lemma_isqrt_exists(n - 1);
        let r = int_sqrt(n - 1);
        if (r + 1) * (r + 1) <= n {
            assert((r + 2) * (r + 2) > n) by (nonlinear_arith)
                requires
                    n - 1 < (r + 1) * (r + 1),
                    (r + 1) * (r + 1) <= n,
                    r >= 0,
            ;
            assert(is_isqrt(n, r + 1));
        } else {
            assert(is_isqrt(n, r));
        }
    }
}

/// Square roots are nonnegative and in range.
pub proof fn lemma_sqrt_nonneg(a: i64)
    ensures
        0 <= spec_sqrt(a) <= FX_MAX,
{
    if a > 0 {
        assert(a * FX_ONE >= 0) by (nonlinear_arith)
            requires
                a > 0,
                FX_ONE > 0,
        ;
        lemma_isqrt_exists(a * FX_ONE);
        let r = int_sqrt(a * FX_ONE);
        assert(r < 0x1000000000000) by (nonlinear_arith)
            requires
                is_isqrt(a * FX_ONE, r),
                a * FX_ONE < 0x1000000000000000000000000,
        ;
        assert(a * FX_ONE < 0x1000000000000000000000000) by (nonlinear_arith)
            requires
                0 < a < 0x8000000000000000,
                FX_ONE == 0x100000000,
        ;
    }
}


/// A quotient by a plain integer keeps nonnegativity and is in range for an
/// in-range numerator.
pub proof fn lemma_divn_range(a: i64, n: i64)
    requires
        a >= 0,
        n >= 0,
    ensures
        spec_divn(a, n) >= 0,
        a <= FX_MAX ==> spec_divn(a, n) <= FX_MAX,
{
    if n > 0 {
        vstd::arithmetic::div_mod::lemma_div_pos_is_pos(a as int, n as int);
        vstd::arithmetic::div_mod::lemma_div_nonincreasing(a as int, n as int);
    }
}

} // verus!


