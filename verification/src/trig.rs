//! Fixed-point trigonometry.
//!
//! Angles are fixed-point radians. Sine and cosine reduce their argument to
//! an octant and evaluate a truncated Taylor polynomial there; the inverse
//! cosine bisects the cosine over `[0, pi]`. The spec functions below are the
//! defining recurrences of these approximations: there is no exact
//! real-valued statement available in the logic, so the contract of each
//! function is exactly the approximation it computes.

use vstd::prelude::*;

use crate::fixed::{fx_add, fx_div, fx_divn, fx_max, fx_min, fx_mul, fx_neg, fx_sub, spec_add,
    spec_div, spec_divn, spec_max, spec_min, spec_mul, spec_neg, spec_sub, FX_ONE};

verus! {

/// Raw fixed-point value of pi.
pub const FX_PI: i64 = 13493037705;

/// Raw fixed-point value of 2 pi.
pub const FX_TAU: i64 = 26986075409;

/// Raw fixed-point value of pi / 2.
pub const FX_HALF_PI: i64 = 6746518852;

/// The argument reduced against half pi: the nearest quadrant count `q`
/// (rounding half away from zero) and the remainder `x - q * (pi/2)`.
pub open spec fn spec_trig_reduce(x: i64) -> (int, int) {
    let hp = FX_HALF_PI as int;
    let q = if x >= 0 {
        (2 * x + hp) / (2 * hp)
    } else {
        -((2 * -(x as int) + hp) / (2 * hp))
    };
    (q, x - q * hp)
}

/// The quadrant of the reduced argument, in `0..4`.
pub open spec fn spec_trig_quadrant(q: int) -> int {
    ((q % 4) + 4) % 4
}

/// Taylor sine on the reduced range: `y - y^3/6 + y^5/120 - y^7/5040`.
pub open spec fn spec_sin_poly(y: i64) -> i64 {
    let y2 = spec_mul(y, y);
    let y3 = spec_mul(y2, y);
    let y5 = spec_mul(y3, y2);
    let y7 = spec_mul(y5, y2);
    spec_sub(spec_add(spec_sub(y, spec_divn(y3, 6)), spec_divn(y5, 120)), spec_divn(y7, 5040))
}

/// Taylor cosine on the reduced range:
/// `1 - y^2/2 + y^4/24 - y^6/720 + y^8/40320`.
pub open spec fn spec_cos_poly(y: i64) -> i64 {
    let y2 = spec_mul(y, y);
    let y4 = spec_mul(y2, y2);
    let y6 = spec_mul(y4, y2);
    let y8 = spec_mul(y6, y2);
    spec_add(
        spec_sub(spec_add(spec_sub(FX_ONE, spec_divn(y2, 2)), spec_divn(y4, 24)), spec_divn(y6, 720)),
        spec_divn(y8, 40320),
    )
}

/// Fixed-point sine.
pub open spec fn spec_sin(x: i64) -> i64 {
    let (q, y) = spec_trig_reduce(x);
    let yy = y as i64;
    let qm = spec_trig_quadrant(q);
    if qm == 0 {
        spec_sin_poly(yy)
    } else if qm == 1 {
        spec_cos_poly(yy)
    } else if qm == 2 {
        spec_neg(spec_sin_poly(yy))
    } else {
        spec_neg(spec_cos_poly(yy))
    }
}

/// Fixed-point cosine.
pub open spec fn spec_cos(x: i64) -> i64 {
    let (q, y) = spec_trig_reduce(x);
    let yy = y as i64;
    let qm = spec_trig_quadrant(q);
    if qm == 0 {
        spec_cos_poly(yy)
    } else if qm == 1 {
        spec_neg(spec_sin_poly(yy))
    } else if qm == 2 {
        spec_neg(spec_cos_poly(yy))
    } else {
        spec_sin_poly(yy)
    }
}

/// Fixed-point tangent: `sin / cos`.
pub open spec fn spec_tan(x: i64) -> i64 {
    spec_div(spec_sin(x), spec_cos(x))
}

/// Bisection step of the inverse cosine over a bracket where the cosine
/// decreases from `lo` to `hi`.
pub open spec fn spec_acos_bisect(x: i64, lo: i64, hi: i64, n: nat) -> i64
    decreases n,
{
    let mid = spec_divn(spec_add(lo, hi), 2);
    if n == 0 {
        mid
    } else {
        if spec_cos(mid) >= x {
            spec_acos_bisect(x, mid, hi, (n - 1) as nat)
        } else {
            spec_acos_bisect(x, lo, mid, (n - 1) as nat)
        }
    }
}

/// Fixed-point inverse cosine, in `[0, pi]`; the argument is clamped to
/// `[-1, 1]` first.
pub open spec fn spec_acos(x: i64) -> i64 {
    spec_acos_bisect(spec_max(spec_min(x, FX_ONE), spec_neg(FX_ONE)), 0, FX_PI, 40)
}

fn trig_reduce(x: i64) -> (r: (i64, i64))
    ensures
        r.0 as int == spec_trig_reduce(x).0,
        r.1 as int == spec_trig_reduce(x).1,
{
    let hp: i128 = FX_HALF_PI as i128;
    let xi: i128 = x as i128;
    let q: i128 = if x >= 0 {
        (2 * xi + hp) / (2 * hp)
    } else {
        -((2 * -xi + hp) / (2 * hp))
    };
    let y: i128 = xi - q * hp;
    proof {
        let hpi = FX_HALF_PI as int;
        vstd::arithmetic::div_mod::lemma_fundamental_div_mod(2 * x + hpi, 2 * hpi);
        vstd::arithmetic::div_mod::lemma_fundamental_div_mod(2 * -(x as int) + hpi, 2 * hpi);
        assert(q * hp == (q as int) * hpi) by (nonlinear_arith)
            requires
                hp == hpi,
                -0x8000000000000000 <= q <= 0x8000000000000000,
        ;
    }
    (q as i64, y as i64)
}

/// Fixed-point sine, by octant reduction and a Taylor polynomial.
pub fn fx_sin(x: i64) -> (r: i64)
    ensures
        r == spec_sin(x),
{
    let (q, y): (i64, i64) = trig_reduce(x);
    let qm: i64 = ((q % 4) + 4) % 4;
    let y2: i64 = fx_mul(y, y);
    let y3: i64 = fx_mul(y2, y);
    let y5: i64 = fx_mul(y3, y2);
    let y7: i64 = fx_mul(y5, y2);
    let sp: i64 = fx_sub(
        fx_add(fx_sub(y, fx_divn(y3, 6)), fx_divn(y5, 120)),
        fx_divn(y7, 5040),
    );
    let y4: i64 = fx_mul(y2, y2);
    let y6: i64 = fx_mul(y4, y2);
    let y8: i64 = fx_mul(y6, y2);
    let cp: i64 = fx_add(
        fx_sub(fx_add(fx_sub(FX_ONE, fx_divn(y2, 2)), fx_divn(y4, 24)), fx_divn(y6, 720)),
        fx_divn(y8, 40320),
    );
    if qm == 0 {
        sp
    } else if qm == 1 {
        cp
    } else if qm == 2 {
        fx_neg(sp)
    } else {
        fx_neg(cp)
    }
}

/// Fixed-point cosine, by octant reduction and a Taylor polynomial.
pub fn fx_cos(x: i64) -> (r: i64)
    ensures
        r == spec_cos(x),
{
    let (q, y): (i64, i64) = trig_reduce(x);
    let qm: i64 = ((q % 4) + 4) % 4;
    let y2: i64 = fx_mul(y, y);
    let y3: i64 = fx_mul(y2, y);
    let y5: i64 = fx_mul(y3, y2);
    let y7: i64 = fx_mul(y5, y2);
    let sp: i64 = fx_sub(
        fx_add(fx_sub(y, fx_divn(y3, 6)), fx_divn(y5, 120)),
        fx_divn(y7, 5040),
    );
    let y4: i64 = fx_mul(y2, y2);
    let y6: i64 = fx_mul(y4, y2);
    let y8: i64 = fx_mul(y6, y2);
    let cp: i64 = fx_add(
        fx_sub(fx_add(fx_sub(FX_ONE, fx_divn(y2, 2)), fx_divn(y4, 24)), fx_divn(y6, 720)),
        fx_divn(y8, 40320),
    );
    if qm == 0 {
        cp
    } else if qm == 1 {
        fx_neg(sp)
    } else if qm == 2 {
        fx_neg(cp)
    } else {
        sp
    }
}

/// Fixed-point tangent.
pub fn fx_tan(x: i64) -> (r: i64)
    ensures
        r == spec_tan(x),
{
    fx_div(fx_sin(x), fx_cos(x))
}

fn acos_bisect(x: i64, lo: i64, hi: i64, n: u32) -> (r: i64)
    ensures
        r == spec_acos_bisect(x, lo, hi, n as nat),
    decreases n,
{
    let mid: i64 = fx_divn(fx_add(lo, hi), 2);
    if n == 0 {
        mid
    } else {
        if fx_cos(mid) >= x {
            acos_bisect(x, mid, hi, n - 1)
        } else {
            acos_bisect(x, lo, mid, n - 1)
        }
    }
}

/// Fixed-point inverse cosine by bisection.
pub fn fx_acos(x: i64) -> (r: i64)
    ensures
        r == spec_acos(x),
{
    acos_bisect(fx_max(fx_min(x, FX_ONE), fx_neg(FX_ONE)), 0, FX_PI, 40)
}

} // verus!
