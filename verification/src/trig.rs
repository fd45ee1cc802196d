//! Fixed-point trigonometry for the vehicle model: angle wrapping, sine and
//! cosine by an odd polynomial approximation, and a two-argument arctangent
//! for slip angles. Each executable function returns exactly the value of its
//! spec twin; sine and the arctangent are odd and cosine is even by
//! construction, which the lemmas at the end state.

use vstd::prelude::*;

use crate::fixed::{
    clamp_s, fdiv, fdiv_s, fmul, fmul_s, mag, mag64, mag_fp, sat_add, sat_add_s, sat_sub,
    sat_sub_s, tdiv_s, tdivc, FP, FP_SAT,
};

verus! {

/// Half turn, in fixed-point radians.
pub const PI_FP: i64 = 3_141_593;

/// Quarter turn.
pub const HALF_PI_FP: i64 = 1_570_797;

/// Full turn; exactly twice PI_FP.
pub const TWO_PI_FP: i64 = 6_283_186;

/// Eighth of a turn.
pub const QUARTER_PI_FP: i64 = 785_398;

/// Wrap an angle into [-PI_FP, PI_FP]. Odd: wrap_s(-h) == -wrap_s(h).
pub open spec fn wrap_s(h: int) -> int {
    let m = mag(h) % (TWO_PI_FP as int);
    let f = if m > PI_FP {
        m - TWO_PI_FP
    } else {
        m
    };
    if h >= 0 {
        f
    } else {
        -f
    }
}

/// Sine on [0, HALF_PI_FP] by the cubic-quintic Taylor polynomial, with the
/// result clamped into [0, FP].
pub open spec fn sinq_s(x: int) -> int {
    let x2 = fmul_s(x, x);
    let x3 = fmul_s(x2, x);
    let x5 = fmul_s(x3, x2);
    clamp_s(x - tdiv_s(x3, 6) + tdiv_s(x5, 120), 0, FP as int)
}

/// Sine on [0, PI_FP], folded around the quarter turn.
pub open spec fn sin_half_s(x: int) -> int {
    if x > HALF_PI_FP {
        sinq_s(PI_FP - x)
    } else {
        sinq_s(x)
    }
}

/// Sine of any fixed-point angle.
pub open spec fn sin_s(h: int) -> int {
    let w = wrap_s(h);
    if w >= 0 {
        sin_half_s(w)
    } else {
        -sin_half_s(-w)
    }
}

/// Cosine of any fixed-point angle, as a shifted sine of the wrapped magnitude.
pub open spec fn cos_s(h: int) -> int {
    let w = mag(wrap_s(h));
    if w <= HALF_PI_FP {
        sinq_s(HALF_PI_FP - w)
    } else {
        -sinq_s(w - HALF_PI_FP)
    }
}

/// Arctangent of a slope in [0, FP] by a quadratic approximation.
pub open spec fn atanq_s(z: int) -> int {
    let c = sat_add_s(244_700, fmul_s(66_300, z));
    sat_add_s(fmul_s(z, QUARTER_PI_FP as int), fmul_s(fmul_s(z, sat_sub_s(FP as int, z)), c))
}

/// Arctangent of a nonnegative slope, using the reciprocal above one.
pub open spec fn atan_pos_s(m: int) -> int {
    if m <= FP {
        atanq_s(m)
    } else {
        sat_sub_s(HALF_PI_FP as int, atanq_s(fdiv_s(FP as int, m)))
    }
}

/// Two-argument arctangent for a nonnegative x. Odd in y.
pub open spec fn atan2_s(y: int, x: int) -> int {
    if y == 0 {
        0
    } else if x <= 0 {
        if y > 0 {
            HALF_PI_FP as int
        } else {
            -(HALF_PI_FP as int)
        }
    } else {
        let m = fdiv_s(mag(y), x);
        if y > 0 {
            atan_pos_s(m)
        } else {
            -atan_pos_s(m)
        }
    }
}

/// Wrap an angle into [-PI_FP, PI_FP].
pub fn wrap(h: i64) -> (r: i64)
    ensures
        r as int == wrap_s(h as int),
        -PI_FP <= r <= PI_FP,
{
    let m: u64 = mag64(h) % (TWO_PI_FP as u64);
    let f: i64 = if m > PI_FP as u64 {
        (m as i64) - TWO_PI_FP
    } else {
        m as i64
    };
    if h >= 0 {
        f
    } else {
        -f
    }
}

fn sinq(x: i64) -> (r: i64)
    ensures
        r as int == sinq_s(x as int),
        0 <= r <= FP,
{
    let x2: i64 = fmul(x, x);
    let x3: i64 = fmul(x2, x);
    let x5: i64 = fmul(x3, x2);
    let t: i128 = x as i128 - tdivc(x3, 6) as i128 + tdivc(x5, 120) as i128;
    if t < 0 {
        0
    } else if t > FP as i128 {
        FP
    } else {
        t as i64
    }
}

/// Sine of a fixed-point angle.
pub fn sin_fp(h: i64) -> (r: i64)
    ensures
        r as int == sin_s(h as int),
        -FP <= r <= FP,
{
    let w: i64 = wrap(h);
    if w >= 0 {
        if w > HALF_PI_FP {
            sinq(PI_FP - w)
        } else {
            sinq(w)
        }
    } else {
        let v: i64 = -w;
        if v > HALF_PI_FP {
            -sinq(PI_FP - v)
        } else {
            -sinq(v)
        }
    }
}

/// Cosine of a fixed-point angle.
pub fn cos_fp(h: i64) -> (r: i64)
    ensures
        r as int == cos_s(h as int),
        -FP <= r <= FP,
{
    let w: i64 = wrap(h);
    let v: i64 = if w >= 0 {
        w
    } else {
        -w
    };
    if v <= HALF_PI_FP {
        sinq(HALF_PI_FP - v)
    } else {
        -sinq(v - HALF_PI_FP)
    }
}

fn atanq(z: i64) -> (r: i64)
    ensures
        r as int == atanq_s(z as int),
{
    let c: i64 = sat_add(244_700, fmul(66_300, z));
    sat_add(fmul(z, QUARTER_PI_FP), fmul(fmul(z, sat_sub(FP, z)), c))
}

fn atan_pos(m: i64) -> (r: i64)
    ensures
        r as int == atan_pos_s(m as int),
{
    if m <= FP {
        atanq(m)
    } else {
        let z: i64 = fdiv(FP, m);
        sat_sub(HALF_PI_FP, atanq(z))
    }
}

/// Two-argument arctangent; x must be a magnitude.
pub fn atan2_fp(y: i64, x: i64) -> (r: i64)
    requires
        -FP_SAT <= y,
        0 <= x,
    ensures
        r as int == atan2_s(y as int, x as int),
{
    if y == 0 {
        0
    } else if x <= 0 {
        if y > 0 {
            HALF_PI_FP
        } else {
            -HALF_PI_FP
        }
    } else {
        let m: i64 = fdiv(mag_fp(y), x);
        if y > 0 {
            atan_pos(m)
        } else {
            -atan_pos(m)
        }
    }
}

/// Wrapping fixes every angle already in [-PI_FP, PI_FP].
pub proof fn lemma_wrap_in_range(h: int)
    requires
        -(PI_FP as int) <= h <= PI_FP,
    ensures
        wrap_s(h) == h,
{
    vstd::arithmetic::div_mod::lemma_small_mod(mag(h) as nat, TWO_PI_FP as nat);
}

/// The wrapped angle of an opposite angle is the opposite wrapped angle.
pub proof fn lemma_wrap_odd(h: int)
    ensures
        wrap_s(-h) == -wrap_s(h),
{
}

/// Sine is odd.
pub proof fn lemma_sin_odd(h: int)
    ensures
        sin_s(-h) == -sin_s(h),
{
    lemma_wrap_odd(h);
    let w = wrap_s(h);
    if w == 0 {
        assert(sinq_s(0) == 0);
        assert(sin_s(h) == sin_half_s(0));
        assert(sin_s(-h) == sin_half_s(0));
    } else if w > 0 {
        assert(sin_s(h) == sin_half_s(w));
        assert(sin_s(-h) == -sin_half_s(w));
    } else {
        assert(sin_s(h) == -sin_half_s(-w));
        assert(sin_s(-h) == sin_half_s(-w));
    }
}

/// Cosine is even.
pub proof fn lemma_cos_even(h: int)
    ensures
        cos_s(-h) == cos_s(h),
{
    lemma_wrap_odd(h);
}

/// The arctangent is odd in its first argument.
pub proof fn lemma_atan2_odd(y: int, x: int)
    ensures
        atan2_s(-y, x) == -atan2_s(y, x),
{
}

} // verus!
