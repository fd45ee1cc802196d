//! Saturating fixed-point arithmetic on `i64` values carrying six decimal
//! places (micro-units). Every executable operation returns exactly the value
//! of its spec-level twin, so computations built from these helpers are
//! deterministic functions of their inputs.

use vstd::prelude::*;

verus! {

/// One fixed-point unit: values carry six decimal places.
pub const FP: i64 = 1_000_000;

/// Symmetric saturation bound; results are clamped to [-FP_SAT, FP_SAT].
pub const FP_SAT: i64 = 0x7fff_ffff_ffff_ffff;

/// Magnitude of x.
pub open spec fn mag(x: int) -> int {
    if x >= 0 {
        x
    } else {
        -x
    }
}

/// Clamp x into the symmetric representable range [-FP_SAT, FP_SAT].
pub open spec fn sat_s(x: int) -> int {
    if x > FP_SAT {
        FP_SAT as int
    } else if x < -(FP_SAT as int) {
        -(FP_SAT as int)
    } else {
        x
    }
}

/// Division truncated toward zero, for a positive divisor.
pub open spec fn tdiv_s(x: int, d: int) -> int
    recommends
        d > 0,
{
    if x >= 0 {
        x / d
    } else {
        -((-x) / d)
    }
}

/// Fixed-point product: a * b scaled back down by FP, truncated toward zero,
/// saturated to the representable range.
pub open spec fn fmul_s(a: int, b: int) -> int {
    sat_s(tdiv_s(a * b, FP as int))
}

/// Fixed-point quotient: a / b scaled up by FP, truncated toward zero,
/// saturated; 0 when b == 0.
pub open spec fn fdiv_s(a: int, b: int) -> int {
    if b == 0 {
        0
    } else if b > 0 {
        sat_s(tdiv_s(a * (FP as int), b))
    } else {
        sat_s(tdiv_s(-(a * (FP as int)), -b))
    }
}

/// Saturating sum.
pub open spec fn sat_add_s(a: int, b: int) -> int {
    sat_s(a + b)
}

/// Saturating difference.
pub open spec fn sat_sub_s(a: int, b: int) -> int {
    sat_s(a - b)
}

/// Clamp x into [lo, hi].
pub open spec fn clamp_s(x: int, lo: int, hi: int) -> int
    recommends
        lo <= hi,
{
    if x < lo {
        lo
    } else if x > hi {
        hi
    } else {
        x
    }
}

/// Sign of x as a fixed-point value: FP, 0, or -FP.
pub open spec fn sgn_s(x: int) -> int {
    if x > 0 {
        FP as int
    } else if x < 0 {
        -(FP as int)
    } else {
        0
    }
}

/// The integer square root: the unique r >= 0 with r * r <= x < (r+1) * (r+1).
pub open spec fn sqrt_s(x: int) -> int
    recommends
        x >= 0,
{
    choose|r: int| r >= 0 && #[trigger] (r * r) <= x && x < (r + 1) * (r + 1)
}

proof fn lemma_mul_sign_mag(a: int, b: int, ma: int, mb: int)
    by (nonlinear_arith)
    requires
        ma == mag(a),
        mb == mag(b),
    ensures
        a * b == if (a < 0) != (b < 0) {
            -(ma * mb)
        } else {
            ma * mb
        },
        ma * mb >= 0,
{
}

/// Squares ignore sign.
pub proof fn lemma_square_mag(a: int)
    by (nonlinear_arith)
    ensures
        a * a == mag(a) * mag(a),
        a * a >= 0,
{
}

/// Magnitude of a as a u64 (total, including the minimum i64).
pub(crate) fn mag64(a: i64) -> (r: u64)
    ensures
        r as int == mag(a as int),
{
    if a >= 0 {
        a as u64
    } else {
        (-(a as i128)) as u64
    }
}

/// Rebuild a signed value from a magnitude, saturating at FP_SAT.
fn from_mag(neg: bool, m: u128) -> (r: i64)
    ensures
        r as int == if neg {
            sat_s(-(m as int))
        } else {
            sat_s(m as int)
        },
{
    let mm: u128 = if m > FP_SAT as u128 {
        FP_SAT as u128
    } else {
        m
    };
    if neg {
        -(mm as i64)
    } else {
        mm as i64
    }
}

/// Fixed-point multiply.
pub fn fmul(a: i64, b: i64) -> (r: i64)
    ensures
        r as int == fmul_s(a as int, b as int),
{
    let neg: bool = (a < 0) != (b < 0);
    let ma: u128 = mag64(a) as u128;
    let mb: u128 = mag64(b) as u128;
    proof {
        lemma_mul_sign_mag(a as int, b as int, ma as int, mb as int);
        assert(ma * mb <= 0x40000000000000000000000000000000int) by (nonlinear_arith)
            requires
                ma <= 0x8000000000000000,
                mb <= 0x8000000000000000,
        ;
    }
    let p: u128 = ma * mb;
    let q: u128 = p / (FP as u128);
    from_mag(neg, q)
}

/// Fixed-point divide; 0 when b == 0.
pub fn fdiv(a: i64, b: i64) -> (r: i64)
    ensures
        r as int == fdiv_s(a as int, b as int),
{
    if b == 0 {
        return 0;
    }
    let neg: bool = (a < 0) != (b < 0);
    let ma: u128 = mag64(a) as u128;
    let mb: u128 = mag64(b) as u128;
    proof {
        lemma_mul_sign_mag(a as int, FP as int, ma as int, FP as int);
        assert(ma * 1000000int <= 0x40000000000000000000000000000000int) by (nonlinear_arith)
            requires
                ma <= 0x8000000000000000,
        ;
    }
    let p: u128 = ma * (FP as u128);
    let q: u128 = p / mb;
    from_mag(neg, q)
}

/// Saturating sum.
pub fn sat_add(a: i64, b: i64) -> (r: i64)
    ensures
        r as int == sat_add_s(a as int, b as int),
{
    clamp128(a as i128 + b as i128)
}

/// Saturating difference.
pub fn sat_sub(a: i64, b: i64) -> (r: i64)
    ensures
        r as int == sat_sub_s(a as int, b as int),
{
    clamp128(a as i128 - b as i128)
}

fn clamp128(s: i128) -> (r: i64)
    ensures
        r as int == sat_s(s as int),
{
    if s > FP_SAT as i128 {
        FP_SAT
    } else if s < -(FP_SAT as i128) {
        -FP_SAT
    } else {
        s as i64
    }
}

/// Clamp x into [lo, hi].
pub fn clamp(x: i64, lo: i64, hi: i64) -> (r: i64)
    requires
        lo <= hi,
    ensures
        r as int == clamp_s(x as int, lo as int, hi as int),
{
    if x < lo {
        lo
    } else if x > hi {
        hi
    } else {
        x
    }
}

/// Sign of x as a fixed-point value.
pub fn sgn(x: i64) -> (r: i64)
    ensures
        r as int == sgn_s(x as int),
{
    if x > 0 {
        FP
    } else if x < 0 {
        -FP
    } else {
        0
    }
}

/// Magnitude, for values away from the unrepresentable minimum.
pub fn mag_fp(x: i64) -> (r: i64)
    requires
        -FP_SAT <= x,
    ensures
        r as int == mag(x as int),
{
    if x >= 0 {
        x
    } else {
        -x
    }
}

/// Multiplying by a fraction of one keeps a value inside [-FP, FP].
pub proof fn lemma_fmul_frac_bound(a: int, b: int)
    requires
        -(FP as int) <= a <= FP,
        0 <= b <= FP,
    ensures
        -(FP as int) <= fmul_s(a, b) <= FP,
{
    assert(-1000000000000 <= a * b <= 1000000000000) by (nonlinear_arith)
        requires
            -1000000 <= a <= 1000000,
            0 <= b <= 1000000,
    ;
    if a * b >= 0 {
        vstd::arithmetic::div_mod::lemma_div_pos_is_pos(a * b, 1000000);
        vstd::arithmetic::div_mod::lemma_div_is_ordered(a * b, 1000000000000, 1000000);
    } else {
        vstd::arithmetic::div_mod::lemma_div_pos_is_pos(-(a * b), 1000000);
        vstd::arithmetic::div_mod::lemma_div_is_ordered(-(a * b), 1000000000000, 1000000);
    }
}

/// A product of nonnegative values is nonnegative.
pub proof fn lemma_fmul_nonneg(a: int, b: int)
    requires
        0 <= a,
        0 <= b,
    ensures
        0 <= fmul_s(a, b),
{
    assert(0 <= a * b) by (nonlinear_arith)
        requires
            0 <= a,
            0 <= b,
    ;
    vstd::arithmetic::div_mod::lemma_div_pos_is_pos(a * b, 1000000);
}

/// A zero numerator divides to zero.
pub proof fn lemma_fdiv_zero_num(b: int)
    ensures
        fdiv_s(0, b) == 0,
{
    if b != 0 {
        vstd::arithmetic::div_mod::lemma_div_of0(if b > 0 {
            b
        } else {
            -b
        });
    }
}

/// The fixed-point product is odd in its left factor.
pub proof fn lemma_fmul_odd_l(a: int, b: int)
    ensures
        fmul_s(-a, b) == -fmul_s(a, b),
{
    assert((-a) * b == -(a * b)) by (nonlinear_arith);
}

/// The fixed-point product is odd in its right factor.
pub proof fn lemma_fmul_odd_r(a: int, b: int)
    ensures
        fmul_s(a, -b) == -fmul_s(a, b),
{
    assert(a * (-b) == -(a * b)) by (nonlinear_arith);
}

/// Negating both factors leaves the fixed-point product unchanged.
pub proof fn lemma_fmul_neg_neg(a: int, b: int)
    ensures
        fmul_s(-a, -b) == fmul_s(a, b),
{
    assert((-a) * (-b) == a * b) by (nonlinear_arith);
}

/// The fixed-point quotient is odd in its numerator.
pub proof fn lemma_fdiv_odd_l(a: int, b: int)
    ensures
        fdiv_s(-a, b) == -fdiv_s(a, b),
{
    assert((-a) * (FP as int) == -(a * (FP as int)));
}

/// Clamping to a symmetric range is odd.
pub proof fn lemma_clamp_odd(x: int, g: int)
    requires
        0 <= g,
    ensures
        clamp_s(-x, -g, g) == -clamp_s(x, -g, g),
{
}

proof fn lemma_mul_mag_mono_raw(a1: int, a2: int, b: int, m1: int, m2: int)
    by (nonlinear_arith)
    requires
        m1 == if a1 >= 0 {
            a1
        } else {
            -a1
        },
        m2 == if a2 >= 0 {
            a2
        } else {
            -a2
        },
        m1 <= m2,
    ensures
        (if a1 * b >= 0 {
            a1 * b
        } else {
            -(a1 * b)
        }) <= (if a2 * b >= 0 {
            a2 * b
        } else {
            -(a2 * b)
        }),
{
}

/// A factor of smaller magnitude gives a product of smaller magnitude.
pub proof fn lemma_fmul_mag_mono(a1: int, a2: int, b: int)
    requires
        mag(a1) <= mag(a2),
    ensures
        mag(fmul_s(a1, b)) <= mag(fmul_s(a2, b)),
{
    lemma_mul_mag_mono_raw(a1, a2, b, mag(a1), mag(a2));
    let p1 = a1 * b;
    let p2 = a2 * b;
    vstd::arithmetic::div_mod::lemma_div_is_ordered(mag(p1), mag(p2), 1000000);
    vstd::arithmetic::div_mod::lemma_div_pos_is_pos(mag(p1), 1000000);
    assert(mag(tdiv_s(p1, FP as int)) == mag(p1) / 1000000);
    assert(mag(tdiv_s(p2, FP as int)) == mag(p2) / 1000000);
}

/// A fraction of one at most scales a magnitude down.
pub proof fn lemma_fmul_frac_le(g: int, l: int)
    requires
        0 <= g,
        0 <= l <= FP,
    ensures
        0 <= fmul_s(g, l) <= g,
{
    lemma_fmul_nonneg(g, l);
    assert(g * l <= g * 1000000) by (nonlinear_arith)
        requires
            0 <= g,
            0 <= l <= 1000000,
    ;
    assert(0 <= g * l) by (nonlinear_arith)
        requires
            0 <= g,
            0 <= l,
    ;
    vstd::arithmetic::div_mod::lemma_div_is_ordered(g * l, g * 1000000, 1000000);
    vstd::arithmetic::div_mod::lemma_div_by_multiple(g, 1000000);
}

/// Truncated division by a small positive constant.
pub fn tdivc(x: i64, d: i64) -> (r: i64)
    requires
        2 <= d,
    ensures
        r as int == tdiv_s(x as int, d as int),
{
    let m: u64 = mag64(x);
    proof {
        vstd::arithmetic::div_mod::lemma_div_is_ordered_by_denominator(m as int, 2, d as int);
    }
    let q: u64 = m / (d as u64);
    if x >= 0 {
        q as i64
    } else {
        -(q as i64)
    }
}

/// Any r in the square-root window names the square root itself.
pub proof fn lemma_sqrt_s_is(x: int, r: int)
    requires
        r >= 0,
        r * r <= x,
        x < (r + 1) * (r + 1),
    ensures
        sqrt_s(x) == r,
{
    assert(exists|q: int| q >= 0 && #[trigger] (q * q) <= x && x < (q + 1) * (q + 1)) by {
        assert(r >= 0 && r * r <= x && x < (r + 1) * (r + 1));
    }
    let p = sqrt_s(x);
    assert(p >= 0 && p * p <= x && x < (p + 1) * (p + 1));
    if p < r {
        assert((p + 1) * (p + 1) <= r * r) by (nonlinear_arith)
            requires
                0 <= p + 1 <= r,
        ;
    }
    if r < p {
        assert((r + 1) * (r + 1) <= p * p) by (nonlinear_arith)
            requires
                0 <= r + 1 <= p,
        ;
    }
}

/// Every nonnegative integer has a square root window, so sqrt_s is the
/// nonnegative root it names.
pub proof fn lemma_sqrt_exists(x: int)
    requires
        0 <= x,
    ensures
        0 <= sqrt_s(x),
        sqrt_s(x) * sqrt_s(x) <= x,
        x < (sqrt_s(x) + 1) * (sqrt_s(x) + 1),
    decreases x,
{
    if x == 0 {
        lemma_sqrt_s_is(0, 0);
    } else {
        lemma_sqrt_exists(x - 1);
        let r = sqrt_s(x - 1);
        if (r + 1) * (r + 1) <= x {
            assert(x < (r + 2) * (r + 2)) by (nonlinear_arith)
                requires
                    0 <= r,
                    x <= (r + 1) * (r + 1),
            ;
            lemma_sqrt_s_is(x, r + 1);
        } else {
            lemma_sqrt_s_is(x, r);
        }
    }
}

/// Integer square root by binary search over the result.
pub fn isqrt(n: u128) -> (r: u64)
    ensures
        r as int == sqrt_s(n as int),
        (r as int) * (r as int) <= n as int,
        (n as int) < (r as int + 1) * (r as int + 1),
{
    let mut lo: u64 = 0;
    let mut hi: u64 = u64::MAX;
    proof {
        assert(0x10000000000000000int * 0x10000000000000000int
            == 0x100000000000000000000000000000000int) by (nonlinear_arith);
    }
    while lo < hi
        invariant
            (lo as int) * (lo as int) <= n as int,
            (n as int) < (hi as int + 1) * (hi as int + 1),
            lo <= hi,
        decreases hi - lo,
    {
        let mid: u64 = lo + (hi - lo) / 2 + 1;
        proof {
            assert((mid as int) * (mid as int) < 0x100000000000000000000000000000000int)
                by (nonlinear_arith)
                requires
                    mid <= 0xffffffffffffffffu64,
            ;
        }
        let sq: u128 = (mid as u128) * (mid as u128);
        if sq <= n {
            lo = mid;
        } else {
            hi = mid - 1;
        }
    }
    proof {
        lemma_sqrt_s_is(n as int, lo as int);
    }
    lo
}

/// Euclidean length of the vector (x, y), saturated.
pub fn norm2(x: i64, y: i64) -> (r: i64)
    ensures
        r as int == sat_s(sqrt_s((x as int) * (x as int) + (y as int) * (y as int))),
        r >= 0,
{
    let mx: u128 = mag64(x) as u128;
    let my: u128 = mag64(y) as u128;
    proof {
        lemma_square_mag(x as int);
        lemma_square_mag(y as int);
        assert(mx * mx <= 0x40000000000000000000000000000000int && my * my
            <= 0x40000000000000000000000000000000int) by (nonlinear_arith)
            requires
                mx <= 0x8000000000000000,
                my <= 0x8000000000000000,
        ;
    }
    let s: u128 = mx * mx + my * my;
    let rt: u64 = isqrt(s);
    proof {
        assert(sqrt_s(s as int) == rt as int);
        assert(sqrt_s(s as int) >= 0);
    }
    if rt > FP_SAT as u64 {
        FP_SAT
    } else {
        rt as i64
    }
}

} // verus!
