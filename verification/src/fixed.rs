//! Fixed-point arithmetic shared by every peer.
//!
//! The simulation may not depend on platform floating point, so world
//! quantities (positions, velocities, trigonometric values) are integers
//! scaled by `FP_ONE`, and angles are integers in thousandths of a degree.
//! Every operation here rounds the same way on every machine, which is what
//! the rollback engine's bit-identical replay depends on.

use vstd::prelude::*;
use vstd::arithmetic::div_mod::*;
use vstd::arithmetic::mul::*;

verus! {

/// One world unit in fixed-point steps.
pub const FP_ONE: i64 = 65536;

/// `FP_ONE * FP_ONE`, the divisor after a product of two scaled values.
pub const FP_ONE_SQ: i64 = 65536 * 65536;

/// A full turn, in thousandths of a degree.
pub const FULL_TURN_MDEG: i64 = 360000;

/// Half a turn, in thousandths of a degree.
pub const HALF_TURN_MDEG: i64 = 180000;

/// A quarter turn, in thousandths of a degree.
pub const QUARTER_TURN_MDEG: i64 = 90000;

/// Base of the denominator in the rational sine approximation below.
pub const SIN_DEN_BASE: i64 = 40500000000;

/// Division that truncates toward zero, the rounding every peer shares.
///
/// Spec-level `/` is Euclidean, which rounds negative quotients away from
/// zero; the executable code works with magnitudes instead, and this function
/// is the meaning of that computation.
pub open spec fn tdiv(a: int, d: int) -> int {
    if a >= 0 {
        a / d
    } else {
        -((-a) / d)
    }
}

/// Truncating division by zero never arises: every divisor below is positive.
pub proof fn lemma_tdiv_zero(d: int)
    requires
        d > 0,
    ensures
        tdiv(0, d) == 0,
{
    lemma_div_of0(d);
}

/// A quotient is no larger in magnitude than what the dividend bound allows.
pub proof fn lemma_tdiv_bound(a: int, d: int, b: int)
    requires
        d > 0,
        b >= 0,
        -(b * d) <= a <= b * d,
    ensures
        -b <= tdiv(a, d) <= b,
{
    lemma_mul_is_commutative(b, d);
    if a >= 0 {
        lemma_div_pos_is_pos(a, d);
        lemma_multiply_divide_le(a, d, b);
    } else {
        lemma_div_pos_is_pos(-a, d);
        lemma_multiply_divide_le(-a, d, b);
    }
}

/// The quotient scaled back by the divisor stays within the dividend.
pub proof fn lemma_tdiv_mul_le(a: int, d: int)
    requires
        d > 0,
        a >= 0,
    ensures
        0 <= tdiv(a, d) * d <= a,
{
    lemma_div_pos_is_pos(a, d);
    lemma_fundamental_div_mod(a, d);
    lemma_mul_is_commutative(d, a / d);
}

/// Bounding a product from both sides by the bounds of its factors.
pub proof fn lemma_mul_abs_bound(a: int, b: int, ab: int, bb: int)
    by (nonlinear_arith)
    requires
        -ab <= a <= ab,
        -bb <= b <= bb,
    ensures
        -(ab * bb) <= a * b <= ab * bb,
{
}

/// Truncating division toward zero on machine integers.
pub fn tdiv64(a: i64, d: i64) -> (r: i64)
    requires
        d > 0,
        a > i64::MIN,
    ensures
        r == tdiv(a as int, d as int),
        a >= 0 ==> 0 <= r <= a,
        a < 0 ==> a <= r <= 0,
{
    if a >= 0 {
        let q: u64 = (a as u64) / (d as u64);
        proof {
            lemma_div_pos_is_pos(a as int, d as int);
            lemma_div_nonincreasing(a as int, d as int);
        }
        q as i64
    } else {
        let m: i64 = -a;
        let q: u64 = (m as u64) / (d as u64);
        proof {
            lemma_div_pos_is_pos(m as int, d as int);
            lemma_div_nonincreasing(m as int, d as int);
        }
        -(q as i64)
    }
}

/// The integer square-root floor, defined by counting up.
pub open spec fn sqrt_floor(n: nat) -> nat
    decreases n,
{
    if n == 0 {
        0
    } else {
        let p: nat = sqrt_floor((n - 1) as nat);
        if (p + 1) * (p + 1) <= n {
            (p + 1) as nat
        } else {
            p
        }
    }
}

/// `sqrt_floor` is exactly the rounded-down square root.
pub proof fn lemma_sqrt_floor(n: nat)
    ensures
        sqrt_floor(n) * sqrt_floor(n) <= n,
        n < (sqrt_floor(n) + 1) * (sqrt_floor(n) + 1),
    decreases n,
{
    if n == 0 {
        assert(sqrt_floor(0) == 0);
        assert(0 < (0 + 1) * (0 + 1)) by (nonlinear_arith);
    } else {
        lemma_sqrt_floor((n - 1) as nat);
        let p: nat = sqrt_floor((n - 1) as nat);
        if (p + 1) * (p + 1) <= n {
            assert(sqrt_floor(n) == p + 1);
            assert(n < (p + 1 + 1) * (p + 1 + 1)) by (nonlinear_arith)
                requires
                    n - 1 < (p + 1) * (p + 1),
                    (p + 1) * (p + 1) <= n,
            {
            }
            assert(sqrt_floor(n) * sqrt_floor(n) <= n);
            assert(n < (sqrt_floor(n) + 1) * (sqrt_floor(n) + 1));
        } else {
            assert(sqrt_floor(n) == p);
            assert(p * p <= n - 1 <= n);
            assert(sqrt_floor(n) * sqrt_floor(n) <= n);
            assert(n < (sqrt_floor(n) + 1) * (sqrt_floor(n) + 1));
        }
    }
}

/// Two candidates for the square-root floor of the same number agree.
pub proof fn lemma_sqrt_floor_unique(n: nat, r: nat)
    requires
        r * r <= n,
        n < (r + 1) * (r + 1),
    ensures
        r == sqrt_floor(n),
{
    lemma_sqrt_floor(n);
    let s: nat = sqrt_floor(n);
    assert(r == s) by (nonlinear_arith)
        requires
            r * r <= n,
            n < (r + 1) * (r + 1),
            s * s <= n,
            n < (s + 1) * (s + 1),
    {
    }
}

/// Square-root floor on machine integers, by bisection.
pub fn isqrt64(n: u64) -> (r: u64)
    ensures
        r == sqrt_floor(n as nat),
{
    let mut lo: u64 = 0;
    let mut hi: u64 = 4294967296;
    while lo + 1 < hi
        invariant
            lo < hi,
            hi <= 4294967296,
            lo * lo <= n,
            (n as int) < (hi as int) * (hi as int),
        decreases hi - lo,
    {
        let mid: u64 = lo + (hi - lo) / 2;
        proof {
            assert(mid < hi);
            assert(mid * mid <= 4294967295 * 4294967295) by (nonlinear_arith)
                requires
                    0 <= mid <= 4294967295,
            {
            }
        }
        if mid * mid <= n {
            lo = mid;
        } else {
            hi = mid;
        }
    }
    proof {
        lemma_sqrt_floor_unique(n as nat, lo as nat);
    }
    lo
}

/// Sine on `[0, half turn]`, as the rational approximation
/// `4 m (180000 - m) / (40500000000 - m (180000 - m))`, scaled by `FP_ONE`.
///
/// It is exact at 0, 30, 90, 150 and 180 degrees and within about half a
/// percent elsewhere, and it needs only integer operations, so every peer
/// computes the same value.
pub open spec fn sin_half_mdeg(m: int) -> int {
    let p: int = m * (HALF_TURN_MDEG - m);
    (4 * p * FP_ONE) / (SIN_DEN_BASE - p)
}

/// Sine over the whole circle: the second half turn mirrors the first.
pub open spec fn sin_mdeg(a: int) -> int {
    if a <= HALF_TURN_MDEG {
        sin_half_mdeg(a)
    } else {
        -sin_half_mdeg(a - HALF_TURN_MDEG)
    }
}

/// Bringing an angle that drifted at most one turn out of range back into
/// `[0, full turn)`.
pub open spec fn wrap_mdeg(x: int) -> int {
    if x < 0 {
        x + FULL_TURN_MDEG
    } else if x >= FULL_TURN_MDEG {
        x - FULL_TURN_MDEG
    } else {
        x
    }
}

/// Cosine, as the sine of the angle a quarter turn ahead.
pub open spec fn cos_mdeg(a: int) -> int {
    sin_mdeg(wrap_mdeg(a + QUARTER_TURN_MDEG))
}

/// Clamping a value into the symmetric interval `[-b, b]`.
pub open spec fn clamp_spec(x: int, b: int) -> int {
    if x < -b {
        -b
    } else if x > b {
        b
    } else {
        x
    }
}

/// Sine on machine integers for angles in the first half turn.
pub fn sin_half_fp(m: i64) -> (r: i64)
    requires
        0 <= m <= HALF_TURN_MDEG,
    ensures
        r == sin_half_mdeg(m as int),
        0 <= r <= FP_ONE,
{
    let mu: u64 = m as u64;
    proof {
        assert(mu * (180000 - mu) <= 8100000000) by (nonlinear_arith)
            requires
                0 <= mu <= 180000,
        {
        }
    }
    let p: u64 = mu * (180000 - mu);
    let num: u64 = 4 * p * 65536;
    let den: u64 = 40500000000 - p;
    let r: u64 = num / den;
    proof {
        assert((den as int) * 65536 == 65536 * (den as int));
        lemma_multiply_divide_le(num as int, den as int, 65536);
        lemma_div_pos_is_pos(num as int, den as int);
    }
    r as i64
}

/// Sine on machine integers over the whole circle.
pub fn sin_fp(a: i64) -> (r: i64)
    requires
        0 <= a < FULL_TURN_MDEG,
    ensures
        r == sin_mdeg(a as int),
        -FP_ONE <= r <= FP_ONE,
{
    if a <= HALF_TURN_MDEG {
        sin_half_fp(a)
    } else {
        -sin_half_fp(a - HALF_TURN_MDEG)
    }
}

/// Cosine on machine integers over the whole circle.
pub fn cos_fp(a: i64) -> (r: i64)
    requires
        0 <= a < FULL_TURN_MDEG,
    ensures
        r == cos_mdeg(a as int),
        -FP_ONE <= r <= FP_ONE,
{
    let shifted: i64 = a + QUARTER_TURN_MDEG;
    let b: i64 = if shifted >= FULL_TURN_MDEG {
        shifted - FULL_TURN_MDEG
    } else {
        shifted
    };
    sin_fp(b)
}

/// Wrapping an angle that moved at most one turn back into `[0, full turn)`.
pub fn wrap_angle(x: i64) -> (r: i64)
    requires
        -FULL_TURN_MDEG < x < 2 * FULL_TURN_MDEG,
    ensures
        r == wrap_mdeg(x as int),
        0 <= r < FULL_TURN_MDEG,
{
    if x < 0 {
        x + FULL_TURN_MDEG
    } else if x >= FULL_TURN_MDEG {
        x - FULL_TURN_MDEG
    } else {
        x
    }
}

/// The magnitude of an integer.
pub open spec fn abs_i(x: int) -> int {
    if x >= 0 {
        x
    } else {
        -x
    }
}

/// A truncated quotient scaled back by the divisor stays within the
/// dividend's magnitude.
pub proof fn lemma_tdiv_abs(x: int, d: int)
    requires
        d > 0,
    ensures
        0 <= abs_i(tdiv(x, d)),
        abs_i(tdiv(x, d)) * d <= abs_i(x),
{
    if x >= 0 {
        lemma_tdiv_mul_le(x, d);
    } else {
        lemma_tdiv_mul_le(-x, d);
    }
}

/// A value whose square is bounded by a square is bounded by the root.
pub proof fn lemma_sq_le(x: int, b: int)
    by (nonlinear_arith)
    requires
        x * x <= b * b,
        0 <= b,
    ensures
        -b <= x <= b,
{
}

/// A value whose square is strictly below a square is strictly below the root.
pub proof fn lemma_sq_lt(x: int, b: int)
    by (nonlinear_arith)
    requires
        x * x < b * b,
        0 <= b,
    ensures
        -b < x < b,
{
}

/// Magnitude distributes over a product with a non-negative factor.
pub proof fn lemma_abs_mul_nonneg(x: int, m: int)
    by (nonlinear_arith)
    requires
        m >= 0,
    ensures
        abs_i(x * m) == abs_i(x) * m,
{
}

/// The quadratic heart of the speed cap: magnitudes scaled down through a
/// divisor larger than the vector's own magnitude land inside the target.
pub proof fn lemma_sq_sum_scale(ax: int, ay: int, avx: int, avy: int, d: int, m: int)
    by (nonlinear_arith)
    requires
        ax >= 0,
        ay >= 0,
        avx >= 0,
        avy >= 0,
        d > 0,
        m >= 0,
        ax * d <= avx * m,
        ay * d <= avy * m,
        avx * avx + avy * avy < d * d,
    ensures
        ax * ax + ay * ay <= m * m,
{
    assert(ax * ax * (d * d) <= (avx * m) * (avx * m));
    assert(ay * ay * (d * d) <= (avy * m) * (avy * m));
    assert((ax * ax + ay * ay) * (d * d) <= (avx * avx + avy * avy) * (m * m));
}

/// Scaling a vector by `m / d`, with truncating division and `d` exceeding
/// the vector's magnitude, yields a vector of magnitude at most `m`.
pub proof fn lemma_scale_down_sq(vx: int, vy: int, d: int, m: int)
    requires
        d > 0,
        m >= 0,
        vx * vx + vy * vy < d * d,
    ensures
        tdiv(vx * m, d) * tdiv(vx * m, d) + tdiv(vy * m, d) * tdiv(vy * m, d) <= m * m,
        abs_i(tdiv(vx * m, d)) <= m,
        abs_i(tdiv(vy * m, d)) <= m,
{
    let px: int = tdiv(vx * m, d);
    let py: int = tdiv(vy * m, d);
    lemma_tdiv_abs(vx * m, d);
    lemma_tdiv_abs(vy * m, d);
    lemma_abs_mul_nonneg(vx, m);
    lemma_abs_mul_nonneg(vy, m);
    assert(abs_i(vx) * abs_i(vx) == vx * vx && abs_i(vy) * abs_i(vy) == vy * vy)
        by (nonlinear_arith);
    lemma_sq_sum_scale(abs_i(px), abs_i(py), abs_i(vx), abs_i(vy), d, m);
    assert(abs_i(px) * abs_i(px) == px * px && abs_i(py) * abs_i(py) == py * py)
        by (nonlinear_arith);
    assert(px * px >= 0 && py * py >= 0) by (nonlinear_arith);
    lemma_sq_le(px, m);
    lemma_sq_le(py, m);
}

/// Clamping on machine integers.
pub fn clamp64(x: i64, b: i64) -> (r: i64)
    requires
        0 <= b,
    ensures
        r == clamp_spec(x as int, b as int),
        -b <= r <= b,
{
    if x < -b {
        -b
    } else if x > b {
        b
    } else {
        x
    }
}

} // verus!
