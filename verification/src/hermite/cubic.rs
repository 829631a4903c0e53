//! The cubic Hermite basis functions.
//!
//! The four weights blend the boundary conditions position-at-start,
//! velocity-at-start, velocity-at-end and position-at-end of one segment.  For
//! a parameter `p / q` every weight is returned exactly, as a fraction over
//! `q^3` (value weights) or `q^2` (first-derivative weights).

use crate::scalar::{frac_is_one, frac_is_zero, frac_wf, lemma_mul_bounds, weight_ok, Frac,
    Scalar, PARAM_DEN_MAX};
use vstd::prelude::*;

verus! {

/// The exact value of the cubic basis function of index `n` at `t`:
/// `h0 = 2t^3 - 3t^2 + 1`, `h1 = t^3 - 2t^2 + t`, `h2 = t^3 - t^2`,
/// `h3 = -2t^3 + 3t^2`, written over the common denominator `q^3`.
pub open spec fn h3_frac(t: Frac, n: int) -> Frac
    recommends
        0 <= n <= 3,
{
    let p = t.num;
    let q = t.den;
    let p2 = p * p;
    let p3 = p2 * p;
    let q2 = q * q;
    let q3 = q2 * q;
    let m21 = p2 * q;
    Frac {
        num: if n == 0 {
            2 * p3 - 3 * m21 + q3
        } else if n == 1 {
            p3 - 2 * m21 + p * q2
        } else if n == 2 {
            p3 - m21
        } else {
            -2 * p3 + 3 * m21
        },
        den: q3,
    }
}

/// The exact value of the first derivative of the cubic basis function of
/// index `n` at `t`: `h0' = 6t^2 - 6t`, `h1' = 3t^2 - 4t + 1`,
/// `h2' = 3t^2 - 2t`, `h3' = -6t^2 + 6t`, over the common denominator `q^2`.
pub open spec fn h3p_frac(t: Frac, n: int) -> Frac
    recommends
        0 <= n <= 3,
{
    let p = t.num;
    let q = t.den;
    let p2 = p * p;
    let q2 = q * q;
    let m11 = p * q;
    Frac {
        num: if n == 0 {
            6 * p2 - 6 * m11
        } else if n == 1 {
            3 * p2 - 4 * m11 + q2
        } else if n == 2 {
            3 * p2 - 2 * m11
        } else {
            -6 * p2 + 6 * m11
        },
        den: q2,
    }
}

/// Computes the value of a cubic Hermite basis function, exactly.
pub fn h_3(t: Scalar, n: usize) -> (r: Scalar)
    requires
        frac_wf(t@),
        0 <= t@.num <= t@.den,
        t@.den <= PARAM_DEN_MAX as int,
        n <= 3,
    ensures
        r@ == h3_frac(t@, n as int),
        frac_wf(r@),
{
    let p = t.num();
    let q = t.den();
    proof {
        assert(0 <= p * p <= 0x100000 && p * p <= q * q) by (nonlinear_arith)
            requires
                0 <= p <= q <= 0x400;
        assert(1 <= q * q <= 0x100000) by (nonlinear_arith)
            requires
                1 <= q <= 0x400;
    }
    let p2 = p * p;
    let q2 = q * q;
    proof {
        assert(0 <= p2 * p <= 0x40000000) by (nonlinear_arith)
            requires
                0 <= p2 <= 0x100000,
                0 <= p <= 0x400;
        assert(1 <= q2 * q <= 0x40000000) by (nonlinear_arith)
            requires
                1 <= q2 <= 0x100000,
                1 <= q <= 0x400;
        assert(0 <= p2 * q <= 0x40000000) by (nonlinear_arith)
            requires
                0 <= p2 <= 0x100000,
                1 <= q <= 0x400;
        assert(0 <= p * q2 <= 0x40000000) by (nonlinear_arith)
            requires
                0 <= p <= 0x400,
                1 <= q2 <= 0x100000;
    }
    let p3 = p2 * p;
    let q3 = q2 * q;
    let m21 = p2 * q;
    let m12 = p * q2;
    let num: i128 = if n == 0 {
        2 * p3 - 3 * m21 + q3
    } else if n == 1 {
        p3 - 2 * m21 + m12
    } else if n == 2 {
        p3 - m21
    } else {
        3 * m21 - 2 * p3
    };
    Scalar::new(num, q3)
}

/// Computes the value of the first derivative of the corresponding cubic
/// Hermite basis function, exactly.
pub fn h_3p(t: Scalar, n: usize) -> (r: Scalar)
    requires
        frac_wf(t@),
        0 <= t@.num <= t@.den,
        t@.den <= PARAM_DEN_MAX as int,
        n <= 3,
    ensures
        r@ == h3p_frac(t@, n as int),
        frac_wf(r@),
{
    let p = t.num();
    let q = t.den();
    proof {
        assert(0 <= p * p <= 0x100000) by (nonlinear_arith)
            requires
                0 <= p <= 0x400;
        assert(1 <= q * q <= 0x100000) by (nonlinear_arith)
            requires
                1 <= q <= 0x400;
        assert(0 <= p * q <= 0x100000) by (nonlinear_arith)
            requires
                0 <= p <= 0x400,
                1 <= q <= 0x400;
    }
    let p2 = p * p;
    let q2 = q * q;
    let m11 = p * q;
    let num: i128 = if n == 0 {
        6 * p2 - 6 * m11
    } else if n == 1 {
        3 * p2 - 4 * m11 + q2
    } else if n == 2 {
        3 * p2 - 2 * m11
    } else {
        6 * m11 - 6 * p2
    };
    Scalar::new(num, q2)
}

/// Every cubic value weight at an in-range parameter is small enough to
/// serve in a blend.
pub proof fn lemma_h3_weight_ok(t: Frac, n: int)
    requires
        frac_wf(t),
        0 <= t.num <= t.den,
        t.den <= PARAM_DEN_MAX as int,
        0 <= n <= 3,
    ensures
        weight_ok(h3_frac(t, n)),
        h3_frac(t, n).den == ((t.den * t.den) * t.den),
{
    let p = t.num;
    let q = t.den;
    lemma_mul_bounds(p, 0, 0x400, p, 0, 0x400);
    lemma_mul_bounds(q, 1, 0x400, q, 1, 0x400);
    lemma_mul_bounds(p * p, 0, 0x100000, p, 0, 0x400);
    lemma_mul_bounds(q * q, 1, 0x100000, q, 1, 0x400);
    lemma_mul_bounds(p * p, 0, 0x100000, q, 1, 0x400);
    lemma_mul_bounds(p, 0, 0x400, q * q, 1, 0x100000);
}

/// Every cubic first-derivative weight at an in-range parameter is small
/// enough to serve in a blend.
pub proof fn lemma_h3p_weight_ok(t: Frac, n: int)
    requires
        frac_wf(t),
        0 <= t.num <= t.den,
        t.den <= PARAM_DEN_MAX as int,
        0 <= n <= 3,
    ensures
        weight_ok(h3p_frac(t, n)),
        h3p_frac(t, n).den == t.den * t.den,
{
    let p = t.num;
    let q = t.den;
    lemma_mul_bounds(p, 0, 0x400, p, 0, 0x400);
    lemma_mul_bounds(q, 1, 0x400, q, 1, 0x400);
    lemma_mul_bounds(p, 0, 0x400, q, 1, 0x400);
}

/// At the start of a segment the position-at-start value weight is one and
/// every other cubic value weight is zero.
pub proof fn lemma_h3_at_start(t: Frac, n: int)
    requires
        frac_wf(t),
        t.num == 0,
        0 <= n <= 3,
    ensures
        frac_wf(h3_frac(t, n)),
        n == 0 ==> frac_is_one(h3_frac(t, n)),
        n != 0 ==> frac_is_zero(h3_frac(t, n)),
{
    let p = t.num;
    let q = t.den;
    assert(p * p == 0) by (nonlinear_arith)
        requires
            p == 0;
    assert((p * p) * p == 0) by (nonlinear_arith)
        requires
            p == 0;
    assert((p * p) * q == 0) by (nonlinear_arith)
        requires
            p == 0;
    assert(p * (q * q) == 0) by (nonlinear_arith)
        requires
            p == 0;
    assert((q * q) * q >= 1) by (nonlinear_arith)
        requires
            q >= 1;
}

/// At the end of a segment the position-at-end value weight is one and every
/// other cubic value weight is zero.
pub proof fn lemma_h3_at_end(t: Frac, n: int)
    requires
        frac_wf(t),
        t.num == t.den,
        0 <= n <= 3,
    ensures
        frac_wf(h3_frac(t, n)),
        n == 3 ==> frac_is_one(h3_frac(t, n)),
        n != 3 ==> frac_is_zero(h3_frac(t, n)),
{
    let q = t.den;
    assert(q * (q * q) == (q * q) * q) by (nonlinear_arith);
    assert((q * q) * q >= 1) by (nonlinear_arith)
        requires
            q >= 1;
}

/// At the start of a segment the velocity-at-start derivative weight is one
/// and every other cubic derivative weight is zero.
pub proof fn lemma_h3p_at_start(t: Frac, n: int)
    requires
        frac_wf(t),
        t.num == 0,
        0 <= n <= 3,
    ensures
        frac_wf(h3p_frac(t, n)),
        n == 1 ==> frac_is_one(h3p_frac(t, n)),
        n != 1 ==> frac_is_zero(h3p_frac(t, n)),
{
    let p = t.num;
    let q = t.den;
    assert(p * p == 0) by (nonlinear_arith)
        requires
            p == 0;
    assert(p * q == 0) by (nonlinear_arith)
        requires
            p == 0;
    assert(q * q >= 1) by (nonlinear_arith)
        requires
            q >= 1;
}

/// At the end of a segment the velocity-at-end derivative weight is one and
/// every other cubic derivative weight is zero.
pub proof fn lemma_h3p_at_end(t: Frac, n: int)
    requires
        frac_wf(t),
        t.num == t.den,
        0 <= n <= 3,
    ensures
        frac_wf(h3p_frac(t, n)),
        n == 2 ==> frac_is_one(h3p_frac(t, n)),
        n != 2 ==> frac_is_zero(h3p_frac(t, n)),
{
    let q = t.den;
    assert(q * q >= 1) by (nonlinear_arith)
        requires
            q >= 1;
}

} // verus!
