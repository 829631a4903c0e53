//! The Hermite basis families.
//!
//! The quintic family lives here; the cubic and septic families live in the
//! submodules.  Each family maps a normalized parameter `t` in `[0, 1]` and a
//! basis index to an exact rational weight.  For a parameter `p / q` the six
//! quintic value weights share the denominator `2 q^5`, the first-derivative
//! weights `2 q^4` and the second-derivative weights `q^3`, so a weighted sum
//! over one family needs no further common denominator.

pub mod cubic;
pub mod septic;

use crate::scalar::{frac_is_one, frac_is_zero, frac_wf, lemma_mul_bounds, weight_ok, Frac,
    Scalar, PARAM_DEN_MAX};
use vstd::prelude::*;

verus! {

/// The exact value of the quintic basis function of index `n` at `t`, over
/// the common denominator `2 q^5`.  Index order: position-at-start,
/// velocity-at-start, acceleration-at-start, acceleration-at-end,
/// velocity-at-end, position-at-end.
pub open spec fn h5_frac(t: Frac, n: int) -> Frac
    recommends
        0 <= n <= 5,
{
    let p = t.num;
    let q = t.den;
    let p2 = p * p;
    let p3 = p2 * p;
    let p4 = p3 * p;
    let p5 = p4 * p;
    let q2 = q * q;
    let q3 = q2 * q;
    let q4 = q3 * q;
    let q5 = q4 * q;
    let m41 = p4 * q;
    let m32 = p3 * q2;
    let m23 = p2 * q3;
    let m14 = p * q4;
    Frac {
        num: if n == 0 {
            30 * m41 - 12 * p5 - 20 * m32 + 2 * q5
        } else if n == 1 {
            16 * m41 - 6 * p5 - 12 * m32 + 2 * m14
        } else if n == 2 {
            3 * m41 - p5 - 3 * m32 + m23
        } else if n == 3 {
            p5 - 2 * m41 + m32
        } else if n == 4 {
            14 * m41 - 6 * p5 - 8 * m32
        } else {
            12 * p5 - 30 * m41 + 20 * m32
        },
        den: 2 * q5,
    }
}

/// The exact value of the first derivative of the quintic basis function of
/// index `n` at `t`, over the common denominator `2 q^4`.
pub open spec fn h5p_frac(t: Frac, n: int) -> Frac
    recommends
        0 <= n <= 5,
{
    let p = t.num;
    let q = t.den;
    let p2 = p * p;
    let p3 = p2 * p;
    let p4 = p3 * p;
    let q2 = q * q;
    let q3 = q2 * q;
    let q4 = q3 * q;
    let m31 = p3 * q;
    let m22 = p2 * q2;
    let m13 = p * q3;
    Frac {
        num: if n == 0 {
            120 * m31 - 60 * p4 - 60 * m22
        } else if n == 1 {
            64 * m31 - 30 * p4 - 36 * m22 + 2 * q4
        } else if n == 2 {
            12 * m31 - 5 * p4 - 9 * m22 + 2 * m13
        } else if n == 3 {
            5 * p4 - 8 * m31 + 3 * m22
        } else if n == 4 {
            56 * m31 - 30 * p4 - 24 * m22
        } else {
            60 * p4 - 120 * m31 + 60 * m22
        },
        den: 2 * q4,
    }
}

/// The exact value of the second derivative of the quintic basis function of
/// index `n` at `t`, over the common denominator `q^3`.
pub open spec fn h5pp_frac(t: Frac, n: int) -> Frac
    recommends
        0 <= n <= 5,
{
    let p = t.num;
    let q = t.den;
    let p2 = p * p;
    let p3 = p2 * p;
    let q2 = q * q;
    let q3 = q2 * q;
    let m21 = p2 * q;
    let m12 = p * q2;
    Frac {
        num: if n == 0 {
            180 * m21 - 120 * p3 - 60 * m12
        } else if n == 1 {
            96 * m21 - 60 * p3 - 36 * m12
        } else if n == 2 {
            18 * m21 - 10 * p3 - 9 * m12 + q3
        } else if n == 3 {
            10 * p3 - 12 * m21 + 3 * m12
        } else if n == 4 {
            84 * m21 - 60 * p3 - 24 * m12
        } else {
            120 * p3 - 180 * m21 + 60 * m12
        },
        den: q3,
    }
}

/// Computes the value of a quintic Hermite basis function, exactly.
pub fn h_5(t: Scalar, n: usize) -> (r: Scalar)
    requires
        frac_wf(t@),
        0 <= t@.num <= t@.den,
        t@.den <= PARAM_DEN_MAX as int,
        n <= 5,
    ensures
        r@ == h5_frac(t@, n as int),
        frac_wf(r@),
{
    let p = t.num();
    let q = t.den();
    proof {
        lemma_mul_bounds(p as int, 0, 0x400, p as int, 0, 0x400);
        lemma_mul_bounds(q as int, 1, 0x400, q as int, 1, 0x400);
    }
    let p2 = p * p;
    let q2 = q * q;
    proof {
        lemma_mul_bounds(p2 as int, 0, 0x100000, p as int, 0, 0x400);
        lemma_mul_bounds(q2 as int, 1, 0x100000, q as int, 1, 0x400);
    }
    let p3 = p2 * p;
    let q3 = q2 * q;
    proof {
        lemma_mul_bounds(p3 as int, 0, 0x40000000, p as int, 0, 0x400);
        lemma_mul_bounds(q3 as int, 1, 0x40000000, q as int, 1, 0x400);
    }
    let p4 = p3 * p;
    let q4 = q3 * q;
    proof {
        lemma_mul_bounds(p4 as int, 0, 0x10000000000, p as int, 0, 0x400);
        lemma_mul_bounds(q4 as int, 1, 0x10000000000, q as int, 1, 0x400);
        lemma_mul_bounds(p4 as int, 0, 0x10000000000, q as int, 1, 0x400);
        lemma_mul_bounds(p3 as int, 0, 0x40000000, q2 as int, 1, 0x100000);
        lemma_mul_bounds(p2 as int, 0, 0x100000, q3 as int, 1, 0x40000000);
        lemma_mul_bounds(p as int, 0, 0x400, q4 as int, 1, 0x10000000000);
    }
    let p5 = p4 * p;
    let q5 = q4 * q;
    let m41 = p4 * q;
    let m32 = p3 * q2;
    let m23 = p2 * q3;
    let m14 = p * q4;
    let num: i128 = if n == 0 {
        30 * m41 - 12 * p5 - 20 * m32 + 2 * q5
    } else if n == 1 {
        16 * m41 - 6 * p5 - 12 * m32 + 2 * m14
    } else if n == 2 {
        3 * m41 - p5 - 3 * m32 + m23
    } else if n == 3 {
        p5 - 2 * m41 + m32
    } else if n == 4 {
        14 * m41 - 6 * p5 - 8 * m32
    } else {
        12 * p5 - 30 * m41 + 20 * m32
    };
    Scalar::new(num, 2 * q5)
}

/// Computes the value of the first time-derivative of a quintic Hermite basis
/// function, exactly.
pub fn h_5p(t: Scalar, n: usize) -> (r: Scalar)
    requires
        frac_wf(t@),
        0 <= t@.num <= t@.den,
        t@.den <= PARAM_DEN_MAX as int,
        n <= 5,
    ensures
        r@ == h5p_frac(t@, n as int),
        frac_wf(r@),
{
    let p = t.num();
    let q = t.den();
    proof {
        lemma_mul_bounds(p as int, 0, 0x400, p as int, 0, 0x400);
        lemma_mul_bounds(q as int, 1, 0x400, q as int, 1, 0x400);
    }
    let p2 = p * p;
    let q2 = q * q;
    proof {
        lemma_mul_bounds(p2 as int, 0, 0x100000, p as int, 0, 0x400);
        lemma_mul_bounds(q2 as int, 1, 0x100000, q as int, 1, 0x400);
        lemma_mul_bounds(p2 as int, 0, 0x100000, q2 as int, 1, 0x100000);
    }
    let p3 = p2 * p;
    let q3 = q2 * q;
    proof {
        lemma_mul_bounds(p3 as int, 0, 0x40000000, p as int, 0, 0x400);
        lemma_mul_bounds(q3 as int, 1, 0x40000000, q as int, 1, 0x400);
        lemma_mul_bounds(p3 as int, 0, 0x40000000, q as int, 1, 0x400);
        lemma_mul_bounds(p as int, 0, 0x400, q3 as int, 1, 0x40000000);
    }
    let p4 = p3 * p;
    let q4 = q3 * q;
    let m31 = p3 * q;
    let m22 = p2 * q2;
    let m13 = p * q3;
    let num: i128 = if n == 0 {
        120 * m31 - 60 * p4 - 60 * m22
    } else if n == 1 {
        64 * m31 - 30 * p4 - 36 * m22 + 2 * q4
    } else if n == 2 {
        12 * m31 - 5 * p4 - 9 * m22 + 2 * m13
    } else if n == 3 {
        5 * p4 - 8 * m31 + 3 * m22
    } else if n == 4 {
        56 * m31 - 30 * p4 - 24 * m22
    } else {
        60 * p4 - 120 * m31 + 60 * m22
    };
    Scalar::new(num, 2 * q4)
}

/// Computes the value of the second time-derivative of a quintic Hermite
/// basis function, exactly.
pub fn h_5pp(t: Scalar, n: usize) -> (r: Scalar)
    requires
        frac_wf(t@),
        0 <= t@.num <= t@.den,
        t@.den <= PARAM_DEN_MAX as int,
        n <= 5,
    ensures
        r@ == h5pp_frac(t@, n as int),
        frac_wf(r@),
{
    let p = t.num();
    let q = t.den();
    proof {
        lemma_mul_bounds(p as int, 0, 0x400, p as int, 0, 0x400);
        lemma_mul_bounds(q as int, 1, 0x400, q as int, 1, 0x400);
    }
    let p2 = p * p;
    let q2 = q * q;
    proof {
        lemma_mul_bounds(p2 as int, 0, 0x100000, p as int, 0, 0x400);
        lemma_mul_bounds(q2 as int, 1, 0x100000, q as int, 1, 0x400);
        lemma_mul_bounds(p2 as int, 0, 0x100000, q as int, 1, 0x400);
        lemma_mul_bounds(p as int, 0, 0x400, q2 as int, 1, 0x100000);
    }
    let p3 = p2 * p;
    let q3 = q2 * q;
    let m21 = p2 * q;
    let m12 = p * q2;
    let num: i128 = if n == 0 {
        180 * m21 - 120 * p3 - 60 * m12
    } else if n == 1 {
        96 * m21 - 60 * p3 - 36 * m12
    } else if n == 2 {
        18 * m21 - 10 * p3 - 9 * m12 + q3
    } else if n == 3 {
        10 * p3 - 12 * m21 + 3 * m12
    } else if n == 4 {
        84 * m21 - 60 * p3 - 24 * m12
    } else {
        120 * p3 - 180 * m21 + 60 * m12
    };
    Scalar::new(num, q3)
}

/// Every quintic value weight at an in-range parameter is small enough to
/// serve in a blend.
pub proof fn lemma_h5_weight_ok(t: Frac, n: int)
    requires
        frac_wf(t),
        0 <= t.num <= t.den,
        t.den <= PARAM_DEN_MAX as int,
        0 <= n <= 5,
    ensures
        weight_ok(h5_frac(t, n)),
        h5_frac(t, n).den == 2 * ((((t.den * t.den) * t.den) * t.den) * t.den),
{
    let p = t.num;
    let q = t.den;
    lemma_mul_bounds(p, 0, 0x400, p, 0, 0x400);
    lemma_mul_bounds(q, 1, 0x400, q, 1, 0x400);
    lemma_mul_bounds(p * p, 0, 0x100000, p, 0, 0x400);
    lemma_mul_bounds(q * q, 1, 0x100000, q, 1, 0x400);
    lemma_mul_bounds((p * p) * p, 0, 0x40000000, p, 0, 0x400);
    lemma_mul_bounds((q * q) * q, 1, 0x40000000, q, 1, 0x400);
    lemma_mul_bounds(((p * p) * p) * p, 0, 0x10000000000, p, 0, 0x400);
    lemma_mul_bounds(((q * q) * q) * q, 1, 0x10000000000, q, 1, 0x400);
    lemma_mul_bounds(((p * p) * p) * p, 0, 0x10000000000, q, 1, 0x400);
    lemma_mul_bounds((p * p) * p, 0, 0x40000000, q * q, 1, 0x100000);
    lemma_mul_bounds(p * p, 0, 0x100000, (q * q) * q, 1, 0x40000000);
    lemma_mul_bounds(p, 0, 0x400, ((q * q) * q) * q, 1, 0x10000000000);
}

/// Every quintic first-derivative weight at an in-range parameter is small
/// enough to serve in a blend.
pub proof fn lemma_h5p_weight_ok(t: Frac, n: int)
    requires
        frac_wf(t),
        0 <= t.num <= t.den,
        t.den <= PARAM_DEN_MAX as int,
        0 <= n <= 5,
    ensures
        weight_ok(h5p_frac(t, n)),
        h5p_frac(t, n).den == 2 * (((t.den * t.den) * t.den) * t.den),
{
    let p = t.num;
    let q = t.den;
    lemma_mul_bounds(p, 0, 0x400, p, 0, 0x400);
    lemma_mul_bounds(q, 1, 0x400, q, 1, 0x400);
    lemma_mul_bounds(p * p, 0, 0x100000, p, 0, 0x400);
    lemma_mul_bounds(q * q, 1, 0x100000, q, 1, 0x400);
    lemma_mul_bounds((p * p) * p, 0, 0x40000000, p, 0, 0x400);
    lemma_mul_bounds((q * q) * q, 1, 0x40000000, q, 1, 0x400);
    lemma_mul_bounds((p * p) * p, 0, 0x40000000, q, 1, 0x400);
    lemma_mul_bounds(p * p, 0, 0x100000, q * q, 1, 0x100000);
    lemma_mul_bounds(p, 0, 0x400, (q * q) * q, 1, 0x40000000);
}

/// Every quintic second-derivative weight at an in-range parameter is small
/// enough to serve in a blend.
pub proof fn lemma_h5pp_weight_ok(t: Frac, n: int)
    requires
        frac_wf(t),
        0 <= t.num <= t.den,
        t.den <= PARAM_DEN_MAX as int,
        0 <= n <= 5,
    ensures
        weight_ok(h5pp_frac(t, n)),
        h5pp_frac(t, n).den == (t.den * t.den) * t.den,
{
    let p = t.num;
    let q = t.den;
    lemma_mul_bounds(p, 0, 0x400, p, 0, 0x400);
    lemma_mul_bounds(q, 1, 0x400, q, 1, 0x400);
    lemma_mul_bounds(p * p, 0, 0x100000, p, 0, 0x400);
    lemma_mul_bounds(q * q, 1, 0x100000, q, 1, 0x400);
    lemma_mul_bounds(p * p, 0, 0x100000, q, 1, 0x400);
    lemma_mul_bounds(p, 0, 0x400, q * q, 1, 0x100000);
}

/// At the start of a segment the position-at-start value weight is one and
/// every other quintic value weight is zero.
pub proof fn lemma_h5_at_start(t: Frac, n: int)
    requires
        frac_wf(t),
        t.num == 0,
        0 <= n <= 5,
    ensures
        frac_wf(h5_frac(t, n)),
        n == 0 ==> frac_is_one(h5_frac(t, n)),
        n != 0 ==> frac_is_zero(h5_frac(t, n)),
{
    let p = t.num;
    let q = t.den;
    assert(p * p == 0 && (p * p) * p == 0 && ((p * p) * p) * p == 0 && (((p * p) * p) * p) * p
        == 0) by (nonlinear_arith)
        requires
            p == 0;
    assert((((p * p) * p) * p) * q == 0) by (nonlinear_arith)
        requires
            p == 0;
    assert(((p * p) * p) * (q * q) == 0) by (nonlinear_arith)
        requires
            p == 0;
    assert((p * p) * ((q * q) * q) == 0) by (nonlinear_arith)
        requires
            p == 0;
    assert(p * (((q * q) * q) * q) == 0) by (nonlinear_arith)
        requires
            p == 0;
    assert((((q * q) * q) * q) * q >= 1) by (nonlinear_arith)
        requires
            q >= 1;
}

/// At the end of a segment the position-at-end value weight is one and every
/// other quintic value weight is zero.
pub proof fn lemma_h5_at_end(t: Frac, n: int)
    requires
        frac_wf(t),
        t.num == t.den,
        0 <= n <= 5,
    ensures
        frac_wf(h5_frac(t, n)),
        n == 5 ==> frac_is_one(h5_frac(t, n)),
        n != 5 ==> frac_is_zero(h5_frac(t, n)),
{
    let q = t.den;
    let q2 = q * q;
    let q3 = q2 * q;
    let q4 = q3 * q;
    let q5 = q4 * q;
    assert(q3 * q2 == q5 && q2 * q3 == q5 && q * q4 == q5 && q5 >= 1) by (nonlinear_arith)
        requires
            q2 == q * q,
            q3 == q2 * q,
            q4 == q3 * q,
            q5 == q4 * q,
            q >= 1;
}

/// At the start of a segment the velocity-at-start derivative weight is one
/// and every other quintic first-derivative weight is zero.
pub proof fn lemma_h5p_at_start(t: Frac, n: int)
    requires
        frac_wf(t),
        t.num == 0,
        0 <= n <= 5,
    ensures
        frac_wf(h5p_frac(t, n)),
        n == 1 ==> frac_is_one(h5p_frac(t, n)),
        n != 1 ==> frac_is_zero(h5p_frac(t, n)),
{
    let p = t.num;
    let q = t.den;
    assert(p * p == 0 && (p * p) * p == 0 && ((p * p) * p) * p == 0) by (nonlinear_arith)
        requires
            p == 0;
    assert(((p * p) * p) * q == 0) by (nonlinear_arith)
        requires
            p == 0;
    assert((p * p) * (q * q) == 0) by (nonlinear_arith)
        requires
            p == 0;
    assert(p * ((q * q) * q) == 0) by (nonlinear_arith)
        requires
            p == 0;
    assert(((q * q) * q) * q >= 1) by (nonlinear_arith)
        requires
            q >= 1;
}

/// At the end of a segment the velocity-at-end derivative weight is one and
/// every other quintic first-derivative weight is zero.
pub proof fn lemma_h5p_at_end(t: Frac, n: int)
    requires
        frac_wf(t),
        t.num == t.den,
        0 <= n <= 5,
    ensures
        frac_wf(h5p_frac(t, n)),
        n == 4 ==> frac_is_one(h5p_frac(t, n)),
        n != 4 ==> frac_is_zero(h5p_frac(t, n)),
{
    let q = t.den;
    let q2 = q * q;
    let q3 = q2 * q;
    let q4 = q3 * q;
    assert(q3 * q == q4 && q2 * q2 == q4 && q * q3 == q4 && q4 >= 1) by (nonlinear_arith)
        requires
            q2 == q * q,
            q3 == q2 * q,
            q4 == q3 * q,
            q >= 1;
}

/// At the start of a segment the acceleration-at-start second-derivative
/// weight is one and every other quintic second-derivative weight is zero.
pub proof fn lemma_h5pp_at_start(t: Frac, n: int)
    requires
        frac_wf(t),
        t.num == 0,
        0 <= n <= 5,
    ensures
        frac_wf(h5pp_frac(t, n)),
        n == 2 ==> frac_is_one(h5pp_frac(t, n)),
        n != 2 ==> frac_is_zero(h5pp_frac(t, n)),
{
    let p = t.num;
    let q = t.den;
    assert(p * p == 0 && (p * p) * p == 0) by (nonlinear_arith)
        requires
            p == 0;
    assert((p * p) * q == 0) by (nonlinear_arith)
        requires
            p == 0;
    assert(p * (q * q) == 0) by (nonlinear_arith)
        requires
            p == 0;
    assert((q * q) * q >= 1) by (nonlinear_arith)
        requires
            q >= 1;
}

/// At the end of a segment the acceleration-at-end second-derivative weight
/// is one and every other quintic second-derivative weight is zero.
pub proof fn lemma_h5pp_at_end(t: Frac, n: int)
    requires
        frac_wf(t),
        t.num == t.den,
        0 <= n <= 5,
    ensures
        frac_wf(h5pp_frac(t, n)),
        n == 3 ==> frac_is_one(h5pp_frac(t, n)),
        n != 3 ==> frac_is_zero(h5pp_frac(t, n)),
{
    let q = t.den;
    let q2 = q * q;
    let q3 = q2 * q;
    assert(q2 * q == q3 && q * q2 == q3 && q3 >= 1) by (nonlinear_arith)
        requires
            q2 == q * q,
            q3 == q2 * q,
            q >= 1;
}

} // verus!
