//! The septic Hermite basis functions.
//!
//! Eight weights blend position, velocity, acceleration and jerk at the two
//! ends of a segment.  For a parameter `p / q` the value weights share the
//! denominator `6 q^7`, the first derivatives `6 q^6`, the second derivatives
//! `q^5` and the third derivatives `q^4`.

use crate::scalar::{frac_is_one, frac_is_zero, frac_wf, lemma_mul_bounds, Frac, Scalar,
    PARAM_DEN_MAX};
use vstd::prelude::*;

verus! {

/// The exact value of the septic basis function of index `n` at `t`, over
/// the common denominator `6 q^7`.  Index order: position, velocity,
/// acceleration and jerk at the start, then jerk, acceleration, velocity and
/// position at the end.
pub open spec fn h7_frac(t: Frac, n: int) -> Frac
    recommends
        0 <= n <= 7,
{
    let p = t.num;
    let q = t.den;
    let p2 = p * p;
    let p3 = p2 * p;
    let p4 = p3 * p;
    let p5 = p4 * p;
    let p6 = p5 * p;
    let p7 = p6 * p;
    let q2 = q * q;
    let q3 = q2 * q;
    let q4 = q3 * q;
    let q5 = q4 * q;
    let q6 = q5 * q;
    let q7 = q6 * q;
    let m61 = p6 * q;
    let m52 = p5 * q2;
    let m43 = p4 * q3;
    let m34 = p3 * q4;
    let m25 = p2 * q5;
    let m16 = p * q6;
    Frac {
        num: if n == 0 {
            120 * p7 - 420 * m61 + 504 * m52 - 210 * m43 + 6 * q7
        } else if n == 1 {
            60 * p7 - 216 * m61 + 270 * m52 - 120 * m43 + 6 * m16
        } else if n == 2 {
            12 * p7 - 45 * m61 + 60 * m52 - 30 * m43 + 3 * m25
        } else if n == 3 {
            p7 - 4 * m61 + 6 * m52 - 4 * m43 + m34
        } else if n == 4 {
            p7 - 3 * m61 + 3 * m52 - m43
        } else if n == 5 {
            39 * m61 - 12 * p7 - 42 * m52 + 15 * m43
        } else if n == 6 {
            60 * p7 - 204 * m61 + 234 * m52 - 90 * m43
        } else {
            420 * m61 - 120 * p7 - 504 * m52 + 210 * m43
        },
        den: 6 * q7,
    }
}

/// The exact value of the first derivative of the septic basis function of
/// index `n` at `t`, over the common denominator `6 q^6`.
pub open spec fn h7p_frac(t: Frac, n: int) -> Frac
    recommends
        0 <= n <= 7,
{
    let p = t.num;
    let q = t.den;
    let p2 = p * p;
    let p3 = p2 * p;
    let p4 = p3 * p;
    let p5 = p4 * p;
    let p6 = p5 * p;
    let q2 = q * q;
    let q3 = q2 * q;
    let q4 = q3 * q;
    let q5 = q4 * q;
    let q6 = q5 * q;
    let m51 = p5 * q;
    let m42 = p4 * q2;
    let m33 = p3 * q3;
    let m24 = p2 * q4;
    let m15 = p * q5;
    Frac {
        num: if n == 0 {
            840 * p6 - 2520 * m51 + 2520 * m42 - 840 * m33
        } else if n == 1 {
            420 * p6 - 1296 * m51 + 1350 * m42 - 480 * m33 + 6 * q6
        } else if n == 2 {
            84 * p6 - 270 * m51 + 300 * m42 - 120 * m33 + 6 * m15
        } else if n == 3 {
            7 * p6 - 24 * m51 + 30 * m42 - 16 * m33 + 3 * m24
        } else if n == 4 {
            7 * p6 - 18 * m51 + 15 * m42 - 4 * m33
        } else if n == 5 {
            234 * m51 - 84 * p6 - 210 * m42 + 60 * m33
        } else if n == 6 {
            420 * p6 - 1224 * m51 + 1170 * m42 - 360 * m33
        } else {
            2520 * m51 - 840 * p6 - 2520 * m42 + 840 * m33
        },
        den: 6 * q6,
    }
}

/// The exact value of the second derivative of the septic basis function of
/// index `n` at `t`, over the common denominator `q^5`.
pub open spec fn h7pp_frac(t: Frac, n: int) -> Frac
    recommends
        0 <= n <= 7,
{
    let p = t.num;
    let q = t.den;
    let p2 = p * p;
    let p3 = p2 * p;
    let p4 = p3 * p;
    let p5 = p4 * p;
    let q2 = q * q;
    let q3 = q2 * q;
    let q4 = q3 * q;
    let q5 = q4 * q;
    let m41 = p4 * q;
    let m32 = p3 * q2;
    let m23 = p2 * q3;
    let m14 = p * q4;
    Frac {
        num: if n == 0 {
            840 * p5 - 2100 * m41 + 1680 * m32 - 420 * m23
        } else if n == 1 {
            420 * p5 - 1080 * m41 + 900 * m32 - 240 * m23
        } else if n == 2 {
            84 * p5 - 225 * m41 + 200 * m32 - 60 * m23 + q5
        } else if n == 3 {
            7 * p5 - 20 * m41 + 20 * m32 - 8 * m23 + m14
        } else if n == 4 {
            7 * p5 - 15 * m41 + 10 * m32 - 2 * m23
        } else if n == 5 {
            195 * m41 - 84 * p5 - 140 * m32 + 30 * m23
        } else if n == 6 {
            420 * p5 - 1020 * m41 + 780 * m32 - 180 * m23
        } else {
            2100 * m41 - 840 * p5 - 1680 * m32 + 420 * m23
        },
        den: q5,
    }
}

/// The exact value of the third derivative of the septic basis function of
/// index `n` at `t`, over the common denominator `q^4`.
pub open spec fn h7ppp_frac(t: Frac, n: int) -> Frac
    recommends
        0 <= n <= 7,
{
    let p = t.num;
    let q = t.den;
    let p2 = p * p;
    let p3 = p2 * p;
    let p4 = p3 * p;
    let q2 = q * q;
    let q3 = q2 * q;
    let q4 = q3 * q;
    let m31 = p3 * q;
    let m22 = p2 * q2;
    let m13 = p * q3;
    Frac {
        num: if n == 0 {
            4200 * p4 - 8400 * m31 + 5040 * m22 - 840 * m13
        } else if n == 1 {
            2100 * p4 - 4320 * m31 + 2700 * m22 - 480 * m13
        } else if n == 2 {
            420 * p4 - 900 * m31 + 600 * m22 - 120 * m13
        } else if n == 3 {
            35 * p4 - 80 * m31 + 60 * m22 - 16 * m13 + q4
        } else if n == 4 {
            35 * p4 - 60 * m31 + 30 * m22 - 4 * m13
        } else if n == 5 {
            780 * m31 - 420 * p4 - 420 * m22 + 60 * m13
        } else if n == 6 {
            2100 * p4 - 4080 * m31 + 2340 * m22 - 360 * m13
        } else {
            8400 * m31 - 4200 * p4 - 5040 * m22 + 840 * m13
        },
        den: q4,
    }
}

/// Computes the value of a septic Hermite basis function, exactly.
pub fn h_7(t: Scalar, n: usize) -> (r: Scalar)
    requires
        frac_wf(t@),
        0 <= t@.num <= t@.den,
        t@.den <= PARAM_DEN_MAX as int,
        n <= 7,
    ensures
        r@ == h7_frac(t@, n as int),
        frac_wf(r@),
{
    let p = t.num();
    let q = t.den();
    proof {
        lemma_mul_bounds(p as int, 0, 0x400, p as int, 0, 0x400);
        lemma_mul_bounds(q as int, 1, 0x400, q as int, 1, 0x400);
    }
    let p2 = p * p;
    let q2 = q * q;
    proof {
        lemma_mul_bounds(p2 as int, 0, 0x100000, p as int, 0, 0x400);
        lemma_mul_bounds(q2 as int, 1, 0x100000, q as int, 1, 0x400);
    }
    let p3 = p2 * p;
    let q3 = q2 * q;
    proof {
        lemma_mul_bounds(p3 as int, 0, 0x40000000, p as int, 0, 0x400);
        lemma_mul_bounds(q3 as int, 1, 0x40000000, q as int, 1, 0x400);
    }
    let p4 = p3 * p;
    let q4 = q3 * q;
    proof {
        lemma_mul_bounds(p4 as int, 0, 0x10000000000, p as int, 0, 0x400);
        lemma_mul_bounds(q4 as int, 1, 0x10000000000, q as int, 1, 0x400);
    }
    let p5 = p4 * p;
    let q5 = q4 * q;
    proof {
        lemma_mul_bounds(p5 as int, 0, 0x4000000000000, p as int, 0, 0x400);
        lemma_mul_bounds(q5 as int, 1, 0x4000000000000, q as int, 1, 0x400);
    }
    let p6 = p5 * p;
    let q6 = q5 * q;
    proof {
        lemma_mul_bounds(p6 as int, 0, 0x1000000000000000, p as int, 0, 0x400);
        lemma_mul_bounds(q6 as int, 1, 0x1000000000000000, q as int, 1, 0x400);
        lemma_mul_bounds(p6 as int, 0, 0x1000000000000000, q as int, 1, 0x400);
        lemma_mul_bounds(p5 as int, 0, 0x4000000000000, q2 as int, 1, 0x100000);
        lemma_mul_bounds(p4 as int, 0, 0x10000000000, q3 as int, 1, 0x40000000);
        lemma_mul_bounds(p3 as int, 0, 0x40000000, q4 as int, 1, 0x10000000000);
        lemma_mul_bounds(p2 as int, 0, 0x100000, q5 as int, 1, 0x4000000000000);
        lemma_mul_bounds(p as int, 0, 0x400, q6 as int, 1, 0x1000000000000000);
    }
    let p7 = p6 * p;
    let q7 = q6 * q;
    let m61 = p6 * q;
    let m52 = p5 * q2;
    let m43 = p4 * q3;
    let m34 = p3 * q4;
    let m25 = p2 * q5;
    let m16 = p * q6;
    let num: i128 = if n == 0 {
        120 * p7 - 420 * m61 + 504 * m52 - 210 * m43 + 6 * q7
    } else if n == 1 {
        60 * p7 - 216 * m61 + 270 * m52 - 120 * m43 + 6 * m16
    } else if n == 2 {
        12 * p7 - 45 * m61 + 60 * m52 - 30 * m43 + 3 * m25
    } else if n == 3 {
        p7 - 4 * m61 + 6 * m52 - 4 * m43 + m34
    } else if n == 4 {
        p7 - 3 * m61 + 3 * m52 - m43
    } else if n == 5 {
        39 * m61 - 12 * p7 - 42 * m52 + 15 * m43
    } else if n == 6 {
        60 * p7 - 204 * m61 + 234 * m52 - 90 * m43
    } else {
        420 * m61 - 120 * p7 - 504 * m52 + 210 * m43
    };
    Scalar::new(num, 6 * q7)
}

/// Computes the value of the first time-derivative of a septic Hermite basis
/// function, exactly.
pub fn h_7p(t: Scalar, n: usize) -> (r: Scalar)
    requires
        frac_wf(t@),
        0 <= t@.num <= t@.den,
        t@.den <= PARAM_DEN_MAX as int,
        n <= 7,
    ensures
        r@ == h7p_frac(t@, n as int),
        frac_wf(r@),
{
    let p = t.num();
    let q = t.den();
    proof {
        lemma_mul_bounds(p as int, 0, 0x400, p as int, 0, 0x400);
        lemma_mul_bounds(q as int, 1, 0x400, q as int, 1, 0x400);
    }
    let p2 = p * p;
    let q2 = q * q;
    proof {
        lemma_mul_bounds(p2 as int, 0, 0x100000, p as int, 0, 0x400);
        lemma_mul_bounds(q2 as int, 1, 0x100000, q as int, 1, 0x400);
    }
    let p3 = p2 * p;
    let q3 = q2 * q;
    proof {
        lemma_mul_bounds(p3 as int, 0, 0x40000000, p as int, 0, 0x400);
        lemma_mul_bounds(q3 as int, 1, 0x40000000, q as int, 1, 0x400);
    }
    let p4 = p3 * p;
    let q4 = q3 * q;
    proof {
        lemma_mul_bounds(p4 as int, 0, 0x10000000000, p as int, 0, 0x400);
        lemma_mul_bounds(q4 as int, 1, 0x10000000000, q as int, 1, 0x400);
    }
    let p5 = p4 * p;
    let q5 = q4 * q;
    proof {
        lemma_mul_bounds(p5 as int, 0, 0x4000000000000, p as int, 0, 0x400);
        lemma_mul_bounds(q5 as int, 1, 0x4000000000000, q as int, 1, 0x400);
        lemma_mul_bounds(p5 as int, 0, 0x4000000000000, q as int, 1, 0x400);
        lemma_mul_bounds(p4 as int, 0, 0x10000000000, q2 as int, 1, 0x100000);
        lemma_mul_bounds(p3 as int, 0, 0x40000000, q3 as int, 1, 0x40000000);
        lemma_mul_bounds(p2 as int, 0, 0x100000, q4 as int, 1, 0x10000000000);
        lemma_mul_bounds(p as int, 0, 0x400, q5 as int, 1, 0x4000000000000);
    }
    let p6 = p5 * p;
    let q6 = q5 * q;
    let m51 = p5 * q;
    let m42 = p4 * q2;
    let m33 = p3 * q3;
    let m24 = p2 * q4;
    let m15 = p * q5;
    let num: i128 = if n == 0 {
        840 * p6 - 2520 * m51 + 2520 * m42 - 840 * m33
    } else if n == 1 {
        420 * p6 - 1296 * m51 + 1350 * m42 - 480 * m33 + 6 * q6
    } else if n == 2 {
        84 * p6 - 270 * m51 + 300 * m42 - 120 * m33 + 6 * m15
    } else if n == 3 {
        7 * p6 - 24 * m51 + 30 * m42 - 16 * m33 + 3 * m24
    } else if n == 4 {
        7 * p6 - 18 * m51 + 15 * m42 - 4 * m33
    } else if n == 5 {
        234 * m51 - 84 * p6 - 210 * m42 + 60 * m33
    } else if n == 6 {
        420 * p6 - 1224 * m51 + 1170 * m42 - 360 * m33
    } else {
        2520 * m51 - 840 * p6 - 2520 * m42 + 840 * m33
    };
    Scalar::new(num, 6 * q6)
}

/// Computes the value of the second time-derivative of a septic Hermite
/// basis function, exactly.
pub fn h_7pp(t: Scalar, n: usize) -> (r: Scalar)
    requires
        frac_wf(t@),
        0 <= t@.num <= t@.den,
        t@.den <= PARAM_DEN_MAX as int,
        n <= 7,
    ensures
        r@ == h7pp_frac(t@, n as int),
        frac_wf(r@),
{
    let p = t.num();
    let q = t.den();
    proof {
        lemma_mul_bounds(p as int, 0, 0x400, p as int, 0, 0x400);
        lemma_mul_bounds(q as int, 1, 0x400, q as int, 1, 0x400);
    }
    let p2 = p * p;
    let q2 = q * q;
    proof {
        lemma_mul_bounds(p2 as int, 0, 0x100000, p as int, 0, 0x400);
        lemma_mul_bounds(q2 as int, 1, 0x100000, q as int, 1, 0x400);
    }
    let p3 = p2 * p;
    let q3 = q2 * q;
    proof {
        lemma_mul_bounds(p3 as int, 0, 0x40000000, p as int, 0, 0x400);
        lemma_mul_bounds(q3 as int, 1, 0x40000000, q as int, 1, 0x400);
    }
    let p4 = p3 * p;
    let q4 = q3 * q;
    proof {
        lemma_mul_bounds(p4 as int, 0, 0x10000000000, p as int, 0, 0x400);
        lemma_mul_bounds(q4 as int, 1, 0x10000000000, q as int, 1, 0x400);
        lemma_mul_bounds(p4 as int, 0, 0x10000000000, q as int, 1, 0x400);
        lemma_mul_bounds(p3 as int, 0, 0x40000000, q2 as int, 1, 0x100000);
        lemma_mul_bounds(p2 as int, 0, 0x100000, q3 as int, 1, 0x40000000);
        lemma_mul_bounds(p as int, 0, 0x400, q4 as int, 1, 0x10000000000);
    }
    let p5 = p4 * p;
    let q5 = q4 * q;
    let m41 = p4 * q;
    let m32 = p3 * q2;
    let m23 = p2 * q3;
    let m14 = p * q4;
    let num: i128 = if n == 0 {
        840 * p5 - 2100 * m41 + 1680 * m32 - 420 * m23
    } else if n == 1 {
        420 * p5 - 1080 * m41 + 900 * m32 - 240 * m23
    } else if n == 2 {
        84 * p5 - 225 * m41 + 200 * m32 - 60 * m23 + q5
    } else if n == 3 {
        7 * p5 - 20 * m41 + 20 * m32 - 8 * m23 + m14
    } else if n == 4 {
        7 * p5 - 15 * m41 + 10 * m32 - 2 * m23
    } else if n == 5 {
        195 * m41 - 84 * p5 - 140 * m32 + 30 * m23
    } else if n == 6 {
        420 * p5 - 1020 * m41 + 780 * m32 - 180 * m23
    } else {
        2100 * m41 - 840 * p5 - 1680 * m32 + 420 * m23
    };
    Scalar::new(num, q5)
}

/// Computes the value of the third time-derivative of a septic Hermite basis
/// function, exactly.
pub fn h_7ppp(t: Scalar, n: usize) -> (r: Scalar)
    requires
        frac_wf(t@),
        0 <= t@.num <= t@.den,
        t@.den <= PARAM_DEN_MAX as int,
        n <= 7,
    ensures
        r@ == h7ppp_frac(t@, n as int),
        frac_wf(r@),
{
    let p = t.num();
    let q = t.den();
    proof {
        lemma_mul_bounds(p as int, 0, 0x400, p as int, 0, 0x400);
        lemma_mul_bounds(q as int, 1, 0x400, q as int, 1, 0x400);
    }
    let p2 = p * p;
    let q2 = q * q;
    proof {
        lemma_mul_bounds(p2 as int, 0, 0x100000, p as int, 0, 0x400);
        lemma_mul_bounds(q2 as int, 1, 0x100000, q as int, 1, 0x400);
        lemma_mul_bounds(p2 as int, 0, 0x100000, q2 as int, 1, 0x100000);
    }
    let p3 = p2 * p;
    let q3 = q2 * q;
    proof {
        lemma_mul_bounds(p3 as int, 0, 0x40000000, p as int, 0, 0x400);
        lemma_mul_bounds(q3 as int, 1, 0x40000000, q as int, 1, 0x400);
        lemma_mul_bounds(p3 as int, 0, 0x40000000, q as int, 1, 0x400);
        lemma_mul_bounds(p as int, 0, 0x400, q3 as int, 1, 0x40000000);
    }
    let p4 = p3 * p;
    let q4 = q3 * q;
    let m31 = p3 * q;
    let m22 = p2 * q2;
    let m13 = p * q3;
    let num: i128 = if n == 0 {
        4200 * p4 - 8400 * m31 + 5040 * m22 - 840 * m13
    } else if n == 1 {
        2100 * p4 - 4320 * m31 + 2700 * m22 - 480 * m13
    } else if n == 2 {
        420 * p4 - 900 * m31 + 600 * m22 - 120 * m13
    } else if n == 3 {
        35 * p4 - 80 * m31 + 60 * m22 - 16 * m13 + q4
    } else if n == 4 {
        35 * p4 - 60 * m31 + 30 * m22 - 4 * m13
    } else if n == 5 {
        780 * m31 - 420 * p4 - 420 * m22 + 60 * m13
    } else if n == 6 {
        2100 * p4 - 4080 * m31 + 2340 * m22 - 360 * m13
    } else {
        8400 * m31 - 4200 * p4 - 5040 * m22 + 840 * m13
    };
    Scalar::new(num, q4)
}

/// At the start of a segment the position-at-start value weight is one and
/// every other septic value weight is zero.
pub proof fn lemma_h7_at_start(t: Frac, n: int)
    requires
        frac_wf(t),
        t.num == 0,
        0 <= n <= 7,
    ensures
        frac_wf(h7_frac(t, n)),
        n == 0 ==> frac_is_one(h7_frac(t, n)),
        n != 0 ==> frac_is_zero(h7_frac(t, n)),
{
    let p = t.num;
    let q = t.den;
    assert(p * p == 0 && (p * p) * p == 0 && ((p * p) * p) * p == 0 && (((p * p) * p) * p) * p
        == 0 && ((((p * p) * p) * p) * p) * p == 0 && (((((p * p) * p) * p) * p) * p) * p
        == 0) by (nonlinear_arith)
        requires
            p == 0;
    assert((((((p * p) * p) * p) * p) * p) * q == 0) by (nonlinear_arith)
        requires
            p == 0;
    assert(((((p * p) * p) * p) * p) * (q * q) == 0) by (nonlinear_arith)
        requires
            p == 0;
    assert((((p * p) * p) * p) * ((q * q) * q) == 0) by (nonlinear_arith)
        requires
            p == 0;
    assert(((p * p) * p) * (((q * q) * q) * q) == 0) by (nonlinear_arith)
        requires
            p == 0;
    assert((p * p) * ((((q * q) * q) * q) * q) == 0) by (nonlinear_arith)
        requires
            p == 0;
    assert(p * (((((q * q) * q) * q) * q) * q) == 0) by (nonlinear_arith)
        requires
            p == 0;
    assert((((((q * q) * q) * q) * q) * q) * q >= 1) by (nonlinear_arith)
        requires
            q >= 1;
}

/// At the end of a segment the position-at-end value weight is one and every
/// other septic value weight is zero.
pub proof fn lemma_h7_at_end(t: Frac, n: int)
    requires
        frac_wf(t),
        t.num == t.den,
        0 <= n <= 7,
    ensures
        frac_wf(h7_frac(t, n)),
        n == 7 ==> frac_is_one(h7_frac(t, n)),
        n != 7 ==> frac_is_zero(h7_frac(t, n)),
{
    let q = t.den;
    let q2 = q * q;
    let q3 = q2 * q;
    let q4 = q3 * q;
    let q5 = q4 * q;
    let q6 = q5 * q;
    let q7 = q6 * q;
    assert(q5 * q2 == q7 && q4 * q3 == q7 && q3 * q4 == q7 && q2 * q5 == q7 && q * q6 == q7 && q7
        >= 1) by (nonlinear_arith)
        requires
            q2 == q * q,
            q3 == q2 * q,
            q4 == q3 * q,
            q5 == q4 * q,
            q6 == q5 * q,
            q7 == q6 * q,
            q >= 1;
}

/// At the start of a segment the velocity-at-start derivative weight is one
/// and every other septic first-derivative weight is zero.
pub proof fn lemma_h7p_at_start(t: Frac, n: int)
    requires
        frac_wf(t),
        t.num == 0,
        0 <= n <= 7,
    ensures
        frac_wf(h7p_frac(t, n)),
        n == 1 ==> frac_is_one(h7p_frac(t, n)),
        n != 1 ==> frac_is_zero(h7p_frac(t, n)),
{
    let p = t.num;
    let q = t.den;
    assert(p * p == 0 && (p * p) * p == 0 && ((p * p) * p) * p == 0 && (((p * p) * p) * p) * p
        == 0 && ((((p * p) * p) * p) * p) * p == 0) by (nonlinear_arith)
        requires
            p == 0;
    assert(((((p * p) * p) * p) * p) * q == 0) by (nonlinear_arith)
        requires
            p == 0;
    assert((((p * p) * p) * p) * (q * q) == 0) by (nonlinear_arith)
        requires
            p == 0;
    assert(((p * p) * p) * ((q * q) * q) == 0) by (nonlinear_arith)
        requires
            p == 0;
    assert((p * p) * (((q * q) * q) * q) == 0) by (nonlinear_arith)
        requires
            p == 0;
    assert(p * ((((q * q) * q) * q) * q) == 0) by (nonlinear_arith)
        requires
            p == 0;
    assert(((((q * q) * q) * q) * q) * q >= 1) by (nonlinear_arith)
        requires
            q >= 1;
}

/// At the end of a segment the velocity-at-end derivative weight is one and
/// every other septic first-derivative weight is zero.
pub proof fn lemma_h7p_at_end(t: Frac, n: int)
    requires
        frac_wf(t),
        t.num == t.den,
        0 <= n <= 7,
    ensures
        frac_wf(h7p_frac(t, n)),
        n == 6 ==> frac_is_one(h7p_frac(t, n)),
        n != 6 ==> frac_is_zero(h7p_frac(t, n)),
{
    let q = t.den;
    let q2 = q * q;
    let q3 = q2 * q;
    let q4 = q3 * q;
    let q5 = q4 * q;
    let q6 = q5 * q;
    assert(q4 * q2 == q6 && q3 * q3 == q6 && q2 * q4 == q6 && q * q5 == q6 && q6
        >= 1) by (nonlinear_arith)
        requires
            q2 == q * q,
            q3 == q2 * q,
            q4 == q3 * q,
            q5 == q4 * q,
            q6 == q5 * q,
            q >= 1;
}

/// At the start of a segment the acceleration-at-start second-derivative
/// weight is one and every other septic second-derivative weight is zero.
pub proof fn lemma_h7pp_at_start(t: Frac, n: int)
    requires
        frac_wf(t),
        t.num == 0,
        0 <= n <= 7,
    ensures
        frac_wf(h7pp_frac(t, n)),
        n == 2 ==> frac_is_one(h7pp_frac(t, n)),
        n != 2 ==> frac_is_zero(h7pp_frac(t, n)),
{
    let p = t.num;
    let q = t.den;
    assert(p * p == 0 && (p * p) * p == 0 && ((p * p) * p) * p == 0 && (((p * p) * p) * p) * p
        == 0) by (nonlinear_arith)
        requires
            p == 0;
    assert((((p * p) * p) * p) * q == 0) by (nonlinear_arith)
        requires
            p == 0;
    assert(((p * p) * p) * (q * q) == 0) by (nonlinear_arith)
        requires
            p == 0;
    assert((p * p) * ((q * q) * q) == 0) by (nonlinear_arith)
        requires
            p == 0;
    assert(p * (((q * q) * q) * q) == 0) by (nonlinear_arith)
        requires
            p == 0;
    assert((((q * q) * q) * q) * q >= 1) by (nonlinear_arith)
        requires
            q >= 1;
}

/// At the end of a segment the acceleration-at-end second-derivative weight
/// is one and every other septic second-derivative weight is zero.
pub proof fn lemma_h7pp_at_end(t: Frac, n: int)
    requires
        frac_wf(t),
        t.num == t.den,
        0 <= n <= 7,
    ensures
        frac_wf(h7pp_frac(t, n)),
        n == 5 ==> frac_is_one(h7pp_frac(t, n)),
        n != 5 ==> frac_is_zero(h7pp_frac(t, n)),
{
    let q = t.den;
    let q2 = q * q;
    let q3 = q2 * q;
    let q4 = q3 * q;
    let q5 = q4 * q;
    assert(q3 * q2 == q5 && q2 * q3 == q5 && q * q4 == q5 && q5 >= 1) by (nonlinear_arith)
        requires
            q2 == q * q,
            q3 == q2 * q,
            q4 == q3 * q,
            q5 == q4 * q,
            q >= 1;
}

/// At the start of a segment the jerk-at-start third-derivative weight is
/// one and every other septic third-derivative weight is zero.
pub proof fn lemma_h7ppp_at_start(t: Frac, n: int)
    requires
        frac_wf(t),
        t.num == 0,
        0 <= n <= 7,
    ensures
        frac_wf(h7ppp_frac(t, n)),
        n == 3 ==> frac_is_one(h7ppp_frac(t, n)),
        n != 3 ==> frac_is_zero(h7ppp_frac(t, n)),
{
    let p = t.num;
    let q = t.den;
    assert(p * p == 0 && (p * p) * p == 0 && ((p * p) * p) * p == 0) by (nonlinear_arith)
        requires
            p == 0;
    assert(((p * p) * p) * q == 0) by (nonlinear_arith)
        requires
            p == 0;
    assert((p * p) * (q * q) == 0) by (nonlinear_arith)
        requires
            p == 0;
    assert(p * ((q * q) * q) == 0) by (nonlinear_arith)
        requires
            p == 0;
    assert(((q * q) * q) * q >= 1) by (nonlinear_arith)
        requires
            q >= 1;
}

/// At the end of a segment the jerk-at-end third-derivative weight is one
/// and every other septic third-derivative weight is zero.
pub proof fn lemma_h7ppp_at_end(t: Frac, n: int)
    requires
        frac_wf(t),
        t.num == t.den,
        0 <= n <= 7,
    ensures
        frac_wf(h7ppp_frac(t, n)),
        n == 4 ==> frac_is_one(h7ppp_frac(t, n)),
        n != 4 ==> frac_is_zero(h7ppp_frac(t, n)),
{
    let q = t.den;
    let q2 = q * q;
    let q3 = q2 * q;
    let q4 = q3 * q;
    assert(q2 * q2 == q4 && q * q3 == q4 && q4 >= 1) by (nonlinear_arith)
        requires
            q2 == q * q,
            q3 == q2 * q,
            q4 == q3 * q,
            q >= 1;
}

} // verus!
