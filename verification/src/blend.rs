//! Weighted sums of coordinates against basis weights.
//!
//! A blend multiplies each boundary coordinate by its basis weight and sums
//! the products.  All weights of one basis family at one parameter share a
//! denominator, so the sum is formed directly over the common denominator of
//! the coordinates and that shared weight denominator, which keeps every
//! intermediate product inside the range of `i128`.

use crate::scalar::{coord_ok, frac_add, frac_eq, frac_is_one, frac_is_zero, frac_mul, frac_wf,
    lemma_mul_abs_bounds, lemma_mul_bounds, weight_ok, Frac, Scalar};
use vstd::arithmetic::mul::{lemma_mul_is_associative, lemma_mul_is_commutative};
use vstd::prelude::*;

verus! {

/// The exact weighted sum `c0*w0 + c1*w1 + c2*w2 + c3*w3`, written over the
/// common denominator `w0.den * (c0.den * c1.den * c2.den * c3.den)`; the
/// weights are meant to share their denominator.
pub open spec fn blend4_frac(
    c0: Frac,
    c1: Frac,
    c2: Frac,
    c3: Frac,
    w0: Frac,
    w1: Frac,
    w2: Frac,
    w3: Frac,
) -> Frac
    recommends
        w0.den == w1.den == w2.den == w3.den,
{
    let d0 = c0.den;
    let d1 = c1.den;
    let d2 = c2.den;
    let d3 = c3.den;
    let s23 = d2 * d3;
    let s123 = d1 * s23;
    let s0123 = d0 * s123;
    let r01 = d0 * d1;
    let n0 = (c0.num * w0.num) * s123;
    let n1 = (c1.num * w1.num) * (d0 * s23);
    let n2 = (c2.num * w2.num) * (r01 * d3);
    let n3 = (c3.num * w3.num) * (r01 * d2);
    Frac { num: ((n0 + n1) + n2) + n3, den: w0.den * s0123 }
}

/// The exact weighted sum of six coordinates against six weights sharing a
/// denominator, over the common denominator of all the fractions involved.
pub open spec fn blend6_frac(
    c0: Frac,
    c1: Frac,
    c2: Frac,
    c3: Frac,
    c4: Frac,
    c5: Frac,
    w0: Frac,
    w1: Frac,
    w2: Frac,
    w3: Frac,
    w4: Frac,
    w5: Frac,
) -> Frac
    recommends
        w0.den == w1.den == w2.den == w3.den == w4.den == w5.den,
{
    let d0 = c0.den;
    let d1 = c1.den;
    let d2 = c2.den;
    let d3 = c3.den;
    let d4 = c4.den;
    let d5 = c5.den;
    let s45 = d4 * d5;
    let s345 = d3 * s45;
    let s2345 = d2 * s345;
    let s12345 = d1 * s2345;
    let s012345 = d0 * s12345;
    let r01 = d0 * d1;
    let r012 = r01 * d2;
    let r0123 = r012 * d3;
    let n0 = (c0.num * w0.num) * s12345;
    let n1 = (c1.num * w1.num) * (d0 * s2345);
    let n2 = (c2.num * w2.num) * (r01 * s345);
    let n3 = (c3.num * w3.num) * (r012 * s45);
    let n4 = (c4.num * w4.num) * (r0123 * d5);
    let n5 = (c5.num * w5.num) * (r0123 * d4);
    Frac { num: ((((n0 + n1) + n2) + n3) + n4) + n5, den: w0.den * s012345 }
}

proof fn lemma_pick_term(cn: int, w: int, co: int, dk: int, full: int)
    by (nonlinear_arith)
    requires
        co * dk == full,
    ensures
        ((cn * w) * co) * dk == cn * (w * full),
{
}

proof fn lemma_zero_term(cn: int, wn: int, co: int)
    by (nonlinear_arith)
    requires
        wn == 0,
    ensures
        (cn * wn) * co == 0,
{
}

/// When one weight is one and every other weight is zero, a four-way blend
/// denotes exactly the coordinate tied to that weight.
pub proof fn lemma_blend4_picks(
    k: int,
    c0: Frac,
    c1: Frac,
    c2: Frac,
    c3: Frac,
    w0: Frac,
    w1: Frac,
    w2: Frac,
    w3: Frac,
)
    requires
        frac_wf(c0) && frac_wf(c1) && frac_wf(c2) && frac_wf(c3),
        frac_wf(w0),
        w0.den == w1.den == w2.den == w3.den,
        0 <= k <= 3,
        frac_is_one(if k == 0 { w0 } else if k == 1 { w1 } else if k == 2 { w2 } else { w3 }),
        k != 0 ==> frac_is_zero(w0),
        k != 1 ==> frac_is_zero(w1),
        k != 2 ==> frac_is_zero(w2),
        k != 3 ==> frac_is_zero(w3),
    ensures
        frac_wf(blend4_frac(c0, c1, c2, c3, w0, w1, w2, w3)),
        frac_eq(
            blend4_frac(c0, c1, c2, c3, w0, w1, w2, w3),
            if k == 0 { c0 } else if k == 1 { c1 } else if k == 2 { c2 } else { c3 },
        ),
{
    let d0 = c0.den;
    let d1 = c1.den;
    let d2 = c2.den;
    let d3 = c3.den;
    let s23 = d2 * d3;
    let s123 = d1 * s23;
    let s0123 = d0 * s123;
    let r01 = d0 * d1;
    let w = w0.den;
    lemma_mul_bounds(d2, 1, d2, d3, 1, d3);
    lemma_mul_bounds(d1, 1, d1, s23, 1, s23);
    lemma_mul_bounds(d0, 1, d0, s123, 1, s123);
    lemma_mul_bounds(w, 1, w, s0123, 1, s0123);
    lemma_mul_is_associative(d0, d1, s23);
    if k == 0 {
        lemma_mul_is_commutative(s123, d0);
        lemma_pick_term(c0.num, w, s123, d0, s0123);
        lemma_zero_term(c1.num, w1.num, d0 * s23);
        lemma_zero_term(c2.num, w2.num, r01 * d3);
        lemma_zero_term(c3.num, w3.num, r01 * d2);
    } else if k == 1 {
        lemma_mul_is_associative(d0, s23, d1);
        lemma_mul_is_commutative(s23, d1);
        lemma_pick_term(c1.num, w, d0 * s23, d1, s0123);
        lemma_zero_term(c0.num, w0.num, s123);
        lemma_zero_term(c2.num, w2.num, r01 * d3);
        lemma_zero_term(c3.num, w3.num, r01 * d2);
    } else if k == 2 {
        lemma_mul_is_associative(r01, d3, d2);
        lemma_mul_is_commutative(d3, d2);
        lemma_pick_term(c2.num, w, r01 * d3, d2, s0123);
        lemma_zero_term(c0.num, w0.num, s123);
        lemma_zero_term(c1.num, w1.num, d0 * s23);
        lemma_zero_term(c3.num, w3.num, r01 * d2);
    } else {
        lemma_mul_is_associative(r01, d2, d3);
        lemma_pick_term(c3.num, w, r01 * d2, d3, s0123);
        lemma_zero_term(c0.num, w0.num, s123);
        lemma_zero_term(c1.num, w1.num, d0 * s23);
        lemma_zero_term(c2.num, w2.num, r01 * d3);
    }
}

/// When one weight is one and every other weight is zero, a six-way blend
/// denotes exactly the coordinate tied to that weight.
pub proof fn lemma_blend6_picks(
    k: int,
    c0: Frac,
    c1: Frac,
    c2: Frac,
    c3: Frac,
    c4: Frac,
    c5: Frac,
    w0: Frac,
    w1: Frac,
    w2: Frac,
    w3: Frac,
    w4: Frac,
    w5: Frac,
)
    requires
        frac_wf(c0) && frac_wf(c1) && frac_wf(c2) && frac_wf(c3) && frac_wf(c4) && frac_wf(c5),
        frac_wf(w0),
        w0.den == w1.den == w2.den == w3.den == w4.den == w5.den,
        0 <= k <= 5,
        frac_is_one(
            if k == 0 {
                w0
            } else if k == 1 {
                w1
            } else if k == 2 {
                w2
            } else if k == 3 {
                w3
            } else if k == 4 {
                w4
            } else {
                w5
            },
        ),
        k != 0 ==> frac_is_zero(w0),
        k != 1 ==> frac_is_zero(w1),
        k != 2 ==> frac_is_zero(w2),
        k != 3 ==> frac_is_zero(w3),
        k != 4 ==> frac_is_zero(w4),
        k != 5 ==> frac_is_zero(w5),
    ensures
        frac_wf(blend6_frac(c0, c1, c2, c3, c4, c5, w0, w1, w2, w3, w4, w5)),
        frac_eq(
            blend6_frac(c0, c1, c2, c3, c4, c5, w0, w1, w2, w3, w4, w5),
            if k == 0 {
                c0
            } else if k == 1 {
                c1
            } else if k == 2 {
                c2
            } else if k == 3 {
                c3
            } else if k == 4 {
                c4
            } else {
                c5
            },
        ),
{
    let d0 = c0.den;
    let d1 = c1.den;
    let d2 = c2.den;
    let d3 = c3.den;
    let d4 = c4.den;
    let d5 = c5.den;
    let s45 = d4 * d5;
    let s345 = d3 * s45;
    let s2345 = d2 * s345;
    let s12345 = d1 * s2345;
    let s012345 = d0 * s12345;
    let r01 = d0 * d1;
    let r012 = r01 * d2;
    let r0123 = r012 * d3;
    let w = w0.den;
    lemma_mul_bounds(d4, 1, d4, d5, 1, d5);
    lemma_mul_bounds(d3, 1, d3, s45, 1, s45);
    lemma_mul_bounds(d2, 1, d2, s345, 1, s345);
    lemma_mul_bounds(d1, 1, d1, s2345, 1, s2345);
    lemma_mul_bounds(d0, 1, d0, s12345, 1, s12345);
    lemma_mul_bounds(w, 1, w, s012345, 1, s012345);
    lemma_mul_is_associative(d0, d1, s2345);
    lemma_mul_is_associative(r01, d2, s345);
    lemma_mul_is_associative(r012, d3, s45);
    if k == 0 {
        lemma_mul_is_commutative(s12345, d0);
        lemma_pick_term(c0.num, w, s12345, d0, s012345);
    } else if k == 1 {
        lemma_mul_is_associative(d0, s2345, d1);
        lemma_mul_is_commutative(s2345, d1);
        lemma_pick_term(c1.num, w, d0 * s2345, d1, s012345);
    } else if k == 2 {
        lemma_mul_is_associative(r01, s345, d2);
        lemma_mul_is_commutative(s345, d2);
        lemma_pick_term(c2.num, w, r01 * s345, d2, s012345);
    } else if k == 3 {
        lemma_mul_is_associative(r012, s45, d3);
        lemma_mul_is_commutative(s45, d3);
        lemma_pick_term(c3.num, w, r012 * s45, d3, s012345);
    } else if k == 4 {
        lemma_mul_is_associative(r0123, d5, d4);
        lemma_mul_is_commutative(d5, d4);
        lemma_pick_term(c4.num, w, r0123 * d5, d4, s012345);
    } else {
        lemma_mul_is_associative(r0123, d4, d5);
        lemma_pick_term(c5.num, w, r0123 * d4, d5, s012345);
    }
    if k != 0 {
        lemma_zero_term(c0.num, w0.num, s12345);
    }
    if k != 1 {
        lemma_zero_term(c1.num, w1.num, d0 * s2345);
    }
    if k != 2 {
        lemma_zero_term(c2.num, w2.num, r01 * s345);
    }
    if k != 3 {
        lemma_zero_term(c3.num, w3.num, r012 * s45);
    }
    if k != 4 {
        lemma_zero_term(c4.num, w4.num, r0123 * d5);
    }
    if k != 5 {
        lemma_zero_term(c5.num, w5.num, r0123 * d4);
    }
}

/// The four-way blend over a common denominator denotes the same rational
/// number as multiplying each coordinate by its weight and summing the
/// products with scalar addition.
pub proof fn lemma_blend4_is_weighted_sum(
    c0: Frac,
    c1: Frac,
    c2: Frac,
    c3: Frac,
    w0: Frac,
    w1: Frac,
    w2: Frac,
    w3: Frac,
)
    requires
        frac_wf(c0) && frac_wf(c1) && frac_wf(c2) && frac_wf(c3),
        frac_wf(w0),
        w0.den == w1.den == w2.den == w3.den,
    ensures
        frac_eq(
            blend4_frac(c0, c1, c2, c3, w0, w1, w2, w3),
            frac_add(
                frac_add(frac_add(frac_mul(c0, w0), frac_mul(c1, w1)), frac_mul(c2, w2)),
                frac_mul(c3, w3),
            ),
        ),
{
    let d0 = c0.den;
    let d1 = c1.den;
    let d2 = c2.den;
    let d3 = c3.den;
    let w = w0.den;
    let n0 = c0.num * w0.num;
    let n1 = c1.num * w1.num;
    let n2 = c2.num * w2.num;
    let n3 = c3.num * w3.num;
    let s1 = frac_add(frac_mul(c0, w0), frac_mul(c1, w1));
    let s2 = frac_add(s1, frac_mul(c2, w2));
    let s3 = frac_add(s2, frac_mul(c3, w3));
    assert(s1.num == w * (n0 * d1 + n1 * d0)) by (nonlinear_arith)
        requires
            s1.num == n0 * (d1 * w) + n1 * (d0 * w);
    assert(s1.den == (w * w) * (d0 * d1)) by (nonlinear_arith)
        requires
            s1.den == (d0 * w) * (d1 * w);
    assert(s2.num == (w * w) * ((n0 * d1 + n1 * d0) * d2 + n2 * (d0 * d1))) by (nonlinear_arith)
        requires
            s2.num == (w * (n0 * d1 + n1 * d0)) * (d2 * w) + n2 * ((w * w) * (d0 * d1));
    assert(s2.den == ((w * w) * w) * ((d0 * d1) * d2)) by (nonlinear_arith)
        requires
            s2.den == ((w * w) * (d0 * d1)) * (d2 * w);
    let x2 = (n0 * d1 + n1 * d0) * d2 + n2 * (d0 * d1);
    let y2 = (d0 * d1) * d2;
    let base = x2 * d3 + n3 * y2;
    assert(s3.num == (((w * w) * w) * base)) by (nonlinear_arith)
        requires
            s3.num == ((w * w) * x2) * (d3 * w) + n3 * (((w * w) * w) * y2),
            base == x2 * d3 + n3 * y2;
    assert(s3.den == (((w * w) * w) * w) * (y2 * d3)) by (nonlinear_arith)
        requires
            s3.den == (((w * w) * w) * y2) * (d3 * w);
    let b = blend4_frac(c0, c1, c2, c3, w0, w1, w2, w3);
    assert(n0 * (d1 * (d2 * d3)) == ((n0 * d1) * d2) * d3) by (nonlinear_arith);
    assert(n1 * (d0 * (d2 * d3)) == ((n1 * d0) * d2) * d3) by (nonlinear_arith);
    assert(n2 * ((d0 * d1) * d3) == (n2 * (d0 * d1)) * d3) by (nonlinear_arith);
    assert(((n0 * d1 + n1 * d0) * d2 + n2 * (d0 * d1)) * d3 == ((n0 * d1) * d2) * d3 + ((n1 * d0)
        * d2) * d3 + (n2 * (d0 * d1)) * d3) by (nonlinear_arith);
    assert(b.num == base);
    assert(b.den == w * (y2 * d3)) by (nonlinear_arith)
        requires
            b.den == w * (d0 * (d1 * (d2 * d3))),
            y2 == (d0 * d1) * d2;
    assert(base * ((((w * w) * w) * w) * (y2 * d3)) == (((w * w) * w) * base) * (w * (y2
        * d3))) by (nonlinear_arith);
}

/// Computes the weighted sum of four coordinates against four weights that
/// share a denominator, exactly.
pub fn blend4(
    c0: Scalar,
    c1: Scalar,
    c2: Scalar,
    c3: Scalar,
    w0: Scalar,
    w1: Scalar,
    w2: Scalar,
    w3: Scalar,
) -> (r: Scalar)
    requires
        coord_ok(c0@) && coord_ok(c1@) && coord_ok(c2@) && coord_ok(c3@),
        weight_ok(w0@) && weight_ok(w1@) && weight_ok(w2@) && weight_ok(w3@),
        w0@.den == w1@.den == w2@.den == w3@.den,
    ensures
        r@ == blend4_frac(c0@, c1@, c2@, c3@, w0@, w1@, w2@, w3@),
        frac_wf(r@),
{
    let d0 = c0.den();
    let d1 = c1.den();
    let d2 = c2.den();
    let d3 = c3.den();
    proof {
        lemma_mul_bounds(d2 as int, 1, 0x40, d3 as int, 1, 0x40);
        lemma_mul_bounds(d1 as int, 1, 0x40, d2 as int * d3 as int, 1, 0x1000);
        lemma_mul_bounds(d0 as int, 1, 0x40, d1 as int * (d2 as int * d3 as int), 1, 0x40000);
        lemma_mul_bounds(d0 as int, 1, 0x40, d2 as int * d3 as int, 1, 0x1000);
        lemma_mul_bounds(d0 as int, 1, 0x40, d1 as int, 1, 0x40);
        lemma_mul_bounds(d0 as int * d1 as int, 1, 0x1000, d3 as int, 1, 0x40);
        lemma_mul_bounds(d0 as int * d1 as int, 1, 0x1000, d2 as int, 1, 0x40);
    }
    let s23 = d2 * d3;
    let s123 = d1 * s23;
    let s0123 = d0 * s123;
    let r01 = d0 * d1;
    proof {
        lemma_mul_abs_bounds(c0@.num, 0x40000000, w0@.num, 0x1000000000000000);
        lemma_mul_abs_bounds(c1@.num, 0x40000000, w1@.num, 0x1000000000000000);
        lemma_mul_abs_bounds(c2@.num, 0x40000000, w2@.num, 0x1000000000000000);
        lemma_mul_abs_bounds(c3@.num, 0x40000000, w3@.num, 0x1000000000000000);
        lemma_mul_abs_bounds(
            c0@.num * w0@.num,
            0x40000000000000000000000,
            s123 as int,
            0x40000,
        );
        lemma_mul_abs_bounds(
            c1@.num * w1@.num,
            0x40000000000000000000000,
            d0 as int * s23 as int,
            0x40000,
        );
        lemma_mul_abs_bounds(
            c2@.num * w2@.num,
            0x40000000000000000000000,
            r01 as int * d3 as int,
            0x40000,
        );
        lemma_mul_abs_bounds(
            c3@.num * w3@.num,
            0x40000000000000000000000,
            r01 as int * d2 as int,
            0x40000,
        );
        lemma_mul_bounds(w0@.den, 1, 0x1000000000000000, s0123 as int, 1, 0x1000000);
    }
    let n0 = (c0.num() * w0.num()) * s123;
    let n1 = (c1.num() * w1.num()) * (d0 * s23);
    let n2 = (c2.num() * w2.num()) * (r01 * d3);
    let n3 = (c3.num() * w3.num()) * (r01 * d2);
    Scalar::new(((n0 + n1) + n2) + n3, w0.den() * s0123)
}

/// The six-way blend over a common denominator denotes the same rational
/// number as multiplying each coordinate by its weight and summing the
/// products with scalar addition.
#[verifier::rlimit(100)]
pub proof fn lemma_blend6_is_weighted_sum(
    c0: Frac,
    c1: Frac,
    c2: Frac,
    c3: Frac,
    c4: Frac,
    c5: Frac,
    w0: Frac,
    w1: Frac,
    w2: Frac,
    w3: Frac,
    w4: Frac,
    w5: Frac,
)
    requires
        frac_wf(c0) && frac_wf(c1) && frac_wf(c2) && frac_wf(c3) && frac_wf(c4) && frac_wf(c5),
        frac_wf(w0),
        w0.den == w1.den == w2.den == w3.den == w4.den == w5.den,
    ensures
        frac_eq(
            blend6_frac(c0, c1, c2, c3, c4, c5, w0, w1, w2, w3, w4, w5),
            frac_add(
                frac_add(
                    frac_add(
                        frac_add(frac_add(frac_mul(c0, w0), frac_mul(c1, w1)), frac_mul(c2, w2)),
                        frac_mul(c3, w3),
                    ),
                    frac_mul(c4, w4),
                ),
                frac_mul(c5, w5),
            ),
        ),
{
    let d0 = c0.den;
    let d1 = c1.den;
    let d2 = c2.den;
    let d3 = c3.den;
    let d4 = c4.den;
    let d5 = c5.den;
    let w = w0.den;
    let n0 = c0.num * w0.num;
    let n1 = c1.num * w1.num;
    let n2 = c2.num * w2.num;
    let n3 = c3.num * w3.num;
    let n4 = c4.num * w4.num;
    let n5 = c5.num * w5.num;
    let s1 = frac_add(frac_mul(c0, w0), frac_mul(c1, w1));
    let s2 = frac_add(s1, frac_mul(c2, w2));
    let s3 = frac_add(s2, frac_mul(c3, w3));
    let s4 = frac_add(s3, frac_mul(c4, w4));
    let s5 = frac_add(s4, frac_mul(c5, w5));
    let x2 = (n0 * d1 + n1 * d0) * d2 + n2 * (d0 * d1);
    let y2 = (d0 * d1) * d2;
    let x3 = x2 * d3 + n3 * y2;
    let y3 = y2 * d3;
    let x4 = x3 * d4 + n4 * y3;
    let y4 = y3 * d4;
    let x5 = x4 * d5 + n5 * y4;
    let y5 = y4 * d5;
    assert(s1.num == w * (n0 * d1 + n1 * d0)) by (nonlinear_arith)
        requires
            s1.num == n0 * (d1 * w) + n1 * (d0 * w);
    assert(s1.den == (w * w) * (d0 * d1)) by (nonlinear_arith)
        requires
            s1.den == (d0 * w) * (d1 * w);
    assert(s2.num == (w * w) * x2) by (nonlinear_arith)
        requires
            s2.num == (w * (n0 * d1 + n1 * d0)) * (d2 * w) + n2 * ((w * w) * (d0 * d1)),
            x2 == (n0 * d1 + n1 * d0) * d2 + n2 * (d0 * d1);
    assert(s2.den == ((w * w) * w) * y2) by (nonlinear_arith)
        requires
            s2.den == ((w * w) * (d0 * d1)) * (d2 * w),
            y2 == (d0 * d1) * d2;
    assert(s3.num == ((w * w) * w) * x3) by (nonlinear_arith)
        requires
            s3.num == ((w * w) * x2) * (d3 * w) + n3 * (((w * w) * w) * y2),
            x3 == x2 * d3 + n3 * y2;
    assert(s3.den == (((w * w) * w) * w) * y3) by (nonlinear_arith)
        requires
            s3.den == (((w * w) * w) * y2) * (d3 * w),
            y3 == y2 * d3;
    assert(s4.num == (((w * w) * w) * w) * x4) by (nonlinear_arith)
        requires
            s4.num == (((w * w) * w) * x3) * (d4 * w) + n4 * ((((w * w) * w) * w) * y3),
            x4 == x3 * d4 + n4 * y3;
    assert(s4.den == ((((w * w) * w) * w) * w) * y4) by (nonlinear_arith)
        requires
            s4.den == ((((w * w) * w) * w) * y3) * (d4 * w),
            y4 == y3 * d4;
    assert(s5.num == ((((w * w) * w) * w) * w) * x5) by (nonlinear_arith)
        requires
            s5.num == ((((w * w) * w) * w) * x4) * (d5 * w) + n5 * (((((w * w) * w) * w) * w)
                * y4),
            x5 == x4 * d5 + n5 * y4;
    assert(s5.den == (((((w * w) * w) * w) * w) * w) * y5) by (nonlinear_arith)
        requires
            s5.den == (((((w * w) * w) * w) * w) * y4) * (d5 * w),
            y5 == y4 * d5;
    let b = blend6_frac(c0, c1, c2, c3, c4, c5, w0, w1, w2, w3, w4, w5);
    let a0 = n0 * d1;
    let a1 = n1 * d0;
    let a2 = n2 * (d0 * d1);
    assert(x5 == ((x2 * d3) * d4) * d5 + (((n3 * y2) * d4) * d5 + ((n4 * y3) * d5 + n5
        * y4))) by (nonlinear_arith)
        requires
            x3 == x2 * d3 + n3 * y2,
            x4 == x3 * d4 + n4 * y3,
            x5 == x4 * d5 + n5 * y4;
    let u0 = a0 * d2;
    let u1 = a1 * d2;
    assert(x2 == (u0 + u1) + a2) by (nonlinear_arith)
        requires
            x2 == (a0 + a1) * d2 + a2,
            u0 == a0 * d2,
            u1 == a1 * d2;
    assert(((x2 * d3) * d4) * d5 == (((u0 * d3) * d4) * d5 + ((u1 * d3) * d4) * d5) + ((a2 * d3)
        * d4) * d5) by (nonlinear_arith)
        requires
            x2 == (u0 + u1) + a2;
    assert(n0 * (d1 * (d2 * (d3 * (d4 * d5)))) == (((a0 * d2) * d3) * d4) * d5) by (nonlinear_arith)
        requires
            a0 == n0 * d1;
    assert(n1 * (d0 * (d2 * (d3 * (d4 * d5)))) == (((a1 * d2) * d3) * d4) * d5) by (nonlinear_arith)
        requires
            a1 == n1 * d0;
    assert(n2 * ((d0 * d1) * (d3 * (d4 * d5))) == ((a2 * d3) * d4) * d5) by (nonlinear_arith)
        requires
            a2 == n2 * (d0 * d1);
    assert(n3 * (((d0 * d1) * d2) * (d4 * d5)) == ((n3 * y2) * d4) * d5) by (nonlinear_arith)
        requires
            y2 == (d0 * d1) * d2;
    assert(n4 * ((((d0 * d1) * d2) * d3) * d5) == (n4 * y3) * d5) by (nonlinear_arith)
        requires
            y3 == ((d0 * d1) * d2) * d3;
    assert(n5 * ((((d0 * d1) * d2) * d3) * d4) == n5 * y4) by (nonlinear_arith)
        requires
            y4 == (((d0 * d1) * d2) * d3) * d4;
    assert(b.num == x5);
    assert(b.den == w * y5) by (nonlinear_arith)
        requires
            b.den == w * (d0 * (d1 * (d2 * (d3 * (d4 * d5))))),
            y5 == ((((d0 * d1) * d2) * d3) * d4) * d5;
    assert(x5 * ((((((w * w) * w) * w) * w) * w) * y5) == (((((w * w) * w) * w) * w) * x5) * (w
        * y5)) by (nonlinear_arith);
}

/// Computes the weighted sum of six coordinates against six weights that
/// share a denominator, exactly.
pub fn blend6(
    c0: Scalar,
    c1: Scalar,
    c2: Scalar,
    c3: Scalar,
    c4: Scalar,
    c5: Scalar,
    w0: Scalar,
    w1: Scalar,
    w2: Scalar,
    w3: Scalar,
    w4: Scalar,
    w5: Scalar,
) -> (r: Scalar)
    requires
        coord_ok(c0@) && coord_ok(c1@) && coord_ok(c2@) && coord_ok(c3@) && coord_ok(c4@)
            && coord_ok(c5@),
        weight_ok(w0@) && weight_ok(w1@) && weight_ok(w2@) && weight_ok(w3@) && weight_ok(w4@)
            && weight_ok(w5@),
        w0@.den == w1@.den == w2@.den == w3@.den == w4@.den == w5@.den,
    ensures
        r@ == blend6_frac(c0@, c1@, c2@, c3@, c4@, c5@, w0@, w1@, w2@, w3@, w4@, w5@),
        frac_wf(r@),
{
    let d0 = c0.den();
    let d1 = c1.den();
    let d2 = c2.den();
    let d3 = c3.den();
    let d4 = c4.den();
    let d5 = c5.den();
    proof {
        lemma_mul_bounds(d4 as int, 1, 0x40, d5 as int, 1, 0x40);
        lemma_mul_bounds(d3 as int, 1, 0x40, d4 as int * d5 as int, 1, 0x1000);
        lemma_mul_bounds(d2 as int, 1, 0x40, d3 as int * (d4 as int * d5 as int), 1, 0x40000);
        lemma_mul_bounds(
            d1 as int,
            1,
            0x40,
            d2 as int * (d3 as int * (d4 as int * d5 as int)),
            1,
            0x1000000,
        );
        lemma_mul_bounds(
            d0 as int,
            1,
            0x40,
            d1 as int * (d2 as int * (d3 as int * (d4 as int * d5 as int))),
            1,
            0x40000000,
        );
        lemma_mul_bounds(
            d0 as int,
            1,
            0x40,
            d2 as int * (d3 as int * (d4 as int * d5 as int)),
            1,
            0x1000000,
        );
        lemma_mul_bounds(d0 as int, 1, 0x40, d1 as int, 1, 0x40);
        lemma_mul_bounds(
            d0 as int * d1 as int,
            1,
            0x1000,
            d3 as int * (d4 as int * d5 as int),
            1,
            0x40000,
        );
        lemma_mul_bounds(d0 as int * d1 as int, 1, 0x1000, d2 as int, 1, 0x40);
        lemma_mul_bounds(
            (d0 as int * d1 as int) * d2 as int,
            1,
            0x40000,
            d4 as int * d5 as int,
            1,
            0x1000,
        );
        lemma_mul_bounds((d0 as int * d1 as int) * d2 as int, 1, 0x40000, d3 as int, 1, 0x40);
        lemma_mul_bounds(
            ((d0 as int * d1 as int) * d2 as int) * d3 as int,
            1,
            0x1000000,
            d5 as int,
            1,
            0x40,
        );
        lemma_mul_bounds(
            ((d0 as int * d1 as int) * d2 as int) * d3 as int,
            1,
            0x1000000,
            d4 as int,
            1,
            0x40,
        );
    }
    let s45 = d4 * d5;
    let s345 = d3 * s45;
    let s2345 = d2 * s345;
    let s12345 = d1 * s2345;
    let s012345 = d0 * s12345;
    let r01 = d0 * d1;
    let r012 = r01 * d2;
    let r0123 = r012 * d3;
    proof {
        lemma_mul_abs_bounds(c0@.num, 0x40000000, w0@.num, 0x1000000000000000);
        lemma_mul_abs_bounds(c1@.num, 0x40000000, w1@.num, 0x1000000000000000);
        lemma_mul_abs_bounds(c2@.num, 0x40000000, w2@.num, 0x1000000000000000);
        lemma_mul_abs_bounds(c3@.num, 0x40000000, w3@.num, 0x1000000000000000);
        lemma_mul_abs_bounds(c4@.num, 0x40000000, w4@.num, 0x1000000000000000);
        lemma_mul_abs_bounds(c5@.num, 0x40000000, w5@.num, 0x1000000000000000);
        lemma_mul_abs_bounds(
            c0@.num * w0@.num,
            0x40000000000000000000000,
            s12345 as int,
            0x40000000,
        );
        lemma_mul_abs_bounds(
            c1@.num * w1@.num,
            0x40000000000000000000000,
            d0 as int * s2345 as int,
            0x40000000,
        );
        lemma_mul_abs_bounds(
            c2@.num * w2@.num,
            0x40000000000000000000000,
            r01 as int * s345 as int,
            0x40000000,
        );
        lemma_mul_abs_bounds(
            c3@.num * w3@.num,
            0x40000000000000000000000,
            r012 as int * s45 as int,
            0x40000000,
        );
        lemma_mul_abs_bounds(
            c4@.num * w4@.num,
            0x40000000000000000000000,
            r0123 as int * d5 as int,
            0x40000000,
        );
        lemma_mul_abs_bounds(
            c5@.num * w5@.num,
            0x40000000000000000000000,
            r0123 as int * d4 as int,
            0x40000000,
        );
        lemma_mul_bounds(w0@.den, 1, 0x1000000000000000, s012345 as int, 1, 0x1000000000);
    }
    let n0 = (c0.num() * w0.num()) * s12345;
    let n1 = (c1.num() * w1.num()) * (d0 * s2345);
    let n2 = (c2.num() * w2.num()) * (r01 * s345);
    let n3 = (c3.num() * w3.num()) * (r012 * s45);
    let n4 = (c4.num() * w4.num()) * (r0123 * d5);
    let n5 = (c5.num() * w5.num()) * (r0123 * d4);
    Scalar::new(((((n0 + n1) + n2) + n3) + n4) + n5, w0.den() * s012345)
}

} // verus!
