//! Exact scalar arithmetic for trajectory evaluation.
//!
//! Every quantity the library computes with — query parameters, waypoint
//! coordinates, basis-function weights — is an exact rational number held as a
//! numerator over a positive denominator.  Results are kept unreduced, so every
//! operation has an exact, closed-form description of the fraction it returns.

use vstd::prelude::*;

verus! {

/// The mathematical value of a [`Scalar`]: an integer numerator over a
/// positive integer denominator.
pub ghost struct Frac {
    pub num: int,
    pub den: int,
}

/// A fraction is well formed when its denominator is positive.
pub open spec fn frac_wf(f: Frac) -> bool {
    1 <= f.den
}

/// Two fractions denote the same rational number (cross multiplication).
pub open spec fn frac_eq(a: Frac, b: Frac) -> bool {
    a.num * b.den == b.num * a.den
}

/// The exact sum of two fractions, left unreduced.
pub open spec fn frac_add(a: Frac, b: Frac) -> Frac {
    Frac { num: a.num * b.den + b.num * a.den, den: a.den * b.den }
}

/// The exact product of two fractions, left unreduced.
pub open spec fn frac_mul(a: Frac, b: Frac) -> Frac {
    Frac { num: a.num * b.num, den: a.den * b.den }
}

/// The additive inverse of a fraction.
pub open spec fn frac_neg(a: Frac) -> Frac {
    Frac { num: -a.num, den: a.den }
}

/// The fraction denotes zero.
pub open spec fn frac_is_zero(a: Frac) -> bool {
    a.num == 0
}

/// The fraction denotes one.
pub open spec fn frac_is_one(a: Frac) -> bool {
    a.num == a.den
}

/// The fraction denoting the integer `n`.
pub open spec fn frac_int(n: int) -> Frac {
    Frac { num: n, den: 1 }
}

/// Magnitude cap on every numerator and denominator an operation may produce:
/// staying two bits under the width of `i128` leaves the overflow conditions
/// round and easy to discharge.
pub const SCALAR_LIMIT: i128 = 0x4000_0000_0000_0000_0000_0000_0000_0000;

/// Cap on the denominator of a query parameter handed to a basis function or
/// a trajectory query.  Seventh powers of the denominator arise inside the
/// septic basis functions, so the cap keeps every intermediate product far
/// inside the range of `i128`.
pub const PARAM_DEN_MAX: i128 = 1024;

/// The quantity is small enough to be held by a `Scalar` field.
pub open spec fn fits(x: int) -> bool {
    -(SCALAR_LIMIT as int) <= x <= SCALAR_LIMIT as int
}

/// The unreduced sum of the two fractions stays representable.
pub open spec fn add_fits(a: Frac, b: Frac) -> bool {
    &&& fits(a.num * b.den)
    &&& fits(b.num * a.den)
    &&& fits(a.num * b.den + b.num * a.den)
    &&& fits(a.den * b.den)
}

/// The unreduced product of the two fractions stays representable.
pub open spec fn mul_fits(a: Frac, b: Frac) -> bool {
    &&& fits(a.num * b.num)
    &&& fits(a.den * b.den)
}

/// Cap on the magnitude of a waypoint coordinate's numerator.
pub const COORD_NUM_MAX: i128 = 0x40000000;

/// Cap on a waypoint coordinate's denominator.  Together with
/// [`COORD_NUM_MAX`] and [`PARAM_DEN_MAX`] it keeps a full six-way quintic
/// blend inside the range of `i128`.
pub const COORD_DEN_MAX: i128 = 64;

/// Cap on the magnitude of the numerator and denominator of a basis-function
/// weight, as handed to a blend.
pub const WEIGHT_MAX: i128 = 0x1000000000000000;

/// The fraction is a representable waypoint coordinate.
pub open spec fn coord_ok(f: Frac) -> bool {
    &&& frac_wf(f)
    &&& -(COORD_NUM_MAX as int) <= f.num <= COORD_NUM_MAX as int
    &&& f.den <= COORD_DEN_MAX as int
}

/// The fraction is small enough to serve as a blend weight.
pub open spec fn weight_ok(f: Frac) -> bool {
    &&& frac_wf(f)
    &&& -(WEIGHT_MAX as int) <= f.num <= WEIGHT_MAX as int
    &&& f.den <= WEIGHT_MAX as int
}

/// Bounds on a product from bounds on its nonnegative factors; the workhorse
/// behind every overflow argument in the basis-function evaluations.
pub proof fn lemma_mul_bounds(a: int, amin: int, amax: int, b: int, bmin: int, bmax: int)
    by (nonlinear_arith)
    requires
        0 <= amin <= a <= amax,
        0 <= bmin <= b <= bmax,
    ensures
        amin * bmin <= a * b <= amax * bmax,
{
}

/// Bounds on a product from magnitude bounds on its factors.
pub proof fn lemma_mul_abs_bounds(a: int, amax: int, b: int, bmax: int)
    by (nonlinear_arith)
    requires
        -amax <= a <= amax,
        -bmax <= b <= bmax,
        0 <= amax,
        0 <= bmax,
    ensures
        -(amax * bmax) <= a * b <= amax * bmax,
{
}

/// An exact rational scalar.  This is the numeric type every coordinate,
/// parameter and weight in the library is made of.
#[derive(Clone, Copy, Debug, PartialEq, Eq, Structural)]
pub struct Scalar {
    num: i128,
    den: i128,
}

impl View for Scalar {
    type V = Frac;

    closed spec fn view(&self) -> Frac {
        Frac { num: self.num as int, den: self.den as int }
    }
}

impl Scalar {
    /// The scalar `num / den`.  The fraction is stored exactly as given;
    /// nothing is reduced.
    pub fn new(num: i128, den: i128) -> (r: Scalar)
        requires
            1 <= den,
        ensures
            r@ == (Frac { num: num as int, den: den as int }),
    {
        Scalar { num, den }
    }

    /// The scalar denoting the integer `n`.
    pub fn from_int(n: i128) -> (r: Scalar)
        ensures
            r@ == frac_int(n as int),
    {
        Scalar { num: n, den: 1 }
    }

    /// The numerator as stored.
    pub fn num(&self) -> (r: i128)
        ensures
            r == self@.num,
    {
        self.num
    }

    /// The denominator as stored.
    pub fn den(&self) -> (r: i128)
        ensures
            r == self@.den,
    {
        self.den
    }

    /// Exact addition; the operands must be small enough that the unreduced
    /// sum stays representable.
    pub fn add(self, other: Scalar) -> (r: Scalar)
        requires
            frac_wf(self@),
            frac_wf(other@),
            add_fits(self@, other@),
        ensures
            r@ == frac_add(self@, other@),
            frac_wf(r@),
    {
        proof {
            assert(1 <= self@.den * other@.den) by (nonlinear_arith)
                requires
                    1 <= self@.den,
                    1 <= other@.den;
        }
        Scalar { num: self.num * other.den + other.num * self.den, den: self.den * other.den }
    }

    /// Exact multiplication; the operands must be small enough that the
    /// unreduced product stays representable.
    pub fn mul(self, other: Scalar) -> (r: Scalar)
        requires
            frac_wf(self@),
            frac_wf(other@),
            mul_fits(self@, other@),
        ensures
            r@ == frac_mul(self@, other@),
            frac_wf(r@),
    {
        proof {
            assert(1 <= self@.den * other@.den) by (nonlinear_arith)
                requires
                    1 <= self@.den,
                    1 <= other@.den;
        }
        Scalar { num: self.num * other.num, den: self.den * other.den }
    }

    /// Exact negation.
    pub fn neg(self) -> (r: Scalar)
        requires
            frac_wf(self@),
            fits(self@.num),
        ensures
            r@ == frac_neg(self@),
            frac_wf(r@),
    {
        Scalar { num: -self.num, den: self.den }
    }

    /// Whether the two scalars denote the same rational number, regardless of
    /// how either fraction is represented.
    pub fn eq_value(&self, other: &Scalar) -> (r: bool)
        requires
            frac_wf(self@),
            frac_wf(other@),
            fits(self@.num * other@.den),
            fits(other@.num * self@.den),
        ensures
            r == frac_eq(self@, other@),
    {
        self.num * other.den == other.num * self.den
    }
}

/// Addition of rationals is commutative.
pub proof fn lemma_frac_add_comm(a: Frac, b: Frac)
    by (nonlinear_arith)
    ensures
        frac_add(a, b) == frac_add(b, a),
{
}

#[verifier::rlimit(100)]
proof fn lemma_add_assoc_nums(an: int, ad: int, bn: int, bd: int, cn: int, cd: int)
    by (nonlinear_arith)
    ensures
        (an * bd + bn * ad) * cd + cn * (ad * bd) == an * (bd * cd) + (bn * cd + cn * bd) * ad,
{
}

/// Addition of rationals is associative, even on the raw representations.
pub proof fn lemma_frac_add_assoc(a: Frac, b: Frac, c: Frac)
    ensures
        frac_add(frac_add(a, b), c) == frac_add(a, frac_add(b, c)),
{
    lemma_add_assoc_nums(a.num, a.den, b.num, b.den, c.num, c.den);
    assert((a.den * b.den) * c.den == a.den * (b.den * c.den)) by (nonlinear_arith);
}

/// Multiplication of rationals is commutative.
pub proof fn lemma_frac_mul_comm(a: Frac, b: Frac)
    by (nonlinear_arith)
    ensures
        frac_mul(a, b) == frac_mul(b, a),
{
}

/// Multiplication of rationals is associative.
pub proof fn lemma_frac_mul_assoc(a: Frac, b: Frac, c: Frac)
    by (nonlinear_arith)
    ensures
        frac_mul(frac_mul(a, b), c) == frac_mul(a, frac_mul(b, c)),
{
}

/// Multiplication distributes over addition, up to the value denoted.
pub proof fn lemma_frac_mul_distributes(s: Frac, a: Frac, b: Frac)
    ensures
        frac_eq(frac_mul(s, frac_add(a, b)), frac_add(frac_mul(s, a), frac_mul(s, b))),
{
    let sn = s.num;
    let sd = s.den;
    let an = a.num;
    let ad = a.den;
    let bn = b.num;
    let bd = b.den;
    let x = an * bd + bn * ad;
    broadcast use vstd::arithmetic::mul::group_mul_properties;

    assert((sn * an) * (sd * bd) + (sn * bn) * (sd * ad) == (sd * sn) * x);
    assert(((sd * sn) * x) * (sd * (ad * bd)) == (sn * x) * ((sd * ad) * (sd * bd)));
}

/// A rational plus its negation denotes zero.
pub proof fn lemma_frac_add_neg(a: Frac)
    by (nonlinear_arith)
    ensures
        frac_is_zero(frac_add(a, frac_neg(a))),
{
}

/// Zero is the additive identity, up to the value denoted.
pub proof fn lemma_frac_add_zero(a: Frac)
    by (nonlinear_arith)
    requires
        frac_wf(a),
    ensures
        frac_eq(frac_add(a, frac_int(0)), a),
{
}

/// One is the multiplicative identity, up to the value denoted.
pub proof fn lemma_frac_mul_one(a: Frac)
    by (nonlinear_arith)
    requires
        frac_wf(a),
    ensures
        frac_eq(frac_mul(a, frac_int(1)), a),
{
}

} // verus!
