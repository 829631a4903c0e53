//! Three-dimensional vectors of exact scalars.

use crate::scalar::{add_fits, coord_ok, frac_add, frac_eq, frac_is_zero, frac_mul, frac_neg,
    frac_wf, fits, lemma_frac_add_assoc, lemma_frac_add_comm, lemma_frac_add_neg,
    lemma_frac_mul_comm, lemma_frac_mul_distributes, mul_fits, Frac, Scalar};
use vstd::prelude::*;

verus! {

/// The mathematical value of a [`Vec3d`]: three rational components.
pub ghost struct Vec3Frac {
    pub x: Frac,
    pub y: Frac,
    pub z: Frac,
}

/// Component-wise well-formedness.
pub open spec fn vec3_wf(v: Vec3Frac) -> bool {
    frac_wf(v.x) && frac_wf(v.y) && frac_wf(v.z)
}

/// Every component is a representable waypoint coordinate.
pub open spec fn vec3_coord_ok(v: Vec3Frac) -> bool {
    coord_ok(v.x) && coord_ok(v.y) && coord_ok(v.z)
}

/// Component-wise exact sum.
pub open spec fn vec3_add(a: Vec3Frac, b: Vec3Frac) -> Vec3Frac {
    Vec3Frac { x: frac_add(a.x, b.x), y: frac_add(a.y, b.y), z: frac_add(a.z, b.z) }
}

/// Component-wise exact scaling.
pub open spec fn vec3_scale(a: Vec3Frac, s: Frac) -> Vec3Frac {
    Vec3Frac { x: frac_mul(a.x, s), y: frac_mul(a.y, s), z: frac_mul(a.z, s) }
}

/// Component-wise negation.
pub open spec fn vec3_neg(a: Vec3Frac) -> Vec3Frac {
    Vec3Frac { x: frac_neg(a.x), y: frac_neg(a.y), z: frac_neg(a.z) }
}

/// The exact dot product: the sum of the component-wise products.
pub open spec fn vec3_dot(a: Vec3Frac, b: Vec3Frac) -> Frac {
    frac_add(frac_add(frac_mul(a.x, b.x), frac_mul(a.y, b.y)), frac_mul(a.z, b.z))
}

/// The two vectors denote the same point, component by component.
pub open spec fn vec3_eq(a: Vec3Frac, b: Vec3Frac) -> bool {
    frac_eq(a.x, b.x) && frac_eq(a.y, b.y) && frac_eq(a.z, b.z)
}

/// Every component denotes zero.
pub open spec fn vec3_is_zero(a: Vec3Frac) -> bool {
    frac_is_zero(a.x) && frac_is_zero(a.y) && frac_is_zero(a.z)
}

/// A vector of three exact scalar components.
#[derive(Clone, Copy, Debug, PartialEq, Eq, Structural)]
pub struct Vec3d(pub Scalar, pub Scalar, pub Scalar);

impl View for Vec3d {
    type V = Vec3Frac;

    open spec fn view(&self) -> Vec3Frac {
        Vec3Frac { x: self.0@, y: self.1@, z: self.2@ }
    }
}

impl Vec3d {
    /// Component-wise exact addition.
    pub fn add(self, other: Vec3d) -> (r: Vec3d)
        requires
            vec3_wf(self@),
            vec3_wf(other@),
            add_fits(self@.x, other@.x),
            add_fits(self@.y, other@.y),
            add_fits(self@.z, other@.z),
        ensures
            r@ == vec3_add(self@, other@),
            vec3_wf(r@),
    {
        Vec3d(self.0.add(other.0), self.1.add(other.1), self.2.add(other.2))
    }

    /// Exact multiplication by a scalar.
    pub fn mul(self, scalar: Scalar) -> (r: Vec3d)
        requires
            vec3_wf(self@),
            frac_wf(scalar@),
            mul_fits(self@.x, scalar@),
            mul_fits(self@.y, scalar@),
            mul_fits(self@.z, scalar@),
        ensures
            r@ == vec3_scale(self@, scalar@),
            vec3_wf(r@),
    {
        Vec3d(self.0.mul(scalar), self.1.mul(scalar), self.2.mul(scalar))
    }

    /// Component-wise negation.
    pub fn neg(self) -> (r: Vec3d)
        requires
            vec3_wf(self@),
            fits(self@.x.num),
            fits(self@.y.num),
            fits(self@.z.num),
        ensures
            r@ == vec3_neg(self@),
            vec3_wf(r@),
    {
        Vec3d(self.0.neg(), self.1.neg(), self.2.neg())
    }

    /// The exact dot product of two vectors.
    pub fn dot(&self, other: &Vec3d) -> (r: Scalar)
        requires
            vec3_wf(self@),
            vec3_wf(other@),
            mul_fits(self@.x, other@.x),
            mul_fits(self@.y, other@.y),
            mul_fits(self@.z, other@.z),
            add_fits(frac_mul(self@.x, other@.x), frac_mul(self@.y, other@.y)),
            add_fits(
                frac_add(frac_mul(self@.x, other@.x), frac_mul(self@.y, other@.y)),
                frac_mul(self@.z, other@.z),
            ),
        ensures
            r@ == vec3_dot(self@, other@),
            frac_wf(r@),
    {
        self.0.mul(other.0).add(self.1.mul(other.1)).add(self.2.mul(other.2))
    }

    /// Whether the two vectors denote the same point, component by component,
    /// regardless of how each fraction is represented.
    pub fn eq_value(&self, other: &Vec3d) -> (r: bool)
        requires
            vec3_wf(self@),
            vec3_wf(other@),
            fits(self@.x.num * other@.x.den),
            fits(other@.x.num * self@.x.den),
            fits(self@.y.num * other@.y.den),
            fits(other@.y.num * self@.y.den),
            fits(self@.z.num * other@.z.den),
            fits(other@.z.num * self@.z.den),
        ensures
            r == vec3_eq(self@, other@),
    {
        self.0.eq_value(&other.0) && self.1.eq_value(&other.1) && self.2.eq_value(&other.2)
    }
}

/// Vector addition is commutative.
pub proof fn lemma_vec3_add_comm(a: Vec3Frac, b: Vec3Frac)
    ensures
        vec3_add(a, b) == vec3_add(b, a),
{
    lemma_frac_add_comm(a.x, b.x);
    lemma_frac_add_comm(a.y, b.y);
    lemma_frac_add_comm(a.z, b.z);
}

/// Vector addition is associative, even on the raw representations.
pub proof fn lemma_vec3_add_assoc(a: Vec3Frac, b: Vec3Frac, c: Vec3Frac)
    ensures
        vec3_add(vec3_add(a, b), c) == vec3_add(a, vec3_add(b, c)),
{
    lemma_frac_add_assoc(a.x, b.x, c.x);
    lemma_frac_add_assoc(a.y, b.y, c.y);
    lemma_frac_add_assoc(a.z, b.z, c.z);
}

/// A vector plus its negation denotes the zero vector.
pub proof fn lemma_vec3_add_neg(a: Vec3Frac)
    ensures
        vec3_is_zero(vec3_add(a, vec3_neg(a))),
{
    lemma_frac_add_neg(a.x);
    lemma_frac_add_neg(a.y);
    lemma_frac_add_neg(a.z);
}

/// Scaling distributes over vector addition, up to the value denoted.
pub proof fn lemma_vec3_scale_distributes(a: Vec3Frac, b: Vec3Frac, s: Frac)
    ensures
        vec3_eq(vec3_scale(vec3_add(a, b), s), vec3_add(vec3_scale(a, s), vec3_scale(b, s))),
{
    lemma_frac_mul_comm(frac_add(a.x, b.x), s);
    lemma_frac_mul_comm(a.x, s);
    lemma_frac_mul_comm(b.x, s);
    lemma_frac_mul_distributes(s, a.x, b.x);
    lemma_frac_mul_comm(frac_add(a.y, b.y), s);
    lemma_frac_mul_comm(a.y, s);
    lemma_frac_mul_comm(b.y, s);
    lemma_frac_mul_distributes(s, a.y, b.y);
    lemma_frac_mul_comm(frac_add(a.z, b.z), s);
    lemma_frac_mul_comm(a.z, s);
    lemma_frac_mul_comm(b.z, s);
    lemma_frac_mul_distributes(s, a.z, b.z);
}

/// The dot product is symmetric.
pub proof fn lemma_vec3_dot_comm(a: Vec3Frac, b: Vec3Frac)
    ensures
        vec3_dot(a, b) == vec3_dot(b, a),
{
    lemma_frac_mul_comm(a.x, b.x);
    lemma_frac_mul_comm(a.y, b.y);
    lemma_frac_mul_comm(a.z, b.z);
}

} // verus!
