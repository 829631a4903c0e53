//! Vectors of any fixed dimension.
//!
//! The dimension is fixed when the vector is built; operations demand
//! operands of the same dimension.

use crate::scalar::{add_fits, frac_add, frac_mul, frac_neg, frac_wf, fits, mul_fits, Frac,
    Scalar};
use vstd::prelude::*;

verus! {

/// A vector of exact scalar coordinates of any fixed dimension.
#[derive(Clone, Debug, PartialEq, Eq)]
pub struct Vecn {
    coords: Vec<Scalar>,
}

impl View for Vecn {
    type V = Seq<Frac>;

    closed spec fn view(&self) -> Seq<Frac> {
        self.coords@.map_values(|s: Scalar| s@)
    }
}

impl Vecn {
    /// A vector made of the given coordinates; its dimension is their
    /// number.
    pub fn new(coords: Vec<Scalar>) -> (r: Vecn)
        ensures
            r@.len() == coords@.len(),
            forall|i: int| 0 <= i < coords@.len() ==> r@[i] == coords@[i]@,
    {
        Vecn { coords }
    }

    /// The dimension of the vector.
    pub fn dim(&self) -> (r: usize)
        ensures
            r == self@.len(),
    {
        self.coords.len()
    }

    /// The coordinate at the given index.
    pub fn coord(&self, i: usize) -> (r: Scalar)
        requires
            i < self@.len(),
        ensures
            r@ == self@[i as int],
    {
        self.coords[i]
    }

    /// Component-wise exact addition of two vectors of the same dimension.
    pub fn add(self, other: Vecn) -> (r: Vecn)
        requires
            self@.len() == other@.len(),
            forall|i: int| 0 <= i < self@.len() ==> frac_wf(#[trigger] self@[i]),
            forall|i: int| 0 <= i < self@.len() ==> frac_wf(#[trigger] other@[i]),
            forall|i: int| 0 <= i < self@.len() ==> add_fits(#[trigger] self@[i], other@[i]),
        ensures
            r@.len() == self@.len(),
            forall|i: int|
                0 <= i < self@.len() ==> r@[i] == frac_add(#[trigger] self@[i], other@[i]),
    {
        let n = self.coords.len();
        let mut out: Vec<Scalar> = Vec::new();
        let mut i: usize = 0;
        while i < n
            invariant
                n == self.coords.len(),
                n == other.coords.len(),
                i <= n,
                out.len() == i,
                forall|k: int| 0 <= k < n ==> frac_wf(#[trigger] self@[k]),
                forall|k: int| 0 <= k < n ==> frac_wf(#[trigger] other@[k]),
                forall|k: int| 0 <= k < n ==> add_fits(#[trigger] self@[k], other@[k]),
                forall|k: int| 0 <= k < i ==> out@[k]@ == frac_add(#[trigger] self@[k], other@[k]),
            decreases n - i,
        {
            proof {
                assert(self@[i as int] == self.coords@[i as int]@);
                assert(other@[i as int] == other.coords@[i as int]@);
            }
            out.push(self.coords[i].add(other.coords[i]));
            i = i + 1;
        }
        Vecn { coords: out }
    }

    /// Exact multiplication of every coordinate by a scalar.
    pub fn mul(self, scalar: Scalar) -> (r: Vecn)
        requires
            frac_wf(scalar@),
            forall|i: int| 0 <= i < self@.len() ==> frac_wf(#[trigger] self@[i]),
            forall|i: int| 0 <= i < self@.len() ==> mul_fits(#[trigger] self@[i], scalar@),
        ensures
            r@.len() == self@.len(),
            forall|i: int| 0 <= i < self@.len() ==> r@[i] == frac_mul(#[trigger] self@[i], scalar@),
    {
        let n = self.coords.len();
        let mut out: Vec<Scalar> = Vec::new();
        let mut i: usize = 0;
        while i < n
            invariant
                n == self.coords.len(),
                i <= n,
                out.len() == i,
                frac_wf(scalar@),
                forall|k: int| 0 <= k < n ==> frac_wf(#[trigger] self@[k]),
                forall|k: int| 0 <= k < n ==> mul_fits(#[trigger] self@[k], scalar@),
                forall|k: int| 0 <= k < i ==> out@[k]@ == frac_mul(#[trigger] self@[k], scalar@),
            decreases n - i,
        {
            proof {
                assert(self@[i as int] == self.coords@[i as int]@);
            }
            out.push(self.coords[i].mul(scalar));
            i = i + 1;
        }
        Vecn { coords: out }
    }

    /// Component-wise negation.
    pub fn neg(self) -> (r: Vecn)
        requires
            forall|i: int| 0 <= i < self@.len() ==> frac_wf(#[trigger] self@[i]),
            forall|i: int| 0 <= i < self@.len() ==> fits((#[trigger] self@[i]).num),
        ensures
            r@.len() == self@.len(),
            forall|i: int| 0 <= i < self@.len() ==> r@[i] == frac_neg(#[trigger] self@[i]),
    {
        let n = self.coords.len();
        let mut out: Vec<Scalar> = Vec::new();
        let mut i: usize = 0;
        while i < n
            invariant
                n == self.coords.len(),
                i <= n,
                out.len() == i,
                forall|k: int| 0 <= k < n ==> frac_wf(#[trigger] self@[k]),
                forall|k: int| 0 <= k < n ==> fits((#[trigger] self@[k]).num),
                forall|k: int| 0 <= k < i ==> out@[k]@ == frac_neg(#[trigger] self@[k]),
            decreases n - i,
        {
            proof {
                assert(self@[i as int] == self.coords@[i as int]@);
            }
            out.push(self.coords[i].neg());
            i = i + 1;
        }
        Vecn { coords: out }
    }
}

} // verus!
