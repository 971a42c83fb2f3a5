//! An ordered, fixed-length sequence of double-precision values, each held
//! as its IEEE-754 bit pattern (`u64`).
//!
//! The norm and dot-product computations sum floating-point products, which
//! cannot be carried out here. The vector instead hands out the exact
//! ordered factor pairs of those sums (`dot_terms`, `l2norm_terms`); a
//! caller folds them left to right with plain `f64` multiplication and
//! addition, so the accumulation order the contract fixes is the naive
//! left-to-right one.

use vstd::prelude::*;
use crate::approx::element_close;
use crate::approx::pair_close;
use crate::approx::seq_close;

verus! {

/// The elementwise pairing of two equally long scalar sequences: element
/// `i` is `(a[i], b[i])`.
pub open spec fn paired(a: Seq<u64>, b: Seq<u64>) -> Seq<(u64, u64)> {
    Seq::new(a.len(), |i: int| (a[i], b[i]))
}

/// A fixed-length sequence of doubles, stored as their bit patterns.
#[derive(Debug)]
pub struct Vector {
    elems: Vec<u64>,
}

impl View for Vector {
    type V = Seq<u64>;

    closed spec fn view(&self) -> Seq<u64> {
        self.elems@
    }
}

impl Vector {
    /// Builds a vector copying `values` in order. Always succeeds.
    pub fn new(values: &Vec<u64>) -> (v: Vector)
        ensures
            v@ == values@,
    {
        let mut elems: Vec<u64> = Vec::new();
        let mut i: usize = 0;
        while i < values.len()
            invariant
                i <= values@.len(),
                elems@ == values@.subrange(0, i as int),
            decreases values@.len() - i,
        {
            elems.push(values[i]);
            proof {
                assert(values@.subrange(0, i as int).push(values@[i as int]) =~= values@.subrange(
                    0,
                    i as int + 1,
                ));
            }
            i = i + 1;
        }
        proof {
            assert(elems@ =~= values@);
        }
        Vector { elems }
    }

    /// The element count.
    pub fn dim(&self) -> (n: usize)
        ensures
            n == self@.len(),
    {
        self.elems.len()
    }

    /// The element at position `i`.
    pub fn get(&self, i: usize) -> (x: u64)
        requires
            i < self@.len(),
        ensures
            x == self@[i as int],
    {
        self.elems[i]
    }

    /// Replaces the element at position `i`.
    pub fn set(&mut self, i: usize, x: u64)
        requires
            i < old(self)@.len(),
        ensures
            final(self)@ == old(self)@.update(i as int, x),
    {
        self.elems.set(i, x);
    }

    /// The ordered factor pairs of the dot product of `self` and `rhs`:
    /// pair `i` is `(self[i], rhs[i])`. The dot product is the left-to-right
    /// sum of the products of these pairs.
    pub fn dot_terms(&self, rhs: &Vector) -> (t: Vec<(u64, u64)>)
        requires
            self@.len() == rhs@.len(),
        ensures
            t@ == paired(self@, rhs@),
    {
        let n: usize = self.elems.len();
        let mut t: Vec<(u64, u64)> = Vec::new();
        let mut i: usize = 0;
        while i < n
            invariant
                n == self@.len(),
                self@.len() == rhs@.len(),
                i <= n,
                t@.len() == i,
                forall|k: int| 0 <= k < i ==> t@[k] == (self@[k], rhs@[k]),
            decreases n - i,
        {
            t.push((self.elems[i], rhs.elems[i]));
            i = i + 1;
        }
        proof {
            assert(t@ =~= paired(self@, rhs@));
        }
        t
    }

    /// The ordered factor pairs of the squared norm: pair `i` is
    /// `(self[i], self[i])`, the squared norm being the dot product of the
    /// vector with itself. Its left-to-right product-sum is the sum of the
    /// squares of the elements.
    pub fn l2norm_terms(&self) -> (t: Vec<(u64, u64)>)
        ensures
            t@ == paired(self@, self@),
    {
        self.dot_terms(self)
    }

    /// Elementwise tolerance comparison. Dimensions must match: comparing
    /// vectors of different dimension is a caller error. `within_eps[i]`
    /// carries the epsilon clause of the per-element test — whether
    /// `self[i]` and `rhs[i]` differ by at most `1e-5` in absolute value —
    /// judged by the caller with floating-point arithmetic; exact equality
    /// and ULP closeness are decided here.
    pub fn ap_eq(&self, rhs: &Vector, within_eps: &Vec<bool>) -> (r: bool)
        requires
            self@.len() == rhs@.len(),
            within_eps@.len() == self@.len(),
        ensures
            r == seq_close(self@, rhs@, within_eps@),
    {
        let n: usize = self.elems.len();
        let mut i: usize = 0;
        while i < n
            invariant
                n == self@.len(),
                self@.len() == rhs@.len(),
                within_eps@.len() == self@.len(),
                i <= n,
                forall|k: int| 0 <= k < i ==> pair_close(self@[k], rhs@[k], within_eps@[k]),
            decreases n - i,
        {
            if !element_close(self.elems[i], rhs.elems[i], within_eps[i]) {
                assert(!pair_close(self@[i as int], rhs@[i as int], within_eps@[i as int]));
                return false;
            }
            i = i + 1;
        }
        true
    }
}

} // verus!
