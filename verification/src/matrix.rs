//! A rectangular, row-major collection of double-precision values, each
//! held as its IEEE-754 bit pattern (`u64`).
//!
//! A matrix is built from rows of equal length (validated, recoverable
//! failure) or zero-initialized. Rows and columns come out as owned
//! `Vector` copies. Multiplication is expressed through the vector layer:
//! cell `(i, j)` of a product is the dot product of row `i` of the left
//! operand with column `j` of the right one, and since summing
//! floating-point products cannot be carried out here, `mul_terms` hands
//! out the exact ordered factor pairs of every cell for a caller to fold.

use vstd::prelude::*;
use crate::approx::element_close;
use crate::approx::pair_close;
use crate::approx::grid_close;
use crate::approx::lemma_pair_close_reflexive;
use crate::approx::lemma_grid_close_reflexive;
use crate::vector::paired;
use crate::vector::Vector;

verus! {

/// The sequence of rows, each row seen as a sequence of scalars.
pub open spec fn grid_view<T>(rows: Seq<Vec<T>>) -> Seq<Seq<T>> {
    rows.map_values(|r: Vec<T>| r@)
}

/// Column `j` of a grid: element `j` of every row.
pub open spec fn column(m: Seq<Seq<u64>>, j: int) -> Seq<u64> {
    Seq::new(m.len(), |i: int| m[i][j])
}

/// Row data a matrix can be built from: at least one row, all rows of one
/// length.
pub open spec fn rows_ok(m: Seq<Seq<u64>>) -> bool {
    m.len() > 0 && (forall|i: int| 0 <= i < m.len() ==> #[trigger] m[i].len() == m[0].len())
}

/// A rectangular grid of doubles, stored row-major as bit patterns.
#[derive(Clone, Debug)]
pub struct Matrix {
    rows: Vec<Vec<u64>>,
}

impl View for Matrix {
    type V = Seq<Seq<u64>>;

    closed spec fn view(&self) -> Seq<Seq<u64>> {
        grid_view(self.rows@)
    }
}

impl Matrix {
    /// The invariant every constructed matrix has: one row at least, and
    /// all rows of equal length.
    pub open spec fn wf(&self) -> bool {
        rows_ok(self@)
    }

    /// Builds a matrix copying `rows`; fails — returning no matrix — when
    /// the input is empty or its rows differ in length.
    pub fn new(rows: &Vec<Vec<u64>>) -> (m: Option<Matrix>)
        ensures
            m.is_some() <==> rows_ok(grid_view(rows@)),
            m matches Some(mm) ==> mm@ == grid_view(rows@) && mm.wf(),
    {
        if rows.len() == 0 {
            return None;
        }
        let c: usize = rows[0].len();
        let mut i: usize = 1;
        while i < rows.len()
            invariant
                1 <= i <= rows@.len(),
                c == rows@[0]@.len(),
                forall|k: int| 0 <= k < i ==> rows@[k]@.len() == c,
            decreases rows@.len() - i,
        {
            if rows[i].len() != c {
                assert(grid_view(rows@)[i as int].len() != grid_view(rows@)[0].len());
                return None;
            }
            i = i + 1;
        }
        let mut out: Vec<Vec<u64>> = Vec::new();
        let mut r: usize = 0;
        while r < rows.len()
            invariant
                r <= rows@.len(),
                out@.len() == r,
                forall|k: int| 0 <= k < r ==> out@[k]@ == rows@[k]@,
            decreases rows@.len() - r,
        {
            let mut row: Vec<u64> = Vec::new();
            let mut j: usize = 0;
            while j < rows[r].len()
                invariant
                    r < rows@.len(),
                    j <= rows@[r as int]@.len(),
                    row@ == rows@[r as int]@.subrange(0, j as int),
                decreases rows@[r as int]@.len() - j,
            {
                row.push(rows[r][j]);
                proof {
                    assert(rows@[r as int]@.subrange(0, j as int).push(
                        rows@[r as int]@[j as int],
                    ) =~= rows@[r as int]@.subrange(0, j as int + 1));
                }
                j = j + 1;
            }
            proof {
                assert(row@ =~= rows@[r as int]@);
            }
            out.push(row);
            r = r + 1;
        }
        let m = Matrix { rows: out };
        proof {
            assert(m@ =~~= grid_view(rows@));
        }
        Some(m)
    }

    /// An all-zero matrix of the given (row count, column count) shape; both
    /// counts must be positive. The scalar `0u64` is the bit pattern of the
    /// double `+0.0`.
    pub fn zeros(size: (usize, usize)) -> (m: Matrix)
        requires
            size.0 > 0,
            size.1 > 0,
        ensures
            m.wf(),
            m@.len() == size.0,
            forall|i: int| 0 <= i < m@.len() ==> m@[i].len() == size.1,
            forall|i: int, j: int| 0 <= i < m@.len() && 0 <= j < m@[i].len() ==> m@[i][j] == 0,
    {
        let mut out: Vec<Vec<u64>> = Vec::new();
        let mut i: usize = 0;
        while i < size.0
            invariant
                i <= size.0,
                out@.len() == i,
                forall|k: int| 0 <= k < i ==> out@[k]@.len() == size.1,
                forall|k: int, j: int| 0 <= k < i && 0 <= j < size.1 ==> out@[k]@[j] == 0,
            decreases size.0 - i,
        {
            let mut row: Vec<u64> = Vec::new();
            let mut j: usize = 0;
            while j < size.1
                invariant
                    j <= size.1,
                    row@.len() == j,
                    forall|l: int| 0 <= l < j ==> row@[l] == 0,
                decreases size.1 - j,
            {
                row.push(0u64);
                j = j + 1;
            }
            out.push(row);
            i = i + 1;
        }
        Matrix { rows: out }
    }

    /// The shape: (row count, column count), the column count being the
    /// length every row shares.
    pub fn dim(&self) -> (d: (usize, usize))
        requires
            self.wf(),
        ensures
            d.0 == self@.len(),
            d.1 == self@[0].len(),
    {
        (self.rows.len(), self.rows[0].len())
    }

    /// An owned copy of row `idx`.
    pub fn row(&self, idx: usize) -> (v: Vector)
        requires
            self.wf(),
            idx < self@.len(),
        ensures
            v@ == self@[idx as int],
    {
        Vector::new(&self.rows[idx])
    }

    /// An owned copy of column `idx`, gathered from every row.
    pub fn col(&self, idx: usize) -> (v: Vector)
        requires
            self.wf(),
            idx < self@[0].len(),
        ensures
            v@ == column(self@, idx as int),
    {
        let n: usize = self.rows.len();
        let mut vals: Vec<u64> = Vec::new();
        let mut i: usize = 0;
        while i < n
            invariant
                self.wf(),
                idx < self@[0].len(),
                n == self@.len(),
                i <= n,
                vals@.len() == i,
                forall|k: int| 0 <= k < i ==> vals@[k] == self@[k][idx as int],
            decreases n - i,
        {
            proof {
                assert(self@[i as int] == self.rows@[i as int]@);
                assert(self@[i as int].len() == self@[0].len());
            }
            vals.push(self.rows[i][idx]);
            i = i + 1;
        }
        proof {
            assert(vals@ =~= column(self@, idx as int));
        }
        Vector::new(&vals)
    }

    /// Elementwise tolerance comparison: false at once when the shapes
    /// differ, else true exactly when every element pair passes the dual
    /// test. `within_eps[i][j]` carries the per-element epsilon clause —
    /// whether the two entries differ by at most `1e-5` in absolute value —
    /// judged by the caller with floating-point arithmetic; exact equality
    /// and ULP closeness are decided here.
    pub fn ap_eq(&self, rhs: &Matrix, within_eps: &Vec<Vec<bool>>) -> (r: bool)
        requires
            self.wf(),
            rhs.wf(),
            self@.len() == rhs@.len() && self@[0].len() == rhs@[0].len() ==> {
                &&& within_eps@.len() == self@.len()
                &&& forall|i: int|
                    0 <= i < within_eps@.len() ==> within_eps@[i]@.len() == self@[0].len()
            },
        ensures
            r == (self@.len() == rhs@.len() && self@[0].len() == rhs@[0].len() && grid_close(
                self@,
                rhs@,
                grid_view(within_eps@),
            )),
    {
        let d0: (usize, usize) = self.dim();
        let d1: (usize, usize) = rhs.dim();
        if d0.0 != d1.0 || d0.1 != d1.1 {
            return false;
        }
        let mut i: usize = 0;
        while i < d0.0
            invariant
                self.wf(),
                rhs.wf(),
                d0.0 == self@.len(),
                d0.1 == self@[0].len(),
                self@.len() == rhs@.len(),
                self@[0].len() == rhs@[0].len(),
                within_eps@.len() == self@.len(),
                forall|k: int|
                    0 <= k < within_eps@.len() ==> within_eps@[k]@.len() == self@[0].len(),
                i <= d0.0,
                forall|a: int, b: int|
                    0 <= a < i && 0 <= b < self@[a].len() ==> pair_close(
                        self@[a][b],
                        rhs@[a][b],
                        grid_view(within_eps@)[a][b],
                    ),
            decreases d0.0 - i,
        {
            let mut j: usize = 0;
            while j < d0.1
                invariant
                    self.wf(),
                    rhs.wf(),
                    d0.0 == self@.len(),
                    d0.1 == self@[0].len(),
                    self@.len() == rhs@.len(),
                    self@[0].len() == rhs@[0].len(),
                    within_eps@.len() == self@.len(),
                    forall|k: int|
                        0 <= k < within_eps@.len() ==> within_eps@[k]@.len() == self@[0].len(),
                    i < d0.0,
                    j <= d0.1,
                    forall|a: int, b: int|
                        0 <= a < i && 0 <= b < self@[a].len() ==> pair_close(
                            self@[a][b],
                            rhs@[a][b],
                            grid_view(within_eps@)[a][b],
                        ),
                    forall|b: int|
                        0 <= b < j ==> pair_close(
                            self@[i as int][b],
                            rhs@[i as int][b],
                            grid_view(within_eps@)[i as int][b],
                        ),
                decreases d0.1 - j,
            {
                proof {
                    assert(self@[i as int] == self.rows@[i as int]@);
                    assert(rhs@[i as int] == rhs.rows@[i as int]@);
                    assert(self@[i as int].len() == self@[0].len());
                    assert(rhs@[i as int].len() == rhs@[0].len());
                    assert(grid_view(within_eps@)[i as int][j as int] == within_eps@[i as int]@[j as int]);
                }
                if !element_close(self.rows[i][j], rhs.rows[i][j], within_eps[i][j]) {
                    assert(!pair_close(
                        self@[i as int][j as int],
                        rhs@[i as int][j as int],
                        grid_view(within_eps@)[i as int][j as int],
                    ));
                    return false;
                }
                j = j + 1;
            }
            i = i + 1;
        }
        true
    }

    /// Combines two matrices of equal shape — the shapes must match, a
    /// caller error otherwise. The result takes every entry from `rhs`; the
    /// left operand contributes nothing but its (identical) shape. This
    /// asymmetric definition is deliberate and stated exactly, rather than
    /// an elementwise sum (which, being floating-point addition, could not
    /// be carried out here anyway).
    pub fn add(&self, rhs: &Matrix) -> (m: Matrix)
        requires
            self.wf(),
            rhs.wf(),
            self@.len() == rhs@.len(),
            self@[0].len() == rhs@[0].len(),
        ensures
            m.wf(),
            m@ == rhs@,
    {
        let n: usize = rhs.rows.len();
        let mut out: Vec<Vec<u64>> = Vec::new();
        let mut i: usize = 0;
        while i < n
            invariant
                rhs.wf(),
                n == rhs@.len(),
                i <= n,
                out@.len() == i,
                forall|k: int| 0 <= k < i ==> out@[k]@ == rhs@[k],
            decreases n - i,
        {
            let c: usize = rhs.rows[i].len();
            let mut row: Vec<u64> = Vec::new();
            let mut j: usize = 0;
            while j < c
                invariant
                    rhs.wf(),
                    i < rhs@.len(),
                    c == rhs@[i as int].len(),
                    j <= c,
                    row@.len() == j,
                    forall|l: int| 0 <= l < j ==> row@[l] == rhs@[i as int][l],
                decreases c - j,
            {
                row.push(rhs.rows[i][j]);
                j = j + 1;
            }
            proof {
                assert(row@ =~= rhs@[i as int]);
            }
            out.push(row);
            i = i + 1;
        }
        let m = Matrix { rows: out };
        proof {
            assert(m@ =~~= rhs@);
        }
        m
    }

    /// The multiplication plan. The operation's guard compares the left
    /// operand's row count with the right operand's column count (note:
    /// deliberately not the usual inner-dimension rule), and pairing row
    /// `i` with column `j` further needs the left column count to equal
    /// the right row count; both are caller obligations. Cell `(i, j)` of
    /// the product is the dot product of `self.row(i)` and `rhs.col(j)`:
    /// this returns, for every cell, the ordered factor pairs of that dot
    /// product — `paired(self@[i], column(rhs@, j))` — for a caller to
    /// product-sum left to right.
    pub fn mul_terms(&self, rhs: &Matrix) -> (cells: Vec<Vec<Vec<(u64, u64)>>>)
        requires
            self.wf(),
            rhs.wf(),
            self@.len() == rhs@[0].len(),
            self@[0].len() == rhs@.len(),
        ensures
            cells@.len() == self@.len(),
            forall|i: int| 0 <= i < cells@.len() ==> cells@[i]@.len() == rhs@[0].len(),
            forall|i: int, j: int| #![trigger cells@[i]@[j]]
                0 <= i < cells@.len() && 0 <= j < cells@[i]@.len() ==> cells@[i]@[j]@ == paired(
                    self@[i],
                    column(rhs@, j),
                ),
    {
        let nr: usize = self.rows.len();
        let nc: usize = rhs.rows[0].len();
        let mut cells: Vec<Vec<Vec<(u64, u64)>>> = Vec::new();
        let mut i: usize = 0;
        while i < nr
            invariant
                self.wf(),
                rhs.wf(),
                self@.len() == rhs@[0].len(),
                self@[0].len() == rhs@.len(),
                nr == self@.len(),
                nc == rhs@[0].len(),
                i <= nr,
                cells@.len() == i,
                forall|a: int| 0 <= a < i ==> cells@[a]@.len() == nc,
                forall|a: int, b: int| #![trigger cells@[a]@[b]]
                    0 <= a < i && 0 <= b < nc ==> cells@[a]@[b]@ == paired(
                        self@[a],
                        column(rhs@, b),
                    ),
            decreases nr - i,
        {
            let ri: Vector = self.row(i);
            let mut cellrow: Vec<Vec<(u64, u64)>> = Vec::new();
            let mut j: usize = 0;
            while j < nc
                invariant
                    self.wf(),
                    rhs.wf(),
                    self@.len() == rhs@[0].len(),
                    self@[0].len() == rhs@.len(),
                    nr == self@.len(),
                    nc == rhs@[0].len(),
                    i < nr,
                    ri@ == self@[i as int],
                    j <= nc,
                    cellrow@.len() == j,
                    forall|b: int| #![trigger cellrow@[b]]
                        0 <= b < j ==> cellrow@[b]@ == paired(self@[i as int], column(rhs@, b)),
                decreases nc - j,
            {
                proof {
                    assert(self@[i as int].len() == self@[0].len());
                }
                let cj: Vector = rhs.col(j);
                let t: Vec<(u64, u64)> = ri.dot_terms(&cj);
                cellrow.push(t);
                j = j + 1;
            }
            cells.push(cellrow);
            i = i + 1;
        }
        cells
    }
}

/// Rebuilding a matrix from its extracted rows reproduces it. Each `row(i)`
/// of a well-formed matrix is exactly `m@[i]`, so the extracted row data is
/// accepted by `new` (`rows_ok` holds of it) and the rebuilt matrix carries
/// the very same entries — and a matrix is approximately equal to an
/// entry-for-entry copy of itself under any epsilon verdicts.
pub proof fn lemma_rows_round_trip(m: Matrix, eps: Seq<Seq<bool>>)
    requires
        m.wf(),
    ensures
        rows_ok(m@),
        grid_close(m@, m@, eps),
{
    lemma_grid_close_reflexive(m@, eps);
}

/// Two all-zero grids of one shape are approximately equal under any
/// epsilon verdicts: every element pair is `(+0.0, +0.0)`, which passes the
/// exact-equality test.
pub proof fn lemma_all_zero_close(a: Seq<Seq<u64>>, b: Seq<Seq<u64>>, eps: Seq<Seq<bool>>)
    requires
        a.len() == b.len(),
        forall|i: int| 0 <= i < a.len() ==> a[i].len() == b[i].len(),
        forall|i: int, j: int| 0 <= i < a.len() && 0 <= j < a[i].len() ==> a[i][j] == 0,
        forall|i: int, j: int| 0 <= i < b.len() && 0 <= j < b[i].len() ==> b[i][j] == 0,
    ensures
        grid_close(a, b, eps),
{
    assert forall|i: int, j: int|
        0 <= i < a.len() && 0 <= j < a[i].len() implies pair_close(
        a[i][j],
        b[i][j],
        eps[i][j],
    ) by {
        lemma_pair_close_reflexive(0, eps[i][j]);
    }
}

} // verus!
