use vstd::prelude::*;

use crate::fx::{
    fx_add_raw, fx_approx, fx_div_raw, fx_mul_raw, fx_neg_raw, fx_sub_raw, Fx, FX_ONE,
};
use crate::point::Point;
use crate::vector::{V3, Vector};

verus! {

/// A square matrix of dimension at most four, stored row-major in a grid of
/// sixteen scalars. Entries outside the active `dimension` x `dimension`
/// block stay zero.
#[derive(Debug, Clone, Copy, PartialEq)]
pub struct Matrix {
    pub dimension: usize,
    pub grid: [Fx; 16],
}

/// Entry (r, c) of a raw grid.
pub open spec fn m_at(g: Seq<int>, r: int, c: int) -> int {
    g[r * 4 + c]
}

/// The identity grid of the given dimension.
pub open spec fn m_eye(dim: nat) -> Seq<int> {
    Seq::new(16, |i: int| if i / 4 == i % 4 && i / 4 < dim {
        FX_ONE as int
    } else {
        0
    })
}

/// One product cell of a matrix product: the first `k` terms of
/// `sum over j of a(r, j) * b(j, c)`, accumulated left to right.
pub open spec fn m_mul_cell(a: Seq<int>, b: Seq<int>, r: int, c: int, k: nat) -> int
    decreases k,
{
    if k == 0 {
        0
    } else {
        fx_add_raw(
            m_mul_cell(a, b, r, c, (k - 1) as nat),
            fx_mul_raw(m_at(a, r, k - 1), m_at(b, k - 1, c)),
        )
    }
}

/// The product grid of two matrices of the given dimension.
pub open spec fn m_mul(a: Seq<int>, b: Seq<int>, dim: nat) -> Seq<int> {
    Seq::new(16, |i: int| if i / 4 < dim && i % 4 < dim {
        m_mul_cell(a, b, i / 4, i % 4, dim)
    } else {
        0
    })
}

/// The transposed grid.
pub open spec fn m_transpose(g: Seq<int>, dim: nat) -> Seq<int> {
    Seq::new(16, |i: int| if i / 4 < dim && i % 4 < dim {
        m_at(g, i % 4, i / 4)
    } else {
        0
    })
}

/// Index mapping that skips one deleted row or column.
pub open spec fn m_skip(n: int, cut: int) -> int {
    if n >= cut {
        n + 1
    } else {
        n
    }
}

/// The grid with row `row` and column `col` deleted.
pub open spec fn m_sub(g: Seq<int>, dim: nat, row: int, col: int) -> Seq<int> {
    Seq::new(16, |i: int| if i / 4 < dim - 1 && i % 4 < dim - 1 {
        m_at(g, m_skip(i / 4, row), m_skip(i % 4, col))
    } else {
        0
    })
}

/// Determinant by cofactor expansion along the first column; a 2 x 2 grid is
/// the base case, and dimensions below two give zero as the expansion has no
/// base to stand on.
pub open spec fn m_det(g: Seq<int>, dim: nat) -> int
    decreases dim, 2nat, 0nat,
{
    if dim == 2 {
        fx_sub_raw(fx_mul_raw(m_at(g, 0, 0), m_at(g, 1, 1)), fx_mul_raw(m_at(g, 0, 1), m_at(g, 1, 0)))
    } else {
        m_det_sum(g, dim, dim)
    }
}

/// The first `k` terms of the cofactor expansion along the first column.
pub open spec fn m_det_sum(g: Seq<int>, dim: nat, k: nat) -> int
    decreases dim, 1nat, k,
{
    if k == 0 {
        0
    } else {
        fx_add_raw(
            m_det_sum(g, dim, (k - 1) as nat),
            fx_mul_raw(m_at(g, k - 1, 0), m_cof(g, dim, k - 1, 0)),
        )
    }
}

/// Cofactor: the minor at (r, c) with the checkerboard sign.
pub open spec fn m_cof(g: Seq<int>, dim: nat, r: int, c: int) -> int
    decreases dim, 0nat, 0nat,
{
    if dim == 0 {
        0
    } else {
        let minor = m_det(m_sub(g, dim, r, c), (dim - 1) as nat);
        if (r + c) % 2 == 0 {
            minor
        } else {
            fx_neg_raw(minor)
        }
    }
}

/// The inverse grid: the transposed cofactors, each divided by the
/// determinant.
pub open spec fn m_inv(g: Seq<int>, dim: nat) -> Seq<int> {
    Seq::new(16, |i: int| if i / 4 < dim && i % 4 < dim {
        fx_div_raw(m_cof(g, dim, i % 4, i / 4), m_det(g, dim))
    } else {
        0
    })
}

/// A vector pushed through the upper-left 3 x 3 block: the translation
/// column is ignored because a direction has homogeneous w = 0.
pub open spec fn m_apply_vector(g: Seq<int>, v: V3) -> V3 {
    V3 {
        x: fx_add_raw(fx_add_raw(fx_mul_raw(v.x, m_at(g, 0, 0)), fx_mul_raw(v.y, m_at(g, 0, 1))), fx_mul_raw(v.z, m_at(g, 0, 2))),
        y: fx_add_raw(fx_add_raw(fx_mul_raw(v.x, m_at(g, 1, 0)), fx_mul_raw(v.y, m_at(g, 1, 1))), fx_mul_raw(v.z, m_at(g, 1, 2))),
        z: fx_add_raw(fx_add_raw(fx_mul_raw(v.x, m_at(g, 2, 0)), fx_mul_raw(v.y, m_at(g, 2, 1))), fx_mul_raw(v.z, m_at(g, 2, 2))),
    }
}

/// A point pushed through the transform: like a vector, but the translation
/// column is added because a position has homogeneous w = 1.
pub open spec fn m_apply_point(g: Seq<int>, p: V3) -> V3 {
    V3 {
        x: fx_add_raw(fx_add_raw(fx_add_raw(fx_mul_raw(p.x, m_at(g, 0, 0)), fx_mul_raw(p.y, m_at(g, 0, 1))), fx_mul_raw(p.z, m_at(g, 0, 2))), m_at(g, 0, 3)),
        y: fx_add_raw(fx_add_raw(fx_add_raw(fx_mul_raw(p.x, m_at(g, 1, 0)), fx_mul_raw(p.y, m_at(g, 1, 1))), fx_mul_raw(p.z, m_at(g, 1, 2))), m_at(g, 1, 3)),
        z: fx_add_raw(fx_add_raw(fx_add_raw(fx_mul_raw(p.x, m_at(g, 2, 0)), fx_mul_raw(p.y, m_at(g, 2, 1))), fx_mul_raw(p.z, m_at(g, 2, 2))), m_at(g, 2, 3)),
    }
}

/// Entrywise equality of two grids within the tolerance 1e-4.
pub open spec fn m_approx(a: Seq<int>, b: Seq<int>) -> bool {
    forall|i: int| 0 <= i < 16 ==> fx_approx(a[i], b[i])
}

/// The identity is invertible: its determinant is exactly one, so it meets
/// the precondition of `inverse` and a fresh shape or camera can always be
/// used as it stands. The cofactor expansion is walked column by column;
/// every term but the diagonal one vanishes.
pub proof fn lemma_eye_invertible()
    ensures
        m_det(m_eye(4), 4) == FX_ONE as int,
{
    crate::fx::lemma_fx_mul_one(FX_ONE as int);
    let g4 = m_eye(4);
    let g3 = m_sub(g4, 4, 0, 0);
    let g2 = m_sub(g3, 3, 0, 0);
    assert(g3 =~= m_eye(3));
    assert(g2 =~= m_eye(2));
    assert(m_at(g2, 0, 0) == FX_ONE as int);
    assert(m_at(g2, 1, 1) == FX_ONE as int);
    assert(crate::fx::iabs(0) == 0);
    assert(0int / 0x4000_0000int == 0int);
    assert(fx_mul_raw(0, 0) == 0);
    assert(m_det(g2, 2) == FX_ONE as int);
    assert(m_cof(g3, 3, 0, 0) == FX_ONE as int);
    assert(m_det_sum(g3, 3, 0) == 0);
    assert(m_det_sum(g3, 3, 1) == FX_ONE as int);
    assert(m_det_sum(g3, 3, 2) == FX_ONE as int);
    assert(m_det_sum(g3, 3, 3) == FX_ONE as int);
    assert(m_det(g3, 3) == FX_ONE as int);
    assert(m_cof(g4, 4, 0, 0) == FX_ONE as int);
    assert(m_det_sum(g4, 4, 0) == 0);
    assert(m_det_sum(g4, 4, 1) == FX_ONE as int);
    assert(m_det_sum(g4, 4, 2) == FX_ONE as int);
    assert(m_det_sum(g4, 4, 3) == FX_ONE as int);
    assert(m_det_sum(g4, 4, 4) == FX_ONE as int);
}

/// A fresh grid of sixteen zero scalars.
fn zero_grid() -> (g: [Fx; 16])
    ensures
        forall|i: int| 0 <= i < 16 ==> g@[i]@ == 0,
{
    vstd::array::array_fill_for_copy_types(Fx { raw: 0 })
}

impl Matrix {
    /// The sixteen raw entries as mathematical integers.
    pub open spec fn s(&self) -> Seq<int> {
        Seq::new(16, |i: int| self.grid@[i]@)
    }

    /// A dimension of at most four.
    pub open spec fn wf(&self) -> bool {
        self.dimension <= 4
    }

    pub open spec fn dim(&self) -> nat {
        self.dimension as nat
    }

    /// A matrix of the given dimension filled row-major from `contents`.
    pub fn new(dimension: usize, contents: Vec<Fx>) -> (r: Matrix)
        requires
            dimension <= 4,
            contents@.len() == dimension * dimension,
        ensures
            r.wf(),
            r.dimension == dimension,
            forall|i: int| 0 <= i < 16 ==> r.s()[i] == (if i / 4 < dimension && i % 4 < dimension {
                contents@[(i / 4) * dimension + i % 4]@
            } else {
                0
            }),
    {
        let mut grid = zero_grid();
        let mut row: usize = 0;
        while row < dimension
            invariant
                row <= dimension,
                dimension <= 4,
                contents@.len() == dimension * dimension,
                forall|i: int| 0 <= i < 16 ==> grid@[i]@ == (if i / 4 < row && i % 4 < dimension {
                    contents@[(i / 4) * dimension + i % 4]@
                } else {
                    0
                }),
            decreases dimension - row,
        {
            let mut col: usize = 0;
            while col < dimension
                invariant
                    row < dimension,
                    col <= dimension,
                    dimension <= 4,
                    contents@.len() == dimension * dimension,
                        forall|i: int| 0 <= i < 16 ==> grid@[i]@ == (
                    if i / 4 < row && i % 4 < dimension {
                        contents@[(i / 4) * dimension + i % 4]@
                    } else if i / 4 == row && i % 4 < col {
                        contents@[(i / 4) * dimension + i % 4]@
                    } else {
                        0
                    }),
                decreases dimension - col,
            {
                assert(row * dimension + col < dimension * dimension && dimension * dimension
                    <= 16) by (nonlinear_arith)
                    requires
                        row < dimension,
                        col < dimension,
                        dimension <= 4,
                ;
                let v = contents[row * dimension + col];
                grid[row * 4 + col] = v;
                col = col + 1;
            }
            row = row + 1;
        }
        let r = Matrix { dimension, grid };
        assert(forall|i: int| 0 <= i < 16 ==> r.s()[i] == (if i / 4 < dimension && i % 4
            < dimension {
            contents@[(i / 4) * dimension + i % 4]@
        } else {
            0
        }));
        r
    }

    /// The identity matrix of the given dimension.
    pub fn eye(dimension: usize) -> (r: Matrix)
        requires
            dimension <= 4,
        ensures
            r.wf(),
            r.dimension == dimension,
            r.s() == m_eye(dimension as nat),
    {
        let mut grid = zero_grid();
        let mut i: usize = 0;
        while i < dimension
            invariant
                i <= dimension,
                dimension <= 4,
                forall|j: int| 0 <= j < 16 ==> grid@[j]@ == (if j / 4 == j % 4 && j / 4 < i {
                    FX_ONE as int
                } else {
                    0
                }),
            decreases dimension - i,
        {
            grid[i * 4 + i] = Fx { raw: FX_ONE };
            i = i + 1;
        }
        let r = Matrix { dimension, grid };
        assert(r.s() =~= m_eye(dimension as nat));
        r
    }

    /// Entry at (row, col).
    pub fn get(&self, row: usize, col: usize) -> (r: Fx)
        requires
            self.wf(),
            row < 4,
            col < 4,
        ensures
            r@ == m_at(self.s(), row as int, col as int),
    {
        self.grid[row * 4 + col]
    }

    /// Overwrites the entry at (row, col).
    pub fn set(&mut self, row: usize, col: usize, val: Fx)
        requires
            old(self).wf(),
            row < 4,
            col < 4,
        ensures
            final(self).wf(),
            final(self).dimension == old(self).dimension,
            final(self).s() == old(self).s().update(row * 4 + col, val@),
    {
        self.grid[row * 4 + col] = val;
        assert(self.s() =~= old(self).s().update(row * 4 + col, val@));
    }

    /// The matrix flipped about its main diagonal.
    pub fn transpose(&self) -> (r: Matrix)
        requires
            self.wf(),
        ensures
            r.wf(),
            r.dimension == self.dimension,
            r.s() == m_transpose(self.s(), self.dim()),
    {
        let dimension = self.dimension;
        let mut grid = zero_grid();
        let mut row: usize = 0;
        while row < dimension
            invariant
                row <= dimension,
                self.wf(),
                dimension == self.dimension,
                forall|i: int| 0 <= i < 16 ==> grid@[i]@ == (if i / 4 < row && i % 4 < dimension {
                    m_at(self.s(), i % 4, i / 4)
                } else {
                    0
                }),
            decreases dimension - row,
        {
            let mut col: usize = 0;
            while col < dimension
                invariant
                    row < dimension,
                    col <= dimension,
                    self.wf(),
                    dimension == self.dimension,
                        forall|i: int| 0 <= i < 16 ==> grid@[i]@ == (
                    if i / 4 < row && i % 4 < dimension {
                        m_at(self.s(), i % 4, i / 4)
                    } else if i / 4 == row && i % 4 < col {
                        m_at(self.s(), i % 4, i / 4)
                    } else {
                        0
                    }),
                decreases dimension - col,
            {
                let v = self.get(col, row);
                grid[row * 4 + col] = v;
                col = col + 1;
            }
            row = row + 1;
        }
        let r = Matrix { dimension, grid };
        assert(r.s() =~= m_transpose(self.s(), self.dim()));
        r
    }

    /// The product of two matrices of equal dimension: standard row times
    /// column accumulation.
    pub fn mul(&self, other: &Matrix) -> (r: Matrix)
        requires
            self.wf(),
            other.wf(),
            self.dimension == other.dimension,
        ensures
            r.wf(),
            r.dimension == self.dimension,
            r.s() == m_mul(self.s(), other.s(), self.dim()),
    {
        let dimension = self.dimension;
        let mut grid = zero_grid();
        let mut row: usize = 0;
        while row < dimension
            invariant
                row <= dimension,
                self.wf(),
                other.wf(),
                dimension == self.dimension,
                dimension == other.dimension,
                forall|i: int| 0 <= i < 16 ==> grid@[i]@ == (if i / 4 < row && i % 4 < dimension {
                    m_mul_cell(self.s(), other.s(), i / 4, i % 4, dimension as nat)
                } else {
                    0
                }),
            decreases dimension - row,
        {
            let mut col: usize = 0;
            while col < dimension
                invariant
                    row < dimension,
                    col <= dimension,
                    self.wf(),
                    other.wf(),
                    dimension == self.dimension,
                    dimension == other.dimension,
                        forall|i: int| 0 <= i < 16 ==> grid@[i]@ == (
                    if i / 4 < row && i % 4 < dimension {
                        m_mul_cell(self.s(), other.s(), i / 4, i % 4, dimension as nat)
                    } else if i / 4 == row && i % 4 < col {
                        m_mul_cell(self.s(), other.s(), i / 4, i % 4, dimension as nat)
                    } else {
                        0
                    }),
                decreases dimension - col,
            {
                let mut acc = Fx { raw: 0 };
                let mut k: usize = 0;
                while k < dimension
                    invariant
                        row < dimension,
                        col < dimension,
                        k <= dimension,
                        self.wf(),
                        other.wf(),
                        dimension == self.dimension,
                        dimension == other.dimension,
                        acc@ == m_mul_cell(self.s(), other.s(), row as int, col as int, k as nat),
                    decreases dimension - k,
                {
                    acc = acc.add(self.get(row, k).mul(other.get(k, col)));
                    k = k + 1;
                }
                grid[row * 4 + col] = acc;
                col = col + 1;
            }
            row = row + 1;
        }
        let r = Matrix { dimension, grid };
        assert(r.s() =~= m_mul(self.s(), other.s(), self.dim()));
        r
    }

    /// The matrix with one row and one column deleted.
    pub fn submatrix(&self, row: usize, col: usize) -> (r: Matrix)
        requires
            self.wf(),
            row < self.dimension,
            col < self.dimension,
        ensures
            r.wf(),
            r.dimension == self.dimension - 1,
            r.s() == m_sub(self.s(), self.dim(), row as int, col as int),
    {
        let dimension = self.dimension;
        let mut grid = zero_grid();
        let mut nr: usize = 0;
        while nr < dimension - 1
            invariant
                nr <= dimension - 1,
                self.wf(),
                dimension == self.dimension,
                row < dimension,
                col < dimension,
                forall|i: int| 0 <= i < 16 ==> grid@[i]@ == (if i / 4 < nr && i % 4 < dimension - 1 {
                    m_at(self.s(), m_skip(i / 4, row as int), m_skip(i % 4, col as int))
                } else {
                    0
                }),
            decreases dimension - 1 - nr,
        {
            let mut nc: usize = 0;
            while nc < dimension - 1
                invariant
                    nr < dimension - 1,
                    nc <= dimension - 1,
                    self.wf(),
                    dimension == self.dimension,
                    row < dimension,
                    col < dimension,
                        forall|i: int| 0 <= i < 16 ==> grid@[i]@ == (
                    if i / 4 < nr && i % 4 < dimension - 1 {
                        m_at(self.s(), m_skip(i / 4, row as int), m_skip(i % 4, col as int))
                    } else if i / 4 == nr && i % 4 < nc {
                        m_at(self.s(), m_skip(i / 4, row as int), m_skip(i % 4, col as int))
                    } else {
                        0
                    }),
                decreases dimension - 1 - nc,
            {
                let sr = if nr >= row {
                    nr + 1
                } else {
                    nr
                };
                let sc = if nc >= col {
                    nc + 1
                } else {
                    nc
                };
                let v = self.get(sr, sc);
                grid[nr * 4 + nc] = v;
                nc = nc + 1;
            }
            nr = nr + 1;
        }
        let r = Matrix { dimension: dimension - 1, grid };
        assert(r.s() =~= m_sub(self.s(), self.dim(), row as int, col as int));
        r
    }

    /// Determinant by cofactor expansion along the first column.
    pub fn determinant(&self) -> (r: Fx)
        requires
            self.wf(),
        ensures
            r@ == m_det(self.s(), self.dim()),
        decreases self.dimension, 2int,
    {
        if self.dimension == 2 {
            return self.get(0, 0).mul(self.get(1, 1)).sub(self.get(0, 1).mul(self.get(1, 0)));
        }
        let mut acc = Fx { raw: 0 };
        let mut row: usize = 0;
        while row < self.dimension
            invariant
                row <= self.dimension,
                self.wf(),
                self.dimension != 2,
                acc@ == m_det_sum(self.s(), self.dim(), row as nat),
            decreases self.dimension - row,
        {
            acc = acc.add(self.get(row, 0).mul(self.cofactor(row, 0)));
            row = row + 1;
        }
        acc
    }

    /// The determinant of the submatrix at (row, col).
    pub fn minor(&self, row: usize, col: usize) -> (r: Fx)
        requires
            self.wf(),
            row < self.dimension,
            col < self.dimension,
        ensures
            r@ == m_det(m_sub(self.s(), self.dim(), row as int, col as int), (self.dim() - 1) as nat),
        decreases self.dimension, 0int,
    {
        self.submatrix(row, col).determinant()
    }

    /// The signed minor at (row, col).
    pub fn cofactor(&self, row: usize, col: usize) -> (r: Fx)
        requires
            self.wf(),
            row < self.dimension,
            col < self.dimension,
        ensures
            r@ == m_cof(self.s(), self.dim(), row as int, col as int),
        decreases self.dimension, 1int,
    {
        let minor = self.minor(row, col);
        if (row + col) % 2 == 0 {
            minor
        } else {
            minor.neg()
        }
    }

    /// The inverse: the adjugate (transposed cofactor matrix) divided by the
    /// determinant. A singular matrix is a fatal configuration error, ruled
    /// out by contract.
    pub fn inverse(&self) -> (r: Matrix)
        requires
            self.wf(),
            m_det(self.s(), self.dim()) != 0,
        ensures
            r.wf(),
            r.dimension == self.dimension,
            r.s() == m_inv(self.s(), self.dim()),
    {
        let dimension = self.dimension;
        let determinant = self.determinant();
        let mut grid = zero_grid();
        let mut row: usize = 0;
        while row < dimension
            invariant
                row <= dimension,
                self.wf(),
                dimension == self.dimension,
                determinant@ == m_det(self.s(), self.dim()),
                forall|i: int| 0 <= i < 16 ==> grid@[i]@ == (if i / 4 < row && i % 4 < dimension {
                    fx_div_raw(m_cof(self.s(), self.dim(), i % 4, i / 4), m_det(self.s(), self.dim()))
                } else {
                    0
                }),
            decreases dimension - row,
        {
            let mut col: usize = 0;
            while col < dimension
                invariant
                    row < dimension,
                    col <= dimension,
                    self.wf(),
                    dimension == self.dimension,
                    determinant@ == m_det(self.s(), self.dim()),
                        forall|i: int| 0 <= i < 16 ==> grid@[i]@ == (
                    if i / 4 < row && i % 4 < dimension {
                        fx_div_raw(m_cof(self.s(), self.dim(), i % 4, i / 4), m_det(self.s(), self.dim()))
                    } else if i / 4 == row && i % 4 < col {
                        fx_div_raw(m_cof(self.s(), self.dim(), i % 4, i / 4), m_det(self.s(), self.dim()))
                    } else {
                        0
                    }),
                decreases dimension - col,
            {
                let v = self.cofactor(col, row).div(determinant);
                grid[row * 4 + col] = v;
                col = col + 1;
            }
            row = row + 1;
        }
        let r = Matrix { dimension, grid };
        assert(r.s() =~= m_inv(self.s(), self.dim()));
        r
    }

    /// A vector pushed through the transform; the translation column is
    /// ignored.
    pub fn mul_vector(&self, other: Vector) -> (r: Vector)
        requires
            self.wf(),
        ensures
            r@ == m_apply_vector(self.s(), other@),
    {
        let x = other.x;
        let y = other.y;
        let z = other.z;
        Vector {
            x: x.mul(self.get(0, 0)).add(y.mul(self.get(0, 1))).add(z.mul(self.get(0, 2))),
            y: x.mul(self.get(1, 0)).add(y.mul(self.get(1, 1))).add(z.mul(self.get(1, 2))),
            z: x.mul(self.get(2, 0)).add(y.mul(self.get(2, 1))).add(z.mul(self.get(2, 2))),
        }
    }

    /// A point pushed through the transform; the translation column is
    /// added.
    pub fn mul_point(&self, other: Point) -> (r: Point)
        requires
            self.wf(),
        ensures
            r@ == m_apply_point(self.s(), other@),
    {
        let x = other.x;
        let y = other.y;
        let z = other.z;
        Point {
            x: x.mul(self.get(0, 0)).add(y.mul(self.get(0, 1))).add(z.mul(self.get(0, 2))).add(self.get(0, 3)),
            y: x.mul(self.get(1, 0)).add(y.mul(self.get(1, 1))).add(z.mul(self.get(1, 2))).add(self.get(1, 3)),
            z: x.mul(self.get(2, 0)).add(y.mul(self.get(2, 1))).add(z.mul(self.get(2, 2))).add(self.get(2, 3)),
        }
    }

    /// Entrywise equality within the tolerance 1e-4, and equal dimensions.
    pub fn approx_eq(&self, other: &Matrix) -> (r: bool)
        requires
            self.wf(),
            other.wf(),
        ensures
            r == (m_approx(self.s(), other.s()) && self.dimension == other.dimension),
    {
        let mut i: usize = 0;
        while i < 16
            invariant
                i <= 16,
                self.wf(),
                other.wf(),
                forall|j: int| 0 <= j < i ==> fx_approx(self.s()[j], other.s()[j]),
            decreases 16 - i,
        {
            if !self.grid[i].approx_eq(other.grid[i]) {
                assert(!fx_approx(self.s()[i as int], other.s()[i as int]));
                return false;
            }
            i = i + 1;
        }
        self.dimension == other.dimension
    }
}

impl Default for Matrix {
    /// The 4 x 4 identity.
    fn default() -> (r: Matrix)
        ensures
            r.wf(),
            r.dimension == 4,
            r.s() == m_eye(4),
    {
        Matrix::eye(4)
    }
}

} // verus!
