use vstd::prelude::*;

use crate::color::{c3_black, Color};

verus! {

#[verifier::external_type_specification]
#[verifier::external_body]
#[verifier::reject_recursive_types(T)]
pub struct ExGrid<T>(grid::Grid<T>);

/// The pixels a grid holds, row-major: the cell at (row, col) sits at index
/// `row * cols + col`.
pub uninterp spec fn grid_cells(g: grid::Grid<Color>) -> Seq<Color>;

/// The number of rows the grid was made with.
pub uninterp spec fn grid_rows(g: grid::Grid<Color>) -> nat;

/// The number of columns the grid was made with.
pub uninterp spec fn grid_cols(g: grid::Grid<Color>) -> nat;

/// Relies on grid::Grid::init: a rows x cols grid in row-major order, every
/// cell a copy of the given value.
#[verifier::external_body]
fn grid_init(rows: usize, cols: usize, value: Color) -> (g: grid::Grid<Color>)
    requires
        1 <= rows,
        1 <= cols,
        rows * cols <= usize::MAX,
    ensures
        grid_rows(g) == rows,
        grid_cols(g) == cols,
        grid_cells(g).len() == rows * cols,
        forall|i: int| 0 <= i < rows * cols ==> grid_cells(g)[i] == value,
{
    grid::Grid::init(rows, cols, value)
}

/// Relies on grid::Grid::get: the cell at (row, col), which exists for
/// in-range coordinates.
#[verifier::external_body]
fn grid_get(g: &grid::Grid<Color>, row: usize, col: usize) -> (c: Color)
    requires
        row < grid_rows(*g),
        col < grid_cols(*g),
        grid_cells(*g).len() == grid_rows(*g) * grid_cols(*g),
    ensures
        c == grid_cells(*g)[row * grid_cols(*g) + col],
{
    *g.get(row, col).unwrap()
}

/// Relies on grid::Grid::get_mut: overwrites the cell at (row, col) and
/// leaves every other cell and the dimensions alone.
#[verifier::external_body]
fn grid_set(g: &mut grid::Grid<Color>, row: usize, col: usize, value: Color)
    requires
        row < grid_rows(*old(g)),
        col < grid_cols(*old(g)),
        grid_cells(*old(g)).len() == grid_rows(*old(g)) * grid_cols(*old(g)),
    ensures
        grid_rows(*final(g)) == grid_rows(*old(g)),
        grid_cols(*final(g)) == grid_cols(*old(g)),
        grid_cells(*final(g)) == grid_cells(*old(g)).update(
            row * grid_cols(*old(g)) + col,
            value,
        ),
{
    *g.get_mut(row, col).unwrap() = value;
}

/// The pixel buffer a render fills: `width` x `height` colors, exposed to
/// the external image encoder through `pixel_at` alone.
#[derive(Debug)]
pub struct Canvas {
    pub width: usize,
    pub height: usize,
    pub canvas: grid::Grid<Color>,
}

impl Canvas {
    /// The stored pixels, row-major by `y * width + x`.
    pub open spec fn cells(&self) -> Seq<Color> {
        grid_cells(self.canvas)
    }

    /// The grid really is `height` rows of `width` pixels.
    pub open spec fn wf(&self) -> bool {
        grid_rows(self.canvas) == self.height && grid_cols(self.canvas) == self.width
            && grid_cells(self.canvas).len() == self.height * self.width
    }

    /// A black canvas of the given size.
    pub fn new(width: usize, height: usize) -> (r: Canvas)
        requires
            1 <= width,
            1 <= height,
            height * width <= usize::MAX,
        ensures
            r.wf(),
            r.width == width,
            r.height == height,
            forall|i: int| 0 <= i < r.cells().len() ==> (#[trigger] r.cells()[i])@ == c3_black(),
    {
        Canvas { width, height, canvas: grid_init(height, width, Color::black()) }
    }

    /// Overwrites one pixel; coordinates outside the canvas are a fatal
    /// caller error, ruled out by contract.
    pub fn write_pixel(&mut self, x: usize, y: usize, c: Color)
        requires
            old(self).wf(),
            x < old(self).width,
            y < old(self).height,
        ensures
            final(self).wf(),
            final(self).width == old(self).width,
            final(self).height == old(self).height,
            final(self).cells() == old(self).cells().update(
                y * old(self).width + x,
                c,
            ),
    {
        proof {
            let w = old(self).width as int;
            let h = old(self).height as int;
            let xi = x as int;
            let yi = y as int;
            assert(0 <= yi * w + xi < h * w) by (nonlinear_arith)
                requires
                    0 <= xi < w,
                    0 <= yi < h,
            ;
        }
        grid_set(&mut self.canvas, y, x, c);
    }

    /// The pixel at (x, y), the external encoder's window on the buffer.
    pub fn pixel_at(&self, x: usize, y: usize) -> (c: Color)
        requires
            self.wf(),
            x < self.width,
            y < self.height,
        ensures
            c == self.cells()[y * self.width + x],
    {
        grid_get(&self.canvas, y, x)
    }
}

} // verus!
