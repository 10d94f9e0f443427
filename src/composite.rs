use vstd::prelude::*;

use vstd::arithmetic::div_mod::{lemma_fundamental_div_mod, lemma_mod_bound};

verus! {

/// How the composite pass presents the GBuffer's layers.
#[derive(Debug, Clone, Copy, PartialEq, Eq)]
pub enum CompositeMode {
    /// All layers blended in layer order (0 at the bottom) over the background.
    Composite,
    /// One grid cell per layer, cell `i` showing layer `i` alone.
    Grid,
}

impl CompositeMode {
    /// The value by which the composite shader tells the modes apart.
    pub open spec fn code_spec(self) -> u32 {
        match self {
            CompositeMode::Composite => 0,
            CompositeMode::Grid => 1,
        }
    }

    /// The value by which the composite shader tells the modes apart.
    pub fn code(&self) -> (r: u32)
        ensures
            r == self.code_spec(),
    {
        match self {
            CompositeMode::Composite => 0,
            CompositeMode::Grid => 1,
        }
    }
}

/// The integer part of the composite pass's parameter uniform, rewritten
/// before each composite so that a mode switch is a data update.
#[derive(Debug, Clone, Copy, PartialEq, Eq)]
pub struct CompositeParams {
    pub mode: u32,
    pub layers: u32,
    pub grid: [u32; 2],
}

/// Whether `cols` is the smallest column count whose square grid holds `layers` cells.
pub open spec fn is_grid_cols(cols: int, layers: int) -> bool {
    &&& cols >= 1
    &&& cols * cols >= layers
    &&& (cols - 1) * (cols - 1) < layers
}

/// The rows needed for `layers` cells in rows of `cols`.
pub open spec fn grid_rows(layers: int, cols: int) -> int {
    (layers + cols - 1) / cols
}

/// The cell along one axis that pixel `x` falls in, when `extent` pixels are
/// split into `cells` equal spans.
pub open spec fn cell_of(x: int, extent: int, cells: int) -> int {
    x * cells / extent
}

/// The first pixel of span `c` along an axis of `extent` pixels in `cells` spans.
pub open spec fn span_start(c: int, extent: int, cells: int) -> int {
    (c * extent + cells - 1) / cells
}

/// The middle pixel of span `c`.
pub open spec fn span_center(c: int, extent: int, cells: int) -> int {
    (span_start(c, extent, cells) + span_start(c + 1, extent, cells) - 1) / 2
}

/// The grid cell, numbered row by row, that pixel (`x`, `y`) falls in.
pub open spec fn grid_cell_spec(x: int, y: int, width: int, height: int, cols: int, rows: int)
    -> int {
    cell_of(y, height, rows) * cols + cell_of(x, width, cols)
}

/// The grid's shape for `layers` cells: the fewest columns that a square grid
/// needs, and as many rows as the cells then fill.
pub fn grid_dims(layers: u32) -> (r: (u32, u32))
    requires
        layers >= 1,
    ensures
        is_grid_cols(r.0 as int, layers as int),
        r.1 == grid_rows(layers as int, r.0 as int),
        r.1 >= 1,
        r.0 as int * r.1 as int >= layers,
{
    let mut c: u64 = 1;
    while c * c < layers as u64
        invariant
            1 <= c <= layers,
            (c - 1) * (c - 1) < layers,
            layers <= u32::MAX,
            c * c <= (u32::MAX as int) * (u32::MAX as int),
        decreases layers - c,
    {
        proof {
            assert(c * c < layers);
            assert(c <= c * c) by (nonlinear_arith)
                requires
                    c >= 1,
            ;
            assert((c + 1) * (c + 1) <= (u32::MAX as int) * (u32::MAX as int))
                by (nonlinear_arith)
                requires
                    c + 1 <= layers,
                    layers <= u32::MAX,
                    c >= 1,
            ;
        }
        c = c + 1;
    }
    let cols = c as u32;
    proof {
        lemma_fundamental_div_mod(layers as int + c - 1, c as int);
        lemma_mod_bound(layers as int + c - 1, c as int);
        let q = (layers as int + c - 1) / (c as int);
        assert(c * q >= layers) by (nonlinear_arith)
            requires
                layers as int + c - 1 == c * q + (layers as int + c - 1) % (c as int),
                (layers as int + c - 1) % (c as int) < c,
        ;
        assert(q >= 1) by (nonlinear_arith)
            requires
                c * q >= layers,
                layers >= 1,
                c >= 1,
        ;
        assert(q <= layers) by (nonlinear_arith)
            requires
                layers as int + c - 1 == c * q + (layers as int + c - 1) % (c as int),
                (layers as int + c - 1) % (c as int) >= 0,
                c >= 1,
                c <= layers,
        ;
    }
    let rows = ((layers as u64 + c - 1) / c) as u32;
    (cols, rows)
}

/// The parameters for presenting `layers` layers in `mode`.
pub fn composite_params(mode: CompositeMode, layers: u32) -> (r: CompositeParams)
    requires
        layers >= 1,
    ensures
        r.mode == mode.code_spec(),
        r.layers == layers,
        is_grid_cols(r.grid[0] as int, layers as int),
        r.grid[1] == grid_rows(layers as int, r.grid[0] as int),
{
    let (cols, rows) = grid_dims(layers);
    CompositeParams { mode: mode.code(), layers, grid: [cols, rows] }
}

/// The grid cell, numbered row by row, that pixel (`x`, `y`) of a
/// `width` x `height` target falls in, for a grid of `cols` x `rows` cells.
pub fn grid_cell_at(x: u32, y: u32, width: u32, height: u32, cols: u32, rows: u32) -> (r: u32)
    requires
        x < width,
        y < height,
        cols >= 1,
        rows >= 1,
        cols as int * rows as int <= u32::MAX,
    ensures
        r == grid_cell_spec(x as int, y as int, width as int, height as int, cols as int, rows as int),
        r < cols as int * rows as int,
{
    proof {
        lemma_cell_of_bound(x as int, width as int, cols as int);
        lemma_cell_of_bound(y as int, height as int, rows as int);
        assert((x as int) * (cols as int) <= (u32::MAX as int) * (u32::MAX as int))
            by (nonlinear_arith)
            requires
                0 <= x <= u32::MAX,
                0 <= cols <= u32::MAX,
        ;
        assert((y as int) * (rows as int) <= (u32::MAX as int) * (u32::MAX as int))
            by (nonlinear_arith)
            requires
                0 <= y <= u32::MAX,
                0 <= rows <= u32::MAX,
        ;
    }
    let col = (x as u64 * cols as u64) / width as u64;
    let row = (y as u64 * rows as u64) / height as u64;
    proof {
        let c = col as int;
        let r = row as int;
        assert(r * (cols as int) + c < (cols as int) * (rows as int)) by (nonlinear_arith)
            requires
                0 <= c < cols,
                0 <= r < rows,
        ;
    }
    (row * cols as u64 + col) as u32
}

/// The middle pixel of grid cell `i` of a `width` x `height` target split
/// into `cols` x `rows` cells.
pub fn grid_cell_center(i: u32, width: u32, height: u32, cols: u32, rows: u32) -> (r: (u32, u32))
    requires
        1 <= cols <= width,
        1 <= rows <= height,
        i < cols as int * rows as int,
    ensures
        r.0 == span_center((i as int) % (cols as int), width as int, cols as int),
        r.1 == span_center((i as int) / (cols as int), height as int, rows as int),
        r.0 < width,
        r.1 < height,
{
    proof {
        lemma_fundamental_div_mod(i as int, cols as int);
        lemma_mod_bound(i as int, cols as int);
        let q = (i as int) / (cols as int);
        assert(q < rows) by (nonlinear_arith)
            requires
                i == cols * q + (i as int) % (cols as int),
                (i as int) % (cols as int) >= 0,
                i < cols * rows,
                cols >= 1,
        ;
        assert(q >= 0) by (nonlinear_arith)
            requires
                i == cols * q + (i as int) % (cols as int),
                (i as int) % (cols as int) < cols,
                i >= 0,
                cols >= 1,
        ;
    }
    let col = i % cols;
    let row = i / cols;
    let x = axis_center(col, width, cols);
    let y = axis_center(row, height, rows);
    (x, y)
}

/// The middle pixel of span `c` of `extent` pixels split into `cells` spans.
fn axis_center(c: u32, extent: u32, cells: u32) -> (r: u32)
    requires
        c < cells,
        1 <= cells <= extent,
    ensures
        r == span_center(c as int, extent as int, cells as int),
        r < extent,
{
    proof {
        lemma_span_center(c as int, extent as int, cells as int);
        assert((c as int + 1) * (extent as int) <= (u32::MAX as int) * (u32::MAX as int))
            by (nonlinear_arith)
            requires
                c < cells,
                cells <= u32::MAX,
                extent <= u32::MAX,
                c >= 0,
        ;
        assert((c as int) * (extent as int) <= (c as int + 1) * (extent as int))
            by (nonlinear_arith)
            requires
                c >= 0,
                extent >= 0,
        ;
    }
    let lo = (c as u64 * extent as u64 + cells as u64 - 1) / cells as u64;
    let hi = ((c as u64 + 1) * extent as u64 + cells as u64 - 1) / cells as u64;
    ((lo + hi - 1) / 2) as u32
}

/// Bounds of a quotient: `d * (a / d) <= a < d * (a / d) + d`.
proof fn lemma_div_bounds(a: int, d: int)
    requires
        d > 0,
    ensures
        d * (a / d) <= a < d * (a / d) + d,
{
    lemma_fundamental_div_mod(a, d);
    lemma_mod_bound(a, d);
}

/// A pixel of an axis falls in one of its spans.
proof fn lemma_cell_of_bound(x: int, extent: int, cells: int)
    requires
        0 <= x < extent,
        cells >= 1,
    ensures
        0 <= cell_of(x, extent, cells) < cells,
{
    lemma_div_bounds(x * cells, extent);
    let q = x * cells / extent;
    assert(0 <= q < cells) by (nonlinear_arith)
        requires
            extent * q <= x * cells < extent * q + extent,
            0 <= x < extent,
            cells >= 1,
    ;
}

/// The middle pixel of span `c` lies within the axis and falls in span `c`.
proof fn lemma_span_center(c: int, extent: int, cells: int)
    requires
        0 <= c < cells,
        1 <= cells <= extent,
    ensures
        0 <= span_center(c, extent, cells) < extent,
        cell_of(span_center(c, extent, cells), extent, cells) == c,
{
    let lo = span_start(c, extent, cells);
    let hi = span_start(c + 1, extent, cells);
    lemma_div_bounds(c * extent + cells - 1, cells);
    lemma_div_bounds((c + 1) * extent + cells - 1, cells);
    assert(cells * lo >= c * extent);
    assert(cells * hi >= (c + 1) * extent);
    assert((c + 1) * extent == c * extent + extent) by (nonlinear_arith);
    assert(cells * hi > cells * lo);
    assert(hi > lo) by (nonlinear_arith)
        requires
            cells * hi > cells * lo,
            cells >= 1,
    ;
    assert(lo >= 0) by (nonlinear_arith)
        requires
            cells * lo >= c * extent,
            c >= 0,
            extent >= 1,
            cells >= 1,
    ;
    assert(hi <= extent) by (nonlinear_arith)
        requires
            cells * hi <= (c + 1) * extent + cells - 1,
            c + 1 <= cells,
            extent >= 1,
            cells >= 1,
    ;
    let x = span_center(c, extent, cells);
    assert(lo <= x <= hi - 1);
    assert(cells * x >= c * extent) by (nonlinear_arith)
        requires
            cells * lo >= c * extent,
            x >= lo,
            cells >= 1,
    ;
    assert(cells * x < (c + 1) * extent) by (nonlinear_arith)
        requires
            cells * hi <= (c + 1) * extent + cells - 1,
            x <= hi - 1,
            cells >= 1,
    ;
    lemma_div_bounds(x * cells, extent);
    let q = x * cells / extent;
    assert(q == c) by (nonlinear_arith)
        requires
            extent * q <= x * cells < extent * q + extent,
            c * extent <= cells * x < c * extent + extent,
            extent >= 1,
    ;
}

/// In a grid of `cols` x `rows` cells over a target with at least one pixel
/// per cell along each axis, the middle pixel of cell `i` lies in cell `i`:
/// what a grid presentation shows there is layer `i`, whatever the other
/// layers hold at the same place.
pub proof fn lemma_grid_center_in_own_cell(i: int, width: int, height: int, cols: int, rows: int)
    requires
        1 <= cols <= width,
        1 <= rows <= height,
        0 <= i < cols * rows,
    ensures
        0 <= span_center(i % cols, width, cols) < width,
        0 <= span_center(i / cols, height, rows) < height,
        grid_cell_spec(
            span_center(i % cols, width, cols),
            span_center(i / cols, height, rows),
            width,
            height,
            cols,
            rows,
        ) == i,
{
    lemma_fundamental_div_mod(i, cols);
    lemma_mod_bound(i, cols);
    let q = i / cols;
    assert(0 <= q < rows) by (nonlinear_arith)
        requires
            i == cols * q + i % cols,
            0 <= i % cols < cols,
            0 <= i < cols * rows,
            cols >= 1,
    ;
    lemma_span_center(i % cols, width, cols);
    lemma_span_center(q, height, rows);
    assert(q * cols + i % cols == i) by (nonlinear_arith)
        requires
            i == cols * q + i % cols,
    ;
}

} // verus!
