//! From the size of a viewport and of one character cell to the rows and
//! columns of a terminal grid.
//!
//! Lengths are whole numbers of one unit, a thousandth of a pixel, so that
//! measured sizes keep their fractions. Until the size of a cell is known,
//! and while it is zero in either direction, no grid is computed: the last
//! viewport is kept and the grid follows when the measurement arrives.

use vstd::prelude::*;

verus! {

/// How many units of length make one pixel.
pub const UNITS_PER_PIXEL: u64 = 1000;

/// The size of one character cell, in units.
#[derive(Clone, Copy, Debug, PartialEq, Eq, Structural)]
pub struct CellSize {
    pub width: u64,
    pub height: u64,
}

/// The size of the area that a terminal is drawn in, in units.
#[derive(Clone, Copy, Debug, PartialEq, Eq, Structural)]
pub struct Viewport {
    pub width: u64,
    pub height: u64,
}

/// The size of a terminal's grid, in cells.
#[derive(Clone, Copy, Debug, PartialEq, Eq, Structural)]
pub struct GridSize {
    pub rows: u64,
    pub cols: u64,
}

/// The cell size taken when a measurement fails: 8 by 14 pixels.
pub open spec fn fallback_cell() -> CellSize {
    CellSize { width: 8000, height: 14000 }
}

/// How many cells of length `cell` fit into `length`, rounded down, and at
/// least one.
pub open spec fn cells_in(length: int, cell: int) -> int
    recommends
        cell > 0,
{
    if length / cell < 1 {
        1
    } else {
        length / cell
    }
}

/// Whether a cell size can be divided by.
pub open spec fn usable(cell: CellSize) -> bool {
    cell.width > 0 && cell.height > 0
}

/// The grid that fills `viewport` with cells of size `cell`.
pub open spec fn grid_of(viewport: Viewport, cell: CellSize) -> GridSize
    recommends
        usable(cell),
{
    GridSize {
        rows: cells_in(viewport.height as int, cell.height as int) as u64,
        cols: cells_in(viewport.width as int, cell.width as int) as u64,
    }
}

/// The grid for a viewport and what is known of the cell size: none while
/// the cell size is unknown or zero in either direction.
pub open spec fn negotiated(viewport: Option<Viewport>, cell: Option<CellSize>) -> Option<GridSize> {
    match (viewport, cell) {
        (Some(viewport), Some(cell)) => if usable(cell) {
            Some(grid_of(viewport, cell))
        } else {
            None
        },
        _ => None,
    }
}

/// A length of whole pixels in units.
pub fn units(pixels: u32) -> (length: u64)
    ensures
        length == pixels * UNITS_PER_PIXEL,
{
    let wide: u64 = pixels.into();
    wide * UNITS_PER_PIXEL
}

impl CellSize {
    /// The cell size taken when a measurement fails: 8 by 14 pixels.
    pub fn fallback() -> (cell: CellSize)
        ensures
            cell == fallback_cell(),
    {
        CellSize { width: 8000, height: 14000 }
    }
}

/// How many cells of length `cell` fit into `length`, rounded down, and at
/// least one.
fn count_cells(length: u64, cell: u64) -> (count: u64)
    requires
        cell > 0,
    ensures
        count == cells_in(length as int, cell as int),
{
    let count = length / cell;
    if count < 1 {
        1
    } else {
        count
    }
}

/// The grid that fills `viewport` with cells of size `cell`, at least one
/// row and one column. Returns `None` where the cell is zero in either
/// direction.
pub fn grid_for(viewport: Viewport, cell: CellSize) -> (grid: Option<GridSize>)
    ensures
        grid == negotiated(Some(viewport), Some(cell)),
{
    if cell.width == 0 || cell.height == 0 {
        return None;
    }
    Some(
        GridSize {
            rows: count_cells(viewport.height, cell.height),
            cols: count_cells(viewport.width, cell.width),
        },
    )
}

/// What the negotiator knows, as a plain value.
pub struct NegotiatorModel {
    pub viewport: Option<Viewport>,
    pub cell: Option<CellSize>,
}

impl NegotiatorModel {
    /// The grid that follows from what is known.
    pub open spec fn grid(self) -> Option<GridSize> {
        negotiated(self.viewport, self.cell)
    }
}

/// Keeps the last viewport and the last known cell size of one terminal,
/// and computes the grid whenever either changes.
#[derive(Debug)]
pub struct ResizeNegotiator {
    viewport: Option<Viewport>,
    cell: Option<CellSize>,
}

impl View for ResizeNegotiator {
    type V = NegotiatorModel;

    closed spec fn view(&self) -> NegotiatorModel {
        NegotiatorModel { viewport: self.viewport, cell: self.cell }
    }
}

impl ResizeNegotiator {
    /// A negotiator that knows neither a viewport nor a cell size.
    pub fn new() -> (negotiator: ResizeNegotiator)
        ensures
            negotiator@.viewport.is_none(),
            negotiator@.cell.is_none(),
    {
        ResizeNegotiator { viewport: None, cell: None }
    }

    /// The last known cell size.
    pub fn cell(&self) -> (cell: Option<CellSize>)
        ensures
            cell == self@.cell,
    {
        self.cell
    }

    /// The grid that follows from what is known.
    pub fn grid(&self) -> (grid: Option<GridSize>)
        ensures
            grid == self@.grid(),
    {
        match (self.viewport, self.cell) {
            (Some(viewport), Some(cell)) => grid_for(viewport, cell),
            _ => None,
        }
    }

    /// Takes a new viewport. Returns the grid to hand to the session and to
    /// its terminal, or `None` where the resize has to wait for a cell
    /// size.
    pub fn on_viewport(&mut self, viewport: Viewport) -> (grid: Option<GridSize>)
        ensures
            final(self)@ == (NegotiatorModel { viewport: Some(viewport), ..old(self)@ }),
            grid == final(self)@.grid(),
    {
        self.viewport = Some(viewport);
        self.grid()
    }

    /// Takes the outcome of a measurement of the cell: the measured size,
    /// or `None` where the measurement failed, for which the fallback of 8
    /// by 14 pixels is taken. Returns the grid for the last viewport, or
    /// `None` where no viewport is known yet or the cell is zero.
    pub fn on_measurement(&mut self, measured: Option<CellSize>) -> (grid: Option<GridSize>)
        ensures
            final(self)@ == (NegotiatorModel {
                cell: Some(
                    match measured {
                        Some(cell) => cell,
                        None => fallback_cell(),
                    },
                ),
                ..old(self)@
            }),
            grid == final(self)@.grid(),
    {
        let cell = match measured {
            Some(cell) => cell,
            None => CellSize::fallback(),
        };
        self.cell = Some(cell);
        self.grid()
    }
}

/// A grid has at least one row and one column, and its cells do not reach
/// beyond a viewport that holds at least one cell in each direction.
pub proof fn lemma_grid_fits(viewport: Viewport, cell: CellSize)
    requires
        usable(cell),
    ensures
        grid_of(viewport, cell).rows >= 1,
        grid_of(viewport, cell).cols >= 1,
        viewport.height >= cell.height ==> grid_of(viewport, cell).rows * cell.height
            <= viewport.height < (grid_of(viewport, cell).rows + 1) * cell.height,
        viewport.width >= cell.width ==> grid_of(viewport, cell).cols * cell.width
            <= viewport.width < (grid_of(viewport, cell).cols + 1) * cell.width,
{
    lemma_cells_fit(viewport.height as int, cell.height as int);
    lemma_cells_fit(viewport.width as int, cell.width as int);
}

proof fn lemma_cells_fit(length: int, cell: int)
    requires
        0 <= length <= u64::MAX,
        0 < cell,
    ensures
        1 <= cells_in(length, cell) <= u64::MAX,
        length >= cell ==> cells_in(length, cell) * cell <= length < (cells_in(length, cell) + 1)
            * cell,
{
    assert(length / cell <= length && (length >= cell ==> length / cell >= 1 && (length / cell)
        * cell <= length < (length / cell + 1) * cell)) by (nonlinear_arith)
        requires
            0 <= length,
            0 < cell,
    ;
}

} // verus!
