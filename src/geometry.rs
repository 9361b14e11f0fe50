use vstd::prelude::*;
use vstd::arithmetic::div_mod::lemma_fundamental_div_mod;

verus! {

/// Side of a core box, in pixels.
pub const SIDE_LENGTH: u32 = 100;

/// Half the side of a core box.
pub const HALF_SIDE_LENGTH: u32 = 50;

/// Side of a router box, which is also its offset from the core box.
pub const ROUTER_OFFSET: u32 = 75;

/// Side of the square that holds a core and its router.
pub const BLOCK_LENGTH: u32 = SIDE_LENGTH + ROUTER_OFFSET;

/// Gap between two neighbouring blocks.
pub const BLOCK_DISTANCE: u32 = 100;

/// Distance from the start of one block to the start of the next.
pub const BLOCK_STEP: u32 = BLOCK_LENGTH + BLOCK_DISTANCE;

/// Stroke width of the core and router boxes.
pub const CORE_ROUTER_STROKE_WIDTH: u32 = 1;

/// Padding between a box border and the text inside it.
pub const OFFSET_FROM_BORDER: u32 = 1;

/// Height of one line of overlay text.
pub const FONT_SIZE_WITH_OFFSET: u32 = 18;

/// A cell of the grid.
#[derive(PartialEq, Eq, Structural, Clone, Copy, Debug)]
pub struct GridPosition {
    pub row: u8,
    pub column: u8,
}

/// The kind of a box of a grid cell.
#[derive(PartialEq, Eq, Structural, Clone, Copy, Debug)]
pub enum ElementKind {
    Core,
    Router,
}

/// The row of the core at linear index `index` in a grid `columns` wide.
pub open spec fn row_of(index: int, columns: int) -> int {
    index / columns
}

/// The column of the core at linear index `index` in a grid `columns` wide.
pub open spec fn column_of(index: int, columns: int) -> int {
    index % columns
}

/// The position of the core at linear index `index` in a grid of
/// `rows` by `columns` cells.
pub fn grid_position(index: usize, rows: u8, columns: u8) -> (p: GridPosition)
    requires
        columns > 0,
        index < rows * columns,
    ensures
        p.row == row_of(index as int, columns as int),
        p.column == column_of(index as int, columns as int),
        p.row < rows,
{
    proof {
        lemma_fundamental_div_mod(index as int, columns as int);
        let q = index as int / columns as int;
        let m = index as int % columns as int;
        assert(q < rows) by (nonlinear_arith)
            requires
                index as int == columns * q + m,
                0 <= m,
                index < rows * columns,
                columns > 0,
        ;
    }
    let c: usize = columns as usize;
    GridPosition { row: (index / c) as u8, column: (index % c) as u8 }
}

/// Every linear index of a grid has its own position, and the index is
/// recovered from the position as `row * columns + column`.
pub proof fn lemma_grid_position_bijective(rows: u8, columns: u8, i: int, j: int)
    requires
        columns > 0,
        0 <= i < rows * columns,
        0 <= j < rows * columns,
    ensures
        i == row_of(i, columns as int) * columns + column_of(i, columns as int),
        0 <= row_of(i, columns as int) < rows,
        0 <= column_of(i, columns as int) < columns,
        (row_of(i, columns as int) == row_of(j, columns as int) && column_of(i, columns as int)
            == column_of(j, columns as int)) ==> i == j,
{
    lemma_fundamental_div_mod(i, columns as int);
    lemma_fundamental_div_mod(j, columns as int);
    let q = i / columns as int;
    let m = i % columns as int;
    assert(0 <= q < rows) by (nonlinear_arith)
        requires
            i == columns * q + m,
            0 <= m < columns,
            0 <= i < rows * columns,
    ;
    assert(i == q * columns + m) by (nonlinear_arith)
        requires
            i == columns * q + m,
    ;
}

/// Horizontal pixel coordinate of the core box of a cell.
pub open spec fn core_x(p: GridPosition) -> int {
    CORE_ROUTER_STROKE_WIDTH + p.column * BLOCK_STEP
}

/// Vertical pixel coordinate of the core box of a cell: below its router.
pub open spec fn core_y(p: GridPosition) -> int {
    CORE_ROUTER_STROKE_WIDTH + ROUTER_OFFSET + p.row * BLOCK_STEP
}

/// Horizontal pixel coordinate of the router box: right of its core.
pub open spec fn router_x(p: GridPosition) -> int {
    core_x(p) + SIDE_LENGTH
}

/// Vertical pixel coordinate of the router box: above its core.
pub open spec fn router_y(p: GridPosition) -> int {
    core_y(p) - ROUTER_OFFSET
}

/// Top-left pixel coordinate of the core box of a cell.
pub fn core_coordinates(p: GridPosition) -> (r: (u32, u32))
    ensures
        r.0 == core_x(p),
        r.1 == core_y(p),
{
    let x: u32 = CORE_ROUTER_STROKE_WIDTH + (p.column as u32) * BLOCK_STEP;
    let y: u32 = CORE_ROUTER_STROKE_WIDTH + ROUTER_OFFSET + (p.row as u32) * BLOCK_STEP;
    (x, y)
}

/// Top-left pixel coordinate of the router box of a cell.
pub fn router_coordinates(p: GridPosition) -> (r: (u32, u32))
    ensures
        r.0 == router_x(p),
        r.1 == router_y(p),
{
    let (x, y) = core_coordinates(p);
    (x + SIDE_LENGTH, y - ROUTER_OFFSET)
}

/// Width of the canvas of a grid `columns` wide.
pub open spec fn canvas_extent(cells: int) -> int {
    cells * BLOCK_LENGTH + (cells - 1) * BLOCK_DISTANCE + 2 * CORE_ROUTER_STROKE_WIDTH
}

/// Extent of the canvas along an axis of `cells` cells.
pub fn canvas_length(cells: u8) -> (r: i32)
    requires
        cells > 0,
    ensures
        r == canvas_extent(cells as int),
{
    let n: i32 = cells as i32;
    assert(0 <= n * (BLOCK_LENGTH as i32) <= 255 * 175) by (nonlinear_arith)
        requires
            0 <= n <= 255,
            BLOCK_LENGTH == 175,
    ;
    assert(0 <= (n - 1) * (BLOCK_DISTANCE as i32) <= 255 * 100) by (nonlinear_arith)
        requires
            1 <= n <= 255,
            BLOCK_DISTANCE == 100,
    ;
    n * (BLOCK_LENGTH as i32) + (n - 1) * (BLOCK_DISTANCE as i32) + 2 * (CORE_ROUTER_STROKE_WIDTH as i32)
}

} // verus!
