//! The grid of cells on a page: how many columns and rows of cells of one
//! size fit, what margins they leave and where each cell lies.
//!
//! Columns are counted on the full width of the page; rows on the height
//! that the vertical margins leave.

use vstd::prelude::*;

verus! {

/// Margin on each side of the page, in pixels, when margins are fixed.
pub const FIXED_MARGIN: u32 = 20;

/// The grid of cells on a page.
#[derive(Clone, Copy, Debug, PartialEq, Eq, Structural)]
pub struct PageGrid {
    pub page_width: u32,
    pub page_height: u32,
    pub cell_width: u32,
    pub cell_height: u32,
    pub cols: u32,
    pub margin_x: u32,
    pub margin_y: u32,
    pub max_per_page: u64,
}

/// Number of columns: as many cells as fit the full width of the page, and
/// at least one.
pub open spec fn spec_cols(page_width: nat, cell_width: nat) -> nat
    recommends
        cell_width > 0,
{
    if page_width / cell_width >= 1 {
        page_width / cell_width
    } else {
        1
    }
}

/// Half of what `count` cells of size `cell` leave of `page`; nothing when
/// they leave nothing.
pub open spec fn spec_auto_margin(page: nat, cell: nat, count: nat) -> nat {
    if cell * count <= page {
        ((page - cell * count) / 2) as nat
    } else {
        0
    }
}

/// Horizontal margin: half of the leftover width, or the fixed margin.
pub open spec fn spec_margin_x(page_width: nat, cell_width: nat, auto_margin: bool) -> nat
    recommends
        cell_width > 0,
{
    if auto_margin {
        spec_auto_margin(page_width, cell_width, spec_cols(page_width, cell_width))
    } else {
        FIXED_MARGIN as nat
    }
}

/// Vertical margin: half of what whole rows leave of the height, or the
/// fixed margin.
pub open spec fn spec_margin_y(page_height: nat, cell_height: nat, auto_margin: bool) -> nat
    recommends
        cell_height > 0,
{
    if auto_margin {
        spec_auto_margin(page_height, cell_height, page_height / cell_height)
    } else {
        FIXED_MARGIN as nat
    }
}

/// Number of barcodes that fit a page: the rows that fit between the
/// vertical margins, `spacing` pixels apart, times the columns.
pub open spec fn spec_max_barcodes(
    cols: nat,
    margin_y: nat,
    spacing: nat,
    barcode_height: nat,
    paper_height: nat,
) -> nat
    recommends
        barcode_height + spacing > 0,
{
    if 2 * margin_y <= paper_height {
        ((paper_height - 2 * margin_y) / (barcode_height + spacing) as int) as nat * cols
    } else {
        0
    }
}

/// The grid for cells of the given size on a page of the given size.
pub open spec fn spec_grid(
    page_width: u32,
    page_height: u32,
    cell_width: u32,
    cell_height: u32,
    auto_margin: bool,
) -> PageGrid
    recommends
        cell_width > 0,
        cell_height > 0,
{
    let cols = spec_cols(page_width as nat, cell_width as nat);
    let margin_y = spec_margin_y(page_height as nat, cell_height as nat, auto_margin);
    PageGrid {
        page_width,
        page_height,
        cell_width,
        cell_height,
        cols: cols as u32,
        margin_x: spec_margin_x(page_width as nat, cell_width as nat, auto_margin) as u32,
        margin_y: margin_y as u32,
        max_per_page: spec_max_barcodes(cols, margin_y, 0, cell_height as nat, page_height as nat) as u64,
    }
}

/// The quantities of a grid are as small as the page allows.
pub proof fn lemma_grid_bounds(
    page_width: u32,
    page_height: u32,
    cell_width: u32,
    cell_height: u32,
    auto_margin: bool,
)
    requires
        cell_width > 0,
        cell_height > 0,
    ensures
        1 <= spec_cols(page_width as nat, cell_width as nat) <= u32::MAX,
        spec_margin_x(page_width as nat, cell_width as nat, auto_margin) <= u32::MAX,
        spec_margin_y(page_height as nat, cell_height as nat, auto_margin) <= u32::MAX,
        spec_max_barcodes(
            spec_cols(page_width as nat, cell_width as nat),
            spec_margin_y(page_height as nat, cell_height as nat, auto_margin),
            0,
            cell_height as nat,
            page_height as nat,
        ) <= u64::MAX,
{
    let cols = spec_cols(page_width as nat, cell_width as nat);
    let margin_y = spec_margin_y(page_height as nat, cell_height as nat, auto_margin);
    assert(page_width as nat / cell_width as nat <= page_width) by (nonlinear_arith)
        requires
            cell_width > 0,
    ;
    if 2 * margin_y <= page_height {
        let rows = (page_height - 2 * margin_y) / cell_height as int;
        assert(0 <= rows <= page_height) by (nonlinear_arith)
            requires
                rows == (page_height - 2 * margin_y) / cell_height as int,
                cell_height > 0,
                0 <= page_height - 2 * margin_y <= page_height,
        ;
        assert(rows * cols <= u64::MAX) by (nonlinear_arith)
            requires
                0 <= rows <= u32::MAX,
                0 <= cols <= u32::MAX,
        ;
    }
}

/// Half of what `count` cells of size `cell` leave of `page`; nothing when
/// they leave nothing.
pub fn auto_margin(page: u32, cell: u32, count: u32) -> (margin: u32)
    ensures
        margin == spec_auto_margin(page as nat, cell as nat, count as nat),
{
    assert(cell as u64 * count as u64 <= u64::MAX) by (nonlinear_arith)
        requires
            cell <= u32::MAX,
            count <= u32::MAX,
    ;
    let used: u64 = cell as u64 * count as u64;
    if used <= page as u64 {
        ((page as u64 - used) / 2) as u32
    } else {
        0
    }
}

/// Number of barcodes that fit a page: the rows that fit between the
/// vertical margins, `spacing` pixels apart, times the columns.
pub fn max_barcodes(cols: u32, margin_y: u32, spacing: u32, barcode_height: u32, paper_height: u32) -> (count: u64)
    requires
        barcode_height + spacing > 0,
    ensures
        count == spec_max_barcodes(
            cols as nat,
            margin_y as nat,
            spacing as nat,
            barcode_height as nat,
            paper_height as nat,
        ),
{
    let taken: u64 = 2 * (margin_y as u64);
    if taken <= paper_height as u64 {
        let free: u64 = paper_height as u64 - taken;
        let row_height: u64 = barcode_height as u64 + spacing as u64;
        let rows: u64 = free / row_height;
        assert(rows <= free) by (nonlinear_arith)
            requires
                rows == free / row_height,
                row_height > 0,
        ;
        assert(rows * cols <= u64::MAX) by (nonlinear_arith)
            requires
                0 <= rows <= u32::MAX,
                0 <= cols <= u32::MAX,
        ;
        rows * (cols as u64)
    } else {
        0
    }
}

/// The grid for cells of the given size on a page of the given size.
pub fn plan_grid(page_width: u32, page_height: u32, cell_width: u32, cell_height: u32, auto: bool) -> (grid: PageGrid)
    requires
        cell_width > 0,
        cell_height > 0,
    ensures
        grid == spec_grid(page_width, page_height, cell_width, cell_height, auto),
        grid.cols >= 1,
{
    proof {
        lemma_grid_bounds(page_width, page_height, cell_width, cell_height, auto);
    }
    let fitting: u32 = page_width / cell_width;
    let cols: u32 = if fitting >= 1 {
        fitting
    } else {
        1
    };
    let (margin_x, margin_y) = if auto {
        (auto_margin(page_width, cell_width, cols), auto_margin(page_height, cell_height, page_height / cell_height))
    } else {
        (FIXED_MARGIN, FIXED_MARGIN)
    };
    let max_per_page: u64 = max_barcodes(cols, margin_y, 0, cell_height, page_height);
    PageGrid {
        page_width,
        page_height,
        cell_width,
        cell_height,
        cols,
        margin_x,
        margin_y,
        max_per_page,
    }
}

/// Column of the page at which a picture `width` wide starts when it is
/// centered in the cell `slot`.
pub open spec fn spec_cell_x(grid: PageGrid, slot: nat, width: nat) -> nat {
    (grid.margin_x + (slot % grid.cols as nat) * grid.cell_width + (grid.cell_width - width) / 2) as nat
}

/// Row of the page at which a picture `height` high starts when it is
/// centered in the cell `slot`.
pub open spec fn spec_cell_y(grid: PageGrid, slot: nat, height: nat) -> nat {
    (grid.margin_y + (slot / grid.cols as nat) * grid.cell_height + (grid.cell_height - height) / 2) as nat
}

/// Every cell of a page lies between the vertical margins; with automatic
/// margins and a cell no wider than the page it lies between the horizontal
/// margins too. A picture that is centered in the cell lies inside it.
pub proof fn lemma_cell_inside_page(
    page_width: u32,
    page_height: u32,
    cell_width: u32,
    cell_height: u32,
    auto_margin: bool,
    slot: nat,
    width: nat,
    height: nat,
)
    requires
        cell_width > 0,
        cell_height > 0,
        slot < spec_grid(page_width, page_height, cell_width, cell_height, auto_margin).max_per_page,
        width <= cell_width,
        height <= cell_height,
    ensures
        ({
            let grid = spec_grid(page_width, page_height, cell_width, cell_height, auto_margin);
            let x = spec_cell_x(grid, slot, width);
            let y = spec_cell_y(grid, slot, height);
            &&& grid.margin_y <= y
            &&& y + height <= page_height - grid.margin_y
            &&& auto_margin && cell_width <= page_width ==> grid.margin_x <= x && x + width
                <= page_width - grid.margin_x
        }),
{
    lemma_grid_bounds(page_width, page_height, cell_width, cell_height, auto_margin);
    let grid = spec_grid(page_width, page_height, cell_width, cell_height, auto_margin);
    let cols = spec_cols(page_width as nat, cell_width as nat);
    let margin_x = spec_margin_x(page_width as nat, cell_width as nat, auto_margin);
    let margin_y = spec_margin_y(page_height as nat, cell_height as nat, auto_margin);
    assert(grid.cols == cols && grid.margin_x == margin_x && grid.margin_y == margin_y);
    assert(2 * margin_y <= page_height);
    let rows = (page_height - 2 * margin_y) / cell_height as int;
    assert(grid.max_per_page == rows * cols);
    let row = slot as int / cols as int;
    let col = slot as int % cols as int;
    vstd::arithmetic::div_mod::lemma_fundamental_div_mod(slot as int, cols as int);
    vstd::arithmetic::div_mod::lemma_fundamental_div_mod(
        page_height - 2 * margin_y,
        cell_height as int,
    );
    assert(0 <= row < rows) by (nonlinear_arith)
        requires
            slot == cols * row + col,
            0 <= col < cols,
            slot < rows * cols,
            slot >= 0,
    ;
    assert(row * cell_height + cell_height <= page_height - 2 * margin_y) by (nonlinear_arith)
        requires
            0 <= row < rows,
            cell_height > 0,
            cell_height * rows <= page_height - 2 * margin_y,
    ;
    assert(row * cell_height >= 0) by (nonlinear_arith)
        requires
            0 <= row,
            cell_height > 0,
    ;
    if auto_margin && cell_width <= page_width {
        vstd::arithmetic::div_mod::lemma_fundamental_div_mod(page_width as int, cell_width as int);
        assert(page_width as int / cell_width as int >= 1) by (nonlinear_arith)
            requires
                0 < cell_width <= page_width,
        ;
        assert(cell_width * cols <= page_width);
        assert(col * cell_width + cell_width <= cell_width * cols && col * cell_width >= 0)
            by (nonlinear_arith)
            requires
                0 <= col < cols,
                cell_width > 0,
        ;
    }
}

/// Two cells of a page do not overlap: they lie in different rows or in
/// different columns of the grid.
pub proof fn lemma_cells_apart(grid: PageGrid, first: nat, second: nat)
    requires
        grid.cols > 0,
        first < second,
    ensures
        ({
            let first_row = first / grid.cols as nat;
            let second_row = second / grid.cols as nat;
            let first_col = first % grid.cols as nat;
            let second_col = second % grid.cols as nat;
            ||| first_row < second_row && spec_cell_y(grid, first, grid.cell_height as nat)
                + grid.cell_height <= spec_cell_y(grid, second, grid.cell_height as nat)
            ||| first_row == second_row && first_col < second_col && spec_cell_x(
                grid,
                first,
                grid.cell_width as nat,
            ) + grid.cell_width <= spec_cell_x(grid, second, grid.cell_width as nat)
        }),
{
    let cols = grid.cols as int;
    let first_row = first as int / cols;
    let second_row = second as int / cols;
    let first_col = first as int % cols;
    let second_col = second as int % cols;
    vstd::arithmetic::div_mod::lemma_fundamental_div_mod(first as int, cols);
    vstd::arithmetic::div_mod::lemma_fundamental_div_mod(second as int, cols);
    assert(first_row <= second_row) by (nonlinear_arith)
        requires
            first == cols * first_row + first_col,
            second == cols * second_row + second_col,
            0 <= first_col < cols,
            0 <= second_col < cols,
            first < second,
    ;
    if first_row < second_row {
        assert(first_row * grid.cell_height + grid.cell_height <= second_row * grid.cell_height)
            by (nonlinear_arith)
            requires
                first_row + 1 <= second_row,
                grid.cell_height >= 0,
        ;
    } else {
        assert(first_col < second_col);
        assert(first_col * grid.cell_width + grid.cell_width <= second_col * grid.cell_width)
            by (nonlinear_arith)
            requires
                first_col + 1 <= second_col,
                grid.cell_width >= 0,
        ;
    }
}

} // verus!
