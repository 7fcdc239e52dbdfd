//! Translation of window pixel sizes into terminal cell-grid sizes.
//!
//! A window resize is reported in pixels; the terminal backend is resized in
//! character cells. Each axis is divided by the fixed per-character pixel
//! size, rounding down, and saturated to the cell counter's range.

use vstd::prelude::*;

verus! {

/// Width and height of the window in whole pixels, as carried by one resize
/// event (the host's fractional sizes are truncated toward zero before they
/// reach this type).
#[derive(Clone, Copy, Debug, PartialEq, Eq, Structural)]
pub struct WindowSize {
    pub width: u32,
    pub height: u32,
}

/// A terminal grid size in character cells.
#[derive(Clone, Copy, Debug, PartialEq, Eq, Structural)]
pub struct CellGrid {
    pub cols: u16,
    pub rows: u16,
}

/// The cell count that a pixel length yields: the quotient of the length by
/// the per-character pixel size, rounded down and saturated to `u16`.
pub open spec fn cells_of_pixels(pixels: u32, char_pixels: u16) -> u16
    recommends
        char_pixels > 0,
{
    if pixels as int / char_pixels as int > u16::MAX as int {
        u16::MAX
    } else {
        (pixels as int / char_pixels as int) as u16
    }
}

/// Translate a window pixel size into the terminal cell grid that fits it:
/// on each axis, the number of whole characters of the given pixel size.
pub fn compute_cell_grid(size: &WindowSize, char_width: u16, char_height: u16) -> (grid: CellGrid)
    requires
        char_width > 0,
        char_height > 0,
    ensures
        grid.cols == cells_of_pixels(size.width, char_width),
        grid.rows == cells_of_pixels(size.height, char_height),
{
    let cols_raw: u32 = size.width / (char_width as u32);
    let rows_raw: u32 = size.height / (char_height as u32);
    let cols: u16 = if cols_raw > u16::MAX as u32 { u16::MAX } else { cols_raw as u16 };
    let rows: u16 = if rows_raw > u16::MAX as u32 { u16::MAX } else { rows_raw as u16 };
    CellGrid { cols, rows }
}

/// Drain the pending resize events in arrival order, recomputing the grid for
/// each. Every event overwrites the whole grid, so only the last one's effect
/// remains; with no events the grid is untouched.
pub fn handle_resize_messages(
    grid: &mut CellGrid,
    messages: &Vec<WindowSize>,
    char_width: u16,
    char_height: u16,
)
    requires
        char_width > 0,
        char_height > 0,
    ensures
        messages@.len() == 0 ==> *final(grid) == *old(grid),
        messages@.len() > 0 ==> final(grid).cols == cells_of_pixels(
            messages@[messages@.len() - 1].width,
            char_width,
        ) && final(grid).rows == cells_of_pixels(
            messages@[messages@.len() - 1].height,
            char_height,
        ),
{
    let mut i: usize = 0;
    while i < messages.len()
        invariant
            i <= messages@.len(),
            char_width > 0,
            char_height > 0,
            i == 0 ==> *grid == *old(grid),
            i > 0 ==> grid.cols == cells_of_pixels(messages@[i - 1].width, char_width)
                && grid.rows == cells_of_pixels(messages@[i - 1].height, char_height),
        decreases messages@.len() - i,
    {
        let next = compute_cell_grid(&messages[i], char_width, char_height);
        grid.cols = next.cols;
        grid.rows = next.rows;
        i = i + 1;
    }
}

} // verus!
