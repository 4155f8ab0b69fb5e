//! Packing quantized pixels into terminal cells.
//!
//! Two vertically adjacent pixel rows become one row of character cells:
//! every cell carries the upper pixel as its foreground and the lower
//! pixel as its background, and is drawn with the upper-half-block glyph,
//! doubling the effective vertical resolution of the display.
//!
//! A grid with an odd number of pixel rows is truncated: only full row
//! pairs are emitted, so the lone last row is not paired with data that
//! does not exist.

use vstd::prelude::*;

use crate::color::DisplayPixel;

verus! {

/// One character cell: the upper-half-block glyph painted with a
/// foreground (upper pixel) and a background (lower pixel) color.
#[derive(Clone, Copy, Debug, PartialEq, Eq, Structural)]
pub struct TerminalCell {
    pub fg: DisplayPixel,
    pub bg: DisplayPixel,
}

impl TerminalCell {
    /// The glyph every cell is drawn with: the upper half block.
    pub fn glyph(&self) -> (c: char)
        ensures
            c == '\u{2580}',
    {
        '\u{2580}'
    }
}

/// A pixel grid is rectangular: every row has length `width`.
pub open spec fn grid_wf(g: Seq<Vec<DisplayPixel>>, width: int) -> bool {
    forall|r: int| 0 <= r < g.len() ==> (#[trigger] g[r])@.len() == width
}

/// The number of cell rows emitted for `rows` pixel rows into a
/// destination of `max_rows` rows: full pixel-row pairs, clipped at the
/// destination boundary.
pub open spec fn out_rows(rows: int, max_rows: int) -> int {
    if rows / 2 <= max_rows {
        rows / 2
    } else {
        max_rows
    }
}

/// The number of cell columns emitted for `width` pixel columns into a
/// destination of `max_cols` columns.
pub open spec fn out_cols(width: int, max_cols: int) -> int {
    if width <= max_cols {
        width
    } else {
        max_cols
    }
}

/// Packs a rectangular grid of display pixels into terminal cells.
///
/// Cell `(x, r)` takes pixel `(x, 2 r)` as foreground and pixel
/// `(x, 2 r + 1)` as background. No cell outside the destination extent
/// (`max_cols` columns by `max_rows` rows) is emitted, and no pixel
/// outside the source grid is read.
pub fn rasterize(
    pixels: &Vec<Vec<DisplayPixel>>,
    width: usize,
    max_cols: usize,
    max_rows: usize,
) -> (cells: Vec<Vec<TerminalCell>>)
    requires
        grid_wf(pixels@, width as int),
    ensures
        cells@.len() == out_rows(pixels@.len() as int, max_rows as int),
        forall|r: int|
            0 <= r < cells@.len() ==> (#[trigger] cells@[r])@.len()
                == out_cols(width as int, max_cols as int),
        forall|r: int, x: int|
            0 <= r < cells@.len() && 0 <= x < cells@[r]@.len() ==> {
                &&& (#[trigger] cells@[r]@[x]).fg == pixels@[2 * r]@[x]
                &&& cells@[r]@[x].bg == pixels@[2 * r + 1]@[x]
            },
{
    let n_rows_avail = pixels.len() / 2;
    let n_rows = if n_rows_avail <= max_rows {
        n_rows_avail
    } else {
        max_rows
    };
    let n_cols = if width <= max_cols {
        width
    } else {
        max_cols
    };
    let mut cells: Vec<Vec<TerminalCell>> = Vec::new();
    let mut r: usize = 0;
    while r < n_rows
        invariant
            r <= n_rows,
            n_rows == out_rows(pixels@.len() as int, max_rows as int),
            n_cols == out_cols(width as int, max_cols as int),
            2 * n_rows <= pixels@.len(),
            pixels@.len() <= usize::MAX,
            n_cols <= width,
            grid_wf(pixels@, width as int),
            cells@.len() == r,
            forall|i: int| 0 <= i < r ==> (#[trigger] cells@[i])@.len() == n_cols,
            forall|i: int, x: int|
                0 <= i < r && 0 <= x < n_cols ==> {
                    &&& (#[trigger] cells@[i]@[x]).fg == pixels@[2 * i]@[x]
                    &&& cells@[i]@[x].bg == pixels@[2 * i + 1]@[x]
                },
        decreases n_rows - r,
    {
        let top = &pixels[2 * r];
        let bottom = &pixels[2 * r + 1];
        let mut row: Vec<TerminalCell> = Vec::new();
        let mut x: usize = 0;
        while x < n_cols
            invariant
                x <= n_cols,
                n_cols <= width,
                top@.len() == width,
                bottom@.len() == width,
                row@.len() == x,
                forall|j: int|
                    0 <= j < x ==> {
                        &&& (#[trigger] row@[j]).fg == top@[j]
                        &&& row@[j].bg == bottom@[j]
                    },
            decreases n_cols - x,
        {
            row.push(TerminalCell { fg: top[x], bg: bottom[x] });
            x = x + 1;
        }
        cells.push(row);
        r = r + 1;
    }
    cells
}

} // verus!
