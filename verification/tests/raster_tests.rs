use rtw_core::color::DisplayPixel;
use rtw_core::raster::{rasterize, TerminalCell};

fn px(v: u8) -> DisplayPixel {
    DisplayPixel { r: v, g: v, b: v }
}

fn grid(width: usize, height: usize) -> Vec<Vec<DisplayPixel>> {
    // Pixel (x, y) gets the value 10*y + x so every cell is unique.
    (0..height)
        .map(|y| (0..width).map(|x| px((10 * y + x) as u8)).collect())
        .collect()
}

#[test]
fn rasterize_pairs_rows() {
    // A 3-wide, 4-tall grid becomes 3 cells by 2 rows, each cell taking
    // the upper pixel as foreground and the lower as background.
    let pixels = grid(3, 4);
    let cells = rasterize(&pixels, 3, 100, 100);
    assert_eq!(cells.len(), 2);
    for (r, row) in cells.iter().enumerate() {
        assert_eq!(row.len(), 3);
        for (x, cell) in row.iter().enumerate() {
            assert_eq!(cell.fg, pixels[2 * r][x]);
            assert_eq!(cell.bg, pixels[2 * r + 1][x]);
        }
    }
}

#[test]
fn rasterize_clips_to_destination_rows() {
    // A destination with fewer rows than half the grid height emits no
    // cell beyond the boundary.
    let pixels = grid(3, 8);
    let cells = rasterize(&pixels, 3, 100, 2);
    assert_eq!(cells.len(), 2);
    assert_eq!(cells[1][0].fg, pixels[2][0]);
}

#[test]
fn rasterize_clips_to_destination_columns() {
    let pixels = grid(5, 2);
    let cells = rasterize(&pixels, 5, 2, 100);
    assert_eq!(cells.len(), 1);
    assert_eq!(cells[0].len(), 2);
    assert_eq!(cells[0][1].fg, pixels[0][1]);
    assert_eq!(cells[0][1].bg, pixels[1][1]);
}

#[test]
fn rasterize_truncates_odd_final_row() {
    // An odd-height grid keeps only its full row pairs.
    let pixels = grid(2, 5);
    let cells = rasterize(&pixels, 2, 100, 100);
    assert_eq!(cells.len(), 2);
}

#[test]
fn rasterize_empty_grid() {
    let pixels: Vec<Vec<DisplayPixel>> = Vec::new();
    let cells = rasterize(&pixels, 0, 10, 10);
    assert!(cells.is_empty());
}

#[test]
fn cell_glyph_is_upper_half_block() {
    let cell = TerminalCell { fg: px(0), bg: px(1) };
    assert_eq!(cell.glyph(), '\u{2580}');
}
