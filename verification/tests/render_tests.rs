use rtw_core::color::DisplayPixel;
use rtw_core::config::{resolve_export, CameraText};
use rtw_core::raster::rasterize;
use rtw_core::render::RenderJob;
use rtw_core::sample::{LinearColor, RadianceSample};
use rtw_core::RADIANCE_ONE;

fn camera_text() -> CameraText<'static> {
    CameraText {
        cam_x: "-1.0",
        cam_y: "0.0",
        cam_z: "0.0",
        look_x: "0.0",
        look_y: "0.0",
        look_z: "0.0",
        fov: "45.0",
        focus_dist: "1.5",
        aperture: "0.0",
    }
}

fn constant_row(width: u32, samples: u32, c: LinearColor) -> Vec<RadianceSample> {
    (0..width)
        .map(|_| {
            let mut s = RadianceSample::new();
            for _ in 0..samples {
                s.add(c);
            }
            s
        })
        .collect()
}

#[test]
fn progress_fractions_run_one_to_n_over_n() {
    // A 3-row render reports exactly 1/3, 2/3, 3/3, in order.
    let config = resolve_export("4", "3", "2", "1", &camera_text()).unwrap();
    let mut job = RenderJob::new(config);
    let red = LinearColor { r: RADIANCE_ONE, g: 0, b: 0 };
    let mut reported = Vec::new();
    while !job.is_done() {
        let p = job.complete_row(constant_row(4, 2, red));
        reported.push((p.rows_done, p.total_rows));
    }
    assert_eq!(reported, vec![(1, 3), (2, 3), (3, 3)]);
}

#[test]
fn finished_job_yields_full_grid() {
    let config = resolve_export("5", "4", "1", "0", &camera_text()).unwrap();
    let mut job = RenderJob::new(config);
    let gray = LinearColor { r: 800_000, g: 800_000, b: 800_000 };
    assert_eq!(job.rows_done(), 0);
    while !job.is_done() {
        job.complete_row(constant_row(5, 1, gray));
    }
    assert_eq!(job.rows_done(), 4);
    let grid = job.into_pixels();
    assert_eq!(grid.len(), 4);
    for row in &grid {
        assert_eq!(row.len(), 5);
        for p in row {
            // sqrt(0.8) ~ 0.894427, scaled and truncated.
            assert_eq!(*p, DisplayPixel { r: 228, g: 228, b: 228 });
        }
    }
}

#[test]
fn end_to_end_red_scene() {
    // A 4 by 2 render of a scene that returns pure red for every ray:
    // every averaged pixel is red, the mapper takes it to (255, 0, 0),
    // and the rasterizer packs a 4 by 1 cell grid with red above and
    // below.
    let config = resolve_export("4", "2", "1", "0", &camera_text()).unwrap();
    let mut job = RenderJob::new(config);
    let red = LinearColor { r: RADIANCE_ONE, g: 0, b: 0 };
    while !job.is_done() {
        job.complete_row(constant_row(4, 1, red));
    }
    let grid = job.into_pixels();
    assert_eq!(grid.len(), 2);
    let red_px = DisplayPixel { r: 255, g: 0, b: 0 };
    for row in &grid {
        assert_eq!(row.len(), 4);
        for p in row {
            assert_eq!(*p, red_px);
        }
    }
    let cells = rasterize(&grid, 4, 100, 100);
    assert_eq!(cells.len(), 1);
    assert_eq!(cells[0].len(), 4);
    for cell in &cells[0] {
        assert_eq!(cell.fg, red_px);
        assert_eq!(cell.bg, red_px);
    }
}
