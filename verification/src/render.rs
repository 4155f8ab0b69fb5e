//! The render pipeline's resumable state and progress reporting.
//!
//! A render is an explicit unit-of-work loop: the caller accumulates one
//! scanline of radiance samples at a time (top to bottom, left to right)
//! and completes it here, where the samples are averaged, gamma-mapped
//! and appended to the pixel grid. Each completed scanline yields the
//! exact fraction of rows finished, so progress is reported as
//! 1/N, 2/N, ..., N/N in order, with no repeats or skips.

use vstd::prelude::*;

use crate::color::{map_pixel, spec_map_channel, DisplayPixel};
use crate::config::CameraConfig;
use crate::sample::RadianceSample;

verus! {

/// The fraction of scanlines finished, as an exact pair of integers.
#[derive(Clone, Copy, Debug, PartialEq, Eq, Structural)]
pub struct Progress {
    pub rows_done: u32,
    pub total_rows: u32,
}

/// The display pixel a finished accumulation maps to: each channel sum
/// averaged over the sample count, then gamma-mapped.
pub open spec fn spec_mapped_average(s: RadianceSample) -> DisplayPixel {
    DisplayPixel {
        r: spec_map_channel(s.sum_r as int / s.count as int) as u8,
        g: spec_map_channel(s.sum_g as int / s.count as int) as u8,
        b: spec_map_channel(s.sum_b as int / s.count as int) as u8,
    }
}

/// One render in progress: the validated configuration and the rows of
/// display pixels finished so far, in row-major order.
pub struct RenderJob {
    pub config: CameraConfig,
    pub pixels: Vec<Vec<DisplayPixel>>,
}

impl RenderJob {
    /// A consistent job: a usable configuration, no more rows than the
    /// image height, each row exactly the image width.
    pub open spec fn wf(self) -> bool {
        &&& self.config.wf()
        &&& self.pixels@.len() <= self.config.height
        &&& forall|r: int|
            0 <= r < self.pixels@.len() ==> (#[trigger] self.pixels@[r])@.len()
                == self.config.width
    }

    /// Starts a render with no rows finished.
    pub fn new(config: CameraConfig) -> (job: RenderJob)
        requires
            config.wf(),
        ensures
            job.wf(),
            job.config == config,
            job.pixels@.len() == 0,
    {
        RenderJob { config, pixels: Vec::new() }
    }

    /// The number of scanlines finished so far.
    pub fn rows_done(&self) -> (r: u32)
        requires
            self.wf(),
        ensures
            r == self.pixels@.len(),
    {
        self.pixels.len() as u32
    }

    /// Whether every scanline of the image has been rendered.
    pub fn is_done(&self) -> (r: bool)
        requires
            self.wf(),
        ensures
            r == (self.pixels@.len() == self.config.height),
    {
        self.pixels.len() == self.config.height as usize
    }

    /// Completes the next scanline: averages each pixel's accumulated
    /// samples, gamma-maps them, appends the row, and reports the exact
    /// fraction of rows now finished.
    ///
    /// For a height-N image the K-th call returns K/N, so one full
    /// render reports 1/N, 2/N, ..., N/N in order.
    pub fn complete_row(&mut self, row: Vec<RadianceSample>) -> (p: Progress)
        requires
            old(self).wf(),
            old(self).pixels@.len() < old(self).config.height,
            row@.len() == old(self).config.width,
            forall|x: int|
                0 <= x < row@.len() ==> (#[trigger] row@[x]).wf() && row@[x].count == old(
                    self,
                ).config.samples,
        ensures
            final(self).wf(),
            final(self).config == old(self).config,
            final(self).pixels@.len() == old(self).pixels@.len() + 1,
            forall|r: int|
                0 <= r < old(self).pixels@.len() ==> final(self).pixels@[r] == old(
                    self,
                ).pixels@[r],
            forall|x: int|
                0 <= x < row@.len() ==> (#[trigger] final(self).pixels@.last()@[x])
                    == spec_mapped_average(row@[x]),
            p.rows_done == old(self).pixels@.len() + 1,
            p.total_rows == old(self).config.height,
    {
        let width = row.len();
        let mut mapped: Vec<DisplayPixel> = Vec::new();
        let mut x: usize = 0;
        while x < width
            invariant
                x <= width,
                width == row@.len(),
                forall|k: int|
                    0 <= k < row@.len() ==> (#[trigger] row@[k]).wf() && row@[k].count >= 1,
                mapped@.len() == x,
                forall|k: int|
                    0 <= k < x ==> (#[trigger] mapped@[k]) == spec_mapped_average(row@[k]),
            decreases width - x,
        {
            let avg = row[x].average();
            mapped.push(map_pixel(avg.r, avg.g, avg.b));
            x = x + 1;
        }
        self.pixels.push(mapped);
        let done = self.pixels.len() as u32;
        Progress { rows_done: done, total_rows: self.config.height }
    }

    /// Consumes a finished render, yielding the full pixel grid in
    /// row-major order, one row per scanline.
    pub fn into_pixels(self) -> (grid: Vec<Vec<DisplayPixel>>)
        requires
            self.wf(),
            self.pixels@.len() == self.config.height,
        ensures
            grid == self.pixels,
    {
        self.pixels
    }
}

} // verus!
