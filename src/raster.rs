//! Samples in physical coordinates and the affine map that places them on a
//! raster.

use vstd::prelude::*;

verus! {

/// One position of a trajectory, tagged with the worker that produced it.
///
/// `x` and `y` are local coordinates in femtometres relative to the nucleus,
/// rounded down to whole femtometres.
#[derive(Clone, Copy, Debug, PartialEq, Eq, Structural)]
pub struct Sample {
    pub worker_id: usize,
    pub x: i64,
    pub y: i64,
}

/// Size of each raster and the offset that carries local coordinates to pixel
/// coordinates: `pixel = local + offset`.
#[derive(Clone, Copy, Debug, PartialEq, Eq, Structural)]
pub struct RasterConfig {
    pub width: u32,
    pub height: u32,
    pub x_offset: i64,
    pub y_offset: i64,
}

impl RasterConfig {
    /// A raster of this size can be allocated: its three samples per pixel
    /// are counted by a `usize`.
    pub open spec fn wf(self) -> bool {
        3 * (self.width as int) * (self.height as int) <= usize::MAX
    }

    /// The pixel that local coordinates `(x, y)` fall on, or `None` when
    /// that lies outside `[0, width) x [0, height)`.
    pub open spec fn pixel_of(self, x: int, y: int) -> Option<(u32, u32)> {
        let px = x + self.x_offset;
        let py = y + self.y_offset;
        if 0 <= px < self.width && 0 <= py < self.height {
            Some((px as u32, py as u32))
        } else {
            None
        }
    }

    /// The pixel that a sample falls on, if any.
    pub open spec fn sample_pixel(self, s: Sample) -> Option<(u32, u32)> {
        self.pixel_of(s.x as int, s.y as int)
    }

    /// Maps local coordinates to the pixel they fall on; coordinates outside
    /// the raster give `None`.
    pub fn to_pixel(&self, x: i64, y: i64) -> (r: Option<(u32, u32)>)
        ensures
            r == self.pixel_of(x as int, y as int),
    {
        let px: i128 = x as i128 + self.x_offset as i128;
        let py: i128 = y as i128 + self.y_offset as i128;
        if 0 <= px && px < self.width as i128 && 0 <= py && py < self.height as i128 {
            Some((px as u32, py as u32))
        } else {
            None
        }
    }
}

} // verus!
