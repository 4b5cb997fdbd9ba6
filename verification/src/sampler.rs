//! Random canvas coordinates and their conversion to image-pixel space.
//!
//! Canvas coordinates have their origin at the canvas middle and the vertical
//! axis pointing up; image-pixel coordinates have row 0 at the top. A canvas
//! point converts to image space by `img = canvas + dimension / 2`; the
//! vertical flip is applied only when a glyph is drawn, so sampling and
//! drawing stay visually aligned.

use vstd::prelude::*;
use crate::rng::rand_below;

verus! {

/// The size of the canvas in pixels; identical to the (resized) source
/// image's size, so canvas points map one-to-one onto source pixels.
#[derive(Debug, Clone, Copy, PartialEq, Eq, Structural)]
pub struct CanvasDimensions {
    pub width: u32,
    pub height: u32,
}

/// A point in canvas coordinates: origin at the canvas middle, `+y` up.
#[derive(Debug, Clone, Copy, PartialEq, Eq, Structural)]
pub struct CanvasPoint {
    pub x: i64,
    pub y: i64,
}

impl CanvasDimensions {
    /// A canvas is at least one pixel in either direction.
    pub open spec fn wf(self) -> bool {
        self.width >= 1 && self.height >= 1
    }

    /// Whether a canvas point lies on the canvas: its image-space
    /// counterpart must lie in `[0, width) x [0, height)`.
    pub open spec fn contains_point(self, p: CanvasPoint) -> bool {
        &&& -(self.width as int / 2) <= p.x < self.width - self.width as int / 2
        &&& -(self.height as int / 2) <= p.y < self.height - self.height as int / 2
    }
}

/// A uniformly random point on the canvas, independent across calls; always
/// within the canvas bounds, for every canvas of at least 1 x 1 pixels.
pub fn random_canvas_point(dims: &CanvasDimensions) -> (p: CanvasPoint)
    requires
        dims.wf(),
    ensures
        dims.contains_point(p),
{
    let ux: u64 = rand_below(dims.width as u64);
    let uy: u64 = rand_below(dims.height as u64);
    let x: i64 = ux as i64 - (dims.width / 2) as i64;
    let y: i64 = uy as i64 - (dims.height / 2) as i64;
    CanvasPoint { x, y }
}

/// Converts a canvas point to image-pixel coordinates, per the convention
/// `img = canvas + dimension / 2`; the result always lies on the image grid.
pub fn to_image_coords(p: CanvasPoint, dims: &CanvasDimensions) -> (q: (u32, u32))
    requires
        dims.wf(),
        dims.contains_point(p),
    ensures
        q.0 == p.x + dims.width as int / 2,
        q.1 == p.y + dims.height as int / 2,
        q.0 < dims.width,
        q.1 < dims.height,
{
    let ix: i64 = p.x + (dims.width / 2) as i64;
    let iy: i64 = p.y + (dims.height / 2) as i64;
    (ix as u32, iy as u32)
}

} // verus!
