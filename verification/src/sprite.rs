//! Sprite sheets as frame grids.
//!
//! A sheet divides an image into `count_x` by `count_y` equal frames; the
//! image itself stays with the host.  Frames are numbered column-major:
//! frame `i` sits in grid cell `(i / count_y, i % count_y)`.

use crate::geom::Vec2i;
use vstd::prelude::*;

verus! {

/// The frame grid of a sprite sheet.
#[derive(Clone, Copy, Debug, PartialEq, Eq, Structural)]
pub struct SpriteSheet {
    pub count_x: usize,
    pub count_y: usize,
}

/// A drawable instance of a sheet: which sheet, where, and at what scale
/// (milli-units; 1000 is unscaled, a negative x mirrors).
#[derive(Clone, Copy, Debug, PartialEq, Eq, Structural)]
pub struct Sprite {
    pub sheet: SpriteSheet,
    pub pos: Vec2i,
    pub scale: Vec2i,
}

impl SpriteSheet {
    /// A sheet of `count_x` by `count_y` frames.
    pub fn new(count_x: usize, count_y: usize) -> (s: SpriteSheet)
        ensures
            s == (SpriteSheet { count_x, count_y }),
    {
        SpriteSheet { count_x, count_y }
    }

    /// The grid cell of a frame: `(column, row)`.
    pub fn frame_cell(&self, frame: usize) -> (cell: (usize, usize))
        requires
            self.count_y > 0,
        ensures
            cell.0 == frame as int / self.count_y as int,
            cell.1 == frame as int % self.count_y as int,
    {
        (frame / self.count_y, frame % self.count_y)
    }

    /// A sprite of this sheet at a position, unscaled.
    pub fn sprite(&self, pos: Vec2i) -> (sp: Sprite)
        ensures
            sp == (Sprite { sheet: *self, pos, scale: Vec2i { x: 1000, y: 1000 } }),
    {
        Sprite { sheet: *self, pos, scale: Vec2i { x: 1000, y: 1000 } }
    }
}

} // verus!
