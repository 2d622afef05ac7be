//! The tile grid and the auto-tiling resolver.
//!
//! The level is a fixed 20 by 15 grid of tile-type indices, zero meaning
//! empty.  Each occupied cell is rendered as a 2 by 2 block of sub-tiles, and
//! each sub-tile picks its sprite index by sampling the cardinal neighbours
//! (out of bounds counts as empty) and walking a fixed, ordered rule table in
//! which a later match overrides an earlier one.
//!
//! A `TileSet` pairs a sprite strip's frame count with an ordered rule list;
//! building one with a rule count that differs from the frame count is a
//! fatal configuration error, so the constructor requires them equal.

use vstd::prelude::*;

verus! {

/// Grid width, in cells.
pub const GRID_W: usize = 20;

/// Grid height, in cells.
pub const GRID_H: usize = 15;

/// The fixed 20 by 15 grid of tile-type indices; zero is empty.  Row 0 is the
/// bottom row: a cell's grid coordinate `y` finds it in row `14 - y`.
pub struct TileGrid {
    pub rows: Vec<Vec<usize>>,
}

impl TileGrid {
    /// The grid holds exactly 15 rows of 20 cells.
    pub open spec fn wf(&self) -> bool {
        &&& self.rows@.len() == GRID_H
        &&& forall|i: int| 0 <= i < GRID_H ==> (#[trigger] self.rows@[i])@.len() == GRID_W
    }

    /// The sample at grid coordinates, with out-of-bounds cells empty.
    pub open spec fn sample_spec(&self, x: int, y: int) -> int {
        if 0 <= x < GRID_W && 0 <= y < GRID_H {
            self.rows@[GRID_H - 1 - y]@[x] as int
        } else {
            0
        }
    }

    /// An all-empty grid.
    pub fn empty() -> (g: TileGrid)
        ensures
            g.wf(),
            forall|x: int, y: int| g.sample_spec(x, y) == 0,
    {
        let mut rows: Vec<Vec<usize>> = Vec::new();
        let mut i: usize = 0;
        while i < GRID_H
            invariant
                i <= GRID_H,
                rows@.len() == i,
                forall|k: int| 0 <= k < i ==> (#[trigger] rows@[k])@.len() == GRID_W,
                forall|k: int, j: int|
                    0 <= k < i && 0 <= j < GRID_W ==> #[trigger] rows@[k]@[j] == 0usize,
            decreases GRID_H - i,
        {
            let mut row: Vec<usize> = Vec::new();
            let mut j: usize = 0;
            while j < GRID_W
                invariant
                    j <= GRID_W,
                    row@.len() == j,
                    forall|k: int| 0 <= k < j ==> row@[k] == 0usize,
                decreases GRID_W - j,
            {
                row.push(0);
                j = j + 1;
            }
            rows.push(row);
            i = i + 1;
        }
        TileGrid { rows }
    }

    /// Write one cell.
    pub fn set(&mut self, row: usize, col: usize, v: usize)
        requires
            old(self).wf(),
            row < GRID_H,
            col < GRID_W,
        ensures
            final(self).wf(),
            forall|x: int, y: int|
                #[trigger] final(self).sample_spec(x, y) == if x == col && y == GRID_H - 1 - row {
                    v as int
                } else {
                    old(self).sample_spec(x, y)
                },
    {
        let r = &mut self.rows[row];
        r.set(col, v);
    }

    /// Read the sample at grid coordinates; out of bounds is empty.
    pub fn sample_tile(&self, x: i32, y: i32) -> (t: usize)
        requires
            self.wf(),
        ensures
            t == self.sample_spec(x as int, y as int),
    {
        if x < 0 || x >= GRID_W as i32 || y < 0 || y >= GRID_H as i32 {
            0
        } else {
            self.rows[GRID_H - 1 - (y as usize)][x as usize]
        }
    }
}

/// The ordered rule table, a later match overriding an earlier one:
/// 7 by default, then corner, wall and floor overrides.
pub open spec fn tile_rule_spec(
    leftfill: bool,
    rightfill: bool,
    up_fill: bool,
    down_fill: bool,
    up_up_fill: bool,
) -> u32 {
    let t: u32 = 7;
    let t: u32 = if !rightfill && !up_fill { 2 } else { t };
    let t: u32 = if !leftfill && !up_fill { 1 } else { t };
    let t: u32 = if leftfill && rightfill && up_fill { 9 } else { t };
    let t: u32 = if up_up_fill { 12 } else { t };
    let t: u32 = if !leftfill && rightfill && up_fill { 5 } else { t };
    let t: u32 = if leftfill && !rightfill && up_fill { 6 } else { t };
    let t: u32 = if !leftfill && rightfill && up_fill && up_up_fill { 10 } else { t };
    let t: u32 = if leftfill && !rightfill && up_fill && up_up_fill { 11 } else { t };
    let t: u32 = if !down_fill { 8 } else { t };
    let t: u32 = if !down_fill && !leftfill { 3 } else { t };
    let t: u32 = if !down_fill && !rightfill { 4 } else { t };
    t
}

/// Pick a sprite index from the five neighbour-fill predicates.
pub fn resolve_tile_id(
    leftfill: bool,
    rightfill: bool,
    up_fill: bool,
    down_fill: bool,
    up_up_fill: bool,
) -> (t: u32)
    ensures
        t == tile_rule_spec(leftfill, rightfill, up_fill, down_fill, up_up_fill),
{
    let mut t: u32 = 7;
    if !rightfill && !up_fill {
        t = 2;
    }
    if !leftfill && !up_fill {
        t = 1;
    }
    if leftfill && rightfill && up_fill {
        t = 9;
    }
    if up_up_fill {
        t = 12;
    }
    if !leftfill && rightfill && up_fill {
        t = 5;
    }
    if leftfill && !rightfill && up_fill {
        t = 6;
    }
    if !leftfill && rightfill && up_fill && up_up_fill {
        t = 10;
    }
    if leftfill && !rightfill && up_fill && up_up_fill {
        t = 11;
    }
    if !down_fill {
        t = 8;
    }
    if !down_fill && !leftfill {
        t = 3;
    }
    if !down_fill && !rightfill {
        t = 4;
    }
    t
}

/// The five fill predicates of a sub-tile.  A sub-tile's inner sides count as
/// filled by the cell itself; the outer sides sample the neighbour one cell
/// over, and `up_up` samples two cells up.
pub open spec fn sub_tile_fills(g: TileGrid, x: int, y: int, sub_x: int, sub_y: int) -> (
    bool,
    bool,
    bool,
    bool,
    bool,
) {
    (
        sub_x == 1 || g.sample_spec(x - 1, y) != 0,
        sub_x == 0 || g.sample_spec(x + 1, y) != 0,
        sub_y == 1 || g.sample_spec(x, y - 1) != 0,
        sub_y == 0 || g.sample_spec(x, y + 1) != 0,
        g.sample_spec(x, y - 2) != 0,
    )
}

/// The sprite index of one sub-tile of the cell at `(x, y)`.
pub open spec fn sub_tile_spec(g: TileGrid, x: int, y: int, sub_x: int, sub_y: int) -> u32 {
    let (l, r, u, d, uu) = sub_tile_fills(g, x, y, sub_x, sub_y);
    tile_rule_spec(l, r, u, d, uu)
}

/// Resolve the sprite index of one sub-tile (`sub_x`, `sub_y` in {0, 1}) of
/// the occupied cell at grid coordinates `(x, y)`.
pub fn sub_tile_index(g: &TileGrid, x: i32, y: i32, sub_x: i32, sub_y: i32) -> (t: u32)
    requires
        g.wf(),
        0 <= sub_x < 2,
        0 <= sub_y < 2,
        -2 <= x <= GRID_W as i32 + 2,
        -2 <= y <= GRID_H as i32 + 2,
    ensures
        t == sub_tile_spec(*g, x as int, y as int, sub_x as int, sub_y as int),
{
    let leftfill = sub_x == 1 || g.sample_tile(x - 1, y) != 0;
    let rightfill = sub_x == 0 || g.sample_tile(x + 1, y) != 0;
    let up_fill = sub_y == 1 || g.sample_tile(x, y - 1) != 0;
    let down_fill = sub_y == 0 || g.sample_tile(x, y + 1) != 0;
    let up_up_fill = g.sample_tile(x, y - 2) != 0;
    resolve_tile_id(leftfill, rightfill, up_fill, down_fill, up_up_fill)
}

/// A fully isolated occupied cell resolves to the four corner sprites: 1 top
/// left, 2 top right, 3 bottom left, 4 bottom right.
pub proof fn lemma_isolated_cell_corners(g: TileGrid, x: int, y: int)
    requires
        g.sample_spec(x - 1, y) == 0,
        g.sample_spec(x + 1, y) == 0,
        g.sample_spec(x, y - 1) == 0,
        g.sample_spec(x, y + 1) == 0,
        g.sample_spec(x, y - 2) == 0,
    ensures
        sub_tile_spec(g, x, y, 0, 0) == 1,
        sub_tile_spec(g, x, y, 1, 0) == 2,
        sub_tile_spec(g, x, y, 0, 1) == 3,
        sub_tile_spec(g, x, y, 1, 1) == 4,
{
}

/// One auto-tiling rule: the relative offsets that must be empty for the rule
/// to match.
pub struct TileRule {
    pub empty: Vec<(i32, i32)>,
}

/// A tile sprite strip paired with its ordered rule list.  The strip is a
/// horizontal row of square frames, so its frame count is its width divided
/// by its height.
pub struct TileSet {
    pub count: usize,
    pub rules: Vec<TileRule>,
}

impl TileSet {
    /// Build a tile set from the sheet's pixel dimensions and the rule list.
    /// A rule list whose length differs from the sheet's frame count would
    /// render garbage, so it is a fatal configuration error and is required
    /// away here; the caller validates before calling.
    pub fn new(sheet_width: u32, sheet_height: u32, rules: Vec<TileRule>) -> (ts: TileSet)
        requires
            sheet_height > 0,
            rules@.len() == sheet_width as int / sheet_height as int,
        ensures
            ts.count == sheet_width as int / sheet_height as int,
            ts.rules@ == rules@,
    {
        let count = (sheet_width / sheet_height) as usize;
        TileSet { count, rules }
    }
}

} // verus!
