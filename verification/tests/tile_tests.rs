use pogin::tileset::{resolve_tile_id, sub_tile_index, TileGrid, TileRule, TileSet};

#[test]
fn isolated_cell_resolves_to_corner_sprites() {
    let mut g = TileGrid::empty();
    // one occupied cell in the middle: grid coordinate (5, 5) is row 9
    g.set(9, 5, 1);
    assert_eq!(sub_tile_index(&g, 5, 5, 0, 0), 1);  // top left
    assert_eq!(sub_tile_index(&g, 5, 5, 1, 0), 2);  // top right
    assert_eq!(sub_tile_index(&g, 5, 5, 0, 1), 3);  // bottom left
    assert_eq!(sub_tile_index(&g, 5, 5, 1, 1), 4);  // bottom right
}

#[test]
fn ground_rows_resolve_like_the_level() {
    // the level fills the two bottom rows (rows 0 and 1 store grid
    // coordinates y = 14 and y = 13)
    let mut g = TileGrid::empty();
    for x in 0..20usize {
        g.set(0, x, 1);
        g.set(1, x, 1);
    }
    // interior cell of the lower row: neighbours left, right and up filled
    assert_eq!(sub_tile_index(&g, 5, 14, 0, 0), 9);
    // its bottom sub-tiles are open below
    assert_eq!(sub_tile_index(&g, 5, 14, 0, 1), 8);
    // interior cell of the upper row: nothing above, sides filled
    assert_eq!(sub_tile_index(&g, 5, 13, 0, 0), 7);
    // leftmost cell of the upper row, top-left sub-tile: open left and up
    assert_eq!(sub_tile_index(&g, 0, 13, 0, 0), 1);
    // rightmost cell of the upper row, top-right sub-tile: open right and up
    assert_eq!(sub_tile_index(&g, 19, 13, 1, 0), 2);
}

#[test]
fn rule_table_priorities() {
    // default: everything filled around
    assert_eq!(resolve_tile_id(true, true, true, true, false), 9);
    // nothing matching but the default
    assert_eq!(resolve_tile_id(true, true, false, true, false), 7);
    // up-up override beats the side rules declared before it
    assert_eq!(resolve_tile_id(true, true, true, true, true), 12);
    // one-sided walls under a ceiling
    assert_eq!(resolve_tile_id(false, true, true, true, false), 5);
    assert_eq!(resolve_tile_id(true, false, true, true, false), 6);
    // the same with a cell two above: the late 10/11 rules win
    assert_eq!(resolve_tile_id(false, true, true, true, true), 10);
    assert_eq!(resolve_tile_id(true, false, true, true, true), 11);
    // open floor beats everything before it
    assert_eq!(resolve_tile_id(true, true, true, false, true), 8);
    assert_eq!(resolve_tile_id(false, true, true, false, true), 3);
    assert_eq!(resolve_tile_id(true, false, true, false, true), 4);
    // top corners
    assert_eq!(resolve_tile_id(true, false, false, true, false), 2);
    assert_eq!(resolve_tile_id(false, true, false, true, false), 1);
    // both sides open above: the later left rule wins
    assert_eq!(resolve_tile_id(false, false, false, true, false), 1);
}

#[test]
fn out_of_bounds_samples_are_empty() {
    let mut g = TileGrid::empty();
    g.set(0, 0, 3);
    assert_eq!(g.sample_tile(0, 14), 3);
    assert_eq!(g.sample_tile(-1, 14), 0);
    assert_eq!(g.sample_tile(0, 15), 0);
    assert_eq!(g.sample_tile(20, 14), 0);
    assert_eq!(g.sample_tile(0, -1), 0);
}

#[test]
fn tile_set_counts_frames() {
    // a 240 by 16 strip holds 15 frames; the level's rule list has 15 rules
    let rules: Vec<TileRule> = (0..15).map(|_| TileRule { empty: Vec::new() }).collect();
    let ts = TileSet::new(240, 16, rules);
    assert_eq!(ts.count, 15);
    assert_eq!(ts.rules.len(), 15);
}
