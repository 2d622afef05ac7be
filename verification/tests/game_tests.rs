use pogin::game::{step_particles, GameState, COLLECT_FRAME_COUNT};
use pogin::geom::Vec2i;
use pogin::input::Button;
use pogin::particle::Particle;
use pogin::tileset::{TileGrid, TileRule, TileSet};

const DT: u32 = 16667;  // one 60 Hz frame, in microseconds

fn level() -> (TileGrid, TileSet) {
    let mut grid = TileGrid::empty();
    for x in 0..20usize {
        grid.set(0, x, 1);
        grid.set(1, x, 1);
    }
    let rules: Vec<TileRule> = (0..15).map(|_| TileRule { empty: Vec::new() }).collect();
    (grid, TileSet::new(240, 16, rules))
}

fn fresh_game(seed: u64) -> GameState {
    let (grid, tiles) = level();
    GameState::new(640000, 480000, seed, grid, tiles)
}

#[test]
fn new_game_starts_grounded_with_full_life() {
    let g = fresh_game(0);
    assert_eq!(g.player.life, 12);
    assert!(g.player.grounded);
    assert_eq!(g.player.pos, Vec2i { x: 0, y: -192000 });
    assert_eq!(g.score, 0);
    assert_eq!(g.combo, 0);
    assert!(g.candies.is_empty());
    assert!(g.particles.is_empty());
    assert!(g.is_first_frame);
    assert!(!g.game_over());
}

#[test]
fn first_frame_always_spawns_a_candy() {
    let mut g = fresh_game(0);
    g.tick(DT);
    assert!(!g.is_first_frame);
    assert_eq!(g.candies.len(), 1);
    let c = &g.candies[0];
    // spawned at the fixed height and already fallen for one frame
    assert!(c.pos.y <= 150000 + 80000 * (DT as i64) / 1000000);
    assert!(c.pos.x.abs() <= 288000 + 40000 * 2);
    // launch speed in [20, 80) px/s upward, minus one frame of gravity
    assert!(c.velocity.y >= 20000 - 200000 * (DT as i64) / 1000000);
    assert!(c.velocity.y < 80000);
    assert!(c.velocity.x.abs() <= 40000);
    assert!(!c.is_collected);
}

#[test]
fn same_seed_gives_the_same_run() {
    let mut a = fresh_game(42);
    let mut b = fresh_game(42);
    for _ in 0..120 {
        a.tick(DT);
        b.tick(DT);
    }
    assert_eq!(a.candies.len(), b.candies.len());
    for (x, y) in a.candies.iter().zip(b.candies.iter()) {
        assert_eq!(x.pos, y.pos);
        assert_eq!(x.velocity, y.velocity);
    }
    assert_eq!(a.score, b.score);
    assert_eq!(a.player.pos, b.player.pos);
}

#[test]
fn a_long_run_keeps_its_invariants() {
    let mut g = fresh_game(7);
    g.input.set(Button::Right, true);
    for i in 0..600 {
        g.tick(DT);
        if i % 50 == 0 {
            g.input.set(Button::Up, true);
        } else {
            g.input.set(Button::Up, false);
        }
        assert!(g.player.life <= 12);
        assert!(g.candies.iter().all(|c| !c.is_collected));
        assert!(g.player.animation_frame < 4000);
        // the bounce keeps the player on screen (it can only cross by one
        // frame of travel before being clamped)
        assert!(g.player.pos.x.abs() <= 320000 + 400000 * 2 * (DT as i64) / 1000000);
    }
}

#[test]
fn held_right_walks_the_player_right() {
    let mut g = fresh_game(3);
    g.input.set(Button::Right, true);
    let x0 = g.player.pos.x;
    for _ in 0..50 {
        g.tick(DT);
    }
    assert!(g.player.pos.x > x0);
    assert_eq!(g.player.velocity.x, 400000);  // reached the target speed
}

#[test]
fn particle_lives_exactly_its_frame_count() {
    // 30 frames per second: a five-frame sequence lives a sixth of a second
    let mut parts = vec![Particle {
        pos: Vec2i { x: 0, y: 0 },
        vel: Vec2i { x: 0, y: 0 },
        animation_frame: 0,
        frame_count: COLLECT_FRAME_COUNT,
    }];
    // each frame adds 16667 * 30 / 1000 = 500 milli-frames
    for _ in 0..8 {
        step_particles(&mut parts, DT);
        assert_eq!(parts.len(), 1);
    }
    assert_eq!(parts[0].animation_frame, 4000);
    step_particles(&mut parts, DT);
    assert_eq!(parts[0].animation_frame, 4500);
    step_particles(&mut parts, DT);
    // crossed 5000 milli-frames: dead and pruned
    assert!(parts.is_empty());
}

#[test]
fn tiny_positive_dt_still_advances_a_particle() {
    // 33 us of 30 frames per second truncates to 0 milli-frames, but the
    // gain is floored at 1 so progress is never lost to quantization
    let mut p = Particle {
        pos: Vec2i { x: 0, y: 0 },
        vel: Vec2i { x: 0, y: 0 },
        animation_frame: 0,
        frame_count: 1,
    };
    assert!(p.update(33));
    assert_eq!(p.animation_frame, 1);
    // a one-frame sequence accumulates one milli-frame per step and dies
    // on the thousandth
    let mut calls = 1u32;
    while p.update(33) {
        calls += 1;
        assert!(calls <= 1000, "the particle never died");
    }
    assert_eq!(calls + 1, 1000);
    assert_eq!(p.animation_frame, 1000);
}

#[test]
fn zero_dt_never_kills_a_particle() {
    let mut parts = vec![Particle {
        pos: Vec2i { x: 3, y: 4 },
        vel: Vec2i { x: 5, y: 6 },
        animation_frame: 4999,
        frame_count: 5,
    }];
    for _ in 0..100 {
        step_particles(&mut parts, 0);
    }
    assert_eq!(parts.len(), 1);
    assert_eq!(parts[0].animation_frame, 4999);
    assert_eq!(parts[0].pos, Vec2i { x: 3, y: 4 });
    assert_eq!(parts[0].vel, Vec2i { x: 5, y: 6 });
}

#[test]
fn dead_particles_are_pruned_and_order_kept() {
    let fresh = |k: i64| Particle {
        pos: Vec2i { x: k, y: 0 },
        vel: Vec2i { x: 0, y: 0 },
        animation_frame: 0,
        frame_count: 5,
    };
    let dying = Particle { animation_frame: 4900, ..fresh(99) };
    let mut parts = vec![fresh(1), dying, fresh(2)];
    step_particles(&mut parts, DT);
    assert_eq!(parts.len(), 2);
    assert_eq!(parts[0].pos.x, 1);
    assert_eq!(parts[1].pos.x, 2);
}

#[test]
fn game_over_when_life_is_spent() {
    let mut g = fresh_game(0);
    g.player.life = 1;
    assert!(!g.game_over());
    g.player.life = 0;
    assert!(g.game_over());
    g.player.life = -1;
    assert!(g.game_over());
}

#[test]
fn missed_candies_cost_life_over_time() {
    // park the player in a corner and let everything drop
    let mut g = fresh_game(11);
    g.player.pos = Vec2i { x: -320000, y: -162000 };
    let mut ticks = 0u32;
    while !g.game_over() && ticks < 60 * 600 {
        g.tick(DT);
        ticks += 1;
    }
    // with spawns roughly every three seconds, ten minutes lose twelve lives
    assert!(g.game_over(), "the life meter never emptied");
    assert!(g.player.life <= 0);
}
