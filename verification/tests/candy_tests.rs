use pogin::candy::{make_candy, Candy};
use pogin::game::{fall_all, prune_candies, resolve_all, COLLECT_FRAME_COUNT};
use pogin::geom::Vec2i;
use pogin::particle::Particle;
use pogin::player::{Player, LR};
use pogin::sprite::SpriteSheet;

fn player_at(x: i64, y: i64) -> Player {
    let sheet = SpriteSheet::new(4, 1);
    Player {
        sprite: sheet.sprite(Vec2i { x: 0, y: 0 }),
        pos: Vec2i { x, y },
        velocity: Vec2i { x: 7000, y: 3000 },
        last_velocity: Vec2i { x: 0, y: 0 },
        facing: LR::Right,
        animation_frame: 0,
        bbox_size: 10000,
        life: 12,
        grounded: true,
    }
}

fn candy_at(x: i64, y: i64) -> Candy {
    Candy {
        pos: Vec2i { x, y },
        velocity: Vec2i { x: 0, y: 0 },
        animation_frame: 0,
        bbox_size: 10000,
        is_collected: false,
    }
}

#[test]
fn spawn_places_within_ninety_percent_of_half_width() {
    // u_pos 1500 puts it halfway toward the right reach of 0.45 * 640000
    let c = make_candy(1500, 0, 1000, 640000);
    assert_eq!(c.pos.x, 144000);
    assert_eq!(c.pos.y, 150000);
    // u_vx 0 is full leftward drift, u_vy 1000 the middle launch
    assert_eq!(c.velocity.y, 50000);
    assert!(!c.is_collected);
    // drift: -40000; projected |144000 - 80000| stays inside 320000: no flip
    assert_eq!(c.velocity.x, -40000);
}

#[test]
fn spawn_flips_drift_that_would_leave_the_screen() {
    // far right with a strong rightward drift: 259200 + 2 * 39960 > 320000
    let c = make_candy(1900, 1999, 0, 640000);
    assert_eq!(c.pos.x, 259200);
    assert_eq!(c.velocity.x, -39960);
    assert_eq!(c.velocity.y, 20000);
}

#[test]
fn fall_integrates_position_before_gravity() {
    let mut cands = vec![Candy {
        velocity: Vec2i { x: 10000, y: 50000 },
        ..candy_at(0, 150000)
    }];
    fall_all(&mut cands, 1000000);
    // one full second: the position moves by the old velocity, then gravity
    // pulls the vertical velocity by 200 px/s
    assert_eq!(cands[0].pos, Vec2i { x: 10000, y: 200000 });
    assert_eq!(cands[0].velocity, Vec2i { x: 10000, y: -150000 });
}

#[test]
fn catch_scores_and_spawns_particle() {
    let p = player_at(0, -162000);
    let mut cands = vec![candy_at(1000, -162000)];
    let mut score = 0u32;
    let mut combo = 0u32;
    let mut life = 12i32;
    let mut particles: Vec<Particle> = Vec::new();
    resolve_all(&mut cands, &p, 480000, &mut score, &mut combo, &mut life, &mut particles);
    assert_eq!(score, 1);
    assert_eq!(combo, 1);
    assert_eq!(life, 12);
    assert!(cands[0].is_collected);
    assert_eq!(particles.len(), 1);
    assert_eq!(particles[0].pos, Vec2i { x: 0, y: -146000 });
    assert_eq!(particles[0].vel, Vec2i { x: 7000, y: 3000 });
    assert_eq!(particles[0].frame_count, COLLECT_FRAME_COUNT);
}

#[test]
fn combo_grows_and_scores_its_value() {
    let p = player_at(0, -162000);
    let mut cands = vec![
        candy_at(1000, -162000),
        candy_at(-1000, -162000),
        candy_at(0, -161000),
    ];
    let mut score = 0u32;
    let mut combo = 0u32;
    let mut life = 12i32;
    let mut particles: Vec<Particle> = Vec::new();
    resolve_all(&mut cands, &p, 480000, &mut score, &mut combo, &mut life, &mut particles);
    // three catches: 1 + 2 + 3
    assert_eq!(score, 6);
    assert_eq!(combo, 3);
    assert_eq!(particles.len(), 3);
}

#[test]
fn miss_costs_life_and_resets_combo() {
    let p = player_at(0, -162000);
    // far from the player and below minus half the screen height
    let mut cands = vec![candy_at(100000, -241000)];
    let mut score = 5u32;
    let mut combo = 3u32;
    let mut life = 12i32;
    let mut particles: Vec<Particle> = Vec::new();
    resolve_all(&mut cands, &p, 480000, &mut score, &mut combo, &mut life, &mut particles);
    assert_eq!(score, 5);
    assert_eq!(combo, 0);
    assert_eq!(life, 11);
    assert!(cands[0].is_collected);
    assert!(particles.is_empty());
}

#[test]
fn still_falling_candy_is_untouched() {
    let p = player_at(0, -162000);
    let mut cands = vec![candy_at(100000, 0)];
    let mut score = 5u32;
    let mut combo = 3u32;
    let mut life = 12i32;
    let mut particles: Vec<Particle> = Vec::new();
    resolve_all(&mut cands, &p, 480000, &mut score, &mut combo, &mut life, &mut particles);
    assert_eq!((score, combo, life), (5, 3, 12));
    assert!(!cands[0].is_collected);
}

#[test]
fn catch_and_miss_are_exclusive_even_when_overlapping_the_line() {
    // a candy below the miss line but touching the player is a catch only:
    // it scores, costs no life, and is removed after the frame
    let p = player_at(0, -250000);
    let mut cands = vec![candy_at(1000, -250000)];
    let mut score = 0u32;
    let mut combo = 0u32;
    let mut life = 12i32;
    let mut particles: Vec<Particle> = Vec::new();
    resolve_all(&mut cands, &p, 480000, &mut score, &mut combo, &mut life, &mut particles);
    assert_eq!(score, 1);
    assert_eq!(life, 12);
    assert!(cands[0].is_collected);
    prune_candies(&mut cands);
    assert!(cands.is_empty());
}

#[test]
fn prune_keeps_uncollected_in_order() {
    let mut cands = vec![
        Candy { is_collected: true, ..candy_at(1, 0) },
        candy_at(2, 0),
        Candy { is_collected: true, ..candy_at(3, 0) },
        candy_at(4, 0),
    ];
    prune_candies(&mut cands);
    assert_eq!(cands.len(), 2);
    assert_eq!(cands[0].pos.x, 2);
    assert_eq!(cands[1].pos.x, 4);
    assert!(cands.iter().all(|c| !c.is_collected));
}

#[test]
fn draw_scale_shrinks_with_upward_speed() {
    let mut c = candy_at(0, 0);
    c.velocity.y = -10000;  // falling: full size
    assert_eq!(c.draw_scale_milli(), 1000);
    c.velocity.y = 0;  // at the apex: full size
    assert_eq!(c.draw_scale_milli(), 1000);
    c.velocity.y = 40000;
    assert_eq!(c.draw_scale_milli(), 500);
    c.velocity.y = 200000;  // capped at 80 px/s
    assert_eq!(c.draw_scale_milli(), 0);
}

#[test]
fn any_upward_speed_shrinks_the_scale() {
    // the reduction rounds up, so full size happens exactly when not rising
    let mut c = candy_at(0, 0);
    c.velocity.y = 1;
    assert_eq!(c.draw_scale_milli(), 999);
    c.velocity.y = 80;  // exactly one milli-unit of reduction
    assert_eq!(c.draw_scale_milli(), 999);
    c.velocity.y = 81;
    assert_eq!(c.draw_scale_milli(), 998);
}

#[test]
fn dt_zero_fall_changes_nothing() {
    let orig = Candy {
        velocity: Vec2i { x: 10000, y: 50000 },
        ..candy_at(123, 456)
    };
    let mut cands = vec![orig];
    fall_all(&mut cands, 0);
    assert_eq!(cands[0], orig);
}
