//! The per-frame simulation.
//!
//! Each tick advances a difficulty accumulator, probabilistically spawns a
//! candy, applies input to the player, integrates the player and every candy,
//! resolves catches and misses (scoring, combo, life loss, particle spawns),
//! advances and prunes particles, and filters out collected candies.  The
//! random draws are opaque: the tick's contract says the new state is the
//! deterministic frame function of the old state and *some* valid draws.

use crate::candy::{candy_caught, candy_fall_step, candy_missed, make_candy, make_candy_spec, Candy};
use crate::geom::{points_within_distance, Vec2i};
use crate::input::ControllerState;
use crate::particle::{particle_alive, particle_step, Particle};
use crate::player::{
    bounce_player_at_edges, player_bounce_step, player_handle_input, player_input_step,
    player_move_step, update_player_position, Player, LR,
};
use crate::rank::PLAYER_LIFE;
use crate::rng::{new_rng, rand_below};
use crate::sprite::{Sprite, SpriteSheet};
use crate::tileset::{TileGrid, TileSet};
use crate::units::{mul_div, mul_div_spec, sat64, sat_add, US_PER_S};
use oorandom::Rand32;
use vstd::prelude::*;

verus! {

/// The difficulty accumulator's rate, in milli-units per second.
pub const DIFFICULTY_RATE_MILLI: i64 = 1150;

/// The length of the shared catch-animation frame sequence.
pub const COLLECT_FRAME_COUNT: usize = 5;

/// The player's hit-box radius, in milli-pixels.
pub const PLAYER_BBOX: i64 = 10000;

/// The largest supported screen dimension, in milli-pixels (10000 pixels).
pub const MAX_SCREEN_DIM: i64 = 10000000;

/// The whole game state.  The tile grid and tile set ride along for the
/// renderer; the tick never touches them.
pub struct GameState {
    pub player: Player,
    pub candies: Vec<Candy>,
    pub score: u32,
    pub combo: u32,
    pub screen_width: i64,
    pub screen_height: i64,
    pub input: ControllerState,
    pub rng: Rand32,
    pub particles: Vec<Particle>,
    pub difficulty: i64,
    pub is_first_frame: bool,
    pub grid: TileGrid,
    pub tiles: TileSet,
}

/// Everything the frame function determines: the game state without the
/// opaque generator and the render-only tile data.
#[verifier::ext_equal]
pub ghost struct GameCore {
    pub player: Player,
    pub candies: Seq<Candy>,
    pub score: u32,
    pub combo: u32,
    pub screen_width: i64,
    pub screen_height: i64,
    pub input: ControllerState,
    pub particles: Seq<Particle>,
    pub difficulty: i64,
    pub is_first_frame: bool,
}

/// The random draws one tick consumes: a spawn roll per million, and the
/// three spawn-shape draws in `[0, 2000)` (zero when no candy spawns).
pub ghost struct Draws {
    pub roll: u32,
    pub u_pos: u32,
    pub u_vx: u32,
    pub u_vy: u32,
}

/// Every draw is within its generator's range.
pub open spec fn valid_draws(d: Draws) -> bool {
    &&& d.roll < 1000000
    &&& d.u_pos < 2000
    &&& d.u_vx < 2000
    &&& d.u_vy < 2000
}

/// Combo goes up by one on a catch, saturating.
pub open spec fn inc_combo(c: u32) -> u32 {
    if c < u32::MAX {
        (c + 1) as u32
    } else {
        u32::MAX
    }
}

/// A catch adds the (already incremented) combo to the score, saturating.
pub open spec fn add_score(s: u32, c: u32) -> u32 {
    if s + c > u32::MAX {
        u32::MAX
    } else {
        (s + c) as u32
    }
}

/// A miss costs one life, saturating.
pub open spec fn dec_life(l: i32) -> i32 {
    if l > i32::MIN {
        (l - 1) as i32
    } else {
        i32::MIN
    }
}

/// The particle a catch spawns: at the player, offset 16 pixels up, flung
/// with the player's velocity, playing the shared catch animation.
pub open spec fn spawn_particle(p: Player) -> Particle {
    Particle {
        pos: Vec2i { x: p.pos.x, y: sat64(p.pos.y + 16000) as i64 },
        vel: p.velocity,
        animation_frame: 0,
        frame_count: COLLECT_FRAME_COUNT,
    }
}

/// The outcome of collision resolution so far.
#[verifier::ext_equal]
pub ghost struct Resolution {
    pub candies: Seq<Candy>,
    pub score: u32,
    pub combo: u32,
    pub life: i32,
    pub particles: Seq<Particle>,
}

/// Resolve one candy against the player: a catch scores and spawns a
/// particle, a miss costs a life and resets the combo, and either marks the
/// candy collected; a candy still falling passes through unchanged.
pub open spec fn resolve_one(c: Candy, p: Player, screen_height: int, r: Resolution) -> Resolution {
    if candy_caught(c, p) {
        let combo2 = inc_combo(r.combo);
        Resolution {
            candies: r.candies.push(Candy { is_collected: true, ..c }),
            score: add_score(r.score, combo2),
            combo: combo2,
            life: r.life,
            particles: r.particles.push(spawn_particle(p)),
        }
    } else if candy_missed(c, p, screen_height) {
        Resolution {
            candies: r.candies.push(Candy { is_collected: true, ..c }),
            score: r.score,
            combo: 0,
            life: dec_life(r.life),
            particles: r.particles,
        }
    } else {
        Resolution {
            candies: r.candies.push(c),
            score: r.score,
            combo: r.combo,
            life: r.life,
            particles: r.particles,
        }
    }
}

/// Resolve a candy sequence left to right, starting from the given
/// scoreboard and live particles.
pub open spec fn resolve_seq(
    cands: Seq<Candy>,
    p: Player,
    screen_height: int,
    score: u32,
    combo: u32,
    life: i32,
    parts: Seq<Particle>,
) -> Resolution
    decreases cands.len(),
{
    if cands.len() == 0 {
        Resolution { candies: Seq::empty(), score, combo, life, particles: parts }
    } else {
        resolve_one(
            cands.last(),
            p,
            screen_height,
            resolve_seq(cands.drop_last(), p, screen_height, score, combo, life, parts),
        )
    }
}

/// The candies that survive the frame: the ones not marked collected, in
/// order.
pub open spec fn retain_uncollected(cands: Seq<Candy>) -> Seq<Candy>
    decreases cands.len(),
{
    if cands.len() == 0 {
        Seq::empty()
    } else {
        let pre = retain_uncollected(cands.drop_last());
        if cands.last().is_collected {
            pre
        } else {
            pre.push(cands.last())
        }
    }
}

/// One frame of every particle: step each and keep the ones still alive, in
/// order.
pub open spec fn particles_step_seq(parts: Seq<Particle>, dt: int) -> Seq<Particle>
    decreases parts.len(),
{
    if parts.len() == 0 {
        Seq::empty()
    } else {
        let pre = particles_step_seq(parts.drop_last(), dt);
        let q = particle_step(parts.last(), dt);
        if particle_alive(q) {
            pre.push(q)
        } else {
            pre
        }
    }
}

/// The spawn probability for a time step, in draws per million:
/// `(dt + 1 s) * 0.005`.
pub open spec fn spawn_rate_ppm(dt: int) -> int {
    (dt + US_PER_S as int) / 200
}

/// A candy spawns when the roll lands under the rate — and always on the
/// very first frame.
pub open spec fn should_spawn(roll: int, dt: int, first: bool) -> bool {
    roll < spawn_rate_ppm(dt) || first
}

/// The deterministic frame function: the new core state from the old one,
/// the time step, and the frame's random draws.
pub open spec fn tick_model(c: GameCore, dt: int, d: Draws) -> GameCore {
    let difficulty = sat64(
        c.difficulty + sat64(mul_div_spec(dt, DIFFICULTY_RATE_MILLI as int, US_PER_S as int)),
    ) as i64;
    let spawned = should_spawn(d.roll as int, dt, c.is_first_frame);
    let candies1 = if spawned {
        c.candies.push(
            make_candy_spec(d.u_pos as int, d.u_vx as int, d.u_vy as int, c.screen_width as int),
        )
    } else {
        c.candies
    };
    let first1 = if spawned {
        false
    } else {
        c.is_first_frame
    };
    let p1 = player_input_step(c.player, c.input, dt);
    let p2 = player_move_step(p1, dt);
    let p3 = player_bounce_step(p2, c.screen_width as int);
    let candies2 = candies1.map_values(|cd: Candy| candy_fall_step(cd, dt));
    let r = resolve_seq(
        candies2,
        p3,
        c.screen_height as int,
        c.score,
        c.combo,
        p3.life,
        c.particles,
    );
    GameCore {
        player: Player { life: r.life, ..p3 },
        candies: retain_uncollected(r.candies),
        score: r.score,
        combo: r.combo,
        screen_width: c.screen_width,
        screen_height: c.screen_height,
        input: c.input,
        particles: particles_step_seq(r.particles, dt),
        difficulty,
        is_first_frame: first1,
    }
}

/// The player as the game starts: standing mid-screen on the ground, full
/// life, facing right.
pub open spec fn initial_player(screen_height: int) -> Player {
    Player {
        sprite: Sprite {
            sheet: SpriteSheet { count_x: 4, count_y: 1 },
            pos: Vec2i { x: 0, y: 0 },
            scale: Vec2i { x: 1000, y: 1000 },
        },
        pos: Vec2i { x: 0, y: (48000 - screen_height / 2) as i64 },
        velocity: Vec2i { x: 0, y: 0 },
        last_velocity: Vec2i { x: 0, y: 0 },
        facing: LR::Right,
        animation_frame: 0,
        bbox_size: PLAYER_BBOX,
        life: PLAYER_LIFE,
        grounded: true,
    }
}

/// Decide whether the candy overlaps the player this frame.
pub fn candy_hits_player(c: &Candy, p: &Player) -> (r: bool)
    ensures
        r == candy_caught(*c, *p),
{
    points_within_distance(c.pos, p.pos, sat_add(p.bbox_size, c.bbox_size))
}

/// Advance every candy's fall by one frame, in place.
#[verifier::loop_isolation(false)]
pub fn fall_all(cands: &mut Vec<Candy>, dt: u32)
    requires
        dt <= US_PER_S,
    ensures
        final(cands)@ == old(cands)@.map_values(|c: Candy| candy_fall_step(c, dt as int)),
{
    let n = cands.len();
    let mut i: usize = 0;
    while i < n
        invariant
            i <= n,
            cands@.len() == n,
            forall|j: int|
                0 <= j < i ==> cands@[j] == candy_fall_step(old(cands)@[j], dt as int),
            forall|j: int| i <= j < n ==> cands@[j] == old(cands)@[j],
        decreases n - i,
    {
        let mut c = cands[i];
        c.fall_step(dt);
        cands.set(i, c);
        i = i + 1;
    }
    assert(cands@ =~= old(cands)@.map_values(|c: Candy| candy_fall_step(c, dt as int)));
}

/// Resolve every candy against the player, left to right: catches score and
/// spawn particles, misses cost life and reset the combo, and both mark the
/// candy collected.
#[verifier::loop_isolation(false)]
pub fn resolve_all(
    cands: &mut Vec<Candy>,
    p: &Player,
    screen_height: i64,
    score: &mut u32,
    combo: &mut u32,
    life: &mut i32,
    particles: &mut Vec<Particle>,
)
    requires
        screen_height >= 0,
    ensures
        ({
            let r = resolve_seq(
                old(cands)@,
                *p,
                screen_height as int,
                *old(score),
                *old(combo),
                *old(life),
                old(particles)@,
            );
            &&& final(cands)@ == r.candies
            &&& *final(score) == r.score
            &&& *final(combo) == r.combo
            &&& *final(life) == r.life
            &&& final(particles)@ == r.particles
        }),
{
    let n = cands.len();
    let mut i: usize = 0;
    let half_h: i64 = (screen_height as u64 / 2) as i64;
    while i < n
        invariant
            i <= n,
            cands@.len() == n,
            ({
                let r = resolve_seq(
                    old(cands)@.subrange(0, i as int),
                    *p,
                    screen_height as int,
                    *old(score),
                    *old(combo),
                    *old(life),
                    old(particles)@,
                );
                &&& cands@.subrange(0, i as int) == r.candies
                &&& *score == r.score
                &&& *combo == r.combo
                &&& *life == r.life
                &&& particles@ == r.particles
            }),
            forall|j: int| i <= j < n ==> cands@[j] == old(cands)@[j],
        decreases n - i,
    {
        let ghost pre = old(cands)@.subrange(0, i as int);
        let ghost ext = old(cands)@.subrange(0, i as int + 1);
        let c = cands[i];
        if candy_hits_player(&c, p) {
            *combo = if *combo < u32::MAX {
                *combo + 1
            } else {
                u32::MAX
            };
            *score = (*score).saturating_add(*combo);
            let c2 = Candy { is_collected: true, ..c };
            cands.set(i, c2);
            particles.push(
                Particle {
                    pos: Vec2i { x: p.pos.x, y: sat_add(p.pos.y, 16000) },
                    vel: p.velocity,
                    animation_frame: 0,
                    frame_count: COLLECT_FRAME_COUNT,
                },
            );
        } else if c.pos.y < -half_h {
            *life = if *life > i32::MIN {
                *life - 1
            } else {
                i32::MIN
            };
            *combo = 0;
            let c2 = Candy { is_collected: true, ..c };
            cands.set(i, c2);
        }
        proof {
            assert(ext.drop_last() =~= pre);
            assert(ext.last() == old(cands)@[i as int]);
            assert(cands@.subrange(0, i as int + 1) =~= cands@.subrange(0, i as int).push(
                cands@[i as int],
            ));
        }
        i = i + 1;
    }
    proof {
        assert(old(cands)@.subrange(0, n as int) =~= old(cands)@);
        assert(cands@.subrange(0, n as int) =~= cands@);
    }
}

/// Advance every particle one frame and keep the ones still alive, in order.
#[verifier::loop_isolation(false)]
pub fn step_particles(parts: &mut Vec<Particle>, dt: u32)
    requires
        dt <= US_PER_S,
    ensures
        final(parts)@ == particles_step_seq(old(parts)@, dt as int),
{
    let n = parts.len();
    let mut kept: Vec<Particle> = Vec::new();
    let mut i: usize = 0;
    while i < n
        invariant
            i <= n,
            parts@ == old(parts)@,
            kept@ == particles_step_seq(old(parts)@.subrange(0, i as int), dt as int),
        decreases n - i,
    {
        let ghost pre = old(parts)@.subrange(0, i as int);
        let ghost ext = old(parts)@.subrange(0, i as int + 1);
        let mut q = parts[i];
        let alive = q.update(dt);
        if alive {
            kept.push(q);
        }
        proof {
            assert(ext.drop_last() =~= pre);
        }
        i = i + 1;
    }
    proof {
        assert(old(parts)@.subrange(0, n as int) =~= old(parts)@);
    }
    *parts = kept;
}

/// Drop the candies marked collected, keeping the rest in order.
#[verifier::loop_isolation(false)]
pub fn prune_candies(cands: &mut Vec<Candy>)
    ensures
        final(cands)@ == retain_uncollected(old(cands)@),
{
    let n = cands.len();
    let mut kept: Vec<Candy> = Vec::new();
    let mut i: usize = 0;
    while i < n
        invariant
            i <= n,
            cands@ == old(cands)@,
            kept@ == retain_uncollected(old(cands)@.subrange(0, i as int)),
        decreases n - i,
    {
        let ghost pre = old(cands)@.subrange(0, i as int);
        let ghost ext = old(cands)@.subrange(0, i as int + 1);
        let c = cands[i];
        if !c.is_collected {
            kept.push(c);
        }
        proof {
            assert(ext.drop_last() =~= pre);
        }
        i = i + 1;
    }
    proof {
        assert(old(cands)@.subrange(0, n as int) =~= old(cands)@);
    }
    *cands = kept;
}

/// No candy that survives pruning is still marked collected: a caught or
/// missed candy is gone after its frame and is never re-evaluated.
pub proof fn lemma_pruned_candies_uncollected(cands: Seq<Candy>)
    ensures
        forall|i: int|
            0 <= i < retain_uncollected(cands).len() ==> !(#[trigger] retain_uncollected(
                cands,
            )[i]).is_collected,
    decreases cands.len(),
{
    if cands.len() > 0 {
        lemma_pruned_candies_uncollected(cands.drop_last());
        let pre = retain_uncollected(cands.drop_last());
        if !cands.last().is_collected {
            assert forall|i: int|
                0 <= i < retain_uncollected(cands).len() implies !(#[trigger] retain_uncollected(
                cands,
            )[i]).is_collected by {
                if i < pre.len() {
                    assert(retain_uncollected(cands)[i] == pre[i]);
                } else {
                    assert(retain_uncollected(cands)[i] == cands.last());
                }
            }
        }
    }
}

impl GameState {
    /// The core state the frame function runs on: everything except the
    /// opaque generator and the render-only tile data.
    pub open spec fn model(&self) -> GameCore {
        GameCore {
            player: self.player,
            candies: self.candies@,
            score: self.score,
            combo: self.combo,
            screen_width: self.screen_width,
            screen_height: self.screen_height,
            input: self.input,
            particles: self.particles@,
            difficulty: self.difficulty,
            is_first_frame: self.is_first_frame,
        }
    }

    /// Sane screen dimensions, a well-formed tile grid, and the player's
    /// animation accumulator within its cycle.
    pub open spec fn wf(&self) -> bool {
        &&& 0 < self.screen_width <= MAX_SCREEN_DIM
        &&& 0 < self.screen_height <= MAX_SCREEN_DIM
        &&& self.grid.wf()
        &&& self.player.wf()
    }

    /// A fresh game on a screen of the given milli-pixel dimensions, with a
    /// seeded generator and the level's tile data.
    pub fn new(screen_width: i64, screen_height: i64, seed: u64, grid: TileGrid, tiles: TileSet) -> (
        s: GameState)
        requires
            0 < screen_width <= MAX_SCREEN_DIM,
            0 < screen_height <= MAX_SCREEN_DIM,
            grid.wf(),
        ensures
            s.wf(),
            s.player == initial_player(screen_height as int),
            s.candies@ == Seq::<Candy>::empty(),
            s.score == 0,
            s.combo == 0,
            s.screen_width == screen_width,
            s.screen_height == screen_height,
            s.input == (ControllerState { left: false, right: false, up: false, down: false }),
            s.particles@ == Seq::<Particle>::empty(),
            s.difficulty == 0,
            s.is_first_frame,
            s.grid == grid,
            s.tiles == tiles,
    {
        let half_h: i64 = (screen_height as u64 / 2) as i64;
        let sheet = SpriteSheet::new(4, 1);
        let player = Player {
            sprite: sheet.sprite(Vec2i { x: 0, y: 0 }),
            pos: Vec2i { x: 0, y: 48000 - half_h },
            velocity: Vec2i { x: 0, y: 0 },
            last_velocity: Vec2i { x: 0, y: 0 },
            facing: LR::Right,
            animation_frame: 0,
            bbox_size: PLAYER_BBOX,
            life: PLAYER_LIFE,
            grounded: true,
        };
        GameState {
            player,
            candies: Vec::new(),
            score: 0,
            combo: 0,
            screen_width,
            screen_height,
            input: ControllerState::new(),
            rng: new_rng(seed),
            particles: Vec::new(),
            difficulty: 0,
            is_first_frame: true,
            grid,
            tiles,
        }
    }

    /// The game ends when the life meter is spent.
    pub fn game_over(&self) -> (r: bool)
        ensures
            r == (self.player.life <= 0),
    {
        self.player.life <= 0
    }

    /// Simulate one frame of `dt` microseconds.  The new state is the frame
    /// function of the old state and the frame's random draws; everything
    /// except which numbers were drawn is pinned down by `tick_model`.
    pub fn tick(&mut self, dt: u32)
        requires
            old(self).wf(),
            dt <= US_PER_S,
        ensures
            final(self).wf(),
            final(self).grid == old(self).grid,
            final(self).tiles == old(self).tiles,
            exists|d: Draws|
                valid_draws(d) && final(self).model() == #[trigger] tick_model(
                    old(self).model(),
                    dt as int,
                    d,
                ),
    {
        let ghost core0 = self.model();

        self.difficulty = sat_add(self.difficulty, mul_div(dt as i64, DIFFICULTY_RATE_MILLI, US_PER_S));

        let roll = rand_below(&mut self.rng, 1000000);
        let rate: u32 = (dt + 1000000) / 200;
        let ghost mut draws = Draws { roll, u_pos: 0, u_vx: 0, u_vy: 0 };
        if roll < rate || self.is_first_frame {
            self.is_first_frame = false;
            let u_pos = rand_below(&mut self.rng, 2000);
            let u_vx = rand_below(&mut self.rng, 2000);
            let u_vy = rand_below(&mut self.rng, 2000);
            proof {
                draws = Draws { roll, u_pos, u_vx, u_vy };
            }
            let c = make_candy(u_pos, u_vx, u_vy, self.screen_width);
            self.candies.push(c);
        }

        player_handle_input(&mut self.player, &self.input, dt);
        update_player_position(&mut self.player, dt);
        bounce_player_at_edges(&mut self.player, self.screen_width);

        fall_all(&mut self.candies, dt);

        let p = self.player;
        let mut life: i32 = self.player.life;
        resolve_all(
            &mut self.candies,
            &p,
            self.screen_height,
            &mut self.score,
            &mut self.combo,
            &mut life,
            &mut self.particles,
        );
        self.player.life = life;

        step_particles(&mut self.particles, dt);
        prune_candies(&mut self.candies);

        proof {
            assert(valid_draws(draws));
            assert(self.model() =~= tick_model(core0, dt as int, draws));
        }
    }
}

} // verus!
