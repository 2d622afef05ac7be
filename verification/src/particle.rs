//! One-shot visual particles.
//!
//! A particle is spawned when a candy is caught, carries the player's
//! velocity, falls under gravity and plays a fixed frame sequence once.  It
//! is alive exactly while the whole frames of its accumulator stay below the
//! sequence length, and is pruned from the live set as soon as it dies.

use crate::geom::Vec2i;
use crate::units::{mul_div, mul_div_spec, sat64, sat64u, sat_add, sat_add_u64, sat_sub, GRAVITY_MPS2, US_PER_S};
use vstd::prelude::*;

verus! {

/// The particle's animation rate, in frames per second.
pub const PARTICLE_FPS: u64 = 30;

/// A one-shot particle.  `frame_count` is the length of the shared visual
/// frame sequence it plays; `animation_frame` is in milli-frames.
#[derive(Clone, Copy, Debug, PartialEq, Eq, Structural)]
pub struct Particle {
    pub pos: Vec2i,
    pub vel: Vec2i,
    pub animation_frame: u64,
    pub frame_count: usize,
}

/// Alive means the whole frames accumulated so far stay below the sequence
/// length.
pub open spec fn particle_alive(p: Particle) -> bool {
    p.animation_frame as int / 1000 < p.frame_count as int
}

/// The accumulator's milli-frame gain for a time step: 30 frames per second,
/// floored at one milli-frame for any positive step, so that every positive
/// tick rate makes progress and every one-shot animation finishes in bounded
/// time.
pub open spec fn particle_frame_gain(dt: int) -> int {
    let g = (PARTICLE_FPS as int) * dt / 1000;
    if dt > 0 && g == 0 {
        1
    } else {
        g
    }
}

/// One time step of a particle: the accumulator advances by
/// `particle_frame_gain`, the position integrates the old velocity, and
/// gravity pulls the vertical velocity down.
pub open spec fn particle_step(p: Particle, dt: int) -> Particle {
    Particle {
        pos: Vec2i {
            x: sat64(p.pos.x + sat64(mul_div_spec(p.vel.x as int, dt, US_PER_S as int))) as i64,
            y: sat64(p.pos.y + sat64(mul_div_spec(p.vel.y as int, dt, US_PER_S as int))) as i64,
        },
        vel: Vec2i {
            x: p.vel.x,
            y: sat64(p.vel.y - (GRAVITY_MPS2 as int) * dt / (US_PER_S as int)) as i64,
        },
        animation_frame: sat64u(p.animation_frame + particle_frame_gain(dt)) as u64,
        frame_count: p.frame_count,
    }
}

impl Particle {
    /// Advance the particle by `dt` microseconds and report whether it is
    /// still alive.
    pub fn update(&mut self, dt: u32) -> (alive: bool)
        requires
            dt <= US_PER_S,
        ensures
            *final(self) == particle_step(*old(self), dt as int),
            alive == particle_alive(*final(self)),
    {
        let mut gain: u64 = (dt as u64) * PARTICLE_FPS / 1000;
        if dt > 0 && gain == 0 {
            gain = 1;
        }
        self.animation_frame = sat_add_u64(self.animation_frame, gain);
        let dx = mul_div(self.vel.x, dt as i64, US_PER_S);
        let dy = mul_div(self.vel.y, dt as i64, US_PER_S);
        self.pos.x = sat_add(self.pos.x, dx);
        self.pos.y = sat_add(self.pos.y, dy);
        self.vel.y = sat_sub(self.vel.y, ((dt as u64) * (GRAVITY_MPS2 as u64) / (US_PER_S as u64)) as i64);
        (self.animation_frame / 1000) < self.frame_count as u64
    }
}

/// A zero-length time step leaves a particle exactly as it was, so no number
/// of zero-length steps can kill a live particle.
pub proof fn lemma_particle_zero_dt_fixpoint(p: Particle)
    ensures
        particle_step(p, 0) == p,
        particle_alive(particle_step(p, 0)) == particle_alive(p),
{
    assert(mul_div_spec(p.vel.x as int, 0, US_PER_S as int) == 0);
    assert(mul_div_spec(p.vel.y as int, 0, US_PER_S as int) == 0);
}

/// A particle after `n` time steps of `dt` microseconds each.
pub open spec fn particle_steps(p: Particle, dt: int, n: nat) -> Particle
    decreases n,
{
    if n == 0 {
        p
    } else {
        particle_step(particle_steps(p, dt, (n - 1) as nat), dt)
    }
}

/// Any number of zero-length steps leaves a particle exactly as it was, so
/// repeated advancing with `dt == 0` never kills a live particle.
pub proof fn lemma_particle_zero_dt_never_kills(p: Particle, n: nat)
    ensures
        particle_steps(p, 0, n) == p,
        particle_alive(particle_steps(p, 0, n)) == particle_alive(p),
    decreases n,
{
    if n > 0 {
        lemma_particle_zero_dt_never_kills(p, (n - 1) as nat);
        lemma_particle_zero_dt_fixpoint(p);
    }
}

/// Any positive time step advances the animation accumulator, so a particle
/// dies after boundedly many positive steps, whatever the tick rate.
pub proof fn lemma_particle_positive_dt_progresses(p: Particle, dt: int)
    requires
        dt > 0,
        p.animation_frame < u64::MAX,
    ensures
        particle_step(p, dt).animation_frame > p.animation_frame,
{
    assert(particle_frame_gain(dt) >= 1) by {
        vstd::arithmetic::div_mod::lemma_div_pos_is_pos((PARTICLE_FPS as int) * dt, 1000);
        assert((PARTICLE_FPS as int) * dt >= 0) by (nonlinear_arith)
            requires
                dt > 0,
        ;
    }
}

/// A fresh particle on a non-empty frame sequence is alive.
pub proof fn lemma_fresh_particle_alive(p: Particle)
    requires
        p.animation_frame == 0,
        p.frame_count > 0,
    ensures
        particle_alive(p),
{
}

} // verus!
