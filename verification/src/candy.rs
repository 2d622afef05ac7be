//! Falling candy.
//!
//! A candy spawns near the top of the screen at a random horizontal position
//! within 90% of the half-width, with a small random drift and an upward
//! random launch; if its projected drift over two seconds would carry it past
//! the screen's half-width, the drift flips so it arcs back toward the
//! centre.  Every frame it falls under gravity.  The integration order is
//! fixed here once and for all: the position moves by the old velocity, then
//! gravity updates the velocity; the reverse order would bend trajectories
//! slightly differently.

use crate::geom::{within_distance, Vec2i};
use crate::player::Player;
use crate::units::{
    abs64, mul_div, mul_div_spec, sat64, sat_add, sat_sub, GRAVITY_MPS2, US_PER_S,
};
use vstd::prelude::*;

verus! {

/// A candy's hit-box radius, in milli-pixels.
pub const CANDY_BBOX: i64 = 10000;

/// The height candies spawn at, in milli-pixels.
pub const CANDY_SPAWN_Y: i64 = 150000;

/// A falling candy.  `is_collected` marks it for removal at the end of the
/// frame, whether it was caught or missed.
#[derive(Clone, Copy, Debug, PartialEq, Eq, Structural)]
pub struct Candy {
    pub pos: Vec2i,
    pub velocity: Vec2i,
    pub animation_frame: u64,
    pub bbox_size: i64,
    pub is_collected: bool,
}

/// One fall step: Euler position update with the old velocity, then gravity
/// on the vertical velocity.
pub open spec fn candy_fall_step(c: Candy, dt: int) -> Candy {
    Candy {
        pos: Vec2i {
            x: sat64(c.pos.x + sat64(mul_div_spec(c.velocity.x as int, dt, US_PER_S as int))) as i64,
            y: sat64(c.pos.y + sat64(mul_div_spec(c.velocity.y as int, dt, US_PER_S as int))) as i64,
        },
        velocity: Vec2i {
            x: c.velocity.x,
            y: sat64(c.velocity.y - (GRAVITY_MPS2 as int) * dt / (US_PER_S as int)) as i64,
        },
        ..c
    }
}

/// The candy spawned from three uniform draws in `[0, 2000)`: `u_pos` places
/// it within 90% of the half-width, `u_vx` drifts it up to 40 pixels per
/// second sideways, `u_vy` launches it 20 to 80 pixels per second upward, and
/// the drift flips if two seconds of it would leave the half-width.
pub open spec fn make_candy_spec(u_pos: int, u_vx: int, u_vy: int, screen_width: int) -> Candy {
    let reach = sat64(mul_div_spec(screen_width, 45, 100));
    let px = sat64(mul_div_spec(reach, u_pos - 1000, 1000));
    let vx = (u_vx - 1000) * 40;
    let vy = u_vy * 30 + 20000;
    let flipped_vx = if screen_width / 2 < abs64_spec_of_travel(px, vx) {
        -vx
    } else {
        vx
    };
    Candy {
        pos: Vec2i { x: px as i64, y: CANDY_SPAWN_Y },
        velocity: Vec2i { x: flipped_vx as i64, y: vy as i64 },
        animation_frame: 0,
        bbox_size: CANDY_BBOX,
        is_collected: false,
    }
}

/// The magnitude of the projected two-second drift from a spawn position.
pub open spec fn abs64_spec_of_travel(px: int, vx: int) -> int {
    crate::units::abs64_spec(sat64(px + vx * 2))
}

/// Whether the candy overlaps the player: strictly closer than the two
/// hit-box radii combined.
pub open spec fn candy_caught(c: Candy, p: Player) -> bool {
    within_distance(c.pos, p.pos, sat64(p.bbox_size + c.bbox_size))
}

/// Whether the candy is lost below the screen: not caught, and fallen below
/// minus half the screen height.
pub open spec fn candy_missed(c: Candy, p: Player, screen_height: int) -> bool {
    !candy_caught(c, p) && (c.pos.y as int) < -(screen_height / 2)
}

impl Candy {
    /// Advance the candy's fall by `dt` microseconds.
    pub fn fall_step(&mut self, dt: u32)
        requires
            dt <= US_PER_S,
        ensures
            *final(self) == candy_fall_step(*old(self), dt as int),
    {
        let dx = mul_div(self.velocity.x, dt as i64, US_PER_S);
        let dy = mul_div(self.velocity.y, dt as i64, US_PER_S);
        self.pos.x = sat_add(self.pos.x, dx);
        self.pos.y = sat_add(self.pos.y, dy);
        self.velocity.y = sat_sub(
            self.velocity.y,
            ((dt as u64) * (GRAVITY_MPS2 as u64) / (US_PER_S as u64)) as i64,
        );
    }

    /// The candy's draw scale in milli-units: a candy with positive vertical
    /// velocity is drawn shrunk in proportion to that speed (the reduction
    /// rounds up, so any upward motion shrinks it), vanishing at 80 pixels
    /// per second; it is at full size exactly when not rising — a launch
    /// squash, since candies are flung upward when they appear.
    pub fn draw_scale_milli(&self) -> (s: i64)
        ensures
            s == if self.velocity.y > 0 {
                1000 - ((if self.velocity.y as int > 80000 {
                    80000int
                } else {
                    self.velocity.y as int
                }) + 79) / 80
            } else {
                1000int
            },
            (s == 1000) == (self.velocity.y <= 0),
            0 <= s <= 1000,
    {
        if self.velocity.y > 0 {
            let capped: i64 = if self.velocity.y > 80000 {
                80000
            } else {
                self.velocity.y
            };
            1000 - (((capped as u64) + 79) / 80) as i64
        } else {
            1000
        }
    }
}

/// Build the candy that three uniform draws in `[0, 2000)` spawn on a screen
/// of the given milli-pixel width.
pub fn make_candy(u_pos: u32, u_vx: u32, u_vy: u32, screen_width: i64) -> (c: Candy)
    requires
        u_pos < 2000,
        u_vx < 2000,
        u_vy < 2000,
        screen_width >= 0,
    ensures
        c == make_candy_spec(u_pos as int, u_vx as int, u_vy as int, screen_width as int),
{
    let reach = mul_div(screen_width, 45, 100);
    let px = mul_div(reach, u_pos as i64 - 1000, 1000);
    let vx: i64 = (u_vx as i64 - 1000) * 40;
    let vy: i64 = (u_vy as i64) * 30 + 20000;
    let travel = abs64(sat_add(px, vx * 2));
    let half = (screen_width as u64) / 2;
    let flipped_vx: i64 = if half < travel {
        -vx
    } else {
        vx
    };
    Candy {
        pos: Vec2i { x: px, y: CANDY_SPAWN_Y },
        velocity: Vec2i { x: flipped_vx, y: vy },
        animation_frame: 0,
        bbox_size: CANDY_BBOX,
        is_collected: false,
    }
}

/// Per frame, a candy is caught, missed, or still falling — never more than
/// one of these.
pub proof fn lemma_catch_miss_exclusive(c: Candy, p: Player, screen_height: int)
    ensures
        !(candy_caught(c, p) && candy_missed(c, p, screen_height)),
{
}

} // verus!
