//! The player movement model.
//!
//! Each frame, input picks a facing and a target horizontal velocity; the
//! velocity closes on the target under an asymmetric acceleration (a triple
//! "braking" thrust on sign reversals and on grounded stops, the plain thrust
//! otherwise) and snaps to the target once the gap is within one frame's
//! step.  Position integrates by an Euler step; airborne players fall under a
//! deliberately five-fold gravity for a snappier arc, while candies and
//! particles fall under the plain factor.  Crossing the floor snaps
//! to it and converts part of the absorbed vertical speed into a horizontal
//! shove; leaving the screen reflects the horizontal velocity with damping.

use crate::geom::Vec2i;
use crate::input::ControllerState;
use crate::sprite::Sprite;
use crate::units::{
    abs64, abs64_spec, min64, mul_div, mul_div_spec, sat64, sat_add, sat_sub, sgn_pos,
    sgn_pos_spec, GRAVITY_MPS2, US_PER_S,
};
use vstd::prelude::*;

verus! {

/// The target horizontal speed, in milli-pixels per second.
pub const PLAYER_VEL_MPS: i64 = 400000;

/// Plain horizontal acceleration, in milli-pixels per second squared.
pub const PLAYER_THRUST_MPS2: i64 = 600000;

/// Braking acceleration: three times the plain thrust.
pub const PLAYER_BREAK_THRUST_MPS2: i64 = 1800000;

/// Vertical launch speed of a jump, in milli-pixels per second.
pub const JUMP_VEL_MPS: i64 = 400000;

/// The floor plane's height, in milli-pixels.
pub const FLOOR_Y: i64 = -162000;

/// Gravity multiplier while airborne.
pub const AIRBORNE_GRAVITY_FACTOR: i64 = 5;

/// The walk animation cycles over four frames (milli-frames).
pub const ANIM_CYCLE_MILLI: u64 = 4000;

/// Starting to move bumps the accumulator by roughly one frame, so the walk
/// cycle leaves its standing frame at once.
pub const ANIM_BUMP_MILLI: u64 = 990;

/// The sprite anchor's screen offset: half of the 640 by 480 milli-pixel
/// screen the sprite positions are laid out for.
pub const SPRITE_OFFSET_X: i64 = 320000;

/// See `SPRITE_OFFSET_X`.
pub const SPRITE_OFFSET_Y: i64 = 240000;

/// Which way the player faces.
#[derive(Clone, Copy, Debug, PartialEq, Eq, Structural)]
pub enum LR {
    Left,
    Right,
}

/// The facing as a signed milli-unit factor.
pub open spec fn lr_sign(lr: LR) -> int {
    match lr {
        LR::Left => -1000,
        LR::Right => 1000,
    }
}

impl LR {
    /// The facing as a signed milli-unit factor: -1000 left, 1000 right.
    pub fn to_sign_milli(self) -> (r: i64)
        ensures
            r == lr_sign(self),
    {
        match self {
            LR::Left => -1000,
            LR::Right => 1000,
        }
    }
}

/// The player.  Positions and velocities are milli-pixels and milli-pixels
/// per second; the animation accumulator is milli-frames within the walk
/// cycle.
#[derive(Clone, Copy, Debug, PartialEq, Eq, Structural)]
pub struct Player {
    pub sprite: Sprite,
    pub pos: Vec2i,
    pub velocity: Vec2i,
    pub last_velocity: Vec2i,
    pub facing: LR,
    pub animation_frame: u64,
    pub bbox_size: i64,
    pub life: i32,
    pub grounded: bool,
}

/// The facing after input: the last nonzero horizontal input wins, and with
/// neither side held the facing keeps its value.
pub open spec fn input_facing(input: ControllerState, facing: LR) -> LR {
    if input.left {
        LR::Left
    } else if input.right {
        LR::Right
    } else {
        facing
    }
}

/// The target horizontal velocity selected by the input flags.
pub open spec fn input_target(input: ControllerState) -> int {
    if input.left {
        -PLAYER_VEL_MPS as int
    } else if input.right {
        PLAYER_VEL_MPS as int
    } else {
        0
    }
}

/// The walk animation step.  While moving, the accumulator advances by 0.2
/// frames per `PLAYER_VEL_MPS` of speed — in milli-frames `200 * |vx| /
/// 400000`, that is `|vx| / 2000` — cycling over four frames, with a bump of
/// roughly one frame on the standstill-to-moving edge; standing still resets
/// it.
pub open spec fn anim_next(anim: int, vx: int, last_vx: int) -> int {
    if vx != 0 {
        let bumped = if last_vx == 0 {
            anim + ANIM_BUMP_MILLI
        } else {
            anim
        };
        (bumped + abs64_spec(vx) / 2000) % (ANIM_CYCLE_MILLI as int)
    } else {
        0
    }
}

/// Braking applies on a grounded stop, and whenever the velocity's sign
/// differs from the target's (zero counting as positive on both sides).
pub open spec fn brake_active(vx: int, target: int, grounded: bool) -> bool {
    (target == 0 && grounded) || sgn_pos_spec(vx) != sgn_pos_spec(target)
}

/// One frame's acceleration step, in milli-pixels per second.
pub open spec fn thrust_delta(dt: int, brake: bool) -> int {
    if brake {
        (PLAYER_BREAK_THRUST_MPS2 as int) * dt / (US_PER_S as int)
    } else {
        (PLAYER_THRUST_MPS2 as int) * dt / (US_PER_S as int)
    }
}

/// The horizontal velocity after one frame of thrust: clamp to the target
/// whenever the remaining gap is within one frame's step — in either
/// direction, so a decelerating player never overshoots and oscillates —
/// else move one step toward the target.
pub open spec fn vel_x_next(vx: int, target: int, grounded: bool, dt: int) -> int {
    let delta = thrust_delta(dt, brake_active(vx, target, grounded));
    if abs64_spec(sat64(vx - target)) <= delta {
        target
    } else if vx < target {
        sat64(vx + delta)
    } else {
        sat64(vx - delta)
    }
}

/// The whole input step: facing, animation, horizontal thrust, jump, and the
/// sprite's screen placement.
pub open spec fn player_input_step(p: Player, input: ControllerState, dt: int) -> Player {
    let facing = input_facing(input, p.facing);
    let target = input_target(input);
    let anim = anim_next(p.animation_frame as int, p.velocity.x as int, p.last_velocity.x as int);
    let vx = vel_x_next(p.velocity.x as int, target, p.grounded, dt);
    let jumping = input.up && p.grounded;
    Player {
        sprite: Sprite {
            sheet: p.sprite.sheet,
            pos: Vec2i {
                x: sat64(p.pos.x + SPRITE_OFFSET_X) as i64,
                y: sat64(SPRITE_OFFSET_Y - p.pos.y) as i64,
            },
            scale: Vec2i { x: (-lr_sign(facing)) as i64, y: p.sprite.scale.y },
        },
        pos: p.pos,
        velocity: Vec2i {
            x: vx as i64,
            y: if jumping {
                JUMP_VEL_MPS
            } else {
                p.velocity.y
            },
        },
        last_velocity: p.velocity,
        facing,
        animation_frame: anim as u64,
        bbox_size: p.bbox_size,
        life: p.life,
        grounded: !jumping && p.grounded,
    }
}

/// One Euler step of the player's position, gravity, and the floor landing
/// with its bounce-slide: landing converts half the smaller of the absorbed
/// vertical speed and the current horizontal speed into a horizontal shove
/// biased in the current horizontal direction.
pub open spec fn player_move_step(p: Player, dt: int) -> Player {
    let px = sat64(p.pos.x + sat64(mul_div_spec(p.velocity.x as int, dt, US_PER_S as int)));
    let py = sat64(p.pos.y + sat64(mul_div_spec(p.velocity.y as int, dt, US_PER_S as int)));
    let vy = if !p.grounded {
        sat64(
            p.velocity.y - (AIRBORNE_GRAVITY_FACTOR * GRAVITY_MPS2) as int * dt / (
            US_PER_S as int),
        )
    } else {
        0
    };
    if py <= FLOOR_Y as int {
        let shove = if abs64_spec(vy) <= abs64_spec(p.velocity.x as int) {
            abs64_spec(vy) / 2
        } else {
            abs64_spec(p.velocity.x as int) / 2
        };
        Player {
            pos: Vec2i { x: px as i64, y: FLOOR_Y },
            velocity: Vec2i {
                x: sat64(p.velocity.x + sgn_pos_spec(p.velocity.x as int) * shove) as i64,
                y: 0,
            },
            grounded: true,
            ..p
        }
    } else {
        Player {
            pos: Vec2i { x: px as i64, y: py as i64 },
            velocity: Vec2i { x: p.velocity.x, y: vy as i64 },
            grounded: false,
            ..p
        }
    }
}

/// The screen-edge bounce: past either half-width, the position clamps to
/// the edge and the horizontal velocity reflects damped by 0.9, damped again
/// by 0.4 when grounded.
pub open spec fn player_bounce_step(p: Player, screen_width: int) -> Player {
    let half = screen_width / 2;
    if abs64_spec(p.pos.x as int) > half {
        let px = if p.pos.x < 0 {
            -half
        } else {
            half
        };
        let v1 = sat64(mul_div_spec(p.velocity.x as int, -9, 10));
        let v2 = if p.grounded {
            sat64(mul_div_spec(v1, 4, 10))
        } else {
            v1
        };
        Player {
            pos: Vec2i { x: px as i64, y: p.pos.y },
            velocity: Vec2i { x: v2 as i64, y: p.velocity.y },
            ..p
        }
    } else {
        p
    }
}

impl Player {
    /// The animation accumulator stays within the walk cycle.
    pub open spec fn wf(&self) -> bool {
        self.animation_frame < ANIM_CYCLE_MILLI
    }

    /// The frame to draw: the whole frames of the accumulator.
    pub fn frame_index(&self) -> (f: usize)
        requires
            self.wf(),
        ensures
            f == self.animation_frame as int / 1000,
            f < 4,
    {
        (self.animation_frame / 1000) as usize
    }
}

/// Apply one frame of input to the player: facing, walk animation, thrust
/// toward the target velocity, jumping, and the sprite's screen placement.
pub fn player_handle_input(actor: &mut Player, input: &ControllerState, dt: u32)
    requires
        old(actor).wf(),
        dt <= US_PER_S,
    ensures
        *final(actor) == player_input_step(*old(actor), *input, dt as int),
        final(actor).wf(),
{
    let (facing, target): (LR, i64) = if input.left {
        (LR::Left, -PLAYER_VEL_MPS)
    } else if input.right {
        (LR::Right, PLAYER_VEL_MPS)
    } else {
        (actor.facing, 0)
    };

    if actor.velocity.x != 0 {
        if actor.last_velocity.x == 0 {
            actor.animation_frame = actor.animation_frame + ANIM_BUMP_MILLI;
        }
        actor.animation_frame = (actor.animation_frame + abs64(actor.velocity.x) / 2000)
            % ANIM_CYCLE_MILLI;
    } else {
        actor.animation_frame = 0;
    }

    actor.facing = facing;
    actor.sprite.scale.x = -facing.to_sign_milli();

    let brake: bool = (target == 0 && actor.grounded) || sgn_pos(actor.velocity.x) != sgn_pos(
        target,
    );
    proof {
        assert(PLAYER_BREAK_THRUST_MPS2 as u64 == 1800000u64);
        assert(PLAYER_THRUST_MPS2 as u64 == 600000u64);
    }
    let delta: u64 = if brake {
        (dt as u64) * (PLAYER_BREAK_THRUST_MPS2 as u64) / (US_PER_S as u64)
    } else {
        (dt as u64) * (PLAYER_THRUST_MPS2 as u64) / (US_PER_S as u64)
    };

    actor.last_velocity = actor.velocity;
    let gap: u64 = abs64(sat_sub(actor.velocity.x, target));
    actor.velocity.x = if gap <= delta {
        target
    } else if actor.velocity.x < target {
        sat_add(actor.velocity.x, delta as i64)
    } else {
        sat_sub(actor.velocity.x, delta as i64)
    };

    if input.up && actor.grounded {
        actor.velocity.y = JUMP_VEL_MPS;
        actor.grounded = false;
    }

    actor.sprite.pos.x = sat_add(actor.pos.x, SPRITE_OFFSET_X);
    actor.sprite.pos.y = sat_sub(SPRITE_OFFSET_Y, actor.pos.y);
}

/// Integrate the player's position and vertical motion for one frame, with
/// the floor landing and its bounce-slide.
pub fn update_player_position(actor: &mut Player, dt: u32)
    requires
        dt <= US_PER_S,
    ensures
        *final(actor) == player_move_step(*old(actor), dt as int),
{
    let dx = mul_div(actor.velocity.x, dt as i64, US_PER_S);
    let dy = mul_div(actor.velocity.y, dt as i64, US_PER_S);
    actor.pos.x = sat_add(actor.pos.x, dx);
    actor.pos.y = sat_add(actor.pos.y, dy);
    if !actor.grounded {
        let af: u64 = AIRBORNE_GRAVITY_FACTOR as u64;
        let gm: u64 = GRAVITY_MPS2 as u64;
        let g: u64 = (dt as u64) * (af * gm) / (US_PER_S as u64);
        assert(g == (AIRBORNE_GRAVITY_FACTOR * GRAVITY_MPS2) as int * (dt as int) / (
        US_PER_S as int));
        actor.velocity.y = sat_sub(actor.velocity.y, g as i64);
    } else {
        actor.velocity.y = 0;
    }
    if actor.pos.y <= FLOOR_Y {
        actor.pos.y = FLOOR_Y;
        actor.grounded = true;
        let m: u64 = min64(abs64(actor.velocity.y), abs64(actor.velocity.x));
        let shove: u64 = m / 2;
        assert(shove < 0x8000000000000000u64) by (nonlinear_arith)
            requires
                shove == m / 2,
                m <= 0x8000000000000000u64,
        ;
        let signed_shove: i64 = if actor.velocity.x < 0 {
            -(shove as i64)
        } else {
            shove as i64
        };
        actor.velocity.x = sat_add(actor.velocity.x, signed_shove);
        actor.velocity.y = 0;
    } else {
        actor.grounded = false;
    }
}

/// Clamp the player to the visible half-width, reflecting the horizontal
/// velocity with damping.
pub fn bounce_player_at_edges(actor: &mut Player, screen_width: i64)
    requires
        screen_width >= 0,
    ensures
        *final(actor) == player_bounce_step(*old(actor), screen_width as int),
{
    let half: i64 = (screen_width as u64 / 2) as i64;
    if abs64(actor.pos.x) > half as u64 {
        actor.pos.x = if actor.pos.x < 0 {
            -half
        } else {
            half
        };
        actor.velocity.x = mul_div(actor.velocity.x, -9, 10);
        if actor.grounded {
            actor.velocity.x = mul_div(actor.velocity.x, 4, 10);
        }
    }
}

/// On a sign reversal between the current and the target velocity, the model
/// selects the braking constant — three times the plain thrust — for that
/// frame's acceleration step.
pub proof fn lemma_brake_on_reversal(vx: int, target: int, grounded: bool, dt: int)
    requires
        (vx >= 0 && target < 0) || (vx < 0 && target >= 0),
    ensures
        brake_active(vx, target, grounded),
        thrust_delta(dt, brake_active(vx, target, grounded)) == (PLAYER_BREAK_THRUST_MPS2 as int)
            * dt / (US_PER_S as int),
{
}

/// A player at the right boundary moving rightward at `v` leaves one bounce
/// frame with horizontal velocity `-v * 0.9` — truncated `-(9 v / 10)` — and
/// damped once more to `-(9 v / 10) * 0.4` when grounded.
pub proof fn lemma_right_edge_bounce(p: Player, screen_width: int)
    requires
        screen_width >= 0,
        p.pos.x > screen_width / 2,
        p.velocity.x >= 0,
    ensures
        !p.grounded ==> player_bounce_step(p, screen_width).velocity.x == -((p.velocity.x as int)
            * 9 / 10),
        p.grounded ==> player_bounce_step(p, screen_width).velocity.x == -((p.velocity.x as int)
            * 9 / 10 * 4 / 10),
        player_bounce_step(p, screen_width).pos.x == screen_width / 2,
{
    let v = p.velocity.x as int;
    assert(v * 9 / 10 <= i64::MAX) by (nonlinear_arith)
        requires
            0 <= v <= i64::MAX,
    ;
    assert(v * 9 >= 0 && v * 9 / 10 >= 0) by (nonlinear_arith)
        requires
            v >= 0,
    ;
    assert(mul_div_spec(v, -9, 10) == -(v * 9 / 10));
    if p.grounded {
        let v1 = -(v * 9 / 10);
        assert(mul_div_spec(v1, 4, 10) == -(v * 9 / 10 * 4 / 10));
    }
}

} // verus!
