//! Fixed-point arithmetic for the simulation.
//!
//! Lengths are milli-pixels, velocities milli-pixels per second,
//! accelerations milli-pixels per second squared, time steps microseconds and
//! animation accumulators milli-frames.  Additions and scalings saturate at
//! the `i64` range, so the physics functions are total; inside the game's
//! operating envelope the saturation bounds are never reached and the results
//! are the exact truncated rationals.

use vstd::prelude::*;

verus! {

/// Gravity, in milli-pixels per second squared.
pub const GRAVITY_MPS2: i64 = 200000;

/// One second, in microseconds: the unit that time steps are scaled by.
pub const US_PER_S: i64 = 1000000;

/// Clamp a mathematical integer to the `i64` range.
pub open spec fn sat64(v: int) -> int {
    if v > i64::MAX {
        i64::MAX as int
    } else if v < i64::MIN {
        i64::MIN as int
    } else {
        v
    }
}

/// The magnitude of an `i64`, as a mathematical integer.
pub open spec fn abs64_spec(v: int) -> int {
    if v < 0 {
        -v
    } else {
        v
    }
}

/// `v * num / den`, exact product then division truncated toward zero.
pub open spec fn mul_div_spec(v: int, num: int, den: int) -> int
    recommends
        den > 0,
{
    let p = v * num;
    if p >= 0 {
        p / den
    } else {
        -((-p) / den)
    }
}

/// The sign of a velocity, with zero counting as positive: the tie-breaking
/// that the braking rule and the floor bounce use.
pub open spec fn sgn_pos_spec(v: int) -> int {
    if v < 0 {
        -1
    } else {
        1
    }
}

/// Saturating addition on `i64`.
pub fn sat_add(a: i64, b: i64) -> (r: i64)
    ensures
        r == sat64(a + b),
{
    match a.checked_add(b) {
        Some(v) => v,
        None => if b >= 0 {
            i64::MAX
        } else {
            i64::MIN
        },
    }
}

/// Saturating subtraction on `i64`.
pub fn sat_sub(a: i64, b: i64) -> (r: i64)
    ensures
        r == sat64(a - b),
{
    match a.checked_sub(b) {
        Some(v) => v,
        None => if b >= 0 {
            i64::MIN
        } else {
            i64::MAX
        },
    }
}

/// Clamp a mathematical integer to the `u64` range.
pub open spec fn sat64u(v: int) -> int {
    if v > u64::MAX {
        u64::MAX as int
    } else if v < 0 {
        0
    } else {
        v
    }
}

/// Saturating addition on `u64`.
pub fn sat_add_u64(a: u64, b: u64) -> (r: u64)
    ensures
        r == sat64u(a + b),
{
    match a.checked_add(b) {
        Some(v) => v,
        None => u64::MAX,
    }
}

/// The magnitude of an `i64`, as a `u64` (total, unlike `i64::abs`).
pub fn abs64(v: i64) -> (r: u64)
    ensures
        r == abs64_spec(v as int),
{
    if v >= 0 {
        v as u64
    } else {
        (-(v as i128)) as u64
    }
}

/// The smaller of two magnitudes.
pub fn min64(a: u64, b: u64) -> (r: u64)
    ensures
        r == if a <= b { a as int } else { b as int },
{
    if a <= b {
        a
    } else {
        b
    }
}

/// The sign of a velocity, with zero counting as positive.
pub fn sgn_pos(v: i64) -> (r: i64)
    ensures
        r == sgn_pos_spec(v as int),
{
    if v < 0 {
        -1
    } else {
        1
    }
}

/// `v * num / den` with the exact product divided truncating toward zero,
/// saturated at the `i64` range.  This is the one scaling primitive: velocity
/// integration, gravity and the bounce damping factors all go through it.
pub fn mul_div(v: i64, num: i64, den: i64) -> (r: i64)
    requires
        den > 0,
    ensures
        r == sat64(mul_div_spec(v as int, num as int, den as int)),
{
    let negative: bool = (v < 0) != (num < 0);
    let mv: u128 = if v >= 0 {
        v as u128
    } else {
        (-(v as i128)) as u128
    };
    let mn: u128 = if num >= 0 {
        num as u128
    } else {
        (-(num as i128)) as u128
    };
    assert(mv * mn <= 0x8000000000000000u128 * 0x8000000000000000u128) by (nonlinear_arith)
        requires
            mv <= 0x8000000000000000u128,
            mn <= 0x8000000000000000u128,
    ;
    let p: u128 = mv * mn;
    let q: u128 = p / (den as u128);
    proof {
        lemma_mul_div_mag(v as int, num as int, den as int, mv as int, mn as int, q as int);
    }
    if negative {
        if q >= 0x8000000000000000u128 {
            i64::MIN
        } else {
            -(q as i64)
        }
    } else {
        if q > i64::MAX as u128 {
            i64::MAX
        } else {
            q as i64
        }
    }
}

/// The magnitude computed by `mul_div` matches the magnitude of the spec
/// value, and the sign rule matches the sign of the exact product.
proof fn lemma_mul_div_mag(v: int, num: int, den: int, mv: int, mn: int, q: int)
    requires
        den > 0,
        mv == abs64_spec(v),
        mn == abs64_spec(num),
        q == (mv * mn) / den,
    ensures
        q == abs64_spec(mul_div_spec(v, num, den)),
        (mul_div_spec(v, num, den) < 0) ==> ((v < 0) != (num < 0)),
        ((v < 0) != (num < 0)) ==> mul_div_spec(v, num, den) == -q,
        !((v < 0) != (num < 0)) ==> mul_div_spec(v, num, den) == q,
{
    let p = v * num;
    assert(mv * mn == abs64_spec(p)) by (nonlinear_arith)
        requires
            mv == abs64_spec(v),
            mn == abs64_spec(num),
            p == v * num,
    ;
    if (v < 0) != (num < 0) {
        assert(p <= 0) by (nonlinear_arith)
            requires
                (v < 0) != (num < 0),
                p == v * num,
        ;
        if p == 0 {
            assert(mul_div_spec(v, num, den) == 0);
            assert(q == 0) by {
                vstd::arithmetic::div_mod::lemma_basic_div(0, den);
            }
        } else {
            assert(mul_div_spec(v, num, den) == -((-p) / den));
            assert((-p) / den >= 0) by {
                vstd::arithmetic::div_mod::lemma_div_pos_is_pos(-p, den);
            }
        }
    } else {
        assert(p >= 0) by (nonlinear_arith)
            requires
                !((v < 0) != (num < 0)),
                p == v * num,
        ;
        assert(mul_div_spec(v, num, den) == p / den);
        assert(p / den >= 0) by {
            vstd::arithmetic::div_mod::lemma_div_pos_is_pos(p, den);
        }
    }
}

} // verus!
