//! The rank formula.
//!
//! `rank(score, life)` grades a run.  An untouched run (no score, full life)
//! is shown as a dash; otherwise the grade comes from
//! `rankscore = ratio / 2 + bonus / 2` with `ratio = life / MAX_LIFE` and
//! `bonus = score * ratio / 10`, mapped through ascending half-open
//! thresholds.  `rankscore < t` is decided exactly:
//! `rankscore = life * (10 + score) / 240`, so the comparison is
//! `life * (10 + score) < 240 * t`, and each `240 * t` is an integer.

use vstd::prelude::*;

verus! {

/// The life meter's starting (and maximum) value.
pub const PLAYER_LIFE: i32 = 12;

/// A run's grade, from worst to best, with a separate mark for a run that has
/// neither scored nor lost life.
#[derive(Clone, Copy, Debug, PartialEq, Eq, Structural)]
pub enum Rank {
    Untouched,
    F,
    D,
    C,
    B,
    A,
    S,
    SS,
    SSPlus,
}

/// `life * (10 + score)`: `240 * rankscore` as an exact integer.
pub open spec fn rank_product(score: int, life: int) -> int {
    life * (10 + score)
}

/// The grade for a product value, by the ascending thresholds
/// 0.5, 0.75, 0.9, 1.0, 1.2, 1.4, 1.5 scaled by 240.
pub open spec fn rank_of_product(p: int) -> Rank {
    if p < 120 {
        Rank::F
    } else if p < 180 {
        Rank::D
    } else if p < 216 {
        Rank::C
    } else if p < 240 {
        Rank::B
    } else if p < 288 {
        Rank::A
    } else if p < 336 {
        Rank::S
    } else if p < 360 {
        Rank::SS
    } else {
        Rank::SSPlus
    }
}

/// What `get_rank` returns.
pub open spec fn rank_spec(score: int, life: int) -> Rank {
    if score == 0 && life == PLAYER_LIFE as int {
        Rank::Untouched
    } else {
        rank_of_product(rank_product(score, life))
    }
}

/// The position of a grade in the worst-to-best order; the untouched mark
/// sits outside the order.
pub open spec fn rank_level(r: Rank) -> int {
    match r {
        Rank::Untouched => -1,
        Rank::F => 0,
        Rank::D => 1,
        Rank::C => 2,
        Rank::B => 3,
        Rank::A => 4,
        Rank::S => 5,
        Rank::SS => 6,
        Rank::SSPlus => 7,
    }
}

/// Grade a run.  Life may be negative: several candies can land in the frame
/// that ends the game, and every such run grades F.
pub fn get_rank(score: u32, life: i32) -> (r: Rank)
    ensures
        r == rank_spec(score as int, life as int),
{
    if score == 0 && life == PLAYER_LIFE {
        Rank::Untouched
    } else {
        assert((life as i128) * (10 + score as i128) == rank_product(score as int, life as int)
            && i128::MIN < (life as int) * (10 + score as int) < i128::MAX) by (nonlinear_arith)
            requires
                i32::MIN <= life <= i32::MAX,
                0 <= score <= u32::MAX,
        ;
        let p: i128 = (life as i128) * (10 + score as i128);
        if p < 120 {
            Rank::F
        } else if p < 180 {
            Rank::D
        } else if p < 216 {
            Rank::C
        } else if p < 240 {
            Rank::B
        } else if p < 288 {
            Rank::A
        } else if p < 336 {
            Rank::S
        } else if p < 360 {
            Rank::SS
        } else {
            Rank::SSPlus
        }
    }
}

impl Rank {
    /// The grade's display text.
    pub fn label(&self) -> (s: &'static str)
        ensures
            s@ == label_spec(*self),
    {
        proof {
            reveal_strlit("-");
            reveal_strlit("F");
            reveal_strlit("D");
            reveal_strlit("C");
            reveal_strlit("B");
            reveal_strlit("A");
            reveal_strlit("S");
            reveal_strlit("SS");
            reveal_strlit("SS+");
        }
        match self {
            Rank::Untouched => "-",
            Rank::F => "F",
            Rank::D => "D",
            Rank::C => "C",
            Rank::B => "B",
            Rank::A => "A",
            Rank::S => "S",
            Rank::SS => "SS",
            Rank::SSPlus => "SS+",
        }
    }
}

/// The display text of each grade.
pub open spec fn label_spec(r: Rank) -> Seq<char> {
    match r {
        Rank::Untouched => seq!['-'],
        Rank::F => seq!['F'],
        Rank::D => seq!['D'],
        Rank::C => seq!['C'],
        Rank::B => seq!['B'],
        Rank::A => seq!['A'],
        Rank::S => seq!['S'],
        Rank::SS => seq!['S', 'S'],
        Rank::SSPlus => seq!['S', 'S', '+'],
    }
}

/// Grades never get worse as the product grows.
proof fn lemma_rank_of_product_monotone(p1: int, p2: int)
    requires
        p1 <= p2,
    ensures
        rank_level(rank_of_product(p1)) <= rank_level(rank_of_product(p2)),
{
}

/// For a fixed life, the grade is non-decreasing in the score.  The untouched
/// run (score 0 at full life) is graded with the dash, outside the order, so
/// it is left out here.
pub proof fn lemma_rank_monotone_in_score(s1: int, s2: int, life: int)
    requires
        0 <= s1 <= s2,
        !(s1 == 0 && life == PLAYER_LIFE as int),
    ensures
        rank_level(rank_spec(s1, life)) <= rank_level(rank_spec(s2, life)),
{
    if life >= 0 {
        assert(rank_product(s1, life) <= rank_product(s2, life)) by (nonlinear_arith)
            requires
                0 <= s1 <= s2,
                life >= 0,
        ;
        lemma_rank_of_product_monotone(rank_product(s1, life), rank_product(s2, life));
    } else {
        assert(rank_product(s1, life) < 0) by (nonlinear_arith)
            requires
                s1 >= 0,
                life < 0,
        ;
        assert(rank_product(s2, life) < 0) by (nonlinear_arith)
            requires
                s2 >= 0,
                life < 0,
        ;
    }
}

/// For a fixed score, the grade is non-decreasing in the life left.  The
/// untouched run is left out as above.
pub proof fn lemma_rank_monotone_in_life(score: int, l1: int, l2: int)
    requires
        score >= 0,
        l1 <= l2,
        !(score == 0 && l1 == PLAYER_LIFE as int),
        !(score == 0 && l2 == PLAYER_LIFE as int),
    ensures
        rank_level(rank_spec(score, l1)) <= rank_level(rank_spec(score, l2)),
{
    assert(rank_product(score, l1) <= rank_product(score, l2)) by (nonlinear_arith)
        requires
            score >= 0,
            l1 <= l2,
    ;
    lemma_rank_of_product_monotone(rank_product(score, l1), rank_product(score, l2));
}

} // verus!
