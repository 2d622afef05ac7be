use pogin::rank::{get_rank, Rank};

#[test]
fn untouched_run_is_dash() {
    assert_eq!(get_rank(0, 12), Rank::Untouched);
    assert_eq!(get_rank(0, 12).label(), "-");
}

#[test]
fn half_life_no_score_is_f() {
    // 6 * (10 + 0) = 60 < 120
    assert_eq!(get_rank(0, 6), Rank::F);
    assert_eq!(get_rank(0, 6).label(), "F");
}

#[test]
fn dead_no_score_is_f() {
    assert_eq!(get_rank(0, 0), Rank::F);
}

#[test]
fn negative_life_is_f() {
    assert_eq!(get_rank(100, -3), Rank::F);
}

#[test]
fn high_score_full_life_is_ss_plus() {
    // 12 * (10 + 100) = 1320 >= 360
    assert_eq!(get_rank(100, 12), Rank::SSPlus);
    assert_eq!(get_rank(100, 12).label(), "SS+");
}

#[test]
fn one_point_full_life_is_d() {
    // 12 * 11 = 132 in [120, 180)
    assert_eq!(get_rank(1, 12), Rank::D);
}

#[test]
fn threshold_walk_at_full_life() {
    // products 120, 180, 216, 240, 288, 336, 360 divided by 12 give the
    // score+10 values 10, 15, 18, 20, 24, 28, 30
    assert_eq!(get_rank(0, 11), Rank::F);  // 110 < 120
    assert_eq!(get_rank(5, 12), Rank::C);  // 180 -> C bucket starts
    assert_eq!(get_rank(8, 12), Rank::B);  // 216
    assert_eq!(get_rank(10, 12), Rank::A);  // 240
    assert_eq!(get_rank(14, 12), Rank::S);  // 288
    assert_eq!(get_rank(18, 12), Rank::SS);  // 336
    assert_eq!(get_rank(20, 12), Rank::SSPlus);  // 360
}

#[test]
fn rank_monotone_in_score_samples() {
    // fixed life 6, rising score never lowers the grade
    let grades = [
        get_rank(0, 6),
        get_rank(10, 6),
        get_rank(20, 6),
        get_rank(26, 6),
        get_rank(38, 6),
        get_rank(46, 6),
        get_rank(50, 6),
        get_rank(100, 6),
    ];
    let levels: Vec<i32> = grades.iter().map(|g| level(*g)).collect();
    for w in levels.windows(2) {
        assert!(w[0] <= w[1]);
    }
}

#[test]
fn rank_monotone_in_life_samples() {
    // fixed score 9, rising life never lowers the grade
    let levels: Vec<i32> = (-2..=11).map(|l| level(get_rank(9, l))).collect();
    for w in levels.windows(2) {
        assert!(w[0] <= w[1]);
    }
}

fn level(r: Rank) -> i32 {
    match r {
        Rank::Untouched => -1,
        Rank::F => 0,
        Rank::D => 1,
        Rank::C => 2,
        Rank::B => 3,
        Rank::A => 4,
        Rank::S => 5,
        Rank::SS => 6,
        Rank::SSPlus => 7,
    }
}

#[test]
fn labels() {
    assert_eq!(get_rank(3, 12).label(), "D");  // 12 * 13 = 156 in [120, 180)
    assert_eq!(Rank::S.label(), "S");
    assert_eq!(Rank::SS.label(), "SS");
    assert_eq!(Rank::A.label(), "A");
    assert_eq!(Rank::B.label(), "B");
}
