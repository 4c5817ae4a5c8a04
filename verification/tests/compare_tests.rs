use scoretrack::compare::compare_data;
use scoretrack::compare::Changes;
use scoretrack::player::PlayerData;
use scoretrack::player::ScoreStats;

fn zero_changes() -> Changes {
    Changes {
        pp: false,
        pp_change: 0,
        rAccuracy: false,
        rAccuracy_change: 0,
        rank: false,
        rank_change: 0,
        cRank: false,
        cRank_change: 0,
        tScore: false,
        tScore_change: 0,
        rScore: false,
        rScore_change: 0,
        tCount: false,
        tCount_change: 0,
        rCount: false,
        rCount_change: 0,
        replays: false,
        replays_change: 0,
    }
}

fn snapshot() -> PlayerData {
    PlayerData {
        id: String::from("76561198"),
        name: String::from("SomePlayer"),
        profilePicture: String::from("https://example.com/a.png"),
        country: String::from("US"),
        pp: 123450000,
        rank: 50,
        countryRank: 10,
        histories: String::from("50,49,50"),
        banned: false,
        inactive: false,
        scoreStats: ScoreStats {
            totalScore: 1000,
            totalRankedScore: 500,
            averageRankedAccuracy: 921234,
            totalPlayCount: 100,
            rankedPlayCount: 50,
            replaysWatched: 5,
        },
        firstSeen: String::from("2020-01-02T10:30:00.000Z"),
    }
}

#[test]
fn identical_snapshots_zero_delta() {
    let a = snapshot();
    let b = snapshot();
    assert_eq!(compare_data(&a, &b), zero_changes());
}

#[test]
fn total_score_only_change() {
    let old = snapshot();
    let mut new = snapshot();
    new.scoreStats.totalScore = old.scoreStats.totalScore + 250;
    let mut expected = zero_changes();
    expected.tScore = true;
    expected.tScore_change = 250;
    assert_eq!(compare_data(&new, &old), expected);
}

#[test]
fn excluded_fields_do_not_affect_delta() {
    let old = snapshot();
    let mut new = snapshot();
    new.id = String::from("different-id");
    new.name = String::from("Renamed");
    new.country = String::from("DE");
    new.profilePicture = String::from("https://example.com/b.png");
    new.histories = String::from("1,2,3");
    new.banned = true;
    new.inactive = true;
    new.firstSeen = String::from("2024-06-01T00:00:00.000Z");
    assert_eq!(compare_data(&new, &old), zero_changes());
}

#[test]
fn delta_antisymmetric_in_sign() {
    let a = snapshot();
    let mut b = snapshot();
    b.pp = a.pp + 77;
    b.rank = a.rank - 3;
    b.countryRank = a.countryRank + 2;
    b.scoreStats.totalScore = a.scoreStats.totalScore + 999;
    b.scoreStats.totalRankedScore = a.scoreStats.totalRankedScore - 4;
    b.scoreStats.averageRankedAccuracy = a.scoreStats.averageRankedAccuracy + 5000;
    b.scoreStats.totalPlayCount = a.scoreStats.totalPlayCount + 1;
    b.scoreStats.rankedPlayCount = a.scoreStats.rankedPlayCount + 1;
    b.scoreStats.replaysWatched = a.scoreStats.replaysWatched + 8;
    let fwd = compare_data(&b, &a);
    let back = compare_data(&a, &b);
    assert_eq!(fwd.pp, back.pp);
    assert_eq!(fwd.pp_change, -back.pp_change);
    assert_eq!(fwd.rAccuracy, back.rAccuracy);
    assert_eq!(fwd.rAccuracy_change, -back.rAccuracy_change);
    assert_eq!(fwd.rank, back.rank);
    assert_eq!(fwd.rank_change, -back.rank_change);
    assert_eq!(fwd.cRank, back.cRank);
    assert_eq!(fwd.cRank_change, -back.cRank_change);
    assert_eq!(fwd.tScore, back.tScore);
    assert_eq!(fwd.tScore_change, -back.tScore_change);
    assert_eq!(fwd.rScore, back.rScore);
    assert_eq!(fwd.rScore_change, -back.rScore_change);
    assert_eq!(fwd.tCount, back.tCount);
    assert_eq!(fwd.tCount_change, -back.tCount_change);
    assert_eq!(fwd.rCount, back.rCount);
    assert_eq!(fwd.rCount_change, -back.rCount_change);
    assert_eq!(fwd.replays, back.replays);
    assert_eq!(fwd.replays_change, -back.replays_change);
}

#[test]
fn tracked_scenario_delta() {
    let mut prev = snapshot();
    prev.scoreStats.totalScore = 1000;
    prev.rank = 50;
    prev.scoreStats.averageRankedAccuracy = 921234;
    let mut curr = snapshot();
    curr.scoreStats.totalScore = 1250;
    curr.rank = 48;
    curr.scoreStats.averageRankedAccuracy = 925000;
    let d = compare_data(&curr, &prev);
    assert!(d.tScore);
    assert_eq!(d.tScore_change, 250);
    assert!(d.rank);
    assert_eq!(d.rank_change, -2);
    assert!(d.rAccuracy);
    assert_eq!(d.rAccuracy_change, 3766);
    assert!(!d.pp);
    assert!(!d.cRank);
    assert!(!d.rScore);
    assert!(!d.tCount);
    assert!(!d.rCount);
    assert!(!d.replays);
}
