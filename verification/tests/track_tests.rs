use scoretrack::player::PlayerData;
use scoretrack::player::ScoreStats;
use scoretrack::track::FetchError;
use scoretrack::track::Status;
use scoretrack::track::TickOutcome;
use scoretrack::track::TrackError;
use scoretrack::track::Tracker;

fn snapshot(total_score: i64) -> PlayerData {
    PlayerData {
        id: String::from("76561198"),
        name: String::from("SomePlayer"),
        profilePicture: String::from("https://example.com/a.png"),
        country: String::from("US"),
        pp: 123450000,
        rank: 50,
        countryRank: 10,
        histories: String::from("50,49,50"),
        banned: false,
        inactive: false,
        scoreStats: ScoreStats {
            totalScore: total_score,
            totalRankedScore: 500,
            averageRankedAccuracy: 921234,
            totalPlayCount: 100,
            rankedPlayCount: 50,
            replaysWatched: 5,
        },
        firstSeen: String::from("2020-01-02T10:30:00.000Z"),
    }
}

#[test]
fn short_interval_rejected() {
    let mut t = Tracker::new();
    let r = t.start(1, String::from("76561198"), 4);
    assert_eq!(r, Err(TrackError::InvalidArgument));
    assert_eq!(t.status(1), Status::Idle);
    assert_eq!(t.success_count(1), 0);
}

#[test]
fn empty_target_rejected() {
    let mut t = Tracker::new();
    let r = t.start(1, String::new(), 60);
    assert_eq!(r, Err(TrackError::InvalidArgument));
    assert_eq!(t.status(1), Status::Idle);
}

#[test]
fn minimum_interval_accepted() {
    let mut t = Tracker::new();
    let r = t.start(1, String::from("76561198"), 5);
    assert_eq!(r, Ok(()));
    assert_eq!(t.status(1), Status::Running);
}

#[test]
fn status_transitions() {
    let mut t = Tracker::new();
    assert_eq!(t.status(7), Status::Idle);
    assert_eq!(t.start(7, String::from("76561198"), 300), Ok(()));
    assert_eq!(t.status(7), Status::Running);
    assert!(t.stop(7));
    assert_eq!(t.status(7), Status::Idle);
    assert!(!t.stop(7));
    assert_eq!(t.status(7), Status::Idle);
}

#[test]
fn tick_new_player() {
    let mut t = Tracker::new();
    t.start(1, String::from("76561198"), 30).unwrap();
    let out = t.process_tick(1, None, Ok(snapshot(1000)));
    match out {
        TickOutcome::Notify { data, changes, is_new } => {
            assert!(is_new);
            assert_eq!(data.scoreStats.totalScore, 1000);
            assert!(!changes.tScore);
            assert_eq!(changes.tScore_change, 0);
            assert!(!changes.pp && !changes.rank && !changes.cRank);
        },
        TickOutcome::Failed => panic!("tick with a fetched snapshot must notify"),
    }
    assert_eq!(t.success_count(1), 1);
    assert_eq!(t.status(1), Status::Running);
}

#[test]
fn tick_with_previous_snapshot() {
    let mut t = Tracker::new();
    t.start(1, String::from("76561198"), 30).unwrap();
    let out = t.process_tick(1, Some(snapshot(1000)), Ok(snapshot(1250)));
    match out {
        TickOutcome::Notify { changes, is_new, .. } => {
            assert!(!is_new);
            assert!(changes.tScore);
            assert_eq!(changes.tScore_change, 250);
        },
        TickOutcome::Failed => panic!("tick with a fetched snapshot must notify"),
    }
    let out2 = t.process_tick(1, Some(snapshot(1250)), Ok(snapshot(1250)));
    match out2 {
        TickOutcome::Notify { changes, is_new, .. } => {
            assert!(!is_new);
            assert!(!changes.tScore);
        },
        TickOutcome::Failed => panic!("tick with a fetched snapshot must notify"),
    }
    assert_eq!(t.success_count(1), 2);
}

#[test]
fn tick_fetch_failure_terminates_session() {
    let mut t = Tracker::new();
    t.start(1, String::from("76561198"), 30).unwrap();
    let out = t.process_tick(1, None, Err(FetchError::Transport));
    assert!(matches!(out, TickOutcome::Failed));
    assert_eq!(t.status(1), Status::Idle);
    assert!(!t.stop(1));
    assert_eq!(t.success_count(1), 0);
}

#[test]
fn tick_not_found_also_terminates() {
    let mut t = Tracker::new();
    t.start(4, String::from("unknown-id"), 30).unwrap();
    let out = t.process_tick(4, None, Err(FetchError::NotFound));
    assert!(matches!(out, TickOutcome::Failed));
    assert_eq!(t.status(4), Status::Idle);
}

#[test]
fn contexts_are_independent() {
    let mut t = Tracker::new();
    t.start(1, String::from("aaa"), 30).unwrap();
    t.start(2, String::from("bbb"), 60).unwrap();
    assert_eq!(t.status(1), Status::Running);
    assert_eq!(t.status(2), Status::Running);
    assert!(t.stop(1));
    assert_eq!(t.status(1), Status::Idle);
    assert_eq!(t.status(2), Status::Running);
}

#[test]
fn restart_resets_counter() {
    let mut t = Tracker::new();
    t.start(1, String::from("aaa"), 30).unwrap();
    t.process_tick(1, None, Ok(snapshot(1)));
    assert_eq!(t.success_count(1), 1);
    t.start(1, String::from("aaa"), 30).unwrap();
    assert_eq!(t.success_count(1), 0);
}
