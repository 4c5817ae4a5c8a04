use scoretrack::command::handle_command;
use scoretrack::command::Command;
use scoretrack::command::CommandAction;
use scoretrack::search::find_player_id;
use scoretrack::search::PlayerInfo;
use scoretrack::search::PlayersData;
use scoretrack::track::Status;
use scoretrack::track::TrackError;
use scoretrack::track::Tracker;

#[test]
fn help_action() {
    let mut t = Tracker::new();
    let r = handle_command(&mut t, 1, Command::Help, None, None, None);
    assert!(matches!(r, CommandAction::ShowHelp));
}

#[test]
fn unlink_action() {
    let mut t = Tracker::new();
    let r = handle_command(&mut t, 1, Command::Unlink, None, None, None);
    assert!(matches!(r, CommandAction::UnlinkAccount));
}

#[test]
fn stats_explicit_target() {
    let mut t = Tracker::new();
    let r = handle_command(&mut t, 1, Command::Stats, Some(String::from("76561198")), None, None);
    match r {
        CommandAction::ShowStats { player_id } => assert_eq!(player_id, "76561198"),
        _ => panic!("stats with a target must show stats"),
    }
}

#[test]
fn stats_linked_fallback() {
    let mut t = Tracker::new();
    let r = handle_command(&mut t, 1, Command::Stats, None, None, Some(String::from("linked-id")));
    match r {
        CommandAction::ShowStats { player_id } => assert_eq!(player_id, "linked-id"),
        _ => panic!("stats for a linked caller must show stats"),
    }
}

#[test]
fn stats_explicit_target_beats_linked() {
    let mut t = Tracker::new();
    let r = handle_command(
        &mut t,
        1,
        Command::Stats,
        Some(String::from("explicit")),
        None,
        Some(String::from("linked-id")),
    );
    match r {
        CommandAction::ShowStats { player_id } => assert_eq!(player_id, "explicit"),
        _ => panic!("stats with a target must show stats"),
    }
}

#[test]
fn stats_without_target_rejected() {
    let mut t = Tracker::new();
    let r = handle_command(&mut t, 1, Command::Stats, None, None, None);
    assert!(matches!(r, CommandAction::Rejected(TrackError::InvalidArgument)));
}

#[test]
fn track_starts_session() {
    let mut t = Tracker::new();
    let r = handle_command(
        &mut t,
        9,
        Command::Track,
        Some(String::from("76561198")),
        Some(30),
        None,
    );
    match r {
        CommandAction::BeginTracking { player_id, interval } => {
            assert_eq!(player_id, "76561198");
            assert_eq!(interval, 30);
        },
        _ => panic!("a valid track request must begin tracking"),
    }
    assert_eq!(t.status(9), Status::Running);
}

#[test]
fn track_bad_interval_rejected() {
    let mut t = Tracker::new();
    let r = handle_command(
        &mut t,
        9,
        Command::Track,
        Some(String::from("76561198")),
        Some(2),
        None,
    );
    assert!(matches!(r, CommandAction::Rejected(TrackError::InvalidArgument)));
    assert_eq!(t.status(9), Status::Idle);
}

#[test]
fn track_missing_interval_rejected() {
    let mut t = Tracker::new();
    let r = handle_command(&mut t, 9, Command::Track, Some(String::from("76561198")), None, None);
    assert!(matches!(r, CommandAction::Rejected(TrackError::InvalidArgument)));
    assert_eq!(t.status(9), Status::Idle);
}

#[test]
fn untrack_stops_and_reports_noop_when_idle() {
    let mut t = Tracker::new();
    handle_command(&mut t, 9, Command::Track, Some(String::from("x")), Some(30), None);
    let stopped = handle_command(&mut t, 9, Command::Untrack, None, None, None);
    assert!(matches!(stopped, CommandAction::StopAck));
    assert_eq!(t.status(9), Status::Idle);
    let again = handle_command(&mut t, 9, Command::Untrack, None, None, None);
    assert!(matches!(again, CommandAction::NotTracking));
}

#[test]
fn link_requires_target() {
    let mut t = Tracker::new();
    let ok = handle_command(&mut t, 1, Command::Link, Some(String::from("76561198")), None, None);
    match ok {
        CommandAction::LinkAccount { player_id } => assert_eq!(player_id, "76561198"),
        _ => panic!("link with a target must link"),
    }
    let bad = handle_command(&mut t, 1, Command::Link, None, None, None);
    assert!(matches!(bad, CommandAction::Rejected(TrackError::InvalidArgument)));
}

#[test]
fn id_search_action() {
    let mut t = Tracker::new();
    let r = handle_command(&mut t, 1, Command::Id, Some(String::from("SomePlayer")), None, None);
    match r {
        CommandAction::SearchId { name } => assert_eq!(name, "SomePlayer"),
        _ => panic!("id with a name must search"),
    }
}

#[test]
fn find_player_ignores_case() {
    let data = PlayersData {
        players: vec![
            PlayerInfo { id: String::from("111"), name: String::from("Other") },
            PlayerInfo { id: String::from("123"), name: String::from("ColGuy20") },
        ],
    };
    assert_eq!(find_player_id(&data, "colguy20"), Some(String::from("123")));
    assert_eq!(find_player_id(&data, "OTHER"), Some(String::from("111")));
}

#[test]
fn find_player_first_match_wins() {
    let data = PlayersData {
        players: vec![
            PlayerInfo { id: String::from("1"), name: String::from("Twin") },
            PlayerInfo { id: String::from("2"), name: String::from("TWIN") },
        ],
    };
    assert_eq!(find_player_id(&data, "twin"), Some(String::from("1")));
}

#[test]
fn find_player_no_match() {
    let data = PlayersData {
        players: vec![PlayerInfo { id: String::from("1"), name: String::from("Solo") }],
    };
    assert_eq!(find_player_id(&data, "missing"), None);
    let empty = PlayersData { players: vec![] };
    assert_eq!(find_player_id(&empty, "anyone"), None);
}
