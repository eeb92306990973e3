use twitch_collector::db::Database;
use twitch_collector::watcher::{Action, Phase, RunError, Startup, StartupEvent};

fn names(list: &[&str]) -> Vec<String> {
    list.iter().map(|s| s.to_string()).collect()
}

#[test]
fn onboarding_in_order_then_join_then_stream() {
    let mut db = Database::new();
    let mut s = Startup::new(names(&["first", "second"]));
    assert!(matches!(s.next_action(), Action::RequestToken));
    s.step(&mut db, StartupEvent::TokenAcquired);
    match s.next_action() {
        Action::LookupChannel(n) => assert_eq!(n, "first"),
        other => panic!("unexpected {:?}", other),
    }
    s.step(&mut db, StartupEvent::ChannelFound("C1".to_string()));
    match s.next_action() {
        Action::LookupChannel(n) => assert_eq!(n, "second"),
        other => panic!("unexpected {:?}", other),
    }
    s.step(&mut db, StartupEvent::ChannelFound("C2".to_string()));
    match s.next_action() {
        Action::JoinChannels(list) => assert_eq!(list, names(&["first", "second"])),
        other => panic!("unexpected {:?}", other),
    }
    assert_eq!(db.channels.len(), 2);
    assert_eq!(db.channels[0].twitch_channel_id, "C1");
    assert_eq!(db.channels[0].channel_name, "first");
    assert_eq!(s.onboarded.len(), 2);
    s.step(&mut db, StartupEvent::Joined);
    assert!(matches!(s.phase, Phase::Streaming));
    assert!(matches!(s.next_action(), Action::Consume));
    s.step(&mut db, StartupEvent::FeedEnded);
    assert!(matches!(s.next_action(), Action::Stop(RunError::HandleError)));
}

#[test]
fn unknown_channel_aborts_before_streaming() {
    let mut db = Database::new();
    let mut s = Startup::new(names(&["first", "missing", "third"]));
    s.step(&mut db, StartupEvent::TokenAcquired);
    s.step(&mut db, StartupEvent::ChannelFound("C1".to_string()));
    s.step(&mut db, StartupEvent::ChannelMissing);
    match &s.phase {
        Phase::Terminated(RunError::ChannelNotExists(n)) => assert_eq!(n, "missing"),
        other => panic!("unexpected {:?}", other),
    }
    // nothing moves it on, and nothing is joined
    s.step(&mut db, StartupEvent::Joined);
    s.step(&mut db, StartupEvent::ChannelFound("C3".to_string()));
    assert!(matches!(s.phase, Phase::Terminated(RunError::ChannelNotExists(_))));
    assert!(matches!(s.next_action(), Action::Stop(RunError::ChannelNotExists(_))));
    assert_eq!(db.channels.len(), 1);
}

#[test]
fn onboarding_known_channel_reuses_row() {
    let mut db = Database::new();
    let mut s = Startup::new(names(&["chan", "chan"]));
    s.step(&mut db, StartupEvent::TokenAcquired);
    s.step(&mut db, StartupEvent::ChannelFound("C1".to_string()));
    s.step(&mut db, StartupEvent::ChannelFound("C1".to_string()));
    assert_eq!(db.channels.len(), 1);
    assert_eq!(s.onboarded[0].id, s.onboarded[1].id);
    assert!(matches!(s.phase, Phase::Joining));
}

#[test]
fn startup_failures() {
    let mut db = Database::new();
    let mut s = Startup::new(names(&["a"]));
    s.step(&mut db, StartupEvent::TokenFailed);
    assert!(matches!(s.phase, Phase::Terminated(RunError::GetTokenError)));

    let mut s = Startup::new(names(&["a"]));
    s.step(&mut db, StartupEvent::TokenAcquired);
    s.step(&mut db, StartupEvent::ApiFailed);
    assert!(matches!(s.phase, Phase::Terminated(RunError::ApiError)));

    let mut s = Startup::new(names(&["a"]));
    s.step(&mut db, StartupEvent::TokenAcquired);
    s.step(&mut db, StartupEvent::PoolFailed);
    assert!(matches!(s.phase, Phase::Terminated(RunError::DbPoolError)));

    let mut s = Startup::new(Vec::new());
    s.step(&mut db, StartupEvent::TokenAcquired);
    assert!(matches!(s.phase, Phase::Joining));
}

#[test]
fn run_error_texts() {
    assert_eq!(RunError::HandleError.to_message(), "Unexpected Error!");
    assert_eq!(RunError::GetTokenError.to_message(), "Couldn't get token from twitch");
    assert_eq!(RunError::ApiError.to_message(), "Couldn't get info from twitch api");
    assert_eq!(
        RunError::ChannelNotExists("foo".to_string()).to_message(),
        "Couldn't find channel with name \"foo\""
    );
    assert_eq!(
        RunError::DbPoolError.to_message(),
        "Couldn't get connection to database from pool"
    );
    assert_eq!(RunError::DatabaseError.to_message(), "Database error");
}
