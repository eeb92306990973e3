use twitch_collector::channels::create_channel_if_not_exists;
use twitch_collector::classify::{
    classify, get_msg_type_from_privmsg, PrivmsgMessage, Sender, ServerMessage, UserNoticeEvent,
    UserNoticeMessage,
};
use twitch_collector::db::Database;
use twitch_collector::models::{ModelError, MsgType, Tier, Timestamp};
use twitch_collector::watcher::{handle_message, handle_priv_msg, handle_user_notice, HandleError};

fn sender(id: &str, login: &str) -> Sender {
    Sender { id: id.to_string(), login: login.to_string(), name: login.to_uppercase() }
}

fn privmsg(channel: &str, text: &str, is_action: bool, bits: Option<u64>, who: Sender) -> PrivmsgMessage {
    PrivmsgMessage {
        channel_id: channel.to_string(),
        message_text: text.to_string(),
        is_action,
        bits,
        server_timestamp: Timestamp { millis: 1_650_000_000_000 },
        sender: who,
    }
}

fn resub(is_resub: bool, plan: &str, months: u64, text: Option<&str>) -> UserNoticeMessage {
    UserNoticeMessage {
        channel_id: "C1".to_string(),
        message_text: text.map(|t| t.to_string()),
        event: UserNoticeEvent::SubOrResub {
            is_resub,
            cumulative_months: months,
            sub_plan: plan.to_string(),
        },
        server_timestamp: Timestamp { millis: 42 },
        sender: sender("U1", "alice"),
    }
}

fn onboarded() -> Database {
    let mut db = Database::new();
    create_channel_if_not_exists(&mut db, "C1".to_string(), "chan".to_string()).unwrap();
    db
}

#[test]
fn bits_take_priority_over_action() {
    let who = sender("U1", "alice");
    assert_eq!(get_msg_type_from_privmsg(&privmsg("C1", "x", true, Some(100), who.clone())), MsgType::Bits);
    assert_eq!(get_msg_type_from_privmsg(&privmsg("C1", "x", false, Some(1), who.clone())), MsgType::Bits);
    assert_eq!(get_msg_type_from_privmsg(&privmsg("C1", "x", true, None, who.clone())), MsgType::Action);
    assert_eq!(get_msg_type_from_privmsg(&privmsg("C1", "x", false, None, who)), MsgType::Message);
}

#[test]
fn fresh_sub_is_ignored() {
    let mut db = onboarded();
    let r = handle_user_notice(&mut db, resub(false, "1000", 1, Some("hi")));
    assert!(matches!(r, Ok(false)));
    assert!(db.messages.is_empty());
    assert!(db.resubs.is_empty());
    assert!(db.users.is_empty());
    let c = classify(ServerMessage::UserNotice(resub(false, "bogus", 1, Some("hi"))));
    assert!(matches!(c, Ok(None)));
}

#[test]
fn other_events_are_ignored() {
    let mut db = onboarded();
    assert!(matches!(handle_message(&mut db, ServerMessage::Other), Ok(false)));
    let mut notice = resub(true, "1000", 1, Some("hi"));
    notice.event = UserNoticeEvent::Other;
    assert!(matches!(handle_message(&mut db, ServerMessage::UserNotice(notice)), Ok(false)));
    assert!(db.messages.is_empty());
}

#[test]
fn resub_without_text_is_recorded_with_empty_body() {
    let mut db = onboarded();
    let r = handle_user_notice(&mut db, resub(true, "1000", 3, None));
    assert!(matches!(r, Ok(true)));
    assert_eq!(db.messages.len(), 1);
    assert_eq!(db.messages[0].msg, "");
    assert_eq!(db.messages[0].msg_type, MsgType::Sub);
    assert_eq!(db.resubs[0].tier, Tier::One);
    assert_eq!(db.resubs[0].cumulative_month, 3);
}

#[test]
fn large_month_count_saturates() {
    let mut db = onboarded();
    handle_user_notice(&mut db, resub(true, "Prime", 40_000, Some("long"))).unwrap();
    assert_eq!(db.resubs[0].cumulative_month, i16::MAX);
    assert_eq!(db.resubs[0].tier, Tier::Prime);
}

#[test]
fn scenario_standard_message() {
    let mut db = onboarded();
    let r = handle_message(
        &mut db,
        ServerMessage::Privmsg(privmsg("C1", "hello", false, None, sender("U1", "alice"))),
    );
    assert!(matches!(r, Ok(true)));
    assert_eq!(db.users.len(), 1);
    assert_eq!(db.users[0].username, "alice");
    assert_eq!(db.users[0].twitch_user_id, "U1");
    assert_eq!(db.messages.len(), 1);
    let m = &db.messages[0];
    assert_eq!(m.msg_type, MsgType::Message);
    assert_eq!(m.msg, "hello");
    assert_eq!(m.bits, None);
    assert_eq!(m.resub_id, None);
    assert_eq!(m.user_id, db.users[0].id);
    assert_eq!(m.channel_id, db.channels[0].id);
    assert_eq!(m.send_time, Timestamp { millis: 1_650_000_000_000 });
}

#[test]
fn scenario_bits_message() {
    let mut db = onboarded();
    handle_priv_msg(&mut db, privmsg("C1", "hi", false, None, sender("U1", "alice"))).unwrap();
    let r = handle_priv_msg(&mut db, privmsg("C1", "cheer100", false, Some(100), sender("U1", "alice")));
    assert!(matches!(r, Ok(true)));
    assert_eq!(db.users.len(), 1);
    let m = &db.messages[1];
    assert_eq!(m.msg_type, MsgType::Bits);
    assert_eq!(m.bits, Some(100));
    assert_eq!(m.user_id, db.users[0].id);
}

#[test]
fn scenario_resub() {
    let mut db = onboarded();
    let r = handle_message(&mut db, ServerMessage::UserNotice(resub(true, "2000", 5, Some("thanks!"))));
    assert!(matches!(r, Ok(true)));
    assert_eq!(db.resubs.len(), 1);
    assert_eq!(db.resubs[0].tier, Tier::Two);
    assert_eq!(db.resubs[0].cumulative_month, 5);
    assert_eq!(db.messages.len(), 1);
    assert_eq!(db.messages[0].msg_type, MsgType::Sub);
    assert_eq!(db.messages[0].msg, "thanks!");
    assert_eq!(db.messages[0].resub_id, Some(db.resubs[0].id));
    assert_eq!(db.messages[0].send_time, Timestamp { millis: 42 });
}

#[test]
fn scenario_rename() {
    let mut db = onboarded();
    handle_priv_msg(&mut db, privmsg("C1", "one", false, None, sender("U1", "alice"))).unwrap();
    let before = db.users[0].id;
    handle_priv_msg(&mut db, privmsg("C1", "two", false, None, sender("U1", "alicia"))).unwrap();
    assert_eq!(db.users.len(), 1);
    assert_eq!(db.users_old_names.len(), 1);
    assert_eq!(db.users_old_names[0].username, "alice");
    assert_eq!(db.users_old_names[0].user_id, before);
    assert_eq!(db.users_old_names[0].first_time_with_new_name, Timestamp { millis: 1_650_000_000_000 });
    assert_eq!(db.users[0].username, "alicia");
    assert_eq!(db.messages[1].user_id, before);
}

#[test]
fn unknown_tier_is_a_classification_error() {
    let mut db = onboarded();
    let r = handle_message(&mut db, ServerMessage::UserNotice(resub(true, "9000", 5, Some("x"))));
    match r {
        Err(HandleError::Classification(ModelError::UnknownTier(plan))) => assert_eq!(plan, "9000"),
        other => panic!("unexpected {:?}", other),
    }
    assert!(db.messages.is_empty());
    assert!(db.resubs.is_empty());
}

#[test]
fn unknown_channel_writes_nothing() {
    let mut db = onboarded();
    let r = handle_message(
        &mut db,
        ServerMessage::Privmsg(privmsg("C9", "hello", false, None, sender("U1", "alice"))),
    );
    assert!(matches!(r, Err(HandleError::UnknownChannel)));
    assert!(db.users.is_empty());
    assert!(db.messages.is_empty());
}

#[test]
fn large_bits_amount_saturates() {
    let mut db = onboarded();
    handle_priv_msg(&mut db, privmsg("C1", "big", false, Some(u64::MAX), sender("U1", "alice"))).unwrap();
    assert_eq!(db.messages[0].bits, Some(i64::MAX));
}
