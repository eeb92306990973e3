use twitch_collector::models::{Message, ModelError, MsgType, NewMessage, Tier, Timestamp};

#[test]
fn msg_type_column_text() {
    assert_eq!(MsgType::Message.to_sql(), "message");
    assert_eq!(MsgType::Action.to_sql(), "action");
    assert_eq!(MsgType::Bits.to_sql(), "bits");
    assert_eq!(MsgType::Sub.to_sql(), "sub");
}

#[test]
fn msg_type_reads_back_its_column() {
    for t in [MsgType::Message, MsgType::Action, MsgType::Bits, MsgType::Sub] {
        let text = t.to_sql();
        assert_eq!(MsgType::from_sql(Some(text.as_bytes())), Ok(t));
    }
}

#[test]
fn msg_type_rejects_unknown_and_missing_bytes() {
    assert_eq!(MsgType::from_sql(None), Err(ModelError::NoBytes));
    assert_eq!(MsgType::from_sql(Some(b"messages")), Err(ModelError::UnknownMsgType));
    assert_eq!(MsgType::from_sql(Some(b"")), Err(ModelError::UnknownMsgType));
    assert_eq!(MsgType::from_sql(Some(b"Sub")), Err(ModelError::UnknownMsgType));
}

#[test]
fn tier_plan_codes() {
    assert_eq!(Tier::try_from("Prime"), Ok(Tier::Prime));
    assert_eq!(Tier::try_from("1000"), Ok(Tier::One));
    assert_eq!(Tier::try_from("2000"), Ok(Tier::Two));
    assert_eq!(Tier::try_from("3000"), Ok(Tier::Three));
    assert_eq!(
        Tier::try_from("4000"),
        Err(ModelError::UnknownTier("4000".to_string()))
    );
    assert_eq!(Tier::try_from(""), Err(ModelError::UnknownTier(String::new())));
}

#[test]
fn tier_numbers() {
    assert_eq!(Tier::Prime.to_sql(), 0);
    assert_eq!(Tier::One.to_sql(), 1);
    assert_eq!(Tier::Two.to_sql(), 2);
    assert_eq!(Tier::Three.to_sql(), 3);
    assert_eq!(Tier::from_repr(2), Some(Tier::Two));
    assert_eq!(Tier::from_repr(4), None);
    assert_eq!(Tier::from_repr(-1), None);
}

#[test]
fn tier_reads_big_endian_column() {
    assert_eq!(Tier::from_sql(Some(&[0, 2])), Ok(Tier::Two));
    assert_eq!(Tier::from_sql(Some(&[0, 3, 9])), Ok(Tier::Three));
    assert_eq!(Tier::from_sql(Some(&[0, 0])), Ok(Tier::Prime));
    // little-endian reading would give 512, big-endian gives 2
    assert_eq!(Tier::from_sql(Some(&[2, 0])), Err(ModelError::TierOutOfRange(512)));
    assert_eq!(Tier::from_sql(Some(&[255, 255])), Err(ModelError::TierOutOfRange(-1)));
    assert_eq!(Tier::from_sql(Some(&[1])), Err(ModelError::TooShort));
    assert_eq!(Tier::from_sql(None), Err(ModelError::NoBytes));
}

#[test]
fn new_message_from_stored_message() {
    let m = Message {
        id: 7,
        uuid: 99,
        msg: "hi".to_string(),
        msg_type: MsgType::Bits,
        user_id: 2,
        channel_id: 3,
        resub_id: None,
        send_time: Timestamp { millis: 1000 },
        bits: Some(50),
    };
    let n = NewMessage::from(m);
    assert_eq!(n.msg, "hi");
    assert_eq!(n.msg_type, MsgType::Bits);
    assert_eq!(n.user_id, 2);
    assert_eq!(n.channel_id, 3);
    assert_eq!(n.resub_id, None);
    assert_eq!(n.send_time, Timestamp { millis: 1000 });
    assert_eq!(n.bits, Some(50));
}
