//! Parsed chat-protocol events and their classification into the events
//! that are recorded.
use crate::models::{tier_of_plan, ModelError, MsgType, NewResub, Tier, Timestamp};
use vstd::prelude::*;

verus! {

/// Who sent an event: external id, login name and display name.
#[derive(Debug, Clone)]
pub struct Sender {
    pub id: String,
    pub login: String,
    pub name: String,
}

/// A standard chat message.
#[derive(Debug, Clone)]
pub struct PrivmsgMessage {
    pub channel_id: String,
    pub message_text: String,
    pub is_action: bool,
    pub bits: Option<u64>,
    pub server_timestamp: Timestamp,
    pub sender: Sender,
}

/// What a user notice announces.
#[derive(Debug, Clone)]
pub enum UserNoticeEvent {
    /// A subscription, or a renewed one when `is_resub` is set.
    SubOrResub { is_resub: bool, cumulative_months: u64, sub_plan: String },
    /// Anything else (raids, gifts, ...).
    Other,
}

/// A user notice.
#[derive(Debug, Clone)]
pub struct UserNoticeMessage {
    pub channel_id: String,
    pub message_text: Option<String>,
    pub event: UserNoticeEvent,
    pub server_timestamp: Timestamp,
    pub sender: Sender,
}

/// One event of the chat feed.
#[derive(Debug, Clone)]
pub enum ServerMessage {
    Privmsg(PrivmsgMessage),
    UserNotice(UserNoticeMessage),
    /// Any other protocol category.
    Other,
}

/// An event to record: what the message recorder needs of it.
#[derive(Debug, Clone)]
pub struct ChatEvent {
    pub kind: MsgType,
    pub channel_id: String,
    pub text: String,
    pub send_time: Timestamp,
    pub bits: Option<i64>,
    pub resub: Option<NewResub>,
    pub sender: Sender,
}

/// The kind of a standard message: a bits amount decides first, then the
/// action marker.
pub open spec fn msg_type_of(is_action: bool, bits: Option<u64>) -> MsgType {
    if bits is Some {
        MsgType::Bits
    } else if is_action {
        MsgType::Action
    } else {
        MsgType::Message
    }
}

/// The bits column of a standard message: the amount, capped at the
/// column's largest value.
pub open spec fn bits_column(bits: Option<u64>) -> Option<i64> {
    match bits {
        Some(b) => Some(if b > i64::MAX as u64 { i64::MAX } else { b as i64 }),
        None => None,
    }
}

/// The cumulative-month column of a resub: the count, capped at the
/// column's largest value.
pub open spec fn months_column(months: u64) -> i16 {
    if months > i16::MAX as u64 {
        i16::MAX
    } else {
        months as i16
    }
}

/// What the recorder reads of a classified event.
pub struct EventView {
    pub kind: MsgType,
    pub channel_id: Seq<char>,
    pub text: Seq<char>,
    pub send_time: Timestamp,
    pub bits: Option<i64>,
    pub resub: Option<NewResub>,
    pub sender_id: Seq<char>,
    pub sender_login: Seq<char>,
    pub sender_name: Seq<char>,
}

impl View for ChatEvent {
    type V = EventView;

    open spec fn view(&self) -> EventView {
        EventView {
            kind: self.kind,
            channel_id: self.channel_id@,
            text: self.text@,
            send_time: self.send_time,
            bits: self.bits,
            resub: self.resub,
            sender_id: self.sender.id@,
            sender_login: self.sender.login@,
            sender_name: self.sender.name@,
        }
    }
}

/// A classification result, with the event seen through its view.
pub open spec fn classification_view(r: Result<Option<ChatEvent>, ModelError>) -> Result<
    Option<EventView>,
    ModelError,
> {
    match r {
        Ok(Some(ev)) => Ok(Some(ev@)),
        Ok(None) => Ok(None),
        Err(e) => Err(e),
    }
}

/// The event that a standard message is recorded as.
pub open spec fn privmsg_event(m: PrivmsgMessage) -> EventView {
    EventView {
        kind: msg_type_of(m.is_action, m.bits),
        channel_id: m.channel_id@,
        text: m.message_text@,
        send_time: m.server_timestamp,
        bits: bits_column(m.bits),
        resub: None,
        sender_id: m.sender.id@,
        sender_login: m.sender.login@,
        sender_name: m.sender.name@,
    }
}

/// What a user notice classifies as: a resub with a known plan is recorded
/// (with an empty body when it carries no text), an unknown plan is an
/// error, anything else is ignored.
pub open spec fn user_notice_event(n: UserNoticeMessage) -> Result<Option<EventView>, ModelError> {
    match n.event {
        UserNoticeEvent::SubOrResub { is_resub, cumulative_months, sub_plan } => {
            if !is_resub {
                Ok(None)
            } else {
                match tier_of_plan(sub_plan@) {
                    None => Err(ModelError::UnknownTier(sub_plan)),
                    Some(tier) => Ok(
                        Some(
                            EventView {
                                kind: MsgType::Sub,
                                channel_id: n.channel_id@,
                                text: match n.message_text {
                                    Some(t) => t@,
                                    None => Seq::<char>::empty(),
                                },
                                send_time: n.server_timestamp,
                                bits: None,
                                resub: Some(
                                    NewResub {
                                        cumulative_month: months_column(cumulative_months),
                                        tier,
                                    },
                                ),
                                sender_id: n.sender.id@,
                                sender_login: n.sender.login@,
                                sender_name: n.sender.name@,
                            },
                        ),
                    ),
                }
            }
        },
        UserNoticeEvent::Other => Ok(None),
    }
}

/// What an event of the feed classifies as (`Ok(None)`: ignored).
pub open spec fn classified(m: ServerMessage) -> Result<Option<EventView>, ModelError> {
    match m {
        ServerMessage::Privmsg(p) => Ok(Some(privmsg_event(p))),
        ServerMessage::UserNotice(n) => user_notice_event(n),
        ServerMessage::Other => Ok(None),
    }
}

/// The kind of a standard message.
pub fn get_msg_type_from_privmsg(msg: &PrivmsgMessage) -> (r: MsgType)
    ensures
        r == msg_type_of(msg.is_action, msg.bits),
        msg.bits matches Some(b) && b > 0 ==> r == MsgType::Bits,
        msg.bits is None && msg.is_action ==> r == MsgType::Action,
{
    if msg.bits.is_some() {
        return MsgType::Bits;
    }
    if msg.is_action {
        return MsgType::Action;
    }
    MsgType::Message
}

/// Classifies a standard message; it is always recorded.
pub fn classify_privmsg(msg: PrivmsgMessage) -> (r: ChatEvent)
    ensures
        r@ == privmsg_event(msg),
{
    let kind = get_msg_type_from_privmsg(&msg);
    let bits = match msg.bits {
        Some(b) => Some(
            if b > i64::MAX as u64 {
                i64::MAX
            } else {
                b as i64
            },
        ),
        None => None,
    };
    ChatEvent {
        kind,
        channel_id: msg.channel_id,
        text: msg.message_text,
        send_time: msg.server_timestamp,
        bits,
        resub: None,
        sender: msg.sender,
    }
}

/// Classifies a user notice.
pub fn classify_user_notice(notice: UserNoticeMessage) -> (r: Result<Option<ChatEvent>, ModelError>)
    ensures
        classification_view(r) == user_notice_event(notice),
        notice.event matches UserNoticeEvent::SubOrResub { is_resub, .. } && !is_resub ==> r
            == Ok::<Option<ChatEvent>, ModelError>(None),
{
    match notice.event {
        UserNoticeEvent::SubOrResub { is_resub, cumulative_months, sub_plan } => {
            if !is_resub {
                return Ok(None);
            }
            let text = match notice.message_text {
                Some(t) => t,
                None => String::new(),
            };
            let months = if cumulative_months > i16::MAX as u64 {
                i16::MAX
            } else {
                cumulative_months as i16
            };
            let tier = match Tier::try_from(sub_plan.as_str()) {
                Ok(t) => t,
                Err(_) => return Err(ModelError::UnknownTier(sub_plan)),
            };
            Ok(
                Some(
                    ChatEvent {
                        kind: MsgType::Sub,
                        channel_id: notice.channel_id,
                        text,
                        send_time: notice.server_timestamp,
                        bits: None,
                        resub: Some(
                            NewResub { cumulative_month: months, tier },
                        ),
                        sender: notice.sender,
                    },
                ),
            )
        },
        UserNoticeEvent::Other => Ok(None),
    }
}

/// Classifies an event of the feed (`Ok(None)`: ignored).
pub fn classify(message: ServerMessage) -> (r: Result<Option<ChatEvent>, ModelError>)
    ensures
        classification_view(r) == classified(message),
{
    match message {
        ServerMessage::Privmsg(p) => Ok(Some(classify_privmsg(p))),
        ServerMessage::UserNotice(n) => classify_user_notice(n),
        ServerMessage::Other => Ok(None),
    }
}

} // verus!
