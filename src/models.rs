//! Row types of the five tables and the closed enumerations stored in them.
use byteorder::ByteOrder;
use vstd::prelude::*;

verus! {

/// Why a stored column value could not be read back, or an upstream code
/// could not be mapped.
#[derive(Debug, Clone, PartialEq, Eq)]
pub enum ModelError {
    /// The column held no bytes at all.
    NoBytes,
    /// The bytes name no message kind.
    UnknownMsgType,
    /// Fewer than the two bytes of a small integer.
    TooShort,
    /// The stored tier number is outside the enumeration.
    TierOutOfRange(i16),
    /// The upstream plan code names no tier.
    UnknownTier(String),
}

/// A point in time, as milliseconds since the Unix epoch (UTC).
#[derive(Debug, Clone, Copy, PartialEq, Eq, Structural)]
pub struct Timestamp {
    pub millis: i64,
}

/// The kind of a stored chat message.
#[derive(Debug, Clone, Copy, PartialEq, Eq, Structural)]
pub enum MsgType {
    /// normal message
    Message,
    /// action message (`/me`)
    Action,
    /// message that carries bits
    Bits,
    /// resubscription message
    Sub,
}

/// The text under which a message kind is stored in its column.
pub open spec fn msg_type_text(t: MsgType) -> Seq<char> {
    match t {
        MsgType::Message => "message"@,
        MsgType::Action => "action"@,
        MsgType::Bits => "bits"@,
        MsgType::Sub => "sub"@,
    }
}

impl MsgType {
    /// The column text of this kind.
    pub fn to_sql(&self) -> (r: String)
        ensures
            r@ == msg_type_text(*self),
    {
        match self {
            MsgType::Message => String::from_str("message"),
            MsgType::Action => String::from_str("action"),
            MsgType::Bits => String::from_str("bits"),
            MsgType::Sub => String::from_str("sub"),
        }
    }
}

/// The column bytes of a message kind: the ASCII codes of its text.
pub open spec fn msg_type_bytes(t: MsgType) -> Seq<u8> {
    match t {
        MsgType::Message => seq![109u8, 101, 115, 115, 97, 103, 101],
        MsgType::Action => seq![97u8, 99, 116, 105, 111, 110],
        MsgType::Bits => seq![98u8, 105, 116, 115],
        MsgType::Sub => seq![115u8, 117, 98],
    }
}

/// Whether two byte slices hold the same bytes.
fn bytes_equal(a: &[u8], b: &[u8]) -> (r: bool)
    ensures
        r == (a@ == b@),
{
    if a.len() != b.len() {
        return false;
    }
    let mut i: usize = 0;
    while i < a.len()
        invariant
            a@.len() == b@.len(),
            0 <= i <= a@.len(),
            forall|j: int| 0 <= j < i ==> a@[j] == b@[j],
        decreases a@.len() - i,
    {
        if a[i] != b[i] {
            return false;
        }
        i = i + 1;
    }
    assert(a@ =~= b@);
    true
}

impl MsgType {
    /// Reads a message kind back from its column bytes.
    pub fn from_sql(bytes: Option<&[u8]>) -> (r: Result<MsgType, ModelError>)
        ensures
            bytes.is_none() ==> r == Err::<MsgType, ModelError>(ModelError::NoBytes),
            bytes.is_some() ==> match r {
                Ok(t) => msg_type_bytes(t) == bytes.unwrap()@,
                Err(e) => e == ModelError::UnknownMsgType && forall|t: MsgType|
                    msg_type_bytes(t) != bytes.unwrap()@,
            },
    {
        let bytes = match bytes {
            Some(b) => b,
            None => return Err(ModelError::NoBytes),
        };
        let message: [u8; 7] = [109, 101, 115, 115, 97, 103, 101];
        let action: [u8; 6] = [97, 99, 116, 105, 111, 110];
        let bits: [u8; 4] = [98, 105, 116, 115];
        let sub: [u8; 3] = [115, 117, 98];
        assert(message@ =~= msg_type_bytes(MsgType::Message));
        assert(action@ =~= msg_type_bytes(MsgType::Action));
        assert(bits@ =~= msg_type_bytes(MsgType::Bits));
        assert(sub@ =~= msg_type_bytes(MsgType::Sub));
        if bytes_equal(bytes, message.as_slice()) {
            Ok(MsgType::Message)
        } else if bytes_equal(bytes, action.as_slice()) {
            Ok(MsgType::Action)
        } else if bytes_equal(bytes, bits.as_slice()) {
            Ok(MsgType::Bits)
        } else if bytes_equal(bytes, sub.as_slice()) {
            Ok(MsgType::Sub)
        } else {
            Err(ModelError::UnknownMsgType)
        }
    }
}

/// Subscription level, in ascending order.
#[derive(Debug, Clone, Copy, PartialEq, Eq, Structural)]
pub enum Tier {
    Prime,
    One,
    Two,
    Three,
}

/// The number under which a tier is stored.
pub open spec fn tier_code(t: Tier) -> int {
    match t {
        Tier::Prime => 0,
        Tier::One => 1,
        Tier::Two => 2,
        Tier::Three => 3,
    }
}

/// The upstream plan code of a tier.
pub open spec fn tier_plan(t: Tier) -> Seq<char> {
    match t {
        Tier::Prime => "Prime"@,
        Tier::One => "1000"@,
        Tier::Two => "2000"@,
        Tier::Three => "3000"@,
    }
}

/// The tier that an upstream plan code names, if any.
pub open spec fn tier_of_plan(plan: Seq<char>) -> Option<Tier> {
    if plan == "Prime"@ {
        Some(Tier::Prime)
    } else if plan == "1000"@ {
        Some(Tier::One)
    } else if plan == "2000"@ {
        Some(Tier::Two)
    } else if plan == "3000"@ {
        Some(Tier::Three)
    } else {
        None
    }
}

/// The signed 16-bit integer that two bytes hold, most significant first.
pub open spec fn i16_from_be(hi: u8, lo: u8) -> int {
    let u = hi as int * 256 + lo as int;
    if u >= 32768 {
        u - 65536
    } else {
        u
    }
}

/// Relies on byteorder's `NetworkEndian::read_i16`: the first two bytes as a
/// big-endian signed integer (it panics on fewer than two).
#[verifier::external_body]
fn read_i16_network(buf: &[u8]) -> (r: i16)
    requires
        buf@.len() >= 2,
    ensures
        r as int == i16_from_be(buf@[0], buf@[1]),
{
    byteorder::NetworkEndian::read_i16(buf)
}

impl Tier {
    /// The number under which this tier is stored.
    pub fn to_sql(&self) -> (r: i16)
        ensures
            r as int == tier_code(*self),
    {
        match self {
            Tier::Prime => 0,
            Tier::One => 1,
            Tier::Two => 2,
            Tier::Three => 3,
        }
    }

    /// The tier stored under a number, if any.
    pub fn from_repr(code: i16) -> (r: Option<Tier>)
        ensures
            match r {
                Some(t) => tier_code(t) == code as int,
                None => !(0 <= code <= 3),
            },
    {
        match code {
            0 => Some(Tier::Prime),
            1 => Some(Tier::One),
            2 => Some(Tier::Two),
            3 => Some(Tier::Three),
            _ => None,
        }
    }

    /// Reads a tier back from its column bytes (a big-endian `i16`; bytes
    /// after the second are not read).
    pub fn from_sql(bytes: Option<&[u8]>) -> (r: Result<Tier, ModelError>)
        ensures
            match bytes {
                None => r == Err::<Tier, ModelError>(ModelError::NoBytes),
                Some(b) => if b@.len() < 2 {
                    r == Err::<Tier, ModelError>(ModelError::TooShort)
                } else {
                    let code = i16_from_be(b@[0], b@[1]);
                    match r {
                        Ok(t) => tier_code(t) == code,
                        Err(e) => !(0 <= code <= 3) && e == ModelError::TierOutOfRange(
                            code as i16,
                        ),
                    }
                },
            },
    {
        let bytes = match bytes {
            Some(b) => b,
            None => return Err(ModelError::NoBytes),
        };
        if bytes.len() < 2 {
            return Err(ModelError::TooShort);
        }
        let code = read_i16_network(bytes);
        match Tier::from_repr(code) {
            Some(t) => Ok(t),
            None => Err(ModelError::TierOutOfRange(code)),
        }
    }

    /// The tier that an upstream plan code names.
    pub fn try_from(value: &str) -> (r: Result<Tier, ModelError>)
        ensures
            match r {
                Ok(t) => tier_plan(t) == value@,
                Err(e) => (match e {
                    ModelError::UnknownTier(v) => v@ == value@,
                    _ => false,
                }) && forall|t: Tier| tier_plan(t) != value@,
            },
            match tier_of_plan(value@) {
                Some(t) => r == Ok::<Tier, ModelError>(t),
                None => r is Err,
            },
    {
        let v = value.to_owned();
        if v == String::from_str("Prime") {
            Ok(Tier::Prime)
        } else if v == String::from_str("1000") {
            Ok(Tier::One)
        } else if v == String::from_str("2000") {
            Ok(Tier::Two)
        } else if v == String::from_str("3000") {
            Ok(Tier::Three)
        } else {
            Err(ModelError::UnknownTier(v))
        }
    }
}

/// A stored channel.
#[derive(Debug, Clone)]
pub struct Channel {
    pub id: i32,
    pub uuid: u128,
    pub twitch_channel_id: String,
    pub channel_name: String,
}

/// The columns of a channel that its writer supplies.
#[derive(Debug, Clone)]
pub struct NewChannel {
    pub twitch_channel_id: String,
    pub channel_name: String,
}

/// A stored user.
#[derive(Debug, Clone)]
pub struct User {
    pub id: i32,
    pub uuid: u128,
    pub username: String,
    pub twitch_user_id: String,
}

/// The columns of a user that its writer supplies.
#[derive(Debug, Clone)]
pub struct NewUser {
    pub username: String,
    pub twitch_user_id: String,
}

/// A stored rename: the name a user had before `first_time_with_new_name`.
#[derive(Debug, Clone)]
pub struct UserOldName {
    pub id: i32,
    pub user_id: i32,
    pub username: String,
    pub first_time_with_new_name: Timestamp,
}

/// The columns of a rename record that its writer supplies.
#[derive(Debug, Clone)]
pub struct NewUserOldName {
    pub user_id: i32,
    pub username: String,
    pub first_time_with_new_name: Timestamp,
}

/// A stored resubscription.
#[derive(Debug, Clone, Copy, PartialEq, Eq, Structural)]
pub struct Resub {
    pub id: i32,
    pub uuid: u128,
    pub cumulative_month: i16,
    pub tier: Tier,
}

/// The columns of a resubscription that its writer supplies.
#[derive(Debug, Clone, Copy, PartialEq, Eq, Structural)]
pub struct NewResub {
    pub cumulative_month: i16,
    pub tier: Tier,
}

/// A stored chat message.
#[derive(Debug, Clone)]
pub struct Message {
    pub id: i64,
    pub uuid: u128,
    pub msg: String,
    pub msg_type: MsgType,
    pub user_id: i32,
    pub channel_id: i32,
    pub resub_id: Option<i32>,
    pub send_time: Timestamp,
    pub bits: Option<i64>,
}

/// The columns of a message that its writer supplies.
#[derive(Debug, Clone)]
pub struct NewMessage {
    pub msg: String,
    pub msg_type: MsgType,
    pub user_id: i32,
    pub channel_id: i32,
    pub send_time: Timestamp,
    pub bits: Option<i64>,
    pub resub_id: Option<i32>,
}

impl From<Message> for NewMessage {
    fn from(message: Message) -> (r: NewMessage)
        ensures
            r.msg == message.msg,
            r.msg_type == message.msg_type,
            r.user_id == message.user_id,
            r.channel_id == message.channel_id,
            r.send_time == message.send_time,
            r.bits == message.bits,
            r.resub_id == message.resub_id,
    {
        NewMessage {
            msg: message.msg,
            msg_type: message.msg_type,
            user_id: message.user_id,
            channel_id: message.channel_id,
            send_time: message.send_time,
            bits: message.bits,
            resub_id: message.resub_id,
        }
    }
}

impl vstd::std_specs::convert::FromSpecImpl<Message> for NewMessage {
    open spec fn obeys_from_spec() -> bool {
        true
    }

    open spec fn from_spec(message: Message) -> NewMessage {
        NewMessage {
            msg: message.msg,
            msg_type: message.msg_type,
            user_id: message.user_id,
            channel_id: message.channel_id,
            send_time: message.send_time,
            bits: message.bits,
            resub_id: message.resub_id,
        }
    }
}

} // verus!
