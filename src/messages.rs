//! The write path of one chat message: resolve the user, reconcile its
//! name, store the resubscription if any, then the message.
use crate::db::{max_id32, new_public_id, Database, DbError};
use crate::models::{Message, MsgType, NewResub, NewUser, Timestamp};
use crate::resubs::create_resub_return;
use crate::users::{check_and_fix_username, create_user, username_reconciled};
use vstd::prelude::*;

verus! {

/// The id of the user that a message from external id `twitch_user_id` is
/// recorded against: the stored one, else the next free id.
pub open spec fn recorded_user_id(old: Database, twitch_user_id: Seq<char>) -> i32 {
    if old.has_user(twitch_user_id) {
        old.user_id_of(twitch_user_id)
    } else {
        (old.users@.len() + 1) as i32
    }
}

/// The error with which a message is refused, if any: an unknown channel,
/// or a table whose ids are used up among those the message writes to.
pub open spec fn message_refusal(
    old: Database,
    channel_id: i32,
    with_resub: bool,
    twitch_user_id: Seq<char>,
    twitch_username: Seq<char>,
) -> Option<DbError> {
    let uid = recorded_user_id(old, twitch_user_id);
    if !old.has_channel_id(channel_id) {
        Some(DbError::ForeignKeyViolation)
    } else if !old.has_user(twitch_user_id) && old.users@.len() >= max_id32() {
        Some(DbError::IdExhausted)
    } else if old.has_user(twitch_user_id) && old.user(uid).username@ != twitch_username
        && old.users_old_names@.len() >= max_id32() {
        Some(DbError::IdExhausted)
    } else if with_resub && old.resubs@.len() >= max_id32() {
        Some(DbError::IdExhausted)
    } else if old.messages@.len() >= i64::MAX {
        Some(DbError::IdExhausted)
    } else {
        None
    }
}

/// The rows that recording one message writes, from `old` to `new`.
pub open spec fn message_recorded(
    old: Database,
    new: Database,
    msg: Seq<char>,
    msg_type: MsgType,
    channel_id: i32,
    send_time: Timestamp,
    bits: Option<i64>,
    new_resub: Option<NewResub>,
    twitch_user_id: Seq<char>,
    twitch_username: Seq<char>,
) -> bool {
    let uid = recorded_user_id(old, twitch_user_id);
    let users_done = Database {
        channels: old.channels,
        users: new.users,
        users_old_names: new.users_old_names,
        resubs: old.resubs,
        messages: old.messages,
    };
    let m = new.messages@.last();
    &&& new.channels@ == old.channels@
    &&& if old.has_user(twitch_user_id) {
        username_reconciled(old, old.user(uid), twitch_username, send_time, users_done)
    } else {
        &&& uid == old.users@.len() + 1
        &&& new.users@ == old.users@.push(new.users@.last())
        &&& new.user(uid).id == uid
        &&& new.user(uid).twitch_user_id@ == twitch_user_id
        &&& new.user(uid).username@ == twitch_username
        &&& new.users_old_names@ == old.users_old_names@
    }
    &&& match new_resub {
        None => new.resubs@ == old.resubs@,
        Some(nr) => {
            &&& new.resubs@ == old.resubs@.push(new.resubs@.last())
            &&& new.resubs@.last().id == old.resubs@.len() + 1
            &&& new.resubs@.last().cumulative_month == nr.cumulative_month
            &&& new.resubs@.last().tier == nr.tier
        },
    }
    &&& new.messages@ == old.messages@.push(m)
    &&& m.id == old.messages@.len() + 1
    &&& m.msg@ == msg
    &&& m.msg_type == msg_type
    &&& m.user_id == uid
    &&& m.channel_id == channel_id
    &&& m.resub_id == if new_resub.is_some() {
        Some((old.resubs@.len() + 1) as i32)
    } else {
        None
    }
    &&& m.send_time == send_time
    &&& m.bits == bits
}

/// Records one chat message, creating its user on first sight and logging a
/// changed username. Every check is made before the first write, so a
/// refused message leaves the store as it was.
pub fn create_message(
    db: &mut Database,
    msg: String,
    msg_type: MsgType,
    channel_id: i32,
    send_time: Timestamp,
    bits: Option<i64>,
    new_resub: Option<NewResub>,
    twitch_user_id: String,
    twitch_username: String,
    _twitch_displayname: String,
) -> (r: Result<usize, DbError>)
    requires
        old(db).wf(),
    ensures
        final(db).wf(),
        match r {
            Ok(n) => {
                &&& n == 1
                &&& message_refusal(
                    *old(db),
                    channel_id,
                    new_resub.is_some(),
                    twitch_user_id@,
                    twitch_username@,
                ) is None
                &&& message_recorded(
                    *old(db),
                    *final(db),
                    msg@,
                    msg_type,
                    channel_id,
                    send_time,
                    bits,
                    new_resub,
                    twitch_user_id@,
                    twitch_username@,
                )
            },
            Err(e) => *final(db) == *old(db) && message_refusal(
                *old(db),
                channel_id,
                new_resub.is_some(),
                twitch_user_id@,
                twitch_username@,
            ) == Some(e),
        },
{
    let ghost start = *db;
    if channel_id < 1 || channel_id as usize > db.channels.len() {
        return Err(DbError::ForeignKeyViolation);
    }
    let found = db.find_user(&twitch_user_id);
    proof {
        if let Some(i) = found {
            start.lemma_user_id_of(i as int);
        }
    }
    match found {
        None => {
            if db.users.len() >= i32::MAX as usize {
                return Err(DbError::IdExhausted);
            }
        },
        Some(i) => {
            if db.users[i].username != twitch_username && db.users_old_names.len()
                >= i32::MAX as usize {
                return Err(DbError::IdExhausted);
            }
        },
    }
    if new_resub.is_some() && db.resubs.len() >= i32::MAX as usize {
        return Err(DbError::IdExhausted);
    }
    if db.messages.len() as u64 >= i64::MAX as u64 {
        return Err(DbError::IdExhausted);
    }
    let user = match found {
        Some(i) => db.users[i].duplicate(),
        None => {
            let new_user = NewUser {
                username: twitch_username.clone(),
                twitch_user_id: twitch_user_id.clone(),
            };
            match create_user(new_user, db) {
                Ok(u) => u,
                Err(e) => return Err(e),
            }
        },
    };
    let user_id = user.id;
    let ghost created = *db;
    match check_and_fix_username(db, user, twitch_username.as_str(), send_time) {
        Ok(()) => {},
        Err(e) => return Err(e),
    }
    let ghost users_done = *db;
    let resub_id = match new_resub {
        Some(nr) => match create_resub_return(db, nr) {
            Ok(row) => Some(row.id),
            Err(e) => return Err(e),
        },
        None => None,
    };
    let message = Message {
        id: (db.messages.len() as u64 + 1) as i64,
        uuid: new_public_id(),
        msg,
        msg_type,
        user_id,
        channel_id,
        resub_id,
        send_time,
        bits,
    };
    let ghost resub_done = *db;
    db.messages.push(message);
    proof {
        let n = resub_done.messages@.len() as int;
        assert forall|i: int| #![trigger db.messages@[i]] 0 <= i < db.messages@.len() implies {
            &&& db.messages@[i].id == i + 1
            &&& db.has_user_id(db.messages@[i].user_id)
            &&& db.has_channel_id(db.messages@[i].channel_id)
            &&& match db.messages@[i].resub_id {
                Some(x) => db.has_resub_id(x),
                None => true,
            }
        } by {
            if i < n {
                assert(resub_done.messages@[i] == db.messages@[i]);
            }
        }
        assert forall|i: int, j: int|
            0 <= i < j < db.messages@.len() && (#[trigger] db.messages@[i].resub_id).is_some()
                implies db.messages@[i].resub_id != #[trigger] db.messages@[j].resub_id by {
            assert(resub_done.messages@[i] == db.messages@[i]);
            if j < n {
                assert(resub_done.messages@[j] == db.messages@[j]);
            }
        }
    }
    Ok(1)
}

} // verus!
