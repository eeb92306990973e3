//! Channels: lookup by external id and create-on-miss.
use crate::db::{max_id32, new_public_id, Database, DbError};
use crate::models::Channel;
use vstd::prelude::*;

verus! {

/// `new` is `old` with one channel `c` appended for a new external id.
pub open spec fn channel_created(
    old: Database,
    twitch_channel_id: Seq<char>,
    channel_name: Seq<char>,
    new: Database,
    c: Channel,
) -> bool {
    &&& !old.has_channel(twitch_channel_id)
    &&& old.channels@.len() < max_id32()
    &&& c.id == old.channels@.len() + 1
    &&& c.twitch_channel_id@ == twitch_channel_id
    &&& c.channel_name@ == channel_name
    &&& new.channels@ == old.channels@.push(c)
    &&& new.same_except_channels(&old)
}

/// The outcome of a create-on-miss of a channel: the stored row when the
/// external id is known, else a new row, else (table full) an error.
pub open spec fn channel_upsert(
    old: Database,
    twitch_channel_id: Seq<char>,
    channel_name: Seq<char>,
    new: Database,
    r: Result<Channel, DbError>,
) -> bool {
    if old.has_channel(twitch_channel_id) {
        &&& new.same_tables(&old)
        &&& r matches Ok(c)
        &&& old.has_channel_id(c.id)
        &&& c == old.channel(c.id)
        &&& c.twitch_channel_id@ == twitch_channel_id
    } else {
        match r {
            Ok(c) => channel_created(old, twitch_channel_id, channel_name, new, c),
            Err(e) => new.same_tables(&old) && old.channels@.len() >= max_id32() && e
                == DbError::IdExhausted,
        }
    }
}

/// The stored channel with this external id, if any.
pub fn get_channel_by_twitch_id(db: &Database, twitch_channel_id: &str) -> (r: Option<Channel>)
    requires
        db.wf(),
    ensures
        match r {
            Some(c) => db.has_channel_id(c.id) && c == db.channel(c.id)
                && c.twitch_channel_id@ == twitch_channel_id@,
            None => !db.has_channel(twitch_channel_id@),
        },
{
    let key = twitch_channel_id.to_owned();
    match db.find_channel(&key) {
        Some(i) => Some(db.channels[i].duplicate()),
        None => None,
    }
}

/// Stores the configured channel if its external id is not known yet.
pub fn create_channel_if_not_exists(
    db: &mut Database,
    twitch_channel_id: String,
    channel_name: String,
) -> (r: Result<Channel, DbError>)
    requires
        old(db).wf(),
    ensures
        final(db).wf(),
        channel_upsert(*old(db), twitch_channel_id@, channel_name@, *final(db), r),
{
    match get_channel_by_twitch_id(db, twitch_channel_id.as_str()) {
        Some(channel) => Ok(channel),
        None => create_channel(db, twitch_channel_id, channel_name),
    }
}

/// Stores a new channel; its external id must not be stored yet.
pub fn create_channel(
    db: &mut Database,
    twitch_channel_id: String,
    channel_name: String,
) -> (r: Result<Channel, DbError>)
    requires
        old(db).wf(),
    ensures
        final(db).wf(),
        match r {
            Ok(c) => channel_created(*old(db), twitch_channel_id@, channel_name@, *final(db), c),
            Err(e) => *final(db) == *old(db) && if old(db).has_channel(twitch_channel_id@) {
                e == DbError::UniqueViolation
            } else {
                e == DbError::IdExhausted && old(db).channels@.len() >= max_id32()
            },
        },
{
    if db.find_channel(&twitch_channel_id).is_some() {
        return Err(DbError::UniqueViolation);
    }
    if db.channels.len() >= i32::MAX as usize {
        return Err(DbError::IdExhausted);
    }
    let channel = Channel {
        id: (db.channels.len() + 1) as i32,
        uuid: new_public_id(),
        twitch_channel_id,
        channel_name,
    };
    let stored = channel.duplicate();
    let ghost before = *db;
    db.channels.push(channel);
    proof {
        let n = before.channels@.len() as int;
        assert(db.channels@[n] == stored);
        assert forall|i: int, j: int|
            0 <= i < j < db.channels@.len() implies #[trigger] db.channels@[i].twitch_channel_id@
            != #[trigger] db.channels@[j].twitch_channel_id@ by {
            if j == n {
                assert(before.channels@[i] == db.channels@[i]);
            } else {
                assert(before.channels@[j] == db.channels@[j]);
                assert(before.channels@[i] == db.channels@[i]);
            }
        }
        assert forall|i: int| 0 <= i < db.messages@.len() implies db.has_channel_id(
            #[trigger] db.messages@[i].channel_id,
        ) by {
            assert(before.messages@[i] == db.messages@[i]);
        }
    }
    Ok(stored)
}

/// Creating a channel twice under one external id stores one row (the first
/// call adds it unless it was there) and hands back the same row both times;
/// afterwards exactly one row holds that external id.
pub proof fn lemma_channel_upsert_idempotent(
    db0: Database,
    db1: Database,
    db2: Database,
    twitch_channel_id: Seq<char>,
    name1: Seq<char>,
    name2: Seq<char>,
    c1: Channel,
    c2: Channel,
)
    requires
        db0.wf(),
        channel_upsert(db0, twitch_channel_id, name1, db1, Ok(c1)),
        channel_upsert(db1, twitch_channel_id, name2, db2, Ok(c2)),
    ensures
        c1.id == c2.id,
        c1 == c2,
        db2.same_tables(&db1),
        db1.channels@.len() == db0.channels@.len() + if db0.has_channel(twitch_channel_id) {
            0int
        } else {
            1int
        },
        db1.has_channel(twitch_channel_id),
        forall|i: int|
            0 <= i < db2.channels@.len() && #[trigger] db2.channels@[i].twitch_channel_id@
                == twitch_channel_id ==> i == c2.id - 1,
{
    if !db0.has_channel(twitch_channel_id) {
        let i = db0.channels@.len() as int;
        assert(db1.channels@[i] == c1);
        assert(db1.has_channel(twitch_channel_id));
    }
    assert(db1.has_channel(twitch_channel_id));
    assert(db1.channels@[c1.id - 1] == c1);
    assert forall|i: int|
        0 <= i < db2.channels@.len() && #[trigger] db2.channels@[i].twitch_channel_id@
            == twitch_channel_id implies i == c2.id - 1 by {
        if i != c2.id - 1 {
            assert(db1.channels@[i] == db2.channels@[i]);
            if i < c2.id - 1 {
                assert(db1.channels@[i].twitch_channel_id@ != db1.channels@[c2.id - 1].twitch_channel_id@);
            } else {
                assert(db1.channels@[c2.id - 1].twitch_channel_id@ != db1.channels@[i].twitch_channel_id@);
            }
        }
    }
}

} // verus!
