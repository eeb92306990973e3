//! Users: lookup by external id, creation, and username reconciliation.
use crate::db::{max_id32, new_public_id, Database, DbError};
use crate::models::{NewUser, Timestamp, User, UserOldName};
use crate::users_old_names;
use vstd::prelude::*;

verus! {

/// `new` is `old` with the user `u` appended for a new external id.
pub open spec fn user_created(old: Database, new_user: NewUser, new: Database, u: User) -> bool {
    &&& !old.has_user(new_user.twitch_user_id@)
    &&& old.users@.len() < max_id32()
    &&& u.id == old.users@.len() + 1
    &&& u.username == new_user.username
    &&& u.twitch_user_id == new_user.twitch_user_id
    &&& new.users@ == old.users@.push(u)
    &&& new.users_old_names@ == old.users_old_names@
    &&& new.same_except_users(&old)
}

/// The effect of observing `user` under `name` at `at`: nothing when
/// `user.username` is `name`; else `user.username` goes to the rename log and
/// `name` becomes the stored name of row `user.id`, whose other columns stay.
pub open spec fn username_reconciled(
    old: Database,
    user: User,
    name: Seq<char>,
    at: Timestamp,
    new: Database,
) -> bool {
    let stored = old.user(user.id);
    if user.username@ == name {
        new.same_tables(&old)
    } else {
        &&& old.users_old_names@.len() < max_id32()
        &&& new.users_old_names@ == old.users_old_names@.push(
            UserOldName {
                id: (old.users_old_names@.len() + 1) as i32,
                user_id: user.id,
                username: user.username,
                first_time_with_new_name: at,
            },
        )
        &&& new.users@.len() == old.users@.len()
        &&& forall|i: int|
            0 <= i < old.users@.len() && i != user.id - 1 ==> #[trigger] new.users@[i]
                == old.users@[i]
        &&& new.user(user.id).id == stored.id
        &&& new.user(user.id).uuid == stored.uuid
        &&& new.user(user.id).twitch_user_id == stored.twitch_user_id
        &&& new.user(user.id).username@ == name
        &&& new.same_except_users(&old)
    }
}

/// The stored user with this external id, if any.
pub fn get_user_by_user_id(user_id: &str, db: &Database) -> (r: Option<User>)
    requires
        db.wf(),
    ensures
        match r {
            Some(u) => db.has_user_id(u.id) && u == db.user(u.id) && u.twitch_user_id@ == user_id@,
            None => !db.has_user(user_id@),
        },
{
    let key = user_id.to_owned();
    match db.find_user(&key) {
        Some(i) => Some(db.users[i].duplicate()),
        None => None,
    }
}

/// Stores a new user; its external id must not be stored yet.
pub fn create_user(new_user: NewUser, db: &mut Database) -> (r: Result<User, DbError>)
    requires
        old(db).wf(),
    ensures
        final(db).wf(),
        match r {
            Ok(u) => user_created(*old(db), new_user, *final(db), u),
            Err(e) => *final(db) == *old(db) && if old(db).has_user(new_user.twitch_user_id@) {
                e == DbError::UniqueViolation
            } else {
                e == DbError::IdExhausted && old(db).users@.len() >= max_id32()
            },
        },
{
    if db.find_user(&new_user.twitch_user_id).is_some() {
        return Err(DbError::UniqueViolation);
    }
    if db.users.len() >= i32::MAX as usize {
        return Err(DbError::IdExhausted);
    }
    let user = User {
        id: (db.users.len() + 1) as i32,
        uuid: new_public_id(),
        username: new_user.username,
        twitch_user_id: new_user.twitch_user_id,
    };
    let stored = user.duplicate();
    let ghost before = *db;
    db.users.push(user);
    proof {
        let n = before.users@.len() as int;
        assert(db.users@[n] == stored);
        assert forall|i: int, j: int|
            0 <= i < j < db.users@.len() implies #[trigger] db.users@[i].twitch_user_id@
            != #[trigger] db.users@[j].twitch_user_id@ by {
            assert(before.users@[i] == db.users@[i]);
            if j < n {
                assert(before.users@[j] == db.users@[j]);
            }
        }
        assert forall|i: int| 0 <= i < db.users_old_names@.len() implies db.has_user_id(
            #[trigger] db.users_old_names@[i].user_id,
        ) by {
            assert(before.users_old_names@[i] == db.users_old_names@[i]);
        }
        assert forall|i: int| 0 <= i < db.messages@.len() implies db.has_user_id(
            #[trigger] db.messages@[i].user_id,
        ) by {
            assert(before.messages@[i] == db.messages@[i]);
        }
    }
    Ok(stored)
}

/// Compares the observed `user_name` with `user.username`: when they
/// differ, `user.username` is logged as the old name and `user_name` becomes
/// the stored name of row `user.id`. Both writes happen or neither does.
pub fn check_and_fix_username(
    db: &mut Database,
    user: User,
    user_name: &str,
    timestamp: Timestamp,
) -> (r: Result<(), DbError>)
    requires
        old(db).wf(),
        old(db).has_user_id(user.id),
    ensures
        final(db).wf(),
        match r {
            Ok(()) => username_reconciled(*old(db), user, user_name@, timestamp, *final(db)),
            Err(e) => {
                &&& *final(db) == *old(db)
                &&& e == DbError::IdExhausted
                &&& user.username@ != user_name@
                &&& old(db).users_old_names@.len() >= max_id32()
            },
        },
{
    let idx = (user.id - 1) as usize;
    let name = user_name.to_owned();
    if user.username == name {
        return Ok(());
    }
    if db.users_old_names.len() >= i32::MAX as usize {
        return Err(DbError::IdExhausted);
    }
    let ghost before = *db;
    let mut renamed = db.users[idx].duplicate();
    match users_old_names::create(db, user.id, user.username, timestamp) {
        Ok(_) => {},
        Err(e) => return Err(e),
    }
    renamed.username = name;
    let ghost logged = *db;
    db.users.set(idx, renamed);
    proof {
        assert forall|i: int, j: int|
            0 <= i < j < db.users@.len() implies #[trigger] db.users@[i].twitch_user_id@
            != #[trigger] db.users@[j].twitch_user_id@ by {
            assert(db.users@[i].twitch_user_id == logged.users@[i].twitch_user_id);
            assert(db.users@[j].twitch_user_id == logged.users@[j].twitch_user_id);
        }
        assert forall|i: int| 0 <= i < db.users_old_names@.len() implies db.has_user_id(
            #[trigger] db.users_old_names@[i].user_id,
        ) by {
            assert(logged.users_old_names@[i] == db.users_old_names@[i]);
        }
        assert forall|i: int| 0 <= i < db.messages@.len() implies db.has_user_id(
            #[trigger] db.messages@[i].user_id,
        ) by {
            assert(before.messages@[i] == db.messages@[i]);
        }
    }
    Ok(())
}

/// Observing a user twice in a row under the same name, each time passing
/// the row as stored at that moment, writes at most one rename record: the
/// second observation changes nothing.
pub proof fn lemma_reconcile_idempotent(
    db0: Database,
    db1: Database,
    db2: Database,
    user_id: i32,
    name: Seq<char>,
    t1: Timestamp,
    t2: Timestamp,
)
    requires
        db0.wf(),
        db0.has_user_id(user_id),
        username_reconciled(db0, db0.user(user_id), name, t1, db1),
        username_reconciled(db1, db1.user(user_id), name, t2, db2),
    ensures
        db2.same_tables(&db1),
        db1.users_old_names@.len() == db0.users_old_names@.len() + if db0.user(
            user_id,
        ).username@ == name {
            0int
        } else {
            1int
        },
        db1.user(user_id).username@ == name,
{
    assert(db0.user(user_id).id == user_id);
}

/// After renames through `names[1]`, ..., `names[m]` starting from
/// `names[0]`, the last `m` rename records hold `names[0..m]` in order and
/// the stored name is `names[m]`.
proof fn lemma_rename_prefix(
    states: Seq<Database>,
    user_id: i32,
    names: Seq<Seq<char>>,
    times: Seq<Timestamp>,
    m: int,
)
    requires
        names.len() >= 1,
        states.len() == names.len(),
        times.len() + 1 == names.len(),
        states[0].wf(),
        states[0].has_user_id(user_id),
        states[0].user(user_id).username@ == names[0],
        forall|k: int| 0 <= k < names.len() - 1 ==> #[trigger] names[k] != names[k + 1],
        forall|k: int|
            0 <= k < names.len() - 1 ==> username_reconciled(
                #[trigger] states[k],
                states[k].user(user_id),
                names[k + 1],
                times[k],
                states[k + 1],
            ),
        0 <= m < names.len(),
    ensures
        states[m].users@.len() == states[0].users@.len(),
        states[m].users_old_names@.len() == states[0].users_old_names@.len() + m,
        states[m].user(user_id).username@ == names[m],
        states[m].user(user_id).id == user_id,
        forall|k: int|
            0 <= k < m ==> {
                let rec = #[trigger] states[m].users_old_names@[states[0].users_old_names@.len() + k];
                &&& rec.username@ == names[k]
                &&& rec.user_id == user_id
                &&& rec.first_time_with_new_name == times[k]
            },
    decreases m,
{
    if m == 0 {
        assert(states[0].users@[user_id - 1].id == user_id);
    } else {
        lemma_rename_prefix(states, user_id, names, times, m - 1);
        assert(names[m - 1] != names[m]);
        assert(username_reconciled(
            states[m - 1],
            states[m - 1].user(user_id),
            names[m],
            times[m - 1],
            states[m],
        ));
        let base = states[0].users_old_names@.len();
        assert forall|k: int| 0 <= k < m implies {
            let rec = #[trigger] states[m].users_old_names@[base + k];
            &&& rec.username@ == names[k]
            &&& rec.user_id == user_id
            &&& rec.first_time_with_new_name == times[k]
        } by {
            if k < m - 1 {
                assert(states[m].users_old_names@[base + k] == states[m - 1].users_old_names@[base
                    + k]);
            }
        }
    }
}

/// A run of renames `names[0]` to `names[n]`, each differing from the one
/// before, leaves exactly `n` new rename records; their names in order,
/// followed by the stored name, give back the whole sequence.
pub proof fn lemma_rename_history(
    states: Seq<Database>,
    user_id: i32,
    names: Seq<Seq<char>>,
    times: Seq<Timestamp>,
)
    requires
        names.len() >= 1,
        states.len() == names.len(),
        times.len() + 1 == names.len(),
        states[0].wf(),
        states[0].has_user_id(user_id),
        states[0].user(user_id).username@ == names[0],
        forall|k: int| 0 <= k < names.len() - 1 ==> #[trigger] names[k] != names[k + 1],
        forall|k: int|
            0 <= k < names.len() - 1 ==> username_reconciled(
                #[trigger] states[k],
                states[k].user(user_id),
                names[k + 1],
                times[k],
                states[k + 1],
            ),
    ensures
        ({
            let n = names.len() - 1;
            let base = states[0].users_old_names@.len();
            let last = states[n];
            &&& last.users_old_names@.len() == base + n
            &&& last.user(user_id).username@ == names[n]
            &&& Seq::new(n as nat, |k: int| last.users_old_names@[base + k].username@).push(
                last.user(user_id).username@,
            ) == names
        }),
{
    let n = names.len() - 1;
    lemma_rename_prefix(states, user_id, names, times, n);
    let base = states[0].users_old_names@.len();
    let last = states[n];
    let replay = Seq::new(n as nat, |k: int| last.users_old_names@[base + k].username@).push(
        last.user(user_id).username@,
    );
    assert forall|k: int| 0 <= k < names.len() implies replay[k] == names[k] by {
        if k < n {
            assert(replay[k] == last.users_old_names@[base + k].username@);
        }
    }
    assert(replay =~= names);
}

} // verus!
