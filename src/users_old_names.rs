//! The rename log: one record per observed change of a username.
use crate::db::{max_id32, Database, DbError};
use crate::models::{Timestamp, UserOldName};
use vstd::prelude::*;

verus! {

/// Appends a rename record for an existing user; hands back the number of
/// rows written.
pub fn create(
    db: &mut Database,
    user_id: i32,
    old_name: String,
    first_time_with_new_name: Timestamp,
) -> (r: Result<usize, DbError>)
    requires
        old(db).wf(),
    ensures
        final(db).wf(),
        match r {
            Ok(n) => {
                &&& n == 1
                &&& old(db).has_user_id(user_id)
                &&& old(db).users_old_names@.len() < max_id32()
                &&& final(db).users_old_names@ == old(db).users_old_names@.push(
                    UserOldName {
                        id: (old(db).users_old_names@.len() + 1) as i32,
                        user_id,
                        username: old_name,
                        first_time_with_new_name,
                    },
                )
                &&& final(db).users@ == old(db).users@
                &&& final(db).same_except_users(&old(db))
            },
            Err(e) => *final(db) == *old(db) && if !old(db).has_user_id(user_id) {
                e == DbError::ForeignKeyViolation
            } else {
                e == DbError::IdExhausted && old(db).users_old_names@.len() >= max_id32()
            },
        },
{
    if user_id < 1 || user_id as usize > db.users.len() {
        return Err(DbError::ForeignKeyViolation);
    }
    if db.users_old_names.len() >= i32::MAX as usize {
        return Err(DbError::IdExhausted);
    }
    let record = UserOldName {
        id: (db.users_old_names.len() + 1) as i32,
        user_id,
        username: old_name,
        first_time_with_new_name,
    };
    let ghost before = *db;
    db.users_old_names.push(record);
    proof {
        assert forall|i: int| 0 <= i < db.users_old_names@.len() implies db.has_user_id(
            #[trigger] db.users_old_names@[i].user_id,
        ) by {
            if i < before.users_old_names@.len() {
                assert(before.users_old_names@[i] == db.users_old_names@[i]);
            }
        }
    }
    Ok(1)
}

} // verus!
