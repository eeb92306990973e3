//! Resubscriptions: tier and cumulative months of one resub event.
use crate::db::{max_id32, new_public_id, Database, DbError};
use crate::models::{NewResub, Resub};
use vstd::prelude::*;

verus! {

/// `new` is `old` with the resubscription `r` appended.
pub open spec fn resub_created(old: Database, new_resub: NewResub, new: Database, r: Resub) -> bool {
    &&& old.resubs@.len() < max_id32()
    &&& r.id == old.resubs@.len() + 1
    &&& r.cumulative_month == new_resub.cumulative_month
    &&& r.tier == new_resub.tier
    &&& new.resubs@ == old.resubs@.push(r)
    &&& new.channels@ == old.channels@
    &&& new.users@ == old.users@
    &&& new.users_old_names@ == old.users_old_names@
    &&& new.messages@ == old.messages@
}

/// Stores a resubscription and hands back the stored row.
pub fn create_resub_return(db: &mut Database, new_resub: NewResub) -> (r: Result<Resub, DbError>)
    requires
        old(db).wf(),
    ensures
        final(db).wf(),
        match r {
            Ok(row) => resub_created(*old(db), new_resub, *final(db), row),
            Err(e) => *final(db) == *old(db) && e == DbError::IdExhausted
                && old(db).resubs@.len() >= max_id32(),
        },
{
    if db.resubs.len() >= i32::MAX as usize {
        return Err(DbError::IdExhausted);
    }
    let row = Resub {
        id: (db.resubs.len() + 1) as i32,
        uuid: new_public_id(),
        cumulative_month: new_resub.cumulative_month,
        tier: new_resub.tier,
    };
    let ghost before = *db;
    db.resubs.push(row);
    proof {
        assert forall|i: int| #![trigger db.messages@[i]] 0 <= i < db.messages@.len() implies (
        match db.messages@[i].resub_id {
            Some(x) => db.has_resub_id(x),
            None => true,
        }) by {
            assert(before.messages@[i] == db.messages@[i]);
        }
    }
    Ok(row)
}

} // verus!
