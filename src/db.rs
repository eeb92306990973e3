//! The relational store: five tables with serial row ids, unique external
//! ids and foreign keys checked on every insert.
use crate::models::{Channel, Message, Resub, User, UserOldName};
use vstd::prelude::*;

verus! {

/// Why a write to the store was refused.
#[derive(Debug, Clone, Copy, PartialEq, Eq, Structural)]
pub enum DbError {
    /// A referenced row does not exist.
    ForeignKeyViolation,
    /// A row with the same external id exists already.
    UniqueViolation,
    /// The table's serial ids are used up.
    IdExhausted,
}

/// The largest row id of the tables keyed by a 32-bit serial.
pub open spec fn max_id32() -> int {
    i32::MAX as int
}

/// The five tables. Row `i` of each table has id `i + 1`.
pub struct Database {
    pub channels: Vec<Channel>,
    pub users: Vec<User>,
    pub users_old_names: Vec<UserOldName>,
    pub resubs: Vec<Resub>,
    pub messages: Vec<Message>,
}

impl Database {
    pub open spec fn channels_wf(&self) -> bool {
        &&& self.channels@.len() <= max_id32()
        &&& forall|i: int|
            #![trigger self.channels@[i]]
            0 <= i < self.channels@.len() ==> self.channels@[i].id == i + 1
        &&& forall|i: int, j: int|
            0 <= i < j < self.channels@.len() ==> #[trigger] self.channels@[i].twitch_channel_id@
                != #[trigger] self.channels@[j].twitch_channel_id@
    }

    pub open spec fn users_wf(&self) -> bool {
        &&& self.users@.len() <= max_id32()
        &&& forall|i: int|
            #![trigger self.users@[i]]
            0 <= i < self.users@.len() ==> self.users@[i].id == i + 1
        &&& forall|i: int, j: int|
            0 <= i < j < self.users@.len() ==> #[trigger] self.users@[i].twitch_user_id@
                != #[trigger] self.users@[j].twitch_user_id@
    }

    pub open spec fn users_old_names_wf(&self) -> bool {
        &&& self.users_old_names@.len() <= max_id32()
        &&& forall|i: int|
            #![trigger self.users_old_names@[i]]
            0 <= i < self.users_old_names@.len() ==> {
                &&& self.users_old_names@[i].id == i + 1
                &&& self.has_user_id(self.users_old_names@[i].user_id)
            }
    }

    pub open spec fn resubs_wf(&self) -> bool {
        &&& self.resubs@.len() <= max_id32()
        &&& forall|i: int|
            #![trigger self.resubs@[i]]
            0 <= i < self.resubs@.len() ==> self.resubs@[i].id == i + 1
    }

    /// Every message refers to existing rows, and no two messages share a
    /// resubscription.
    pub open spec fn messages_wf(&self) -> bool {
        &&& self.messages@.len() <= i64::MAX
        &&& forall|i: int|
            #![trigger self.messages@[i]]
            0 <= i < self.messages@.len() ==> {
                &&& self.messages@[i].id == i + 1
                &&& self.has_user_id(self.messages@[i].user_id)
                &&& self.has_channel_id(self.messages@[i].channel_id)
                &&& match self.messages@[i].resub_id {
                    Some(r) => self.has_resub_id(r),
                    None => true,
                }
            }
        &&& forall|i: int, j: int|
            0 <= i < j < self.messages@.len() && (#[trigger] self.messages@[i].resub_id).is_some()
                ==> self.messages@[i].resub_id != #[trigger] self.messages@[j].resub_id
    }

    pub open spec fn wf(&self) -> bool {
        &&& self.channels_wf()
        &&& self.users_wf()
        &&& self.users_old_names_wf()
        &&& self.resubs_wf()
        &&& self.messages_wf()
    }

    pub open spec fn has_channel_id(&self, id: i32) -> bool {
        1 <= id <= self.channels@.len()
    }

    pub open spec fn has_user_id(&self, id: i32) -> bool {
        1 <= id <= self.users@.len()
    }

    pub open spec fn has_resub_id(&self, id: i32) -> bool {
        1 <= id <= self.resubs@.len()
    }

    /// Whether a channel with this external id is stored.
    pub open spec fn has_channel(&self, twitch_channel_id: Seq<char>) -> bool {
        exists|i: int|
            0 <= i < self.channels@.len() && #[trigger] self.channels@[i].twitch_channel_id@
                == twitch_channel_id
    }

    /// Whether a user with this external id is stored.
    pub open spec fn has_user(&self, twitch_user_id: Seq<char>) -> bool {
        exists|i: int|
            0 <= i < self.users@.len() && #[trigger] self.users@[i].twitch_user_id@
                == twitch_user_id
    }

    /// The id of the stored channel with this external id.
    pub open spec fn channel_id_of(&self, twitch_channel_id: Seq<char>) -> i32 {
        ((choose|i: int|
            0 <= i < self.channels@.len() && #[trigger] self.channels@[i].twitch_channel_id@
                == twitch_channel_id) + 1) as i32
    }

    /// External ids are unique, so the channel chosen by its external id is
    /// the one at hand.
    pub proof fn lemma_channel_id_of(&self, i: int)
        requires
            self.wf(),
            0 <= i < self.channels@.len(),
        ensures
            self.channel_id_of(self.channels@[i].twitch_channel_id@) == i + 1,
    {
        let key = self.channels@[i].twitch_channel_id@;
        let w = choose|k: int|
            0 <= k < self.channels@.len() && #[trigger] self.channels@[k].twitch_channel_id@ == key;
        assert(self.channels@[i].twitch_channel_id@ == key);
        if w != i {
            if w < i {
                assert(self.channels@[w].twitch_channel_id@ != self.channels@[i].twitch_channel_id@);
            } else {
                assert(self.channels@[i].twitch_channel_id@ != self.channels@[w].twitch_channel_id@);
            }
        }
    }

    /// The id of the stored user with this external id.
    pub open spec fn user_id_of(&self, twitch_user_id: Seq<char>) -> i32 {
        ((choose|i: int|
            0 <= i < self.users@.len() && #[trigger] self.users@[i].twitch_user_id@
                == twitch_user_id) + 1) as i32
    }

    /// External ids are unique, so the user chosen by its external id is the
    /// one at hand.
    pub proof fn lemma_user_id_of(&self, i: int)
        requires
            self.wf(),
            0 <= i < self.users@.len(),
        ensures
            self.user_id_of(self.users@[i].twitch_user_id@) == i + 1,
    {
        let key = self.users@[i].twitch_user_id@;
        let w = choose|k: int|
            0 <= k < self.users@.len() && #[trigger] self.users@[k].twitch_user_id@ == key;
        assert(self.users@[i].twitch_user_id@ == key);
        if w != i {
            if w < i {
                assert(self.users@[w].twitch_user_id@ != self.users@[i].twitch_user_id@);
            } else {
                assert(self.users@[i].twitch_user_id@ != self.users@[w].twitch_user_id@);
            }
        }
    }

    /// The stored channel row with this id.
    pub open spec fn channel(&self, id: i32) -> Channel {
        self.channels@[id - 1]
    }

    /// The stored user row with this id.
    pub open spec fn user(&self, id: i32) -> User {
        self.users@[id - 1]
    }

    /// `self` and `other` hold the same rows in every table.
    pub open spec fn same_tables(&self, other: &Database) -> bool {
        &&& self.channels@ == other.channels@
        &&& self.users@ == other.users@
        &&& self.users_old_names@ == other.users_old_names@
        &&& self.resubs@ == other.resubs@
        &&& self.messages@ == other.messages@
    }

    /// `self` and `other` differ at most in the channels table.
    pub open spec fn same_except_channels(&self, other: &Database) -> bool {
        &&& self.users@ == other.users@
        &&& self.users_old_names@ == other.users_old_names@
        &&& self.resubs@ == other.resubs@
        &&& self.messages@ == other.messages@
    }

    /// `self` and `other` differ at most in the users and rename tables.
    pub open spec fn same_except_users(&self, other: &Database) -> bool {
        &&& self.channels@ == other.channels@
        &&& self.resubs@ == other.resubs@
        &&& self.messages@ == other.messages@
    }

    /// An empty store.
    pub fn new() -> (r: Database)
        ensures
            r.wf(),
            r.channels@.len() == 0,
            r.users@.len() == 0,
            r.users_old_names@.len() == 0,
            r.resubs@.len() == 0,
            r.messages@.len() == 0,
    {
        Database {
            channels: Vec::new(),
            users: Vec::new(),
            users_old_names: Vec::new(),
            resubs: Vec::new(),
            messages: Vec::new(),
        }
    }

    /// Rebuilds a store from rows read back, when they form a well-formed
    /// store; `None` when they do not.
    pub fn from_tables(
        channels: Vec<Channel>,
        users: Vec<User>,
        users_old_names: Vec<UserOldName>,
        resubs: Vec<Resub>,
        messages: Vec<Message>,
    ) -> (r: Option<Database>)
        ensures
            match r {
                Some(d) => d.wf() && d == (Database {
                    channels,
                    users,
                    users_old_names,
                    resubs,
                    messages,
                }),
                None => !(Database { channels, users, users_old_names, resubs, messages }).wf(),
            },
    {
        let d = Database { channels, users, users_old_names, resubs, messages };
        if d.check_channels() && d.check_users() && d.check_users_old_names() && d.check_resubs()
            && d.check_messages() {
            Some(d)
        } else {
            None
        }
    }

    fn check_channels(&self) -> (r: bool)
        ensures
            r == self.channels_wf(),
    {
        if self.channels.len() > i32::MAX as usize {
            return false;
        }
        let mut i: usize = 0;
        while i < self.channels.len()
            invariant
                self.channels@.len() <= max_id32(),
                0 <= i <= self.channels@.len(),
                forall|k: int| 0 <= k < i ==> #[trigger] self.channels@[k].id == k + 1,
                forall|a: int, b: int|
                    0 <= a < b < i ==> #[trigger] self.channels@[a].twitch_channel_id@
                        != #[trigger] self.channels@[b].twitch_channel_id@,
            decreases self.channels@.len() - i,
        {
            if self.channels[i].id != (i + 1) as i32 {
                assert(self.channels@[i as int].id != i + 1);
                return false;
            }
            let mut j: usize = 0;
            while j < i
                invariant
                    0 <= j <= i < self.channels@.len(),
                    forall|a: int|
                        0 <= a < j ==> #[trigger] self.channels@[a].twitch_channel_id@
                            != self.channels@[i as int].twitch_channel_id@,
                decreases i - j,
            {
                if self.channels[j].twitch_channel_id == self.channels[i].twitch_channel_id {
                    assert(self.channels@[j as int].twitch_channel_id@
                        == self.channels@[i as int].twitch_channel_id@);
                    return false;
                }
                j = j + 1;
            }
            i = i + 1;
        }
        true
    }

    fn check_users(&self) -> (r: bool)
        ensures
            r == self.users_wf(),
    {
        if self.users.len() > i32::MAX as usize {
            return false;
        }
        let mut i: usize = 0;
        while i < self.users.len()
            invariant
                self.users@.len() <= max_id32(),
                0 <= i <= self.users@.len(),
                forall|k: int| 0 <= k < i ==> #[trigger] self.users@[k].id == k + 1,
                forall|a: int, b: int|
                    0 <= a < b < i ==> #[trigger] self.users@[a].twitch_user_id@
                        != #[trigger] self.users@[b].twitch_user_id@,
            decreases self.users@.len() - i,
        {
            if self.users[i].id != (i + 1) as i32 {
                assert(self.users@[i as int].id != i + 1);
                return false;
            }
            let mut j: usize = 0;
            while j < i
                invariant
                    0 <= j <= i < self.users@.len(),
                    forall|a: int|
                        0 <= a < j ==> #[trigger] self.users@[a].twitch_user_id@
                            != self.users@[i as int].twitch_user_id@,
                decreases i - j,
            {
                if self.users[j].twitch_user_id == self.users[i].twitch_user_id {
                    assert(self.users@[j as int].twitch_user_id@
                        == self.users@[i as int].twitch_user_id@);
                    return false;
                }
                j = j + 1;
            }
            i = i + 1;
        }
        true
    }

    fn check_users_old_names(&self) -> (r: bool)
        ensures
            r == self.users_old_names_wf(),
    {
        if self.users_old_names.len() > i32::MAX as usize {
            return false;
        }
        let n_users = self.users.len();
        let mut i: usize = 0;
        while i < self.users_old_names.len()
            invariant
                self.users_old_names@.len() <= max_id32(),
                n_users == self.users@.len(),
                0 <= i <= self.users_old_names@.len(),
                forall|k: int|
                    #![trigger self.users_old_names@[k]]
                    0 <= k < i ==> {
                        &&& self.users_old_names@[k].id == k + 1
                        &&& self.has_user_id(self.users_old_names@[k].user_id)
                    },
            decreases self.users_old_names@.len() - i,
        {
            let row = &self.users_old_names[i];
            if row.id != (i + 1) as i32 || row.user_id < 1 || row.user_id as usize > n_users {
                assert(!({
                    &&& self.users_old_names@[i as int].id == i + 1
                    &&& self.has_user_id(self.users_old_names@[i as int].user_id)
                }));
                return false;
            }
            i = i + 1;
        }
        true
    }

    fn check_resubs(&self) -> (r: bool)
        ensures
            r == self.resubs_wf(),
    {
        if self.resubs.len() > i32::MAX as usize {
            return false;
        }
        let mut i: usize = 0;
        while i < self.resubs.len()
            invariant
                self.resubs@.len() <= max_id32(),
                0 <= i <= self.resubs@.len(),
                forall|k: int| 0 <= k < i ==> #[trigger] self.resubs@[k].id == k + 1,
            decreases self.resubs@.len() - i,
        {
            if self.resubs[i].id != (i + 1) as i32 {
                assert(self.resubs@[i as int].id != i + 1);
                return false;
            }
            i = i + 1;
        }
        true
    }

    fn check_messages(&self) -> (r: bool)
        ensures
            r == self.messages_wf(),
    {
        if self.messages.len() as u64 > i64::MAX as u64 {
            return false;
        }
        let n_users = self.users.len();
        let n_channels = self.channels.len();
        let n_resubs = self.resubs.len();
        let mut i: usize = 0;
        while i < self.messages.len()
            invariant
                self.messages@.len() <= i64::MAX,
                n_users == self.users@.len(),
                n_channels == self.channels@.len(),
                n_resubs == self.resubs@.len(),
                0 <= i <= self.messages@.len(),
                forall|k: int|
                    #![trigger self.messages@[k]]
                    0 <= k < i ==> {
                        &&& self.messages@[k].id == k + 1
                        &&& self.has_user_id(self.messages@[k].user_id)
                        &&& self.has_channel_id(self.messages@[k].channel_id)
                        &&& match self.messages@[k].resub_id {
                            Some(x) => self.has_resub_id(x),
                            None => true,
                        }
                    },
                forall|a: int, b: int|
                    0 <= a < b < i && (#[trigger] self.messages@[a].resub_id).is_some()
                        ==> self.messages@[a].resub_id != #[trigger] self.messages@[b].resub_id,
            decreases self.messages@.len() - i,
        {
            let row = &self.messages[i];
            let resub_ok = match row.resub_id {
                Some(x) => 1 <= x && x as usize <= n_resubs,
                None => true,
            };
            if row.id != (i as u64 + 1) as i64 || row.user_id < 1 || row.user_id as usize > n_users
                || row.channel_id < 1 || row.channel_id as usize > n_channels || !resub_ok {
                return false;
            }
            let mut j: usize = 0;
            while j < i
                invariant
                    0 <= j <= i < self.messages@.len(),
                    forall|a: int|
                        0 <= a < j && (#[trigger] self.messages@[a].resub_id).is_some()
                            ==> self.messages@[a].resub_id != self.messages@[i as int].resub_id,
                decreases i - j,
            {
                if self.messages[j].resub_id.is_some() && self.messages[j].resub_id
                    == self.messages[i].resub_id {
                    assert(self.messages@[j as int].resub_id == self.messages@[i as int].resub_id);
                    return false;
                }
                j = j + 1;
            }
            i = i + 1;
        }
        true
    }

    /// The index of the channel with this external id, if any.
    pub(crate) fn find_channel(&self, key: &String) -> (r: Option<usize>)
        requires
            self.wf(),
        ensures
            match r {
                Some(i) => i < self.channels@.len() && self.channels@[i as int].twitch_channel_id@
                    == key@,
                None => !self.has_channel(key@),
            },
    {
        let mut i: usize = 0;
        while i < self.channels.len()
            invariant
                0 <= i <= self.channels@.len(),
                forall|j: int| 0 <= j < i ==> #[trigger] self.channels@[j].twitch_channel_id@ != key@,
            decreases self.channels@.len() - i,
        {
            if self.channels[i].twitch_channel_id == *key {
                return Some(i);
            }
            i = i + 1;
        }
        None
    }

    /// The index of the user with this external id, if any.
    pub(crate) fn find_user(&self, key: &String) -> (r: Option<usize>)
        requires
            self.wf(),
        ensures
            match r {
                Some(i) => i < self.users@.len() && self.users@[i as int].twitch_user_id@ == key@,
                None => !self.has_user(key@),
            },
    {
        let mut i: usize = 0;
        while i < self.users.len()
            invariant
                0 <= i <= self.users@.len(),
                forall|j: int| 0 <= j < i ==> #[trigger] self.users@[j].twitch_user_id@ != key@,
            decreases self.users@.len() - i,
        {
            if self.users[i].twitch_user_id == *key {
                return Some(i);
            }
            i = i + 1;
        }
        None
    }
}

/// Relies on uuid's `Uuid::new_v4` (random) and `Uuid::as_u128`: a fresh
/// public identifier; nothing is known of its value.
#[verifier::external_body]
pub(crate) fn new_public_id() -> (r: u128) {
    uuid::Uuid::new_v4().as_u128()
}

impl Channel {
    /// A copy of this row.
    pub fn duplicate(&self) -> (r: Channel)
        ensures
            r == *self,
    {
        Channel {
            id: self.id,
            uuid: self.uuid,
            twitch_channel_id: self.twitch_channel_id.clone(),
            channel_name: self.channel_name.clone(),
        }
    }
}

impl User {
    /// A copy of this row.
    pub fn duplicate(&self) -> (r: User)
        ensures
            r == *self,
    {
        User {
            id: self.id,
            uuid: self.uuid,
            username: self.username.clone(),
            twitch_user_id: self.twitch_user_id.clone(),
        }
    }
}

} // verus!
