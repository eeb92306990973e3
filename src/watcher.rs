//! Handling of one feed event, and the startup sequence that precedes
//! streaming: token, channel onboarding in configured order, joins.
use crate::channels::{channel_upsert, create_channel_if_not_exists, get_channel_by_twitch_id};
use crate::classify::{
    classified, classify, EventView, classify_privmsg, classify_user_notice, privmsg_event,
    user_notice_event, ChatEvent, PrivmsgMessage, ServerMessage, UserNoticeEvent,
    UserNoticeMessage,
};
use crate::db::{Database, DbError};
use crate::messages::{create_message, message_recorded, message_refusal};
use crate::models::{Channel, ModelError};
use vstd::prelude::*;

verus! {

/// Why one feed event was not recorded.
#[derive(Debug, Clone)]
pub enum HandleError {
    /// The event could not be classified.
    Classification(ModelError),
    /// The event names a channel that is not stored.
    UnknownChannel,
    /// The store refused the write.
    Database(DbError),
}

/// The outcome of recording the classified event `ev`, from `old` to `new`.
pub open spec fn event_recorded(
    old: Database,
    new: Database,
    ev: EventView,
    r: Result<bool, HandleError>,
) -> bool {
    if !old.has_channel(ev.channel_id) {
        new == old && r == Err::<bool, HandleError>(HandleError::UnknownChannel)
    } else {
        let cid = old.channel_id_of(ev.channel_id);
        let refusal = message_refusal(
            old,
            cid,
            ev.resub is Some,
            ev.sender_id,
            ev.sender_login,
        );
        match r {
            Ok(b) => b && refusal is None && message_recorded(
                old,
                new,
                ev.text,
                ev.kind,
                cid,
                ev.send_time,
                ev.bits,
                ev.resub,
                ev.sender_id,
                ev.sender_login,
            ),
            Err(e) => new == old && match e {
                HandleError::Database(d) => refusal == Some(d),
                _ => false,
            },
        }
    }
}

/// The outcome of handling a classification result, from `old` to `new`.
pub open spec fn classification_handled(
    old: Database,
    new: Database,
    c: Result<Option<EventView>, ModelError>,
    r: Result<bool, HandleError>,
) -> bool {
    match c {
        Err(e) => new == old && r == Err::<bool, HandleError>(HandleError::Classification(e)),
        Ok(None) => new == old && r == Ok::<bool, HandleError>(false),
        Ok(Some(ev)) => event_recorded(old, new, ev, r),
    }
}

/// Records a classified event against the stored channel it names; the
/// sender's login is the observed username.
pub fn record_event(db: &mut Database, ev: ChatEvent) -> (r: Result<bool, HandleError>)
    requires
        old(db).wf(),
    ensures
        final(db).wf(),
        event_recorded(*old(db), *final(db), ev@, r),
{
    let channel = match get_channel_by_twitch_id(db, ev.channel_id.as_str()) {
        Some(c) => c,
        None => return Err(HandleError::UnknownChannel),
    };
    proof {
        db.lemma_channel_id_of(channel.id - 1);
    }
    match create_message(
        db,
        ev.text,
        ev.kind,
        channel.id,
        ev.send_time,
        ev.bits,
        ev.resub,
        ev.sender.id,
        ev.sender.login,
        ev.sender.name,
    ) {
        Ok(_) => Ok(true),
        Err(e) => Err(HandleError::Database(e)),
    }
}

/// Handles a standard message: it is recorded unless its channel is unknown
/// or the store refuses it. `Ok(true)`: recorded.
pub fn handle_priv_msg(db: &mut Database, msg: PrivmsgMessage) -> (r: Result<bool, HandleError>)
    requires
        old(db).wf(),
    ensures
        final(db).wf(),
        event_recorded(*old(db), *final(db), privmsg_event(msg), r),
{
    let ev = classify_privmsg(msg);
    record_event(db, ev)
}

/// Handles a user notice: only a resub with a text is recorded; a fresh
/// subscription or another notice is ignored (`Ok(false)`) and writes
/// nothing.
pub fn handle_user_notice(db: &mut Database, notice: UserNoticeMessage) -> (r: Result<
    bool,
    HandleError,
>)
    requires
        old(db).wf(),
    ensures
        final(db).wf(),
        classification_handled(*old(db), *final(db), user_notice_event(notice), r),
        notice.event matches UserNoticeEvent::SubOrResub { is_resub, .. } && !is_resub ==> {
            &&& r == Ok::<bool, HandleError>(false)
            &&& *final(db) == *old(db)
        },
{
    match classify_user_notice(notice) {
        Err(e) => Err(HandleError::Classification(e)),
        Ok(None) => Ok(false),
        Ok(Some(ev)) => record_event(db, ev),
    }
}

/// Handles one event of the feed. `Ok(true)`: recorded; `Ok(false)`:
/// ignored.
pub fn handle_message(db: &mut Database, message: ServerMessage) -> (r: Result<
    bool,
    HandleError,
>)
    requires
        old(db).wf(),
    ensures
        final(db).wf(),
        classification_handled(*old(db), *final(db), classified(message), r),
{
    match classify(message) {
        Err(e) => Err(HandleError::Classification(e)),
        Ok(None) => Ok(false),
        Ok(Some(ev)) => record_event(db, ev),
    }
}

/// Why the collector stopped. Nothing is retried: every one of these ends
/// the process.
#[derive(Debug, Clone)]
pub enum RunError {
    HandleError,
    GetTokenError,
    ApiError,
    ChannelNotExists(String),
    DbPoolError,
    DatabaseError,
}

/// The text that reports a run error.
pub open spec fn run_error_text(e: RunError) -> Seq<char> {
    match e {
        RunError::HandleError => "Unexpected Error!"@,
        RunError::GetTokenError => "Couldn't get token from twitch"@,
        RunError::ApiError => "Couldn't get info from twitch api"@,
        RunError::ChannelNotExists(name) => "Couldn't find channel with name \""@ + name@ + "\""@,
        RunError::DbPoolError => "Couldn't get connection to database from pool"@,
        RunError::DatabaseError => "Database error"@,
    }
}

impl RunError {
    /// A copy of this error.
    pub fn duplicate(&self) -> (r: RunError)
        ensures
            r == *self,
    {
        match self {
            RunError::HandleError => RunError::HandleError,
            RunError::GetTokenError => RunError::GetTokenError,
            RunError::ApiError => RunError::ApiError,
            RunError::ChannelNotExists(name) => RunError::ChannelNotExists(name.clone()),
            RunError::DbPoolError => RunError::DbPoolError,
            RunError::DatabaseError => RunError::DatabaseError,
        }
    }

    /// The text that reports this error.
    pub fn to_message(&self) -> (r: String)
        ensures
            r@ == run_error_text(*self),
    {
        match self {
            RunError::HandleError => String::from_str("Unexpected Error!"),
            RunError::GetTokenError => String::from_str("Couldn't get token from twitch"),
            RunError::ApiError => String::from_str("Couldn't get info from twitch api"),
            RunError::ChannelNotExists(name) => {
                let mut text = String::from_str("Couldn't find channel with name \"");
                text.append(name.as_str());
                text.append("\"");
                text
            },
            RunError::DbPoolError => String::from_str(
                "Couldn't get connection to database from pool",
            ),
            RunError::DatabaseError => String::from_str("Database error"),
        }
    }
}

/// Where startup stands. Streaming is entered only after every configured
/// channel is onboarded and joined.
#[derive(Debug, Clone)]
pub enum Phase {
    /// Waiting for the access token.
    Connecting,
    /// Resolving and storing the configured channel at this index.
    Onboarding(usize),
    /// All channels stored; waiting for the joins.
    Joining,
    /// Consuming the feed.
    Streaming,
    /// Stopped for good.
    Terminated(RunError),
}

/// What the caller does next, as the startup sequence asks.
#[derive(Debug, Clone)]
pub enum Action {
    RequestToken,
    LookupChannel(String),
    JoinChannels(Vec<String>),
    Consume,
    Stop(RunError),
}

/// What the caller reports back after an action.
#[derive(Debug, Clone)]
pub enum StartupEvent {
    TokenAcquired,
    TokenFailed,
    /// The platform knows the channel, under this external id.
    ChannelFound(String),
    /// The platform knows no channel of that name.
    ChannelMissing,
    ApiFailed,
    PoolFailed,
    Joined,
    FeedEnded,
}

/// A copy of a list of names.
fn copy_names(names: &Vec<String>) -> (r: Vec<String>)
    ensures
        r@ == names@,
{
    let mut r: Vec<String> = Vec::new();
    let mut i: usize = 0;
    while i < names.len()
        invariant
            0 <= i <= names@.len(),
            r@ == names@.take(i as int),
        decreases names@.len() - i,
    {
        r.push(names[i].clone());
        i = i + 1;
        assert(r@ =~= names@.take(i as int));
    }
    assert(names@.take(names@.len() as int) =~= names@);
    r
}

/// The startup sequence over the configured channel names.
pub struct Startup {
    pub channels: Vec<String>,
    pub onboarded: Vec<Channel>,
    pub phase: Phase,
}

/// The phase after onboarding `done` of `n` channels.
pub open spec fn after_onboarding(done: int, n: int) -> Phase {
    if done < n {
        Phase::Onboarding(done as usize)
    } else {
        Phase::Joining
    }
}

impl Startup {
    pub open spec fn wf(&self) -> bool {
        match self.phase {
            Phase::Connecting => self.onboarded@.len() == 0,
            Phase::Onboarding(i) => i < self.channels@.len() && self.onboarded@.len() == i,
            Phase::Joining | Phase::Streaming => self.onboarded@.len() == self.channels@.len(),
            Phase::Terminated(_) => self.onboarded@.len() <= self.channels@.len(),
        }
    }

    /// A sequence at its start.
    pub fn new(channels: Vec<String>) -> (r: Startup)
        ensures
            r.wf(),
            r.channels == channels,
            r.onboarded@.len() == 0,
            r.phase is Connecting,
    {
        Startup { channels, onboarded: Vec::new(), phase: Phase::Connecting }
    }

    /// The action that the current phase asks for.
    pub fn next_action(&self) -> (r: Action)
        requires
            self.wf(),
        ensures
            match self.phase {
                Phase::Connecting => r is RequestToken,
                Phase::Onboarding(i) => r matches Action::LookupChannel(name) && name
                    == self.channels@[i as int],
                Phase::Joining => r matches Action::JoinChannels(names) && names@
                    == self.channels@,
                Phase::Streaming => r is Consume,
                Phase::Terminated(e) => r == Action::Stop(e),
            },
    {
        match &self.phase {
            Phase::Connecting => Action::RequestToken,
            Phase::Onboarding(i) => Action::LookupChannel(self.channels[*i].clone()),
            Phase::Joining => Action::JoinChannels(copy_names(&self.channels)),
            Phase::Streaming => Action::Consume,
            Phase::Terminated(e) => Action::Stop(e.duplicate()),
        }
    }

    /// Advances the sequence by the report of the last action. A found
    /// channel is stored if new; an event the phase does not expect changes
    /// nothing.
    pub fn step(&mut self, db: &mut Database, event: StartupEvent)
        requires
            old(self).wf(),
            old(db).wf(),
        ensures
            final(self).wf(),
            final(db).wf(),
            final(self).channels == old(self).channels,
            startup_step(*old(self), *old(db), event, *final(self), *final(db)),
    {
        let n = self.channels.len();
        match (&self.phase, event) {
            (Phase::Connecting, StartupEvent::TokenAcquired) => {
                self.phase = if n == 0 {
                    Phase::Joining
                } else {
                    Phase::Onboarding(0)
                };
            },
            (Phase::Connecting, StartupEvent::TokenFailed) => {
                self.phase = Phase::Terminated(RunError::GetTokenError);
            },
            (Phase::Onboarding(i), StartupEvent::ChannelFound(id)) => {
                let i = *i;
                let name = self.channels[i].clone();
                match create_channel_if_not_exists(db, id, name) {
                    Ok(c) => {
                        let ghost before = self.onboarded@;
                        self.onboarded.push(c);
                        assert(self.onboarded@.drop_last() =~= before);
                        self.phase = if i + 1 < n {
                            Phase::Onboarding(i + 1)
                        } else {
                            Phase::Joining
                        };
                    },
                    Err(_) => {
                        self.phase = Phase::Terminated(RunError::DatabaseError);
                    },
                }
            },
            (Phase::Onboarding(i), StartupEvent::ChannelMissing) => {
                let name = self.channels[*i].clone();
                self.phase = Phase::Terminated(RunError::ChannelNotExists(name));
            },
            (Phase::Onboarding(_), StartupEvent::ApiFailed) => {
                self.phase = Phase::Terminated(RunError::ApiError);
            },
            (Phase::Onboarding(_), StartupEvent::PoolFailed) => {
                self.phase = Phase::Terminated(RunError::DbPoolError);
            },
            (Phase::Joining, StartupEvent::Joined) => {
                self.phase = Phase::Streaming;
            },
            (Phase::Streaming, StartupEvent::FeedEnded) => {
                self.phase = Phase::Terminated(RunError::HandleError);
            },
            _ => {},
        }
    }
}

/// One step of the startup sequence, from (`s`, `db`) to (`t`, `new_db`).
pub open spec fn startup_step(
    s: Startup,
    db: Database,
    event: StartupEvent,
    t: Startup,
    new_db: Database,
) -> bool {
    let n = s.channels@.len() as int;
    match (s.phase, event) {
        (Phase::Connecting, StartupEvent::TokenAcquired) => new_db == db && t.onboarded
            == s.onboarded && t.phase == after_onboarding(0, n),
        (Phase::Connecting, StartupEvent::TokenFailed) => new_db == db && t.phase
            == Phase::Terminated(RunError::GetTokenError),
        (Phase::Onboarding(i), StartupEvent::ChannelFound(id)) => {
            let name = s.channels@[i as int]@;
            if t.phase is Terminated {
                &&& t.phase == Phase::Terminated(RunError::DatabaseError)
                &&& channel_upsert(db, id@, name, new_db, Err(DbError::IdExhausted))
            } else {
                &&& t.onboarded@.len() == s.onboarded@.len() + 1
                &&& t.onboarded@.drop_last() == s.onboarded@
                &&& channel_upsert(db, id@, name, new_db, Ok(t.onboarded@.last()))
                &&& t.phase == after_onboarding(i + 1, n)
            }
        },
        (Phase::Onboarding(i), StartupEvent::ChannelMissing) => new_db == db && t.phase
            == Phase::Terminated(RunError::ChannelNotExists(s.channels@[i as int])),
        (Phase::Onboarding(_), StartupEvent::ApiFailed) => new_db == db && t.phase
            == Phase::Terminated(RunError::ApiError),
        (Phase::Onboarding(_), StartupEvent::PoolFailed) => new_db == db && t.phase
            == Phase::Terminated(RunError::DbPoolError),
        (Phase::Joining, StartupEvent::Joined) => new_db == db && t.onboarded == s.onboarded
            && t.phase == Phase::Streaming,
        (Phase::Streaming, StartupEvent::FeedEnded) => new_db == db && t.phase
            == Phase::Terminated(RunError::HandleError),
        _ => new_db == db && t.onboarded == s.onboarded && t.phase == s.phase,
    }
}

/// A configured channel that the platform does not know stops startup
/// before any join, and a stopped sequence never moves again: it neither
/// joins nor streams.
pub proof fn lemma_missing_channel_aborts(
    s0: Startup,
    db0: Database,
    s1: Startup,
    db1: Database,
    later: Seq<StartupEvent>,
    states: Seq<Startup>,
    dbs: Seq<Database>,
)
    requires
        s0.phase is Onboarding,
        startup_step(s0, db0, StartupEvent::ChannelMissing, s1, db1),
        states.len() == later.len() + 1,
        dbs.len() == later.len() + 1,
        states[0] == s1,
        dbs[0] == db1,
        forall|k: int|
            0 <= k < later.len() ==> startup_step(
                #[trigger] states[k],
                dbs[k],
                later[k],
                states[k + 1],
                dbs[k + 1],
            ),
    ensures
        db1 == db0,
        s1.phase matches Phase::Terminated(e) && e is ChannelNotExists,
        forall|k: int| 0 <= k < states.len() ==> #[trigger] states[k].phase == s1.phase,
        forall|k: int| 0 <= k < dbs.len() ==> #[trigger] dbs[k] == db0,
    decreases later.len(),
{
    if later.len() > 0 {
        let n = later.len() - 1;
        lemma_missing_channel_aborts(
            s0,
            db0,
            s1,
            db1,
            later.take(n),
            states.take(n + 1),
            dbs.take(n + 1),
        );
        assert(states.take(n + 1)[n] == states[n]);
        assert(dbs.take(n + 1)[n] == dbs[n]);
        assert(startup_step(states[n], dbs[n], later[n], states[n + 1], dbs[n + 1]));
        assert forall|k: int| 0 <= k < states.len() implies #[trigger] states[k].phase
            == s1.phase by {
            if k <= n {
                assert(states.take(n + 1)[k] == states[k]);
            }
        }
        assert forall|k: int| 0 <= k < dbs.len() implies #[trigger] dbs[k] == db0 by {
            if k <= n {
                assert(dbs.take(n + 1)[k] == dbs[k]);
            }
        }
    }
}

} // verus!
