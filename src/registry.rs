//! The process-wide registry of poll sessions, keyed by external id.
use vstd::prelude::*;
use dashmap::DashMap;
use rocket::tokio::sync::broadcast::Receiver;
use crate::ids::{fresh_uuid, is_valid_session_id, uuid_accepts};
use crate::ledger::{VoteError, rows_after, selection_valid, update_vote};
use crate::models::{PollSession, PollState, VoteUpdate};

verus! {

#[verifier::external_type_specification]
#[verifier::external_body]
#[verifier::reject_recursive_types(K)]
#[verifier::reject_recursive_types(V)]
#[verifier::reject_recursive_types(S)]
pub struct ExDashMap<K, V, S>(DashMap<K, V, S>);

/// The entries of a session map, by key.
pub uninterp spec fn session_entries(m: DashMap<String, PollSession>) -> Map<Seq<char>, PollSession>;

/// What a request handler learns of an external id.
#[derive(Clone, Copy, Debug, PartialEq, Eq, Structural)]
pub enum SessionStatus {
    Open,
    Closed,
    NotFound,
}

/// Registering a session under an id that is already taken: a defect in id
/// generation, not a condition a user can cause.
#[derive(Clone, Copy, Debug, PartialEq, Eq, Structural)]
pub enum RegistryError {
    Collision,
}

/// The status of `id` among the registry's entries.
pub open spec fn status_in(entries: Map<Seq<char>, PollSession>, id: Seq<char>) -> SessionStatus {
    if !entries.dom().contains(id) {
        SessionStatus::NotFound
    } else if entries[id].state == PollState::Started {
        SessionStatus::Open
    } else {
        SessionStatus::Closed
    }
}

/// Relies on DashMap::new: an empty map.
#[verifier::external_body]
fn map_new() -> (r: DashMap<String, PollSession>)
    ensures
        session_entries(r).dom() == Set::<Seq<char>>::empty(),
{
    DashMap::new()
}

/// Relies on DashMap::view: the function is applied once to the value under
/// the key, and its result returned; `None` when the key is absent.
#[verifier::external_body]
fn map_view<R, F: FnOnce(&PollSession) -> R>(m: &DashMap<String, PollSession>, k: &String, f: F) -> (r: Option<R>)
    requires
        session_entries(*m).dom().contains(k@) ==> f.requires((&session_entries(*m)[k@],)),
    ensures
        r is Some <==> session_entries(*m).dom().contains(k@),
        r is Some ==> f.ensures((&session_entries(*m)[k@],), r->0),
{
    m.view(k, |_, v| f(v))
}

/// Relies on DashMap::insert: the key now maps to the value, whatever it held.
#[verifier::external_body]
fn map_insert(m: &mut DashMap<String, PollSession>, k: String, v: PollSession)
    ensures
        session_entries(*final(m)) == session_entries(*old(m)).insert(k@, v),
{
    m.insert(k, v);
}

/// Relies on DashMap::remove: the key is gone; true when it was there.
#[verifier::external_body]
fn map_remove(m: &mut DashMap<String, PollSession>, k: &String) -> (r: bool)
    ensures
        r == session_entries(*old(m)).dom().contains(k@),
        session_entries(*final(m)) == session_entries(*old(m)).remove(k@),
{
    m.remove(k).is_some()
}

/// Relies on DashMap::alter: the function is applied once to the value under
/// the key, if any, and its result stored there; other keys are untouched.
#[verifier::external_body]
fn map_alter<F: FnOnce(&String, PollSession) -> PollSession>(m: &mut DashMap<String, PollSession>, k: &String, f: F)
    requires
        session_entries(*old(m)).dom().contains(k@) ==> f.requires((k, session_entries(*old(m))[k@])),
    ensures
        !session_entries(*old(m)).dom().contains(k@) ==> session_entries(*final(m)) == session_entries(*old(m)),
        session_entries(*old(m)).dom().contains(k@) ==> exists|v: PollSession|
            f.ensures((k, session_entries(*old(m))[k@]), v)
            && session_entries(*final(m)) == session_entries(*old(m)).insert(k@, v),
{
    m.alter(k, f);
}

/// The registry of active sessions. Sessions enter on poll creation and
/// leave only through eviction.
pub struct SessionRegistry {
    sessions: DashMap<String, PollSession>,
}

impl SessionRegistry {
    /// The sessions held, by external id.
    pub closed spec fn entries(&self) -> Map<Seq<char>, PollSession> {
        session_entries(self.sessions)
    }

    pub fn new() -> (r: SessionRegistry)
        ensures
            r.entries().dom() == Set::<Seq<char>>::empty(),
    {
        SessionRegistry { sessions: map_new() }
    }

    /// Registers `session` under `id`; refused when the id is taken.
    pub fn insert(&mut self, id: String, session: PollSession) -> (r: Result<(), RegistryError>)
        ensures
            old(self).entries().dom().contains(id@) ==> r is Err
                && final(self).entries() == old(self).entries(),
            !old(self).entries().dom().contains(id@) ==> r is Ok
                && final(self).entries() == old(self).entries().insert(id@, session),
    {
        let taken = map_view(&self.sessions, &id, |s: &PollSession| -> (r: bool) ensures r { true });
        if taken.is_some() {
            return Err(RegistryError::Collision);
        }
        map_insert(&mut self.sessions, id, session);
        Ok(())
    }

    /// Opens a session for the durable poll `db_id` under a fresh random id,
    /// which is returned. Registration can only fail when the random id is
    /// already taken, which needs some registered id of the same length.
    pub fn create_session(&mut self, db_id: i64) -> (r: Result<String, RegistryError>)
        ensures
            r is Err ==> final(self).entries() == old(self).entries(),
            r is Err ==> exists|k: Seq<char>| k.len() == 36 && #[trigger] old(self).entries().dom().contains(k),
            r is Ok ==> r->Ok_0@.len() == 36 && uuid_accepts(r->Ok_0@),
            r is Ok ==> {
                let id = r->Ok_0@;
                &&& !old(self).entries().dom().contains(id)
                &&& final(self).entries().dom() == old(self).entries().dom().insert(id)
                &&& forall|k: Seq<char>| k != id && old(self).entries().dom().contains(k)
                    ==> final(self).entries()[k] == old(self).entries()[k]
                &&& final(self).entries()[id].state == PollState::Started
                &&& final(self).entries()[id].db_id == db_id
                &&& status_in(final(self).entries(), id) == SessionStatus::Open
            },
    {
        let id = fresh_uuid();
        let ghost key = id@;
        let session = PollSession::new(db_id);
        match self.insert(id.clone(), session) {
            Ok(()) => {
                assert(final(self).entries().dom() =~= old(self).entries().dom().insert(key));
                Ok(id)
            },
            Err(e) => {
                assert(old(self).entries().dom().contains(key));
                Err(e)
            },
        }
    }

    /// Whether the session under `id` is open, closed or unknown.
    pub fn get_session_state(&self, id: &String) -> (r: SessionStatus)
        ensures
            r == status_in(self.entries(), id@),
    {
        match self.lookup(id) {
            None => SessionStatus::NotFound,
            Some((PollState::Started, _)) => SessionStatus::Open,
            Some((PollState::Finished, _)) => SessionStatus::Closed,
        }
    }

    /// State and durable poll id of the session under `id`.
    pub fn lookup(&self, id: &String) -> (r: Option<(PollState, i64)>)
        ensures
            r == (if self.entries().dom().contains(id@) {
                Some((self.entries()[id@].state, self.entries()[id@].db_id))
            } else {
                None
            }),
    {
        map_view(
            &self.sessions,
            id,
            |s: &PollSession| -> (r: (PollState, i64)) ensures r == (s.state, s.db_id) { (s.state, s.db_id) },
        )
    }

    /// Sets the state of the session under `id`; nothing happens when it is
    /// absent. Returns whether it was present.
    pub fn mutate_state(&mut self, id: &String, state: PollState) -> (r: bool)
        ensures
            r == old(self).entries().dom().contains(id@),
            r ==> final(self).entries() == old(self).entries().insert(id@, (PollSession { state, ..old(self).entries()[id@] })),
            !r ==> final(self).entries() == old(self).entries(),
    {
        let present = self.lookup(id).is_some();
        map_alter(
            &mut self.sessions,
            id,
            |_k: &String, s: PollSession| -> (r: PollSession) ensures r == (PollSession { state, ..s }) { s.with_state(state) },
        );
        present
    }

    /// Evicts the session under `id`, which ends its subscriptions;
    /// idempotent. Returns whether it was present.
    pub fn remove(&mut self, id: &String) -> (r: bool)
        ensures
            r == old(self).entries().dom().contains(id@),
            final(self).entries() == old(self).entries().remove(id@),
    {
        map_remove(&mut self.sessions, id)
    }

    /// Sends a tally snapshot to the subscribers of the session under `id`.
    /// Returns whether the session was present.
    pub fn publish_tally(&self, id: &String, snapshot: Vec<VoteUpdate>) -> (r: bool)
        ensures
            r == self.entries().dom().contains(id@),
    {
        let sent = map_view(&self.sessions, id, move |s: &PollSession| -> (r: usize) { s.publish(snapshot) });
        sent.is_some()
    }

    /// A subscription to the snapshots published from now on for the session
    /// under `id`; `None` when it is unknown.
    pub fn subscribe(&self, id: &String) -> (r: Option<Receiver<Vec<VoteUpdate>>>)
        ensures
            r is Some <==> self.entries().dom().contains(id@),
    {
        map_view(&self.sessions, id, |s: &PollSession| -> (r: Receiver<Vec<VoteUpdate>>) { s.subscribe() })
    }
}

/// Records a voter's selection on the poll behind external id `id`.
/// `poll_options` are that poll's option ids and `is_multi` its flag, as the
/// durable store holds them; `rows` are the option ids the voter holds votes
/// for. A malformed id is a validation failure; an unknown or evicted id is
/// not found; a finished session is closed. Only an open session lets the
/// ledger rule run, and on any failure `rows` is left as it was. On success
/// the durable poll id is returned.
pub fn submit_vote(
    registry: &SessionRegistry,
    id: &String,
    poll_options: &Vec<i64>,
    is_multi: bool,
    rows: &mut Vec<i64>,
    requested: &Vec<i64>,
) -> (r: Result<i64, VoteError>)
    requires
        old(rows)@.no_duplicates(),
    ensures
        final(rows)@.no_duplicates(),
        r is Err ==> final(rows)@ == old(rows)@,
        !uuid_accepts(id@) ==> r is Err && r->Err_0 == VoteError::Validation,
        uuid_accepts(id@) && status_in(registry.entries(), id@) == SessionStatus::NotFound
            ==> r is Err && r->Err_0 == VoteError::NotFound,
        uuid_accepts(id@) && status_in(registry.entries(), id@) == SessionStatus::Closed
            ==> r is Err && r->Err_0 == VoteError::Closed,
        uuid_accepts(id@) && status_in(registry.entries(), id@) == SessionStatus::Open ==> {
            &&& (r is Ok <==> selection_valid(poll_options@, is_multi, requested@))
            &&& (r is Err ==> r->Err_0 == VoteError::Validation)
            &&& (r is Ok ==> r->Ok_0 == registry.entries()[id@].db_id
                && final(rows)@.to_set() == rows_after(poll_options@.to_set(), old(rows)@.to_set(), requested@.to_set()))
        },
{
    if !is_valid_session_id(id) {
        return Err(VoteError::Validation);
    }
    match registry.lookup(id) {
        None => Err(VoteError::NotFound),
        Some((PollState::Finished, _)) => Err(VoteError::Closed),
        Some((PollState::Started, db_id)) => {
            match update_vote(poll_options, is_multi, rows, requested) {
                Ok(()) => Ok(db_id),
                Err(e) => Err(e),
            }
        },
    }
}

} // verus!
