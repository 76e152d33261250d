//! The pool of voice sessions and the registry of agent profiles behind it:
//! spawning, status transitions, closing, queries and garbage collection.
//! Connecting to Vertex AI and holding the stream handles are left to the
//! caller, which calls `prepare_session` before connecting and
//! `admit_session` after.

use crate::error::IronclawError;
use crate::hot_reload::{
    count_loaded, ids_loaded_from, load_all_profiles, record_sources, register_all, AgentRegistry,
    LoadedProfile,
};
use crate::keyed::{
    keyed_map, keys_unique, lemma_filter_len_bound, lemma_keyed_map_at, lemma_keyed_map_contains, lemma_keyed_map_filter,
    lemma_keyed_map_finite, lemma_keyed_map_len, lemma_keyed_map_push, lemma_keyed_map_update,
};
use crate::models::{now_micros, AgentProfile, SessionStatus, VoiceSession};
use crate::platform::{uuid_text, uuid_text_spec};
use vstd::prelude::*;

verus! {

/// The key of a session in the pool: its id.
pub open spec fn session_key() -> spec_fn(VoiceSession) -> u128 {
    |session: VoiceSession| session.session_id
}

/// A session that garbage collection removes: closed, and last updated
/// before the cutoff.
pub open spec fn is_stale(session: VoiceSession, cutoff: i64) -> bool {
    session.status == SessionStatus::Closed && session.updated_at < cutoff
}

/// The sessions that survive garbage collection with the given cutoff.
pub open spec fn survives_gc(cutoff: i64) -> spec_fn(VoiceSession) -> bool {
    |session: VoiceSession| !is_stale(session, cutoff)
}

/// The sessions that count as active.
pub open spec fn counts_active() -> spec_fn(VoiceSession) -> bool {
    |session: VoiceSession| session.status.is_active_spec()
}

/// Ids of the active sessions of a pool.
pub open spec fn active_ids(sessions: Map<u128, VoiceSession>) -> Set<u128> {
    sessions.dom().filter(|id: u128| sessions[id].status.is_active_spec())
}

/// `after` is `before` without the stale sessions for `cutoff`, the other
/// sessions unchanged.
pub open spec fn swept(
    before: Map<u128, VoiceSession>,
    after: Map<u128, VoiceSession>,
    cutoff: i64,
) -> bool {
    &&& forall|id: u128|
        #[trigger] after.contains_key(id) <==> (before.contains_key(id) && !is_stale(
            before[id],
            cutoff,
        ))
    &&& forall|id: u128| #[trigger] after.contains_key(id) ==> after[id] == before[id]
}

/// The cutoff of a garbage collection run at clock reading `now` with the
/// given maximum age: `now - max_age`, or `i64::MIN` where that does not fit.
pub open spec fn gc_cutoff(now: i64, max_age_micros: i64) -> i64 {
    if i64::MIN <= now - max_age_micros <= i64::MAX {
        (now - max_age_micros) as i64
    } else {
        i64::MIN
    }
}

/// The error for an unknown session id: `SessionNotFound` with the id's
/// hyphenated text.
pub open spec fn session_not_found(error: IronclawError, id: u128) -> bool {
    error matches IronclawError::SessionNotFound(text) && text@ == uuid_text_spec(id)
}

/// `after` is `before` with the status of session `id` set to `status`: the
/// update time is restamped, nothing else changes.
pub open spec fn status_changed(
    before: Map<u128, VoiceSession>,
    after: Map<u128, VoiceSession>,
    id: u128,
    status: SessionStatus,
) -> bool {
    &&& after.dom() == before.dom()
    &&& after.remove(id) == before.remove(id)
    &&& after[id].status == status
    &&& after[id].session_id == id
    &&& after[id].agent_id == before[id].agent_id
    &&& after[id].created_at == before[id].created_at
    &&& after[id].caller_id == before[id].caller_id
    &&& after[id].turn_count == before[id].turn_count
}

/// The central session manager: the registry of agent profiles and the pool
/// of voice sessions keyed by session id.
pub struct SessionManager {
    agent_registry: AgentRegistry,
    sessions: Vec<VoiceSession>,
}

impl SessionManager {
    #[verifier::type_invariant]
    spec fn well_formed(self) -> bool {
        keys_unique(self.sessions@, session_key())
    }

    /// The pool of sessions, by session id.
    pub closed spec fn sessions_view(&self) -> Map<u128, VoiceSession> {
        keyed_map(self.sessions@, session_key())
    }

    /// The registry of agent profiles, by agent id.
    pub closed spec fn registry_view(&self) -> Map<Seq<char>, AgentProfile> {
        self.agent_registry@
    }

    /// The file each registered agent id was loaded from.
    pub closed spec fn registry_sources(&self) -> Map<Seq<char>, Option<Seq<char>>> {
        self.agent_registry.sources()
    }

    /// The pool holds finitely many sessions.
    pub proof fn lemma_pool_finite(&self)
        ensures
            self.sessions_view().dom().finite(),
    {
        lemma_keyed_map_finite(self.sessions@, session_key());
    }

    /// Create a new session manager with the given agent registry and no
    /// sessions.
    pub fn new(agent_registry: AgentRegistry) -> (manager: Self)
        ensures
            manager.registry_view() == agent_registry@,
            manager.sessions_view() == Map::<u128, VoiceSession>::empty(),
    {
        SessionManager { agent_registry, sessions: Vec::new() }
    }

    /// The registry of agent profiles.
    pub fn registry(&self) -> (registry: &AgentRegistry)
        ensures
            registry@ == self.registry_view(),
    {
        &self.agent_registry
    }

    /// Register (or replace) an agent profile. Returns whether its agent id
    /// was new.
    pub fn register_profile(&mut self, profile: AgentProfile) -> (is_new: bool)
        ensures
            is_new == !old(self).registry_view().contains_key(profile.agent_id@),
            final(self).registry_view() == old(self).registry_view().insert(
                profile.agent_id@,
                profile,
            ),
            final(self).registry_sources() == old(self).registry_sources().insert(
                profile.agent_id@,
                None,
            ),
            final(self).sessions_view() == old(self).sessions_view(),
    {
        proof {
            use_type_invariant(&*self);
        }
        let mut registry = AgentRegistry::new();
        std::mem::swap(&mut registry, &mut self.agent_registry);
        let is_new = registry.insert(profile);
        self.agent_registry = registry;
        is_new
    }

    /// Register (or replace) an agent profile loaded from the file `path`
    /// (a profile file created or modified). Returns whether its agent id was
    /// new.
    pub fn register_profile_from_file(&mut self, profile: AgentProfile, path: &str) -> (is_new:
        bool)
        ensures
            is_new == !old(self).registry_view().contains_key(profile.agent_id@),
            final(self).registry_view() == old(self).registry_view().insert(
                profile.agent_id@,
                profile,
            ),
            final(self).registry_sources() == old(self).registry_sources().insert(
                profile.agent_id@,
                Some(path@),
            ),
            final(self).sessions_view() == old(self).sessions_view(),
    {
        proof {
            use_type_invariant(&*self);
        }
        let mut registry = AgentRegistry::new();
        std::mem::swap(&mut registry, &mut self.agent_registry);
        let is_new = registry.insert_from_file(profile, path);
        self.agent_registry = registry;
        is_new
    }

    /// Remove the agent profiles loaded from the file `path` (a profile file
    /// deleted). Returns how many were removed.
    pub fn remove_profiles_from(&mut self, path: &str) -> (removed: usize)
        ensures
            final(self).registry_view() == old(self).registry_view().remove_keys(
                ids_loaded_from(old(self).registry_sources(), path@),
            ),
            final(self).registry_sources() == old(self).registry_sources().remove_keys(
                ids_loaded_from(old(self).registry_sources(), path@),
            ),
            old(self).registry_view().dom().finite(),
            removed == old(self).registry_view().len() - final(self).registry_view().len(),
            final(self).sessions_view() == old(self).sessions_view(),
    {
        proof {
            use_type_invariant(&*self);
        }
        let mut registry = AgentRegistry::new();
        std::mem::swap(&mut registry, &mut self.agent_registry);
        let removed = registry.remove_profiles_from(path);
        self.agent_registry = registry;
        removed
    }

    /// Register the profiles of a directory scan (see
    /// `hot_reload::load_all_profiles`). Returns how many loaded.
    pub fn load_profiles(&mut self, loaded: Vec<LoadedProfile>) -> (count: usize)
        ensures
            final(self).registry_view() == register_all(old(self).registry_view(), loaded@),
            final(self).registry_sources() == record_sources(
                old(self).registry_sources(),
                loaded@,
            ),
            count == count_loaded(loaded@),
            final(self).sessions_view() == old(self).sessions_view(),
    {
        proof {
            use_type_invariant(&*self);
        }
        let mut registry = AgentRegistry::new();
        std::mem::swap(&mut registry, &mut self.agent_registry);
        let count = load_all_profiles(&mut registry, loaded);
        self.agent_registry = registry;
        count
    }

    /// Get the number of registered agent profiles.
    pub fn profile_count(&self) -> (count: usize)
        ensures
            count == self.registry_view().len(),
    {
        self.agent_registry.len()
    }

    /// Position of the session with the given id, if any.
    fn position(&self, session_id: u128) -> (index: Option<usize>)
        ensures
            match index {
                Some(i) => i < self.sessions@.len() && self.sessions@[i as int].session_id
                    == session_id && self.sessions_view().contains_key(session_id)
                    && self.sessions_view()[session_id] == self.sessions@[i as int],
                None => !self.sessions_view().contains_key(session_id),
            },
    {
        proof {
            use_type_invariant(self);
        }
        let mut i: usize = 0;
        while i < self.sessions.len()
            invariant
                i <= self.sessions@.len(),
                keys_unique(self.sessions@, session_key()),
                forall|j: int| 0 <= j < i ==> self.sessions@[j].session_id != session_id,
            decreases self.sessions@.len() - i,
        {
            if self.sessions[i].session_id == session_id {
                proof {
                    lemma_keyed_map_at(self.sessions@, session_key(), i as int);
                }
                return Some(i);
            }
            i = i + 1;
        }
        proof {
            lemma_keyed_map_contains(self.sessions@, session_key(), session_id);
        }
        None
    }

    /// First half of spawning a session: resolve the agent profile and create
    /// the session record, already in the Connected state. The caller then
    /// connects to Vertex AI with that profile.
    pub fn prepare_session(&self, agent_id: &str, caller_id: Option<String>) -> (result: Result<
        VoiceSession,
        IronclawError,
    >)
        ensures
            match result {
                Ok(session) => {
                    &&& self.registry_view().contains_key(agent_id@)
                    &&& session.agent_id@ == agent_id@
                    &&& session.caller_id == caller_id
                    &&& session.status == SessionStatus::Connected
                    &&& session.turn_count == 0
                },
                Err(e) => !self.registry_view().contains_key(agent_id@) && (
                e matches IronclawError::AgentNotFound(id) && id@ == agent_id@),
            },
    {
        match self.agent_registry.resolve(agent_id) {
            Ok(_) => {
                let mut session = VoiceSession::new(agent_id, caller_id);
                session.transition(SessionStatus::Connected);
                Ok(session)
            },
            Err(e) => Err(e),
        }
    }

    /// Second half of spawning a session, once the Vertex AI stream is set
    /// up: mark it SetupSent, store it (replacing any session with the same
    /// id) and bring it Live. Returns its id.
    pub fn admit_session(&mut self, session: VoiceSession) -> (session_id: u128)
        ensures
            session_id == session.session_id,
            final(self).registry_view() == old(self).registry_view(),
            final(self).sessions_view().contains_key(session_id),
            final(self).sessions_view().remove(session_id) == old(self).sessions_view().remove(
                session_id,
            ),
            ({
                let stored = final(self).sessions_view()[session_id];
                &&& stored.status == SessionStatus::Live
                &&& stored.session_id == session_id
                &&& stored.agent_id == session.agent_id
                &&& stored.created_at == session.created_at
                &&& stored.caller_id == session.caller_id
                &&& stored.turn_count == session.turn_count
            }),
    {
        proof {
            use_type_invariant(&*self);
        }
        let mut session = session;
        session.transition(SessionStatus::SetupSent);
        let session_id = session.session_id;
        let ghost before = self.sessions@;
        let position = self.position(session_id);
        let mut sessions: Vec<VoiceSession> = Vec::new();
        std::mem::swap(&mut sessions, &mut self.sessions);
        match position {
            Some(i) => {
                proof {
                    lemma_keyed_map_update(before, session_key(), i as int, session);
                }
                sessions.set(i, session);
            },
            None => {
                proof {
                    lemma_keyed_map_push(before, session_key(), session);
                }
                sessions.push(session);
            },
        }
        self.sessions = sessions;
        let ghost stored = self.sessions_view();
        let updated = self.update_status(session_id, SessionStatus::Live);
        assert(updated is Ok);
        assert(self.sessions_view().remove(session_id) =~= old(self).sessions_view().remove(
            session_id,
        )) by {
            assert(stored.remove(session_id) =~= old(self).sessions_view().remove(session_id));
        }
        session_id
    }

    /// Update a session's status (and its update time), or report
    /// `SessionNotFound` for an unknown id.
    pub fn update_status(&mut self, session_id: u128, new_status: SessionStatus) -> (result:
        Result<(), IronclawError>)
        ensures
            final(self).registry_view() == old(self).registry_view(),
            result is Ok <==> old(self).sessions_view().contains_key(session_id),
            result is Ok ==> status_changed(
                old(self).sessions_view(),
                final(self).sessions_view(),
                session_id,
                new_status,
            ),
            result is Err ==> final(self).sessions_view() == old(self).sessions_view(),
            result matches Err(e) ==> session_not_found(e, session_id),
    {
        proof {
            use_type_invariant(&*self);
        }
        let ghost before = self.sessions@;
        match self.position(session_id) {
            Some(i) => {
                let mut sessions: Vec<VoiceSession> = Vec::new();
                std::mem::swap(&mut sessions, &mut self.sessions);
                let mut session = sessions[i].snapshot();
                session.transition(new_status);
                proof {
                    lemma_keyed_map_update(before, session_key(), i as int, session);
                }
                sessions.set(i, session);
                self.sessions = sessions;
                assert(self.sessions_view().dom() =~= old(self).sessions_view().dom());
                assert(self.sessions_view().remove(session_id) =~= old(self).sessions_view().remove(session_id));
                Ok(())
            },
            None => Err(IronclawError::SessionNotFound(uuid_text(session_id))),
        }
    }

    /// Gracefully close a voice session: Draining, then Closed.
    pub fn close_session(&mut self, session_id: u128) -> (result: Result<(), IronclawError>)
        ensures
            final(self).registry_view() == old(self).registry_view(),
            result is Ok <==> old(self).sessions_view().contains_key(session_id),
            result is Ok ==> status_changed(
                old(self).sessions_view(),
                final(self).sessions_view(),
                session_id,
                SessionStatus::Closed,
            ),
            result is Err ==> final(self).sessions_view() == old(self).sessions_view(),
            result matches Err(e) ==> session_not_found(e, session_id),
    {
        let drained = self.update_status(session_id, SessionStatus::Draining);
        match drained {
            Ok(()) => {
                let ghost middle = self.sessions_view();
                let closed = self.update_status(session_id, SessionStatus::Closed);
                assert(closed is Ok);
                assert(self.sessions_view().remove(session_id) =~= old(self).sessions_view().remove(session_id)) by {
                    assert(middle.remove(session_id) =~= old(self).sessions_view().remove(
                        session_id,
                    ));
                }
                closed
            },
            Err(e) => Err(e),
        }
    }

    /// Get a snapshot of a session's current state.
    pub fn get_session(&self, session_id: u128) -> (session: Option<VoiceSession>)
        ensures
            match session {
                Some(s) => self.sessions_view().contains_key(session_id) && s
                    == self.sessions_view()[session_id],
                None => !self.sessions_view().contains_key(session_id),
            },
    {
        match self.position(session_id) {
            Some(i) => Some(self.sessions[i].snapshot()),
            None => None,
        }
    }

    /// Get a snapshot of all sessions, each once.
    pub fn list_sessions(&self) -> (sessions: Vec<VoiceSession>)
        ensures
            sessions@.len() == self.sessions_view().len(),
            forall|i: int|
                0 <= i < sessions@.len() ==> self.sessions_view().contains_key(
                    #[trigger] sessions@[i].session_id,
                ) && self.sessions_view()[sessions@[i].session_id] == sessions@[i],
            forall|id: u128|
                self.sessions_view().contains_key(id) ==> exists|i: int|
                    0 <= i < sessions@.len() && sessions@[i].session_id == id,
            forall|i: int, j: int|
                0 <= i < j < sessions@.len() ==> #[trigger] sessions@[i].session_id
                    != #[trigger] sessions@[j].session_id,
    {
        proof {
            use_type_invariant(self);
            lemma_keyed_map_len(self.sessions@, session_key());
        }
        let mut out: Vec<VoiceSession> = Vec::new();
        let mut i: usize = 0;
        while i < self.sessions.len()
            invariant
                i <= self.sessions@.len(),
                out@ == self.sessions@.take(i as int),
            decreases self.sessions@.len() - i,
        {
            out.push(self.sessions[i].snapshot());
            assert(self.sessions@.take(i + 1) =~= self.sessions@.take(i as int).push(
                self.sessions@[i as int],
            ));
            i = i + 1;
        }
        assert(self.sessions@.take(i as int) =~= self.sessions@);
        proof {
            assert forall|k: int| 0 <= k < out@.len() implies self.sessions_view().contains_key(
                #[trigger] out@[k].session_id,
            ) && self.sessions_view()[out@[k].session_id] == out@[k] by {
                lemma_keyed_map_at(self.sessions@, session_key(), k);
            }
            assert forall|id: u128| self.sessions_view().contains_key(id) implies exists|k: int|
                0 <= k < out@.len() && out@[k].session_id == id by {
                lemma_keyed_map_contains(self.sessions@, session_key(), id);
            }
            assert forall|a: int, b: int| 0 <= a < b < out@.len() implies #[trigger] out@[a].session_id
                != #[trigger] out@[b].session_id by {
                assert((session_key())(self.sessions@[a]) != (session_key())(self.sessions@[b]));
            }
        }
        out
    }

    /// Count active (neither Closed nor Error) sessions.
    pub fn active_count(&self) -> (count: usize)
        ensures
            active_ids(self.sessions_view()).finite(),
            count == active_ids(self.sessions_view()).len(),
    {
        proof {
            use_type_invariant(self);
        }
        let mut count: usize = 0;
        let mut i: usize = 0;
        while i < self.sessions.len()
            invariant
                i <= self.sessions@.len(),
                count == self.sessions@.take(i as int).filter(counts_active()).len(),
                count <= i,
            decreases self.sessions@.len() - i,
        {
            let ghost prefix = self.sessions@.take(i as int);
            assert(self.sessions@.take(i + 1).drop_last() =~= prefix);
            proof {
                reveal_with_fuel(Seq::filter, 1);
            }
            if self.sessions[i].status.is_active() {
                count = count + 1;
            }
            i = i + 1;
        }
        assert(self.sessions@.take(i as int) =~= self.sessions@);
        proof {
            let kept = self.sessions@.filter(counts_active());
            lemma_keyed_map_filter(self.sessions@, session_key(), counts_active());
            lemma_keyed_map_len(kept, session_key());
            assert(keyed_map(kept, session_key()).dom() =~= active_ids(self.sessions_view()));
        }
        count
    }

    /// Remove Closed sessions last updated before `cutoff` (microseconds
    /// since the epoch). Returns how many were removed.
    pub fn gc_before(&mut self, cutoff: i64) -> (removed: usize)
        ensures
            final(self).registry_view() == old(self).registry_view(),
            swept(old(self).sessions_view(), final(self).sessions_view(), cutoff),
            removed == old(self).sessions_view().len() - final(self).sessions_view().len(),
    {
        proof {
            use_type_invariant(&*self);
        }
        let ghost before = self.sessions@;
        let mut sessions: Vec<VoiceSession> = Vec::new();
        std::mem::swap(&mut sessions, &mut self.sessions);
        let total = sessions.len();
        let mut kept: Vec<VoiceSession> = Vec::new();
        while sessions.len() > 0
            invariant
                sessions@.len() <= before.len(),
                total == before.len(),
                sessions@ == before.subrange(before.len() - sessions@.len(), before.len() as int),
                kept@ == before.take(before.len() - sessions@.len()).filter(survives_gc(cutoff)),
            decreases sessions@.len(),
        {
            let ghost done = before.len() - sessions@.len();
            let session = sessions.remove(0);
            assert(session == before[done]);
            assert(before.take(done + 1).drop_last() =~= before.take(done));
            proof {
                reveal_with_fuel(Seq::filter, 1);
            }
            let stale = session.status == SessionStatus::Closed && session.updated_at < cutoff;
            if !stale {
                kept.push(session);
            }
            assert(sessions@ =~= before.subrange(before.len() - sessions@.len(), before.len() as int));
        }
        assert(before.take(before.len() as int) =~= before);
        proof {
            lemma_keyed_map_filter(before, session_key(), survives_gc(cutoff));
            lemma_keyed_map_len(before, session_key());
            lemma_keyed_map_len(kept@, session_key());
            lemma_filter_len_bound(before, survives_gc(cutoff));
        }
        let removed = total - kept.len();
        self.sessions = kept;
        removed
    }

    /// Garbage collection: remove Closed sessions whose last update is older
    /// than `max_age_micros` before the current clock reading `now`. Where
    /// `now - max_age_micros` does not fit in `i64`, no session is that old
    /// and nothing is removed.
    pub fn gc(&mut self, max_age_micros: i64) -> (removed: usize)
        ensures
            final(self).registry_view() == old(self).registry_view(),
            exists|now: i64|
                #[trigger] swept(
                    old(self).sessions_view(),
                    final(self).sessions_view(),
                    gc_cutoff(now, max_age_micros),
                ),
            removed == old(self).sessions_view().len() - final(self).sessions_view().len(),
    {
        let now = now_micros();
        self.gc_at(now, max_age_micros)
    }

    /// Garbage collection at clock reading `now`: remove Closed sessions
    /// whose last update is older than `max_age_micros` before `now`. Where
    /// `now - max_age_micros` does not fit in `i64`, nothing is removed.
    pub fn gc_at(&mut self, now: i64, max_age_micros: i64) -> (removed: usize)
        ensures
            final(self).registry_view() == old(self).registry_view(),
            swept(old(self).sessions_view(), final(self).sessions_view(), gc_cutoff(now, max_age_micros)),
            removed == old(self).sessions_view().len() - final(self).sessions_view().len(),
    {
        let cutoff = match now.checked_sub(max_age_micros) {
            Some(c) => c,
            None => i64::MIN,
        };
        assert(cutoff == gc_cutoff(now, max_age_micros));
        self.gc_before(cutoff)
    }
}

/// Garbage collection at clock reading `now` with a maximum age keeps every
/// session last updated no longer than that age before `now`, unchanged,
/// and removes every Closed session last updated longer ago (where
/// `now - max_age` fits in `i64`).
pub proof fn lemma_gc_respects_max_age(
    before: Map<u128, VoiceSession>,
    after: Map<u128, VoiceSession>,
    now: i64,
    max_age: i64,
    id: u128,
)
    requires
        swept(before, after, gc_cutoff(now, max_age)),
        before.contains_key(id),
    ensures
        before[id].updated_at >= now - max_age ==> after.contains_key(id) && after[id]
            == before[id],
        before[id].status == SessionStatus::Closed && before[id].updated_at < now - max_age
            && now - max_age <= i64::MAX ==> !after.contains_key(id),
{
    assert(after.contains_key(id) <==> (before.contains_key(id) && !is_stale(before[id], gc_cutoff(now, max_age))));
}

/// A status change to a status other than Closed and Error makes the
/// session active, whatever it was; a change to Closed or Error makes it
/// inactive. No other session's standing changes.
pub proof fn lemma_status_change_activity(
    before: Map<u128, VoiceSession>,
    after: Map<u128, VoiceSession>,
    id: u128,
    status: SessionStatus,
)
    requires
        before.contains_key(id),
        status_changed(before, after, id, status),
    ensures
        status != SessionStatus::Closed && status != SessionStatus::Error ==> active_ids(after)
            == active_ids(before).insert(id),
        status == SessionStatus::Closed || status == SessionStatus::Error ==> active_ids(after)
            == active_ids(before).remove(id),
{
    assert forall|k: u128| k != id implies (after.contains_key(k) == before.contains_key(k)) && (
    after.contains_key(k) ==> after[k] == before[k]) by {
        assert(after.remove(id).contains_key(k) == after.contains_key(k));
        assert(before.remove(id).contains_key(k) == before.contains_key(k));
        if after.contains_key(k) {
            assert(after.remove(id)[k] == after[k]);
        }
    }
    assert(after.contains_key(id)) by {
        assert(after.dom().contains(id));
    }
    if status != SessionStatus::Closed && status != SessionStatus::Error {
        assert(active_ids(after) =~= active_ids(before).insert(id));
    } else {
        assert(active_ids(after) =~= active_ids(before).remove(id));
    }
}

/// Garbage collection never removes, nor changes, a session that is still
/// active.
pub proof fn lemma_gc_keeps_active(
    before: Map<u128, VoiceSession>,
    after: Map<u128, VoiceSession>,
    cutoff: i64,
)
    requires
        swept(before, after, cutoff),
    ensures
        forall|id: u128|
            #[trigger] before.contains_key(id) && before[id].status.is_active_spec()
                ==> after.contains_key(id) && after[id] == before[id],
{
}

/// Admitting a session under a fresh id raises the active count by one.
pub proof fn lemma_admit_adds_active(
    before: Map<u128, VoiceSession>,
    after: Map<u128, VoiceSession>,
    id: u128,
)
    requires
        before.dom().finite(),
        !before.contains_key(id),
        after.contains_key(id),
        after.remove(id) == before.remove(id),
        after[id].status == SessionStatus::Live,
    ensures
        active_ids(after) == active_ids(before).insert(id),
        active_ids(after).len() == active_ids(before).len() + 1,
{
    assert(before.remove(id) =~= before);
    assert forall|k: u128| k != id implies (after.contains_key(k) == before.contains_key(k)) && (
    after.contains_key(k) ==> after[k] == before[k]) by {
        assert(after.remove(id).contains_key(k) == after.contains_key(k));
        assert(before.remove(id).contains_key(k) == before.contains_key(k));
        if after.contains_key(k) {
            assert(after.remove(id)[k] == after[k]);
        }
    }
    assert(active_ids(after) =~= active_ids(before).insert(id));
    assert(active_ids(before).finite()) by {
        assert(active_ids(before).subset_of(before.dom()));
        vstd::set_lib::lemma_set_subset_finite(before.dom(), active_ids(before));
    }
}

/// Closing a session that was active lowers the active count by one;
/// closing one that was not leaves the count as it was.
pub proof fn lemma_close_removes_active(
    before: Map<u128, VoiceSession>,
    after: Map<u128, VoiceSession>,
    id: u128,
)
    requires
        before.dom().finite(),
        before.contains_key(id),
        status_changed(before, after, id, SessionStatus::Closed),
    ensures
        active_ids(after) == active_ids(before).remove(id),
        active_ids(after).len() == (if before[id].status.is_active_spec() {
            active_ids(before).len() - 1
        } else {
            active_ids(before).len() as int
        }),
{
    assert forall|k: u128| k != id implies (after.contains_key(k) == before.contains_key(k)) && (
    after.contains_key(k) ==> after[k] == before[k]) by {
        assert(after.remove(id).contains_key(k) == after.contains_key(k));
        assert(before.remove(id).contains_key(k) == before.contains_key(k));
        if after.contains_key(k) {
            assert(after.remove(id)[k] == after[k]);
        }
    }
    assert(active_ids(after) =~= active_ids(before).remove(id));
    assert(active_ids(before).finite()) by {
        assert(active_ids(before).subset_of(before.dom()));
        vstd::set_lib::lemma_set_subset_finite(before.dom(), active_ids(before));
    }
}

} // verus!
