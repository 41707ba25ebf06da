//! The model sessions that the gateway routes to.

use crate::text::text_eq;
use vstd::prelude::*;

verus! {

/// One running model-serving process.
#[derive(Debug)]
pub struct ModelSession {
    /// The key of the session, such as its process identifier.
    pub id: i32,
    /// The name that requests ask for in their `model` field.
    pub model_id: String,
    /// The local port the session listens on.
    pub port: i32,
    /// The credential that the session expects from the gateway.
    pub api_key: String,
}

/// Position of the first session that serves `model`, or the number of
/// sessions where none does.
pub open spec fn session_position(sessions: Seq<ModelSession>, model: Seq<char>) -> int
    decreases sessions.len(),
{
    if sessions.len() == 0 {
        0
    } else if sessions[0].model_id@ == model {
        0
    } else {
        1 + session_position(sessions.skip(1), model)
    }
}

/// Where the first `k` sessions do not serve `model` and the next one
/// does, or the list ends there, `k` is the position of `model`.
pub proof fn lemma_session_position(sessions: Seq<ModelSession>, model: Seq<char>, k: int)
    requires
        0 <= k <= sessions.len(),
        forall|j: int| 0 <= j < k ==> sessions[j].model_id@ != model,
        k == sessions.len() || sessions[k].model_id@ == model,
    ensures
        session_position(sessions, model) == k,
    decreases k,
{
    if k > 0 {
        let rest = sessions.skip(1);
        lemma_session_position(rest, model, k - 1);
    }
}

/// The position of `model` is a position of the list or its length; at
/// it stands a session that serves `model`, and before it none does.
pub proof fn lemma_session_position_found(sessions: Seq<ModelSession>, model: Seq<char>)
    ensures
        0 <= session_position(sessions, model) <= sessions.len(),
        session_position(sessions, model) < sessions.len() ==> sessions[session_position(
            sessions,
            model,
        )].model_id@ == model,
        forall|j: int|
            0 <= j < session_position(sessions, model) ==> (#[trigger] sessions[j]).model_id@
                != model,
    decreases sessions.len(),
{
    if sessions.len() > 0 && sessions[0].model_id@ != model {
        let rest = sessions.skip(1);
        lemma_session_position_found(rest, model);
        assert forall|j: int| 0 <= j < session_position(sessions, model) implies (
        #[trigger] sessions[j]).model_id@ != model by {
            if j > 0 {
                assert(rest[j - 1] == sessions[j]);
            }
        }
    }
}

/// Position of the first session that serves `model`, or the number of
/// sessions where none does.
pub fn find_session(sessions: &Vec<ModelSession>, model: &str) -> (at: usize)
    ensures
        at == session_position(sessions@, model@),
        at <= sessions.len(),
        at < sessions.len() ==> sessions@[at as int].model_id@ == model@,
        forall|j: int| 0 <= j < at ==> sessions@[j].model_id@ != model@,
{
    let mut i: usize = 0;
    while i < sessions.len()
        invariant
            i <= sessions.len(),
            forall|j: int| 0 <= j < i ==> sessions@[j].model_id@ != model@,
        decreases sessions.len() - i,
    {
        if text_eq(sessions[i].model_id.as_str(), model) {
            proof {
                lemma_session_position(sessions@, model@, i as int);
            }
            return i;
        }
        i += 1;
    }
    proof {
        lemma_session_position(sessions@, model@, i as int);
    }
    i
}

/// The sessions that are running, each under its own id, in the order in
/// which their ids were first registered.
pub struct SessionRegistry {
    sessions: Vec<ModelSession>,
}

impl SessionRegistry {
    /// The sessions in order.
    pub closed spec fn view(&self) -> Seq<ModelSession> {
        self.sessions@
    }

    /// No two sessions share an id.
    pub open spec fn wf(&self) -> bool {
        forall|i: int, j: int|
            0 <= i < j < self@.len() ==> (#[trigger] self@[i]).id != (#[trigger] self@[j]).id
    }

    /// The position of the session with `id`, or the number of sessions.
    pub open spec fn position(&self, id: i32) -> int {
        if exists|i: int| 0 <= i < self@.len() && self@[i].id == id {
            choose|i: int| 0 <= i < self@.len() && self@[i].id == id
        } else {
            self@.len() as int
        }
    }

    /// A registry without sessions.
    pub fn new() -> (registry: SessionRegistry)
        ensures
            registry@.len() == 0,
            registry.wf(),
    {
        SessionRegistry { sessions: Vec::new() }
    }

    /// The sessions in order.
    pub fn sessions(&self) -> (sessions: &Vec<ModelSession>)
        ensures
            sessions@ == self@,
    {
        &self.sessions
    }

    fn locate(&self, id: i32) -> (at: usize)
        requires
            self.wf(),
        ensures
            at == self.position(id),
            at <= self@.len(),
            at < self@.len() ==> self@[at as int].id == id,
            forall|j: int| 0 <= j < self@.len() && j != at ==> self@[j].id != id,
    {
        let mut i: usize = 0;
        while i < self.sessions.len()
            invariant
                i <= self.sessions.len(),
                self.wf(),
                forall|j: int| 0 <= j < i ==> self@[j].id != id,
            decreases self.sessions.len() - i,
        {
            if self.sessions[i].id == id {
                return i;
            }
            i += 1;
        }
        i
    }

    /// Registers `session`. A session already registered under the same
    /// id is replaced where it stands and handed back.
    pub fn register(&mut self, session: ModelSession) -> (replaced: Option<ModelSession>)
        requires
            old(self).wf(),
        ensures
            final(self).wf(),
            match replaced {
                Some(previous) => {
                    &&& old(self).position(session.id) < old(self)@.len()
                    &&& previous == old(self)@[old(self).position(session.id)]
                    &&& final(self)@ == old(self)@.update(old(self).position(session.id), session)
                },
                None => {
                    &&& old(self).position(session.id) == old(self)@.len()
                    &&& final(self)@ == old(self)@.push(session)
                },
            },
    {
        let at = self.locate(session.id);
        if at < self.sessions.len() {
            let previous = self.sessions.remove(at);
            self.sessions.insert(at, session);
            Some(previous)
        } else {
            self.sessions.push(session);
            None
        }
    }

    /// Takes the session with `id` out of the registry.
    pub fn unregister(&mut self, id: i32) -> (removed: Option<ModelSession>)
        requires
            old(self).wf(),
        ensures
            final(self).wf(),
            match removed {
                Some(session) => {
                    &&& old(self).position(id) < old(self)@.len()
                    &&& session == old(self)@[old(self).position(id)]
                    &&& final(self)@ == old(self)@.remove(old(self).position(id))
                },
                None => {
                    &&& old(self).position(id) == old(self)@.len()
                    &&& final(self)@ == old(self)@
                },
            },
    {
        let at = self.locate(id);
        if at < self.sessions.len() {
            let session = self.sessions.remove(at);
            Some(session)
        } else {
            None
        }
    }
}

} // verus!
