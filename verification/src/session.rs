//! The per-user session store: an ordered pending-question queue and the one
//! question currently awaiting an answer, kept in a map from user identifier
//! to session. Every operation is specified as a transformation of the
//! store's mathematical model, a `Map` from user id to a pending sequence
//! plus an optional current question.
//!
//! A session is created lazily the first time a user's queue is touched and
//! is never expired. The store itself is a plain value; callers that serve
//! concurrent users wrap it in a lock and hold the lock exactly for the
//! duration of one operation (or one read-modify-write sequence), which is
//! what makes each such sequence atomic per user.

use std::collections::HashMap;
use vstd::prelude::*;

use crate::questions::{question_models, Question, QuestionModel};

verus! {

broadcast use vstd::std_specs::hash::group_hash_axioms;

/// One user's conversational state.
#[derive(Debug)]
pub struct Session {
    /// Questions still to be asked, in order.
    pub pending: Vec<Question>,
    /// The question most recently presented and not yet resolved.
    pub current: Option<Question>,
}

/// The mathematical value of a [`Session`].
#[verifier::ext_equal]
pub struct SessModel {
    pub pending: Seq<QuestionModel>,
    pub current: Option<QuestionModel>,
}

/// The view of an optional question.
pub open spec fn opt_question_model(o: Option<Question>) -> Option<QuestionModel> {
    match o {
        Some(q) => Some(q@),
        None => None,
    }
}

impl View for Session {
    type V = SessModel;

    open spec fn view(&self) -> SessModel {
        SessModel {
            pending: question_models(self.pending@),
            current: opt_question_model(self.current),
        }
    }
}

/// The model of a whole session map.
pub open spec fn store_view(h: Map<i64, Session>) -> Map<i64, SessModel> {
    h.map_values(|s: Session| s@)
}

/// The pending queue of a user; empty when the user has no session yet.
pub open spec fn pending_of(m: Map<i64, SessModel>, user_id: i64) -> Seq<QuestionModel> {
    if m.contains_key(user_id) {
        m[user_id].pending
    } else {
        Seq::empty()
    }
}

/// The currently awaited question of a user; none when the user has no
/// session yet.
pub open spec fn current_of(m: Map<i64, SessModel>, user_id: i64) -> Option<QuestionModel> {
    if m.contains_key(user_id) {
        m[user_id].current
    } else {
        None
    }
}

/// The store after appending `qs` to a user's queue.
pub open spec fn enqueue_model(
    m: Map<i64, SessModel>,
    user_id: i64,
    qs: Seq<QuestionModel>,
) -> Map<i64, SessModel> {
    m.insert(
        user_id,
        SessModel { pending: pending_of(m, user_id) + qs, current: current_of(m, user_id) },
    )
}

/// The store after prepending `qs` to a user's queue, keeping the given
/// order at the head.
pub open spec fn enqueue_front_model(
    m: Map<i64, SessModel>,
    user_id: i64,
    qs: Seq<QuestionModel>,
) -> Map<i64, SessModel> {
    m.insert(
        user_id,
        SessModel { pending: qs + pending_of(m, user_id), current: current_of(m, user_id) },
    )
}

/// The store after clearing a user's current question, with the queue left
/// alone.
pub open spec fn clear_current_model(m: Map<i64, SessModel>, user_id: i64) -> Map<i64, SessModel> {
    if m.contains_key(user_id) {
        m.insert(user_id, SessModel { pending: m[user_id].pending, current: None })
    } else {
        m
    }
}

/// The store after dropping a user's whole session: queue emptied, current
/// cleared.
pub open spec fn clear_all_model(m: Map<i64, SessModel>, user_id: i64) -> Map<i64, SessModel> {
    m.remove(user_id)
}

/// The store after one advance: the head of the queue becomes current, or,
/// with an empty queue, the current question is cleared.
pub open spec fn advance_model(m: Map<i64, SessModel>, user_id: i64) -> Map<i64, SessModel> {
    if pending_of(m, user_id).len() == 0 {
        clear_current_model(m, user_id)
    } else {
        m.insert(
            user_id,
            SessModel {
                pending: pending_of(m, user_id).drop_first(),
                current: Some(pending_of(m, user_id).first()),
            },
        )
    }
}

/// The question an advance hands out: the head of the queue, if any.
pub open spec fn advanced_question(m: Map<i64, SessModel>, user_id: i64) -> Option<QuestionModel> {
    if pending_of(m, user_id).len() == 0 {
        None
    } else {
        Some(pending_of(m, user_id).first())
    }
}

/// Inserting into the underlying map is inserting the view into the model.
proof fn lemma_store_view_insert(h: Map<i64, Session>, k: i64, s: Session)
    ensures
        store_view(h.insert(k, s)) == store_view(h).insert(k, s@),
{
    assert(store_view(h.insert(k, s)) =~= store_view(h).insert(k, s@));
}

/// Removing from the underlying map is removing from the model.
proof fn lemma_store_view_remove(h: Map<i64, Session>, k: i64)
    ensures
        store_view(h.remove(k)) == store_view(h).remove(k),
{
    assert(store_view(h.remove(k)) =~= store_view(h).remove(k));
}

/// Deep copy of a question list; the copies have the original values.
pub fn duplicate_questions(v: &Vec<Question>) -> (r: Vec<Question>)
    ensures
        question_models(r@) == question_models(v@),
{
    let mut out: Vec<Question> = Vec::new();
    let mut i: usize = 0;
    while i < v.len()
        invariant
            i <= v.len(),
            out@.len() == i,
            forall|j: int| 0 <= j < i ==> #[trigger] out@[j]@ == v@[j]@,
        decreases v.len() - i,
    {
        out.push(v[i].duplicate());
        i = i + 1;
    }
    proof {
        assert(question_models(out@) =~= question_models(v@));
    }
    out
}

/// The session store. One instance serves all users; operations address a
/// user by identifier.
#[derive(Debug)]
pub struct SessionStore {
    sessions: HashMap<i64, Session>,
}

impl View for SessionStore {
    type V = Map<i64, SessModel>;

    closed spec fn view(&self) -> Map<i64, SessModel> {
        store_view(self.sessions@)
    }
}

impl SessionStore {
    /// An empty store: no user has a session.
    pub fn new() -> (s: SessionStore)
        ensures
            s@ == Map::<i64, SessModel>::empty(),
    {
        let s = SessionStore { sessions: HashMap::new() };
        proof {
            assert(s@ =~= Map::<i64, SessModel>::empty());
        }
        s
    }

    /// Takes a user's session out of the map, or starts a fresh one.
    fn take_session(&mut self, user_id: i64) -> (s: Session)
        ensures
            s@.pending == pending_of(old(self)@, user_id),
            s@.current == current_of(old(self)@, user_id),
            final(self)@ == old(self)@.remove(user_id),
    {
        let r = self.sessions.remove(&user_id);
        proof {
            lemma_store_view_remove(old(self).sessions@, user_id);
            if r is None {
                assert(old(self)@.remove(user_id) =~= old(self)@);
            }
        }
        match r {
            Some(s) => s,
            None => {
                let s = Session { pending: Vec::new(), current: None };
                proof {
                    assert(s@.pending =~= pending_of(old(self)@, user_id));
                }
                s
            },
        }
    }

    /// Puts a user's session back into the map.
    fn put_session(&mut self, user_id: i64, session: Session)
        ensures
            final(self)@ == old(self)@.insert(user_id, session@),
    {
        self.sessions.insert(user_id, session);
        proof {
            lemma_store_view_insert(old(self).sessions@, user_id, session);
        }
    }

    /// Appends questions to the tail of a user's pending queue. The content
    /// is not inspected; appending nothing leaves the queue as it was.
    pub fn add_questions(&mut self, user_id: i64, new_questions: Vec<Question>)
        ensures
            final(self)@ == enqueue_model(old(self)@, user_id, question_models(new_questions@)),
    {
        let mut session = self.take_session(user_id);
        let mut qs = new_questions;
        session.pending.append(&mut qs);
        proof {
            assert(question_models(session.pending@) =~= pending_of(old(self)@, user_id)
                + question_models(new_questions@));
        }
        self.put_session(user_id, session);
        proof {
            assert(old(self)@.remove(user_id).insert(user_id, final(self)@[user_id])
                =~= enqueue_model(old(self)@, user_id, question_models(new_questions@)));
        }
    }

    /// Prepends questions to the head of a user's pending queue, preserving
    /// the given order at the head: they will be asked before everything
    /// that was already queued.
    pub fn add_questions_to_front(&mut self, user_id: i64, new_questions: Vec<Question>)
        ensures
            final(self)@ == enqueue_front_model(
                old(self)@,
                user_id,
                question_models(new_questions@),
            ),
    {
        let mut session = self.take_session(user_id);
        let mut combined = new_questions;
        combined.append(&mut session.pending);
        session.pending = combined;
        proof {
            assert(question_models(session.pending@) =~= question_models(new_questions@)
                + pending_of(old(self)@, user_id));
        }
        self.put_session(user_id, session);
        proof {
            assert(old(self)@.remove(user_id).insert(user_id, final(self)@[user_id])
                =~= enqueue_front_model(old(self)@, user_id, question_models(new_questions@)));
        }
    }

    /// Removes and returns the head of a user's pending queue, setting it as
    /// the current question. With an empty queue it returns nothing and
    /// leaves the current question unset.
    pub fn get_first_question(&mut self, user_id: i64) -> (r: Option<Question>)
        ensures
            final(self)@ == advance_model(old(self)@, user_id),
            opt_question_model(r) == advanced_question(old(self)@, user_id),
    {
        if !self.sessions.contains_key(&user_id) {
            proof {
                assert(!self@.contains_key(user_id));
            }
            return None;
        }
        proof {
            assert(self@.contains_key(user_id));
        }
        let mut session = self.take_session(user_id);
        if session.pending.len() == 0 {
            session.current = None;
            self.put_session(user_id, session);
            proof {
                assert(final(self)@ =~~= advance_model(old(self)@, user_id));
            }
            None
        } else {
            let ghost before = pending_of(old(self)@, user_id);
            let q = session.pending.remove(0);
            let handed_out = q.duplicate();
            proof {
                assert(q@ == before.first());
                assert(question_models(session.pending@) =~= before.drop_first());
            }
            session.current = Some(q);
            self.put_session(user_id, session);
            proof {
                assert(final(self)@ =~~= advance_model(old(self)@, user_id));
            }
            Some(handed_out)
        }
    }

    /// Drops a user's whole session: the queue is emptied and the current
    /// question is cleared.
    pub fn remove_all_questions(&mut self, user_id: i64)
        ensures
            final(self)@ == clear_all_model(old(self)@, user_id),
    {
        let r = self.sessions.remove(&user_id);
        proof {
            lemma_store_view_remove(old(self).sessions@, user_id);
        }
    }

    /// Hands out a copy of a user's pending queue, or nothing when the user
    /// has no session.
    pub fn get_all_questions(&self, user_id: i64) -> (r: Option<Vec<Question>>)
        ensures
            match r {
                Some(v) => self@.contains_key(user_id) && question_models(v@) == pending_of(
                    self@,
                    user_id,
                ),
                None => !self@.contains_key(user_id),
            },
    {
        match self.sessions.get(&user_id) {
            Some(session) => Some(duplicate_questions(&session.pending)),
            None => None,
        }
    }

    /// Whether a user's pending queue holds nothing (also true for a user
    /// with no session).
    pub fn is_question_queue_empty(&self, user_id: i64) -> (b: bool)
        ensures
            b == (pending_of(self@, user_id).len() == 0),
    {
        match self.sessions.get(&user_id) {
            Some(session) => session.pending.len() == 0,
            None => true,
        }
    }

    /// A copy of the question the user is currently being asked, if any.
    pub fn get_current_question(&self, user_id: i64) -> (r: Option<Question>)
        ensures
            opt_question_model(r) == current_of(self@, user_id),
    {
        match self.sessions.get(&user_id) {
            Some(session) => match &session.current {
                Some(q) => Some(q.duplicate()),
                None => None,
            },
            None => None,
        }
    }

    /// Clears a user's current question without touching the pending queue.
    pub fn set_current_question_nulled(&mut self, user_id: i64)
        ensures
            final(self)@ == clear_current_model(old(self)@, user_id),
    {
        let r = self.sessions.remove(&user_id);
        proof {
            lemma_store_view_remove(old(self).sessions@, user_id);
            if r is None {
                assert(old(self)@.remove(user_id) =~= old(self)@);
            }
        }
        match r {
            Some(mut session) => {
                session.current = None;
                self.put_session(user_id, session);
                proof {
                    assert(final(self)@ =~= clear_current_model(old(self)@, user_id));
                }
            },
            None => (),
        }
    }
}

/// Law: at any observation point a user has at most one current question.
/// The store models a user's state as a queue plus a single optional
/// current slot, and every operation above maps store to store, so no
/// reachable store can associate two awaited questions with one user; this
/// lemma pins the count down for any store value whatsoever.
pub proof fn lemma_at_most_one_current(m: Map<i64, SessModel>, user_id: i64)
    ensures
        (match current_of(m, user_id) {
            Some(_) => 1int,
            None => 0int,
        }) <= 1,
{
}

/// Law: prepending places the new questions strictly before everything
/// previously queued: the combined queue starts with the new questions in
/// their given order and continues with the old queue, unchanged and in
/// order, so every new question's position is strictly smaller than every
/// old question's position.
pub proof fn lemma_enqueue_front_orders(
    m: Map<i64, SessModel>,
    user_id: i64,
    qs: Seq<QuestionModel>,
)
    ensures
        ({
            let p = pending_of(enqueue_front_model(m, user_id, qs), user_id);
            let before = pending_of(m, user_id);
            &&& p.len() == qs.len() + before.len()
            &&& forall|i: int| 0 <= i < qs.len() ==> p[i] == qs[i]
            &&& forall|j: int| 0 <= j < before.len() ==> p[qs.len() + j] == before[j]
        }),
{
}

/// Law: two advances cannot both obtain the same single pending question.
/// From a queue of length one, the first advance hands the question out and
/// leaves the queue empty, so an advance serialized after it observes an
/// empty queue and obtains nothing.
pub proof fn lemma_advance_mutual_exclusion(m: Map<i64, SessModel>, user_id: i64)
    requires
        pending_of(m, user_id).len() == 1,
    ensures
        advanced_question(m, user_id) is Some,
        pending_of(advance_model(m, user_id), user_id).len() == 0,
        advanced_question(advance_model(m, user_id), user_id) is None,
{
}

/// Law: advancing on a drained queue clears the current question and hands
/// nothing out, and a further advance finds the store in the same state, so
/// completion is observed once per drained queue, not accumulated.
pub proof fn lemma_advance_on_empty(m: Map<i64, SessModel>, user_id: i64)
    requires
        pending_of(m, user_id).len() == 0,
    ensures
        advanced_question(m, user_id) is None,
        current_of(advance_model(m, user_id), user_id) is None,
        pending_of(advance_model(m, user_id), user_id).len() == 0,
        advance_model(advance_model(m, user_id), user_id) == advance_model(m, user_id),
{
    if m.contains_key(user_id) {
        assert(advance_model(advance_model(m, user_id), user_id) =~= advance_model(m, user_id));
    }
}

} // verus!
