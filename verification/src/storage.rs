//! Session snapshots and the in-memory session store.
//!
//! A session is the unit of persistence: its id, the task it points at,
//! and the context snapshot. The in-memory store is viewed as a map from
//! session id to snapshot; after `save(s)`, `get(s.id)` returns a snapshot
//! carrying the same data, and deletes are idempotent. The relational
//! variant shares this contract but lives with the service around the
//! library, as it talks to a database.

use vstd::prelude::*;

use crate::context::{Context, ctx_map_like};
use crate::strutil::str_eq;

verus! {

/// Where a session stands in its lifecycle.
#[derive(Debug, Clone, Copy, PartialEq, Eq, Structural)]
pub enum SessionPhase {
    Active,
    Completed,
    Failed,
}

/// One persistent workflow session.
#[derive(Debug)]
pub struct Session {
    pub id: String,
    pub current_task_id: String,
    pub context: Context,
    pub status: SessionPhase,
}

/// Two sessions carry the same data.
pub open spec fn session_like(a: Session, b: Session) -> bool {
    &&& a.id@ == b.id@
    &&& a.current_task_id@ == b.current_task_id@
    &&& ctx_map_like(a.context@, b.context@)
    &&& a.status == b.status
}

impl Session {
    /// A fresh session positioned at the given task, with an empty context.
    pub fn new_from_task(id: String, task_id: String) -> (s: Session)
        ensures
            s.id@ == id@,
            s.current_task_id@ == task_id@,
            s.context@ == Map::<Seq<char>, crate::context::CtxValue>::empty(),
            s.status == SessionPhase::Active,
    {
        Session {
            id,
            current_task_id: task_id,
            context: Context::new(),
            status: SessionPhase::Active,
        }
    }
}

impl Clone for Session {
    fn clone(&self) -> (r: Self)
        ensures
            session_like(*self, r),
    {
        Session {
            id: self.id.clone(),
            current_task_id: self.current_task_id.clone(),
            context: self.context.clone(),
            status: self.status,
        }
    }
}

/// The in-memory storage variant: a map from session id to snapshot kept
/// in process memory. Later saves shadow earlier ones.
#[derive(Debug)]
pub struct InMemorySessionStorage {
    entries: Vec<(String, Session)>,
}

impl View for InMemorySessionStorage {
    type V = Map<Seq<char>, Session>;

    closed spec fn view(&self) -> Map<Seq<char>, Session> {
        InMemorySessionStorage::entries_map(self.entries@)
    }
}

impl InMemorySessionStorage {
    pub closed spec fn entries_map(s: Seq<(String, Session)>) -> Map<Seq<char>, Session>
        decreases s.len(),
    {
        if s.len() == 0 {
            Map::empty()
        } else {
            InMemorySessionStorage::entries_map(s.drop_last()).insert(s.last().0@, s.last().1)
        }
    }

    pub fn new() -> (r: Self)
        ensures
            r@ == Map::<Seq<char>, Session>::empty(),
    {
        InMemorySessionStorage { entries: Vec::new() }
    }

    /// Persist a snapshot under its id, replacing any earlier snapshot.
    pub fn save(&mut self, session: Session)
        ensures
            final(self)@ == old(self)@.insert(session.id@, session),
    {
        let key = session.id.clone();
        self.entries.push((key, session));
        proof {
            assert(self.entries@.drop_last() =~= old(self).entries@);
        }
    }

    /// Load the snapshot saved under an id; the caller receives a copy
    /// carrying the same data.
    pub fn get(&self, session_id: &str) -> (r: Option<Session>)
        ensures
            r is Some <==> self@.contains_key(session_id@),
            r is Some ==> session_like(self@[session_id@], r->0),
    {
        let mut i: usize = self.entries.len();
        proof {
            assert(self.entries@.subrange(0, self.entries@.len() as int) =~= self.entries@);
        }
        while i > 0
            invariant
                i <= self.entries@.len(),
                self@.contains_key(session_id@) ==> InMemorySessionStorage::entries_map(
                    self.entries@.subrange(0, i as int),
                ).contains_key(session_id@),
                self@.contains_key(session_id@) ==> InMemorySessionStorage::entries_map(
                    self.entries@.subrange(0, i as int),
                )[session_id@] == self@[session_id@],
                !self@.contains_key(session_id@) ==> !InMemorySessionStorage::entries_map(
                    self.entries@.subrange(0, i as int),
                ).contains_key(session_id@),
            decreases i,
        {
            let idx = i - 1;
            proof {
                assert(self.entries@.subrange(0, i as int).drop_last() =~= self.entries@.subrange(
                    0,
                    idx as int,
                ));
                assert(self.entries@.subrange(0, i as int).last() == self.entries@[idx as int]);
            }
            if str_eq(self.entries[idx].0.as_str(), session_id) {
                return Option::Some(self.entries[idx].1.clone());
            }
            i = idx;
        }
        proof {
            assert(self.entries@.subrange(0, 0) =~= Seq::<(String, Session)>::empty());
        }
        Option::None
    }

    /// The entries whose key differs from the given one, in order.
    spec fn without_key(s: Seq<(String, Session)>, key: Seq<char>, n: nat) -> Seq<(String, Session)>
        decreases n,
    {
        if n == 0 {
            Seq::<(String, Session)>::empty()
        } else {
            let rest = InMemorySessionStorage::without_key(s, key, (n - 1) as nat);
            if s[n - 1].0@ == key {
                rest
            } else {
                rest.push(s[n - 1])
            }
        }
    }

    proof fn lemma_without_key_map(s: Seq<(String, Session)>, key: Seq<char>, n: nat)
        requires
            n <= s.len(),
        ensures
            InMemorySessionStorage::entries_map(
                InMemorySessionStorage::without_key(s, key, n),
            ) == InMemorySessionStorage::entries_map(s.subrange(0, n as int)).remove(key),
        decreases n,
    {
        if n == 0 {
            assert(s.subrange(0, 0) =~= Seq::<(String, Session)>::empty());
            assert(Map::<Seq<char>, Session>::empty().remove(key) =~= Map::<
                Seq<char>,
                Session,
            >::empty());
        } else {
            InMemorySessionStorage::lemma_without_key_map(s, key, (n - 1) as nat);
            assert(s.subrange(0, n as int).drop_last() =~= s.subrange(0, n - 1));
            assert(s.subrange(0, n as int).last() == s[n - 1]);
            let prev = InMemorySessionStorage::entries_map(s.subrange(0, n - 1));
            if s[n - 1].0@ == key {
                assert(prev.insert(s[n - 1].0@, s[n - 1].1).remove(key) =~= prev.remove(key));
            } else {
                let w = InMemorySessionStorage::without_key(s, key, n);
                assert(w.drop_last() =~= InMemorySessionStorage::without_key(
                    s,
                    key,
                    (n - 1) as nat,
                ));
                assert(w.last() == s[n - 1]);
                assert(prev.insert(s[n - 1].0@, s[n - 1].1).remove(key) =~= prev.remove(
                    key,
                ).insert(s[n - 1].0@, s[n - 1].1));
            }
        }
    }

    /// Remove the snapshot saved under an id. Removing an absent id leaves
    /// the store unchanged: deletes are idempotent.
    pub fn delete(&mut self, session_id: &str)
        ensures
            final(self)@ == old(self)@.remove(session_id@),
    {
        let ghost orig = self.entries@;
        let initial_len = self.entries.len();
        proof {
            assert(orig.len() == initial_len);
        }
        let mut tail: Vec<(String, Session)> = Vec::new();
        while self.entries.len() > 0
            invariant
                orig.len() <= usize::MAX,
                self.entries@ == orig.subrange(0, self.entries@.len() as int),
                tail@.len() == orig.len() - self.entries@.len(),
                forall|j: int|
                    0 <= j < tail@.len() ==> #[trigger] tail@[j] == orig[orig.len() - 1 - j],
            decreases self.entries@.len(),
        {
            let ghost pre = self.entries@;
            let pair = self.entries.pop().unwrap();
            proof {
                assert(pair == orig[pre.len() - 1]);
            }
            tail.push(pair);
            proof {
                assert(self.entries@ =~= orig.subrange(0, self.entries@.len() as int));
            }
        }
        let mut i: usize = 0;
        while tail.len() > 0
            invariant
                orig.len() <= usize::MAX,
                i <= orig.len(),
                i == orig.len() - tail@.len(),
                forall|j: int|
                    0 <= j < tail@.len() ==> #[trigger] tail@[j] == orig[orig.len() - 1 - j],
                self.entries@ == InMemorySessionStorage::without_key(orig, session_id@, i as nat),
            decreases tail@.len(),
        {
            let pair = tail.pop().unwrap();
            proof {
                assert(pair == orig[i as int]);
            }
            if !str_eq(pair.0.as_str(), session_id) {
                self.entries.push(pair);
            }
            i = i + 1;
        }
        proof {
            InMemorySessionStorage::lemma_without_key_map(orig, session_id@, orig.len() as nat);
            assert(orig.subrange(0, orig.len() as int) =~= orig);
        }
    }
}

/// Law: a save followed by a load of the same id finds the saved snapshot.
/// Together with the contracts of `save` and `get`, after `save(s)` the
/// call `get(s.id)` returns a session carrying the same data as `s`.
pub proof fn lemma_save_then_get(m: Map<Seq<char>, Session>, s: Session)
    ensures
        m.insert(s.id@, s).contains_key(s.id@),
        m.insert(s.id@, s)[s.id@] == s,
{
}

} // verus!
