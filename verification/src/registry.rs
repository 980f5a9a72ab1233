//! The table of open sessions that both session managers keep: each session
//! is filed under an id handed out from a counter that starts at 1 and only
//! grows, so an id is never given to two sessions.

use std::collections::HashMap;
use vstd::prelude::*;
use vstd::std_specs::iter::IteratorSpec;

verus! {

broadcast use vstd::std_specs::hash::group_hash_axioms;

/// Every id filed in `sessions` is at least 1 and below `next_id`.
pub open spec fn ids_below<V>(sessions: Map<u32, V>, next_id: nat) -> bool {
    forall|k: u32| #[trigger] sessions.contains_key(k) ==> 1 <= k && k < next_id
}

/// Sessions filed under ids handed out in increasing order.
pub struct SessionRegistry<V> {
    sessions: HashMap<u32, V>,
    next_id: u32,
}

impl<V> SessionRegistry<V> {
    /// The open sessions, by id.
    pub closed spec fn sessions(&self) -> Map<u32, V> {
        self.sessions@
    }

    /// The id that the next opened session receives.
    pub closed spec fn next_id(&self) -> nat {
        self.next_id as nat
    }

    /// The counter is positive and lies above every filed id.
    pub open spec fn wf(&self) -> bool {
        &&& 1 <= self.next_id()
        &&& self.next_id() <= u32::MAX
        &&& ids_below(self.sessions(), self.next_id())
    }

    /// An empty table whose first id is 1.
    pub fn new() -> (r: Self)
        ensures
            r.wf(),
            r.sessions() == Map::<u32, V>::empty(),
            r.next_id() == 1,
    {
        SessionRegistry { sessions: HashMap::new(), next_id: 1 }
    }

    /// The id that the next opened session receives.
    pub fn next_session_id(&self) -> (r: u32)
        ensures
            r as nat == self.next_id(),
    {
        self.next_id
    }

    /// Files `value` under a fresh id and returns that id.
    pub fn open(&mut self, value: V) -> (id: u32)
        requires
            old(self).wf(),
            old(self).next_id() < u32::MAX,
        ensures
            final(self).wf(),
            id as nat == old(self).next_id(),
            !old(self).sessions().contains_key(id),
            final(self).sessions() == old(self).sessions().insert(id, value),
            final(self).next_id() == old(self).next_id() + 1,
    {
        let id = self.next_id;
        self.next_id = id + 1;
        self.sessions.insert(id, value);
        id
    }

    /// Takes the session filed under `id` out of the table, if there is one.
    pub fn remove(&mut self, id: u32) -> (r: Option<V>)
        requires
            old(self).wf(),
        ensures
            final(self).wf(),
            final(self).sessions() == old(self).sessions().remove(id),
            final(self).next_id() == old(self).next_id(),
            match r {
                Some(v) => old(self).sessions().contains_key(id) && v == old(self).sessions()[id],
                None => !old(self).sessions().contains_key(id),
            },
    {
        self.sessions.remove(&id)
    }

    /// The session filed under `id`, if there is one.
    pub fn get(&self, id: u32) -> (r: Option<&V>)
        ensures
            match r {
                Some(v) => self.sessions().contains_key(id) && *v == self.sessions()[id],
                None => !self.sessions().contains_key(id),
            },
    {
        self.sessions.get(&id)
    }

    /// Empties the table; ids already handed out stay used.
    pub fn clear(&mut self)
        requires
            old(self).wf(),
        ensures
            final(self).wf(),
            final(self).sessions() == Map::<u32, V>::empty(),
            final(self).next_id() == old(self).next_id(),
    {
        self.sessions.clear();
    }

    /// The ids of the open sessions, each once, in no particular order.
    pub fn ids(&self) -> (r: Vec<u32>)
        ensures
            r@.no_duplicates(),
            r@.len() == self.sessions().dom().len(),
            forall|k: u32| self.sessions().contains_key(k) <==> r@.contains(k),
    {
        let mut out: Vec<u32> = Vec::new();
        for k in it: self.sessions.keys()
            invariant
                out@ == it.seq().take(it.index()).unref(),
        {
            out.push(*k);
            proof {
                assert(it.seq().take(it.index() + 1) =~= it.seq().take(it.index()).push(k));
            }
        }
        proof {
            let keys = vstd::std_specs::hash::spec_keys_iter(&self.sessions).remaining();
            assert(keys.take(keys.len() as int) =~= keys);
            assert(out@ =~= keys.unref());
            assert(keys.unref().to_set() == self.sessions@.dom());
            assert forall|k: u32| self.sessions().contains_key(k) <==> out@.contains(k) by {
                if out@.contains(k) {
                    assert(out@.to_set().contains(k));
                }
                if self.sessions().contains_key(k) {
                    assert(out@.to_set().contains(k));
                }
            }
        }
        out
    }
}

/// A session is filed under an id that no open session holds, and the table
/// keeps every id below the counter once the counter moves past the new id:
/// an id is never handed out twice.
pub proof fn lemma_opened_id_is_fresh<V>(sessions: Map<u32, V>, next_id: nat, value: V)
    requires
        1 <= next_id < u32::MAX,
        ids_below(sessions, next_id),
    ensures
        !sessions.contains_key(next_id as u32),
        ids_below(sessions.insert(next_id as u32, value), next_id + 1),
        forall|k: u32| #[trigger] sessions.contains_key(k) ==> k < next_id,
{
}

/// Closing the session that was just opened gives back the table of open
/// sessions as it was before the opening.
pub proof fn lemma_close_undoes_open<V>(sessions: Map<u32, V>, next_id: nat, value: V)
    requires
        1 <= next_id < u32::MAX,
        ids_below(sessions, next_id),
    ensures
        sessions.insert(next_id as u32, value).remove(next_id as u32) == sessions,
{
    assert(sessions.insert(next_id as u32, value).remove(next_id as u32) =~= sessions);
}

/// Once a session is closed, closing it again finds nothing; the other
/// sessions are untouched by the first close.
pub proof fn lemma_closed_session_is_gone<V>(sessions: Map<u32, V>, id: u32)
    ensures
        !sessions.remove(id).contains_key(id),
        forall|k: u32|
            k != id ==> (#[trigger] sessions.remove(id).contains_key(k) <==> sessions.contains_key(
                k,
            )),
        sessions.remove(id).remove(id) == sessions.remove(id),
{
    assert(sessions.remove(id).remove(id) =~= sessions.remove(id));
}

} // verus!
