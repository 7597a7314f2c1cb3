//! The auxiliary per-agent key/value state, outside the critical path.

use vstd::prelude::*;
use crate::clock::now_timestamp_millis;
use crate::strmap::StringMap;

verus! {

/// One agent's state bag: structured values under string keys, with
/// timestamps that never move backwards.
pub struct AgentState {
    pub id: String,
    pub created_at: i64,
    pub updated_at: i64,
    pub data: StringMap<serde_json::Value>,
}

impl AgentState {
    pub open spec fn wf(&self) -> bool {
        self.data.wf()
    }

    pub fn new(id: &str) -> (r: AgentState)
        ensures
            r.wf(),
            r.id@ == id@,
            r.created_at == r.updated_at,
            r.data@ == Map::<Seq<char>, serde_json::Value>::empty(),
    {
        let now = now_timestamp_millis();
        AgentState { id: id.to_owned(), created_at: now, updated_at: now, data: StringMap::new() }
    }

    pub fn get(&self, key: &str) -> (r: Option<&serde_json::Value>)
        requires
            self.wf(),
        ensures
            match r {
                Some(v) => self.data@.contains_key(key@) && *v == self.data@[key@],
                None => !self.data@.contains_key(key@),
            },
    {
        self.data.get(key)
    }

    pub fn set(&mut self, key: &str, value: serde_json::Value)
        requires
            old(self).wf(),
        ensures
            final(self).wf(),
            final(self).id == old(self).id,
            final(self).created_at == old(self).created_at,
            final(self).updated_at >= old(self).updated_at,
            final(self).data@ == old(self).data@.insert(key@, value),
    {
        self.data.insert(key, value);
        let now = now_timestamp_millis();
        if now > self.updated_at {
            self.updated_at = now;
        }
    }

    pub fn remove(&mut self, key: &str)
        requires
            old(self).wf(),
        ensures
            final(self).wf(),
            final(self).id == old(self).id,
            final(self).created_at == old(self).created_at,
            final(self).updated_at >= old(self).updated_at,
            final(self).data@ == old(self).data@.remove(key@),
    {
        self.data.remove(key);
        let now = now_timestamp_millis();
        if now > self.updated_at {
            self.updated_at = now;
        }
    }

    pub fn contains_key(&self, key: &str) -> (r: bool)
        ensures
            r == self.data@.contains_key(key@),
    {
        self.data.contains_key(key)
    }
}

/// The store of every agent's state, keyed by agent identity.
pub struct StateStore {
    states: StringMap<AgentState>,
}

impl StateStore {
    /// Every stored state is well formed and keyed by its own identity.
    pub closed spec fn wf(&self) -> bool {
        &&& self.states.wf()
        &&& forall|k: Seq<char>|
            self.states@.contains_key(k) ==> (#[trigger] self.states@[k]).wf()
                && self.states@[k].id@ == k
    }

    pub closed spec fn view(&self) -> Map<Seq<char>, AgentState> {
        self.states@
    }

    pub fn new() -> (r: StateStore)
        ensures
            r.wf(),
            r@ == Map::<Seq<char>, AgentState>::empty(),
    {
        StateStore { states: StringMap::new() }
    }

    pub fn get(&self, id: &str) -> (r: Option<&AgentState>)
        requires
            self.wf(),
        ensures
            match r {
                Some(s) => self@.contains_key(id@) && *s == self@[id@] && s.wf(),
                None => !self@.contains_key(id@),
            },
    {
        self.states.get(id)
    }

    /// Stores a state under its own identity, replacing any old one.
    pub fn set(&mut self, state: AgentState)
        requires
            old(self).wf(),
            state.wf(),
        ensures
            final(self).wf(),
            final(self)@ == old(self)@.insert(state.id@, state),
    {
        let id = state.id.clone();
        self.states.insert(id.as_str(), state);
    }

    pub fn remove(&mut self, id: &str)
        requires
            old(self).wf(),
        ensures
            final(self).wf(),
            final(self)@ == old(self)@.remove(id@),
    {
        self.states.remove(id);
    }

    /// The identities of every stored state.
    pub fn list_ids(&self) -> (r: Vec<String>)
        requires
            self.wf(),
        ensures
            r@.len() == self@.dom().len(),
            forall|i: int| 0 <= i < r@.len() ==> self@.contains_key(#[trigger] r@[i]@),
    {
        let r = self.states.keys();
        proof {
            self.states.lemma_view_entries();
            crate::strmap::lemma_map_of_len(self.states.entries_seq());
        }
        r
    }

    pub fn clear(&mut self)
        ensures
            final(self).wf(),
            final(self)@ == Map::<Seq<char>, AgentState>::empty(),
    {
        self.states.clear();
    }
}

impl Default for StateStore {
    fn default() -> (r: StateStore)
        ensures
            r.wf(),
            r@ == Map::<Seq<char>, AgentState>::empty(),
    {
        StateStore::new()
    }
}

} // verus!
