//! The session store: the state of every conversation, by its identity.
//!
//! A conversation has exactly one state at any time. One that the store has
//! never seen stands at `ListOptions`, and `get_or_default` says so itself:
//! nothing rests on a default value being filled in elsewhere.

use crate::state::{State, StateView};
use std::collections::HashMap;
use vstd::prelude::*;

verus! {

/// The identity of a conversation: the one key under which its state is kept.
pub type ConversationId = i64;

/// The state in which the conversation `id` stands, given what is stored.
pub open spec fn state_of(sessions: Map<ConversationId, StateView>, id: ConversationId)
    -> StateView {
    if sessions.contains_key(id) {
        sessions[id]
    } else {
        StateView::ListOptions
    }
}

/// Keeps the state of every conversation.
///
/// Its view is a map from identities to states, so no identity can have two
/// states at once. Every change goes through `set` and `reset`, which take
/// the store by exclusive reference: two changes are always one after the
/// other.
pub struct SessionStore {
    sessions: HashMap<ConversationId, State>,
}

impl View for SessionStore {
    type V = Map<ConversationId, StateView>;

    closed spec fn view(&self) -> Map<ConversationId, StateView> {
        Map::new(
            |id: ConversationId| self.sessions@.contains_key(id),
            |id: ConversationId| self.sessions@[id]@,
        )
    }
}

impl SessionStore {
    /// A store that has seen no conversation.
    pub fn new() -> (store: Self)
        ensures
            store@ == Map::<ConversationId, StateView>::empty(),
    {
        let store = SessionStore { sessions: HashMap::new() };
        assert(store@ =~= Map::<ConversationId, StateView>::empty());
        store
    }

    /// Whether the store holds a state for `id`.
    pub fn contains(&self, id: ConversationId) -> (known: bool)
        ensures
            known == self@.contains_key(id),
    {
        broadcast use vstd::std_specs::hash::group_hash_axioms;

        self.sessions.contains_key(&id)
    }

    /// The state of the conversation `id`: the one stored, or `ListOptions`
    /// where none is.
    pub fn get_or_default(&self, id: ConversationId) -> (state: State)
        ensures
            state@ == state_of(self@, id),
    {
        broadcast use vstd::std_specs::hash::group_hash_axioms;

        match self.sessions.get(&id) {
            Some(state) => state.clone(),
            None => State::ListOptions,
        }
    }

    /// Makes `state` the state of the conversation `id`. No other
    /// conversation is touched.
    pub fn set(&mut self, id: ConversationId, state: State)
        ensures
            final(self)@ == old(self)@.insert(id, state@),
    {
        broadcast use vstd::std_specs::hash::group_hash_axioms;

        let ghost before = self@;
        self.sessions.insert(id, state);
        assert(self@ =~= before.insert(id, state@));
    }

    /// Puts the conversation `id` back to `ListOptions`: the same as setting
    /// that state.
    pub fn reset(&mut self, id: ConversationId)
        ensures
            final(self)@ == old(self)@.insert(id, StateView::ListOptions),
    {
        self.set(id, State::ListOptions);
    }
}

} // verus!
