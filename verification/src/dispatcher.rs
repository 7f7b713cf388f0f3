//! The dispatcher: the one place where a message meets the session store.
//!
//! For each inbound message it reads the conversation's state, takes the
//! transition, writes the new state, and hands back what is to be done
//! outside: the texts to send, in order, and then the record to store, if
//! there is one. Sending and storing are the caller's part. Once the caller
//! has tried to store a record it reports how that went: a record that was
//! stored asks for nothing more, one that was not asks for a notice of the
//! failure. The state is written before anything is sent or stored, so
//! nothing that happens outside can undo a transition or have it taken twice.

use crate::engine::{next_state, record_made, replies, transition, TransitionResult};
use crate::session::{state_of, ConversationId, SessionStore};
use crate::state::{StateView, TaskRecord, TaskRecordView};
use crate::wording::SAVE_FAILED_NOTICE;
use vstd::prelude::*;

verus! {

/// An inbound message, as far as the dialogue reads it: the conversation it
/// belongs to and its text, `None` where it carries none.
#[derive(Debug)]
pub struct Inbound {
    pub conversation: ConversationId,
    pub text: Option<String>,
}

/// An inbound message as a mathematical value.
pub struct InboundView {
    pub conversation: ConversationId,
    pub text: Option<Seq<char>>,
}

impl View for Inbound {
    type V = InboundView;

    open spec fn view(&self) -> InboundView {
        InboundView { conversation: self.conversation, text: self.text.deep_view() }
    }
}

/// One thing for the caller to do, for the conversation whose message was
/// just taken.
#[derive(Debug)]
pub enum Action {
    /// Send this text to the conversation.
    Send { text: String },
    /// Store this record, then hand the outcome to `on_persisted`.
    Persist { record: TaskRecord },
}

/// An action as a mathematical value.
pub enum ActionView {
    Send { text: Seq<char> },
    Persist { record: TaskRecordView },
}

impl View for Action {
    type V = ActionView;

    open spec fn view(&self) -> ActionView {
        match self {
            Action::Send { text } => ActionView::Send { text: text@ },
            Action::Persist { record } => ActionView::Persist { record: record@ },
        }
    }
}

impl DeepView for Action {
    type V = ActionView;

    open spec fn deep_view(&self) -> ActionView {
        self@
    }
}

impl PartialEq for Action {
    /// Two actions are equal when they are of the same kind and carry the
    /// same texts.
    fn eq(&self, other: &Self) -> (same: bool) {
        match (self, other) {
            (Action::Send { text: a }, Action::Send { text: b }) => *a == *b,
            (Action::Persist { record: a }, Action::Persist { record: b }) => *a == *b,
            _ => false,
        }
    }
}

impl vstd::std_specs::cmp::PartialEqSpecImpl for Action {
    open spec fn obeys_eq_spec() -> bool {
        true
    }

    open spec fn eq_spec(&self, other: &Self) -> bool {
        self@ == other@
    }
}

impl Eq for Action {

}

/// The identifier that the record store gives to a stored record.
pub type RecordId = i64;

/// Why a record could not be stored, in the store's own words.
#[derive(Debug)]
pub struct StorageError {
    pub detail: String,
}

/// One `Send` for each text, in the same order.
pub open spec fn sends(texts: Seq<Seq<char>>) -> Seq<ActionView> {
    Seq::new(texts.len(), |i: int| ActionView::Send { text: texts[i] })
}

/// The actions that carry out a transition: all its texts are sent, in order,
/// and after them its record is stored, if it made one.
pub open spec fn actions_of(outbound: Seq<Seq<char>>, record: Option<TaskRecordView>) -> Seq<
    ActionView,
> {
    match record {
        Some(record) => sends(outbound).push(ActionView::Persist { record }),
        None => sends(outbound),
    }
}

/// The stored states after the message `event` was taken: its conversation
/// has moved by one transition; every other conversation is as it was.
pub open spec fn deliver(sessions: Map<ConversationId, StateView>, event: InboundView) -> Map<
    ConversationId,
    StateView,
> {
    sessions.insert(
        event.conversation,
        next_state(state_of(sessions, event.conversation), event.text),
    )
}

/// The actions that the message `event` asks for, given the stored states.
pub open spec fn actions_on(sessions: Map<ConversationId, StateView>, event: InboundView) -> Seq<
    ActionView,
> {
    let state = state_of(sessions, event.conversation);
    actions_of(replies(state, event.text), record_made(state, event.text))
}

/// The actions that follow an attempt to store a record: none where it was
/// stored, and the notice of the failure where it was not.
pub open spec fn follow_up(saved: bool) -> Seq<ActionView> {
    if saved {
        Seq::empty()
    } else {
        seq![ActionView::Send { text: SAVE_FAILED_NOTICE@ }]
    }
}

/// Turns what a transition yields into the actions that carry it out.
pub fn into_actions(outbound: Vec<String>, record: Option<TaskRecord>) -> (actions: Vec<Action>)
    ensures
        actions.deep_view() == actions_of(outbound.deep_view(), record.deep_view()),
{
    let mut actions: Vec<Action> = Vec::new();
    let mut i: usize = 0;
    while i < outbound.len()
        invariant
            i <= outbound.len(),
            actions.len() == i,
            forall|j: int| 0 <= j < i ==> actions[j]@ == (ActionView::Send { text: outbound[j]@ }),
        decreases outbound.len() - i,
    {
        actions.push(Action::Send { text: outbound[i].clone() });
        i += 1;
    }
    assert(actions.deep_view() =~= sends(outbound.deep_view()));
    match record {
        Some(record) => {
            let ghost sent = actions.deep_view();
            let ghost stored = ActionView::Persist { record: record@ };
            actions.push(Action::Persist { record });
            assert(actions.deep_view() =~= sent.push(stored));
        },
        None => {},
    }
    actions
}

/// Takes inbound messages one at a time and keeps the session store.
pub struct Dispatcher {
    sessions: SessionStore,
}

impl View for Dispatcher {
    type V = Map<ConversationId, StateView>;

    /// The stored states: the view of the session store that it keeps.
    closed spec fn view(&self) -> Map<ConversationId, StateView> {
        self.sessions@
    }
}

impl Dispatcher {
    /// A dispatcher over the given session store.
    pub fn new(sessions: SessionStore) -> (dispatcher: Self)
        ensures
            dispatcher@ == sessions@,
    {
        Dispatcher { sessions }
    }

    /// The session store, to read.
    pub fn sessions(&self) -> (sessions: &SessionStore)
        ensures
            sessions@ == self@,
    {
        &self.sessions
    }

    /// Takes one inbound message: reads the state of its conversation, takes
    /// the transition, writes the new state, and returns the actions that the
    /// transition asks for. The new state is in the store when this returns,
    /// so the next message of the same conversation starts from it.
    pub fn on_message(&mut self, event: Inbound) -> (actions: Vec<Action>)
        ensures
            final(self)@ == deliver(old(self)@, event@),
            actions.deep_view() == actions_on(old(self)@, event@),
    {
        let Inbound { conversation, text } = event;
        let state = self.sessions.get_or_default(conversation);
        let TransitionResult { next_state, outbound, record_to_persist } = transition(state, text);
        self.sessions.set(conversation, next_state);
        into_actions(outbound, record_to_persist)
    }

    /// Takes the outcome of storing a record and returns what is left to do:
    /// nothing after a record that was stored, the notice of the failure
    /// after one that was not. The store of sessions is not touched: the
    /// conversation was put back to `ListOptions` when the record was handed
    /// out, and stays there whether the record was stored or not.
    pub fn on_persisted(&self, outcome: &Result<RecordId, StorageError>) -> (actions: Vec<Action>)
        ensures
            actions.deep_view() == follow_up(outcome is Ok),
    {
        let mut actions: Vec<Action> = Vec::new();
        match outcome {
            Ok(_) => {},
            Err(_) => {
                actions.push(Action::Send { text: SAVE_FAILED_NOTICE.to_owned() });
            },
        }
        assert(actions.deep_view() =~= follow_up(outcome is Ok));
        actions
    }
}

} // verus!
