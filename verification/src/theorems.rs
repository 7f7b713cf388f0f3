//! What holds of the dialogue whatever the messages are: statements over the
//! transition and over the stored states, each proved from their definitions.

use crate::dispatcher::{actions_on, deliver, follow_up, ActionView, InboundView};
use crate::engine::{acknowledges, next_state, record_made, replies};
use crate::session::{state_of, ConversationId};
use crate::state::{StateView, TaskRecordView};
use crate::wording::{
    command_of, ADD_TASK_COMMAND, ALL_TASKS_NOTICE, ANSWER_RECEIVED, INVALID_OPTION,
    SAVE_FAILED_NOTICE, TEXT_REQUIRED, TODAYS_TASKS_NOTICE,
};
use vstd::prelude::*;

verus! {

/// The state reached from `state` when the messages `inputs` are taken one
/// after the other, each from the state that the one before it left.
pub open spec fn replay(state: StateView, inputs: Seq<Option<Seq<char>>>) -> StateView
    decreases inputs.len(),
{
    if inputs.len() == 0 {
        state
    } else {
        replay(next_state(state, inputs.first()), inputs.drop_first())
    }
}

/// The records handed out for storing while the messages `inputs` are taken
/// from `state`, in the order in which they are made.
pub open spec fn records_made(state: StateView, inputs: Seq<Option<Seq<char>>>) -> Seq<
    TaskRecordView,
>
    decreases inputs.len(),
{
    if inputs.len() == 0 {
        Seq::empty()
    } else {
        let later = records_made(next_state(state, inputs.first()), inputs.drop_first());
        match record_made(state, inputs.first()) {
            Some(record) => seq![record] + later,
            None => later,
        }
    }
}

/// The stored states after the messages `events`, of any conversations in any
/// order, were taken one after the other.
pub open spec fn deliver_all(sessions: Map<ConversationId, StateView>, events: Seq<InboundView>)
    -> Map<ConversationId, StateView>
    decreases events.len(),
{
    if events.len() == 0 {
        sessions
    } else {
        deliver_all(deliver(sessions, events.first()), events.drop_first())
    }
}

/// The texts of the messages among `events` that belong to the conversation
/// `id`, in the order in which they came.
pub open spec fn inputs_of(events: Seq<InboundView>, id: ConversationId) -> Seq<
    Option<Seq<char>>,
>
    decreases events.len(),
{
    if events.len() == 0 {
        Seq::empty()
    } else if events.first().conversation == id {
        seq![events.first().text] + inputs_of(events.drop_first(), id)
    } else {
        inputs_of(events.drop_first(), id)
    }
}

/// A message without text never moves a conversation that awaits text: the
/// state stays exactly as it is, the sender is asked for text, and no record
/// is made. The two states that only acknowledge await nothing and are left
/// on any message.
pub proof fn textless_message_keeps_state(state: StateView)
    requires
        !acknowledges(state),
    ensures
        next_state(state, None) == state,
        replies(state, None) == seq![TEXT_REQUIRED@],
        record_made(state, None) is None,
{
}

/// In the store, a message without text leaves the state of its conversation
/// as it was, unless that state only acknowledges.
pub proof fn textless_message_keeps_stored_state(
    sessions: Map<ConversationId, StateView>,
    id: ConversationId,
)
    requires
        !acknowledges(state_of(sessions, id)),
    ensures
        state_of(deliver(sessions, InboundView { conversation: id, text: None }), id) == state_of(
            sessions,
            id,
        ),
{
}

/// A text that answers the menu with none of the commands is corrected with
/// exactly one message, and the state stays as it is, the kept option
/// included.
pub proof fn unknown_command_is_corrected(option: Seq<char>, text: Seq<char>)
    requires
        command_of(text) is None,
    ensures
        next_state(StateView::ChoseOption { option }, Some(text)) == (StateView::ChoseOption {
            option,
        }),
        replies(StateView::ChoseOption { option }, Some(text)) == seq![INVALID_OPTION@],
        record_made(StateView::ChoseOption { option }, Some(text)) is None,
{
}

/// The two states that only acknowledge answer every message, with text or
/// without, with their one notice, return to `ListOptions`, and make no
/// record: the record store is never asked.
pub proof fn acknowledgement_returns_to_idle(state: StateView, input: Option<Seq<char>>)
    requires
        acknowledges(state),
    ensures
        next_state(state, input) == StateView::ListOptions,
        record_made(state, input) is None,
        state is AllTasks ==> replies(state, input) == seq![ALL_TASKS_NOTICE@],
        state is TodaysTasks ==> replies(state, input) == seq![TODAYS_TASKS_NOTICE@],
{
}

/// A record is made by one transition only: a text that arrives at the
/// complete form. That transition always ends in `ListOptions`.
pub proof fn record_only_from_complete_form(state: StateView, input: Option<Seq<char>>)
    ensures
        record_made(state, input) is Some <==> state is ReceiveTaskReminder && input is Some,
        record_made(state, input) is Some ==> next_state(state, input) == StateView::ListOptions,
{
}

/// From an idle conversation, any text, then the command that opens the form,
/// then a name, a deadline and a reminder fill the form and store nothing
/// yet. The text after them, whatever it says, hands out exactly one record,
/// made of that name, deadline and reminder, and leaves the conversation
/// idle.
pub proof fn filled_form_yields_one_record(
    opening: Seq<char>,
    name: Seq<char>,
    deadline: Seq<char>,
    reminder: Seq<char>,
    closing: Seq<char>,
)
    ensures
        ({
            let answers = seq![
                Some(opening),
                Some(ADD_TASK_COMMAND@),
                Some(name),
                Some(deadline),
                Some(reminder),
            ];
            let record = TaskRecordView { task: name, deadline, reminder };
            &&& replay(StateView::ListOptions, answers) == (StateView::ReceiveTaskReminder {
                task: name,
                deadline,
                reminder,
            })
            &&& records_made(StateView::ListOptions, answers) == Seq::<TaskRecordView>::empty()
            &&& replay(StateView::ListOptions, answers.push(Some(closing)))
                == StateView::ListOptions
            &&& records_made(StateView::ListOptions, answers.push(Some(closing))) == seq![record]
        }),
{
    crate::wording::commands_differ();
    let record = TaskRecordView { task: name, deadline, reminder };
    let s0 = StateView::ListOptions;
    let s1 = StateView::ChoseOption { option: opening };
    let s2 = StateView::AddTask;
    let s3 = StateView::ReceiveTask { task: name };
    let s4 = StateView::ReceiveTaskDeadline { task: name, deadline };
    let s5 = StateView::ReceiveTaskReminder { task: name, deadline, reminder };
    let i1 = seq![Some(closing)];
    let i2 = seq![Some(reminder), Some(closing)];
    let i3 = seq![Some(deadline), Some(reminder), Some(closing)];
    let i4 = seq![Some(name), Some(deadline), Some(reminder), Some(closing)];
    let i5 = seq![Some(ADD_TASK_COMMAND@), Some(name), Some(deadline), Some(reminder), Some(closing)];
    let i6 = seq![
        Some(opening),
        Some(ADD_TASK_COMMAND@),
        Some(name),
        Some(deadline),
        Some(reminder),
        Some(closing),
    ];
    let h1 = seq![Some(reminder)];
    let h2 = seq![Some(deadline), Some(reminder)];
    let h3 = seq![Some(name), Some(deadline), Some(reminder)];
    let h4 = seq![Some(ADD_TASK_COMMAND@), Some(name), Some(deadline), Some(reminder)];
    let h5 = seq![
        Some(opening),
        Some(ADD_TASK_COMMAND@),
        Some(name),
        Some(deadline),
        Some(reminder),
    ];
    let none = Seq::<Option<Seq<char>>>::empty();

    assert(i1.drop_first() =~= none);
    assert(i2.drop_first() =~= i1);
    assert(i3.drop_first() =~= i2);
    assert(i4.drop_first() =~= i3);
    assert(i5.drop_first() =~= i4);
    assert(i6.drop_first() =~= i5);
    assert(h1.drop_first() =~= none);
    assert(h2.drop_first() =~= h1);
    assert(h3.drop_first() =~= h2);
    assert(h4.drop_first() =~= h3);
    assert(h5.drop_first() =~= h4);
    assert(h5.push(Some(closing)) =~= i6);

    assert(replay(s5, none) == s5);
    assert(replay(s4, h1) == s5);
    assert(replay(s3, h2) == s5);
    assert(replay(s2, h3) == s5);
    assert(replay(s1, h4) == s5);
    assert(replay(s0, h5) == s5);

    assert(records_made(s5, none) =~= Seq::<TaskRecordView>::empty());
    assert(records_made(s4, h1) =~= Seq::<TaskRecordView>::empty());
    assert(records_made(s3, h2) =~= Seq::<TaskRecordView>::empty());
    assert(records_made(s2, h3) =~= Seq::<TaskRecordView>::empty());
    assert(records_made(s1, h4) =~= Seq::<TaskRecordView>::empty());
    assert(records_made(s0, h5) =~= Seq::<TaskRecordView>::empty());

    assert(replay(s0, none) == s0);
    assert(replay(s5, i1) == s0);
    assert(replay(s4, i2) == s0);
    assert(replay(s3, i3) == s0);
    assert(replay(s2, i4) == s0);
    assert(replay(s1, i5) == s0);
    assert(replay(s0, i6) == s0);

    assert(records_made(s0, none) =~= Seq::<TaskRecordView>::empty());
    assert(records_made(s5, i1) =~= seq![record]);
    assert(records_made(s4, i2) =~= seq![record]);
    assert(records_made(s3, i3) =~= seq![record]);
    assert(records_made(s2, i4) =~= seq![record]);
    assert(records_made(s1, i5) =~= seq![record]);
    assert(records_made(s0, i6) =~= seq![record]);
}

/// A message moves the state of its own conversation only: whatever stands
/// stored for any other conversation is neither read nor changed.
pub proof fn other_conversations_untouched(
    sessions: Map<ConversationId, StateView>,
    event: InboundView,
    other: ConversationId,
)
    requires
        other != event.conversation,
    ensures
        state_of(deliver(sessions, event), other) == state_of(sessions, other),
        deliver(sessions, event).contains_key(other) == sessions.contains_key(other),
        forall|first: InboundView|
            first.conversation == other ==> #[trigger] actions_on(deliver(sessions, first), event)
                == actions_on(sessions, event),
{
}

/// Messages of two different conversations can be taken in either order: the
/// stored states come out the same, and each message is answered the same.
pub proof fn different_conversations_commute(
    sessions: Map<ConversationId, StateView>,
    a: InboundView,
    b: InboundView,
)
    requires
        a.conversation != b.conversation,
    ensures
        deliver(deliver(sessions, a), b) == deliver(deliver(sessions, b), a),
        actions_on(deliver(sessions, a), b) == actions_on(sessions, b),
        actions_on(deliver(sessions, b), a) == actions_on(sessions, a),
{
    assert(deliver(deliver(sessions, a), b) =~= deliver(deliver(sessions, b), a));
}

/// Isolation. However the messages of many conversations are interleaved, the
/// state of each conversation afterwards is the one that its own messages
/// alone, in their own order, lead to from where it stood.
pub proof fn conversations_are_isolated(
    sessions: Map<ConversationId, StateView>,
    events: Seq<InboundView>,
    id: ConversationId,
)
    ensures
        state_of(deliver_all(sessions, events), id) == replay(
            state_of(sessions, id),
            inputs_of(events, id),
        ),
    decreases events.len(),
{
    if events.len() > 0 {
        let first = events.first();
        let rest = events.drop_first();
        conversations_are_isolated(deliver(sessions, first), rest, id);
        if first.conversation == id {
            let inputs = inputs_of(events, id);
            assert(inputs.first() == first.text);
            assert(inputs.drop_first() =~= inputs_of(rest, id));
        }
    }
}

/// No lost update. Of two messages of one conversation, the second is taken
/// from the state that the first has left, never from the state before it:
/// its answer and the state after it are those of that state.
pub proof fn second_message_sees_first(
    sessions: Map<ConversationId, StateView>,
    id: ConversationId,
    first: Option<Seq<char>>,
    second: Option<Seq<char>>,
)
    ensures
        ({
            let before = state_of(sessions, id);
            let between = next_state(before, first);
            let after_first = deliver(sessions, InboundView { conversation: id, text: first });
            let event = InboundView { conversation: id, text: second };
            &&& state_of(after_first, id) == between
            &&& state_of(deliver(after_first, event), id) == next_state(between, second)
            &&& actions_on(after_first, event) == crate::dispatcher::actions_of(
                replies(between, second),
                record_made(between, second),
            )
        }),
{
}

/// A record that cannot be stored changes nothing of the transition that
/// made it. The text that arrives at the complete form is acknowledged first,
/// then the record is handed out, and the conversation already stands at
/// `ListOptions`; the failure only adds its notice after the acknowledgement.
pub proof fn failed_save_still_resets(
    sessions: Map<ConversationId, StateView>,
    id: ConversationId,
    record: TaskRecordView,
    text: Seq<char>,
)
    requires
        state_of(sessions, id) == (StateView::ReceiveTaskReminder {
            task: record.task,
            deadline: record.deadline,
            reminder: record.reminder,
        }),
    ensures
        ({
            let event = InboundView { conversation: id, text: Some(text) };
            &&& state_of(deliver(sessions, event), id) == StateView::ListOptions
            &&& actions_on(sessions, event) == seq![
                ActionView::Send { text: ANSWER_RECEIVED@ },
                ActionView::Persist { record },
            ]
            &&& follow_up(false) == seq![ActionView::Send { text: SAVE_FAILED_NOTICE@ }]
        }),
{
    let event = InboundView { conversation: id, text: Some(text) };
    assert(actions_on(sessions, event) =~= seq![
        ActionView::Send { text: ANSWER_RECEIVED@ },
        ActionView::Persist { record },
    ]);
}

/// A record that is stored asks for nothing more. Of all that the text
/// arriving at the complete form sets off, one text is sent, the
/// acknowledgement, and it is sent before the record is stored.
pub proof fn stored_record_sends_nothing_more(
    sessions: Map<ConversationId, StateView>,
    id: ConversationId,
    record: TaskRecordView,
    text: Seq<char>,
)
    requires
        state_of(sessions, id) == (StateView::ReceiveTaskReminder {
            task: record.task,
            deadline: record.deadline,
            reminder: record.reminder,
        }),
    ensures
        ({
            let event = InboundView { conversation: id, text: Some(text) };
            &&& actions_on(sessions, event) + follow_up(true) == seq![
                ActionView::Send { text: ANSWER_RECEIVED@ },
                ActionView::Persist { record },
            ]
            &&& state_of(deliver(sessions, event), id) == StateView::ListOptions
        }),
{
    let event = InboundView { conversation: id, text: Some(text) };
    assert(actions_on(sessions, event) + follow_up(true) =~= seq![
        ActionView::Send { text: ANSWER_RECEIVED@ },
        ActionView::Persist { record },
    ]);
}

/// Whether a message, if it has text, has text that is not empty.
pub open spec fn not_blank(input: Option<Seq<char>>) -> bool {
    input matches Some(text) ==> text.len() > 0
}

/// Where no text is ever empty, no task is ever without a name: a state whose
/// task has a name is followed by one whose task has a name, and the record
/// made, if any, has a name.
pub proof fn names_are_kept(state: StateView, input: Option<Seq<char>>)
    requires
        state.has_name(),
        not_blank(input),
    ensures
        next_state(state, input).has_name(),
        record_made(state, input) matches Some(record) ==> record.has_name(),
{
}

/// Every record handed out along a run of messages, none of which has empty
/// text, names its task.
pub proof fn every_record_has_name(state: StateView, inputs: Seq<Option<Seq<char>>>)
    requires
        state.has_name(),
        forall|i: int| 0 <= i < inputs.len() ==> not_blank(#[trigger] inputs[i]),
    ensures
        replay(state, inputs).has_name(),
        forall|k: int|
            0 <= k < records_made(state, inputs).len() ==> (#[trigger] records_made(
                state,
                inputs,
            )[k]).has_name(),
    decreases inputs.len(),
{
    if inputs.len() > 0 {
        names_are_kept(state, inputs.first());
        let rest = inputs.drop_first();
        assert forall|i: int| 0 <= i < rest.len() implies not_blank(#[trigger] rest[i]) by {
            assert(rest[i] == inputs[i + 1]);
        }
        every_record_has_name(next_state(state, inputs.first()), rest);
        let later = records_made(next_state(state, inputs.first()), rest);
        let all = records_made(state, inputs);
        assert forall|k: int| 0 <= k < all.len() implies (#[trigger] all[k]).has_name() by {
            match record_made(state, inputs.first()) {
                Some(record) => {
                    if k > 0 {
                        assert(all[k] == later[k - 1]);
                    }
                },
                None => {},
            }
        }
    }
}

} // verus!
