//! The dialogue engine: what one message does to one conversation.
//!
//! The engine is a function of the conversation's state and the message's
//! text alone. It touches no store and sends nothing: it says which state
//! comes next, which texts are to be sent, and whether a task record is to be
//! stored.

use crate::state::{State, StateView, TaskRecord, TaskRecordView};
use crate::wording::{
    command_of, menu, menu_lines, parse_command, Command, ALL_TASKS_NOTICE, ANSWER_RECEIVED,
    FORM_HEADING, INVALID_OPTION, NAME_PROMPT, TEXT_REQUIRED, TODAYS_TASKS_NOTICE,
};
use vstd::prelude::*;

verus! {

/// What a transition yields.
#[derive(Debug)]
pub struct TransitionResult {
    /// The state in which the conversation stands from now on.
    pub next_state: State,
    /// The texts to send to the conversation, in this order.
    pub outbound: Vec<String>,
    /// The task record to store, if this transition ended a form.
    pub record_to_persist: Option<TaskRecord>,
}

/// A transition's result as a mathematical value.
pub struct TransitionResultView {
    pub next_state: StateView,
    pub outbound: Seq<Seq<char>>,
    pub record_to_persist: Option<TaskRecordView>,
}

impl View for TransitionResult {
    type V = TransitionResultView;

    open spec fn view(&self) -> TransitionResultView {
        TransitionResultView {
            next_state: self.next_state@,
            outbound: self.outbound.deep_view(),
            record_to_persist: self.record_to_persist.deep_view(),
        }
    }
}

/// Whether a state only acknowledges: it answers any message, with text or
/// without, and then the conversation is idle again.
pub open spec fn acknowledges(state: StateView) -> bool {
    state is AllTasks || state is TodaysTasks
}

/// The state that follows `state` on a message with the text `input`, or with
/// no text where `input` is `None`.
///
/// A message without text moves nothing, except out of the two states that
/// only acknowledge. A text that answers the menu with none of the commands
/// moves nothing either.
pub open spec fn next_state(state: StateView, input: Option<Seq<char>>) -> StateView {
    if acknowledges(state) {
        StateView::ListOptions
    } else {
        match input {
            None => state,
            Some(text) => match state {
                StateView::ListOptions => StateView::ChoseOption { option: text },
                StateView::ChoseOption { .. } => match command_of(text) {
                    Some(Command::AllTasks) => StateView::AllTasks,
                    Some(Command::TodaysTasks) => StateView::TodaysTasks,
                    Some(Command::AddTask) => StateView::AddTask,
                    None => state,
                },
                StateView::AddTask => StateView::ReceiveTask { task: text },
                StateView::ReceiveTask { task } => StateView::ReceiveTaskDeadline {
                    task,
                    deadline: text,
                },
                StateView::ReceiveTaskDeadline { task, deadline } => {
                    StateView::ReceiveTaskReminder { task, deadline, reminder: text }
                },
                _ => StateView::ListOptions,
            },
        }
    }
}

/// The texts sent in answer to a message, in order.
pub open spec fn replies(state: StateView, input: Option<Seq<char>>) -> Seq<Seq<char>> {
    match state {
        StateView::AllTasks => seq![ALL_TASKS_NOTICE@],
        StateView::TodaysTasks => seq![TODAYS_TASKS_NOTICE@],
        _ => match input {
            None => seq![TEXT_REQUIRED@],
            Some(text) => match state {
                StateView::ListOptions => menu_lines(),
                StateView::ChoseOption { .. } => if command_of(text) is Some {
                    Seq::empty()
                } else {
                    seq![INVALID_OPTION@]
                },
                StateView::AddTask => seq![FORM_HEADING@, NAME_PROMPT@],
                _ => seq![ANSWER_RECEIVED@],
            },
        },
    }
}

/// The task record that a message has stored: the one that the complete form
/// holds, when a text arrives there, and none otherwise. The arriving text is
/// not part of the record.
pub open spec fn record_made(state: StateView, input: Option<Seq<char>>) -> Option<
    TaskRecordView,
> {
    match (state, input) {
        (StateView::ReceiveTaskReminder { task, deadline, reminder }, Some(_)) => Some(
            TaskRecordView { task, deadline, reminder },
        ),
        _ => None,
    }
}

/// The whole transition: next state, replies and record.
pub open spec fn step(state: StateView, input: Option<Seq<char>>) -> TransitionResultView {
    TransitionResultView {
        next_state: next_state(state, input),
        outbound: replies(state, input),
        record_to_persist: record_made(state, input),
    }
}

/// The result of a message without text in a state that awaits one: the state
/// stays and the sender is asked for text.
fn reprompt(state: State) -> (result: TransitionResult)
    requires
        !acknowledges(state@),
    ensures
        result@ == step(state@, None),
{
    let mut outbound: Vec<String> = Vec::new();
    outbound.push(TEXT_REQUIRED.to_owned());
    assert(outbound.deep_view() =~= seq![TEXT_REQUIRED@]);
    TransitionResult { next_state: state, outbound, record_to_persist: None }
}

/// The one-line answer `line`, with a move to `next_state` and no record.
fn answer(next_state: State, line: &str) -> (result: TransitionResult)
    ensures
        result@ == (TransitionResultView {
            next_state: next_state@,
            outbound: seq![line@],
            record_to_persist: None,
        }),
{
    let mut outbound: Vec<String> = Vec::new();
    outbound.push(line.to_owned());
    assert(outbound.deep_view() =~= seq![line@]);
    TransitionResult { next_state, outbound, record_to_persist: None }
}

/// An idle conversation: any text brings up the menu and is kept as the
/// option; a message without text is answered with a request for text.
pub fn list_options(input: Option<String>) -> (result: TransitionResult)
    ensures
        result@ == step(StateView::ListOptions, input.deep_view()),
{
    match input {
        Some(text) => TransitionResult {
            next_state: State::ChoseOption { option: text },
            outbound: menu(),
            record_to_persist: None,
        },
        None => reprompt(State::ListOptions),
    }
}

/// The menu was shown: a command moves to the state it names and sends
/// nothing; any other text is answered with a correction and the state stays
/// as it is, `option` included; so does a message without text, with a
/// request for text.
pub fn chose_option(option: String, input: Option<String>) -> (result: TransitionResult)
    ensures
        result@ == step(StateView::ChoseOption { option: option@ }, input.deep_view()),
{
    match input {
        Some(text) => {
            let next_state = match parse_command(&text) {
                Some(Command::AllTasks) => State::AllTasks,
                Some(Command::TodaysTasks) => State::TodaysTasks,
                Some(Command::AddTask) => State::AddTask,
                None => { return answer(State::ChoseOption { option }, INVALID_OPTION); },
            };
            let outbound: Vec<String> = Vec::new();
            assert(outbound.deep_view() =~= Seq::<Seq<char>>::empty());
            TransitionResult { next_state, outbound, record_to_persist: None }
        },
        None => reprompt(State::ChoseOption { option }),
    }
}

/// All tasks were asked for: whatever arrives, the acknowledgement is sent
/// and the conversation is idle again. No record is read or stored.
pub fn all_tasks(input: Option<String>) -> (result: TransitionResult)
    ensures
        result@ == step(StateView::AllTasks, input.deep_view()),
{
    answer(State::ListOptions, ALL_TASKS_NOTICE)
}

/// Today's tasks were asked for: whatever arrives, the acknowledgement is
/// sent and the conversation is idle again. No record is read or stored.
pub fn todays_tasks(input: Option<String>) -> (result: TransitionResult)
    ensures
        result@ == step(StateView::TodaysTasks, input.deep_view()),
{
    answer(State::ListOptions, TODAYS_TASKS_NOTICE)
}

/// The form was opened: the text that arrives is the task's name, and the
/// form's heading and prompt are sent. A message without text is answered
/// with a request for text.
pub fn add_task(input: Option<String>) -> (result: TransitionResult)
    ensures
        result@ == step(StateView::AddTask, input.deep_view()),
{
    match input {
        Some(text) => {
            let mut outbound: Vec<String> = Vec::new();
            outbound.push(FORM_HEADING.to_owned());
            outbound.push(NAME_PROMPT.to_owned());
            assert(outbound.deep_view() =~= seq![FORM_HEADING@, NAME_PROMPT@]);
            TransitionResult {
                next_state: State::ReceiveTask { task: text },
                outbound,
                record_to_persist: None,
            }
        },
        None => reprompt(State::AddTask),
    }
}

/// The name is known: the text that arrives is the deadline. A message
/// without text is answered with a request for text.
pub fn receive_task(task: String, input: Option<String>) -> (result: TransitionResult)
    ensures
        result@ == step(StateView::ReceiveTask { task: task@ }, input.deep_view()),
{
    match input {
        Some(text) => answer(State::ReceiveTaskDeadline { task, deadline: text }, ANSWER_RECEIVED),
        None => reprompt(State::ReceiveTask { task }),
    }
}

/// Name and deadline are known: the text that arrives is the reminder. A
/// message without text is answered with a request for text.
pub fn receive_task_deadline(task: String, deadline: String, input: Option<String>) -> (result:
    TransitionResult)
    ensures
        result@ == step(
            StateView::ReceiveTaskDeadline { task: task@, deadline: deadline@ },
            input.deep_view(),
        ),
{
    match input {
        Some(text) => answer(
            State::ReceiveTaskReminder { task, deadline, reminder: text },
            ANSWER_RECEIVED,
        ),
        None => reprompt(State::ReceiveTaskDeadline { task, deadline }),
    }
}

/// The form is complete: any text is acknowledged, hands out the record made
/// of the three collected texts, and leaves the conversation idle, whether or
/// not the record can be stored afterwards. A message without text is
/// answered with a request for text and the form stays complete.
pub fn receive_task_reminder(
    task: String,
    deadline: String,
    reminder: String,
    input: Option<String>,
) -> (result: TransitionResult)
    ensures
        result@ == step(
            StateView::ReceiveTaskReminder {
                task: task@,
                deadline: deadline@,
                reminder: reminder@,
            },
            input.deep_view(),
        ),
{
    match input {
        Some(_) => {
            let acknowledged = answer(State::ListOptions, ANSWER_RECEIVED);
            TransitionResult {
                next_state: acknowledged.next_state,
                outbound: acknowledged.outbound,
                record_to_persist: Some(TaskRecord { task, deadline, reminder }),
            }
        },
        None => reprompt(State::ReceiveTaskReminder { task, deadline, reminder }),
    }
}

/// Takes one message in one conversation: `state` is where the conversation
/// stands, `input` the message's text, `None` for a message that carries
/// none (a picture, a sticker).
pub fn transition(state: State, input: Option<String>) -> (result: TransitionResult)
    ensures
        result@ == step(state@, input.deep_view()),
{
    match state {
        State::ListOptions => list_options(input),
        State::ChoseOption { option } => chose_option(option, input),
        State::AllTasks => all_tasks(input),
        State::TodaysTasks => todays_tasks(input),
        State::AddTask => add_task(input),
        State::ReceiveTask { task } => receive_task(task, input),
        State::ReceiveTaskDeadline { task, deadline } => receive_task_deadline(
            task,
            deadline,
            input,
        ),
        State::ReceiveTaskReminder { task, deadline, reminder } => receive_task_reminder(
            task,
            deadline,
            reminder,
            input,
        ),
    }
}

} // verus!
