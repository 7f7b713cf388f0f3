//! The states of one conversation and the task record that a finished form
//! yields, each with its mathematical view.

use vstd::prelude::*;

verus! {

/// Where a conversation stands. A conversation that was never seen, and one
/// whose flow has ended, stands at `ListOptions`.
#[derive(Debug)]
pub enum State {
    /// Nothing is under way; the next text brings up the menu.
    ListOptions,
    /// The menu was shown; a command is awaited. `option` is the text that
    /// brought the menu up.
    ChoseOption { option: String },
    /// The list of all tasks was asked for.
    AllTasks,
    /// The list of today's tasks was asked for.
    TodaysTasks,
    /// The form was opened; the task's name is awaited.
    AddTask,
    /// The name is known; the deadline is awaited.
    ReceiveTask { task: String },
    /// Name and deadline are known; the reminder is awaited.
    ReceiveTaskDeadline { task: String, deadline: String },
    /// The form is complete; the next text has the record stored.
    ReceiveTaskReminder { task: String, deadline: String, reminder: String },
}

/// A state as a mathematical value: the same variants, with each text as the
/// sequence of its characters.
pub enum StateView {
    ListOptions,
    ChoseOption { option: Seq<char> },
    AllTasks,
    TodaysTasks,
    AddTask,
    ReceiveTask { task: Seq<char> },
    ReceiveTaskDeadline { task: Seq<char>, deadline: Seq<char> },
    ReceiveTaskReminder { task: Seq<char>, deadline: Seq<char>, reminder: Seq<char> },
}

impl View for State {
    type V = StateView;

    open spec fn view(&self) -> StateView {
        match self {
            State::ListOptions => StateView::ListOptions,
            State::ChoseOption { option } => StateView::ChoseOption { option: option@ },
            State::AllTasks => StateView::AllTasks,
            State::TodaysTasks => StateView::TodaysTasks,
            State::AddTask => StateView::AddTask,
            State::ReceiveTask { task } => StateView::ReceiveTask { task: task@ },
            State::ReceiveTaskDeadline { task, deadline } => StateView::ReceiveTaskDeadline {
                task: task@,
                deadline: deadline@,
            },
            State::ReceiveTaskReminder { task, deadline, reminder } => {
                StateView::ReceiveTaskReminder {
                    task: task@,
                    deadline: deadline@,
                    reminder: reminder@,
                }
            },
        }
    }
}

impl Default for State {
    /// A conversation starts at `ListOptions`.
    fn default() -> (state: Self)
        ensures
            state == State::ListOptions,
    {
        State::ListOptions
    }
}

impl Clone for State {
    fn clone(&self) -> (copy: Self)
        ensures
            copy == *self,
    {
        match self {
            State::ListOptions => State::ListOptions,
            State::ChoseOption { option } => State::ChoseOption { option: option.clone() },
            State::AllTasks => State::AllTasks,
            State::TodaysTasks => State::TodaysTasks,
            State::AddTask => State::AddTask,
            State::ReceiveTask { task } => State::ReceiveTask { task: task.clone() },
            State::ReceiveTaskDeadline { task, deadline } => State::ReceiveTaskDeadline {
                task: task.clone(),
                deadline: deadline.clone(),
            },
            State::ReceiveTaskReminder { task, deadline, reminder } => State::ReceiveTaskReminder {
                task: task.clone(),
                deadline: deadline.clone(),
                reminder: reminder.clone(),
            },
        }
    }
}

impl PartialEq for State {
    /// Two states are equal when they are the same variant and carry the same
    /// texts.
    fn eq(&self, other: &Self) -> (same: bool) {
        match (self, other) {
            (State::ListOptions, State::ListOptions) => true,
            (State::ChoseOption { option: a }, State::ChoseOption { option: b }) => *a == *b,
            (State::AllTasks, State::AllTasks) => true,
            (State::TodaysTasks, State::TodaysTasks) => true,
            (State::AddTask, State::AddTask) => true,
            (State::ReceiveTask { task: a }, State::ReceiveTask { task: b }) => *a == *b,
            (
                State::ReceiveTaskDeadline { task: a, deadline: c },
                State::ReceiveTaskDeadline { task: b, deadline: d },
            ) => *a == *b && *c == *d,
            (
                State::ReceiveTaskReminder { task: a, deadline: c, reminder: e },
                State::ReceiveTaskReminder { task: b, deadline: d, reminder: f },
            ) => *a == *b && *c == *d && *e == *f,
            _ => false,
        }
    }
}

impl vstd::std_specs::cmp::PartialEqSpecImpl for State {
    open spec fn obeys_eq_spec() -> bool {
        true
    }

    open spec fn eq_spec(&self, other: &Self) -> bool {
        self@ == other@
    }
}

impl Eq for State {

}

impl StateView {
    /// Whether the task's name, where the state carries one, is not empty.
    pub open spec fn has_name(self) -> bool {
        match self {
            StateView::ReceiveTask { task } => task.len() > 0,
            StateView::ReceiveTaskDeadline { task, .. } => task.len() > 0,
            StateView::ReceiveTaskReminder { task, .. } => task.len() > 0,
            _ => true,
        }
    }
}

/// A finished form: what is stored for one task. It is made once, by the
/// transition that ends the form, and never changed afterwards.
#[derive(Debug)]
pub struct TaskRecord {
    pub task: String,
    pub deadline: String,
    pub reminder: String,
}

/// A task record as a mathematical value.
pub struct TaskRecordView {
    pub task: Seq<char>,
    pub deadline: Seq<char>,
    pub reminder: Seq<char>,
}

impl TaskRecordView {
    /// Whether the task's name is not empty.
    pub open spec fn has_name(self) -> bool {
        self.task.len() > 0
    }
}

impl View for TaskRecord {
    type V = TaskRecordView;

    open spec fn view(&self) -> TaskRecordView {
        TaskRecordView { task: self.task@, deadline: self.deadline@, reminder: self.reminder@ }
    }
}

impl DeepView for TaskRecord {
    type V = TaskRecordView;

    open spec fn deep_view(&self) -> TaskRecordView {
        self@
    }
}

impl Clone for TaskRecord {
    fn clone(&self) -> (copy: Self)
        ensures
            copy == *self,
    {
        TaskRecord {
            task: self.task.clone(),
            deadline: self.deadline.clone(),
            reminder: self.reminder.clone(),
        }
    }
}

impl PartialEq for TaskRecord {
    /// Two records are equal when their three texts are.
    fn eq(&self, other: &Self) -> (same: bool) {
        self.task == other.task && self.deadline == other.deadline && self.reminder
            == other.reminder
    }
}

impl vstd::std_specs::cmp::PartialEqSpecImpl for TaskRecord {
    open spec fn obeys_eq_spec() -> bool {
        true
    }

    open spec fn eq_spec(&self, other: &Self) -> bool {
        self@ == other@
    }
}

impl Eq for TaskRecord {

}

impl TaskRecord {
    /// The values of the record's columns, in the order `task`, `deadline`,
    /// `reminder`: what is bound to the statement that stores the record.
    pub fn columns(&self) -> (values: Vec<String>)
        ensures
            values.deep_view() == seq![self.task@, self.deadline@, self.reminder@],
    {
        let mut values: Vec<String> = Vec::new();
        values.push(self.task.clone());
        values.push(self.deadline.clone());
        values.push(self.reminder.clone());
        assert(values.deep_view() =~= seq![self.task@, self.deadline@, self.reminder@]);
        values
    }
}

} // verus!
