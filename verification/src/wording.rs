//! The fixed wording of the dialogue: the three menu commands and every
//! message the dialogue ever sends.

use vstd::prelude::*;

verus! {

/// The command that asks for the list of all tasks.
pub const ALL_TASKS_COMMAND: &'static str = "/alltasks";

/// The command that asks for the list of today's tasks.
pub const TODAYS_TASKS_COMMAND: &'static str = "/todaystasks";

/// The command that opens the form for a new task.
pub const ADD_TASK_COMMAND: &'static str = "/addtask";

/// The heading of the menu.
pub const MENU_HEADING: &'static str = "Choose an option";

/// Sent whenever a message without text arrives where text is needed.
pub const TEXT_REQUIRED: &'static str = "Please send a text message";

/// Sent when the text that answers the menu is none of the three commands.
pub const INVALID_OPTION: &'static str = "Please send a valid option";

/// The acknowledgement given for the list of all tasks.
pub const ALL_TASKS_NOTICE: &'static str = "All tasks";

/// The acknowledgement given for the list of today's tasks.
pub const TODAYS_TASKS_NOTICE: &'static str = "Today's tasks";

/// The heading of the form for a new task.
pub const FORM_HEADING: &'static str = "Add a task";

/// The prompt for the name of the new task.
pub const NAME_PROMPT: &'static str = "Enter task name";

/// The acknowledgement of each answer given to the form.
pub const ANSWER_RECEIVED: &'static str = "Task received";

/// Sent when the task record could not be stored.
pub const SAVE_FAILED_NOTICE: &'static str = "Error saving task to database";

/// One of the three commands that the menu offers.
#[derive(Clone, Copy, Debug, PartialEq, Eq, Structural)]
pub enum Command {
    AllTasks,
    TodaysTasks,
    AddTask,
}

/// The command that a text spells, if it spells one. The match is exact: no
/// trimming, no folding of case.
pub open spec fn command_of(text: Seq<char>) -> Option<Command> {
    if text == ALL_TASKS_COMMAND@ {
        Some(Command::AllTasks)
    } else if text == TODAYS_TASKS_COMMAND@ {
        Some(Command::TodaysTasks)
    } else if text == ADD_TASK_COMMAND@ {
        Some(Command::AddTask)
    } else {
        None
    }
}

/// The four lines of the menu, in the order in which they are sent.
pub open spec fn menu_lines() -> Seq<Seq<char>> {
    seq![MENU_HEADING@, ALL_TASKS_COMMAND@, TODAYS_TASKS_COMMAND@, ADD_TASK_COMMAND@]
}

/// Reads a text as one of the menu's commands.
pub fn parse_command(text: &String) -> (command: Option<Command>)
    ensures
        command == command_of(text@),
{
    if *text == ALL_TASKS_COMMAND.to_owned() {
        Some(Command::AllTasks)
    } else if *text == TODAYS_TASKS_COMMAND.to_owned() {
        Some(Command::TodaysTasks)
    } else if *text == ADD_TASK_COMMAND.to_owned() {
        Some(Command::AddTask)
    } else {
        None
    }
}

/// The menu, ready to be sent line by line.
pub fn menu() -> (lines: Vec<String>)
    ensures
        lines.deep_view() == menu_lines(),
{
    let mut lines: Vec<String> = Vec::new();
    lines.push(MENU_HEADING.to_owned());
    lines.push(ALL_TASKS_COMMAND.to_owned());
    lines.push(TODAYS_TASKS_COMMAND.to_owned());
    lines.push(ADD_TASK_COMMAND.to_owned());
    assert(lines.deep_view() =~= menu_lines());
    lines
}

/// No two commands are spelled alike, so a text spells at most one of them
/// and each command's own text is read back as that command.
pub proof fn commands_differ()
    ensures
        ALL_TASKS_COMMAND@ != TODAYS_TASKS_COMMAND@,
        ALL_TASKS_COMMAND@ != ADD_TASK_COMMAND@,
        TODAYS_TASKS_COMMAND@ != ADD_TASK_COMMAND@,
        command_of(ALL_TASKS_COMMAND@) == Some(Command::AllTasks),
        command_of(TODAYS_TASKS_COMMAND@) == Some(Command::TodaysTasks),
        command_of(ADD_TASK_COMMAND@) == Some(Command::AddTask),
{
    reveal_strlit("/alltasks");
    reveal_strlit("/todaystasks");
    reveal_strlit("/addtask");
    assert(ALL_TASKS_COMMAND@.len() == 9);
    assert(TODAYS_TASKS_COMMAND@.len() == 12);
    assert(ADD_TASK_COMMAND@.len() == 8);
}

} // verus!
