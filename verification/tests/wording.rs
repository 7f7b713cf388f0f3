use task_dialogue::wording::{
    menu, parse_command, Command, ADD_TASK_COMMAND, ALL_TASKS_COMMAND, TODAYS_TASKS_COMMAND,
};

#[test]
fn commands_are_read_exactly() {
    assert_eq!(parse_command(&"/alltasks".to_string()), Some(Command::AllTasks));
    assert_eq!(parse_command(&"/todaystasks".to_string()), Some(Command::TodaysTasks));
    assert_eq!(parse_command(&"/addtask".to_string()), Some(Command::AddTask));
    assert_eq!(parse_command(&"/bogus".to_string()), None);
    assert_eq!(parse_command(&"".to_string()), None);
    assert_eq!(parse_command(&"/ALLTASKS".to_string()), None);
    assert_eq!(parse_command(&"/alltasks\n".to_string()), None);
}

#[test]
fn command_constants_are_read_as_their_commands() {
    assert_eq!(parse_command(&ALL_TASKS_COMMAND.to_string()), Some(Command::AllTasks));
    assert_eq!(parse_command(&TODAYS_TASKS_COMMAND.to_string()), Some(Command::TodaysTasks));
    assert_eq!(parse_command(&ADD_TASK_COMMAND.to_string()), Some(Command::AddTask));
}

#[test]
fn menu_has_four_lines() {
    assert_eq!(
        menu(),
        vec![
            "Choose an option".to_string(),
            "/alltasks".to_string(),
            "/todaystasks".to_string(),
            "/addtask".to_string(),
        ]
    );
}
