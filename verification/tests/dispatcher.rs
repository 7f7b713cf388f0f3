use task_dialogue::dispatcher::{into_actions, Action, Dispatcher, Inbound, StorageError};
use task_dialogue::session::SessionStore;
use task_dialogue::state::{State, TaskRecord};

fn message(conversation: i64, text: &str) -> Inbound {
    Inbound { conversation, text: Some(text.to_string()) }
}

fn sticker(conversation: i64) -> Inbound {
    Inbound { conversation, text: None }
}

fn send(text: &str) -> Action {
    Action::Send { text: text.to_string() }
}

fn record(task: &str, deadline: &str, reminder: &str) -> TaskRecord {
    TaskRecord {
        task: task.to_string(),
        deadline: deadline.to_string(),
        reminder: reminder.to_string(),
    }
}

fn stored(actions: &[Action]) -> Vec<TaskRecord> {
    let mut out = Vec::new();
    for action in actions {
        if let Action::Persist { record } = action {
            out.push(record.clone());
        }
    }
    out
}

#[test]
fn full_flow_stores_exactly_one_record() {
    let mut dispatcher = Dispatcher::new(SessionStore::new());
    let mut records = Vec::new();
    for input in ["any text", "/addtask", "name", "tomorrow", "9am"] {
        records.extend(stored(&dispatcher.on_message(message(1, input))));
    }
    assert!(records.is_empty());
    assert_eq!(
        dispatcher.sessions().get_or_default(1),
        State::ReceiveTaskReminder {
            task: "name".to_string(),
            deadline: "tomorrow".to_string(),
            reminder: "9am".to_string(),
        }
    );
    let actions = dispatcher.on_message(message(1, "go"));
    assert_eq!(
        actions,
        vec![send("Task received"), Action::Persist { record: record("name", "tomorrow", "9am") }]
    );
    records.extend(stored(&actions));
    assert_eq!(records, vec![record("name", "tomorrow", "9am")]);
    assert_eq!(dispatcher.sessions().get_or_default(1), State::ListOptions);
}

#[test]
fn bogus_option_keeps_state_and_corrects_once() {
    let mut store = SessionStore::new();
    store.set(9, State::ChoseOption { option: "start".to_string() });
    let mut dispatcher = Dispatcher::new(store);
    let actions = dispatcher.on_message(message(9, "/bogus"));
    assert_eq!(actions, vec![send("Please send a valid option")]);
    assert_eq!(
        dispatcher.sessions().get_or_default(9),
        State::ChoseOption { option: "start".to_string() }
    );
}

#[test]
fn first_contact_shows_menu_and_is_stored() {
    let mut dispatcher = Dispatcher::new(SessionStore::new());
    assert!(!dispatcher.sessions().contains(3));
    let actions = dispatcher.on_message(message(3, "hi"));
    assert_eq!(
        actions,
        vec![send("Choose an option"), send("/alltasks"), send("/todaystasks"), send("/addtask")]
    );
    assert!(dispatcher.sessions().contains(3));
    assert_eq!(
        dispatcher.sessions().get_or_default(3),
        State::ChoseOption { option: "hi".to_string() }
    );
}

#[test]
fn textless_message_leaves_stored_state() {
    let mut store = SessionStore::new();
    store.set(4, State::ReceiveTask { task: "t".to_string() });
    let mut dispatcher = Dispatcher::new(store);
    let actions = dispatcher.on_message(sticker(4));
    assert_eq!(actions, vec![send("Please send a text message")]);
    assert_eq!(
        dispatcher.sessions().get_or_default(4),
        State::ReceiveTask { task: "t".to_string() }
    );
    let actions = dispatcher.on_message(sticker(5));
    assert_eq!(actions, vec![send("Please send a text message")]);
    assert_eq!(dispatcher.sessions().get_or_default(5), State::ListOptions);
}

#[test]
fn acknowledgement_states_reset_even_without_text() {
    let mut store = SessionStore::new();
    store.set(1, State::AllTasks);
    store.set(2, State::TodaysTasks);
    let mut dispatcher = Dispatcher::new(store);
    let a = dispatcher.on_message(sticker(1));
    let b = dispatcher.on_message(message(2, "x"));
    assert_eq!(a, vec![send("All tasks")]);
    assert_eq!(b, vec![send("Today's tasks")]);
    assert!(stored(&a).is_empty());
    assert!(stored(&b).is_empty());
    assert_eq!(dispatcher.sessions().get_or_default(1), State::ListOptions);
    assert_eq!(dispatcher.sessions().get_or_default(2), State::ListOptions);
}

#[test]
fn interleaved_conversations_do_not_mix() {
    let a = ["start", "/addtask", "alpha", "monday", "8am", "ok"];
    let b = ["begin", "/addtask", "beta", "friday", "6pm", "ok"];
    let mut together = Dispatcher::new(SessionStore::new());
    let mut alone_a = Dispatcher::new(SessionStore::new());
    let mut alone_b = Dispatcher::new(SessionStore::new());
    for i in 0..a.len() {
        let ta = together.on_message(message(10, a[i]));
        assert_eq!(ta, alone_a.on_message(message(10, a[i])));
        assert_eq!(
            together.sessions().get_or_default(20),
            alone_b.sessions().get_or_default(20)
        );
        let tb = together.on_message(message(20, b[i]));
        assert_eq!(tb, alone_b.on_message(message(20, b[i])));
        assert_eq!(
            together.sessions().get_or_default(10),
            alone_a.sessions().get_or_default(10)
        );
        if i == a.len() - 1 {
            assert_eq!(stored(&ta), vec![record("alpha", "monday", "8am")]);
            assert_eq!(stored(&tb), vec![record("beta", "friday", "6pm")]);
        }
    }
}

#[test]
fn order_of_other_conversations_does_not_matter() {
    let mut first = Dispatcher::new(SessionStore::new());
    let mut second = Dispatcher::new(SessionStore::new());
    first.on_message(message(1, "a"));
    first.on_message(message(2, "b"));
    second.on_message(message(2, "b"));
    second.on_message(message(1, "a"));
    for id in [1, 2, 3] {
        assert_eq!(first.sessions().get_or_default(id), second.sessions().get_or_default(id));
        assert_eq!(first.sessions().contains(id), second.sessions().contains(id));
    }
}

#[test]
fn second_message_starts_from_first_result() {
    let mut dispatcher = Dispatcher::new(SessionStore::new());
    let first = dispatcher.on_message(message(8, "hello"));
    let second = dispatcher.on_message(message(8, "/addtask"));
    assert_eq!(first.len(), 4);
    assert_eq!(second, Vec::<Action>::new());
    assert_eq!(dispatcher.sessions().get_or_default(8), State::AddTask);
    let third = dispatcher.on_message(message(8, "/addtask"));
    assert_eq!(third, vec![send("Add a task"), send("Enter task name")]);
    assert_eq!(
        dispatcher.sessions().get_or_default(8),
        State::ReceiveTask { task: "/addtask".to_string() }
    );
}

#[test]
fn failed_save_still_resets_and_acknowledges_first() {
    let mut store = SessionStore::new();
    store.set(
        6,
        State::ReceiveTaskReminder {
            task: "t".to_string(),
            deadline: "d".to_string(),
            reminder: "r".to_string(),
        },
    );
    let mut dispatcher = Dispatcher::new(store);
    let mut sent = dispatcher.on_message(message(6, "done"));
    assert_eq!(sent[0], send("Task received"));
    assert_eq!(sent[1], Action::Persist { record: record("t", "d", "r") });
    assert_eq!(dispatcher.sessions().get_or_default(6), State::ListOptions);
    let failure = Err(StorageError { detail: "disk full".to_string() });
    sent.extend(dispatcher.on_persisted(&failure));
    assert_eq!(
        sent,
        vec![
            send("Task received"),
            Action::Persist { record: record("t", "d", "r") },
            send("Error saving task to database"),
        ]
    );
    assert_eq!(dispatcher.sessions().get_or_default(6), State::ListOptions);
}

#[test]
fn successful_save_sends_nothing_more() {
    let dispatcher = Dispatcher::new(SessionStore::new());
    assert_eq!(dispatcher.on_persisted(&Ok(17)), Vec::<Action>::new());
    assert_eq!(dispatcher.on_persisted(&Ok(-1)), Vec::<Action>::new());
}

#[test]
fn stored_record_leaves_only_the_acknowledgement() {
    let mut store = SessionStore::new();
    store.set(
        6,
        State::ReceiveTaskReminder {
            task: "t".to_string(),
            deadline: "d".to_string(),
            reminder: "r".to_string(),
        },
    );
    let mut dispatcher = Dispatcher::new(store);
    let mut sent = Vec::new();
    for action in dispatcher.on_message(message(6, "done")) {
        match action {
            Action::Send { text } => sent.push(text),
            Action::Persist { .. } => {
                for notice in dispatcher.on_persisted(&Ok(1)) {
                    if let Action::Send { text } = notice {
                        sent.push(text);
                    }
                }
            }
        }
    }
    assert_eq!(sent, vec!["Task received".to_string()]);
    assert_eq!(dispatcher.sessions().get_or_default(6), State::ListOptions);
}

#[test]
fn actions_send_in_order_then_persist() {
    let texts = vec!["one".to_string(), "two".to_string(), "three".to_string()];
    assert_eq!(
        into_actions(texts.clone(), Some(record("a", "b", "c"))),
        vec![send("one"), send("two"), send("three"), Action::Persist { record: record("a", "b", "c") }]
    );
    assert_eq!(into_actions(texts, None), vec![send("one"), send("two"), send("three")]);
    assert_eq!(into_actions(Vec::new(), None), Vec::<Action>::new());
    assert_ne!(send("a"), send("b"));
    assert_ne!(send("a"), Action::Persist { record: record("a", "", "") });
}
