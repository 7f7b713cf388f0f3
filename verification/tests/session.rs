use task_dialogue::session::SessionStore;
use task_dialogue::state::State;

#[test]
fn unseen_conversation_is_idle() {
    let store = SessionStore::new();
    assert_eq!(store.get_or_default(42), State::ListOptions);
    assert!(!store.contains(42));
    assert_eq!(store.get_or_default(i64::MIN), State::ListOptions);
}

#[test]
fn set_then_get_returns_state() {
    let mut store = SessionStore::new();
    store.set(7, State::ReceiveTask { task: "milk".to_string() });
    assert!(store.contains(7));
    assert_eq!(store.get_or_default(7), State::ReceiveTask { task: "milk".to_string() });
    store.set(7, State::AddTask);
    assert_eq!(store.get_or_default(7), State::AddTask);
}

#[test]
fn set_touches_one_conversation_only() {
    let mut store = SessionStore::new();
    store.set(1, State::AllTasks);
    store.set(2, State::TodaysTasks);
    store.set(1, State::AddTask);
    assert_eq!(store.get_or_default(1), State::AddTask);
    assert_eq!(store.get_or_default(2), State::TodaysTasks);
    assert_eq!(store.get_or_default(3), State::ListOptions);
    assert!(!store.contains(3));
}

#[test]
fn reset_is_set_to_idle() {
    let mut a = SessionStore::new();
    let mut b = SessionStore::new();
    a.set(5, State::AddTask);
    b.set(5, State::AddTask);
    a.reset(5);
    b.set(5, State::ListOptions);
    assert_eq!(a.get_or_default(5), State::ListOptions);
    assert_eq!(a.get_or_default(5), b.get_or_default(5));
    assert_eq!(a.contains(5), b.contains(5));
    assert!(a.contains(5));
    a.reset(6);
    assert!(a.contains(6));
    assert_eq!(a.get_or_default(6), State::ListOptions);
}

#[test]
fn negative_identities_are_kept_apart() {
    let mut store = SessionStore::new();
    store.set(-1, State::AllTasks);
    store.set(1, State::TodaysTasks);
    assert_eq!(store.get_or_default(-1), State::AllTasks);
    assert_eq!(store.get_or_default(1), State::TodaysTasks);
}
