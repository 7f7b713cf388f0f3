//! A conversational form that collects a task (name, deadline, reminder) over
//! several messages: the states of a conversation, the transition taken on
//! each message, the store that keeps one state per conversation, and the
//! dispatcher that ties them together.

pub mod dispatcher;
pub mod engine;
pub mod session;
pub mod state;
pub mod theorems;
pub mod wording;

pub use dispatcher::{Action, Dispatcher, Inbound, RecordId, StorageError};
pub use engine::{transition, TransitionResult};
pub use session::{ConversationId, SessionStore};
pub use state::{State, TaskRecord};
