//! Events: what flows to the main loop, where it comes from, and how
//! producers hand it in.

pub mod any;
pub mod event;
pub mod key;

pub use any::{AnyType, SharedPayload};
pub use event::{
    handle_key_events, AppEvent, AppEventSender, Event, EventSender, EventTask, TaskState,
    TerminalEvent, Wakeup,
};
pub use key::{KeyCode, KeyEvent, KeyEventKind};
