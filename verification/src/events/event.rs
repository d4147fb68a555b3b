//! The events of the main loop, the step of the task that produces them, and
//! the senders through which others add to them.

use crate::events::any::AnyType;
use crate::events::key::{KeyCode, KeyEvent, CONTROL};
use std::sync::Arc;
use tokio::sync::mpsc::UnboundedSender;
use vstd::prelude::*;
use vstd::std_specs::convert::FromSpecImpl;

verus! {

/// A mouse event of the `crossterm` crate, as an opaque value.
#[verifier::external_type_specification]
#[verifier::external_body]
pub struct ExMouseEvent(crossterm::event::MouseEvent);

/// `MouseEvent` is `Copy`: its `clone` is the derived one and returns an
/// equal value.
pub assume_specification[ <crossterm::event::MouseEvent as Clone>::clone ](
    this: &crossterm::event::MouseEvent,
) -> (copy: crossterm::event::MouseEvent)
    ensures
        copy == *this,
;

/// The sending half of an unbounded channel of the `tokio` crate, as an
/// opaque value.
#[verifier::external_type_specification]
#[verifier::external_body]
#[verifier::reject_recursive_types(T)]
pub struct ExUnboundedSender<T>(UnboundedSender<T>);

/// How many ticks the source task emits per second.
pub const TICK_FPS: u32 = 30;

/// An event of the terminal that is no key event.
#[derive(Clone, Debug)]
pub enum TerminalEvent {
    FocusGained,
    FocusLost,
    /// A mouse event, as the terminal reports it.
    Mouse(crossterm::event::MouseEvent),
    /// Text pasted into the terminal.
    Paste(String),
    /// The new size after a resize: columns, then rows.
    Resize(u16, u16),
}

/// Everything that can reach the main loop.
#[derive(Clone, Debug)]
pub enum Event {
    /// Emitted on a regular schedule.
    Tick,
    /// An event of the terminal that is no key event, passed on as it came.
    Crossterm(TerminalEvent),
    /// An event of the application.
    App(AppEvent),
}

/// The events of the application.
#[derive(Clone, Debug)]
pub enum AppEvent {
    /// Quit the application.
    Quit,
    FocusItem(usize),
    Clear(bool),
    KeyEvent(KeyEvent),
    /// A name and a list of arguments.
    CustomEvent(String, Option<Arc<[AnyType]>>),
}

impl From<AppEvent> for Event {
    fn from(app_event: AppEvent) -> (event: Event) {
        Event::App(app_event)
    }
}

impl FromSpecImpl<AppEvent> for Event {
    open spec fn obeys_from_spec() -> bool {
        true
    }

    open spec fn from_spec(app_event: AppEvent) -> Event {
        Event::App(app_event)
    }
}

impl From<TerminalEvent> for Event {
    fn from(event: TerminalEvent) -> (wrapped: Event) {
        Event::Crossterm(event)
    }
}

impl FromSpecImpl<TerminalEvent> for Event {
    open spec fn obeys_from_spec() -> bool {
        true
    }

    open spec fn from_spec(event: TerminalEvent) -> Event {
        Event::Crossterm(event)
    }
}

/// The key that quits from anywhere: `c` or `C` with control held, whatever
/// other modifiers are held with it.
pub open spec fn is_quit_binding(key_event: KeyEvent) -> bool {
    (key_event.code == KeyCode::Char('c') || key_event.code == KeyCode::Char('C'))
        && key_event.has_control()
}

/// The event that a key stands for.
pub open spec fn key_translation(key_event: KeyEvent) -> Event {
    if is_quit_binding(key_event) {
        Event::App(AppEvent::Quit)
    } else {
        Event::App(AppEvent::KeyEvent(key_event))
    }
}

/// Translates a key: the quit binding becomes `Quit`, every other key is
/// passed on unchanged as a `KeyEvent` of the application.
pub fn handle_key_events(key_event: KeyEvent) -> (event: Event)
    ensures
        event == key_translation(key_event),
{
    let quit = match key_event.code {
        KeyCode::Char(c) => (c == 'c' || c == 'C') && key_event.holds_control(),
        _ => false,
    };
    if quit {
        Event::App(AppEvent::Quit)
    } else {
        Event::App(AppEvent::KeyEvent(key_event))
    }
}

/// The two states of the source task. `Stopped` is final.
#[derive(Clone, Copy, Debug, PartialEq, Eq, Structural)]
pub enum TaskState {
    Running,
    Stopped,
}

impl TaskState {
    /// The state after a wakeup: a stopped task stays stopped, a running one
    /// stops when the consumer is gone.
    pub open spec fn after(self, wakeup: Wakeup) -> TaskState {
        match self {
            TaskState::Stopped => TaskState::Stopped,
            TaskState::Running => wakeup.next_state(),
        }
    }

    /// What the task sends on a wakeup: nothing once it has stopped.
    pub open spec fn sends(self, wakeup: Wakeup) -> Option<Event> {
        match self {
            TaskState::Stopped => None,
            TaskState::Running => wakeup.emitted(),
        }
    }

    /// One step of the source task from this state.
    pub fn advance(self, wakeup: Wakeup) -> (outcome: (TaskState, Option<Event>))
        ensures
            outcome.0 == self.after(wakeup),
            outcome.1 == self.sends(wakeup),
    {
        match self {
            TaskState::Stopped => (TaskState::Stopped, None),
            TaskState::Running => wakeup.step(),
        }
    }
}

/// `Stopped` is final: whatever wakes a stopped task, it stays stopped and
/// sends nothing. A running task stops on exactly one wakeup, the loss of its
/// consumer, and sends nothing on it.
pub proof fn lemma_stopped_is_final(wakeup: Wakeup)
    ensures
        TaskState::Stopped.after(wakeup) == TaskState::Stopped,
        TaskState::Stopped.sends(wakeup) is None,
        TaskState::Running.after(wakeup) == TaskState::Stopped <==> wakeup is ConsumerClosed,
        wakeup is ConsumerClosed ==> TaskState::Running.sends(wakeup) is None,
{
}

/// The quit binding always quits, whatever kind of key event carries it and
/// whatever else is held with control. Every other key reaches the main loop
/// unchanged. A key never becomes a tick or an event of the terminal.
pub proof fn lemma_quit_binding(key_event: KeyEvent)
    ensures
        key_translation(key_event) == Event::App(AppEvent::Quit) <==> (key_event.code
            == KeyCode::Char('c') || key_event.code == KeyCode::Char('C'))
            && key_event.has_control(),
        !is_quit_binding(key_event) ==> key_translation(key_event) == Event::App(
            AppEvent::KeyEvent(key_event),
        ),
        key_translation(key_event) is App,
        TaskState::Running.sends(Wakeup::Key(key_event)) == Some(key_translation(key_event)),
{
}

/// Control is held in every set of modifiers that has its bit, and so with
/// any other modifiers beside it.
pub proof fn lemma_control_with_others(key_event: KeyEvent, others: u8)
    requires
        key_event.modifiers == CONTROL | others,
    ensures
        key_event.has_control(),
{
    assert((2u8 | others) & 2u8 == 2u8) by (bit_vector);
}

/// What ended one wait of the source task.
#[derive(Clone, Debug)]
pub enum Wakeup {
    /// The consumer's side of the channel is gone.
    ConsumerClosed,
    /// The tick timer fired.
    TickDue,
    /// The terminal delivered a key.
    Key(KeyEvent),
    /// The terminal delivered something that is no key.
    Terminal(TerminalEvent),
}

impl Wakeup {
    /// The state of the source task after this wakeup.
    pub open spec fn next_state(self) -> TaskState {
        match self {
            Wakeup::ConsumerClosed => TaskState::Stopped,
            _ => TaskState::Running,
        }
    }

    /// The event that the source task sends on this wakeup, if any.
    pub open spec fn emitted(self) -> Option<Event> {
        match self {
            Wakeup::ConsumerClosed => None,
            Wakeup::TickDue => Some(Event::Tick),
            Wakeup::Key(key_event) => Some(key_translation(key_event)),
            Wakeup::Terminal(event) => Some(Event::Crossterm(event)),
        }
    }

    /// One step of the source task: what it sends, and whether it goes on.
    ///
    /// It stops when the consumer is gone, and sends nothing then. A tick
    /// becomes `Tick`, a key is translated, anything else of the terminal is
    /// passed through.
    pub fn step(self) -> (outcome: (TaskState, Option<Event>))
        ensures
            outcome.0 == self.next_state(),
            outcome.1 == self.emitted(),
    {
        match self {
            Wakeup::ConsumerClosed => (TaskState::Stopped, None),
            Wakeup::TickDue => (TaskState::Running, Some(Event::Tick)),
            Wakeup::Key(key_event) => (TaskState::Running, Some(handle_key_events(key_event))),
            Wakeup::Terminal(event) => (TaskState::Running, Some(Event::Crossterm(event))),
        }
    }
}

/// `UnboundedSender::send`, its result dropped: the event is queued if the
/// receiving side is still there, and discarded if it is not.
#[verifier::external_body]
fn send_unbounded(sender: &UnboundedSender<Event>, event: Event) {
    let _ = sender.send(event);
}

/// `UnboundedSender::clone`: another handle to the same channel.
#[verifier::external_body]
fn clone_unbounded(sender: &UnboundedSender<Event>) -> UnboundedSender<Event> {
    sender.clone()
}

/// The producing end that the source task holds.
pub struct EventTask {
    sender: UnboundedSender<Event>,
}

impl EventTask {
    /// The channel that the task sends into.
    pub closed spec fn channel(&self) -> UnboundedSender<Event> {
        self.sender
    }

    pub fn new(sender: UnboundedSender<Event>) -> (task: Self)
        ensures
            task.channel() == sender,
    {
        Self { sender }
    }

    /// Sends an event to the consumer. Never blocks; after the consumer has
    /// gone the event is dropped.
    pub fn send(&self, event: Event) {
        send_unbounded(&self.sender, event);
    }

    /// Handles one wakeup in state `state`: sends what the step emits, and
    /// returns the state to go on in.
    pub fn on_wakeup(&self, state: TaskState, wakeup: Wakeup) -> (next: TaskState)
        ensures
            next == state.after(wakeup),
    {
        let (next, emit) = state.advance(wakeup);
        match emit {
            Some(event) => self.send(event),
            None => {},
        }
        next
    }
}

/// A producing end for any event.
#[derive(Debug)]
pub struct EventSender {
    sender: UnboundedSender<Event>,
}

impl Clone for EventSender {
    fn clone(&self) -> (copy: Self) {
        Self { sender: clone_unbounded(&self.sender) }
    }
}

impl EventSender {
    /// The channel that this handle sends into.
    pub closed spec fn channel(&self) -> UnboundedSender<Event> {
        self.sender
    }

    pub fn new(sender: UnboundedSender<Event>) -> (handle: Self)
        ensures
            handle.channel() == sender,
    {
        Self { sender }
    }

    /// Queues an event for the consumer. Never blocks and never fails; after
    /// the consumer has gone the event is dropped.
    pub fn send(&self, event: Event) {
        send_unbounded(&self.sender, event);
    }
}

/// A producing end for the events of the application.
#[derive(Debug)]
pub struct AppEventSender {
    sender: UnboundedSender<Event>,
}

impl Clone for AppEventSender {
    fn clone(&self) -> (copy: Self) {
        Self { sender: clone_unbounded(&self.sender) }
    }
}

impl AppEventSender {
    /// The channel that this handle sends into.
    pub closed spec fn channel(&self) -> UnboundedSender<Event> {
        self.sender
    }

    pub fn new(sender: UnboundedSender<Event>) -> (handle: Self)
        ensures
            handle.channel() == sender,
    {
        Self { sender }
    }

    /// Queues an event of the application for the consumer. Never blocks and
    /// never fails; after the consumer has gone the event is dropped.
    pub fn send(&self, event: AppEvent) {
        send_unbounded(&self.sender, Event::App(event));
    }
}

impl From<EventSender> for AppEventSender {
    fn from(val: EventSender) -> (handle: AppEventSender)
        ensures
            handle.channel() == val.channel(),
    {
        AppEventSender { sender: val.sender }
    }
}

impl FromSpecImpl<EventSender> for AppEventSender {
    open spec fn obeys_from_spec() -> bool {
        true
    }

    closed spec fn from_spec(val: EventSender) -> AppEventSender {
        AppEventSender { sender: val.sender }
    }
}

} // verus!
