use persisten_tui::events::key::{ALT, CONTROL, SHIFT};
use persisten_tui::events::{
    handle_key_events, AnyType, AppEvent, AppEventSender, Event, EventSender, EventTask, KeyCode,
    KeyEvent, KeyEventKind, SharedPayload, TaskState, TerminalEvent, Wakeup,
};
use crossterm::event::{KeyModifiers, MouseButton, MouseEvent, MouseEventKind};
use std::sync::Arc;
use tokio::sync::mpsc::error::TryRecvError;
use tokio::sync::mpsc::unbounded_channel;

fn key(code: KeyCode, modifiers: u8) -> KeyEvent {
    KeyEvent::new(code, modifiers)
}

fn same_key(a: &KeyEvent, b: &KeyEvent) -> bool {
    format!("{:?}", a) == format!("{:?}", b)
}

#[test]
fn control_c_quits() {
    assert!(matches!(handle_key_events(key(KeyCode::Char('c'), CONTROL)), Event::App(AppEvent::Quit)));
    assert!(matches!(handle_key_events(key(KeyCode::Char('C'), CONTROL)), Event::App(AppEvent::Quit)));
}

#[test]
fn control_c_quits_whatever_its_kind() {
    for kind in [KeyEventKind::Press, KeyEventKind::Repeat, KeyEventKind::Release] {
        let event = KeyEvent { code: KeyCode::Char('c'), modifiers: CONTROL, kind, state: 0 };
        assert!(matches!(handle_key_events(event), Event::App(AppEvent::Quit)));
    }
}

#[test]
fn control_c_quits_with_other_modifiers_held() {
    for modifiers in [CONTROL | SHIFT, CONTROL | ALT, CONTROL | SHIFT | ALT, 0xFF, 0x22] {
        for code in [KeyCode::Char('c'), KeyCode::Char('C')] {
            assert!(matches!(handle_key_events(key(code, modifiers)), Event::App(AppEvent::Quit)));
        }
    }
    let (_, emit) = Wakeup::Key(key(KeyCode::Char('c'), CONTROL | SHIFT)).step();
    assert!(matches!(emit, Some(Event::App(AppEvent::Quit))));
}

#[test]
fn other_keys_are_passed_on_unchanged() {
    let keys = vec![
        key(KeyCode::Char('c'), 0),
        key(KeyCode::Char('c'), SHIFT),
        key(KeyCode::Char('c'), ALT),
        key(KeyCode::Char('c'), 0xFD),
        key(KeyCode::Char('x'), CONTROL),
        key(KeyCode::Char('q'), 0),
        key(KeyCode::Enter, CONTROL),
        key(KeyCode::F(3), 0),
        KeyEvent { code: KeyCode::Esc, modifiers: 0, kind: KeyEventKind::Release, state: 1 },
    ];
    for k in keys {
        match handle_key_events(k) {
            Event::App(AppEvent::KeyEvent(out)) => assert!(same_key(&out, &k)),
            other => panic!("unexpected {:?}", other),
        }
    }
}

#[test]
fn new_key_event_is_a_press() {
    let k = KeyEvent::new(KeyCode::Char('a'), SHIFT);
    assert!(k.is_press());
    assert!(!k.holds_control());
    assert_eq!(k.kind, KeyEventKind::Press);
    assert_eq!(k.modifiers, 1);
    assert_eq!(k.state, 0);
    assert!(key(KeyCode::Char('a'), CONTROL | ALT).holds_control());
    let release = KeyEvent { code: KeyCode::Enter, modifiers: 0, kind: KeyEventKind::Release, state: 0 };
    assert!(!release.is_press());
}

#[test]
fn step_stops_when_the_consumer_is_gone() {
    let (state, emit) = Wakeup::ConsumerClosed.step();
    assert_eq!(state, TaskState::Stopped);
    assert!(emit.is_none());
}

#[test]
fn step_emits_tick() {
    let (state, emit) = Wakeup::TickDue.step();
    assert_eq!(state, TaskState::Running);
    assert!(matches!(emit, Some(Event::Tick)));
}

#[test]
fn step_translates_keys() {
    let (state, emit) = Wakeup::Key(key(KeyCode::Char('c'), CONTROL)).step();
    assert_eq!(state, TaskState::Running);
    assert!(matches!(emit, Some(Event::App(AppEvent::Quit))));
    let (state, emit) = Wakeup::Key(key(KeyCode::Char('z'), 0)).step();
    assert_eq!(state, TaskState::Running);
    assert!(matches!(emit, Some(Event::App(AppEvent::KeyEvent(KeyEvent { code: KeyCode::Char('z'), modifiers: 0, .. })))));
}

#[test]
fn step_passes_terminal_events_through() {
    let (state, emit) = Wakeup::Terminal(TerminalEvent::Resize(80, 24)).step();
    assert_eq!(state, TaskState::Running);
    assert!(matches!(emit, Some(Event::Crossterm(TerminalEvent::Resize(80, 24)))));
    let (_, emit) = Wakeup::Terminal(TerminalEvent::Paste(String::from("hi"))).step();
    match emit {
        Some(Event::Crossterm(TerminalEvent::Paste(text))) => assert_eq!(text, "hi"),
        other => panic!("unexpected {:?}", other),
    }
}

#[test]
fn events_arrive_in_the_order_sent() {
    let (tx, mut rx) = unbounded_channel::<Event>();
    let sender = EventSender::new(tx.clone());
    let app_sender = AppEventSender::new(tx.clone());
    let task = EventTask::new(tx);
    sender.send(Event::Tick);
    app_sender.send(AppEvent::FocusItem(3));
    sender.send(Event::Crossterm(TerminalEvent::FocusGained));
    task.send(Event::App(AppEvent::Clear(true)));
    app_sender.send(AppEvent::CustomEvent(String::from("NAME"), None));
    sender.send(Event::from(AppEvent::Quit));
    assert!(matches!(rx.try_recv(), Ok(Event::Tick)));
    assert!(matches!(rx.try_recv(), Ok(Event::App(AppEvent::FocusItem(3)))));
    assert!(matches!(rx.try_recv(), Ok(Event::Crossterm(TerminalEvent::FocusGained))));
    assert!(matches!(rx.try_recv(), Ok(Event::App(AppEvent::Clear(true)))));
    match rx.try_recv() {
        Ok(Event::App(AppEvent::CustomEvent(name, None))) => assert_eq!(name, "NAME"),
        other => panic!("unexpected {:?}", other),
    }
    assert!(matches!(rx.try_recv(), Ok(Event::App(AppEvent::Quit))));
    assert!(matches!(rx.try_recv(), Err(TryRecvError::Empty)));
}

#[test]
fn many_events_keep_their_order() {
    let (tx, mut rx) = unbounded_channel::<Event>();
    let sender = EventSender::new(tx);
    let clone = sender.clone();
    for i in 0..100usize {
        if i % 2 == 0 {
            sender.send(Event::App(AppEvent::FocusItem(i)));
        } else {
            clone.send(Event::App(AppEvent::FocusItem(i)));
        }
    }
    for i in 0..100usize {
        match rx.try_recv() {
            Ok(Event::App(AppEvent::FocusItem(n))) => assert_eq!(n, i),
            other => panic!("unexpected {:?}", other),
        }
    }
}

#[test]
fn send_after_the_consumer_is_gone_is_silent() {
    let (tx, rx) = unbounded_channel::<Event>();
    let sender = EventSender::new(tx.clone());
    let app_sender: AppEventSender = sender.clone().into();
    let task = EventTask::new(tx);
    drop(rx);
    sender.send(Event::Tick);
    app_sender.send(AppEvent::Quit);
    task.send(Event::Tick);
    assert_eq!(task.on_wakeup(TaskState::Running, Wakeup::TickDue), TaskState::Running);
    assert_eq!(task.on_wakeup(TaskState::Running, Wakeup::ConsumerClosed), TaskState::Stopped);
}

#[test]
fn on_wakeup_sends_what_the_step_emits() {
    let (tx, mut rx) = unbounded_channel::<Event>();
    let task = EventTask::new(tx);
    assert_eq!(task.on_wakeup(TaskState::Running, Wakeup::TickDue), TaskState::Running);
    assert_eq!(task.on_wakeup(TaskState::Running, Wakeup::Key(key(KeyCode::Char('c'), CONTROL))), TaskState::Running);
    assert_eq!(task.on_wakeup(TaskState::Running, Wakeup::ConsumerClosed), TaskState::Stopped);
    assert!(matches!(rx.try_recv(), Ok(Event::Tick)));
    assert!(matches!(rx.try_recv(), Ok(Event::App(AppEvent::Quit))));
    assert!(matches!(rx.try_recv(), Err(TryRecvError::Empty)));
    assert_eq!(task.on_wakeup(TaskState::Stopped, Wakeup::TickDue), TaskState::Stopped);
    assert!(matches!(rx.try_recv(), Err(TryRecvError::Empty)));
}

#[test]
fn sender_converts_into_app_sender_of_the_same_channel() {
    let (tx, mut rx) = unbounded_channel::<Event>();
    let app_sender = AppEventSender::from(EventSender::new(tx));
    app_sender.send(AppEvent::Clear(false));
    assert!(matches!(rx.try_recv(), Ok(Event::App(AppEvent::Clear(false)))));
}

#[test]
fn unsigned_integers_widen_to_the_same_value() {
    assert!(matches!(AnyType::from(5u8), AnyType::AnyInt(5)));
    assert!(matches!(AnyType::from(5u16), AnyType::AnyInt(5)));
    assert!(matches!(AnyType::from(5u32), AnyType::AnyInt(5)));
    assert!(matches!(AnyType::from(5u64), AnyType::AnyInt(5)));
    assert!(matches!(AnyType::from(5usize), AnyType::AnyInt(5)));
    assert_eq!(AnyType::from(5u8).as_int(), Some(5));
    assert_eq!(AnyType::from(u64::MAX).as_int(), Some(u64::MAX));
    assert_eq!(AnyType::from('x').as_int(), None);
}

#[test]
fn float_round_trips_through_its_bits() {
    let wide = 3.5f32 as f64;
    let value = AnyType::AnyFloat(wide.to_bits());
    match value {
        AnyType::AnyFloat(bits) => assert!((f64::from_bits(bits) - 3.5).abs() < 1e-9),
        other => panic!("unexpected {:?}", other),
    }
}

#[test]
fn text_and_characters_are_carried() {
    match AnyType::from(String::from("hello")) {
        AnyType::AnyString(s) => assert_eq!(s, "hello"),
        other => panic!("unexpected {:?}", other),
    }
    assert!(matches!(AnyType::from('q'), AnyType::AnyChar('q')));
}

#[test]
fn shared_payload_gives_back_its_value() {
    let payload = SharedPayload::new(vec![1i32, -2, 3]);
    let copy = payload.clone();
    let got: Arc<Vec<i32>> = copy.get::<Vec<i32>>().expect("the vector");
    assert_eq!(*got, vec![1, -2, 3]);
    assert!(payload.get::<String>().is_none());
    let a = payload.get::<Vec<i32>>().unwrap();
    assert!(Arc::ptr_eq(&a, &got));
    let arg = AnyType::AnyCustom(payload);
    assert!(matches!(arg, AnyType::AnyCustom(_)));
}

#[test]
fn custom_event_carries_its_arguments() {
    let args: Arc<[AnyType]> = Arc::from(vec![AnyType::from(5u8), AnyType::from('c')]);
    let event = Event::from(AppEvent::CustomEvent(String::from("SAVE"), Some(args)));
    match event {
        Event::App(AppEvent::CustomEvent(name, Some(list))) => {
            assert_eq!(name, "SAVE");
            assert_eq!(list.len(), 2);
            assert_eq!(list[0].as_int(), Some(5));
        }
        other => panic!("unexpected {:?}", other),
    }
}

#[test]
fn ticks_come_thirty_times_a_second() {
    assert_eq!(persisten_tui::events::event::TICK_FPS, 30);
}

#[test]
fn cloned_mouse_event_is_the_same_event() {
    let mouse = MouseEvent {
        kind: MouseEventKind::Down(MouseButton::Left),
        column: 7,
        row: 9,
        modifiers: KeyModifiers::SHIFT,
    };
    let event = Event::Crossterm(TerminalEvent::Mouse(mouse));
    match event.clone() {
        Event::Crossterm(TerminalEvent::Mouse(copy)) => assert_eq!(copy, mouse),
        other => panic!("unexpected {:?}", other),
    }
}

#[test]
fn stopped_task_stays_stopped() {
    for wakeup in [Wakeup::TickDue, Wakeup::ConsumerClosed, Wakeup::Key(key(KeyCode::Char('c'), CONTROL))] {
        let (state, emit) = TaskState::Stopped.advance(wakeup);
        assert_eq!(state, TaskState::Stopped);
        assert!(emit.is_none());
    }
    let (state, emit) = TaskState::Running.advance(Wakeup::TickDue);
    assert_eq!(state, TaskState::Running);
    assert!(matches!(emit, Some(Event::Tick)));
    let (state, emit) = TaskState::Running.advance(Wakeup::ConsumerClosed);
    assert_eq!(state, TaskState::Stopped);
    assert!(emit.is_none());
}

#[test]
fn text_slice_is_carried() {
    match AnyType::from("abc") {
        AnyType::AnyString(s) => assert_eq!(s, "abc"),
        other => panic!("unexpected {:?}", other),
    }
}
