use persisten_tui::events::key::{CONTROL, SHIFT};
use persisten_tui::events::{KeyCode, KeyEvent, KeyEventKind};
use persisten_tui::widgets::input::cursor_hint;
use persisten_tui::widgets::{InputMode, InputType, InputWidget, WidgetEvent};
use tui_input::InputRequest;

fn press(code: KeyCode, modifiers: u8) -> KeyEvent {
    KeyEvent::new(code, modifiers)
}

fn type_text(widget: &mut InputWidget, text: &str) {
    for c in text.chars() {
        let reported = widget.handle_key_event(
            press(KeyCode::Char(c), 0),
            None,
            Some(InputRequest::InsertChar(c)),
        );
        assert!(reported.is_none());
    }
}

fn submitted(event: Option<WidgetEvent>) -> (String, Option<String>) {
    match event {
        Some(WidgetEvent::Input(pair)) => pair,
        other => panic!("unexpected {:?}", other),
    }
}

#[test]
fn new_input_is_empty() {
    let widget = InputWidget::new("Name", "name");
    assert_eq!(widget.get_content(), "");
    let view = widget.view_for(20);
    assert_eq!(view.content, "Name");
    assert_eq!(view.title, "");
    assert!(!view.editing);
    assert_eq!(view.scroll, 0);
    assert_eq!(view.cursor, None);
    assert_eq!(InputMode::default(), InputMode::Normal);
    assert!(matches!(InputType::Text, InputType::Text));
}

#[test]
fn typing_edits_the_text() {
    let mut widget = InputWidget::new("Name", "name");
    type_text(&mut widget, "hello");
    assert_eq!(widget.get_content(), "hello");
    let _ = widget.handle_key_event(press(KeyCode::Backspace, 0), None, Some(InputRequest::DeletePrevChar));
    assert_eq!(widget.get_content(), "hell");
    let _ = widget.handle_key_event(press(KeyCode::Tab, 0), None, None);
    assert_eq!(widget.get_content(), "hell");
}

#[test]
fn enter_reports_the_text_in_upper_case_id() {
    let mut widget = InputWidget::new("Name", "set name");
    type_text(&mut widget, "Ann");
    let (id, text) = submitted(widget.handle_key_event(press(KeyCode::Enter, 0), None, None));
    assert_eq!(id, "SET NAME");
    assert_eq!(text, Some(String::from("Ann")));
    assert_eq!(widget.get_content(), "Ann");
}

#[test]
fn enter_clears_where_asked() {
    let mut widget = InputWidget::new("Name", "name").clear_on_enter(true);
    type_text(&mut widget, "Ann");
    let (_, text) = submitted(widget.handle_key_event(press(KeyCode::Enter, 0), None, None));
    assert_eq!(text, Some(String::from("Ann")));
    assert_eq!(widget.get_content(), "");
}

#[test]
fn released_enter_reports_nothing() {
    let mut widget = InputWidget::new("Name", "name");
    type_text(&mut widget, "Ann");
    let release = KeyEvent { code: KeyCode::Enter, modifiers: 0, kind: KeyEventKind::Release, state: 0 };
    assert!(widget.handle_key_event(release, None, None).is_none());
    assert_eq!(widget.get_content(), "Ann");
}

#[test]
fn clipboard_is_wanted_only_for_control_v_on_a_clipboard_input() {
    let plain = InputWidget::new("Name", "name");
    let with = InputWidget::new("Name", "name").with_clippboard(true);
    let ctrl_v = press(KeyCode::Char('v'), CONTROL);
    assert!(!plain.wants_clipboard(ctrl_v));
    assert!(with.wants_clipboard(ctrl_v));
    assert!(with.wants_clipboard(press(KeyCode::Char('v'), CONTROL | SHIFT)));
    assert!(!with.wants_clipboard(press(KeyCode::Char('v'), 0)));
    assert!(!with.wants_clipboard(press(KeyCode::Char('x'), CONTROL)));
    assert!(!with.wants_clipboard(press(KeyCode::Enter, CONTROL)));
    let release = KeyEvent { code: KeyCode::Char('v'), modifiers: CONTROL, kind: KeyEventKind::Release, state: 0 };
    assert!(!with.wants_clipboard(release));
}

#[test]
fn paste_inserts_at_the_cursor() {
    let mut widget = InputWidget::new("Name", "name").with_clippboard(true);
    type_text(&mut widget, "held");
    let _ = widget.handle_key_event(press(KeyCode::Left, 0), None, Some(InputRequest::GoToPrevChar));
    let _ = widget.handle_key_event(press(KeyCode::Left, 0), None, Some(InputRequest::GoToPrevChar));
    let reported = widget.handle_key_event(
        press(KeyCode::Char('v'), CONTROL),
        Some(String::from("XY")),
        None,
    );
    assert!(reported.is_none());
    assert_eq!(widget.get_content(), "heXYld");
    type_text(&mut widget, "!");
    assert_eq!(widget.get_content(), "he!XYld");
}

#[test]
fn paste_without_clipboard_content_falls_through() {
    let mut widget = InputWidget::new("Name", "name").with_clippboard(true);
    type_text(&mut widget, "ab");
    let _ = widget.handle_key_event(press(KeyCode::Char('v'), CONTROL), None, None);
    assert_eq!(widget.get_content(), "ab");
}

#[test]
fn paste_inside_a_character_changes_nothing() {
    let mut widget = InputWidget::new("Name", "name");
    type_text(&mut widget, "é");
    widget.paste("x");
    assert_eq!(widget.get_content(), "é");
    let mut ascii = InputWidget::new("Name", "name");
    type_text(&mut ascii, "ab");
    ascii.paste("x");
    assert_eq!(ascii.get_content(), "abx");
}

#[test]
fn clear_keeps_or_discards_the_text() {
    let mut widget = InputWidget::new("Name", "name");
    widget.focus();
    type_text(&mut widget, "abc");
    assert!(widget.view_for(20).editing);
    widget.clear(false);
    assert!(!widget.view_for(20).editing);
    assert_eq!(widget.get_content(), "abc");
    widget.start_editing();
    widget.clear(true);
    assert!(!widget.view_for(20).editing);
    assert_eq!(widget.get_content(), "");
    widget.focus();
    widget.unfocus();
    assert!(!widget.view_for(20).editing);
    widget.start_editing();
    widget.stop_editing();
    assert!(!widget.view_for(20).editing);
}

#[test]
fn view_of_text_and_password() {
    let mut widget = InputWidget::new("Name", "name");
    type_text(&mut widget, "abc");
    let view = widget.view_for(20);
    assert_eq!(view.content, "abc");
    assert_eq!(view.title, "Name");
    assert_eq!(view.cursor, None);
    let mut secret = InputWidget::new("Key", "key").password();
    type_text(&mut secret, "abé");
    secret.focus();
    let view = secret.view_for(20);
    assert_eq!(view.content, "****");
    assert_eq!(view.title, "Key");
    assert!(view.editing);
    assert_eq!(view.scroll, 0);
    assert_eq!(view.cursor, Some(4));
}

#[test]
fn view_scrolls_in_a_narrow_area() {
    let mut widget = InputWidget::new("Name", "name");
    type_text(&mut widget, "abcdefghij");
    widget.focus();
    let view = widget.view_for(8);
    assert_eq!(view.scroll, 5);
    assert_eq!(view.cursor, Some(6));
    let tiny = widget.view_for(2);
    assert_eq!(tiny.scroll, 10);
    assert_eq!(tiny.cursor, Some(1));
}

#[test]
fn cursor_hint_is_one_past_the_distance() {
    assert_eq!(cursor_hint(0, 0), 1);
    assert_eq!(cursor_hint(10, 4), 7);
    assert_eq!(cursor_hint(3, 9), 1);
    assert_eq!(cursor_hint(65535, 0), 0);
    assert_eq!(cursor_hint(65536, 0), 1);
    assert_eq!(cursor_hint(usize::MAX, 0), 0);
}
