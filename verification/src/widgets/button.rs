//! A button: it is selected by focus, pressed by a key, and reports the press.

use crate::events::key::{KeyCode, KeyEvent, KeyEventKind};
use crate::widgets::color::Color;
use crate::widgets::{Widget, WidgetEvent};
use vstd::prelude::*;

verus! {

/// The uppercase form of a text, as `str::to_uppercase` gives it.
pub uninterp spec fn uppercase(text: Seq<char>) -> Seq<char>;

/// `str::to_uppercase`: the text with each character replaced by its
/// uppercase form.
#[verifier::external_body]
pub(crate) fn to_uppercase(text: &str) -> (upper: String)
    ensures
        upper@ == uppercase(text@),
{
    text.to_uppercase()
}

/// The four colors of a button.
#[derive(Debug, Clone, Copy)]
pub struct Theme {
    pub text: Color,
    pub background: Color,
    pub highlight: Color,
    pub shadow: Color,
}

impl Theme {
    pub fn blue() -> (theme: Theme)
        ensures
            theme == (Theme {
                text: Color::Rgb(16, 24, 48),
                background: Color::Rgb(48, 72, 144),
                highlight: Color::Rgb(64, 96, 192),
                shadow: Color::Rgb(32, 48, 96),
            }),
    {
        Theme {
            text: Color::Rgb(16, 24, 48),
            background: Color::Rgb(48, 72, 144),
            highlight: Color::Rgb(64, 96, 192),
            shadow: Color::Rgb(32, 48, 96),
        }
    }

    pub fn red() -> (theme: Theme)
        ensures
            theme == (Theme {
                text: Color::Rgb(48, 16, 16),
                background: Color::Rgb(144, 48, 48),
                highlight: Color::Rgb(192, 64, 64),
                shadow: Color::Rgb(96, 32, 32),
            }),
    {
        Theme {
            text: Color::Rgb(48, 16, 16),
            background: Color::Rgb(144, 48, 48),
            highlight: Color::Rgb(192, 64, 64),
            shadow: Color::Rgb(96, 32, 32),
        }
    }

    pub fn green() -> (theme: Theme)
        ensures
            theme == (Theme {
                text: Color::Rgb(16, 48, 16),
                background: Color::Rgb(48, 144, 48),
                highlight: Color::Rgb(64, 192, 64),
                shadow: Color::Rgb(32, 96, 32),
            }),
    {
        Theme {
            text: Color::Rgb(16, 48, 16),
            background: Color::Rgb(48, 144, 48),
            highlight: Color::Rgb(64, 192, 64),
            shadow: Color::Rgb(32, 96, 32),
        }
    }
}

#[derive(Debug, Clone, Copy, PartialEq, Eq, Structural)]
pub enum ButtonState {
    Normal,
    Selected,
    Active,
}

#[derive(Debug, Clone)]
pub struct Button {
    state: ButtonState,
    prev_state: ButtonState,
    label: String,
    theme: Theme,
    key_id: char,
    on_press_id: String,
}

/// Where a label of `label_width` cells starts so that it stands in the
/// middle of an area: the column, then the row.
pub open spec fn centered_origin(
    x: u16,
    y: u16,
    width: u16,
    height: u16,
    label_width: u16,
) -> (int, int) {
    (
        x + (if width >= label_width {
            width - label_width
        } else {
            0
        }) / 2,
        y + (if height >= 1 {
            height - 1
        } else {
            0
        }) / 2,
    )
}

/// Where a button's label starts inside its area, or `None` where the
/// position does not fit the terminal's coordinates.
pub fn label_origin(x: u16, y: u16, width: u16, height: u16, label_width: u16) -> (origin: Option<
    (u16, u16),
>)
    ensures
        origin is Some <==> centered_origin(x, y, width, height, label_width).0 <= u16::MAX
            && centered_origin(x, y, width, height, label_width).1 <= u16::MAX,
        origin is Some ==> origin->Some_0.0 == centered_origin(x, y, width, height, label_width).0
            && origin->Some_0.1 == centered_origin(x, y, width, height, label_width).1,
{
    let dx: u16 = (if width >= label_width {
        width - label_width
    } else {
        0
    }) / 2;
    let dy: u16 = (if height >= 1 {
        height - 1
    } else {
        0
    }) / 2;
    if dx > u16::MAX - x || dy > u16::MAX - y {
        None
    } else {
        Some((x + dx, y + dy))
    }
}

impl Button {
    pub closed spec fn state(&self) -> ButtonState {
        self.state
    }

    /// The state that a release goes back to.
    pub closed spec fn prev_state(&self) -> ButtonState {
        self.prev_state
    }

    pub closed spec fn label(&self) -> Seq<char> {
        self.label@
    }

    pub closed spec fn get_theme(&self) -> Theme {
        self.theme
    }

    pub closed spec fn key_id(&self) -> char {
        self.key_id
    }

    /// The identifier that a press reports.
    pub closed spec fn on_press_id(&self) -> Seq<char> {
        self.on_press_id@
    }

    /// Everything of the button but its state is as in `other`.
    pub open spec fn same_setup(&self, other: &Button) -> bool {
        &&& self.label() == other.label()
        &&& self.get_theme() == other.get_theme()
        &&& self.key_id() == other.key_id()
        &&& self.on_press_id() == other.on_press_id()
    }

    /// A press counts: the button is selected, or the key is the button's own.
    pub open spec fn press_counts(&self, event: KeyEvent) -> bool {
        self.state() == ButtonState::Selected || event.code == KeyCode::Char(self.key_id())
    }

    /// The key is one that the button listens to: enter, space, or its own.
    pub open spec fn listens_to(&self, event: KeyEvent) -> bool {
        event.code == KeyCode::Enter || event.code == KeyCode::Char(' ') || event.code
            == KeyCode::Char(self.key_id())
    }

    /// A button in state `Normal`, with the blue theme, that reports
    /// `on_press` in upper case.
    pub fn new(label: &str, key_id: char, on_press: &str) -> (button: Self)
        ensures
            button.state() == ButtonState::Normal,
            button.prev_state() == ButtonState::Normal,
            button.label() == label@,
            button.get_theme() == Theme::blue_spec(),
            button.key_id() == key_id,
            button.on_press_id() == uppercase(on_press@),
    {
        Self {
            state: ButtonState::Normal,
            prev_state: ButtonState::Normal,
            label: label.to_owned(),
            theme: Theme::blue(),
            key_id,
            on_press_id: to_uppercase(on_press),
        }
    }

    /// The text on the button.
    pub fn get_label(&self) -> (label: &str)
        ensures
            label@ == self.label(),
    {
        self.label.as_str()
    }

    /// The key that presses the button from anywhere.
    pub fn get_key_id(&self) -> (key: char)
        ensures
            key == self.key_id(),
    {
        self.key_id
    }

    pub fn is_pressed(&self) -> (pressed: bool)
        ensures
            pressed == (self.state() == ButtonState::Active),
    {
        self.state == ButtonState::Active
    }

    pub fn theme(self, theme: Theme) -> (button: Self)
        ensures
            button.get_theme() == theme,
            button.state() == self.state(),
            button.prev_state() == self.prev_state(),
            button.label() == self.label(),
            button.key_id() == self.key_id(),
            button.on_press_id() == self.on_press_id(),
    {
        let mut button = self;
        button.theme = theme;
        button
    }

    /// The colors to draw with: background, text, shadow, highlight. A
    /// selected button is filled with its highlight; an active one swaps
    /// shadow and highlight.
    pub fn colors(&self) -> (colors: (Color, Color, Color, Color))
        ensures
            colors == (match self.state() {
                ButtonState::Normal => (
                    self.get_theme().background,
                    self.get_theme().text,
                    self.get_theme().shadow,
                    self.get_theme().highlight,
                ),
                ButtonState::Selected => (
                    self.get_theme().highlight,
                    self.get_theme().text,
                    self.get_theme().shadow,
                    self.get_theme().highlight,
                ),
                ButtonState::Active => (
                    self.get_theme().background,
                    self.get_theme().text,
                    self.get_theme().highlight,
                    self.get_theme().shadow,
                ),
            }),
    {
        let theme = self.theme;
        match self.state {
            ButtonState::Normal => (theme.background, theme.text, theme.shadow, theme.highlight),
            ButtonState::Selected => (theme.highlight, theme.text, theme.shadow, theme.highlight),
            ButtonState::Active => (theme.background, theme.text, theme.highlight, theme.shadow),
        }
    }

    /// The state after a key that the button listens to.
    pub open spec fn state_after_press(&self, event: KeyEvent) -> ButtonState {
        match event.kind {
            KeyEventKind::Press => if self.press_counts(event) {
                ButtonState::Active
            } else {
                self.state()
            },
            KeyEventKind::Release => if self.state() == ButtonState::Active {
                self.prev_state()
            } else {
                self.state()
            },
            KeyEventKind::Repeat => self.state(),
        }
    }

    /// The button reports a press: the key went down and the press counts.
    pub open spec fn reports(&self, event: KeyEvent) -> bool {
        event.kind == KeyEventKind::Press && self.press_counts(event)
    }

    /// Handles a key that the button listens to.
    ///
    /// A press that counts makes the button active, remembers the state it
    /// came from, and reports the button's identifier. A release of an active
    /// button goes back to the remembered state. Nothing else changes
    /// anything.
    pub fn handle_press(&mut self, event: KeyEvent) -> (reported: Option<WidgetEvent>)
        ensures
            final(self).same_setup(old(self)),
            final(self).state() == old(self).state_after_press(event),
            final(self).prev_state() == (if old(self).reports(event) {
                old(self).state()
            } else {
                old(self).prev_state()
            }),
            old(self).reports(event) ==> (reported matches Some(WidgetEvent::Button(id)) && id@
                == old(self).on_press_id()),
            !old(self).reports(event) ==> reported is None,
    {
        match event.kind {
            KeyEventKind::Press => {
                let own_key = match event.code {
                    KeyCode::Char(c) => c == self.key_id,
                    _ => false,
                };
                if self.state == ButtonState::Selected || own_key {
                    self.prev_state = self.state;
                    self.state = ButtonState::Active;
                    return Some(WidgetEvent::Button(self.on_press_id.clone()));
                }
                None
            },
            KeyEventKind::Release => {
                if self.state == ButtonState::Active {
                    self.state = self.prev_state;
                    return None;
                }
                None
            },
            _ => None,
        }
    }
}

impl Theme {
    pub open spec fn blue_spec() -> Theme {
        Theme {
            text: Color::Rgb(16, 24, 48),
            background: Color::Rgb(48, 72, 144),
            highlight: Color::Rgb(64, 96, 192),
            shadow: Color::Rgb(32, 48, 96),
        }
    }
}

impl Widget for Button {
    fn clear(&mut self, hard: bool)
        ensures
            final(self).state() == ButtonState::Normal,
            final(self).prev_state() == old(self).prev_state(),
            final(self).same_setup(old(self)),
    {
        self.state = ButtonState::Normal;
    }

    fn handle_key_event(&mut self, event: KeyEvent) -> (reported: Option<WidgetEvent>)
        ensures
            final(self).same_setup(old(self)),
            final(self).state() == (if old(self).listens_to(event) {
                old(self).state_after_press(event)
            } else {
                old(self).state()
            }),
            final(self).prev_state() == (if old(self).listens_to(event) && old(self).reports(
                event,
            ) {
                old(self).state()
            } else {
                old(self).prev_state()
            }),
            old(self).listens_to(event) && old(self).reports(event) ==> (reported matches Some(
                WidgetEvent::Button(id),
            ) && id@ == old(self).on_press_id()),
            !(old(self).listens_to(event) && old(self).reports(event)) ==> reported is None,
    {
        let listens = match event.code {
            KeyCode::Enter => true,
            KeyCode::Char(c) => c == ' ' || c == self.key_id,
            _ => false,
        };
        if listens {
            self.handle_press(event)
        } else {
            None
        }
    }

    fn focus(&mut self)
        ensures
            final(self).state() == ButtonState::Selected,
            final(self).prev_state() == old(self).prev_state(),
            final(self).same_setup(old(self)),
    {
        self.state = ButtonState::Selected;
    }

    fn unfocus(&mut self)
        ensures
            final(self).state() == ButtonState::Normal,
            final(self).prev_state() == old(self).prev_state(),
            final(self).same_setup(old(self)),
    {
        self.state = ButtonState::Normal;
    }

    fn get_len(&self) -> (len: usize)
        ensures
            len == 0,
    {
        0
    }

    fn is_long(&self) -> (long: bool)
        ensures
            !long,
    {
        false
    }
}

} // verus!
