//! Widgets: what a leaf of the component tree can do, and the widgets that
//! come with the library.

use crate::events::key::KeyEvent;
use vstd::prelude::*;

pub mod button;
pub mod color;
pub mod input;

pub use button::{Button, ButtonState, Theme};
pub use color::{get_indexed_inverse, get_inverse, Color};
pub use input::{InputMode, InputType, InputView, InputWidget};

verus! {

/// What a widget reports upward after a key.
#[derive(Debug)]
pub enum WidgetEvent {
    /// An input was submitted: its identifier and its text.
    Input((String, Option<String>)),
    /// A button was pressed: its identifier.
    Button(String),
}

/// What a leaf of the component tree can do, besides being drawn.
///
/// A widget that does not say otherwise ignores keys, has length zero and is
/// not long.
pub trait Widget {
    /// The widget gains the focus.
    fn focus(&mut self) {
    }

    /// The widget loses the focus.
    fn unfocus(&mut self) {
    }

    /// Handles a key, and may report an event upward. Unless the widget
    /// handles keys itself, the key changes nothing and nothing is reported.
    fn handle_key_event(&mut self, key_event: KeyEvent) -> (reported: Option<WidgetEvent>)
        default_ensures
            reported is None,
            &*final(self) == &*old(self),
    {
        None
    }

    /// Resets the widget; a hard reset also discards its content.
    fn clear(&mut self, hard: bool);

    /// The logical length of the widget, for addressing: zero, unless the
    /// widget reports a length of its own.
    fn get_len(&self) -> (len: usize)
        default_ensures
            len == 0,
    {
        0
    }

    /// Whether the widget expands into rows of its own: it does not, unless
    /// the widget says so itself.
    fn is_long(&self) -> (long: bool)
        default_ensures
            !long,
    {
        false
    }
}

} // verus!
