//! A single-line text input: it edits while focused, and reports its text
//! when enter is pressed.

use crate::events::key::{KeyCode, KeyEvent, KeyEventKind};
use crate::widgets::button::to_uppercase;
use crate::widgets::WidgetEvent;
use tui_input::{Input, InputRequest};
use vstd::prelude::*;
use vstd::string::StringSliceAdditionalSpecFns;
use vstd::utf8::{decode_utf8, encode_utf8, is_char_boundary};

verus! {

/// The line editor of the `tui_input` crate, as an opaque value.
#[verifier::external_type_specification]
#[verifier::external_body]
pub struct ExInput(Input);

/// One editing request of the `tui_input` crate, as an opaque value.
#[verifier::external_type_specification]
#[verifier::external_body]
pub struct ExInputRequest(InputRequest);

/// The text that an input holds.
pub uninterp spec fn input_text(input: Input) -> Seq<char>;

/// Where the cursor of an input stands, counted in characters.
pub uninterp spec fn input_cursor(input: Input) -> nat;

/// The display column of the cursor of an input with this text and cursor.
pub uninterp spec fn visual_cursor_of(text: Seq<char>, cursor: nat) -> nat;

/// How many display columns an input with this text and cursor is scrolled
/// when `width` columns are shown.
pub uninterp spec fn visual_scroll_of(text: Seq<char>, cursor: nat, width: nat) -> nat;

/// `Input::default`: no text, the cursor at the start.
#[verifier::external_body]
fn input_empty() -> (input: Input)
    ensures
        input_text(input) == Seq::<char>::empty(),
        input_cursor(input) == 0,
{
    Input::default()
}

/// `Input::new` followed by `Input::with_cursor`: the given text, the cursor
/// at the given character or at the end of the text if that is nearer.
#[verifier::external_body]
fn input_with(value: String, cursor: usize) -> (input: Input)
    ensures
        input_text(input) == value@,
        input_cursor(input) == (if cursor <= value@.len() {
            cursor as nat
        } else {
            value@.len()
        }),
{
    Input::new(value).with_cursor(cursor)
}

/// `Input::value`, as an owned string.
#[verifier::external_body]
fn input_value(input: &Input) -> (value: String)
    ensures
        value@ == input_text(*input),
{
    input.value().to_owned()
}

/// `Input::cursor`.
#[verifier::external_body]
fn input_cursor_at(input: &Input) -> (cursor: usize)
    ensures
        cursor == input_cursor(*input),
{
    input.cursor()
}

/// `Input::reset`: the text is discarded and the cursor goes to the start.
#[verifier::external_body]
fn input_reset(input: &mut Input)
    ensures
        input_text(*final(input)) == Seq::<char>::empty(),
        input_cursor(*final(input)) == 0,
{
    input.reset()
}

/// `Input::handle`: one editing request. What it does to the text depends on
/// what the input has cut before, so nothing is said of it here.
#[verifier::external_body]
fn input_handle(input: &mut Input, request: InputRequest) {
    let _ = input.handle(request);
}

/// `Input::visual_cursor`.
#[verifier::external_body]
fn input_visual_cursor(input: &Input) -> (column: usize)
    ensures
        column == visual_cursor_of(input_text(*input), input_cursor(*input)),
{
    input.visual_cursor()
}

/// `Input::visual_scroll`.
#[verifier::external_body]
fn input_visual_scroll(input: &Input, width: usize) -> (scroll: usize)
    ensures
        scroll == visual_scroll_of(input_text(*input), input_cursor(*input), width as nat),
{
    input.visual_scroll(width)
}

/// `text` with `content` inserted at the byte `at` of its encoding.
pub open spec fn text_with_insert(text: Seq<char>, at: int, content: Seq<char>) -> Seq<char> {
    decode_utf8(
        encode_utf8(text).subrange(0, at) + encode_utf8(content) + encode_utf8(text).subrange(
            at,
            encode_utf8(text).len() as int,
        ),
    )
}

/// `String::insert_str`: the bytes of `content` are inserted at the byte
/// `at`, which has to be the start of a character or the end of the text.
#[verifier::external_body]
fn insert_str(value: String, at: usize, content: &str) -> (out: String)
    requires
        at <= encode_utf8(value@).len(),
        is_char_boundary(encode_utf8(value@), at as int),
    ensures
        out@ == text_with_insert(value@, at as int, content@),
{
    let mut out = value;
    out.insert_str(at, content);
    out
}

/// `str::repeat`: `unit` written `times` times, one after the other. The
/// whole may not be longer than a string can be.
#[verifier::external_body]
fn repeat_str(unit: &str, times: usize) -> (out: String)
    requires
        times * encode_utf8(unit@).len() <= isize::MAX,
    ensures
        out@.len() == times * unit@.len(),
        forall|i: int| 0 <= i < out@.len() ==> out@[i] == unit@[i % (unit@.len() as int)],
{
    unit.repeat(times)
}

/// What stands for a password of `bytes` bytes: one star for each byte. No
/// string is longer than `isize::MAX` bytes; past that there is no mask.
pub open spec fn password_mask(bytes: nat) -> Seq<char> {
    if bytes <= isize::MAX {
        Seq::new(bytes, |i: int| '*')
    } else {
        Seq::empty()
    }
}

#[derive(Debug, Clone, Copy, PartialEq, Eq, Structural)]
pub enum InputMode {
    Normal,
    Editing,
}

impl Default for InputMode {
    fn default() -> (mode: InputMode)
        ensures
            mode == InputMode::Normal,
    {
        InputMode::Normal
    }
}

#[derive(Debug)]
pub enum InputType {
    Text,
    Password,
}

#[derive(Debug)]
pub struct InputWidget {
    titel: String,
    input_type: InputType,
    input_mode: InputMode,
    input: Input,
    on_enter_id: Option<String>,
    clear_on_enter: bool,
    use_clipboard: bool,
}

/// What there is to draw of an input.
#[derive(Debug)]
pub struct InputView {
    /// The line inside the border.
    pub content: String,
    /// The title on the border.
    pub title: String,
    /// Whether the input is being edited, and so drawn highlighted.
    pub editing: bool,
    /// How many columns the line is scrolled.
    pub scroll: u16,
    /// The column of the cursor inside the area, while the input is edited.
    pub cursor: Option<u16>,
}

/// The width that is left for text in an area: the area without its two
/// borders and the column of the cursor.
pub open spec fn text_width(area_width: u16) -> nat {
    if area_width >= 3 {
        (area_width - 3) as nat
    } else {
        0
    }
}

/// The column of the cursor for a cursor at display column `visual_cursor` in
/// a line scrolled by `scroll`: one past the distance between the two, kept
/// to sixteen bits.
pub open spec fn cursor_column(visual_cursor: nat, scroll: nat) -> int {
    ((if visual_cursor >= scroll {
        visual_cursor - scroll
    } else {
        0
    }) + 1) % 65536
}

/// The column of the cursor inside the area.
pub fn cursor_hint(visual_cursor: usize, scroll: usize) -> (column: u16)
    ensures
        column == cursor_column(visual_cursor as nat, scroll as nat),
{
    let distance: usize = if visual_cursor >= scroll {
        visual_cursor - scroll
    } else {
        0
    };
    let low: u16 = (distance % 65536) as u16;
    if low == u16::MAX {
        0
    } else {
        low + 1
    }
}

impl InputWidget {
    pub closed spec fn title(&self) -> Seq<char> {
        self.titel@
    }

    pub closed spec fn is_password(&self) -> bool {
        self.input_type is Password
    }

    pub closed spec fn mode(&self) -> InputMode {
        self.input_mode
    }

    /// The text that has been typed.
    pub closed spec fn content(&self) -> Seq<char> {
        input_text(self.input)
    }

    /// Where the cursor stands, counted in characters.
    pub closed spec fn cursor(&self) -> nat {
        input_cursor(self.input)
    }

    /// The identifier that enter reports, if it reports.
    pub closed spec fn on_enter_id(&self) -> Option<Seq<char>> {
        match self.on_enter_id {
            Some(id) => Some(id@),
            None => None,
        }
    }

    pub closed spec fn clears_on_enter(&self) -> bool {
        self.clear_on_enter
    }

    pub closed spec fn uses_clipboard(&self) -> bool {
        self.use_clipboard
    }

    /// Everything but text, cursor and mode is as in `other`.
    pub open spec fn same_setup(&self, other: &InputWidget) -> bool {
        &&& self.title() == other.title()
        &&& self.is_password() == other.is_password()
        &&& self.on_enter_id() == other.on_enter_id()
        &&& self.clears_on_enter() == other.clears_on_enter()
        &&& self.uses_clipboard() == other.uses_clipboard()
    }

    /// Text and cursor are as in `other`.
    pub open spec fn same_text(&self, other: &InputWidget) -> bool {
        self.content() == other.content() && self.cursor() == other.cursor()
    }

    /// An empty text input in mode `Normal` that reports `on_enter` in upper
    /// case, keeps its text on enter, and does not use the clipboard.
    pub fn new(titel: &str, on_enter: &str) -> (widget: Self)
        ensures
            widget.title() == titel@,
            !widget.is_password(),
            widget.mode() == InputMode::Normal,
            widget.content() == Seq::<char>::empty(),
            widget.cursor() == 0,
            widget.on_enter_id() == Some(crate::widgets::button::uppercase(on_enter@)),
            !widget.clears_on_enter(),
            !widget.uses_clipboard(),
    {
        Self {
            titel: titel.to_owned(),
            input_type: InputType::Text,
            input_mode: InputMode::Normal,
            input: input_empty(),
            on_enter_id: Some(to_uppercase(on_enter)),
            clear_on_enter: false,
            use_clipboard: false,
        }
    }

    pub fn with_clippboard(self, clipboard: bool) -> (widget: Self)
        ensures
            widget.uses_clipboard() == clipboard,
            widget.title() == self.title(),
            widget.is_password() == self.is_password(),
            widget.on_enter_id() == self.on_enter_id(),
            widget.clears_on_enter() == self.clears_on_enter(),
            widget.mode() == self.mode(),
            widget.same_text(&self),
    {
        let mut widget = self;
        widget.use_clipboard = clipboard;
        widget
    }

    pub fn clear_on_enter(self, clear: bool) -> (widget: Self)
        ensures
            widget.clears_on_enter() == clear,
            widget.title() == self.title(),
            widget.is_password() == self.is_password(),
            widget.on_enter_id() == self.on_enter_id(),
            widget.uses_clipboard() == self.uses_clipboard(),
            widget.mode() == self.mode(),
            widget.same_text(&self),
    {
        let mut widget = self;
        widget.clear_on_enter = clear;
        widget
    }

    pub fn password(self) -> (widget: Self)
        ensures
            widget.is_password(),
            widget.title() == self.title(),
            widget.on_enter_id() == self.on_enter_id(),
            widget.clears_on_enter() == self.clears_on_enter(),
            widget.uses_clipboard() == self.uses_clipboard(),
            widget.mode() == self.mode(),
            widget.same_text(&self),
    {
        let mut widget = self;
        widget.input_type = InputType::Password;
        widget
    }

    pub fn get_content(&self) -> (content: String)
        ensures
            content@ == self.content(),
    {
        input_value(&self.input)
    }

    pub fn start_editing(&mut self)
        ensures
            final(self).mode() == InputMode::Editing,
            final(self).same_setup(old(self)),
            final(self).same_text(old(self)),
    {
        self.input_mode = InputMode::Editing
    }

    pub fn stop_editing(&mut self)
        ensures
            final(self).mode() == InputMode::Normal,
            final(self).same_setup(old(self)),
            final(self).same_text(old(self)),
    {
        self.input_mode = InputMode::Normal
    }

    /// Ends editing; a hard clear also discards the text.
    pub fn clear(&mut self, hard: bool)
        ensures
            final(self).mode() == InputMode::Normal,
            final(self).same_setup(old(self)),
            hard ==> final(self).content() == Seq::<char>::empty() && final(self).cursor() == 0,
            !hard ==> final(self).same_text(old(self)),
    {
        self.stop_editing();
        if hard {
            input_reset(&mut self.input);
        }
    }

    pub fn focus(&mut self)
        ensures
            final(self).mode() == InputMode::Editing,
            final(self).same_setup(old(self)),
            final(self).same_text(old(self)),
    {
        self.start_editing();
    }

    pub fn unfocus(&mut self)
        ensures
            final(self).mode() == InputMode::Normal,
            final(self).same_setup(old(self)),
            final(self).same_text(old(self)),
    {
        self.stop_editing();
    }

    /// The key submits the text: enter went down, and there is an identifier
    /// to report.
    pub open spec fn submits(&self, key_event: KeyEvent) -> bool {
        key_event.code == KeyCode::Enter && key_event.kind == KeyEventKind::Press
            && self.on_enter_id() is Some
    }

    /// The key asks for the clipboard: `v` went down with control held, on an
    /// input that uses the clipboard, and the key does not submit.
    pub open spec fn asks_clipboard(&self, key_event: KeyEvent) -> bool {
        !self.submits(key_event) && self.uses_clipboard() && key_event.code == KeyCode::Char('v')
            && key_event.kind == KeyEventKind::Press && key_event.has_control()
    }

    /// The cursor, read as a byte position, stands where a character of the
    /// text starts or where the text ends.
    pub open spec fn cursor_on_boundary(&self) -> bool {
        self.cursor() <= encode_utf8(self.content()).len() && is_char_boundary(
            encode_utf8(self.content()),
            self.cursor() as int,
        )
    }

    /// Whether the clipboard is to be read before `key_event` is handled.
    pub fn wants_clipboard(&self, key_event: KeyEvent) -> (wanted: bool)
        ensures
            wanted == self.asks_clipboard(key_event),
    {
        let enter = match key_event.code {
            KeyCode::Enter => true,
            _ => false,
        };
        let v = match key_event.code {
            KeyCode::Char(c) => c == 'v',
            _ => false,
        };
        let submits = enter && key_event.is_press() && self.on_enter_id.is_some();
        !submits && self.use_clipboard && v && key_event.is_press() && key_event.holds_control()
    }

    /// Text and cursor are those of `before` after `content` was pasted:
    /// the content inserted at the cursor and the cursor where it stood (or at
    /// the end of the text, if that is nearer); nothing changed where the
    /// cursor, read as a byte position, stood inside a character.
    pub open spec fn is_paste_into(&self, before: &InputWidget, content: Seq<char>) -> bool {
        if before.cursor_on_boundary() {
            &&& self.content() == text_with_insert(
                before.content(),
                before.cursor() as int,
                content,
            )
            &&& self.cursor() == (if before.cursor() <= self.content().len() {
                before.cursor()
            } else {
                self.content().len()
            })
        } else {
            self.same_text(before)
        }
    }

    /// Inserts `content` at the cursor, and leaves the cursor where it stood.
    /// The cursor is taken as a byte position; where no character starts
    /// there, nothing is inserted.
    pub fn paste(&mut self, content: &str)
        ensures
            final(self).same_setup(old(self)),
            final(self).mode() == old(self).mode(),
            final(self).is_paste_into(old(self), content@),
    {
        let value = input_value(&self.input);
        let cursor = input_cursor_at(&self.input);
        let text: &str = value.as_str();
        let fits = cursor <= text.as_bytes().len();
        let starts = text.is_char_boundary(cursor);
        assert(text.spec_bytes() == encode_utf8(self.content()));
        assert(fits == (cursor <= encode_utf8(self.content()).len()));
        assert(starts == is_char_boundary(encode_utf8(self.content()), cursor as int));
        if fits && starts {
            let pasted = insert_str(value, cursor, content);
            self.input = input_with(pasted, cursor);
        }
    }

    /// Handles a key.
    ///
    /// `clipboard` is what the clipboard holds, read where `wants_clipboard`
    /// asked for it; `request` is the editing request that the key stands
    /// for, if it stands for one.
    ///
    /// Enter reports the text under the input's identifier, and discards the
    /// text where the input clears on enter. A paste inserts the clipboard's
    /// text at the cursor. Any other key is an editing request or nothing.
    pub fn handle_key_event(
        &mut self,
        key_event: KeyEvent,
        clipboard: Option<String>,
        request: Option<InputRequest>,
    ) -> (reported: Option<WidgetEvent>)
        ensures
            final(self).same_setup(old(self)),
            final(self).mode() == old(self).mode(),
            old(self).submits(key_event) ==> (reported matches Some(
                WidgetEvent::Input((id, Some(text))),
            ) && Some(id@) == old(self).on_enter_id() && text@ == old(self).content()),
            old(self).submits(key_event) && old(self).clears_on_enter() ==> final(self).content()
                == Seq::<char>::empty() && final(self).cursor() == 0,
            old(self).submits(key_event) && !old(self).clears_on_enter() ==> final(self).same_text(old(self)),
            !old(self).submits(key_event) ==> reported is None,
            old(self).asks_clipboard(key_event) && clipboard is Some ==> final(self).is_paste_into(
                old(self),
                clipboard->Some_0@,
            ),
            !old(self).submits(key_event) && !(old(self).asks_clipboard(key_event) && clipboard
                is Some) && request is None ==> final(self).same_text(old(self)),
    {
        let enter = match key_event.code {
            KeyCode::Enter => true,
            _ => false,
        };
        if enter && key_event.is_press() {
            match &self.on_enter_id {
                Some(event_id) => {
                    let id = event_id.clone();
                    let content = self.get_content();
                    if self.clear_on_enter {
                        input_reset(&mut self.input);
                    }
                    return Some(WidgetEvent::Input((id, Some(content))));
                },
                None => {},
            }
        }
        if self.wants_clipboard(key_event) {
            match clipboard {
                Some(content) => {
                    self.paste(content.as_str());
                    return None;
                },
                None => {},
            }
        }
        match request {
            Some(request) => input_handle(&mut self.input, request),
            None => {},
        }
        None
    }

    /// What there is to draw in an area `area_width` columns wide.
    ///
    /// An empty input shows its title as the line and has no title on the
    /// border. A password shows one star for each byte of its text.
    pub fn view_for(&self, area_width: u16) -> (view: InputView)
        ensures
            view.editing == (self.mode() == InputMode::Editing),
            self.content().len() == 0 ==> view.content@ == self.title() && view.title@
                == Seq::<char>::empty(),
            self.content().len() > 0 ==> view.title@ == self.title(),
            self.content().len() > 0 && !self.is_password() ==> view.content@ == self.content(),
            self.content().len() > 0 && self.is_password() ==> view.content@ == password_mask(
                encode_utf8(self.content()).len(),
            ),
            view.scroll as int == visual_scroll_of(
                self.content(),
                self.cursor(),
                text_width(area_width),
            ) % 65536,
            self.mode() == InputMode::Editing ==> view.cursor == Some(
                cursor_column(
                    visual_cursor_of(self.content(), self.cursor()),
                    visual_scroll_of(self.content(), self.cursor(), text_width(area_width)),
                ) as u16,
            ),
            self.mode() != InputMode::Editing ==> view.cursor is None,
    {
        let width: u16 = if area_width >= 3 {
            area_width - 3
        } else {
            0
        };
        let scroll = input_visual_scroll(&self.input, width as usize);
        let value = input_value(&self.input);
        let (content, title) = if !value.as_str().is_empty() {
            match self.input_type {
                InputType::Password => {
                    let bytes: usize = value.as_str().as_bytes().len();
                    let mask = if bytes <= isize::MAX as usize {
                        proof {
                            reveal_strlit("*");
                            assert("*"@ =~= seq!['*']);
                            assert(vstd::utf8::is_ascii_chars("*"@));
                            vstd::utf8::is_ascii_chars_encode_utf8("*"@);
                        }
                        let mask = repeat_str("*", bytes);
                        assert(mask@ =~= password_mask(bytes as nat));
                        mask
                    } else {
                        String::new()
                    };
                    (mask, self.titel.clone())
                },
                InputType::Text => (value, self.titel.clone()),
            }
        } else {
            (self.titel.clone(), String::new())
        };
        let editing = match self.input_mode {
            InputMode::Editing => true,
            InputMode::Normal => false,
        };
        let cursor = if editing {
            Some(cursor_hint(input_visual_cursor(&self.input), scroll))
        } else {
            None
        };
        InputView { content, title, editing, scroll: (scroll % 65536) as u16, cursor }
    }
}

} // verus!
