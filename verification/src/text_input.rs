//! State of a single-line text input and its reaction to keyboard events.

use vstd::prelude::*;
use vstd::utf8::{decode_utf8, encode_utf8, is_char_boundary};
use std::ops::Range;
use crate::text::string_push;

verus! {

/// Keys that a keyboard event can name.
#[derive(Debug, Clone, Copy, PartialEq, Eq, Structural, Hash)]
pub enum VirtualKeyCode {
    Key1,
    Key2,
    Key3,
    Key4,
    Key5,
    Key6,
    Key7,
    Key8,
    Key9,
    Key0,
    A,
    B,
    C,
    D,
    E,
    F,
    G,
    H,
    I,
    J,
    K,
    L,
    M,
    N,
    O,
    P,
    Q,
    R,
    S,
    T,
    U,
    V,
    W,
    X,
    Y,
    Z,
    Escape,
    F1,
    F2,
    F3,
    F4,
    F5,
    F6,
    F7,
    F8,
    F9,
    F10,
    F11,
    F12,
    Insert,
    Home,
    Delete,
    End,
    PageDown,
    PageUp,
    Left,
    Up,
    Right,
    Down,
    Back,
    Return,
    Space,
    Tab,
    LShift,
    RShift,
    LControl,
    RControl,
    LAlt,
    RAlt,
}

/// What the keyboard reports with one event.
#[derive(Debug, Clone, Copy, PartialEq, Eq, Structural, Hash)]
pub struct KeyboardState {
    /// Whether a shift key is held
    pub shift_down: bool,
    /// Whether a control key is held
    pub ctrl_down: bool,
    /// Whether an alt key is held
    pub alt_down: bool,
    /// Whether a super key is held
    pub super_down: bool,
    /// The character that the event typed, if it typed one
    pub current_char: Option<char>,
    /// The key that the event pressed, if it pressed one
    pub current_virtual_keycode: Option<VirtualKeyCode>,
}

/// Whether the screen has to be drawn again after a callback.
#[derive(Debug, Clone, Copy, PartialEq, Eq, Structural, Hash)]
pub enum UpdateScreen {
    Redraw,
    DontRedraw,
}

pub type CallbackReturn = UpdateScreen;

#[derive(Debug, Hash, PartialEq, Eq)]
pub enum Selection {
    All,
    FromTo(Range<usize>),
}

impl Clone for Selection {
    fn clone(&self) -> (copy: Self)
        ensures
            copy == *self,
    {
        match self {
            Selection::All => Selection::All,
            Selection::FromTo(range) => Selection::FromTo(
                Range { start: range.start, end: range.end },
            ),
        }
    }
}

#[derive(Debug, Hash, PartialEq, Eq)]
pub struct TextInputState {
    pub text: String,
    pub selection: Option<Selection>,
    pub cursor_pos: usize,
}

impl Clone for TextInputState {
    fn clone(&self) -> (copy: Self)
        ensures
            copy == *self,
    {
        TextInputState {
            text: self.text.clone(),
            selection: match &self.selection {
                Some(selection) => Some(selection.clone()),
                None => None,
            },
            cursor_pos: self.cursor_pos,
        }
    }
}

/// The mathematical value of a `TextInputState`: its text as a sequence of
/// characters, its selection and its cursor position.
pub struct TextInputStateView {
    pub text: Seq<char>,
    pub selection: Option<Selection>,
    pub cursor_pos: usize,
}

impl View for TextInputState {
    type V = TextInputStateView;

    open spec fn view(&self) -> TextInputStateView {
        TextInputStateView {
            text: self.text@,
            selection: self.selection,
            cursor_pos: self.cursor_pos,
        }
    }
}

impl Default for TextInputState {
    fn default() -> (state: Self)
        ensures
            state@ == (TextInputStateView { text: Seq::empty(), selection: None, cursor_pos: 0 }),
    {
        TextInputState { text: String::new(), selection: None, cursor_pos: 0 }
    }
}

/// Length of `text` in bytes, as UTF-8.
pub open spec fn byte_len(text: Seq<char>) -> int {
    encode_utf8(text).len() as int
}

/// The first `n` characters of `text`, or all of it if it has fewer.
pub open spec fn first_chars(text: Seq<char>, n: int) -> Seq<char> {
    if n < text.len() {
        text.take(n)
    } else {
        text
    }
}

/// What is left of `text` without its first `n` characters.
pub open spec fn without_first_chars(text: Seq<char>, n: int) -> Seq<char> {
    if n < text.len() {
        text.skip(n)
    } else {
        Seq::empty()
    }
}

/// `x + 1`, or `usize::MAX` if that does not fit.
pub open spec fn saturating_succ(x: usize) -> usize {
    if x < usize::MAX {
        (x + 1) as usize
    } else {
        usize::MAX
    }
}

/// `x - 1`, or 0 if `x` is 0.
pub open spec fn saturating_pred(x: usize) -> usize {
    if x > 0 {
        (x - 1) as usize
    } else {
        0
    }
}

/// Whether the range `start..end` can be deleted from `text`. A range that
/// reaches the end of the text cuts the text at byte `start`, which must
/// not split a character; any other range must leave room to move the
/// cursor behind an inserted character.
pub open spec fn can_delete(text: Seq<char>, start: usize, end: usize, inserting: bool) -> bool {
    if end >= byte_len(text) {
        start >= byte_len(text) || is_char_boundary(encode_utf8(text), start as int)
    } else {
        inserting ==> start < usize::MAX
    }
}

/// The text and cursor position after the range `start..end` is deleted
/// and `new_text` is put in its place.
///
/// A range that reaches the end of the text, measured in bytes, cuts the
/// text at byte `start` and inserts nothing. Any other range keeps the
/// first `start` characters and those from the `end`-th on, with the new
/// character between them.
pub open spec fn after_delete_selection(
    text: Seq<char>,
    start: usize,
    end: usize,
    new_text: Option<char>,
) -> (Seq<char>, usize) {
    if end >= byte_len(text) {
        if start >= byte_len(text) {
            (text, start)
        } else {
            (decode_utf8(encode_utf8(text).take(start as int)), start)
        }
    } else {
        match new_text {
            Some(c) => (
                first_chars(text, start as int).push(c) + without_first_chars(text, end as int),
                (start + 1) as usize,
            ),
            None => (first_chars(text, start as int) + without_first_chars(text, end as int), start),
        }
    }
}

/// Whether the selection of `state`, if it is a range, can be deleted.
pub open spec fn selection_can_be_deleted(state: TextInputStateView, inserting: bool) -> bool {
    match state.selection {
        Some(Selection::FromTo(range)) => can_delete(state.text, range.start, range.end, inserting),
        _ => true,
    }
}

/// The state after the character `c` was typed.
///
/// Without a selection the character is appended; with everything
/// selected it replaces the text; with a range selected it replaces the
/// range, and the selection stays as it was.
pub open spec fn after_text_input(state: TextInputStateView, c: char) -> TextInputStateView {
    match state.selection {
        None => TextInputStateView {
            text: state.text.push(c),
            selection: None,
            cursor_pos: saturating_succ(state.cursor_pos),
        },
        Some(Selection::All) => TextInputStateView { text: seq![c], selection: None, cursor_pos: 1 },
        Some(Selection::FromTo(range)) => {
            let (text, cursor_pos) = after_delete_selection(
                state.text,
                range.start,
                range.end,
                Some(c),
            );
            TextInputStateView { text, selection: state.selection, cursor_pos }
        },
    }
}

/// The text after the backspace key was pressed without a selection: a
/// cursor at the end of the text, measured in bytes, removes the last
/// character; any other cursor removes the character at its position.
pub open spec fn after_backspace(text: Seq<char>, cursor_pos: usize) -> Seq<char> {
    if cursor_pos == byte_len(text) {
        if text.len() > 0 {
            text.drop_last()
        } else {
            text
        }
    } else {
        let next = if byte_len(text) < saturating_succ(cursor_pos) {
            byte_len(text)
        } else {
            saturating_succ(cursor_pos) as int
        };
        first_chars(text, cursor_pos as int) + without_first_chars(text, next)
    }
}

/// The state after the key `key` was pressed, `ctrl_down` telling whether
/// a control key was held.
pub open spec fn after_key_down(
    state: TextInputStateView,
    key: VirtualKeyCode,
    ctrl_down: bool,
) -> TextInputStateView {
    match key {
        VirtualKeyCode::Back => match state.selection {
            None => TextInputStateView {
                text: after_backspace(state.text, state.cursor_pos),
                selection: None,
                cursor_pos: saturating_pred(state.cursor_pos),
            },
            Some(Selection::All) => TextInputStateView {
                text: Seq::empty(),
                selection: None,
                cursor_pos: 0,
            },
            Some(Selection::FromTo(range)) => {
                let (text, cursor_pos) = after_delete_selection(
                    state.text,
                    range.start,
                    range.end,
                    None,
                );
                TextInputStateView { text, selection: state.selection, cursor_pos }
            },
        },
        VirtualKeyCode::Return => TextInputStateView {
            text: state.text.push('\n'),
            cursor_pos: saturating_succ(state.cursor_pos),
            ..state
        },
        VirtualKeyCode::Home => TextInputStateView { cursor_pos: 0, selection: None, ..state },
        VirtualKeyCode::End => TextInputStateView {
            cursor_pos: byte_len(state.text) as usize,
            selection: None,
            ..state
        },
        VirtualKeyCode::Escape => TextInputStateView { selection: None, ..state },
        VirtualKeyCode::Right => TextInputStateView {
            cursor_pos: if byte_len(state.text) < saturating_succ(state.cursor_pos) {
                byte_len(state.text) as usize
            } else {
                saturating_succ(state.cursor_pos)
            },
            ..state
        },
        VirtualKeyCode::Left => TextInputStateView {
            cursor_pos: saturating_pred(state.cursor_pos),
            ..state
        },
        VirtualKeyCode::A => if ctrl_down {
            TextInputStateView { selection: Some(Selection::All), ..state }
        } else {
            state
        },
        _ => state,
    }
}

/// The length of the string in bytes.
fn string_len(s: &String) -> (len: usize)
    ensures
        len == byte_len(s@),
{
    s.as_str().as_bytes().len()
}

/// `String::pop`: removes the last character and returns it, or returns
/// `None` and leaves the string as it is if it is empty.
#[verifier::external_body]
fn string_pop(s: &mut String) -> (last: Option<char>)
    ensures
        old(s)@.len() > 0 ==> last == Some(old(s)@.last()) && final(s)@ == old(s)@.drop_last(),
        old(s)@.len() == 0 ==> last is None && final(s)@ == old(s)@,
{
    s.pop()
}

/// `String::truncate`: cuts the string to `new_len` bytes, and does nothing
/// if it is not longer than that. It panics if the cut would split a
/// character, which `requires` rules out.
#[verifier::external_body]
fn string_truncate(s: &mut String, new_len: usize)
    requires
        new_len >= byte_len(old(s)@) || is_char_boundary(encode_utf8(old(s)@), new_len as int),
    ensures
        new_len >= byte_len(old(s)@) ==> final(s)@ == old(s)@,
        new_len < byte_len(old(s)@) ==> final(s)@ == decode_utf8(
            encode_utf8(old(s)@).take(new_len as int),
        ),
{
    s.truncate(new_len)
}

/// The first `n` characters of `text` followed by what comes from its
/// `m`-th character on.
fn take_then_skip(text: &String, n: usize, insert: Option<char>, m: usize) -> (joined: String)
    ensures
        joined@ == match insert {
            Some(c) => first_chars(text@, n as int).push(c) + without_first_chars(text@, m as int),
            None => first_chars(text@, n as int) + without_first_chars(text@, m as int),
        },
{
    let text = text.as_str();
    let len = text.unicode_len();
    let head = if n < len {
        n
    } else {
        len
    };
    let tail = if m < len {
        m
    } else {
        len
    };
    let mut joined = String::from_str(text.substring_char(0, head));
    proof {
        assert(text@.subrange(0, head as int) =~= first_chars(text@, n as int));
        assert(text@.subrange(tail as int, len as int) =~= without_first_chars(text@, m as int));
    }
    if let Some(c) = insert {
        string_push(&mut joined, c);
    }
    joined.append(text.substring_char(tail, len));
    joined
}

impl TextInputState {
    /// A state with the given text, no selection and the cursor at the
    /// start.
    #[inline]
    pub fn new(input: &str) -> (state: Self)
        ensures
            state@ == (TextInputStateView { text: input@, selection: None, cursor_pos: 0 }),
    {
        Self { text: String::from_str(input), selection: None, cursor_pos: 0 }
    }

    /// The same state with the cursor at `cursor_pos`.
    #[inline]
    pub fn with_cursor_pos(self, cursor_pos: usize) -> (state: Self)
        ensures
            state.text == self.text,
            state.selection == self.selection,
            state.cursor_pos == cursor_pos,
    {
        Self { cursor_pos, ..self }
    }

    /// The same state with the given selection.
    #[inline]
    pub fn with_selection(self, selection: Option<Selection>) -> (state: Self)
        ensures
            state.text == self.text,
            state.selection == selection,
            state.cursor_pos == self.cursor_pos,
    {
        Self { selection, ..self }
    }

    /// Whether the range `start..end` can be deleted from the text, a
    /// character being inserted in its place or not.
    pub fn can_delete_range(&self, start: usize, end: usize, inserting: bool) -> (ok: bool)
        ensures
            ok == can_delete(self.text@, start, end, inserting),
    {
        let len = string_len(&self.text);
        if end >= len {
            start >= len || self.text.as_str().is_char_boundary(start)
        } else {
            !inserting || start < usize::MAX
        }
    }

    /// Whether the selection, if it is a range, can be deleted, a
    /// character being inserted in its place or not.
    pub fn can_delete_selection(&self, inserting: bool) -> (ok: bool)
        ensures
            ok == selection_can_be_deleted(self@, inserting),
    {
        match &self.selection {
            Some(Selection::FromTo(range)) => self.can_delete_range(
                range.start,
                range.end,
                inserting,
            ),
            _ => true,
        }
    }

    /// Reacts to a typed character. Without a character in the event,
    /// nothing changes and nothing has to be redrawn.
    pub fn handle_on_text_input(&mut self, keyboard_state: &KeyboardState) -> (update: CallbackReturn)
        requires
            keyboard_state.current_char is Some ==> selection_can_be_deleted(old(self)@, true),
        ensures
            match keyboard_state.current_char {
                Some(c) => update == UpdateScreen::Redraw && final(self)@ == after_text_input(
                    old(self)@,
                    c,
                ),
                None => update == UpdateScreen::DontRedraw && *final(self) == *old(self),
            },
    {
        let c = match keyboard_state.current_char {
            Some(c) => c,
            None => {
                return UpdateScreen::DontRedraw;
            },
        };

        let selection = self.selection.clone();
        match selection {
            None => {
                string_push(&mut self.text, c);
                self.cursor_pos = self.cursor_pos.saturating_add(1);
            },
            Some(Selection::All) => {
                let mut text = String::new();
                string_push(&mut text, c);
                assert(text@ =~= seq![c]);
                self.text = text;
                self.cursor_pos = 1;
                self.selection = None;
            },
            Some(Selection::FromTo(range)) => {
                self.delete_selection(range, Some(c));
            },
        }

        UpdateScreen::Redraw
    }

    /// Reacts to a pressed key. Without a key in the event, nothing
    /// changes and nothing has to be redrawn.
    pub fn handle_on_virtual_key_down(&mut self, keyboard_state: &KeyboardState) -> (update:
        CallbackReturn)
        requires
            keyboard_state.current_virtual_keycode == Some(VirtualKeyCode::Back)
                ==> selection_can_be_deleted(old(self)@, false),
        ensures
            match keyboard_state.current_virtual_keycode {
                Some(key) => update == UpdateScreen::Redraw && final(self)@ == after_key_down(
                    old(self)@,
                    key,
                    keyboard_state.ctrl_down,
                ),
                None => update == UpdateScreen::DontRedraw && *final(self) == *old(self),
            },
    {
        let last_keycode = match keyboard_state.current_virtual_keycode {
            Some(key) => key,
            None => {
                return UpdateScreen::DontRedraw;
            },
        };

        match last_keycode {
            VirtualKeyCode::Back => {
                let selection = self.selection.clone();
                match selection {
                    None => {
                        let len = string_len(&self.text);
                        if self.cursor_pos == len {
                            string_pop(&mut self.text);
                        } else {
                            let next = self.cursor_pos.saturating_add(1);
                            let new = if len < next {
                                len
                            } else {
                                next
                            };
                            let a = take_then_skip(&self.text, self.cursor_pos, None, new);
                            self.text = a;
                        }
                        self.cursor_pos = self.cursor_pos.saturating_sub(1);
                    },
                    Some(Selection::All) => {
                        self.text = String::new();
                        self.cursor_pos = 0;
                        self.selection = None;
                    },
                    Some(Selection::FromTo(range)) => {
                        self.delete_selection(range, None);
                    },
                }
            },
            VirtualKeyCode::Return => {
                string_push(&mut self.text, '\n');
                self.cursor_pos = self.cursor_pos.saturating_add(1);
            },
            VirtualKeyCode::Home => {
                self.cursor_pos = 0;
                self.selection = None;
            },
            VirtualKeyCode::End => {
                self.cursor_pos = string_len(&self.text);
                self.selection = None;
            },
            VirtualKeyCode::Escape => {
                self.selection = None;
            },
            VirtualKeyCode::Right => {
                let len = string_len(&self.text);
                let next = self.cursor_pos.saturating_add(1);
                self.cursor_pos = if len < next {
                    len
                } else {
                    next
                };
            },
            VirtualKeyCode::Left => {
                self.cursor_pos = self.cursor_pos.saturating_sub(1);
            },
            VirtualKeyCode::A => {
                if keyboard_state.ctrl_down {
                    self.selection = Some(Selection::All);
                }
            },
            _ => {},
        }

        UpdateScreen::Redraw
    }

    /// Deletes the selected range and puts `new_text` in its place, moving
    /// the cursor behind what was inserted. The selection itself is kept.
    pub fn delete_selection(&mut self, selection: Range<usize>, new_text: Option<char>)
        requires
            can_delete(old(self).text@, selection.start, selection.end, new_text is Some),
        ensures
            final(self).selection == old(self).selection,
            (final(self).text@, final(self).cursor_pos) == after_delete_selection(
                old(self).text@,
                selection.start,
                selection.end,
                new_text,
            ),
    {
        let Range { start, end } = selection;
        let len = string_len(&self.text);
        let max = if end > len {
            len
        } else {
            end
        };

        let mut cur = start;
        if max == len {
            string_truncate(&mut self.text, start);
        } else {
            let a = take_then_skip(&self.text, start, new_text, end);
            if new_text.is_some() {
                cur = cur + 1;
            }
            self.text = a;
        }

        self.cursor_pos = cur;
    }
}

} // verus!
