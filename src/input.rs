//! A one-line text editor with a cursor, used to ask for the path of the
//! configuration file.

use vstd::prelude::*;
use vstd::string::*;
use crate::event::{KeyCode, Modifiers};
use crate::text::push_char;
use crate::width::{char_display_width, char_width};

verus! {

/// What an editor holds: its text, the cursor as a count of characters before
/// it, and the last submitted text.
pub struct InputView {
    pub text: Seq<char>,
    pub cursor: nat,
    pub path: Seq<char>,
}

/// `pos`, held to at most `len`.
pub open spec fn clamped(pos: int, len: nat) -> nat {
    if pos < 0 {
        0
    } else if pos > len {
        len
    } else {
        pos as nat
    }
}

/// The columns that `chars` take, a control character counting as none.
pub open spec fn width_sum(chars: Seq<char>) -> nat
    decreases chars.len(),
{
    if chars.len() == 0 {
        0
    } else {
        width_sum(chars.drop_last()) + match char_width(chars.last()) {
            Some(w) => w as nat,
            None => 0,
        }
    }
}

impl InputView {
    /// The cursor sits on the text.
    pub open spec fn wf(self) -> bool {
        self.cursor <= self.text.len() <= usize::MAX
    }

    /// `c` typed at the cursor, which moves past it.
    pub open spec fn inserted(self, c: char) -> InputView {
        InputView {
            text: self.text.subrange(0, self.cursor as int).push(c) + self.text.subrange(
                self.cursor as int,
                self.text.len() as int,
            ),
            cursor: self.cursor + 1,
            path: self.path,
        }
    }

    /// The character before the cursor removed, unless the cursor is at the start.
    pub open spec fn deleted(self) -> InputView {
        if self.cursor == 0 {
            self
        } else {
            InputView {
                text: self.text.subrange(0, self.cursor - 1) + self.text.subrange(
                    self.cursor as int,
                    self.text.len() as int,
                ),
                cursor: (self.cursor - 1) as nat,
                path: self.path,
            }
        }
    }

    /// The cursor moved to `pos`, held to the text.
    pub open spec fn moved(self, pos: int) -> InputView {
        InputView { cursor: clamped(pos, self.text.len()), ..self }
    }

    /// The text submitted: it becomes the path, and the editor is emptied.
    pub open spec fn submitted(self) -> InputView {
        InputView { text: Seq::empty(), cursor: 0, path: self.text }
    }

    /// What a key does, and whether editing ends with it.
    pub open spec fn on_key(self, code: KeyCode, modifiers: Modifiers) -> (InputView, bool) {
        match (code, modifiers) {
            (KeyCode::Char('b'), Modifiers::Control) => (self.moved(self.cursor - 1), false),
            (KeyCode::Char('f'), Modifiers::Control) => (self.moved(self.cursor + 1int), false),
            (KeyCode::Char('a'), Modifiers::Control) => (self.moved(0), false),
            (KeyCode::Char('e'), Modifiers::Control) => (self.moved(usize::MAX as int), false),
            (KeyCode::Enter, Modifiers::Plain) => (self.submitted(), true),
            (KeyCode::Backspace, Modifiers::Plain) => (self.deleted(), false),
            (KeyCode::Esc, Modifiers::Plain) => (self, true),
            (KeyCode::Char(c), _) => (self.inserted(c), false),
            _ => (self, false),
        }
    }
}

/// The state of the path editor.
pub struct Input {
    /// Current value of the input box.
    input: String,
    /// Position of the cursor, in characters.
    char_idx: usize,
    /// The submitted input.
    pub path: String,
}

impl View for Input {
    type V = InputView;

    closed spec fn view(&self) -> InputView {
        InputView { text: self.input@, cursor: self.char_idx as nat, path: self.path@ }
    }
}

impl Input {
    /// An empty editor.
    pub fn new() -> (r: Self)
        ensures
            r@.wf(),
            r@.text.len() == 0,
            r@.cursor == 0,
            r@.path.len() == 0,
    {
        Self { input: String::new(), char_idx: 0, path: String::new() }
    }

    /// The text being edited.
    pub fn text(&self) -> (r: &str)
        ensures
            r@ == self@.text,
    {
        self.input.as_str()
    }

    /// The cursor, as the number of characters before it.
    pub fn cursor(&self) -> (r: usize)
        ensures
            r == self@.cursor,
    {
        self.char_idx
    }

    /// The submitted text.
    pub fn path(&self) -> (r: &str)
        ensures
            r@ == self@.path,
    {
        self.path.as_str()
    }

    /// Moves the cursor one character left, if it is not at the start.
    pub fn move_cursor_left(&mut self)
        ensures
            final(self)@ == old(self)@.moved(old(self)@.cursor - 1),
    {
        let cursor_moved_left = self.char_idx.saturating_sub(1);
        self.char_idx = self.clamp_cursor(cursor_moved_left);
    }

    /// Moves the cursor one character right, if it is not at the end.
    pub fn move_cursor_right(&mut self)
        requires
            old(self)@.wf(),
        ensures
            final(self)@ == old(self)@.moved(old(self)@.cursor + 1int),
            final(self)@.wf(),
    {
        let cursor_moved_right = self.char_idx.saturating_add(1);
        self.char_idx = self.clamp_cursor(cursor_moved_right);
    }

    /// Moves the cursor to the start.
    pub fn move_cursor_begin(&mut self)
        requires
            old(self)@.wf(),
        ensures
            final(self)@ == old(self)@.moved(0),
            final(self)@.wf(),
    {
        self.char_idx = self.clamp_cursor(0);
    }

    /// Moves the cursor to the end.
    pub fn move_cursor_end(&mut self)
        requires
            old(self)@.wf(),
        ensures
            final(self)@ == old(self)@.moved(usize::MAX as int),
            final(self)@.wf(),
    {
        self.char_idx = self.clamp_cursor(usize::MAX);
    }

    /// Types `new_char` at the cursor, which moves past it.
    pub fn enter_char(&mut self, new_char: char)
        requires
            old(self)@.wf(),
            old(self)@.text.len() < usize::MAX,
        ensures
            final(self)@ == old(self)@.inserted(new_char),
            final(self)@.wf(),
    {
        let len = self.input.as_str().unicode_len();
        let mut text = String::from_str(self.input.as_str().substring_char(0, self.char_idx));
        push_char(&mut text, new_char);
        text.append(self.input.as_str().substring_char(self.char_idx, len));
        self.input = text;
        self.char_idx = self.char_idx + 1;
    }

    /// The index of the byte where the cursor's character starts in the
    /// text's UTF-8 encoding (its length, with the cursor at the end).
    pub fn byte_index(&self) -> (r: usize)
        requires
            self@.wf(),
        ensures
            r == vstd::utf8::encode_utf8(self@.text.subrange(0, self@.cursor as int)).len() as usize,
    {
        self.input.as_str().substring_char(0, self.char_idx).len()
    }

    /// Deletes the character before the cursor, if the cursor is not at the start.
    pub fn delete_char(&mut self)
        requires
            old(self)@.wf(),
        ensures
            final(self)@ == old(self)@.deleted(),
            final(self)@.wf(),
    {
        let is_not_cursor_leftmost = self.char_idx != 0;
        if is_not_cursor_leftmost {
            let len = self.input.as_str().unicode_len();
            let current_index = self.char_idx;
            let from_left_to_current_index = current_index - 1;
            let mut text = String::from_str(
                self.input.as_str().substring_char(0, from_left_to_current_index),
            );
            text.append(self.input.as_str().substring_char(current_index, len));
            self.input = text;
            self.move_cursor_left();
        }
    }

    /// `new_cursor_pos`, held to the text.
    pub fn clamp_cursor(&self, new_cursor_pos: usize) -> (r: usize)
        ensures
            r == clamped(new_cursor_pos as int, self@.text.len()),
    {
        let count = self.input.as_str().unicode_len();
        if new_cursor_pos > count {
            count
        } else {
            new_cursor_pos
        }
    }

    /// Moves the cursor to the start.
    pub fn reset_cursor(&mut self)
        ensures
            final(self)@ == (InputView { cursor: 0, ..old(self)@ }),
    {
        self.char_idx = 0;
    }

    /// Makes the text the submitted path and empties the editor.
    pub fn submit(&mut self)
        ensures
            final(self)@ == old(self)@.submitted(),
            final(self)@.wf(),
    {
        self.path = self.input.clone();
        self.input = String::new();
        self.reset_cursor();
    }

    /// Carries out a key press with its modifiers; `true` when editing ends,
    /// by submitting (Enter) or by giving up (Esc).
    pub fn handle_key(&mut self, code: KeyCode, modifiers: Modifiers) -> (done: bool)
        requires
            old(self)@.wf(),
            old(self)@.text.len() < usize::MAX,
        ensures
            (final(self)@, done) == old(self)@.on_key(code, modifiers),
            final(self)@.wf(),
    {
        match (code, modifiers) {
            (KeyCode::Char('b'), Modifiers::Control) => self.move_cursor_left(),
            (KeyCode::Char('f'), Modifiers::Control) => self.move_cursor_right(),
            (KeyCode::Char('a'), Modifiers::Control) => self.move_cursor_begin(),
            (KeyCode::Char('e'), Modifiers::Control) => self.move_cursor_end(),
            (KeyCode::Enter, Modifiers::Plain) => {
                self.submit();
                return true;
            },
            (KeyCode::Backspace, Modifiers::Plain) => self.delete_char(),
            (KeyCode::Esc, Modifiers::Plain) => return true,
            (KeyCode::Char(to_insert), _) => self.enter_char(to_insert),
            _ => {},
        }
        false
    }

    /// The screen column of the cursor within the text: the columns of the
    /// characters before it, a control character counting as none, held to
    /// `usize::MAX`.
    pub fn cursor_column(&self) -> (r: usize)
        requires
            self@.wf(),
        ensures
            r == if width_sum(self@.text.subrange(0, self@.cursor as int)) > usize::MAX {
                usize::MAX as nat
            } else {
                width_sum(self@.text.subrange(0, self@.cursor as int))
            },
    {
        let mut column: usize = 0;
        let mut i: usize = 0;
        while i < self.char_idx
            invariant
                i <= self.char_idx <= self.input@.len(),
                column == if width_sum(self.input@.subrange(0, i as int)) > usize::MAX {
                    usize::MAX as nat
                } else {
                    width_sum(self.input@.subrange(0, i as int))
                },
            decreases self.char_idx - i,
        {
            let c = self.input.as_str().get_char(i);
            let w = match char_display_width(c) {
                Some(w) => w,
                None => 0,
            };
            assert(self.input@.subrange(0, i + 1).drop_last() =~= self.input@.subrange(0, i as int));
            column = column.saturating_add(w);
            i = i + 1;
        }
        column
    }
}

} // verus!
