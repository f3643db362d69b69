use vstd::prelude::*;

use crate::app::TypingMode;
use crate::event::{KeyCode, KeyEvent};
use crate::text::{chars_of, string_of};

verus! {

/// The abstract state of a [`LineBuffer`]: its characters, the cursor as a
/// character offset, and whether the text was edited since the flag was last
/// cleared.
pub struct EditState {
    pub text: Seq<char>,
    pub cursor: nat,
    pub updated: bool,
}

impl EditState {
    /// The cursor never points past the end of the text.
    pub open spec fn wf(self) -> bool {
        self.cursor <= self.text.len()
    }

    pub open spec fn insert_char(self, c: char) -> EditState {
        EditState { text: self.text.insert(self.cursor as int, c), ..self }.mark_updated()
    }

    /// Overwrites the character under the cursor, or appends when the cursor
    /// stands at the end of the text.
    pub open spec fn replace_char(self, c: char) -> EditState {
        if self.cursor < self.text.len() {
            EditState { text: self.text.update(self.cursor as int, c), ..self }.mark_updated()
        } else {
            EditState { text: self.text.push(c), ..self }.mark_updated()
        }
    }

    pub open spec fn mark_updated(self) -> EditState {
        EditState { updated: true, ..self }
    }

    pub open spec fn move_left(self) -> EditState {
        EditState { cursor: if self.cursor > 0 { (self.cursor - 1) as nat } else { 0 }, ..self }
    }

    pub open spec fn move_right(self) -> EditState {
        EditState {
            cursor: if self.cursor < self.text.len() { self.cursor + 1 } else { self.text.len() },
            ..self
        }
    }

    pub open spec fn move_to_start(self) -> EditState {
        EditState { cursor: 0, ..self }
    }

    pub open spec fn move_to_end(self) -> EditState {
        EditState { cursor: self.text.len(), ..self }
    }

    /// Types one character under the given typing mode and steps past it.
    pub open spec fn enter_char(self, c: char, mode: TypingMode) -> EditState {
        match mode {
            TypingMode::Insert => self.insert_char(c).move_right(),
            TypingMode::Overwrite => self.replace_char(c).move_right(),
        }
    }

    /// Removes the character before the cursor; nothing at the start.
    pub open spec fn backspace(self) -> EditState {
        if self.cursor == 0 {
            self
        } else {
            EditState {
                text: self.text.remove(self.cursor - 1),
                cursor: (self.cursor - 1) as nat,
                updated: true,
            }
        }
    }

    /// Removes the character under the cursor; nothing at the end.
    pub open spec fn delete(self) -> EditState {
        if self.cursor >= self.text.len() {
            self
        } else {
            EditState { text: self.text.remove(self.cursor as int), ..self }.mark_updated()
        }
    }

    /// Empties the text and puts the cursor at the start; the text counts as
    /// edited when it held anything.
    pub open spec fn clear(self) -> EditState {
        EditState {
            text: Seq::empty(),
            cursor: 0,
            updated: self.updated || self.text.len() > 0,
        }
    }

    /// What one key does to the buffer.
    pub open spec fn after_key(self, code: KeyCode, mode: TypingMode) -> EditState {
        match code {
            KeyCode::Char(c) => self.enter_char(c, mode),
            KeyCode::Enter => self.clear(),
            KeyCode::Backspace => self.backspace(),
            KeyCode::Delete => self.delete(),
            KeyCode::Left => self.move_left(),
            KeyCode::Right => self.move_right(),
            KeyCode::Home => self.move_to_start(),
            KeyCode::End => self.move_to_end(),
            _ => self,
        }
    }

    /// What a sequence of keys does, each typed under its own typing mode.
    pub open spec fn after_keys(self, keys: Seq<(KeyCode, TypingMode)>) -> EditState
        decreases keys.len(),
    {
        if keys.len() == 0 {
            self
        } else {
            self.after_key(keys[0].0, keys[0].1).after_keys(keys.drop_first())
        }
    }
}

/// Every key keeps the cursor within the text.
pub proof fn lemma_after_key_wf(s: EditState, code: KeyCode, mode: TypingMode)
    requires
        s.wf(),
    ensures
        s.after_key(code, mode).wf(),
{
}

/// For every sequence of editing and cursor keys, `0 <= cursor <= length` holds
/// after each of them.
pub proof fn lemma_cursor_bounds(s: EditState, keys: Seq<(KeyCode, TypingMode)>)
    requires
        s.wf(),
    ensures
        forall|i: int| 0 <= i <= keys.len() ==> (#[trigger] s.after_keys(keys.take(i))).wf(),
    decreases keys.len(),
{
    if keys.len() > 0 {
        let t = s.after_key(keys[0].0, keys[0].1);
        lemma_after_key_wf(s, keys[0].0, keys[0].1);
        lemma_cursor_bounds(t, keys.drop_first());
        assert forall|i: int| 0 <= i <= keys.len() implies (#[trigger] s.after_keys(
            keys.take(i),
        )).wf() by {
            if i > 0 {
                assert(keys.take(i).drop_first() =~= keys.drop_first().take(i - 1));
                assert(keys.take(i)[0] == keys[0]);
                assert(t.after_keys(keys.drop_first().take(i - 1)).wf());
            } else {
                assert(keys.take(i) =~= Seq::<(KeyCode, TypingMode)>::empty());
            }
        }
    } else {
        assert forall|i: int| 0 <= i <= keys.len() implies (#[trigger] s.after_keys(
            keys.take(i),
        )).wf() by {
            assert(keys.take(i) =~= Seq::<(KeyCode, TypingMode)>::empty());
        }
    }
}

/// Typing a character in insert mode always grows the text by one; in
/// overwrite mode it leaves the length unchanged before the end of the text
/// and grows it by one at the end.
pub proof fn lemma_enter_char_length(s: EditState, c: char)
    requires
        s.wf(),
    ensures
        s.enter_char(c, TypingMode::Insert).text.len() == s.text.len() + 1,
        s.cursor < s.text.len() ==> s.enter_char(c, TypingMode::Overwrite).text.len()
            == s.text.len(),
        s.cursor == s.text.len() ==> s.enter_char(c, TypingMode::Overwrite).text.len()
            == s.text.len() + 1,
{
}

/// Backspace at the start and delete at the end change nothing: neither the
/// text, nor the cursor, nor the edited flag.
pub proof fn lemma_boundary_no_ops(s: EditState)
    requires
        s.wf(),
    ensures
        s.cursor == 0 ==> s.backspace() == s,
        s.cursor == s.text.len() ==> s.delete() == s,
{
}

/// A single line of editable text with a cursor measured in characters.
pub struct LineBuffer {
    buffer: Vec<char>,
    cursor_position: usize,
    /// Set whenever an edit changes the text; cleared by whoever reacts to it.
    pub updated: bool,
}

impl View for LineBuffer {
    type V = EditState;

    closed spec fn view(&self) -> EditState {
        EditState {
            text: self.buffer@,
            cursor: self.cursor_position as nat,
            updated: self.updated,
        }
    }
}

impl LineBuffer {
    /// An empty buffer with the cursor at the start.
    pub fn new() -> (r: LineBuffer)
        ensures
            r@ == (EditState { text: Seq::empty(), cursor: 0, updated: false }),
    {
        let r = LineBuffer { buffer: Vec::new(), cursor_position: 0, updated: false };
        assert(r@.text =~= Seq::<char>::empty());
        r
    }

    /// The text as a string.
    pub fn get_value(&self) -> (r: String)
        ensures
            r@ == self@.text,
    {
        string_of(&self.buffer)
    }

    /// The text as a string; the buffer's textual form.
    pub fn to_string(&self) -> (r: String)
        ensures
            r@ == self@.text,
    {
        self.get_value()
    }

    /// Replaces the whole text, without the per-character editing rules: the
    /// cursor goes to the end and the edited flag is left as it was.
    pub fn set_value(&mut self, value: &str)
        ensures
            final(self)@ == (EditState {
                text: value@,
                cursor: value@.len(),
                updated: old(self)@.updated,
            }),
    {
        self.buffer = chars_of(value);
        self.cursor_position = self.buffer.len();
    }

    /// Empties the text and puts the cursor at the start.
    pub fn clear(&mut self)
        ensures
            final(self)@ == old(self)@.clear(),
    {
        if self.buffer.len() > 0 {
            self.updated = true;
        }
        self.buffer.clear();
        self.cursor_position = 0;
    }

    /// Applies one key under the given typing mode. Characters are typed,
    /// Enter clears the text, and the editing and cursor keys do what their
    /// names say; every other key is ignored.
    pub fn handle_key_events(&mut self, event: KeyEvent, type_mode: TypingMode)
        requires
            old(self)@.wf(),
        ensures
            final(self)@ == old(self)@.after_key(event.code, type_mode),
            final(self)@.wf(),
    {
        match event.code {
            KeyCode::Char(c) => {
                self.enter_char(c, type_mode);
            },
            KeyCode::Enter => {
                self.clear();
            },
            KeyCode::Backspace => {
                self.backspace_char();
            },
            KeyCode::Delete => {
                self.delete_char();
            },
            KeyCode::Left => {
                self.move_cursor_left();
            },
            KeyCode::Right => {
                self.move_cursor_right();
            },
            KeyCode::Home => {
                self.reset_cursor();
            },
            KeyCode::End => {
                self.move_cursor_to_end();
            },
            _ => {},
        }
    }

    /// Reports whether the text was edited since the last call, and clears the
    /// flag.
    pub fn take_updated(&mut self) -> (r: bool)
        ensures
            r == old(self)@.updated,
            final(self)@ == (EditState { updated: false, ..old(self)@ }),
    {
        let r = self.updated;
        self.updated = false;
        r
    }

    /// The cursor, as a character offset into the text.
    pub fn get_cursor_position(&self) -> (r: usize)
        ensures
            r == self@.cursor,
    {
        self.cursor_position
    }

    /// Moves the cursor one character to the left, stopping at the start.
    pub fn move_cursor_left(&mut self)
        requires
            old(self)@.wf(),
        ensures
            final(self)@ == old(self)@.move_left(),
    {
        let cursor_moved_left = self.cursor_position.saturating_sub(1);
        self.cursor_position = self.clamp_cursor(cursor_moved_left);
    }

    /// Moves the cursor one character to the right, stopping at the end.
    pub fn move_cursor_right(&mut self)
        requires
            old(self)@.wf(),
        ensures
            final(self)@ == old(self)@.move_right(),
    {
        let cursor_moved_right = self.cursor_position.saturating_add(1);
        self.cursor_position = self.clamp_cursor(cursor_moved_right);
    }

    /// Types a character at the cursor under the given typing mode, then steps
    /// the cursor past it.
    pub fn enter_char(&mut self, new_char: char, type_mode: TypingMode)
        requires
            old(self)@.wf(),
        ensures
            final(self)@ == old(self)@.enter_char(new_char, type_mode),
    {
        match type_mode {
            TypingMode::Insert => self.insert_char(new_char),
            TypingMode::Overwrite => self.replace_char(new_char),
        }
        self.move_cursor_right();
    }

    /// Inserts a character at the cursor; the cursor stays where it was.
    pub fn insert_char(&mut self, new_char: char)
        requires
            old(self)@.wf(),
        ensures
            final(self)@ == old(self)@.insert_char(new_char),
            final(self)@.text.len() == old(self)@.text.len() + 1,
            final(self)@.wf(),
    {
        self.buffer.insert(self.cursor_position, new_char);
        self.updated = true;
    }

    /// Overwrites the character under the cursor, or appends at the end of the
    /// text; the cursor stays where it was.
    pub fn replace_char(&mut self, new_char: char)
        requires
            old(self)@.wf(),
        ensures
            final(self)@ == old(self)@.replace_char(new_char),
            old(self)@.cursor < old(self)@.text.len() ==> final(self)@.text.len()
                == old(self)@.text.len(),
            old(self)@.cursor == old(self)@.text.len() ==> final(self)@.text.len()
                == old(self)@.text.len() + 1,
            final(self)@.wf(),
    {
        let is_not_cursor_rightmost = self.cursor_position != self.buffer.len();
        if is_not_cursor_rightmost {
            self.buffer.set(self.cursor_position, new_char);
        } else {
            self.buffer.push(new_char);
        }
        self.updated = true;
    }

    /// Removes the character before the cursor and moves the cursor back; does
    /// nothing when the cursor is at the start.
    pub fn backspace_char(&mut self)
        requires
            old(self)@.wf(),
        ensures
            final(self)@ == old(self)@.backspace(),
            final(self)@.wf(),
    {
        let is_not_cursor_leftmost = self.cursor_position != 0;
        if is_not_cursor_leftmost {
            self.buffer.remove(self.cursor_position - 1);
            self.cursor_position = self.cursor_position - 1;
            self.updated = true;
        }
    }

    /// Removes the character under the cursor; does nothing when the cursor is
    /// at the end.
    pub fn delete_char(&mut self)
        requires
            old(self)@.wf(),
        ensures
            final(self)@ == old(self)@.delete(),
            final(self)@.wf(),
    {
        let is_not_cursor_rightmost = self.cursor_position < self.buffer.len();
        if is_not_cursor_rightmost {
            self.buffer.remove(self.cursor_position);
            self.updated = true;
        }
    }

    /// Puts the cursor at the start of the text.
    pub fn reset_cursor(&mut self)
        ensures
            final(self)@ == old(self)@.move_to_start(),
    {
        self.cursor_position = 0;
    }

    /// Puts the cursor at the end of the text.
    pub fn move_cursor_to_end(&mut self)
        ensures
            final(self)@ == old(self)@.move_to_end(),
    {
        self.cursor_position = self.buffer.len();
    }

    /// The given cursor position, brought within `[0, length]`.
    pub fn clamp_cursor(&self, new_cursor_pos: usize) -> (r: usize)
        ensures
            r == if new_cursor_pos <= self@.text.len() {
                new_cursor_pos as nat
            } else {
                self@.text.len()
            },
            self@.text.len() <= usize::MAX,
    {
        let len = self.buffer.len();
        if new_cursor_pos <= len {
            new_cursor_pos
        } else {
            len
        }
    }
}

} // verus!
