use vstd::prelude::*;

use crate::app::TypingMode;
use crate::event::KeyEvent;
use crate::line_buffer::{EditState, LineBuffer};

verus! {

/// One input field of a form: a stable name that maps it to a stored value, a
/// label to show beside it, and the text being edited.
pub struct DialogField {
    pub name: String,
    pub label: String,
    pub buffer: LineBuffer,
}

impl DialogField {
    /// The state of the field's text.
    pub open spec fn edit_state(&self) -> EditState {
        self.buffer@
    }

    pub open spec fn wf(&self) -> bool {
        self.edit_state().wf()
    }

    /// An empty field with the given name and label.
    pub fn new(name: &str, label: &str) -> (r: DialogField)
        ensures
            r.name@ == name@,
            r.label@ == label@,
            r.edit_state() == (EditState { text: Seq::empty(), cursor: 0, updated: false }),
            r.wf(),
    {
        DialogField { name: name.to_owned(), label: label.to_owned(), buffer: LineBuffer::new() }
    }

    /// Clears the value and puts the cursor at the start.
    pub fn reset(&mut self)
        ensures
            final(self).name == old(self).name,
            final(self).label == old(self).label,
            final(self).edit_state() == old(self).edit_state().clear(),
            final(self).wf(),
    {
        self.buffer.reset_cursor();
        self.buffer.clear();
    }

    /// Applies one key to the field's text under the given typing mode.
    pub fn handle_key_events(&mut self, event: KeyEvent, type_mode: TypingMode)
        requires
            old(self).wf(),
        ensures
            final(self).name == old(self).name,
            final(self).label == old(self).label,
            final(self).edit_state() == old(self).edit_state().after_key(event.code, type_mode),
            final(self).wf(),
    {
        self.buffer.handle_key_events(event, type_mode);
    }

    /// Preloads the field with a value; the cursor goes to its end.
    pub fn set_value(&mut self, value: &str)
        ensures
            final(self).name == old(self).name,
            final(self).label == old(self).label,
            final(self).edit_state() == (EditState {
                text: value@,
                cursor: value@.len(),
                updated: old(self).edit_state().updated,
            }),
            final(self).wf(),
    {
        self.buffer.set_value(value);
    }

    /// The field's value.
    pub fn get_value(&self) -> (r: String)
        ensures
            r@ == self.edit_state().text,
    {
        self.buffer.get_value()
    }

    /// The field's value; its textual form.
    pub fn to_string(&self) -> (r: String)
        ensures
            r@ == self.edit_state().text,
    {
        self.buffer.get_value()
    }

    /// The cursor offset, as a terminal column count (kept modulo 2^16).
    pub fn get_cursor_pos(&self) -> (r: u16)
        ensures
            r == #[verifier::truncate] (self.edit_state().cursor as u16),
    {
        #[verifier::truncate] (self.buffer.get_cursor_position() as u16)
    }
}

} // verus!
