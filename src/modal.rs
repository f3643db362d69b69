use vstd::prelude::*;
use vstd::string::StrSliceExecFns;

use crate::app::TypingMode;
use crate::dialog_field::DialogField;
use crate::event::{KeyCode, KeyEvent};
use crate::line_buffer::EditState;

verus! {

/// What a key press means to the form as a whole.
#[derive(Clone, Copy, Debug, PartialEq, Eq, Structural)]
pub enum DialogResult {
    /// The form was submitted (Enter).
    Submit,
    /// The form was dismissed (Escape).
    Cancel,
    /// Nothing final happened yet.
    Continue,
}

/// The field that Tab moves to: the next one, wrapping past the last.
pub open spec fn next_focus(i: nat, n: nat) -> nat {
    if i + 1 >= n {
        0
    } else {
        i + 1
    }
}

/// The field that Shift+Tab moves to: the previous one, wrapping past the first.
pub open spec fn previous_focus(i: nat, n: nat) -> nat {
    if i == 0 {
        (n - 1) as nat
    } else {
        (i - 1) as nat
    }
}

/// The focus after `k` presses of Tab.
pub open spec fn focus_after_tabs(i: nat, n: nat, k: nat) -> nat
    decreases k,
{
    if k == 0 {
        i
    } else {
        next_focus(focus_after_tabs(i, n, (k - 1) as nat), n)
    }
}

/// The focus after `k` presses of Shift+Tab.
pub open spec fn focus_after_back_tabs(i: nat, n: nat, k: nat) -> nat
    decreases k,
{
    if k == 0 {
        i
    } else {
        previous_focus(focus_after_back_tabs(i, n, (k - 1) as nat), n)
    }
}

proof fn lemma_tabs_closed_form(i: nat, n: nat, k: nat)
    requires
        i < n,
        k <= n,
    ensures
        focus_after_tabs(i, n, k) == if i + k < n {
            i + k
        } else {
            (i + k - n) as nat
        },
        focus_after_back_tabs(i, n, k) == if k <= i {
            (i - k) as nat
        } else {
            (i + n - k) as nat
        },
    decreases k,
{
    if k > 0 {
        lemma_tabs_closed_form(i, n, (k - 1) as nat);
    }
}

/// In a form of `n` fields, pressing Tab `n` times, or Shift+Tab `n` times,
/// brings the focus back to the field it started on.
pub proof fn lemma_focus_wrap(start: nat, n: nat)
    requires
        start < n,
    ensures
        focus_after_tabs(start, n, n) == start,
        focus_after_back_tabs(start, n, n) == start,
{
    lemma_tabs_closed_form(start, n, n);
}

/// The width of a label, in characters.
pub open spec fn label_len(f: DialogField) -> nat {
    f.label@.len()
}

/// The widest label among the fields, 0 for none.
pub open spec fn max_label(fields: Seq<DialogField>) -> nat
    decreases fields.len(),
{
    if fields.len() == 0 {
        0
    } else {
        let rest = max_label(fields.drop_last());
        let last = label_len(fields.last());
        if last > rest {
            last
        } else {
            rest
        }
    }
}

/// Whether a key is handed on to the focused field rather than acted on by the
/// form.
pub open spec fn forwards_key(code: KeyCode) -> bool {
    !(code is Tab || code is BackTab || code is Enter || code is Esc)
}

/// What the form reports for a key.
pub open spec fn result_of(code: KeyCode) -> DialogResult {
    match code {
        KeyCode::Enter => DialogResult::Submit,
        KeyCode::Esc => DialogResult::Cancel,
        _ => DialogResult::Continue,
    }
}

/// An ordered set of fields, in tab order, with one of them focused.
pub struct Modal {
    pub focused_index: usize,
    pub fields: Vec<DialogField>,
}

impl Modal {
    /// At least one field, the focus on one of them, and every field's cursor
    /// within its text.
    pub open spec fn wf(&self) -> bool {
        &&& 0 < self.fields@.len()
        &&& self.focused_index < self.fields@.len()
        &&& forall|i: int| 0 <= i < self.fields@.len() ==> (#[trigger] self.fields@[i]).wf()
    }

    /// The fields' names and labels are those of `other`.
    pub open spec fn same_shape(&self, other: &Modal) -> bool {
        &&& self.fields@.len() == other.fields@.len()
        &&& forall|i: int|
            0 <= i < self.fields@.len() ==> (#[trigger] self.fields@[i]).name == other.fields@[i].name
                && self.fields@[i].label == other.fields@[i].label
    }

    /// What a key does to the form: the focus moves on Tab and Shift+Tab, the
    /// focused field takes every key but Tab, Shift+Tab, Enter and Escape, and
    /// the other fields stay as they are.
    pub open spec fn after_key(&self, code: KeyCode, mode: TypingMode, next: &Modal) -> bool {
        let n = self.fields@.len();
        let f = self.focused_index as int;
        &&& next.same_shape(self)
        &&& next.focused_index == match code {
            KeyCode::Tab => next_focus(self.focused_index as nat, n),
            KeyCode::BackTab => previous_focus(self.focused_index as nat, n),
            _ => self.focused_index as nat,
        }
        &&& forall|i: int| 0 <= i < n && i != f ==> next.fields@[i] == #[trigger] self.fields@[i]
        &&& if forwards_key(code) {
            next.fields@[f].edit_state() == self.fields@[f].edit_state().after_key(code, mode)
        } else {
            next.fields@[f] == self.fields@[f]
        }
    }

    /// The width of the widest label, in characters (kept modulo 2^16).
    pub fn get_max_label(&self) -> (r: u16)
        ensures
            r == #[verifier::truncate] (max_label(self.fields@) as u16),
    {
        let mut widest: usize = 0;
        let mut i: usize = 0;
        while i < self.fields.len()
            invariant
                i <= self.fields@.len(),
                widest == max_label(self.fields@.subrange(0, i as int)),
            decreases self.fields@.len() - i,
        {
            let width = self.fields[i].label.as_str().unicode_len();
            assert(self.fields@.subrange(0, i + 1).last() == self.fields@[i as int]);
            assert(self.fields@.subrange(0, i + 1).drop_last() =~= self.fields@.subrange(
                0,
                i as int,
            ));
            if width > widest {
                widest = width;
            }
            i = i + 1;
        }
        assert(self.fields@.subrange(0, i as int) =~= self.fields@);
        #[verifier::truncate] (widest as u16)
    }

    /// The contact form: first name, last name, phone number and company, in
    /// that order, all empty, the first one focused.
    pub fn add_contact() -> (r: Modal)
        ensures
            r.wf(),
            r.focused_index == 0,
            r.fields@.len() == 4,
            r.fields@[0].name@ == "first"@,
            r.fields@[0].label@ == "First Name"@,
            r.fields@[1].name@ == "last"@,
            r.fields@[1].label@ == "Last Name"@,
            r.fields@[2].name@ == "phone"@,
            r.fields@[2].label@ == "Phone Number"@,
            r.fields@[3].name@ == "company"@,
            r.fields@[3].label@ == "Company"@,
            forall|i: int|
                0 <= i < 4 ==> (#[trigger] r.fields@[i]).edit_state() == (EditState {
                    text: Seq::empty(),
                    cursor: 0,
                    updated: false,
                }),
    {
        let mut fields: Vec<DialogField> = Vec::new();
        fields.push(DialogField::new("first", "First Name"));
        fields.push(DialogField::new("last", "Last Name"));
        fields.push(DialogField::new("phone", "Phone Number"));
        fields.push(DialogField::new("company", "Company"));
        Modal { focused_index: 0, fields }
    }

    /// Handles one key: Tab and Shift+Tab move the focus, Enter submits,
    /// Escape cancels, and every other key goes to the focused field.
    pub fn handle_key_events(&mut self, event: KeyEvent, type_mode: TypingMode) -> (r: DialogResult)
        requires
            old(self).wf(),
        ensures
            r == result_of(event.code),
            old(self).after_key(event.code, type_mode, final(self)),
            event.code is Enter || event.code is Esc ==> *final(self) == *old(self),
            final(self).wf(),
    {
        match event.code {
            KeyCode::Tab => {
                self.focus_next();
                DialogResult::Continue
            },
            KeyCode::BackTab => {
                self.focus_previous();
                DialogResult::Continue
            },
            KeyCode::Enter => DialogResult::Submit,
            KeyCode::Esc => DialogResult::Cancel,
            _ => {
                let f = self.focused_index;
                self.fields[f].handle_key_events(event, type_mode);
                DialogResult::Continue
            },
        }
    }

    /// Moves the focus to the previous field, wrapping to the last.
    pub fn focus_previous(&mut self)
        requires
            old(self).wf(),
        ensures
            final(self).fields == old(self).fields,
            final(self).focused_index == previous_focus(
                old(self).focused_index as nat,
                old(self).fields@.len(),
            ),
            final(self).wf(),
    {
        if self.focused_index == 0 {
            self.focused_index = self.fields.len() - 1;
        } else {
            self.focused_index = self.focused_index - 1;
        }
    }

    /// Moves the focus to the next field, wrapping to the first.
    pub fn focus_next(&mut self)
        requires
            old(self).wf(),
        ensures
            final(self).fields == old(self).fields,
            final(self).focused_index == next_focus(
                old(self).focused_index as nat,
                old(self).fields@.len(),
            ),
            final(self).wf(),
    {
        if self.focused_index == self.fields.len() - 1 {
            self.focused_index = 0;
        } else {
            self.focused_index = self.focused_index + 1;
        }
    }

    /// Clears every field and focuses the first one.
    pub fn reset(&mut self)
        requires
            old(self).wf(),
        ensures
            final(self).wf(),
            final(self).same_shape(old(self)),
            final(self).focused_index == 0,
            forall|i: int|
                0 <= i < final(self).fields@.len() ==> (#[trigger] final(self).fields@[i]).edit_state()
                    == old(self).fields@[i].edit_state().clear(),
    {
        let mut i: usize = 0;
        while i < self.fields.len()
            invariant
                i <= self.fields@.len(),
                self.fields@.len() == old(self).fields@.len(),
                forall|j: int|
                    0 <= j < self.fields@.len() ==> (#[trigger] self.fields@[j]).name
                        == old(self).fields@[j].name && self.fields@[j].label
                        == old(self).fields@[j].label && self.fields@[j].wf(),
                forall|j: int|
                    0 <= j < i ==> (#[trigger] self.fields@[j]).edit_state()
                        == old(self).fields@[j].edit_state().clear(),
                forall|j: int|
                    i <= j < self.fields@.len() ==> #[trigger] self.fields@[j]
                        == old(self).fields@[j],
            decreases self.fields@.len() - i,
        {
            self.fields[i].reset();
            i = i + 1;
        }
        self.focused_index = 0;
    }
}

} // verus!
