use vstd::prelude::*;

use crate::contact::{without_blanks, Contact, ContactForUpdate};
use crate::error::AppResult;
use crate::event::{Event, KeyCode, KeyEvent, KeyModifiers};
use crate::line_buffer::{EditState, LineBuffer};
use crate::modal::{result_of, DialogResult, Modal};

verus! {

/// How typed characters enter a text buffer.
#[derive(Clone, Copy, Debug, PartialEq, Eq, Structural)]
pub enum TypingMode {
    /// Characters are inserted at the cursor.
    Insert,
    /// Characters overwrite the one under the cursor (and append at the end).
    Overwrite,
}

/// What the application is doing.
#[derive(Clone, Copy, Debug, PartialEq, Eq, Structural)]
pub enum AppMode {
    /// Typing into the filter; the initial mode.
    Filtering,
    /// Filling in the contact form for a new contact.
    AddingContact,
    /// Filling in the contact form; handled as adding.
    EditingContact,
    /// Waiting for `y` to delete the selected contact.
    DeletingContact,
}

/// Which part of the main window has the keyboard.
#[derive(Clone, Copy, Debug, PartialEq, Eq, Structural)]
pub enum AppFocus {
    Filter,
    Contacts,
}

/// The cursor shape that shows the typing mode.
#[derive(Clone, Copy, Debug, PartialEq, Eq, Structural)]
pub enum CursorStyle {
    /// Insert mode.
    BlinkingBlock,
    /// Overwrite mode.
    BlinkingUnderScore,
}

/// Settings read at start-up.
#[derive(Debug)]
pub struct Config {
    /// The program launched with a phone number to place a call.
    pub dialler_program: String,
}

/// The store operation or outside action that a key press asks for. The
/// caller performs it and reports back through [`App::contacts_loaded`] or
/// [`App::write_finished`].
#[derive(Debug)]
pub enum Command {
    /// Nothing to do outside.
    Nothing,
    /// Search the store for contacts matching the text, and hand the result
    /// to [`App::contacts_loaded`].
    Search(String),
    /// Insert the contact, and hand the result to [`App::insert_finished`].
    Insert(ContactForUpdate),
    /// Delete the contact with this id, and hand the result to
    /// [`App::write_finished`].
    Delete(u64),
    /// Place a call to this number with the configured dialler.
    Call(String),
}

/// How the application reads a key, in priority order.
#[derive(Clone, Copy, Debug, PartialEq, Eq, Structural)]
pub enum KeyAction {
    Quit,
    AddContact,
    CallSelected,
    ConfirmDelete,
    ToggleTypingMode,
    SelectNext,
    SelectPrevious,
    /// Handed to the current mode.
    Route,
}

/// The global key bindings: Escape quits while filtering; Control+Q, A, C and
/// D quit, add, call and delete from any mode; the Insert key switches the
/// typing mode; Down and Up move the selection. Everything else, other
/// Control chords included, goes to the current mode.
pub open spec fn key_action(mode: AppMode, event: KeyEvent) -> KeyAction {
    if event.code is Esc && mode is Filtering {
        KeyAction::Quit
    } else if event.modifiers.spec_is_control_only() && event.code == KeyCode::Char('q') {
        KeyAction::Quit
    } else if event.modifiers.spec_is_control_only() && event.code == KeyCode::Char('a') {
        KeyAction::AddContact
    } else if event.modifiers.spec_is_control_only() && event.code == KeyCode::Char('c') {
        KeyAction::CallSelected
    } else if event.modifiers.spec_is_control_only() && event.code == KeyCode::Char('d') {
        KeyAction::ConfirmDelete
    } else if event.code is Insert {
        KeyAction::ToggleTypingMode
    } else if event.code is Down {
        KeyAction::SelectNext
    } else if event.code is Up {
        KeyAction::SelectPrevious
    } else {
        KeyAction::Route
    }
}

pub open spec fn toggled(mode: TypingMode) -> TypingMode {
    match mode {
        TypingMode::Insert => TypingMode::Overwrite,
        TypingMode::Overwrite => TypingMode::Insert,
    }
}

/// An optional value that holds exactly the given text, empty text included.
pub open spec fn holds_text(v: Option<String>, text: Seq<char>) -> bool {
    v is Some && v->Some_0@ == text
}

/// The draft holds the texts of the contact form's four fields: first name,
/// last name, phone number and company.
pub open spec fn draft_of(d: ContactForUpdate, form: Modal) -> bool {
    &&& holds_text(d.first_name, form.fields@[0].edit_state().text)
    &&& holds_text(d.last_name, form.fields@[1].edit_state().text)
    &&& d.phone_number@ == form.fields@[2].edit_state().text
    &&& holds_text(d.company_name, form.fields@[3].edit_state().text)
}

/// The form after it was dismissed: every field cleared, the first focused.
pub open spec fn form_cleared(before: Modal, after: Modal) -> bool {
    &&& after.wf()
    &&& after.same_shape(&before)
    &&& after.focused_index == 0
    &&& forall|i: int|
        0 <= i < after.fields@.len() ==> (#[trigger] after.fields@[i]).edit_state()
            == before.fields@[i].edit_state().clear()
}

/// The mutable part of the application.
pub struct AppState {
    pub focus: AppFocus,
    /// Index into `contacts` of the selected contact; 0 when there are none.
    pub selected_contact_index: usize,
    pub filter: LineBuffer,
    /// The latest search result; the store is authoritative.
    pub contacts: Vec<Contact>,
    pub config: Config,
    pub modal: Modal,
}

/// The application controller.
pub struct App {
    /// Cleared when the user quits.
    pub running: bool,
    pub type_mode: TypingMode,
    pub mode: AppMode,
    pub state: AppState,
}

impl App {
    /// The filter's cursor is within its text and its edits have been acted
    /// on, the form is the four-field contact form, and the selection points
    /// into the list (or is 0 when the list is empty).
    pub open spec fn wf(&self) -> bool {
        &&& self.state.filter@.wf()
        &&& !self.state.filter@.updated
        &&& self.state.modal.wf()
        &&& self.state.modal.fields@.len() == 4
        &&& self.state.selected_contact_index == 0 || self.state.selected_contact_index
            < self.state.contacts@.len()
    }

    pub open spec fn has_selection(&self) -> bool {
        self.state.selected_contact_index < self.state.contacts@.len()
    }

    pub open spec fn selected(&self) -> Contact {
        self.state.contacts@[self.state.selected_contact_index as int]
    }

    pub open spec fn with_mode(self, mode: AppMode) -> App {
        App { mode, ..self }
    }

    pub open spec fn with_selection(self, i: usize) -> App {
        App { state: AppState { selected_contact_index: i, ..self.state }, ..self }
    }

    /// `next` differs from `self` at most in the filter and the selection.
    pub open spec fn same_but_filter(self, next: App) -> bool {
        next == App {
            state: AppState {
                filter: next.state.filter,
                selected_contact_index: next.state.selected_contact_index,
                ..self.state
            },
            ..self
        }
    }

    /// `next` differs from `self` at most in the mode and the form.
    pub open spec fn same_but_form(self, next: App) -> bool {
        next == App { mode: next.mode, state: AppState { modal: next.state.modal, ..self.state }, ..self }
    }

    /// What a key routed to the current mode does. While filtering it edits
    /// the filter, and an edit that changed the text resets the selection and
    /// asks for a new search with the filter's text. In the form modes it goes
    /// to the form; submitting asks to insert the form's values and returns to
    /// filtering with the form kept until the insert succeeds (see
    /// [`App::insert_finished`]); cancelling clears the form and returns to
    /// filtering. While
    /// deleting, `y` asks to delete the selected contact; every key returns to
    /// filtering.
    pub open spec fn routed_outcome(
        self,
        event: KeyEvent,
        type_mode: TypingMode,
        next: App,
        cmd: Command,
    ) -> bool {
        match self.mode {
            AppMode::Filtering => {
                let e = self.state.filter@.after_key(event.code, type_mode);
                &&& self.same_but_filter(next)
                &&& next.state.filter@ == (EditState { updated: false, ..e })
                &&& if e.updated {
                    &&& next.state.selected_contact_index == 0
                    &&& cmd is Search && cmd->Search_0@ == e.text
                } else {
                    &&& next.state.selected_contact_index == self.state.selected_contact_index
                    &&& cmd is Nothing
                }
            },
            AppMode::AddingContact | AppMode::EditingContact => {
                &&& self.same_but_form(next)
                &&& match result_of(event.code) {
                    DialogResult::Submit => {
                        &&& next.mode == AppMode::Filtering
                        &&& next.state.modal == self.state.modal
                        &&& cmd is Insert && draft_of(cmd->Insert_0, self.state.modal)
                    },
                    DialogResult::Cancel => {
                        &&& next.mode == AppMode::Filtering
                        &&& form_cleared(self.state.modal, next.state.modal)
                        &&& cmd is Nothing
                    },
                    DialogResult::Continue => {
                        &&& next.mode == self.mode
                        &&& self.state.modal.after_key(event.code, type_mode, &next.state.modal)
                        &&& cmd is Nothing
                    },
                }
            },
            AppMode::DeletingContact => {
                &&& next == self.with_mode(AppMode::Filtering)
                &&& if event.code == KeyCode::Char('y') && self.has_selection() {
                    cmd == Command::Delete(self.selected().id)
                } else {
                    cmd is Nothing
                }
            },
        }
    }

    /// What one key press does to the application and which command it
    /// returns.
    pub open spec fn key_outcome(
        self,
        event: KeyEvent,
        type_mode: TypingMode,
        next: App,
        cmd: Command,
    ) -> bool {
        let sel = self.state.selected_contact_index;
        let n = self.state.contacts@.len();
        match key_action(self.mode, event) {
            KeyAction::Quit => next == App { running: false, ..self } && cmd is Nothing,
            KeyAction::AddContact => next == self.with_mode(AppMode::AddingContact)
                && cmd is Nothing,
            KeyAction::CallSelected => {
                &&& next == self
                &&& if self.has_selection() {
                    cmd is Call && cmd->Call_0@ == without_blanks(self.selected().phone_number@)
                } else {
                    cmd is Nothing
                }
            },
            KeyAction::ConfirmDelete => {
                &&& cmd is Nothing
                &&& if self.has_selection() {
                    next == self.with_mode(AppMode::DeletingContact)
                } else {
                    next == self.with_selection(0)
                }
            },
            KeyAction::ToggleTypingMode => next == App { type_mode: toggled(self.type_mode), ..self }
                && cmd is Nothing,
            KeyAction::SelectNext => {
                &&& cmd is Nothing
                &&& next == self.with_selection(
                    if sel + 1 < n {
                        (sel + 1) as usize
                    } else {
                        sel
                    },
                )
            },
            KeyAction::SelectPrevious => {
                &&& cmd is Nothing
                &&& next == self.with_selection(
                    if sel > 0 {
                        (sel - 1) as usize
                    } else {
                        sel
                    },
                )
            },
            KeyAction::Route => self.routed_outcome(event, type_mode, next, cmd),
        }
    }

    /// A running application in filtering mode, in insert mode, with an
    /// empty filter, no contacts yet, and an empty contact form.
    pub fn new(config: Config) -> (r: App)
        ensures
            r.wf(),
            r.running,
            r.type_mode == TypingMode::Insert,
            r.mode == AppMode::Filtering,
            r.state.focus == AppFocus::Filter,
            r.state.selected_contact_index == 0,
            r.state.filter@ == (EditState { text: Seq::empty(), cursor: 0, updated: false }),
            r.state.contacts@.len() == 0,
            r.state.config == config,
            r.state.modal.focused_index == 0,
            r.state.modal.fields@.len() == 4,
            r.state.modal.fields@[0].name@ == "first"@,
            r.state.modal.fields@[0].label@ == "First Name"@,
            r.state.modal.fields@[1].name@ == "last"@,
            r.state.modal.fields@[1].label@ == "Last Name"@,
            r.state.modal.fields@[2].name@ == "phone"@,
            r.state.modal.fields@[2].label@ == "Phone Number"@,
            r.state.modal.fields@[3].name@ == "company"@,
            r.state.modal.fields@[3].label@ == "Company"@,
            forall|i: int|
                0 <= i < 4 ==> (#[trigger] r.state.modal.fields@[i]).edit_state() == (EditState {
                    text: Seq::empty(),
                    cursor: 0,
                    updated: false,
                }),
    {
        let state = AppState {
            focus: AppFocus::Filter,
            selected_contact_index: 0,
            filter: LineBuffer::new(),
            contacts: Vec::new(),
            config,
            modal: Modal::add_contact(),
        };
        App { running: true, type_mode: TypingMode::Insert, mode: AppMode::Filtering, state }
    }

    /// Periodic work; there is none.
    pub fn tick(&mut self) -> (r: Command)
        ensures
            *final(self) == *old(self),
            r is Nothing,
    {
        Command::Nothing
    }

    /// Stops the application.
    pub fn quit(&mut self)
        ensures
            *final(self) == (App { running: false, ..*old(self) }),
    {
        self.running = false;
    }

    /// Asks for the contacts that match the filter's text.
    pub fn get_contacts(&self) -> (r: Command)
        ensures
            r is Search && r->Search_0@ == self.state.filter@.text,
    {
        Command::Search(self.state.filter.get_value())
    }

    /// Takes in the result of a search. On success the list is replaced and
    /// the selection goes back to the first contact; on failure the list is
    /// kept as it was and the error is handed back.
    pub fn contacts_loaded(&mut self, result: AppResult<Vec<Contact>>) -> (r: AppResult<()>)
        requires
            old(self).wf(),
        ensures
            final(self).wf(),
            match result {
                Ok(list) => {
                    &&& r is Ok
                    &&& *final(self) == (App {
                        state: AppState {
                            contacts: list,
                            selected_contact_index: 0,
                            ..old(self).state
                        },
                        ..*old(self)
                    })
                },
                Err(e) => r == Err::<(), _>(e) && *final(self) == *old(self),
            },
    {
        match result {
            Ok(list) => {
                self.state.contacts = list;
                self.state.selected_contact_index = 0;
                Ok(())
            },
            Err(e) => Err(e),
        }
    }

    /// Takes in the result of an insert. On success the contact form is
    /// cleared and the contacts are searched again with the filter's text; a
    /// failure (such as a phone number already on record) is handed back and
    /// the form keeps what was typed.
    pub fn insert_finished(&mut self, result: AppResult<usize>) -> (r: AppResult<Command>)
        requires
            old(self).wf(),
        ensures
            final(self).wf(),
            match result {
                Ok(_) => {
                    &&& r is Ok && r->Ok_0 is Search
                    &&& r->Ok_0->Search_0@ == old(self).state.filter@.text
                    &&& old(self).same_but_form(*final(self))
                    &&& final(self).mode == old(self).mode
                    &&& form_cleared(old(self).state.modal, final(self).state.modal)
                },
                Err(e) => r is Err && r->Err_0 == e && *final(self) == *old(self),
            },
    {
        match result {
            Ok(_) => {
                self.state.modal.reset();
                Ok(self.get_contacts())
            },
            Err(e) => Err(e),
        }
    }

    /// Takes in the result of a delete (or any other write): on success the
    /// contacts are searched again with the filter's text; a failure is
    /// handed back.
    pub fn write_finished(&self, result: AppResult<usize>) -> (r: AppResult<Command>)
        ensures
            match result {
                Ok(_) => r is Ok && r->Ok_0 is Search && r->Ok_0->Search_0@
                    == self.state.filter@.text,
                Err(e) => r is Err && r->Err_0 == e,
            },
    {
        match result {
            Ok(_) => Ok(self.get_contacts()),
            Err(e) => Err(e),
        }
    }

    /// Opens the contact form.
    pub fn add_contact(&mut self)
        ensures
            *final(self) == old(self).with_mode(AppMode::AddingContact),
    {
        self.mode = AppMode::AddingContact;
    }

    /// The contact to insert from the form's four fields.
    pub fn insert_contact(&self) -> (r: ContactForUpdate)
        requires
            self.state.modal.fields@.len() == 4,
        ensures
            draft_of(r, self.state.modal),
    {
        let fields = &self.state.modal.fields;
        ContactForUpdate {
            first_name: Some(fields[0].get_value()),
            last_name: Some(fields[1].get_value()),
            phone_number: fields[2].get_value(),
            company_name: Some(fields[3].get_value()),
        }
    }

    /// Asks to delete the selected contact, if there is one.
    pub fn delete_contact(&self) -> (r: Command)
        ensures
            if self.has_selection() {
                r == Command::Delete(self.selected().id)
            } else {
                r is Nothing
            },
    {
        let i = self.state.selected_contact_index;
        if i < self.state.contacts.len() {
            Command::Delete(self.state.contacts[i].id)
        } else {
            Command::Nothing
        }
    }

    /// Asks for confirmation before deleting.
    pub fn confirm_delete_contact(&mut self)
        ensures
            *final(self) == old(self).with_mode(AppMode::DeletingContact),
    {
        self.mode = AppMode::DeletingContact;
    }

    /// Asks to call the selected contact, if there is one, on its phone number
    /// without blanks.
    pub fn call_selected_contact(&self) -> (r: Command)
        ensures
            if self.has_selection() {
                r is Call && r->Call_0@ == without_blanks(self.selected().phone_number@)
            } else {
                r is Nothing
            },
    {
        let i = self.state.selected_contact_index;
        if i < self.state.contacts.len() {
            Command::Call(self.state.contacts[i].dial_number())
        } else {
            Command::Nothing
        }
    }

    /// Handles one input event: keys are handled under the current typing
    /// mode, everything else is ignored.
    pub fn handle_event(&mut self, event: Event) -> (r: Command)
        requires
            old(self).wf(),
        ensures
            final(self).wf(),
            match event {
                Event::Key(k) => old(self).key_outcome(k, old(self).type_mode, *final(self), r),
                _ => *final(self) == *old(self) && r is Nothing,
            },
    {
        match event {
            Event::Tick => self.tick(),
            Event::Key(key_event) => {
                let type_mode = self.type_mode;
                self.handle_key_event(key_event, type_mode)
            },
            Event::Mouse => self.handle_mouse_event(),
            Event::Resize(_, _) => Command::Nothing,
        }
    }

    /// Mouse input is ignored.
    pub fn handle_mouse_event(&mut self) -> (r: Command)
        ensures
            *final(self) == *old(self),
            r is Nothing,
    {
        Command::Nothing
    }

    /// Handles one key press under the given typing mode: the global bindings
    /// first, then the current mode (see [`App::key_outcome`]).
    pub fn handle_key_event(&mut self, key_event: KeyEvent, type_mode: TypingMode) -> (r: Command)
        requires
            old(self).wf(),
        ensures
            final(self).wf(),
            old(self).key_outcome(key_event, type_mode, *final(self), r),
    {
        let code = key_event.code;
        if code == KeyCode::Esc && self.mode == AppMode::Filtering {
            self.quit();
            return Command::Nothing;
        }
        if key_event.modifiers.is_control_only() {
            if code == KeyCode::Char('q') {
                self.quit();
                return Command::Nothing;
            } else if code == KeyCode::Char('a') {
                self.add_contact();
                return Command::Nothing;
            } else if code == KeyCode::Char('c') {
                return self.call_selected_contact();
            } else if code == KeyCode::Char('d') {
                if self.state.selected_contact_index < self.state.contacts.len() {
                    self.confirm_delete_contact();
                } else {
                    self.state.selected_contact_index = 0;
                }
                return Command::Nothing;
            }
        }
        match code {
            KeyCode::Insert => {
                self.type_mode = match self.type_mode {
                    TypingMode::Insert => TypingMode::Overwrite,
                    TypingMode::Overwrite => TypingMode::Insert,
                };
                Command::Nothing
            },
            KeyCode::Down => {
                let n = self.state.contacts.len();
                if n > 0 && self.state.selected_contact_index < n - 1 {
                    self.state.selected_contact_index = self.state.selected_contact_index + 1;
                }
                Command::Nothing
            },
            KeyCode::Up => {
                if self.state.selected_contact_index > 0 {
                    self.state.selected_contact_index = self.state.selected_contact_index - 1;
                }
                Command::Nothing
            },
            _ => self.route_key(key_event, type_mode),
        }
    }

    /// Hands a key to the current mode.
    fn route_key(&mut self, key_event: KeyEvent, type_mode: TypingMode) -> (r: Command)
        requires
            old(self).wf(),
        ensures
            final(self).wf(),
            old(self).routed_outcome(key_event, type_mode, *final(self), r),
    {
        match self.mode {
            AppMode::Filtering => {
                self.state.filter.handle_key_events(key_event, type_mode);
                if self.state.filter.take_updated() {
                    self.state.selected_contact_index = 0;
                    self.get_contacts()
                } else {
                    Command::Nothing
                }
            },
            AppMode::AddingContact | AppMode::EditingContact => {
                match self.state.modal.handle_key_events(key_event, type_mode) {
                    DialogResult::Submit => {
                        let draft = self.insert_contact();
                        self.mode = AppMode::Filtering;
                        Command::Insert(draft)
                    },
                    DialogResult::Cancel => {
                        self.state.modal.reset();
                        self.mode = AppMode::Filtering;
                        Command::Nothing
                    },
                    DialogResult::Continue => Command::Nothing,
                }
            },
            AppMode::DeletingContact => {
                let cmd = if key_event.code == KeyCode::Char('y') {
                    self.delete_contact()
                } else {
                    Command::Nothing
                };
                self.mode = AppMode::Filtering;
                cmd
            },
        }
    }

    /// The cursor shape for the current typing mode.
    pub fn get_cursor_style(&self) -> (r: CursorStyle)
        ensures
            r == match self.type_mode {
                TypingMode::Insert => CursorStyle::BlinkingBlock,
                TypingMode::Overwrite => CursorStyle::BlinkingUnderScore,
            },
    {
        match self.type_mode {
            TypingMode::Insert => CursorStyle::BlinkingBlock,
            TypingMode::Overwrite => CursorStyle::BlinkingUnderScore,
        }
    }
}

/// Escape leads back to filtering from every other mode, keeping the
/// application running, the contact list as it was and asking for no insert;
/// from filtering it quits. Whatever modifiers are held.
pub proof fn lemma_escape_returns_to_filtering(
    app: App,
    modifiers: KeyModifiers,
    type_mode: TypingMode,
    next: App,
    cmd: Command,
)
    requires
        app.key_outcome(KeyEvent { code: KeyCode::Esc, modifiers }, type_mode, next, cmd),
    ensures
        app.mode != AppMode::Filtering ==> next.mode == AppMode::Filtering,
        app.mode != AppMode::Filtering ==> next.running == app.running,
        app.mode != AppMode::Filtering ==> next.state.contacts == app.state.contacts,
        app.mode != AppMode::Filtering ==> !(cmd is Insert),
        app.mode == AppMode::Filtering ==> !next.running,
{
}

/// A key press that asks for a new search has already put the selection back
/// on the first contact.
pub proof fn lemma_search_resets_selection(
    app: App,
    event: KeyEvent,
    type_mode: TypingMode,
    next: App,
    cmd: Command,
)
    requires
        app.key_outcome(event, type_mode, next, cmd),
        cmd is Search,
    ensures
        next.state.selected_contact_index == 0,
{
}

} // verus!
