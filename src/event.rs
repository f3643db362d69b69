use vstd::prelude::*;

verus! {

/// The key that was pressed, as far as the interaction core tells keys apart.
#[derive(Clone, Copy, Debug, PartialEq, Eq, Structural)]
pub enum KeyCode {
    Char(char),
    Enter,
    Backspace,
    Delete,
    Left,
    Right,
    Up,
    Down,
    Home,
    End,
    Tab,
    BackTab,
    Esc,
    Insert,
    /// Any key that the core ignores (function keys, media keys, ...).
    Other,
}

/// Modifier keys held while a key was pressed.
#[derive(Clone, Copy, Debug, PartialEq, Eq, Structural)]
pub struct KeyModifiers {
    pub control: bool,
    pub shift: bool,
    pub alt: bool,
    /// Super, Hyper or Meta.
    pub other: bool,
}

/// One key press.
#[derive(Clone, Copy, Debug, PartialEq, Eq, Structural)]
pub struct KeyEvent {
    pub code: KeyCode,
    pub modifiers: KeyModifiers,
}

/// An input event from the terminal.
#[derive(Clone, Copy, Debug, PartialEq, Eq, Structural)]
pub enum Event {
    /// A periodic tick; the interaction core ignores it.
    Tick,
    Key(KeyEvent),
    /// Mouse input; the interaction core ignores it.
    Mouse,
    /// The terminal was resized to the given columns and rows.
    Resize(u16, u16),
}

impl KeyModifiers {
    /// No modifier held.
    pub fn none() -> (r: KeyModifiers)
        ensures
            !r.control && !r.shift && !r.alt && !r.other,
    {
        KeyModifiers { control: false, shift: false, alt: false, other: false }
    }

    /// Control alone.
    pub fn control() -> (r: KeyModifiers)
        ensures
            r.control && !r.shift && !r.alt && !r.other,
    {
        KeyModifiers { control: true, shift: false, alt: false, other: false }
    }

    /// Shift alone.
    pub fn shift() -> (r: KeyModifiers)
        ensures
            !r.control && r.shift && !r.alt && !r.other,
    {
        KeyModifiers { control: false, shift: true, alt: false, other: false }
    }

    pub open spec fn spec_is_control_only(self) -> bool {
        self.control && !self.shift && !self.alt && !self.other
    }

    /// Whether exactly the control modifier is held: the shape of a command chord.
    #[verifier::when_used_as_spec(spec_is_control_only)]
    pub fn is_control_only(self) -> (r: bool)
        ensures
            r == self.spec_is_control_only(),
    {
        self.control && !self.shift && !self.alt && !self.other
    }
}

impl KeyEvent {
    /// A key press without modifiers.
    pub fn plain(code: KeyCode) -> (r: KeyEvent)
        ensures
            r.code == code,
            r.modifiers == (KeyModifiers { control: false, shift: false, alt: false, other: false }),
    {
        KeyEvent { code, modifiers: KeyModifiers::none() }
    }

    /// A key press with control held.
    pub fn with_control(code: KeyCode) -> (r: KeyEvent)
        ensures
            r.code == code,
            r.modifiers == (KeyModifiers { control: true, shift: false, alt: false, other: false }),
    {
        KeyEvent { code, modifiers: KeyModifiers::control() }
    }
}

} // verus!
