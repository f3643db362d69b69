//! Interaction core of a keyboard-driven contact manager: a single-line text
//! editing engine, multi-field forms, and the application mode machine that
//! decides which store operation each key press asks for.

/// Application controller and its mode machine.
pub mod app;

/// Contact records and drafts.
pub mod contact;

/// A single labelled input field of a form.
pub mod dialog_field;

/// Errors reported back by the store and the surroundings.
pub mod error;

/// Terminal input events.
pub mod event;

/// Conversions between strings and character vectors.
mod text;

/// Single-line editable text with a cursor.
pub mod line_buffer;

/// A form of several fields with one focused field.
pub mod modal;
