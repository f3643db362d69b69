use vstd::prelude::*;

verus! {

/// What went wrong outside the interaction core, as a message.
#[derive(Debug)]
pub enum Error {
    /// The configuration or its paths could not be resolved.
    ConfigError(String),
    /// Reading or writing a file or the terminal failed.
    IoError(String),
    /// The contact store refused or failed an operation (for instance a
    /// second contact with a phone number already on record).
    StoreError(String),
}

impl Error {
    /// The message carried by the error.
    pub fn message(&self) -> (r: &String)
        ensures
            r == match self {
                Error::ConfigError(m) => m,
                Error::IoError(m) => m,
                Error::StoreError(m) => m,
            },
    {
        match self {
            Error::ConfigError(m) => m,
            Error::IoError(m) => m,
            Error::StoreError(m) => m,
        }
    }
}

/// The result of an operation that may fail with an [`Error`].
pub type AppResult<T> = Result<T, Error>;

} // verus!
