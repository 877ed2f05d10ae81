//! The error values of the runtime: an I/O error carried as it is, or a
//! generic error described by its text.

use vstd::prelude::*;
use vstd::std_specs::convert::FromSpecImpl;
use vstd::string::*;

verus! {

/// `std::io::Error`, carried through unchanged.
#[verifier::external_type_specification]
#[verifier::external_body]
pub struct ExIoError(std::io::Error);

/// Errors of the threading crate.
#[derive(Debug)]
pub enum ErrorWrap {
    Io(std::io::Error),
    Generic(String),
}

impl ErrorWrap {
    /// A generic error that carries the display text of `error`.
    pub fn to_generic<E: core::fmt::Display>(error: E) -> (wrapped: Self)
        ensures
            wrapped matches ErrorWrap::Generic(text) && to_string_from_display_ensures::<E>(
                &error,
                text,
            ),
    {
        ErrorWrap::Generic(error.to_string())
    }

    /// A generic error with the given text.
    pub fn from_message(message: &str) -> (wrapped: Self)
        ensures
            wrapped matches ErrorWrap::Generic(text) && text@ == message@,
    {
        ErrorWrap::Generic(message.to_string())
    }

    /// The text that displaying the error shows: the I/O error's own text, or
    /// the generic error's text.
    pub fn message(&self) -> (text: String)
        ensures
            self matches ErrorWrap::Generic(g) ==> text@ == g@,
            self matches ErrorWrap::Io(e) ==> to_string_from_display_ensures::<std::io::Error>(
                &e,
                text,
            ),
    {
        match self {
            ErrorWrap::Io(e) => e.to_string(),
            ErrorWrap::Generic(g) => g.clone(),
        }
    }
}

impl From<String> for ErrorWrap {
    fn from(value: String) -> (wrapped: Self) {
        ErrorWrap::Generic(value)
    }
}

impl FromSpecImpl<String> for ErrorWrap {
    open spec fn obeys_from_spec() -> bool {
        true
    }

    open spec fn from_spec(value: String) -> Self {
        ErrorWrap::Generic(value)
    }
}

/// A generic error with the given text, as `from_message` makes it. No spec
/// value of a `String` can be built from a `&str`, so the text is stated by
/// the method's own `ensures` rather than through `from_spec`.
impl<'a> From<&'a str> for ErrorWrap {
    fn from(value: &'a str) -> (wrapped: Self)
        ensures
            wrapped matches ErrorWrap::Generic(text) && text@ == value@,
    {
        ErrorWrap::from_message(value)
    }
}

impl<'a> FromSpecImpl<&'a str> for ErrorWrap {
    open spec fn obeys_from_spec() -> bool {
        false
    }

    open spec fn from_spec(value: &'a str) -> Self {
        ErrorWrap::Generic(choose|s: String| s@ == value@)
    }
}

impl From<std::io::Error> for ErrorWrap {
    fn from(value: std::io::Error) -> (wrapped: Self) {
        ErrorWrap::Io(value)
    }
}

impl FromSpecImpl<std::io::Error> for ErrorWrap {
    open spec fn obeys_from_spec() -> bool {
        true
    }

    open spec fn from_spec(value: std::io::Error) -> Self {
        ErrorWrap::Io(value)
    }
}

/// Errors of the program built on the runtime.
#[derive(Debug)]
pub enum SageError {
    Io(std::io::Error),
    Generic(String),
}

impl SageError {
    /// A generic error that carries the display text of `error`.
    pub fn to_generic<E: core::fmt::Display>(error: E) -> (wrapped: Self)
        ensures
            wrapped matches SageError::Generic(text) && to_string_from_display_ensures::<E>(
                &error,
                text,
            ),
    {
        SageError::Generic(error.to_string())
    }

    /// The text that displaying the error shows.
    pub fn message(&self) -> (text: String)
        ensures
            self matches SageError::Generic(g) ==> text@ == g@,
            self matches SageError::Io(e) ==> to_string_from_display_ensures::<std::io::Error>(
                &e,
                text,
            ),
    {
        match self {
            SageError::Io(e) => e.to_string(),
            SageError::Generic(g) => g.clone(),
        }
    }
}

impl From<std::io::Error> for SageError {
    fn from(value: std::io::Error) -> (wrapped: Self) {
        SageError::Io(value)
    }
}

impl FromSpecImpl<std::io::Error> for SageError {
    open spec fn obeys_from_spec() -> bool {
        true
    }

    open spec fn from_spec(value: std::io::Error) -> Self {
        SageError::Io(value)
    }
}

} // verus!
