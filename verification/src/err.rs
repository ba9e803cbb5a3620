//! What can go wrong: in the talk with the server, and in what the operator
//! asked for.

use vstd::prelude::*;
use vstd::string::*;

verus! {

/// What went wrong while talking to the server.
#[derive(Debug, Clone, PartialEq, Eq)]
pub enum SensuError {
    /// The server answered 404: the resource does not exist.
    NotFound,
    /// Any other failure, with a message for the operator.
    Message(String),
}

/// The mathematical value of a `SensuError`.
pub enum ErrorView {
    NotFound,
    Message(Seq<char>),
}

impl ErrorView {
    /// The message of the error.
    pub open spec fn text(self) -> Seq<char> {
        match self {
            ErrorView::NotFound => not_found_text(),
            ErrorView::Message(m) => m,
        }
    }
}

impl View for SensuError {
    type V = ErrorView;

    open spec fn view(&self) -> ErrorView {
        match self {
            SensuError::NotFound => ErrorView::NotFound,
            SensuError::Message(m) => ErrorView::Message(m@),
        }
    }
}

/// The text shown for `SensuError::NotFound`.
pub open spec fn not_found_text() -> Seq<char> {
    "404 Not found"@
}

/// A mistake in what the operator asked for. Nothing is sent to the server
/// once one is found.
#[derive(Debug, Clone, Copy, PartialEq, Eq, Structural)]
pub enum ConfigError {
    /// An expiration time was given together with expire-on-resolve.
    ConflictingExpiration,
    /// A clock-format expiration has more than three fields.
    TooManyClockFields,
    /// A field of a clock-format expiration is not a number.
    BadClockField,
    /// The expiration does not fit the machine's word.
    ExpirationTooLong,
    /// Neither resources nor checks were named.
    NoTargets,
}

impl ConfigError {
    /// The line shown to the operator.
    pub open spec fn text(self) -> Seq<char> {
        match self {
            ConfigError::ConflictingExpiration =>
                "Expiration time and expire-on-resolve cannot be given together"@,
            ConfigError::TooManyClockFields => "Expiration has more than three clock fields"@,
            ConfigError::BadClockField => "Expiration has a clock field that is not a number"@,
            ConfigError::ExpirationTooLong => "Expiration is too long"@,
            ConfigError::NoTargets => "No targets specified - Exiting..."@,
        }
    }

    /// The line shown to the operator.
    pub fn description(&self) -> (s: String)
        ensures
            s@ == self.text(),
    {
        match self {
            ConfigError::ConflictingExpiration => String::from_str(
                "Expiration time and expire-on-resolve cannot be given together",
            ),
            ConfigError::TooManyClockFields => String::from_str(
                "Expiration has more than three clock fields",
            ),
            ConfigError::BadClockField => String::from_str(
                "Expiration has a clock field that is not a number",
            ),
            ConfigError::ExpirationTooLong => String::from_str("Expiration is too long"),
            ConfigError::NoTargets => String::from_str("No targets specified - Exiting..."),
        }
    }
}

impl SensuError {
    /// An error carrying `msg`.
    pub fn new(msg: &str) -> (e: Self)
        ensures
            e matches SensuError::Message(m) && m@ == msg@,
    {
        SensuError::Message(String::from_str(msg))
    }

    /// An error carrying an already formatted message.
    pub fn new_string(any_format: String) -> (e: Self)
        ensures
            e == SensuError::Message(any_format),
    {
        SensuError::Message(any_format)
    }

    /// The error for a resource that the server does not know.
    pub fn not_found() -> (e: Self)
        ensures
            e == SensuError::NotFound,
    {
        SensuError::NotFound
    }

    /// The message to show: the carried text, or a fixed line for not-found.
    pub fn description(&self) -> (s: String)
        ensures
            s@ == self@.text(),
    {
        match self {
            SensuError::NotFound => String::from_str("404 Not found"),
            SensuError::Message(m) => m.clone(),
        }
    }
}

} // verus!
