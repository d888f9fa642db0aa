//! The failures a caller can see.

use vstd::prelude::*;
use vstd::string::*;

verus! {

/// The kinds of failure.
#[derive(Clone, Copy, Debug, PartialEq, Eq, Structural)]
pub enum ErrorKind {
    ConnectionFailed,
    ServerError,
    Misuse,
}

/// An error as a mathematical value: its kind and its text.
pub struct ErrorView {
    pub kind: ErrorKind,
    pub message: Seq<char>,
}

impl ErrorView {
    /// A connection failure with the given text.
    pub open spec fn connection_failed(message: Seq<char>) -> ErrorView {
        ErrorView { kind: ErrorKind::ConnectionFailed, message }
    }

    /// A server error with the given text.
    pub open spec fn server_error(message: Seq<char>) -> ErrorView {
        ErrorView { kind: ErrorKind::ServerError, message }
    }

    /// A misuse error with the given text.
    pub open spec fn misuse(message: Seq<char>) -> ErrorView {
        ErrorView { kind: ErrorKind::Misuse, message }
    }
}

/// A result as a mathematical value, where its value has a view.
pub open spec fn result_view<T: View>(result: Result<T, Error>) -> Result<T::V, ErrorView> {
    match result {
        Ok(value) => Ok(value@),
        Err(error) => Err(error@),
    }
}

/// A result as a mathematical value, where its value stands for itself.
pub open spec fn failure_view<T>(result: Result<T, Error>) -> Result<T, ErrorView> {
    match result {
        Ok(value) => Ok(value),
        Err(error) => Err(error@),
    }
}

/// Why an operation failed.
#[derive(Debug)]
pub enum Error {
    /// The transport failed, the server lost the session, or its reply did
    /// not have the expected shape.
    ConnectionFailed(String),
    /// The server answered with a well-formed error, such as an SQL error.
    ServerError(String),
    /// The caller broke a precondition, such as a missing configuration.
    Misuse(String),
}

impl View for Error {
    type V = ErrorView;

    open spec fn view(&self) -> ErrorView {
        match self {
            Error::ConnectionFailed(m) => ErrorView::connection_failed(m@),
            Error::ServerError(m) => ErrorView::server_error(m@),
            Error::Misuse(m) => ErrorView::misuse(m@),
        }
    }
}

impl Error {
    /// A connection failure with the given text.
    pub fn connection_failed(text: &str) -> (e: Error)
        ensures
            e@ == ErrorView::connection_failed(text@),
    {
        Error::ConnectionFailed(String::from_str(text))
    }

    /// A server error with the given text.
    pub fn server_error(text: &str) -> (e: Error)
        ensures
            e@ == ErrorView::server_error(text@),
    {
        Error::ServerError(String::from_str(text))
    }

    /// A misuse error with the given text.
    pub fn misuse(text: &str) -> (e: Error)
        ensures
            e@ == ErrorView::misuse(text@),
    {
        Error::Misuse(String::from_str(text))
    }

    /// The kind of the error.
    pub fn kind(&self) -> (kind: ErrorKind)
        ensures
            kind == self@.kind,
    {
        match self {
            Error::ConnectionFailed(_) => ErrorKind::ConnectionFailed,
            Error::ServerError(_) => ErrorKind::ServerError,
            Error::Misuse(_) => ErrorKind::Misuse,
        }
    }

    /// The text of the error.
    pub fn message(&self) -> (text: &str)
        ensures
            text@ == self@.message,
    {
        match self {
            Error::ConnectionFailed(m) => m.as_str(),
            Error::ServerError(m) => m.as_str(),
            Error::Misuse(m) => m.as_str(),
        }
    }

    /// The kind of the error and its text, separated by a colon.
    pub fn describe(&self) -> (text: String)
        ensures
            text@ == Self::kind_text(self@.kind) + ": "@ + self@.message,
    {
        let (kind, message) = match self {
            Error::ConnectionFailed(m) => ("connection failed", m),
            Error::ServerError(m) => ("server error", m),
            Error::Misuse(m) => ("misuse", m),
        };
        let mut text = String::from_str(kind);
        text.append(": ");
        text.append(message.as_str());
        text
    }

    /// The name of a kind, as [`Error::describe`] prints it.
    pub open spec fn kind_text(kind: ErrorKind) -> Seq<char> {
        match kind {
            ErrorKind::ConnectionFailed => "connection failed"@,
            ErrorKind::ServerError => "server error"@,
            ErrorKind::Misuse => "misuse"@,
        }
    }
}

} // verus!
