//! The errors that operations return: a kind and a text.

use vstd::prelude::*;

verus! {

/// What went wrong, apart from the wording.
#[derive(Clone, Copy, Debug, PartialEq, Eq, Structural)]
pub enum ErrorKind {
    /// An id that was looked up has no record, or a listing is empty.
    NotFound,
    /// A field of a payload is missing or malformed, or the record is too
    /// large to store.
    InvalidPayload,
    /// The request breaks a uniqueness or exclusivity rule.
    Conflict,
    /// The id counter could not be advanced; nothing was stored.
    Fatal,
}

/// An error as contracts see it: its kind and its text.
pub type Fault = (ErrorKind, Seq<char>);

/// An error with its text.
#[derive(Debug, PartialEq, Eq)]
pub enum Message {
    NotFound(String),
    InvalidPayload(String),
    Conflict(String),
    Fatal(String),
}

impl View for Message {
    type V = Fault;

    open spec fn view(&self) -> Fault {
        match self {
            Message::NotFound(s) => (ErrorKind::NotFound, s@),
            Message::InvalidPayload(s) => (ErrorKind::InvalidPayload, s@),
            Message::Conflict(s) => (ErrorKind::Conflict, s@),
            Message::Fatal(s) => (ErrorKind::Fatal, s@),
        }
    }
}

impl Message {
    /// The kind of the error.
    pub fn kind(&self) -> (k: ErrorKind)
        ensures
            k == self@.0,
    {
        match self {
            Message::NotFound(_) => ErrorKind::NotFound,
            Message::InvalidPayload(_) => ErrorKind::InvalidPayload,
            Message::Conflict(_) => ErrorKind::Conflict,
            Message::Fatal(_) => ErrorKind::Fatal,
        }
    }

    /// The text of the error.
    pub fn text(&self) -> (s: &str)
        ensures
            s@ == self@.1,
    {
        match self {
            Message::NotFound(s) => s.as_str(),
            Message::InvalidPayload(s) => s.as_str(),
            Message::Conflict(s) => s.as_str(),
            Message::Fatal(s) => s.as_str(),
        }
    }

    /// An error of the given kind and text.
    pub fn new(kind: ErrorKind, text: &str) -> (m: Message)
        ensures
            m@ == (kind, text@),
    {
        let s = String::from_str(text);
        match kind {
            ErrorKind::NotFound => Message::NotFound(s),
            ErrorKind::InvalidPayload => Message::InvalidPayload(s),
            ErrorKind::Conflict => Message::Conflict(s),
            ErrorKind::Fatal => Message::Fatal(s),
        }
    }
}

} // verus!
