//! The errors of the transport.

use vstd::prelude::*;
use vstd::string::StringExecFns;

verus! {

/// What went wrong: in dialing, or in listening and in everything around it.
#[derive(Debug)]
pub enum TransportErrorKind {
    Dial(String),
    Listen(String),
}

/// An error of the transport.
#[derive(Debug)]
pub struct TransportError {
    kind: TransportErrorKind,
}

/// The kind of an error and its text.
pub enum ErrorText {
    Dial(Seq<char>),
    Listen(Seq<char>),
}

impl View for TransportErrorKind {
    type V = ErrorText;

    open spec fn view(&self) -> ErrorText {
        match self {
            TransportErrorKind::Dial(text) => ErrorText::Dial(text@),
            TransportErrorKind::Listen(text) => ErrorText::Listen(text@),
        }
    }
}

impl View for TransportError {
    type V = ErrorText;

    closed spec fn view(&self) -> ErrorText {
        self.kind@
    }
}

impl Clone for TransportErrorKind {
    fn clone(&self) -> (kind: Self)
        ensures
            kind@ == self@,
    {
        match self {
            TransportErrorKind::Dial(text) => TransportErrorKind::Dial(text.clone()),
            TransportErrorKind::Listen(text) => TransportErrorKind::Listen(text.clone()),
        }
    }
}

impl Clone for TransportError {
    fn clone(&self) -> (error: Self)
        ensures
            error@ == self@,
    {
        TransportError { kind: self.kind.clone() }
    }
}

/// The text that the formatter of the standard library writes for a string under `{:?}`: in
/// quotes and with its special characters escaped.
pub uninterp spec fn quoted(text: Seq<char>) -> Seq<char>;

/// Formats a string with `{:?}`, by `std`'s `format!`. The claim is that the outcome depends on
/// the characters alone.
#[verifier::external_body]
pub(crate) fn std_quoted(text: &str) -> (out: String)
    ensures
        out@ == quoted(text@),
{
    format!("{text:?}")
}

/// How an error is shown.
pub open spec fn shown(error: ErrorText) -> Seq<char> {
    match error {
        ErrorText::Dial(text) => "TransportError: Dial("@ + quoted(text) + ")"@,
        ErrorText::Listen(text) => "TransportError: Listen("@ + quoted(text) + ")"@,
    }
}

impl TransportError {
    /// An error in dialing.
    pub fn dial(text: String) -> (error: TransportError)
        ensures
            error@ == ErrorText::Dial(text@),
    {
        TransportError { kind: TransportErrorKind::Dial(text) }
    }

    /// An error in listening.
    pub fn listen(text: String) -> (error: TransportError)
        ensures
            error@ == ErrorText::Listen(text@),
    {
        TransportError { kind: TransportErrorKind::Listen(text) }
    }

    /// What went wrong.
    pub fn kind(&self) -> (kind: &TransportErrorKind)
        ensures
            kind@ == self@,
    {
        &self.kind
    }

    /// The error as it is shown to a user.
    pub fn to_string(&self) -> (text: String)
        ensures
            text@ == shown(self@),
    {
        match &self.kind {
            TransportErrorKind::Dial(text) => show("TransportError: Dial(", std_quoted(text.as_str())),
            TransportErrorKind::Listen(text) => show(
                "TransportError: Listen(",
                std_quoted(text.as_str()),
            ),
        }
    }
}

/// Puts `text` between `head` and a closing bracket.
pub fn show(head: &str, text: String) -> (out: String)
    ensures
        out@ == head@ + text@ + ")"@,
{
    String::from_str(head).concat(text.as_str()).concat(")")
}

impl From<&str> for TransportError {
    /// An error in listening, with the given text.
    fn from(err: &str) -> (error: Self)
        ensures
            error@ == ErrorText::Listen(err@),
    {
        TransportError::listen(err.to_owned())
    }
}

impl vstd::std_specs::convert::FromSpecImpl<&str> for TransportError {
    open spec fn obeys_from_spec() -> bool {
        false
    }

    open spec fn from_spec(err: &str) -> Self {
        arbitrary()
    }
}

} // verus!
