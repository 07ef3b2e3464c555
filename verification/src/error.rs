//! The errors that a claim can end in.
use vstd::prelude::*;

verus! {

/// The two kinds of failure.
#[derive(Clone, Copy, Debug, PartialEq, Eq, Structural)]
pub enum ErrorKind {
    /// The handle is no socket, or no socket of the requested family and
    /// type. The handle stays where it was, and the caller may ask again for
    /// another kind, or bind a socket of its own.
    InvalidHandle,
    /// The system refused a call that had to succeed. The handle stays where
    /// it was.
    Other,
}

/// A failure, with the text that describes it.
#[derive(Clone, Debug, PartialEq, Eq)]
pub struct Error {
    pub kind: ErrorKind,
    pub message: String,
}

/// What an `Error` says: its kind and the characters of its text.
pub struct Failure {
    pub kind: ErrorKind,
    pub message: Seq<char>,
}

impl View for Error {
    type V = Failure;

    open spec fn view(&self) -> Failure {
        Failure { kind: self.kind, message: self.message@ }
    }
}

/// A result with its error, if any, replaced by what the error says.
pub open spec fn result_view<T>(r: Result<T, Error>) -> Result<T, Failure> {
    match r {
        Ok(v) => Ok(v),
        Err(e) => Err(e@),
    }
}

impl Error {
    /// An error of kind `kind` with the text `message`.
    pub fn new(kind: ErrorKind, message: String) -> (r: Error)
        ensures
            r@ == (Failure { kind, message: message@ }),
    {
        Error { kind, message }
    }

    /// The kind of this error.
    pub fn kind(&self) -> (r: ErrorKind)
        ensures
            r == self@.kind,
    {
        self.kind
    }

    /// The text of this error.
    pub fn to_string(&self) -> (r: String)
        ensures
            r@ == self@.message,
    {
        self.message.clone()
    }
}

} // verus!
