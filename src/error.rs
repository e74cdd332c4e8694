//! The library's error type.
use vstd::prelude::*;

verus! {

#[derive(Clone, Copy, Debug, PartialEq, Eq, Structural)]
pub enum ErrorKind {
    IOError,
    JibbyError,
}

impl ErrorKind {
    /// The message that goes with the kind.
    pub open spec fn spec_message(self) -> Seq<char> {
        match self {
            ErrorKind::IOError => "io error"@,
            ErrorKind::JibbyError => "invalid value"@,
        }
    }

    pub fn as_str(&self) -> (r: &'static str)
        ensures
            r@ == self.spec_message(),
    {
        match self {
            ErrorKind::IOError => "io error",
            ErrorKind::JibbyError => "invalid value",
        }
    }
}

/// An error: its kind and a message.
#[derive(Debug, Clone)]
pub struct Error {
    kind: ErrorKind,
    message: String,
}

impl Error {
    pub closed spec fn spec_kind(&self) -> ErrorKind {
        self.kind
    }

    pub closed spec fn spec_message(&self) -> Seq<char> {
        self.message@
    }

    /// An error of the given kind, with the kind's own message.
    pub fn new(kind: ErrorKind) -> (r: Error)
        ensures
            r.spec_kind() == kind,
            r.spec_message() == kind.spec_message(),
    {
        Error { kind, message: kind.as_str().to_owned() }
    }

    /// An error of the given kind with a message of the caller's.
    pub fn with_message(kind: ErrorKind, message: String) -> (r: Error)
        ensures
            r.spec_kind() == kind,
            r.spec_message() == message@,
    {
        Error { kind, message }
    }

    pub fn kind(&self) -> (r: ErrorKind)
        ensures
            r == self.spec_kind(),
    {
        self.kind
    }

    pub fn message(&self) -> (r: &str)
        ensures
            r@ == self.spec_message(),
    {
        self.message.as_str()
    }
}

} // verus!
