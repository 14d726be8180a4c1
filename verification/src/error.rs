use vstd::prelude::*;
use vstd::std_specs::cmp::PartialEqSpec;

verus! {

/// The kinds of failure that opening a path can meet.
#[allow(non_camel_case_types)]
#[derive(Debug, Clone, Copy, PartialEq, Eq, Structural)]
pub enum ErrorKind {
    /// The shell named was not recognized.
    SHELL_NOT_FOUND,
    /// The command ran and reported failure.
    COMMAND_FAILED,
    /// No launcher could be started.
    NO_LAUNCHER,
    /// An I/O operation failed.
    IO,
}

impl ErrorKind {
    /// The human-readable text of each kind.
    pub open spec fn text(self) -> Seq<char> {
        match self {
            ErrorKind::SHELL_NOT_FOUND => "Unrecognized shell type"@,
            ErrorKind::COMMAND_FAILED => "Command failed"@,
            ErrorKind::NO_LAUNCHER => "No launcher worked"@,
            ErrorKind::IO => "IO Error"@,
        }
    }

    /// The text under which this kind is displayed.
    pub fn to_string(&self) -> (s: String)
        ensures
            s@ == self.text(),
    {
        match self {
            ErrorKind::SHELL_NOT_FOUND => String::from_str("Unrecognized shell type"),
            ErrorKind::COMMAND_FAILED => String::from_str("Command failed"),
            ErrorKind::NO_LAUNCHER => String::from_str("No launcher worked"),
            ErrorKind::IO => String::from_str("IO Error"),
        }
    }
}

/// An error of some kind, with a message that may be empty.
#[derive(Debug)]
pub struct Error {
    kind: ErrorKind,
    message: String,
}

impl Error {
    /// The kind of this error.
    pub closed spec fn spec_kind(&self) -> ErrorKind {
        self.kind
    }

    /// The message of this error.
    pub closed spec fn spec_message(&self) -> Seq<char> {
        self.message@
    }

    /// The text under which an error is displayed: the kind's text alone
    /// when the message is empty, else the kind's text followed by the
    /// message in parentheses.
    pub open spec fn display_text(kind: ErrorKind, message: Seq<char>) -> Seq<char> {
        if message.len() == 0 {
            kind.text()
        } else {
            kind.text() + " ("@ + message + ")"@
        }
    }

    /// Creates an error of the given kind with the given message, which may
    /// be empty.
    pub fn new(kind: ErrorKind, message: &str) -> (e: Self)
        ensures
            e.spec_kind() == kind,
            e.spec_message() == message@,
    {
        if message.is_empty() {
            Self::empty_message(kind)
        } else {
            Error { kind, message: message.to_owned() }
        }
    }

    /// Creates an error of the given kind with an empty message.
    fn empty_message(kind: ErrorKind) -> (e: Self)
        ensures
            e.spec_kind() == kind,
            e.spec_message() == Seq::<char>::empty(),
    {
        Error { kind, message: String::new() }
    }

    /// The kind of this error.
    pub fn kind(&self) -> (k: &ErrorKind)
        ensures
            *k == self.spec_kind(),
    {
        &self.kind
    }

    /// The message of this error; empty where none was given.
    pub fn message(&self) -> (m: &str)
        ensures
            m@ == self.spec_message(),
    {
        self.message.as_str()
    }

    /// The text under which this error is displayed.
    pub fn to_string(&self) -> (s: String)
        ensures
            s@ == Self::display_text(self.spec_kind(), self.spec_message()),
    {
        let mut s = self.kind.to_string();
        if !self.message.as_str().is_empty() {
            s.append(" (");
            s.append(self.message.as_str());
            s.append(")");
        }
        s
    }
}

impl PartialEq for Error {
    /// Two errors are equal when their kinds are; messages are not compared.
    fn eq(&self, other: &Self) -> (r: bool) {
        self.kind == other.kind
    }
}

impl Eq for Error {}

impl vstd::std_specs::cmp::PartialEqSpecImpl for Error {
    open spec fn obeys_eq_spec() -> bool {
        true
    }

    open spec fn eq_spec(&self, other: &Self) -> bool {
        self.spec_kind() == other.spec_kind()
    }
}

/// Two errors are equal exactly when their kinds are, whatever their
/// messages.
pub proof fn lemma_errors_equal_by_kind(a: &Error, b: &Error)
    ensures
        a.eq_spec(b) <==> a.spec_kind() == b.spec_kind(),
{
}

} // verus!
