//! The failures that the bridge reports to its caller.

use vstd::prelude::*;

verus! {

/// A failure of an operation on the interpreter or on one of its values.
///
/// `CBQN` carries text that the interpreter itself produced, so that a failing
/// script can be told apart from a misuse of the host-side API, which is
/// reported as `InvalidType` or `NotSupported`.
#[derive(Debug)]
pub enum Error {
    /// The interpreter reported a failure; the text is its own rendering.
    CBQN(String),
    /// An operation was applied to a value of the wrong type.
    InvalidType(String),
    /// The backend in use cannot perform the operation.
    NotSupported(String),
}

/// A failure inside a backend.
///
/// A backend knows nothing of the bridge's own rules, so it has no way to
/// report a value of the wrong type: what it reports reaches the caller as
/// `Error::CBQN` or `Error::NotSupported`, never as `Error::InvalidType`.
#[derive(Debug)]
pub enum Fault {
    /// The interpreter, or the sandbox it runs in, failed. The text is what
    /// the interpreter wrote to its standard error, which may be nothing.
    Failed(String),
    /// The backend cannot perform the operation.
    NotSupported(String),
}

/// The mathematical content of a [`Fault`].
pub enum FaultView {
    Failed(Seq<char>),
    NotSupported(Seq<char>),
}

impl View for Fault {
    type V = FaultView;

    open spec fn view(&self) -> FaultView {
        match self {
            Fault::Failed(m) => FaultView::Failed(m@),
            Fault::NotSupported(m) => FaultView::NotSupported(m@),
        }
    }
}

/// The mathematical content of an [`Error`]: its kind and the characters of
/// its message.
pub enum ErrorView {
    CBQN(Seq<char>),
    InvalidType(Seq<char>),
    NotSupported(Seq<char>),
}

impl View for Error {
    type V = ErrorView;

    open spec fn view(&self) -> ErrorView {
        match self {
            Error::CBQN(m) => ErrorView::CBQN(m@),
            Error::InvalidType(m) => ErrorView::InvalidType(m@),
            Error::NotSupported(m) => ErrorView::NotSupported(m@),
        }
    }
}

impl ErrorView {
    /// The message without the prefix that names the kind.
    pub open spec fn message(self) -> Seq<char> {
        match self {
            ErrorView::CBQN(m) => m,
            ErrorView::InvalidType(m) => m,
            ErrorView::NotSupported(m) => m,
        }
    }

    /// The text shown to a user: the kind's prefix followed by the message.
    pub open spec fn rendered(self) -> Seq<char> {
        match self {
            ErrorView::CBQN(m) => "CBQN error: "@ + m,
            ErrorView::InvalidType(m) => "Invalid type: "@ + m,
            ErrorView::NotSupported(m) => m,
        }
    }
}

/// The message of the error for a failure of which the interpreter wrote
/// nothing.
pub open spec fn generic_failure() -> Seq<char> {
    "the interpreter failed"@
}

/// The error by which a backend's failure is reported: a `CBQN` error with
/// the interpreter's words, or with a generic message where it left none;
/// `NotSupported` for what the backend cannot do.
pub open spec fn reported(fault: FaultView) -> ErrorView {
    match fault {
        FaultView::Failed(words) => if words.len() == 0 {
            ErrorView::CBQN(generic_failure())
        } else {
            ErrorView::CBQN(words)
        },
        FaultView::NotSupported(m) => ErrorView::NotSupported(m),
    }
}

/// A backend's answer as the bridge hands it on: a failure becomes the
/// error that reports it.
pub open spec fn lifted<T>(r: Result<T, Fault>) -> Result<T, ErrorView> {
    match r {
        Ok(v) => Ok(v),
        Err(f) => Err(reported(f@)),
    }
}

/// The view of a result whose error is an [`Error`].
pub open spec fn outcome<T>(r: Result<T, Error>) -> Result<T, ErrorView> {
    match r {
        Ok(v) => Ok(v),
        Err(e) => Err(e@),
    }
}

impl Error {
    /// An `InvalidType` error with the given message.
    pub fn invalid_type(message: &str) -> (e: Error)
        ensures
            e@ == ErrorView::InvalidType(message@),
    {
        Error::InvalidType(String::from_str(message))
    }

    /// A `NotSupported` error with the given message.
    pub fn not_supported(message: &str) -> (e: Error)
        ensures
            e@ == ErrorView::NotSupported(message@),
    {
        Error::NotSupported(String::from_str(message))
    }

    /// A `CBQN` error that carries the interpreter's own text.
    pub fn engine(message: String) -> (e: Error)
        ensures
            e@ == ErrorView::CBQN(message@),
    {
        Error::CBQN(message)
    }

    /// The error by which a backend's failure is reported.
    pub fn from_fault(fault: Fault) -> (e: Error)
        ensures
            e@ == reported(fault@),
    {
        match fault {
            Fault::Failed(words) => if words.as_str().is_empty() {
                Error::CBQN(String::from_str("the interpreter failed"))
            } else {
                Error::CBQN(words)
            },
            Fault::NotSupported(m) => Error::NotSupported(m),
        }
    }

    /// The message carried by the error, without the kind's prefix.
    pub fn message(&self) -> (m: &str)
        ensures
            m@ == self@.message(),
    {
        match self {
            Error::CBQN(m) => m.as_str(),
            Error::InvalidType(m) => m.as_str(),
            Error::NotSupported(m) => m.as_str(),
        }
    }

    /// The text shown to a user.
    pub fn to_string(&self) -> (s: String)
        ensures
            s@ == self@.rendered(),
    {
        match self {
            Error::CBQN(m) => String::from_str("CBQN error: ").concat(m.as_str()),
            Error::InvalidType(m) => String::from_str("Invalid type: ").concat(m.as_str()),
            Error::NotSupported(m) => String::from_str(m.as_str()),
        }
    }
}

/// Hands a backend's answer on, with a failure turned into the error that
/// reports it.
pub fn lift<T>(r: Result<T, Fault>) -> (out: Result<T, Error>)
    ensures
        outcome(out) == lifted(r),
{
    match r {
        Ok(v) => Ok(v),
        Err(f) => Err(Error::from_fault(f)),
    }
}

/// No failure of a backend is reported as a value of the wrong type.
pub proof fn lemma_faults_are_no_type_errors(fault: FaultView)
    ensures
        !(reported(fault) is InvalidType),
{
}

} // verus!
