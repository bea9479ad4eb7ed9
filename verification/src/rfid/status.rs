//! The failure a remote call ends with: a status code and a message.

use vstd::prelude::*;
use vstd::string::*;

verus! {

/// The status codes of the remote procedure interface.
#[derive(Debug, Clone, Copy, PartialEq, Eq, Structural)]
pub enum Code {
    Okay,
    Cancelled,
    Unknown,
    InvalidArgument,
    DeadlineExceeded,
    NotFound,
    AlreadyExists,
    PermissionDenied,
    ResourceExhausted,
    FailedPrecondition,
    Aborted,
    OutOfRange,
    Unimplemented,
    Internal,
    Unavailable,
    DataLoss,
    Unauthenticated,
}

/// A status code with a message for a person.
#[derive(Debug, Clone, PartialEq, Eq)]
pub struct Status {
    code: Code,
    message: String,
}

/// A `Status` with its message as a character sequence.
pub struct StatusView {
    pub code: Code,
    pub message: Seq<char>,
}

impl View for Status {
    type V = StatusView;

    closed spec fn view(&self) -> StatusView {
        StatusView { code: self.code, message: self.message@ }
    }
}

impl Status {
    /// A status of the given code.
    pub fn new(code: Code, message: String) -> (s: Status)
        ensures
            s@ == (StatusView { code: code, message: message@ }),
    {
        Status { code: code, message: message }
    }

    /// A failure inside the service.
    pub fn internal(message: String) -> (s: Status)
        ensures
            s@ == (StatusView { code: Code::Internal, message: message@ }),
    {
        Status { code: Code::Internal, message: message }
    }

    /// A request the service does not accept.
    pub fn invalid_argument(message: String) -> (s: Status)
        ensures
            s@ == (StatusView { code: Code::InvalidArgument, message: message@ }),
    {
        Status { code: Code::InvalidArgument, message: message }
    }

    /// A call that its caller cancelled.
    pub fn cancelled(message: String) -> (s: Status)
        ensures
            s@ == (StatusView { code: Code::Cancelled, message: message@ }),
    {
        Status { code: Code::Cancelled, message: message }
    }

    /// A deadline that passed before the call was done.
    pub fn deadline_exceeded(message: String) -> (s: Status)
        ensures
            s@ == (StatusView { code: Code::DeadlineExceeded, message: message@ }),
    {
        Status { code: Code::DeadlineExceeded, message: message }
    }

    /// The status code.
    pub fn code(&self) -> (c: Code)
        ensures
            c == self@.code,
    {
        self.code
    }

    /// The message.
    pub fn message(&self) -> (m: &str)
        ensures
            m@ == self@.message,
    {
        self.message.as_str()
    }
}

} // verus!
