//! The status with which a signalling request is refused.

use vstd::prelude::*;

verus! {

/// gRPC status codes.
#[derive(Debug, Clone, Copy, PartialEq, Eq, Structural)]
pub enum Code {
    Success,
    Cancelled,
    Unknown,
    InvalidArgument,
    DeadlineExceeded,
    NotFound,
    AlreadyExists,
    PermissionDenied,
    ResourceExhausted,
    FailedPrecondition,
    Aborted,
    OutOfRange,
    Unimplemented,
    Internal,
    Unavailable,
    DataLoss,
    Unauthenticated,
}

/// A gRPC status: a code and a message for the caller. The details and the metadata that a status
/// may have on the wire are not kept: signalling neither sends nor reads any.
#[derive(Debug, Clone, PartialEq, Eq)]
pub struct Status {
    pub code: Code,
    pub message: String,
}

impl Status {
    /// Whether this is the status with that code and that message.
    pub open spec fn says(&self, code: Code, message: Seq<char>) -> bool {
        self.code == code && self.message@ == message
    }

    /// A status with a code and a message.
    pub fn new(code: Code, message: &str) -> (status: Self)
        ensures
            status.says(code, message@),
    {
        Status { code, message: message.to_owned() }
    }
}

} // verus!
