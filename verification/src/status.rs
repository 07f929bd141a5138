use vstd::prelude::*;

verus! {

/// The canonical status codes that an operation of the transport layer ends with.
#[allow(non_camel_case_types)]
#[derive(Clone, Copy, Debug, PartialEq, Eq, Hash, Structural)]
pub enum UCode {
    OK,
    CANCELLED,
    UNKNOWN,
    INVALID_ARGUMENT,
    DEADLINE_EXCEEDED,
    NOT_FOUND,
    ALREADY_EXISTS,
    PERMISSION_DENIED,
    RESOURCE_EXHAUSTED,
    FAILED_PRECONDITION,
    ABORTED,
    OUT_OF_RANGE,
    UNIMPLEMENTED,
    INTERNAL,
    UNAVAILABLE,
    DATA_LOSS,
    UNAUTHENTICATED,
}

/// The outcome of an operation: a code and, optionally, a message for humans.
#[derive(Clone, Debug, PartialEq, Eq)]
pub struct UStatus {
    pub code: UCode,
    pub message: Option<String>,
}

impl UStatus {
    /// A status with the given code and message.
    pub fn fail_with_code(code: UCode, msg: &str) -> (status: UStatus)
        ensures
            status.code == code,
            status.message matches Some(m) && m@ == msg@,
    {
        UStatus { code, message: Some(String::from_str(msg)) }
    }
}

} // verus!
