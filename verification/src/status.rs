//! gRPC status codes, and reading a `tonic::Status`.
use vstd::prelude::*;

verus! {

#[verifier::external_type_specification]
#[verifier::external_body]
pub struct ExStatus(tonic::Status);

/// A gRPC status code.
#[derive(Clone, Copy, Debug, PartialEq, Eq, Structural)]
pub enum Code {
    /// The call succeeded (gRPC `OK`).
    Success,
    Cancelled,
    Unknown,
    InvalidArgument,
    DeadlineExceeded,
    NotFound,
    AlreadyExists,
    PermissionDenied,
    ResourceExhausted,
    FailedPrecondition,
    Aborted,
    OutOfRange,
    Unimplemented,
    Internal,
    Unavailable,
    DataLoss,
    Unauthenticated,
}

/// The code a gRPC status number stands for; numbers outside `0..=16` read as `Unknown`.
pub open spec fn code_of_number(n: i32) -> Code {
    if n == 0 {
        Code::Success
    } else if n == 1 {
        Code::Cancelled
    } else if n == 2 {
        Code::Unknown
    } else if n == 3 {
        Code::InvalidArgument
    } else if n == 4 {
        Code::DeadlineExceeded
    } else if n == 5 {
        Code::NotFound
    } else if n == 6 {
        Code::AlreadyExists
    } else if n == 7 {
        Code::PermissionDenied
    } else if n == 8 {
        Code::ResourceExhausted
    } else if n == 9 {
        Code::FailedPrecondition
    } else if n == 10 {
        Code::Aborted
    } else if n == 11 {
        Code::OutOfRange
    } else if n == 12 {
        Code::Unimplemented
    } else if n == 13 {
        Code::Internal
    } else if n == 14 {
        Code::Unavailable
    } else if n == 15 {
        Code::DataLoss
    } else if n == 16 {
        Code::Unauthenticated
    } else {
        Code::Unknown
    }
}

impl Code {
    /// The code for a gRPC status number.
    pub fn from_i32(n: i32) -> (r: Code)
        ensures
            r == code_of_number(n),
    {
        if n == 0 {
            Code::Success
        } else if n == 1 {
            Code::Cancelled
        } else if n == 2 {
            Code::Unknown
        } else if n == 3 {
            Code::InvalidArgument
        } else if n == 4 {
            Code::DeadlineExceeded
        } else if n == 5 {
            Code::NotFound
        } else if n == 6 {
            Code::AlreadyExists
        } else if n == 7 {
            Code::PermissionDenied
        } else if n == 8 {
            Code::ResourceExhausted
        } else if n == 9 {
            Code::FailedPrecondition
        } else if n == 10 {
            Code::Aborted
        } else if n == 11 {
            Code::OutOfRange
        } else if n == 12 {
            Code::Unimplemented
        } else if n == 13 {
            Code::Internal
        } else if n == 14 {
            Code::Unavailable
        } else if n == 15 {
            Code::DataLoss
        } else if n == 16 {
            Code::Unauthenticated
        } else {
            Code::Unknown
        }
    }
}

/// The gRPC number of the code a status holds (`tonic::Status::code`, as `i32`).
pub uninterp spec fn status_code_of(status: tonic::Status) -> i32;

/// The text a status holds (`tonic::Status::message`).
pub uninterp spec fn status_message_of(status: tonic::Status) -> Seq<char>;

/// Whether a status carries a source error (`std::error::Error::source` of `tonic::Status`).
pub uninterp spec fn status_source_of(status: tonic::Status) -> bool;

/// The code a status holds.
pub open spec fn status_code_spec(status: tonic::Status) -> Code {
    code_of_number(status_code_of(status))
}

/// `tonic::Status::code`, as its gRPC number: the code the status holds. tonic's `Code` enum has
/// the discriminants 0 to 16 and `From<Code> for i32` returns the discriminant, so the number
/// lies in that range.
#[verifier::external_body]
fn status_code_number(status: &tonic::Status) -> (r: i32)
    ensures
        r == status_code_of(*status),
        0 <= r <= 16,
{
    i32::from(status.code())
}

/// `tonic::Status::message`: the text the status holds.
#[verifier::external_body]
fn status_message_text(status: &tonic::Status) -> (r: &str)
    ensures
        r@ == status_message_of(*status),
{
    status.message()
}

/// Whether the status carries a source error (`std::error::Error::source` of `tonic::Status`).
/// Statuses decoded from server responses carry none.
#[verifier::external_body]
fn status_source_present(status: &tonic::Status) -> (r: bool)
    ensures
        r == status_source_of(*status),
{
    std::error::Error::source(status).is_some()
}

/// The code and text of a status, and whether it carries a source error.
pub struct StatusFacts {
    pub code: Code,
    pub message: Vec<char>,
    pub has_source: bool,
}

/// The gRPC code of `status`.
pub fn status_code(status: &tonic::Status) -> (r: Code)
    ensures
        r == status_code_spec(*status),
{
    Code::from_i32(status_code_number(status))
}

/// The text of `status`.
pub fn status_message(status: &tonic::Status) -> (r: &str)
    ensures
        r@ == status_message_of(*status),
{
    status_message_text(status)
}

/// Read what the retry and classification rules look at in a status.
pub fn status_facts(status: &tonic::Status) -> (r: StatusFacts)
    ensures
        r.code == status_code_spec(*status),
        r.message@ == status_message_of(*status),
        r.has_source == status_source_of(*status),
{
    let code = status_code(status);
    let message = crate::text::chars_of(status_message_text(status));
    let has_source = status_source_present(status);
    StatusFacts { code, message, has_source }
}

/// The numbers of the gRPC status codes, as the gRPC protocol fixes them: `OK` is 0,
/// `CANCELLED` 1, `UNKNOWN` 2, `INVALID_ARGUMENT` 3, `DEADLINE_EXCEEDED` 4, `NOT_FOUND` 5,
/// `ALREADY_EXISTS` 6, `PERMISSION_DENIED` 7, `RESOURCE_EXHAUSTED` 8, `FAILED_PRECONDITION` 9,
/// `ABORTED` 10, `OUT_OF_RANGE` 11, `UNIMPLEMENTED` 12, `INTERNAL` 13, `UNAVAILABLE` 14,
/// `DATA_LOSS` 15 and `UNAUTHENTICATED` 16; any other number reads as `UNKNOWN`.
pub proof fn lemma_grpc_code_numbers(n: i32)
    ensures
        code_of_number(0) == Code::Success,
        code_of_number(1) == Code::Cancelled,
        code_of_number(2) == Code::Unknown,
        code_of_number(3) == Code::InvalidArgument,
        code_of_number(4) == Code::DeadlineExceeded,
        code_of_number(5) == Code::NotFound,
        code_of_number(6) == Code::AlreadyExists,
        code_of_number(7) == Code::PermissionDenied,
        code_of_number(8) == Code::ResourceExhausted,
        code_of_number(9) == Code::FailedPrecondition,
        code_of_number(10) == Code::Aborted,
        code_of_number(11) == Code::OutOfRange,
        code_of_number(12) == Code::Unimplemented,
        code_of_number(13) == Code::Internal,
        code_of_number(14) == Code::Unavailable,
        code_of_number(15) == Code::DataLoss,
        code_of_number(16) == Code::Unauthenticated,
        !(0 <= n <= 16) ==> code_of_number(n) == Code::Unknown,
{
}

} // verus!
