//! The error kinds of each operation, and how a gRPC status is classified into them.
use vstd::prelude::*;
use crate::status::{status_code_spec, status_facts, status_message_of, Code};
use crate::text::{chars_contain, chars_eq, chars_of, contains_text};

verus! {

/// The kinds of [`GetError`].
#[derive(Clone, Copy, Debug, PartialEq, Eq, Structural)]
pub enum GetErrorKind {
    CompactedRevision,
    FutureRevision,
    Authentication,
    Exhausted,
    Unavailable,
    Timeout,
    DataLoss,
    Unknown,
}

/// The kind a status with `code` and `message` is classified as.
pub open spec fn get_error_kind(code: Code, message: Seq<char>) -> GetErrorKind {
    if code == Code::Unauthenticated || code == Code::PermissionDenied || code == Code::InvalidArgument {
        GetErrorKind::Authentication
    } else if code == Code::ResourceExhausted {
        GetErrorKind::Exhausted
    } else if code == Code::OutOfRange {
        if contains_text(message, "compacted"@) {
            GetErrorKind::CompactedRevision
        } else if contains_text(message, "future"@) {
            GetErrorKind::FutureRevision
        } else {
            GetErrorKind::Unknown
        }
    } else if code == Code::Unavailable {
        GetErrorKind::Unavailable
    } else if code == Code::Cancelled || code == Code::DeadlineExceeded {
        GetErrorKind::Timeout
    } else if code == Code::DataLoss {
        GetErrorKind::DataLoss
    } else {
        GetErrorKind::Unknown
    }
}

impl GetErrorKind {
    /// Classify a status with `code` and the characters of its `message`.
    pub fn classify(code: Code, message: &Vec<char>) -> (r: Self)
        ensures
            r == get_error_kind(code, message@),
    {
        if code == Code::Unauthenticated || code == Code::PermissionDenied || code == Code::InvalidArgument {
            GetErrorKind::Authentication
        } else if code == Code::ResourceExhausted {
            GetErrorKind::Exhausted
        } else if code == Code::OutOfRange {
            if chars_contain(message, &chars_of("compacted")) {
                GetErrorKind::CompactedRevision
            } else if chars_contain(message, &chars_of("future")) {
                GetErrorKind::FutureRevision
            } else {
                GetErrorKind::Unknown
            }
        } else if code == Code::Unavailable {
            GetErrorKind::Unavailable
        } else if code == Code::Cancelled || code == Code::DeadlineExceeded {
            GetErrorKind::Timeout
        } else if code == Code::DataLoss {
            GetErrorKind::DataLoss
        } else {
            GetErrorKind::Unknown
        }
    }
}

/// An error from a get or list operation.
#[derive(Debug)]
pub struct GetError {
    kind: GetErrorKind,
    message: String,
    status: Option<tonic::Status>,
}

impl GetError {
    /// The kind of this error.
    pub closed spec fn spec_kind(&self) -> GetErrorKind {
        self.kind
    }

    /// The explicit message of this error (empty when it came from a status).
    pub closed spec fn spec_message(&self) -> Seq<char> {
        self.message@
    }

    /// The gRPC status this error came from, if any.
    pub closed spec fn spec_status(&self) -> Option<tonic::Status> {
        self.status
    }

    pub fn new(kind: GetErrorKind, message: String, status: Option<tonic::Status>) -> (r: Self)
        ensures
            r.spec_kind() == kind,
            r.spec_message() == message@,
            r.spec_status() == status,
    {
        GetError { kind, message, status }
    }

    /// The operation-specific error kind.
    pub fn kind(&self) -> (r: GetErrorKind)
        ensures
            r == self.spec_kind(),
    {
        self.kind
    }

    /// The explicit message of this error.
    pub fn message(&self) -> (r: &str)
        ensures
            r@ == self.spec_message(),
    {
        self.message.as_str()
    }

    /// The original gRPC status, if this error originated from a gRPC call.
    pub fn grpc_status(&self) -> (r: Option<&tonic::Status>)
        ensures
            r is Some <==> self.spec_status() is Some,
            r matches Some(s) ==> self.spec_status() == Some(*s),
    {
        match &self.status {
            Some(s) => Some(s),
            None => None,
        }
    }

    /// Take ownership of the original gRPC status, if present.
    pub fn take_grpc_status(self) -> (r: Option<tonic::Status>)
        ensures
            r == self.spec_status(),
    {
        self.status
    }

    /// Build the error for a failed call that returned `status`: its kind is the
    /// classification of the status code and message (see [`GetErrorKind::classify`]).
    pub fn from_status(status: tonic::Status) -> (r: Self)
        ensures
            r.spec_status() == Some(status),
            r.spec_message() == Seq::<char>::empty(),
            r.spec_kind() == get_error_kind(status_code_spec(status), status_message_of(status)),
    {
        let facts = status_facts(&status);
        let kind = GetErrorKind::classify(facts.code, &facts.message);
        GetError { kind, message: String::new(), status: Some(status) }
    }
}

/// The kinds of [`PutError`].
#[derive(Clone, Copy, Debug, PartialEq, Eq, Structural)]
pub enum PutErrorKind {
    LeaseNotFound,
    KeyNotFound,
    Authentication,
    Exhausted,
    DataLoss,
    Unavailable,
    Timeout,
    Unknown,
}

/// The kind a status with `code` and `message` is classified as.
pub open spec fn put_error_kind(code: Code, message: Seq<char>) -> PutErrorKind {
    if code == Code::NotFound {
        PutErrorKind::LeaseNotFound
    } else if code == Code::Unauthenticated || code == Code::PermissionDenied {
        PutErrorKind::Authentication
    } else if code == Code::InvalidArgument {
        if contains_text(message, "key not found"@) {
            PutErrorKind::KeyNotFound
        } else {
            PutErrorKind::Authentication
        }
    } else if code == Code::ResourceExhausted {
        PutErrorKind::Exhausted
    } else if code == Code::DataLoss {
        PutErrorKind::DataLoss
    } else if code == Code::Unavailable {
        PutErrorKind::Unavailable
    } else if code == Code::Cancelled || code == Code::DeadlineExceeded {
        PutErrorKind::Timeout
    } else {
        PutErrorKind::Unknown
    }
}

impl PutErrorKind {
    /// Classify a status with `code` and the characters of its `message`.
    pub fn classify(code: Code, message: &Vec<char>) -> (r: Self)
        ensures
            r == put_error_kind(code, message@),
    {
        if code == Code::NotFound {
            PutErrorKind::LeaseNotFound
        } else if code == Code::Unauthenticated || code == Code::PermissionDenied {
            PutErrorKind::Authentication
        } else if code == Code::InvalidArgument {
            if chars_contain(message, &chars_of("key not found")) {
                PutErrorKind::KeyNotFound
            } else {
                PutErrorKind::Authentication
            }
        } else if code == Code::ResourceExhausted {
            PutErrorKind::Exhausted
        } else if code == Code::DataLoss {
            PutErrorKind::DataLoss
        } else if code == Code::Unavailable {
            PutErrorKind::Unavailable
        } else if code == Code::Cancelled || code == Code::DeadlineExceeded {
            PutErrorKind::Timeout
        } else {
            PutErrorKind::Unknown
        }
    }
}

/// An error from a put operation.
#[derive(Debug)]
pub struct PutError {
    kind: PutErrorKind,
    message: String,
    status: Option<tonic::Status>,
}

impl PutError {
    /// The kind of this error.
    pub closed spec fn spec_kind(&self) -> PutErrorKind {
        self.kind
    }

    /// The explicit message of this error (empty when it came from a status).
    pub closed spec fn spec_message(&self) -> Seq<char> {
        self.message@
    }

    /// The gRPC status this error came from, if any.
    pub closed spec fn spec_status(&self) -> Option<tonic::Status> {
        self.status
    }

    pub fn new(kind: PutErrorKind, message: String, status: Option<tonic::Status>) -> (r: Self)
        ensures
            r.spec_kind() == kind,
            r.spec_message() == message@,
            r.spec_status() == status,
    {
        PutError { kind, message, status }
    }

    /// The operation-specific error kind.
    pub fn kind(&self) -> (r: PutErrorKind)
        ensures
            r == self.spec_kind(),
    {
        self.kind
    }

    /// The explicit message of this error.
    pub fn message(&self) -> (r: &str)
        ensures
            r@ == self.spec_message(),
    {
        self.message.as_str()
    }

    /// The original gRPC status, if this error originated from a gRPC call.
    pub fn grpc_status(&self) -> (r: Option<&tonic::Status>)
        ensures
            r is Some <==> self.spec_status() is Some,
            r matches Some(s) ==> self.spec_status() == Some(*s),
    {
        match &self.status {
            Some(s) => Some(s),
            None => None,
        }
    }

    /// Take ownership of the original gRPC status, if present.
    pub fn take_grpc_status(self) -> (r: Option<tonic::Status>)
        ensures
            r == self.spec_status(),
    {
        self.status
    }

    /// Build the error for a failed call that returned `status`: its kind is the
    /// classification of the status code and message (see [`PutErrorKind::classify`]).
    pub fn from_status(status: tonic::Status) -> (r: Self)
        ensures
            r.spec_status() == Some(status),
            r.spec_message() == Seq::<char>::empty(),
            r.spec_kind() == put_error_kind(status_code_spec(status), status_message_of(status)),
    {
        let facts = status_facts(&status);
        let kind = PutErrorKind::classify(facts.code, &facts.message);
        PutError { kind, message: String::new(), status: Some(status) }
    }
}

/// The kinds of [`DeleteError`].
#[derive(Clone, Copy, Debug, PartialEq, Eq, Structural)]
pub enum DeleteErrorKind {
    Transport,
}

/// The kind a status with `code` and `message` is classified as.
pub open spec fn delete_error_kind(code: Code, message: Seq<char>) -> DeleteErrorKind {
    DeleteErrorKind::Transport
}

impl DeleteErrorKind {
    /// Classify a status with `code` and the characters of its `message`.
    pub fn classify(code: Code, message: &Vec<char>) -> (r: Self)
        ensures
            r == delete_error_kind(code, message@),
    {
        DeleteErrorKind::Transport
    }
}

/// An error from a delete operation.
#[derive(Debug)]
pub struct DeleteError {
    kind: DeleteErrorKind,
    message: String,
    status: Option<tonic::Status>,
}

impl DeleteError {
    /// The kind of this error.
    pub closed spec fn spec_kind(&self) -> DeleteErrorKind {
        self.kind
    }

    /// The explicit message of this error (empty when it came from a status).
    pub closed spec fn spec_message(&self) -> Seq<char> {
        self.message@
    }

    /// The gRPC status this error came from, if any.
    pub closed spec fn spec_status(&self) -> Option<tonic::Status> {
        self.status
    }

    pub fn new(kind: DeleteErrorKind, message: String, status: Option<tonic::Status>) -> (r: Self)
        ensures
            r.spec_kind() == kind,
            r.spec_message() == message@,
            r.spec_status() == status,
    {
        DeleteError { kind, message, status }
    }

    /// The operation-specific error kind.
    pub fn kind(&self) -> (r: DeleteErrorKind)
        ensures
            r == self.spec_kind(),
    {
        self.kind
    }

    /// The explicit message of this error.
    pub fn message(&self) -> (r: &str)
        ensures
            r@ == self.spec_message(),
    {
        self.message.as_str()
    }

    /// The original gRPC status, if this error originated from a gRPC call.
    pub fn grpc_status(&self) -> (r: Option<&tonic::Status>)
        ensures
            r is Some <==> self.spec_status() is Some,
            r matches Some(s) ==> self.spec_status() == Some(*s),
    {
        match &self.status {
            Some(s) => Some(s),
            None => None,
        }
    }

    /// Take ownership of the original gRPC status, if present.
    pub fn take_grpc_status(self) -> (r: Option<tonic::Status>)
        ensures
            r == self.spec_status(),
    {
        self.status
    }

    /// Build the error for a failed call that returned `status`: its kind is the
    /// classification of the status code and message (see [`DeleteErrorKind::classify`]).
    pub fn from_status(status: tonic::Status) -> (r: Self)
        ensures
            r.spec_status() == Some(status),
            r.spec_message() == Seq::<char>::empty(),
            r.spec_kind() == delete_error_kind(status_code_spec(status), status_message_of(status)),
    {
        let facts = status_facts(&status);
        let kind = DeleteErrorKind::classify(facts.code, &facts.message);
        DeleteError { kind, message: String::new(), status: Some(status) }
    }
}

/// The kinds of [`TransactionError`].
#[derive(Clone, Copy, Debug, PartialEq, Eq, Structural)]
pub enum TransactionErrorKind {
    InvalidArgument,
    CompactedRevision,
    FutureRevision,
    LeaseNotFound,
    Authentication,
    Exhausted,
    DataLoss,
    Unavailable,
    Timeout,
    Unknown,
}

/// The kind a status with `code` and `message` is classified as.
pub open spec fn transaction_error_kind(code: Code, message: Seq<char>) -> TransactionErrorKind {
    if code == Code::InvalidArgument {
        TransactionErrorKind::InvalidArgument
    } else if code == Code::NotFound {
        TransactionErrorKind::LeaseNotFound
    } else if code == Code::Unauthenticated || code == Code::PermissionDenied {
        TransactionErrorKind::Authentication
    } else if code == Code::OutOfRange {
        if contains_text(message, "compacted"@) {
            TransactionErrorKind::CompactedRevision
        } else if contains_text(message, "future"@) {
            TransactionErrorKind::FutureRevision
        } else {
            TransactionErrorKind::Unknown
        }
    } else if code == Code::ResourceExhausted {
        TransactionErrorKind::Exhausted
    } else if code == Code::DataLoss {
        TransactionErrorKind::DataLoss
    } else if code == Code::Unavailable {
        TransactionErrorKind::Unavailable
    } else if code == Code::Cancelled || code == Code::DeadlineExceeded {
        TransactionErrorKind::Timeout
    } else {
        TransactionErrorKind::Unknown
    }
}

impl TransactionErrorKind {
    /// Classify a status with `code` and the characters of its `message`.
    pub fn classify(code: Code, message: &Vec<char>) -> (r: Self)
        ensures
            r == transaction_error_kind(code, message@),
    {
        if code == Code::InvalidArgument {
            TransactionErrorKind::InvalidArgument
        } else if code == Code::NotFound {
            TransactionErrorKind::LeaseNotFound
        } else if code == Code::Unauthenticated || code == Code::PermissionDenied {
            TransactionErrorKind::Authentication
        } else if code == Code::OutOfRange {
            if chars_contain(message, &chars_of("compacted")) {
                TransactionErrorKind::CompactedRevision
            } else if chars_contain(message, &chars_of("future")) {
                TransactionErrorKind::FutureRevision
            } else {
                TransactionErrorKind::Unknown
            }
        } else if code == Code::ResourceExhausted {
            TransactionErrorKind::Exhausted
        } else if code == Code::DataLoss {
            TransactionErrorKind::DataLoss
        } else if code == Code::Unavailable {
            TransactionErrorKind::Unavailable
        } else if code == Code::Cancelled || code == Code::DeadlineExceeded {
            TransactionErrorKind::Timeout
        } else {
            TransactionErrorKind::Unknown
        }
    }
}

/// An error from a transaction commit.
#[derive(Debug)]
pub struct TransactionError {
    kind: TransactionErrorKind,
    message: String,
    status: Option<tonic::Status>,
}

impl TransactionError {
    /// The kind of this error.
    pub closed spec fn spec_kind(&self) -> TransactionErrorKind {
        self.kind
    }

    /// The explicit message of this error (empty when it came from a status).
    pub closed spec fn spec_message(&self) -> Seq<char> {
        self.message@
    }

    /// The gRPC status this error came from, if any.
    pub closed spec fn spec_status(&self) -> Option<tonic::Status> {
        self.status
    }

    pub fn new(kind: TransactionErrorKind, message: String, status: Option<tonic::Status>) -> (r: Self)
        ensures
            r.spec_kind() == kind,
            r.spec_message() == message@,
            r.spec_status() == status,
    {
        TransactionError { kind, message, status }
    }

    /// The operation-specific error kind.
    pub fn kind(&self) -> (r: TransactionErrorKind)
        ensures
            r == self.spec_kind(),
    {
        self.kind
    }

    /// The explicit message of this error.
    pub fn message(&self) -> (r: &str)
        ensures
            r@ == self.spec_message(),
    {
        self.message.as_str()
    }

    /// The original gRPC status, if this error originated from a gRPC call.
    pub fn grpc_status(&self) -> (r: Option<&tonic::Status>)
        ensures
            r is Some <==> self.spec_status() is Some,
            r matches Some(s) ==> self.spec_status() == Some(*s),
    {
        match &self.status {
            Some(s) => Some(s),
            None => None,
        }
    }

    /// Take ownership of the original gRPC status, if present.
    pub fn take_grpc_status(self) -> (r: Option<tonic::Status>)
        ensures
            r == self.spec_status(),
    {
        self.status
    }

    /// Build the error for a failed call that returned `status`: its kind is the
    /// classification of the status code and message (see [`TransactionErrorKind::classify`]).
    pub fn from_status(status: tonic::Status) -> (r: Self)
        ensures
            r.spec_status() == Some(status),
            r.spec_message() == Seq::<char>::empty(),
            r.spec_kind() == transaction_error_kind(status_code_spec(status), status_message_of(status)),
    {
        let facts = status_facts(&status);
        let kind = TransactionErrorKind::classify(facts.code, &facts.message);
        TransactionError { kind, message: String::new(), status: Some(status) }
    }
}

/// The kinds of [`GrantLeaseError`].
#[derive(Clone, Copy, Debug, PartialEq, Eq, Structural)]
pub enum GrantLeaseErrorKind {
    LeaseExists,
    TtlTooLarge,
    Authentication,
    Exhausted,
    DataLoss,
    Unavailable,
    Timeout,
    Unknown,
}

/// The kind a status with `code` and `message` is classified as.
pub open spec fn grant_lease_error_kind(code: Code, message: Seq<char>) -> GrantLeaseErrorKind {
    if code == Code::Unauthenticated || code == Code::PermissionDenied || code == Code::InvalidArgument {
        GrantLeaseErrorKind::Authentication
    } else if code == Code::ResourceExhausted {
        GrantLeaseErrorKind::Exhausted
    } else if code == Code::OutOfRange {
        GrantLeaseErrorKind::TtlTooLarge
    } else if code == Code::FailedPrecondition {
        if contains_text(message, "already exists"@) {
            GrantLeaseErrorKind::LeaseExists
        } else {
            GrantLeaseErrorKind::Unknown
        }
    } else if code == Code::DataLoss {
        GrantLeaseErrorKind::DataLoss
    } else if code == Code::Unavailable {
        GrantLeaseErrorKind::Unavailable
    } else if code == Code::Cancelled || code == Code::DeadlineExceeded {
        GrantLeaseErrorKind::Timeout
    } else {
        GrantLeaseErrorKind::Unknown
    }
}

impl GrantLeaseErrorKind {
    /// Classify a status with `code` and the characters of its `message`.
    pub fn classify(code: Code, message: &Vec<char>) -> (r: Self)
        ensures
            r == grant_lease_error_kind(code, message@),
    {
        if code == Code::Unauthenticated || code == Code::PermissionDenied || code == Code::InvalidArgument {
            GrantLeaseErrorKind::Authentication
        } else if code == Code::ResourceExhausted {
            GrantLeaseErrorKind::Exhausted
        } else if code == Code::OutOfRange {
            GrantLeaseErrorKind::TtlTooLarge
        } else if code == Code::FailedPrecondition {
            if chars_contain(message, &chars_of("already exists")) {
                GrantLeaseErrorKind::LeaseExists
            } else {
                GrantLeaseErrorKind::Unknown
            }
        } else if code == Code::DataLoss {
            GrantLeaseErrorKind::DataLoss
        } else if code == Code::Unavailable {
            GrantLeaseErrorKind::Unavailable
        } else if code == Code::Cancelled || code == Code::DeadlineExceeded {
            GrantLeaseErrorKind::Timeout
        } else {
            GrantLeaseErrorKind::Unknown
        }
    }
}

/// An error from a lease grant.
#[derive(Debug)]
pub struct GrantLeaseError {
    kind: GrantLeaseErrorKind,
    message: String,
    status: Option<tonic::Status>,
}

impl GrantLeaseError {
    /// The kind of this error.
    pub closed spec fn spec_kind(&self) -> GrantLeaseErrorKind {
        self.kind
    }

    /// The explicit message of this error (empty when it came from a status).
    pub closed spec fn spec_message(&self) -> Seq<char> {
        self.message@
    }

    /// The gRPC status this error came from, if any.
    pub closed spec fn spec_status(&self) -> Option<tonic::Status> {
        self.status
    }

    pub fn new(kind: GrantLeaseErrorKind, message: String, status: Option<tonic::Status>) -> (r: Self)
        ensures
            r.spec_kind() == kind,
            r.spec_message() == message@,
            r.spec_status() == status,
    {
        GrantLeaseError { kind, message, status }
    }

    /// The operation-specific error kind.
    pub fn kind(&self) -> (r: GrantLeaseErrorKind)
        ensures
            r == self.spec_kind(),
    {
        self.kind
    }

    /// The explicit message of this error.
    pub fn message(&self) -> (r: &str)
        ensures
            r@ == self.spec_message(),
    {
        self.message.as_str()
    }

    /// The original gRPC status, if this error originated from a gRPC call.
    pub fn grpc_status(&self) -> (r: Option<&tonic::Status>)
        ensures
            r is Some <==> self.spec_status() is Some,
            r matches Some(s) ==> self.spec_status() == Some(*s),
    {
        match &self.status {
            Some(s) => Some(s),
            None => None,
        }
    }

    /// Take ownership of the original gRPC status, if present.
    pub fn take_grpc_status(self) -> (r: Option<tonic::Status>)
        ensures
            r == self.spec_status(),
    {
        self.status
    }

    /// Build the error for a failed call that returned `status`: its kind is the
    /// classification of the status code and message (see [`GrantLeaseErrorKind::classify`]).
    pub fn from_status(status: tonic::Status) -> (r: Self)
        ensures
            r.spec_status() == Some(status),
            r.spec_message() == Seq::<char>::empty(),
            r.spec_kind() == grant_lease_error_kind(status_code_spec(status), status_message_of(status)),
    {
        let facts = status_facts(&status);
        let kind = GrantLeaseErrorKind::classify(facts.code, &facts.message);
        GrantLeaseError { kind, message: String::new(), status: Some(status) }
    }
}

/// The kinds of [`RevokeLeaseError`].
#[derive(Clone, Copy, Debug, PartialEq, Eq, Structural)]
pub enum RevokeLeaseErrorKind {
    NotFound,
    Authentication,
    Exhausted,
    DataLoss,
    Unavailable,
    Timeout,
    Unknown,
}

/// The kind a status with `code` and `message` is classified as.
pub open spec fn revoke_lease_error_kind(code: Code, message: Seq<char>) -> RevokeLeaseErrorKind {
    if code == Code::NotFound {
        RevokeLeaseErrorKind::NotFound
    } else if code == Code::Unauthenticated || code == Code::PermissionDenied || code == Code::InvalidArgument {
        RevokeLeaseErrorKind::Authentication
    } else if code == Code::ResourceExhausted {
        RevokeLeaseErrorKind::Exhausted
    } else if code == Code::DataLoss {
        RevokeLeaseErrorKind::DataLoss
    } else if code == Code::Unavailable {
        RevokeLeaseErrorKind::Unavailable
    } else if code == Code::Cancelled || code == Code::DeadlineExceeded {
        RevokeLeaseErrorKind::Timeout
    } else {
        RevokeLeaseErrorKind::Unknown
    }
}

impl RevokeLeaseErrorKind {
    /// Classify a status with `code` and the characters of its `message`.
    pub fn classify(code: Code, message: &Vec<char>) -> (r: Self)
        ensures
            r == revoke_lease_error_kind(code, message@),
    {
        if code == Code::NotFound {
            RevokeLeaseErrorKind::NotFound
        } else if code == Code::Unauthenticated || code == Code::PermissionDenied || code == Code::InvalidArgument {
            RevokeLeaseErrorKind::Authentication
        } else if code == Code::ResourceExhausted {
            RevokeLeaseErrorKind::Exhausted
        } else if code == Code::DataLoss {
            RevokeLeaseErrorKind::DataLoss
        } else if code == Code::Unavailable {
            RevokeLeaseErrorKind::Unavailable
        } else if code == Code::Cancelled || code == Code::DeadlineExceeded {
            RevokeLeaseErrorKind::Timeout
        } else {
            RevokeLeaseErrorKind::Unknown
        }
    }
}

/// An error from a lease revocation.
#[derive(Debug)]
pub struct RevokeLeaseError {
    kind: RevokeLeaseErrorKind,
    message: String,
    status: Option<tonic::Status>,
}

impl RevokeLeaseError {
    /// The kind of this error.
    pub closed spec fn spec_kind(&self) -> RevokeLeaseErrorKind {
        self.kind
    }

    /// The explicit message of this error (empty when it came from a status).
    pub closed spec fn spec_message(&self) -> Seq<char> {
        self.message@
    }

    /// The gRPC status this error came from, if any.
    pub closed spec fn spec_status(&self) -> Option<tonic::Status> {
        self.status
    }

    pub fn new(kind: RevokeLeaseErrorKind, message: String, status: Option<tonic::Status>) -> (r: Self)
        ensures
            r.spec_kind() == kind,
            r.spec_message() == message@,
            r.spec_status() == status,
    {
        RevokeLeaseError { kind, message, status }
    }

    /// The operation-specific error kind.
    pub fn kind(&self) -> (r: RevokeLeaseErrorKind)
        ensures
            r == self.spec_kind(),
    {
        self.kind
    }

    /// The explicit message of this error.
    pub fn message(&self) -> (r: &str)
        ensures
            r@ == self.spec_message(),
    {
        self.message.as_str()
    }

    /// The original gRPC status, if this error originated from a gRPC call.
    pub fn grpc_status(&self) -> (r: Option<&tonic::Status>)
        ensures
            r is Some <==> self.spec_status() is Some,
            r matches Some(s) ==> self.spec_status() == Some(*s),
    {
        match &self.status {
            Some(s) => Some(s),
            None => None,
        }
    }

    /// Take ownership of the original gRPC status, if present.
    pub fn take_grpc_status(self) -> (r: Option<tonic::Status>)
        ensures
            r == self.spec_status(),
    {
        self.status
    }

    /// Build the error for a failed call that returned `status`: its kind is the
    /// classification of the status code and message (see [`RevokeLeaseErrorKind::classify`]).
    pub fn from_status(status: tonic::Status) -> (r: Self)
        ensures
            r.spec_status() == Some(status),
            r.spec_message() == Seq::<char>::empty(),
            r.spec_kind() == revoke_lease_error_kind(status_code_spec(status), status_message_of(status)),
    {
        let facts = status_facts(&status);
        let kind = RevokeLeaseErrorKind::classify(facts.code, &facts.message);
        RevokeLeaseError { kind, message: String::new(), status: Some(status) }
    }
}

/// The kinds of [`CompactError`].
#[derive(Clone, Copy, Debug, PartialEq, Eq, Structural)]
pub enum CompactErrorKind {
    CompactedRevision,
    FutureRevision,
    Authentication,
    Exhausted,
    DataLoss,
    Unavailable,
    Timeout,
    Unknown,
}

/// The kind a status with `code` and `message` is classified as.
pub open spec fn compact_error_kind(code: Code, message: Seq<char>) -> CompactErrorKind {
    if code == Code::Unauthenticated || code == Code::PermissionDenied || code == Code::InvalidArgument {
        CompactErrorKind::Authentication
    } else if code == Code::ResourceExhausted {
        CompactErrorKind::Exhausted
    } else if code == Code::OutOfRange {
        if contains_text(message, "compacted"@) {
            CompactErrorKind::CompactedRevision
        } else if contains_text(message, "future"@) {
            CompactErrorKind::FutureRevision
        } else {
            CompactErrorKind::Unknown
        }
    } else if code == Code::DataLoss {
        CompactErrorKind::DataLoss
    } else if code == Code::Unavailable {
        CompactErrorKind::Unavailable
    } else if code == Code::Cancelled || code == Code::DeadlineExceeded {
        CompactErrorKind::Timeout
    } else {
        CompactErrorKind::Unknown
    }
}

impl CompactErrorKind {
    /// Classify a status with `code` and the characters of its `message`.
    pub fn classify(code: Code, message: &Vec<char>) -> (r: Self)
        ensures
            r == compact_error_kind(code, message@),
    {
        if code == Code::Unauthenticated || code == Code::PermissionDenied || code == Code::InvalidArgument {
            CompactErrorKind::Authentication
        } else if code == Code::ResourceExhausted {
            CompactErrorKind::Exhausted
        } else if code == Code::OutOfRange {
            if chars_contain(message, &chars_of("compacted")) {
                CompactErrorKind::CompactedRevision
            } else if chars_contain(message, &chars_of("future")) {
                CompactErrorKind::FutureRevision
            } else {
                CompactErrorKind::Unknown
            }
        } else if code == Code::DataLoss {
            CompactErrorKind::DataLoss
        } else if code == Code::Unavailable {
            CompactErrorKind::Unavailable
        } else if code == Code::Cancelled || code == Code::DeadlineExceeded {
            CompactErrorKind::Timeout
        } else {
            CompactErrorKind::Unknown
        }
    }
}

/// An error from a compaction.
#[derive(Debug)]
pub struct CompactError {
    kind: CompactErrorKind,
    message: String,
    status: Option<tonic::Status>,
}

impl CompactError {
    /// The kind of this error.
    pub closed spec fn spec_kind(&self) -> CompactErrorKind {
        self.kind
    }

    /// The explicit message of this error (empty when it came from a status).
    pub closed spec fn spec_message(&self) -> Seq<char> {
        self.message@
    }

    /// The gRPC status this error came from, if any.
    pub closed spec fn spec_status(&self) -> Option<tonic::Status> {
        self.status
    }

    pub fn new(kind: CompactErrorKind, message: String, status: Option<tonic::Status>) -> (r: Self)
        ensures
            r.spec_kind() == kind,
            r.spec_message() == message@,
            r.spec_status() == status,
    {
        CompactError { kind, message, status }
    }

    /// The operation-specific error kind.
    pub fn kind(&self) -> (r: CompactErrorKind)
        ensures
            r == self.spec_kind(),
    {
        self.kind
    }

    /// The explicit message of this error.
    pub fn message(&self) -> (r: &str)
        ensures
            r@ == self.spec_message(),
    {
        self.message.as_str()
    }

    /// The original gRPC status, if this error originated from a gRPC call.
    pub fn grpc_status(&self) -> (r: Option<&tonic::Status>)
        ensures
            r is Some <==> self.spec_status() is Some,
            r matches Some(s) ==> self.spec_status() == Some(*s),
    {
        match &self.status {
            Some(s) => Some(s),
            None => None,
        }
    }

    /// Take ownership of the original gRPC status, if present.
    pub fn take_grpc_status(self) -> (r: Option<tonic::Status>)
        ensures
            r == self.spec_status(),
    {
        self.status
    }

    /// Build the error for a failed call that returned `status`: its kind is the
    /// classification of the status code and message (see [`CompactErrorKind::classify`]).
    pub fn from_status(status: tonic::Status) -> (r: Self)
        ensures
            r.spec_status() == Some(status),
            r.spec_message() == Seq::<char>::empty(),
            r.spec_kind() == compact_error_kind(status_code_spec(status), status_message_of(status)),
    {
        let facts = status_facts(&status);
        let kind = CompactErrorKind::classify(facts.code, &facts.message);
        CompactError { kind, message: String::new(), status: Some(status) }
    }
}

/// The kinds of [`AuthError`].
#[derive(Clone, Copy, Debug, PartialEq, Eq, Structural)]
pub enum AuthErrorKind {
    AlreadyEnabled,
    NotEnabled,
    RootUserRequired,
    InvalidCredentials,
    Exhausted,
    Unavailable,
    Timeout,
    Unknown,
}

/// The kind a status with `code` and `message` is classified as.
pub open spec fn auth_error_kind(code: Code, message: Seq<char>) -> AuthErrorKind {
    if code == Code::FailedPrecondition {
        if contains_text(message, "already enabled"@) {
            AuthErrorKind::AlreadyEnabled
        } else if contains_text(message, "not enabled"@) {
            AuthErrorKind::NotEnabled
        } else if contains_text(message, "root user"@) {
            AuthErrorKind::RootUserRequired
        } else {
            AuthErrorKind::Unknown
        }
    } else if code == Code::Unauthenticated || code == Code::PermissionDenied || code == Code::InvalidArgument {
        AuthErrorKind::InvalidCredentials
    } else if code == Code::ResourceExhausted {
        AuthErrorKind::Exhausted
    } else if code == Code::Unavailable {
        AuthErrorKind::Unavailable
    } else if code == Code::Cancelled || code == Code::DeadlineExceeded {
        AuthErrorKind::Timeout
    } else {
        AuthErrorKind::Unknown
    }
}

impl AuthErrorKind {
    /// Classify a status with `code` and the characters of its `message`.
    pub fn classify(code: Code, message: &Vec<char>) -> (r: Self)
        ensures
            r == auth_error_kind(code, message@),
    {
        if code == Code::FailedPrecondition {
            if chars_contain(message, &chars_of("already enabled")) {
                AuthErrorKind::AlreadyEnabled
            } else if chars_contain(message, &chars_of("not enabled")) {
                AuthErrorKind::NotEnabled
            } else if chars_contain(message, &chars_of("root user")) {
                AuthErrorKind::RootUserRequired
            } else {
                AuthErrorKind::Unknown
            }
        } else if code == Code::Unauthenticated || code == Code::PermissionDenied || code == Code::InvalidArgument {
            AuthErrorKind::InvalidCredentials
        } else if code == Code::ResourceExhausted {
            AuthErrorKind::Exhausted
        } else if code == Code::Unavailable {
            AuthErrorKind::Unavailable
        } else if code == Code::Cancelled || code == Code::DeadlineExceeded {
            AuthErrorKind::Timeout
        } else {
            AuthErrorKind::Unknown
        }
    }
}

/// An error from an auth control operation.
#[derive(Debug)]
pub struct AuthError {
    kind: AuthErrorKind,
    message: String,
    status: Option<tonic::Status>,
}

impl AuthError {
    /// The kind of this error.
    pub closed spec fn spec_kind(&self) -> AuthErrorKind {
        self.kind
    }

    /// The explicit message of this error (empty when it came from a status).
    pub closed spec fn spec_message(&self) -> Seq<char> {
        self.message@
    }

    /// The gRPC status this error came from, if any.
    pub closed spec fn spec_status(&self) -> Option<tonic::Status> {
        self.status
    }

    pub fn new(kind: AuthErrorKind, message: String, status: Option<tonic::Status>) -> (r: Self)
        ensures
            r.spec_kind() == kind,
            r.spec_message() == message@,
            r.spec_status() == status,
    {
        AuthError { kind, message, status }
    }

    /// The error of authenticating a client that was built without credentials.
    pub fn no_credentials() -> (r: Self)
        ensures
            r.spec_kind() == AuthErrorKind::InvalidCredentials,
            r.spec_message() == "no credentials configured on client"@,
            r.spec_status() is None,
    {
        AuthError::new(AuthErrorKind::InvalidCredentials, "no credentials configured on client".to_owned(), None)
    }

    /// The operation-specific error kind.
    pub fn kind(&self) -> (r: AuthErrorKind)
        ensures
            r == self.spec_kind(),
    {
        self.kind
    }

    /// The explicit message of this error.
    pub fn message(&self) -> (r: &str)
        ensures
            r@ == self.spec_message(),
    {
        self.message.as_str()
    }

    /// The original gRPC status, if this error originated from a gRPC call.
    pub fn grpc_status(&self) -> (r: Option<&tonic::Status>)
        ensures
            r is Some <==> self.spec_status() is Some,
            r matches Some(s) ==> self.spec_status() == Some(*s),
    {
        match &self.status {
            Some(s) => Some(s),
            None => None,
        }
    }

    /// Take ownership of the original gRPC status, if present.
    pub fn take_grpc_status(self) -> (r: Option<tonic::Status>)
        ensures
            r == self.spec_status(),
    {
        self.status
    }

    /// Build the error for a failed call that returned `status`: its kind is the
    /// classification of the status code and message (see [`AuthErrorKind::classify`]).
    pub fn from_status(status: tonic::Status) -> (r: Self)
        ensures
            r.spec_status() == Some(status),
            r.spec_message() == Seq::<char>::empty(),
            r.spec_kind() == auth_error_kind(status_code_spec(status), status_message_of(status)),
    {
        let facts = status_facts(&status);
        let kind = AuthErrorKind::classify(facts.code, &facts.message);
        AuthError { kind, message: String::new(), status: Some(status) }
    }
}

/// The kinds of [`UserError`].
#[derive(Clone, Copy, Debug, PartialEq, Eq, Structural)]
pub enum UserErrorKind {
    UserAlreadyExists,
    UserNotFound,
    RoleNotFound,
    AuthNotEnabled,
    Authentication,
    Exhausted,
    Unavailable,
    Timeout,
    Unknown,
}

/// The kind a status with `code` and `message` is classified as.
pub open spec fn user_error_kind(code: Code, message: Seq<char>) -> UserErrorKind {
    if code == Code::FailedPrecondition {
        if contains_text(message, "already exists"@) {
            UserErrorKind::UserAlreadyExists
        } else if contains_text(message, "user name not found"@) {
            UserErrorKind::UserNotFound
        } else if contains_text(message, "role name not found"@) {
            UserErrorKind::RoleNotFound
        } else if contains_text(message, "not enabled"@) {
            UserErrorKind::AuthNotEnabled
        } else {
            UserErrorKind::Unknown
        }
    } else if code == Code::Unauthenticated || code == Code::PermissionDenied || code == Code::InvalidArgument {
        UserErrorKind::Authentication
    } else if code == Code::ResourceExhausted {
        UserErrorKind::Exhausted
    } else if code == Code::Unavailable {
        UserErrorKind::Unavailable
    } else if code == Code::Cancelled || code == Code::DeadlineExceeded {
        UserErrorKind::Timeout
    } else {
        UserErrorKind::Unknown
    }
}

impl UserErrorKind {
    /// Classify a status with `code` and the characters of its `message`.
    pub fn classify(code: Code, message: &Vec<char>) -> (r: Self)
        ensures
            r == user_error_kind(code, message@),
    {
        if code == Code::FailedPrecondition {
            if chars_contain(message, &chars_of("already exists")) {
                UserErrorKind::UserAlreadyExists
            } else if chars_contain(message, &chars_of("user name not found")) {
                UserErrorKind::UserNotFound
            } else if chars_contain(message, &chars_of("role name not found")) {
                UserErrorKind::RoleNotFound
            } else if chars_contain(message, &chars_of("not enabled")) {
                UserErrorKind::AuthNotEnabled
            } else {
                UserErrorKind::Unknown
            }
        } else if code == Code::Unauthenticated || code == Code::PermissionDenied || code == Code::InvalidArgument {
            UserErrorKind::Authentication
        } else if code == Code::ResourceExhausted {
            UserErrorKind::Exhausted
        } else if code == Code::Unavailable {
            UserErrorKind::Unavailable
        } else if code == Code::Cancelled || code == Code::DeadlineExceeded {
            UserErrorKind::Timeout
        } else {
            UserErrorKind::Unknown
        }
    }
}

/// An error from a user management operation.
#[derive(Debug)]
pub struct UserError {
    kind: UserErrorKind,
    message: String,
    status: Option<tonic::Status>,
}

impl UserError {
    /// The kind of this error.
    pub closed spec fn spec_kind(&self) -> UserErrorKind {
        self.kind
    }

    /// The explicit message of this error (empty when it came from a status).
    pub closed spec fn spec_message(&self) -> Seq<char> {
        self.message@
    }

    /// The gRPC status this error came from, if any.
    pub closed spec fn spec_status(&self) -> Option<tonic::Status> {
        self.status
    }

    pub fn new(kind: UserErrorKind, message: String, status: Option<tonic::Status>) -> (r: Self)
        ensures
            r.spec_kind() == kind,
            r.spec_message() == message@,
            r.spec_status() == status,
    {
        UserError { kind, message, status }
    }

    /// The operation-specific error kind.
    pub fn kind(&self) -> (r: UserErrorKind)
        ensures
            r == self.spec_kind(),
    {
        self.kind
    }

    /// The explicit message of this error.
    pub fn message(&self) -> (r: &str)
        ensures
            r@ == self.spec_message(),
    {
        self.message.as_str()
    }

    /// The original gRPC status, if this error originated from a gRPC call.
    pub fn grpc_status(&self) -> (r: Option<&tonic::Status>)
        ensures
            r is Some <==> self.spec_status() is Some,
            r matches Some(s) ==> self.spec_status() == Some(*s),
    {
        match &self.status {
            Some(s) => Some(s),
            None => None,
        }
    }

    /// Take ownership of the original gRPC status, if present.
    pub fn take_grpc_status(self) -> (r: Option<tonic::Status>)
        ensures
            r == self.spec_status(),
    {
        self.status
    }

    /// Build the error for a failed call that returned `status`: its kind is the
    /// classification of the status code and message (see [`UserErrorKind::classify`]).
    pub fn from_status(status: tonic::Status) -> (r: Self)
        ensures
            r.spec_status() == Some(status),
            r.spec_message() == Seq::<char>::empty(),
            r.spec_kind() == user_error_kind(status_code_spec(status), status_message_of(status)),
    {
        let facts = status_facts(&status);
        let kind = UserErrorKind::classify(facts.code, &facts.message);
        UserError { kind, message: String::new(), status: Some(status) }
    }
}

/// The kinds of [`RoleError`].
#[derive(Clone, Copy, Debug, PartialEq, Eq, Structural)]
pub enum RoleErrorKind {
    RoleAlreadyExists,
    RoleNotFound,
    PermissionNotGranted,
    InvalidAuthManagement,
    AuthNotEnabled,
    Authentication,
    Exhausted,
    Unavailable,
    Timeout,
    Unknown,
}

/// The kind a status with `code` and `message` is classified as.
pub open spec fn role_error_kind(code: Code, message: Seq<char>) -> RoleErrorKind {
    if code == Code::FailedPrecondition {
        if contains_text(message, "already exists"@) {
            RoleErrorKind::RoleAlreadyExists
        } else if contains_text(message, "role name not found"@) {
            RoleErrorKind::RoleNotFound
        } else if contains_text(message, "not granted"@) {
            RoleErrorKind::PermissionNotGranted
        } else if contains_text(message, "not enabled"@) {
            RoleErrorKind::AuthNotEnabled
        } else {
            RoleErrorKind::Unknown
        }
    } else if code == Code::Unauthenticated || code == Code::PermissionDenied {
        RoleErrorKind::Authentication
    } else if code == Code::InvalidArgument {
        if contains_text(message, "invalid auth management"@) {
            RoleErrorKind::InvalidAuthManagement
        } else {
            RoleErrorKind::Authentication
        }
    } else if code == Code::ResourceExhausted {
        RoleErrorKind::Exhausted
    } else if code == Code::Unavailable {
        RoleErrorKind::Unavailable
    } else if code == Code::Cancelled || code == Code::DeadlineExceeded {
        RoleErrorKind::Timeout
    } else {
        RoleErrorKind::Unknown
    }
}

impl RoleErrorKind {
    /// Classify a status with `code` and the characters of its `message`.
    pub fn classify(code: Code, message: &Vec<char>) -> (r: Self)
        ensures
            r == role_error_kind(code, message@),
    {
        if code == Code::FailedPrecondition {
            if chars_contain(message, &chars_of("already exists")) {
                RoleErrorKind::RoleAlreadyExists
            } else if chars_contain(message, &chars_of("role name not found")) {
                RoleErrorKind::RoleNotFound
            } else if chars_contain(message, &chars_of("not granted")) {
                RoleErrorKind::PermissionNotGranted
            } else if chars_contain(message, &chars_of("not enabled")) {
                RoleErrorKind::AuthNotEnabled
            } else {
                RoleErrorKind::Unknown
            }
        } else if code == Code::Unauthenticated || code == Code::PermissionDenied {
            RoleErrorKind::Authentication
        } else if code == Code::InvalidArgument {
            if chars_contain(message, &chars_of("invalid auth management")) {
                RoleErrorKind::InvalidAuthManagement
            } else {
                RoleErrorKind::Authentication
            }
        } else if code == Code::ResourceExhausted {
            RoleErrorKind::Exhausted
        } else if code == Code::Unavailable {
            RoleErrorKind::Unavailable
        } else if code == Code::Cancelled || code == Code::DeadlineExceeded {
            RoleErrorKind::Timeout
        } else {
            RoleErrorKind::Unknown
        }
    }
}

/// An error from a role management operation.
#[derive(Debug)]
pub struct RoleError {
    kind: RoleErrorKind,
    message: String,
    status: Option<tonic::Status>,
}

impl RoleError {
    /// The kind of this error.
    pub closed spec fn spec_kind(&self) -> RoleErrorKind {
        self.kind
    }

    /// The explicit message of this error (empty when it came from a status).
    pub closed spec fn spec_message(&self) -> Seq<char> {
        self.message@
    }

    /// The gRPC status this error came from, if any.
    pub closed spec fn spec_status(&self) -> Option<tonic::Status> {
        self.status
    }

    pub fn new(kind: RoleErrorKind, message: String, status: Option<tonic::Status>) -> (r: Self)
        ensures
            r.spec_kind() == kind,
            r.spec_message() == message@,
            r.spec_status() == status,
    {
        RoleError { kind, message, status }
    }

    /// The operation-specific error kind.
    pub fn kind(&self) -> (r: RoleErrorKind)
        ensures
            r == self.spec_kind(),
    {
        self.kind
    }

    /// The explicit message of this error.
    pub fn message(&self) -> (r: &str)
        ensures
            r@ == self.spec_message(),
    {
        self.message.as_str()
    }

    /// The original gRPC status, if this error originated from a gRPC call.
    pub fn grpc_status(&self) -> (r: Option<&tonic::Status>)
        ensures
            r is Some <==> self.spec_status() is Some,
            r matches Some(s) ==> self.spec_status() == Some(*s),
    {
        match &self.status {
            Some(s) => Some(s),
            None => None,
        }
    }

    /// Take ownership of the original gRPC status, if present.
    pub fn take_grpc_status(self) -> (r: Option<tonic::Status>)
        ensures
            r == self.spec_status(),
    {
        self.status
    }

    /// Build the error for a failed call that returned `status`: its kind is the
    /// classification of the status code and message (see [`RoleErrorKind::classify`]).
    pub fn from_status(status: tonic::Status) -> (r: Self)
        ensures
            r.spec_status() == Some(status),
            r.spec_message() == Seq::<char>::empty(),
            r.spec_kind() == role_error_kind(status_code_spec(status), status_message_of(status)),
    {
        let facts = status_facts(&status);
        let kind = RoleErrorKind::classify(facts.code, &facts.message);
        RoleError { kind, message: String::new(), status: Some(status) }
    }
}

/// The kinds of [`ClusterError`].
#[derive(Clone, Copy, Debug, PartialEq, Eq, Structural)]
pub enum ClusterErrorKind {
    MemberNotFound,
    MemberAlreadyExists,
    PeerUrlExists,
    MemberNotLearner,
    LearnerNotReady,
    UnhealthyCluster,
    Authentication,
    Exhausted,
    DataLoss,
    Unavailable,
    Timeout,
    Unknown,
}

/// The kind a status with `code` and `message` is classified as.
pub open spec fn cluster_error_kind(code: Code, message: Seq<char>) -> ClusterErrorKind {
    if code == Code::NotFound {
        ClusterErrorKind::MemberNotFound
    } else if code == Code::FailedPrecondition || code == Code::Unknown {
        if message == "etcdserver: member ID already exist"@ {
            ClusterErrorKind::MemberAlreadyExists
        } else if message == "etcdserver: Peer URLs already exists"@ {
            ClusterErrorKind::PeerUrlExists
        } else if message == "etcdserver: can only promote a learner member"@ {
            ClusterErrorKind::MemberNotLearner
        } else if message == "etcdserver: can only promote a learner member which is in sync with leader"@ {
            ClusterErrorKind::LearnerNotReady
        } else if message == "etcdserver: re-configuration failed due to not enough started members"@ {
            ClusterErrorKind::UnhealthyCluster
        } else {
            ClusterErrorKind::Unknown
        }
    } else if code == Code::Unauthenticated || code == Code::PermissionDenied {
        ClusterErrorKind::Authentication
    } else if code == Code::InvalidArgument {
        if message == "etcdserver: user name is empty"@ {
            ClusterErrorKind::Authentication
        } else if message == "etcdserver: revision of auth store is old"@ {
            ClusterErrorKind::Authentication
        } else if message == "etcdserver: invalid auth management"@ {
            ClusterErrorKind::Authentication
        } else {
            ClusterErrorKind::Unknown
        }
    } else if code == Code::ResourceExhausted {
        ClusterErrorKind::Exhausted
    } else if code == Code::DataLoss {
        ClusterErrorKind::DataLoss
    } else if code == Code::Unavailable {
        if message == "etcdserver: unhealthy cluster"@ {
            ClusterErrorKind::UnhealthyCluster
        } else {
            ClusterErrorKind::Unavailable
        }
    } else if code == Code::Cancelled || code == Code::DeadlineExceeded {
        ClusterErrorKind::Timeout
    } else {
        ClusterErrorKind::Unknown
    }
}

impl ClusterErrorKind {
    /// Classify a status with `code` and the characters of its `message`.
    pub fn classify(code: Code, message: &Vec<char>) -> (r: Self)
        ensures
            r == cluster_error_kind(code, message@),
    {
        if code == Code::NotFound {
            ClusterErrorKind::MemberNotFound
        } else if code == Code::FailedPrecondition || code == Code::Unknown {
            if chars_eq(message, &chars_of("etcdserver: member ID already exist")) {
                ClusterErrorKind::MemberAlreadyExists
            } else if chars_eq(message, &chars_of("etcdserver: Peer URLs already exists")) {
                ClusterErrorKind::PeerUrlExists
            } else if chars_eq(message, &chars_of("etcdserver: can only promote a learner member")) {
                ClusterErrorKind::MemberNotLearner
            } else if chars_eq(message, &chars_of("etcdserver: can only promote a learner member which is in sync with leader")) {
                ClusterErrorKind::LearnerNotReady
            } else if chars_eq(message, &chars_of("etcdserver: re-configuration failed due to not enough started members")) {
                ClusterErrorKind::UnhealthyCluster
            } else {
                ClusterErrorKind::Unknown
            }
        } else if code == Code::Unauthenticated || code == Code::PermissionDenied {
            ClusterErrorKind::Authentication
        } else if code == Code::InvalidArgument {
            if chars_eq(message, &chars_of("etcdserver: user name is empty")) {
                ClusterErrorKind::Authentication
            } else if chars_eq(message, &chars_of("etcdserver: revision of auth store is old")) {
                ClusterErrorKind::Authentication
            } else if chars_eq(message, &chars_of("etcdserver: invalid auth management")) {
                ClusterErrorKind::Authentication
            } else {
                ClusterErrorKind::Unknown
            }
        } else if code == Code::ResourceExhausted {
            ClusterErrorKind::Exhausted
        } else if code == Code::DataLoss {
            ClusterErrorKind::DataLoss
        } else if code == Code::Unavailable {
            if chars_eq(message, &chars_of("etcdserver: unhealthy cluster")) {
                ClusterErrorKind::UnhealthyCluster
            } else {
                ClusterErrorKind::Unavailable
            }
        } else if code == Code::Cancelled || code == Code::DeadlineExceeded {
            ClusterErrorKind::Timeout
        } else {
            ClusterErrorKind::Unknown
        }
    }
}

/// An error from a cluster membership operation.
#[derive(Debug)]
pub struct ClusterError {
    kind: ClusterErrorKind,
    message: String,
    status: Option<tonic::Status>,
}

impl ClusterError {
    /// The kind of this error.
    pub closed spec fn spec_kind(&self) -> ClusterErrorKind {
        self.kind
    }

    /// The explicit message of this error (empty when it came from a status).
    pub closed spec fn spec_message(&self) -> Seq<char> {
        self.message@
    }

    /// The gRPC status this error came from, if any.
    pub closed spec fn spec_status(&self) -> Option<tonic::Status> {
        self.status
    }

    pub fn new(kind: ClusterErrorKind, message: String, status: Option<tonic::Status>) -> (r: Self)
        ensures
            r.spec_kind() == kind,
            r.spec_message() == message@,
            r.spec_status() == status,
    {
        ClusterError { kind, message, status }
    }

    /// The operation-specific error kind.
    pub fn kind(&self) -> (r: ClusterErrorKind)
        ensures
            r == self.spec_kind(),
    {
        self.kind
    }

    /// The explicit message of this error.
    pub fn message(&self) -> (r: &str)
        ensures
            r@ == self.spec_message(),
    {
        self.message.as_str()
    }

    /// The original gRPC status, if this error originated from a gRPC call.
    pub fn grpc_status(&self) -> (r: Option<&tonic::Status>)
        ensures
            r is Some <==> self.spec_status() is Some,
            r matches Some(s) ==> self.spec_status() == Some(*s),
    {
        match &self.status {
            Some(s) => Some(s),
            None => None,
        }
    }

    /// Take ownership of the original gRPC status, if present.
    pub fn take_grpc_status(self) -> (r: Option<tonic::Status>)
        ensures
            r == self.spec_status(),
    {
        self.status
    }

    /// Build the error for a failed call that returned `status`: its kind is the
    /// classification of the status code and message (see [`ClusterErrorKind::classify`]).
    pub fn from_status(status: tonic::Status) -> (r: Self)
        ensures
            r.spec_status() == Some(status),
            r.spec_message() == Seq::<char>::empty(),
            r.spec_kind() == cluster_error_kind(status_code_spec(status), status_message_of(status)),
    {
        let facts = status_facts(&status);
        let kind = ClusterErrorKind::classify(facts.code, &facts.message);
        ClusterError { kind, message: String::new(), status: Some(status) }
    }
}

/// Revision errors of reads, transactions and compactions: an `OUT_OF_RANGE` status names a
/// compacted revision when its text mentions "compacted", a future revision when it mentions
/// "future" and not "compacted", and neither otherwise.
pub proof fn lemma_revision_errors(message: Seq<char>)
    ensures
        contains_text(message, "compacted"@) ==> {
            &&& get_error_kind(Code::OutOfRange, message) == GetErrorKind::CompactedRevision
            &&& transaction_error_kind(Code::OutOfRange, message) == TransactionErrorKind::CompactedRevision
            &&& compact_error_kind(Code::OutOfRange, message) == CompactErrorKind::CompactedRevision
        },
        !contains_text(message, "compacted"@) && contains_text(message, "future"@) ==> {
            &&& get_error_kind(Code::OutOfRange, message) == GetErrorKind::FutureRevision
            &&& transaction_error_kind(Code::OutOfRange, message) == TransactionErrorKind::FutureRevision
            &&& compact_error_kind(Code::OutOfRange, message) == CompactErrorKind::FutureRevision
        },
        !contains_text(message, "compacted"@) && !contains_text(message, "future"@) ==> {
            &&& get_error_kind(Code::OutOfRange, message) == GetErrorKind::Unknown
            &&& transaction_error_kind(Code::OutOfRange, message) == TransactionErrorKind::Unknown
            &&& compact_error_kind(Code::OutOfRange, message) == CompactErrorKind::Unknown
        },
{
}

/// Transient failures are named alike by every operation, whatever the text: `UNAVAILABLE` is
/// unavailable (for membership changes, unless etcd reports an unhealthy cluster),
/// `CANCELLED` and `DEADLINE_EXCEEDED` are timeouts, and `RESOURCE_EXHAUSTED` is exhaustion.
pub proof fn lemma_transient_errors(message: Seq<char>)
    ensures
        get_error_kind(Code::Unavailable, message) == GetErrorKind::Unavailable,
        put_error_kind(Code::Unavailable, message) == PutErrorKind::Unavailable,
        transaction_error_kind(Code::Unavailable, message) == TransactionErrorKind::Unavailable,
        grant_lease_error_kind(Code::Unavailable, message) == GrantLeaseErrorKind::Unavailable,
        revoke_lease_error_kind(Code::Unavailable, message) == RevokeLeaseErrorKind::Unavailable,
        compact_error_kind(Code::Unavailable, message) == CompactErrorKind::Unavailable,
        auth_error_kind(Code::Unavailable, message) == AuthErrorKind::Unavailable,
        user_error_kind(Code::Unavailable, message) == UserErrorKind::Unavailable,
        role_error_kind(Code::Unavailable, message) == RoleErrorKind::Unavailable,
        message != "etcdserver: unhealthy cluster"@ ==> cluster_error_kind(Code::Unavailable, message)
            == ClusterErrorKind::Unavailable,
        forall|code: Code|
            code == Code::Cancelled || code == Code::DeadlineExceeded ==> {
                &&& get_error_kind(code, message) == GetErrorKind::Timeout
                &&& put_error_kind(code, message) == PutErrorKind::Timeout
                &&& transaction_error_kind(code, message) == TransactionErrorKind::Timeout
                &&& grant_lease_error_kind(code, message) == GrantLeaseErrorKind::Timeout
                &&& revoke_lease_error_kind(code, message) == RevokeLeaseErrorKind::Timeout
                &&& compact_error_kind(code, message) == CompactErrorKind::Timeout
                &&& auth_error_kind(code, message) == AuthErrorKind::Timeout
                &&& user_error_kind(code, message) == UserErrorKind::Timeout
                &&& role_error_kind(code, message) == RoleErrorKind::Timeout
                &&& cluster_error_kind(code, message) == ClusterErrorKind::Timeout
            },
        get_error_kind(Code::ResourceExhausted, message) == GetErrorKind::Exhausted,
        put_error_kind(Code::ResourceExhausted, message) == PutErrorKind::Exhausted,
        transaction_error_kind(Code::ResourceExhausted, message) == TransactionErrorKind::Exhausted,
        grant_lease_error_kind(Code::ResourceExhausted, message) == GrantLeaseErrorKind::Exhausted,
        revoke_lease_error_kind(Code::ResourceExhausted, message) == RevokeLeaseErrorKind::Exhausted,
        compact_error_kind(Code::ResourceExhausted, message) == CompactErrorKind::Exhausted,
        auth_error_kind(Code::ResourceExhausted, message) == AuthErrorKind::Exhausted,
        user_error_kind(Code::ResourceExhausted, message) == UserErrorKind::Exhausted,
        role_error_kind(Code::ResourceExhausted, message) == RoleErrorKind::Exhausted,
        cluster_error_kind(Code::ResourceExhausted, message) == ClusterErrorKind::Exhausted,
        get_error_kind(Code::DataLoss, message) == GetErrorKind::DataLoss,
        put_error_kind(Code::DataLoss, message) == PutErrorKind::DataLoss,
        transaction_error_kind(Code::DataLoss, message) == TransactionErrorKind::DataLoss,
        grant_lease_error_kind(Code::DataLoss, message) == GrantLeaseErrorKind::DataLoss,
        revoke_lease_error_kind(Code::DataLoss, message) == RevokeLeaseErrorKind::DataLoss,
        compact_error_kind(Code::DataLoss, message) == CompactErrorKind::DataLoss,
        cluster_error_kind(Code::DataLoss, message) == ClusterErrorKind::DataLoss,
{
}

/// Rejected credentials: `UNAUTHENTICATED` and `PERMISSION_DENIED` are authentication failures
/// for every operation (invalid credentials for the auth operations), whatever the text.
pub proof fn lemma_credential_errors(message: Seq<char>)
    ensures
        forall|code: Code|
            code == Code::Unauthenticated || code == Code::PermissionDenied ==> {
                &&& get_error_kind(code, message) == GetErrorKind::Authentication
                &&& put_error_kind(code, message) == PutErrorKind::Authentication
                &&& transaction_error_kind(code, message) == TransactionErrorKind::Authentication
                &&& grant_lease_error_kind(code, message) == GrantLeaseErrorKind::Authentication
                &&& revoke_lease_error_kind(code, message) == RevokeLeaseErrorKind::Authentication
                &&& compact_error_kind(code, message) == CompactErrorKind::Authentication
                &&& auth_error_kind(code, message) == AuthErrorKind::InvalidCredentials
                &&& user_error_kind(code, message) == UserErrorKind::Authentication
                &&& role_error_kind(code, message) == RoleErrorKind::Authentication
                &&& cluster_error_kind(code, message) == ClusterErrorKind::Authentication
            },
{
}

/// Missing things: `NOT_FOUND` is a missing lease for puts, transactions and revocations, and a
/// missing member for membership changes.
pub proof fn lemma_not_found_errors(message: Seq<char>)
    ensures
        put_error_kind(Code::NotFound, message) == PutErrorKind::LeaseNotFound,
        transaction_error_kind(Code::NotFound, message) == TransactionErrorKind::LeaseNotFound,
        revoke_lease_error_kind(Code::NotFound, message) == RevokeLeaseErrorKind::NotFound,
        cluster_error_kind(Code::NotFound, message) == ClusterErrorKind::MemberNotFound,
{
}

/// The errors etcd names in its text: a rejected put whose text mentions "key not found" is a
/// missing key (any other rejected put is an authentication failure); a lease grant refused
/// with "already exists" is a taken lease ID and one out of range is a TTL too large; a
/// rejected transaction is an invalid argument; and the auth, user and role operations name
/// their failed preconditions by the first of their phrases the text mentions.
pub proof fn lemma_named_errors(message: Seq<char>)
    ensures
        contains_text(message, "key not found"@) ==> put_error_kind(Code::InvalidArgument, message)
            == PutErrorKind::KeyNotFound,
        !contains_text(message, "key not found"@) ==> put_error_kind(Code::InvalidArgument, message)
            == PutErrorKind::Authentication,
        contains_text(message, "already exists"@) ==> grant_lease_error_kind(Code::FailedPrecondition, message)
            == GrantLeaseErrorKind::LeaseExists,
        grant_lease_error_kind(Code::OutOfRange, message) == GrantLeaseErrorKind::TtlTooLarge,
        transaction_error_kind(Code::InvalidArgument, message) == TransactionErrorKind::InvalidArgument,
        contains_text(message, "already enabled"@) ==> auth_error_kind(Code::FailedPrecondition, message)
            == AuthErrorKind::AlreadyEnabled,
        !contains_text(message, "already enabled"@) && contains_text(message, "not enabled"@) ==> auth_error_kind(
            Code::FailedPrecondition,
            message,
        ) == AuthErrorKind::NotEnabled,
        !contains_text(message, "already enabled"@) && !contains_text(message, "not enabled"@)
            && contains_text(message, "root user"@) ==> auth_error_kind(Code::FailedPrecondition, message)
            == AuthErrorKind::RootUserRequired,
        contains_text(message, "already exists"@) ==> user_error_kind(Code::FailedPrecondition, message)
            == UserErrorKind::UserAlreadyExists && role_error_kind(Code::FailedPrecondition, message)
            == RoleErrorKind::RoleAlreadyExists,
        !contains_text(message, "already exists"@) && contains_text(message, "user name not found"@)
            ==> user_error_kind(Code::FailedPrecondition, message) == UserErrorKind::UserNotFound,
        !contains_text(message, "already exists"@) && !contains_text(message, "user name not found"@)
            && contains_text(message, "role name not found"@) ==> user_error_kind(Code::FailedPrecondition, message)
            == UserErrorKind::RoleNotFound,
        !contains_text(message, "already exists"@) && contains_text(message, "role name not found"@)
            ==> role_error_kind(Code::FailedPrecondition, message) == RoleErrorKind::RoleNotFound,
        !contains_text(message, "already exists"@) && !contains_text(message, "role name not found"@)
            && contains_text(message, "not granted"@) ==> role_error_kind(Code::FailedPrecondition, message)
            == RoleErrorKind::PermissionNotGranted,
        contains_text(message, "invalid auth management"@) ==> role_error_kind(Code::InvalidArgument, message)
            == RoleErrorKind::InvalidAuthManagement,
{
}

/// Membership errors are named by etcd's exact texts, under `FAILED_PRECONDITION` or `UNKNOWN`
/// alike: an existing member ID, existing peer URLs, promoting a voting member, promoting a
/// learner that is not in sync, and too few started members.
pub proof fn lemma_membership_errors(code: Code)
    requires
        code == Code::FailedPrecondition || code == Code::Unknown,
    ensures
        cluster_error_kind(code, "etcdserver: member ID already exist"@) == ClusterErrorKind::MemberAlreadyExists,
        cluster_error_kind(code, "etcdserver: Peer URLs already exists"@) == ClusterErrorKind::PeerUrlExists,
        cluster_error_kind(code, "etcdserver: can only promote a learner member"@)
            == ClusterErrorKind::MemberNotLearner,
        cluster_error_kind(code, "etcdserver: can only promote a learner member which is in sync with leader"@)
            == ClusterErrorKind::LearnerNotReady,
        cluster_error_kind(code, "etcdserver: re-configuration failed due to not enough started members"@)
            == ClusterErrorKind::UnhealthyCluster,
{
    reveal_strlit("etcdserver: member ID already exist");
    reveal_strlit("etcdserver: Peer URLs already exists");
    reveal_strlit("etcdserver: can only promote a learner member");
    reveal_strlit("etcdserver: can only promote a learner member which is in sync with leader");
    reveal_strlit("etcdserver: re-configuration failed due to not enough started members");
    let a = "etcdserver: member ID already exist"@;
    let b = "etcdserver: Peer URLs already exists"@;
    let c = "etcdserver: can only promote a learner member"@;
    assert(a[12] != b[12]);
    assert(a[12] != c[12]);
    assert(b[12] != c[12]);
    let d = "etcdserver: can only promote a learner member which is in sync with leader"@;
    let e = "etcdserver: re-configuration failed due to not enough started members"@;
    assert(d[12] != a[12] && d[12] != b[12] && d.len() != c.len());
    assert(e[12] != a[12] && e[12] != b[12] && e[12] != c[12] && e[12] != d[12]);
}

} // verus!
