use etcdrs::retry::{
    after_failure, can_retry, is_auth_error, is_client_side_timeout, is_transport_error, reconnect_stream,
    timing_allows_retry, token_refresh_needed, AttemptOutcome, Idempotency, RetryPolicy,
};
use etcdrs::status::{status_facts, Code};

/// Stands in for a transport-layer error, which cannot be built outside tonic.
#[derive(Debug)]
struct TransportError;

impl std::fmt::Display for TransportError {
    fn fmt(&self, f: &mut std::fmt::Formatter<'_>) -> std::fmt::Result {
        f.write_str("transport error")
    }
}

impl std::error::Error for TransportError {}

/// A dropped connection: `Unknown` with a transport-layer source attached.
fn dropped_connection() -> tonic::Status {
    tonic::Status::from_error(Box::new(TransportError))
}

#[test]
fn never_sent_retries_for_both_classes() {
    // Nothing was written to a connection, so even a mutation may be re-sent.
    let status = tonic::Status::new(tonic::Code::Unavailable, "tcp connect error");
    assert!(can_retry(&status, true, Idempotency::Immutable));
    assert!(can_retry(&status, true, Idempotency::Mutable));
}

#[test]
fn client_side_timeout_retries_only_reads() {
    let status = tonic::Status::new(tonic::Code::Cancelled, "Timeout expired");
    let facts = status_facts(&status);
    assert!(is_client_side_timeout(facts.code, &facts.message));
    assert!(can_retry(&status, false, Idempotency::Immutable));
    assert!(!can_retry(&status, false, Idempotency::Mutable));
}

#[test]
fn non_transient_errors_never_retry() {
    for status in [
        tonic::Status::new(tonic::Code::NotFound, "etcdserver: member not found"),
        tonic::Status::new(tonic::Code::FailedPrecondition, "etcdserver: ID exists"),
        tonic::Status::new(tonic::Code::InvalidArgument, "etcdserver: key is not provided"),
    ] {
        assert!(!can_retry(&status, false, Idempotency::Immutable), "{status:?}");
        assert!(!can_retry(&status, false, Idempotency::Mutable), "{status:?}");
    }
}

#[test]
fn dropped_connection_retries_only_reads() {
    let status = dropped_connection();
    let facts = status_facts(&status);
    assert_eq!(facts.code, Code::Unknown);
    assert!(facts.has_source);
    assert!(is_transport_error(facts.code, &facts.message, facts.has_source));
    assert!(can_retry(&status, false, Idempotency::Immutable));
    assert!(!can_retry(&status, false, Idempotency::Mutable));
}

#[test]
fn server_sent_transport_text_is_not_a_transport_error() {
    // Decoded from a reply, so it carries no source.
    let status = tonic::Status::new(tonic::Code::Unknown, "transport error");
    let facts = status_facts(&status);
    assert!(!facts.has_source);
    assert!(!is_transport_error(facts.code, &facts.message, facts.has_source));
    assert!(!can_retry(&status, false, Idempotency::Immutable));
}

#[test]
fn server_sent_unavailable_retries_only_reads() {
    let status = tonic::Status::new(tonic::Code::Unavailable, "etcdserver: no leader");
    assert!(can_retry(&status, false, Idempotency::Immutable));
    assert!(!can_retry(&status, false, Idempotency::Mutable));
}

/// A server cannot talk the client into replaying a mutation by claiming to be a connect
/// failure: statuses decoded from a reply have no source to walk.
#[test]
fn server_cannot_forge_a_connect_failure() {
    let status = tonic::Status::new(tonic::Code::Unavailable, "tcp connect error");
    let facts = status_facts(&status);
    assert!(!facts.has_source, "{status:?}");
    assert!(!can_retry(&status, false, Idempotency::Mutable));
}

#[test]
fn auth_errors_are_recognized() {
    assert!(is_auth_error(&tonic::Status::new(tonic::Code::Unauthenticated, "etcdserver: invalid auth token")));
    assert!(is_auth_error(&tonic::Status::new(tonic::Code::PermissionDenied, "etcdserver: permission denied")));
    assert!(is_auth_error(&tonic::Status::new(tonic::Code::InvalidArgument, "etcdserver: user name is empty")));
    assert!(!is_auth_error(&tonic::Status::new(tonic::Code::InvalidArgument, "etcdserver: key is not provided")));
    assert!(!is_auth_error(&tonic::Status::new(tonic::Code::Unavailable, "etcdserver: no leader")));
}

#[test]
fn retry_policy_timing() {
    assert!(!timing_allows_retry(&RetryPolicy::Never, true));
    assert!(timing_allows_retry(&RetryPolicy::Forever, false));
    let policy = RetryPolicy::from_duration(std::time::Duration::from_secs(1));
    assert!(timing_allows_retry(&policy, true));
    assert!(!timing_allows_retry(&policy, false));
    assert!(matches!(RetryPolicy::default(), RetryPolicy::WithDeadline(d) if d == std::time::Duration::from_secs(5)));
}

#[test]
fn decision_after_a_failure() {
    assert_eq!(after_failure(true, true, false, true), AttemptOutcome::Retry);
    assert_eq!(after_failure(true, false, false, true), AttemptOutcome::Fail);
    assert_eq!(after_failure(false, false, true, true), AttemptOutcome::Retry);
    assert_eq!(after_failure(false, false, true, false), AttemptOutcome::Fail);
    assert_eq!(after_failure(true, true, true, false), AttemptOutcome::Fail);
}

#[test]
fn stream_reconnects_only_while_unavailable_before_the_deadline() {
    assert!(reconnect_stream(Code::Unavailable, true));
    assert!(!reconnect_stream(Code::Unavailable, false));
    assert!(!reconnect_stream(Code::Unknown, true));
}

#[test]
fn token_refresh_skipped_when_another_caller_refreshed() {
    assert!(token_refresh_needed(3, 3));
    assert!(!token_refresh_needed(4, 3));
}

#[test]
fn a_duration_is_a_deadline_policy() {
    let policy: RetryPolicy = std::time::Duration::from_secs(2).into();
    assert_eq!(policy, RetryPolicy::WithDeadline(std::time::Duration::from_secs(2)));
}

#[test]
fn authenticating_without_credentials_is_refused() {
    let err = etcdrs::errors::AuthError::no_credentials();
    assert_eq!(err.kind(), etcdrs::errors::AuthErrorKind::InvalidCredentials);
    assert_eq!(err.message(), "no credentials configured on client");
    assert!(err.grpc_status().is_none());
}

#[test]
fn token_refresh_steps() {
    assert_eq!(etcdrs::retry::refresh_step(4, 3, true), etcdrs::retry::RefreshStep::AlreadyRefreshed);
    assert_eq!(etcdrs::retry::refresh_step(3, 3, false), etcdrs::retry::RefreshStep::NoCredentials);
    assert_eq!(etcdrs::retry::refresh_step(3, 3, true), etcdrs::retry::RefreshStep::Authenticate);
}
