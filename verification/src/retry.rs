//! When a failed call may be sent again.
use vstd::prelude::*;
use crate::time::{duration_from_secs, duration_of_secs};
use crate::status::{status_code_spec, status_facts, status_message_of, status_source_of, Code, StatusFacts};
use crate::text::{chars_contain, chars_eq, chars_of, contains_text};

verus! {

/// Controls how long failed calls are retried.
#[derive(Debug, Clone, Copy, PartialEq)]
pub enum RetryPolicy {
    /// Retry until the given duration has elapsed since the call started.
    WithDeadline(std::time::Duration),
    /// Never retry; return the first error immediately.
    Never,
    /// Retry forever with no deadline.
    Forever,
}

impl RetryPolicy {
    /// The default policy: retry until five seconds have passed.
    pub fn default_policy() -> (r: Self)
        ensures
            r == RetryPolicy::WithDeadline(duration_of_secs(5)),
    {
        RetryPolicy::WithDeadline(duration_from_secs(5))
    }

    /// A policy that retries until `deadline` has passed.
    pub fn from_duration(deadline: std::time::Duration) -> (r: Self)
        ensures
            r == RetryPolicy::WithDeadline(deadline),
    {
        RetryPolicy::WithDeadline(deadline)
    }
}

impl Default for RetryPolicy {
    fn default() -> (r: Self)
        ensures
            r == RetryPolicy::WithDeadline(duration_of_secs(5)),
    {
        RetryPolicy::default_policy()
    }
}

impl From<std::time::Duration> for RetryPolicy {
    fn from(deadline: std::time::Duration) -> (r: Self) {
        RetryPolicy::WithDeadline(deadline)
    }
}

impl vstd::std_specs::convert::FromSpecImpl<std::time::Duration> for RetryPolicy {
    open spec fn obeys_from_spec() -> bool {
        true
    }

    open spec fn from_spec(v: std::time::Duration) -> Self {
        RetryPolicy::WithDeadline(v)
    }
}

/// Whether re-sending a call after an ambiguous failure is safe.
#[derive(Clone, Copy, PartialEq, Eq, Structural, Debug)]
pub enum Idempotency {
    /// The call does not modify server state; re-sending it can only waste work.
    Immutable,
    /// The call modifies server state; re-sending it is only safe when the request provably
    /// never reached a server.
    Mutable,
}

/// A client-side timeout: tonic reports it as `CANCELLED` with the text "Timeout expired".
pub open spec fn client_side_timeout(code: Code, message: Seq<char>) -> bool {
    code == Code::Cancelled && message == "Timeout expired"@
}

/// A dropped connection: `UNKNOWN` with the text "transport error" and a source error attached
/// (statuses decoded from a server reply carry no source).
pub open spec fn transport_failure(code: Code, message: Seq<char>, has_source: bool) -> bool {
    code == Code::Unknown && has_source && message == "transport error"@
}

/// The retry rule: a read is retried on `UNAVAILABLE`, a client-side timeout or a dropped
/// connection; a mutation only when the connection was never made.
pub open spec fn retry_allowed(
    code: Code,
    message: Seq<char>,
    has_source: bool,
    connect_failure: bool,
    idempotency: Idempotency,
) -> bool {
    match idempotency {
        Idempotency::Immutable => code == Code::Unavailable || client_side_timeout(code, message)
            || transport_failure(code, message, has_source),
        Idempotency::Mutable => connect_failure,
    }
}

/// An authentication failure that a fresh token may cure: `UNAUTHENTICATED`,
/// `PERMISSION_DENIED`, or `INVALID_ARGUMENT` whose text mentions "user name".
pub open spec fn auth_failure(code: Code, message: Seq<char>) -> bool {
    code == Code::Unauthenticated || code == Code::PermissionDenied || (code
        == Code::InvalidArgument && contains_text(message, "user name"@))
}

/// Whether a status with `code` and `message` is a client-side timeout.
pub fn is_client_side_timeout(code: Code, message: &Vec<char>) -> (r: bool)
    ensures
        r == client_side_timeout(code, message@),
{
    code == Code::Cancelled && chars_eq(message, &chars_of("Timeout expired"))
}

/// Whether a status is a dropped connection.
pub fn is_transport_error(code: Code, message: &Vec<char>, has_source: bool) -> (r: bool)
    ensures
        r == transport_failure(code, message@, has_source),
{
    code == Code::Unknown && has_source && chars_eq(message, &chars_of("transport error"))
}

/// Whether a failed call may be replayed. `connect_failure` tells whether the failure arose
/// while connecting, so that no part of the request was written.
pub fn can_retry_facts(facts: &StatusFacts, connect_failure: bool, idempotency: Idempotency) -> (r:
    bool)
    ensures
        r == retry_allowed(
            facts.code,
            facts.message@,
            facts.has_source,
            connect_failure,
            idempotency,
        ),
{
    match idempotency {
        Idempotency::Immutable => facts.code == Code::Unavailable || is_client_side_timeout(
            facts.code,
            &facts.message,
        ) || is_transport_error(facts.code, &facts.message, facts.has_source),
        Idempotency::Mutable => connect_failure,
    }
}

/// Whether a call that failed with `status` may be replayed (see [`can_retry_facts`]).
pub fn can_retry(status: &tonic::Status, connect_failure: bool, idempotency: Idempotency) -> (r:
    bool)
    ensures
        r == retry_allowed(
            status_code_spec(*status),
            status_message_of(*status),
            status_source_of(*status),
            connect_failure,
            idempotency,
        ),
{
    let facts = status_facts(status);
    can_retry_facts(&facts, connect_failure, idempotency)
}

/// Whether a status is an authentication failure a fresh token may cure.
pub fn is_auth_error_facts(facts: &StatusFacts) -> (r: bool)
    ensures
        r == auth_failure(facts.code, facts.message@),
{
    facts.code == Code::Unauthenticated || facts.code == Code::PermissionDenied || (facts.code
        == Code::InvalidArgument && chars_contain(&facts.message, &chars_of("user name")))
}

/// Whether `status` is an authentication failure a fresh token may cure.
pub fn is_auth_error(status: &tonic::Status) -> (r: bool)
    ensures
        r == auth_failure(status_code_spec(*status), status_message_of(*status)),
{
    let facts = status_facts(status);
    is_auth_error_facts(&facts)
}

/// Whether the retry policy still allows another attempt; `before_deadline` tells whether the
/// deadline of a `WithDeadline` policy has not yet passed.
pub fn timing_allows_retry(policy: &RetryPolicy, before_deadline: bool) -> (r: bool)
    ensures
        r == match policy {
            RetryPolicy::Never => false,
            RetryPolicy::Forever => true,
            RetryPolicy::WithDeadline(_) => before_deadline,
        },
{
    match policy {
        RetryPolicy::Never => false,
        RetryPolicy::Forever => true,
        RetryPolicy::WithDeadline(_) => before_deadline,
    }
}

/// What to do after a failed attempt.
#[derive(Clone, Copy, PartialEq, Eq, Structural, Debug)]
pub enum AttemptOutcome {
    /// Send the call again.
    Retry,
    /// Return the failure to the caller.
    Fail,
}

/// The decision after a failed attempt. An authentication failure is replayed when the token
/// was refreshed (etcd authorizes before applying, so nothing was applied); any other failure
/// when the retry rule allows it. Either way the policy's timing must allow another attempt.
pub fn after_failure(
    auth_error: bool,
    token_refreshed: bool,
    retryable: bool,
    timing_ok: bool,
) -> (r: AttemptOutcome)
    ensures
        r == (if timing_ok && ((auth_error && token_refreshed) || retryable) {
            AttemptOutcome::Retry
        } else {
            AttemptOutcome::Fail
        }),
{
    if auth_error && token_refreshed && timing_ok {
        AttemptOutcome::Retry
    } else if retryable && timing_ok {
        AttemptOutcome::Retry
    } else {
        AttemptOutcome::Fail
    }
}

/// A mutation is only ever replayed when the connection was never made, whatever the status
/// says.
pub proof fn lemma_mutation_replayed_only_when_never_sent(
    code: Code,
    message: Seq<char>,
    has_source: bool,
    connect_failure: bool,
)
    ensures
        retry_allowed(code, message, has_source, connect_failure, Idempotency::Mutable)
            ==> connect_failure,
{
}

/// Whether opening a stream (a watch or lease keep-alive stream) is tried again after it failed
/// with `code`: only when the server was unavailable and the establishment deadline has not
/// passed.
pub fn reconnect_stream(code: Code, before_deadline: bool) -> (r: bool)
    ensures
        r == (code == Code::Unavailable && before_deadline),
{
    code == Code::Unavailable && before_deadline
}

/// Whether a token refresh must talk to the server: not when another caller already refreshed
/// the token while this one waited, which shows in a generation other than the stale one.
pub fn token_refresh_needed(current_generation: u64, stale_generation: u64) -> (r: bool)
    ensures
        r == (current_generation == stale_generation),
{
    current_generation == stale_generation
}

/// What a token refresh does next.
#[derive(Clone, Copy, PartialEq, Eq, Structural, Debug)]
pub enum RefreshStep {
    /// Another caller refreshed the token meanwhile: nothing to do.
    AlreadyRefreshed,
    /// The token is stale and no credentials are configured to obtain a new one: fail.
    NoCredentials,
    /// Authenticate with the configured credentials and store the new token.
    Authenticate,
}

/// The step of a token refresh, taken once the refresh lock is held: `current_generation` is the
/// token's generation then, `stale_generation` the one the caller found stale.
pub fn refresh_step(current_generation: u64, stale_generation: u64, has_credentials: bool) -> (r: RefreshStep)
    ensures
        r == (if current_generation != stale_generation {
            RefreshStep::AlreadyRefreshed
        } else if !has_credentials {
            RefreshStep::NoCredentials
        } else {
            RefreshStep::Authenticate
        }),
{
    if !token_refresh_needed(current_generation, stale_generation) {
        RefreshStep::AlreadyRefreshed
    } else if !has_credentials {
        RefreshStep::NoCredentials
    } else {
        RefreshStep::Authenticate
    }
}

/// The generation of a refreshed token: one past the stale generation.
pub fn next_token_generation(stale_generation: u64) -> (r: u64)
    requires
        stale_generation < u64::MAX,
    ensures
        r == stale_generation + 1,
{
    stale_generation + 1
}

/// Reads are retried on failures that leave the server's state unknown and nothing else: an
/// `UNAVAILABLE` read is retried whatever its text, a read that failed with a status the
/// server decided (such as `NOT_FOUND`, `FAILED_PRECONDITION` or `INVALID_ARGUMENT`) never is,
/// and a read whose connection failed is retried only when the status says so as well.
pub proof fn lemma_read_retry_rule(message: Seq<char>, has_source: bool, connect_failure: bool)
    ensures
        retry_allowed(Code::Unavailable, message, has_source, connect_failure, Idempotency::Immutable),
        forall|code: Code|
            code == Code::NotFound || code == Code::FailedPrecondition || code == Code::InvalidArgument
                || code == Code::AlreadyExists || code == Code::PermissionDenied ==> !#[trigger] retry_allowed(
                code,
                message,
                has_source,
                connect_failure,
                Idempotency::Immutable,
            ),
        retry_allowed(Code::Cancelled, "Timeout expired"@, has_source, connect_failure, Idempotency::Immutable),
        retry_allowed(Code::Unknown, "transport error"@, true, connect_failure, Idempotency::Immutable),
        !retry_allowed(Code::Unknown, message, false, connect_failure, Idempotency::Immutable),
        retry_allowed(Code::Unknown, message, has_source, true, Idempotency::Mutable),
{
}

/// A fresh token may cure `UNAUTHENTICATED` and `PERMISSION_DENIED` failures, and an
/// `INVALID_ARGUMENT` one only when its text mentions the user name; no other code is an
/// authentication failure.
pub proof fn lemma_auth_failure_rule(code: Code, message: Seq<char>)
    ensures
        code == Code::Unauthenticated || code == Code::PermissionDenied ==> auth_failure(code, message),
        code == Code::InvalidArgument ==> (auth_failure(code, message) <==> contains_text(message, "user name"@)),
        code != Code::Unauthenticated && code != Code::PermissionDenied && code != Code::InvalidArgument
            ==> !auth_failure(code, message),
{
}

} // verus!
