//! The error contract of the API: the status, stable code and message
//! that every failure is answered with.
use vstd::prelude::*;
use vstd::string::StringSliceAdditionalSpecFns;
use crate::billing::{LimitKind, MetricsError};
use crate::text::{has_prefix, starts_with};

verus! {

/// An error answer: HTTP status, stable machine-readable code, and a message
/// that is safe to show.
#[derive(Clone, Debug, PartialEq, Eq)]
pub struct ErrorReply {
    pub status: u16,
    pub code: String,
    pub message: String,
}

impl View for ErrorReply {
    type V = (u16, Seq<char>, Seq<char>);

    open spec fn view(&self) -> (u16, Seq<char>, Seq<char>) {
        (self.status, self.code@, self.message@)
    }
}

pub fn reply(status: u16, code: &str, message: &str) -> (r: ErrorReply)
    ensures
        r@ == (status, code@, message@),
{
    ErrorReply { status, code: code.to_owned(), message: message.to_owned() }
}

/// A request that is malformed, answered with the caller-facing message.
pub fn validation_error(message: &str) -> (r: ErrorReply)
    ensures
        r@ == (400u16, "query.invalid_request"@, message@),
{
    reply(400, "query.invalid_request", message)
}

/// Why a request's credential was not accepted.
#[derive(Clone, Copy, Debug, PartialEq, Eq, Structural)]
pub enum CredentialError {
    Missing,
    Invalid,
    Expired,
    WrongProject,
    InsufficientScope,
    Disabled,
    Unavailable,
}

/// What the credential verifier reports about a credential it refused.
#[derive(Clone, Copy, Debug, PartialEq, Eq, Structural)]
pub enum CredentialVerificationError {
    Invalid,
    Expired,
    WrongProject,
    InsufficientScope,
    Disabled,
    Unavailable,
}

/// The credential error that a verifier refusal stands for.
pub fn map_auth_credential_error(error: CredentialVerificationError) -> (r: CredentialError)
    ensures
        r == match error {
            CredentialVerificationError::Invalid => CredentialError::Invalid,
            CredentialVerificationError::Expired => CredentialError::Expired,
            CredentialVerificationError::WrongProject => CredentialError::WrongProject,
            CredentialVerificationError::InsufficientScope => CredentialError::InsufficientScope,
            CredentialVerificationError::Disabled => CredentialError::Disabled,
            CredentialVerificationError::Unavailable => CredentialError::Unavailable,
        },
{
    match error {
        CredentialVerificationError::Invalid => CredentialError::Invalid,
        CredentialVerificationError::Expired => CredentialError::Expired,
        CredentialVerificationError::WrongProject => CredentialError::WrongProject,
        CredentialVerificationError::InsufficientScope => CredentialError::InsufficientScope,
        CredentialVerificationError::Disabled => CredentialError::Disabled,
        CredentialVerificationError::Unavailable => CredentialError::Unavailable,
    }
}

/// The reply to a credential that was not accepted.
pub open spec fn credential_reply(error: CredentialError) -> (u16, Seq<char>, Seq<char>) {
    match error {
        CredentialError::Missing => (401u16, "auth.missing_credential"@, "authorization is required"@),
        CredentialError::Invalid => (401u16, "auth.invalid_credential"@, "credential is invalid"@),
        CredentialError::Expired => (401u16, "auth.expired_credential"@, "credential has expired"@),
        CredentialError::WrongProject => (403u16, "auth.wrong_project"@, "credential is not valid for this project"@),
        CredentialError::InsufficientScope => (403u16, "auth.insufficient_scope"@, "credential lacks the required scope"@),
        CredentialError::Disabled => (403u16, "auth.account_disabled"@, "account is disabled"@),
        CredentialError::Unavailable => (503u16, "auth.unavailable"@, "authentication service is temporarily unavailable"@),
    }
}

/// Answers a credential that was not accepted.
pub fn credential_error(error: CredentialError) -> (r: ErrorReply)
    ensures
        r@ == credential_reply(error),
{
    match error {
        CredentialError::Missing => reply(401, "auth.missing_credential", "authorization is required"),
        CredentialError::Invalid => reply(401, "auth.invalid_credential", "credential is invalid"),
        CredentialError::Expired => reply(401, "auth.expired_credential", "credential has expired"),
        CredentialError::WrongProject => reply(403, "auth.wrong_project", "credential is not valid for this project"),
        CredentialError::InsufficientScope => reply(403, "auth.insufficient_scope", "credential lacks the required scope"),
        CredentialError::Disabled => reply(403, "auth.account_disabled", "account is disabled"),
        CredentialError::Unavailable => reply(503, "auth.unavailable", "authentication service is temporarily unavailable"),
    }
}

/// The rate limiter could not decide.
pub open spec fn rate_limit_unavailable_reply() -> (u16, Seq<char>, Seq<char>) {
    (503u16, "rate_limit.unavailable"@, "rate limiting service is temporarily unavailable"@)
}

pub fn rate_limit_unavailable() -> (r: ErrorReply)
    ensures
        r@ == rate_limit_unavailable_reply(),
{
    reply(503, "rate_limit.unavailable", "rate limiting service is temporarily unavailable")
}

/// The audit log could not be written.
pub open spec fn audit_unavailable_reply() -> (u16, Seq<char>, Seq<char>) {
    (503u16, "audit.unavailable"@, "audit service is temporarily unavailable"@)
}

pub fn audit_unavailable() -> (r: ErrorReply)
    ensures
        r@ == audit_unavailable_reply(),
{
    reply(503, "audit.unavailable", "audit service is temporarily unavailable")
}

/// The control plane could not be reached.
pub open spec fn control_plane_unavailable_reply() -> (u16, Seq<char>, Seq<char>) {
    (503u16, "control_plane.unavailable"@, "control plane is temporarily unavailable"@)
}

pub fn control_plane_unavailable() -> (r: ErrorReply)
    ensures
        r@ == control_plane_unavailable_reply(),
{
    reply(503, "control_plane.unavailable", "control plane is temporarily unavailable")
}

/// A failure that the caller cannot act on.
pub open spec fn internal_error_reply() -> (u16, Seq<char>, Seq<char>) {
    (500u16, "internal.error"@, "internal server error"@)
}

pub fn internal_error() -> (r: ErrorReply)
    ensures
        r@ == internal_error_reply(),
{
    reply(500, "internal.error", "internal server error")
}

/// Why a project's database could not be located.
#[derive(Clone, Copy, Debug, PartialEq, Eq, Structural)]
pub enum RoutingError {
    NotFound,
    Unavailable,
    StaleGeneration,
    Inconsistent,
}

/// The reply to a project that could not be routed.
pub open spec fn routing_reply(error: RoutingError) -> (u16, Seq<char>, Seq<char>) {
    match error {
        RoutingError::NotFound => (404u16, "project.not_found"@, "project was not found"@),
        RoutingError::Unavailable | RoutingError::StaleGeneration => (503u16, "project.unavailable"@, "project is temporarily unavailable"@),
        RoutingError::Inconsistent => (500u16, "internal.error"@, "internal server error"@),
    }
}

/// Answers a project that could not be routed.
pub fn routing_error(error: RoutingError) -> (r: ErrorReply)
    ensures
        r@ == routing_reply(error),
{
    match error {
        RoutingError::NotFound => reply(404, "project.not_found", "project was not found"),
        RoutingError::Unavailable | RoutingError::StaleGeneration => reply(503, "project.unavailable", "project is temporarily unavailable"),
        RoutingError::Inconsistent => reply(500, "internal.error", "internal server error"),
    }
}

/// Why an idempotent request could not be admitted.
#[derive(Clone, Copy, Debug, PartialEq, Eq, Structural)]
pub enum IdempotencyError {
    InvalidKey,
    InvalidRequest,
    InvalidStoredResponse,
    ResponseTooLarge,
    Unavailable,
}

/// The reply to an idempotent request that could not be admitted.
pub open spec fn idempotency_reply(error: IdempotencyError) -> (u16, Seq<char>, Seq<char>) {
    match error {
        IdempotencyError::InvalidKey => (400u16, "idempotency.invalid_key"@, "the idempotency key is invalid"@),
        IdempotencyError::InvalidRequest => (400u16, "idempotency.invalid_request"@, "the idempotent request is invalid"@),
        IdempotencyError::InvalidStoredResponse | IdempotencyError::ResponseTooLarge | IdempotencyError::Unavailable => (503u16, "idempotency.unavailable"@, "idempotency service unavailable"@),
    }
}

/// Answers an idempotent request that could not be admitted.
pub fn idempotency_error(error: IdempotencyError) -> (r: ErrorReply)
    ensures
        r@ == idempotency_reply(error),
{
    match error {
        IdempotencyError::InvalidKey => reply(400, "idempotency.invalid_key", "the idempotency key is invalid"),
        IdempotencyError::InvalidRequest => reply(400, "idempotency.invalid_request", "the idempotent request is invalid"),
        IdempotencyError::InvalidStoredResponse | IdempotencyError::ResponseTooLarge | IdempotencyError::Unavailable => reply(503, "idempotency.unavailable", "idempotency service unavailable"),
    }
}

/// Why usage metering refused or failed an operation.
#[derive(Clone, Copy, Debug, PartialEq, Eq, Structural)]
pub enum MeteringError {
    InvalidOperation,
    ReportingBlocked,
    Store(MetricsError),
    Unavailable,
}

/// The reply to a metering refusal: an exhausted allowance is a payment
/// matter, blocked reporting and store failures are unavailability.
pub open spec fn metering_reply(error: MeteringError) -> (u16, Seq<char>, Seq<char>) {
    match error {
        MeteringError::Store(MetricsError::LimitExceeded(LimitKind::WriteUnits)) => (
            402u16,
            "billing.write_limit_reached"@,
            "the organization's included write allowance is exhausted"@,
        ),
        MeteringError::Store(MetricsError::LimitExceeded(LimitKind::StorageBytes)) => (
            402u16,
            "billing.storage_limit_reached"@,
            "the organization's included storage allowance is exhausted"@,
        ),
        MeteringError::Store(MetricsError::LimitExceeded(LimitKind::MonthlyActiveUsers)) => (
            402u16,
            "billing.active_user_limit_reached"@,
            "the organization's included monthly active user allowance is exhausted"@,
        ),
        MeteringError::ReportingBlocked => (
            503u16,
            "billing.reporting_unhealthy"@,
            "billable writes are paused until usage reporting recovers"@,
        ),
        MeteringError::InvalidOperation => (
            400u16,
            "query.invalid_statement"@,
            "database request could not be classified"@,
        ),
        _ => (503u16, "billing.metering_unavailable"@, "usage metering is temporarily unavailable"@),
    }
}

/// Answers a metering refusal.
pub fn metering_error(error: MeteringError) -> (r: ErrorReply)
    ensures
        r@ == metering_reply(error),
{
    match error {
        MeteringError::Store(MetricsError::LimitExceeded(LimitKind::WriteUnits)) => reply(
            402,
            "billing.write_limit_reached",
            "the organization's included write allowance is exhausted",
        ),
        MeteringError::Store(MetricsError::LimitExceeded(LimitKind::StorageBytes)) => reply(
            402,
            "billing.storage_limit_reached",
            "the organization's included storage allowance is exhausted",
        ),
        MeteringError::Store(MetricsError::LimitExceeded(LimitKind::MonthlyActiveUsers)) => reply(
            402,
            "billing.active_user_limit_reached",
            "the organization's included monthly active user allowance is exhausted",
        ),
        MeteringError::ReportingBlocked => reply(
            503,
            "billing.reporting_unhealthy",
            "billable writes are paused until usage reporting recovers",
        ),
        MeteringError::InvalidOperation => reply(
            400,
            "query.invalid_statement",
            "database request could not be classified",
        ),
        _ => reply(503, "billing.metering_unavailable", "usage metering is temporarily unavailable"),
    }
}

/// Why a database worker did not execute a request.
#[derive(Clone, Debug, PartialEq, Eq)]
pub enum ExecutionError {
    QueueFull,
    DeadlineExceeded,
    StaleGeneration,
    Unavailable,
    Protocol,
    Rejected { code: String },
}

/// A worker rejection code that may be shown to the caller: one in the
/// query, row-level-security, migration or sync namespace.
pub open spec fn public_rejection_code(code: Seq<u8>) -> bool {
    has_prefix(code, "query.".spec_bytes()) || has_prefix(code, "rls.".spec_bytes()) || has_prefix(
        code,
        "migration.".spec_bytes(),
    ) || has_prefix(code, "sync.".spec_bytes())
}

/// The reply to a worker failure. A rejection keeps the worker's code only
/// where that code is public.
pub open spec fn execution_reply(error: ExecutionError) -> (u16, Seq<char>, Seq<char>) {
    match error {
        ExecutionError::QueueFull => (429u16, "quota.queue_full"@, "project queue is full"@),
        ExecutionError::DeadlineExceeded => (
            408u16,
            "query.deadline_exceeded"@,
            "query deadline exceeded"@,
        ),
        ExecutionError::StaleGeneration | ExecutionError::Unavailable => (
            503u16,
            "project.worker_unavailable"@,
            "database worker is temporarily unavailable"@,
        ),
        ExecutionError::Protocol => internal_error_reply(),
        ExecutionError::Rejected { code } => (
            400u16,
            if public_rejection_code(vstd::utf8::encode_utf8(code@)) {
                code@
            } else {
                "query.rejected"@
            },
            "database request was rejected"@,
        ),
    }
}

/// A rejected request is answered `400`, and keeps the worker's code exactly
/// when that code lies in one of the four public namespaces (`query.`,
/// `rls.`, `migration.`, `sync.`); every other code is hidden behind
/// `query.rejected`.
pub proof fn law_rejections_show_exactly_the_public_namespaces(code: String)
    ensures
        execution_reply(ExecutionError::Rejected { code }).0 == 400,
        ({
            let b = vstd::utf8::encode_utf8(code@);
            let public = has_prefix(b, "query.".spec_bytes()) || has_prefix(b, "rls.".spec_bytes())
                || has_prefix(b, "migration.".spec_bytes()) || has_prefix(b, "sync.".spec_bytes());
            execution_reply(ExecutionError::Rejected { code }).1 == if public {
                code@
            } else {
                "query.rejected"@
            }
        }),
{
}

/// Answers a worker failure; worker codes outside the public namespaces are
/// never passed on.
pub fn execution_error(error: ExecutionError) -> (r: ErrorReply)
    ensures
        r@ == execution_reply(error),
{
    match error {
        ExecutionError::QueueFull => reply(429, "quota.queue_full", "project queue is full"),
        ExecutionError::DeadlineExceeded => reply(
            408,
            "query.deadline_exceeded",
            "query deadline exceeded",
        ),
        ExecutionError::StaleGeneration | ExecutionError::Unavailable => reply(
            503,
            "project.worker_unavailable",
            "database worker is temporarily unavailable",
        ),
        ExecutionError::Protocol => internal_error(),
        ExecutionError::Rejected { code } => {
            let b = code.as_str().as_bytes();
            let public = starts_with(b, "query.".as_bytes()) || starts_with(b, "rls.".as_bytes())
                || starts_with(b, "migration.".as_bytes()) || starts_with(b, "sync.".as_bytes());
            if public {
                ErrorReply { status: 400, code, message: "database request was rejected".to_owned() }
            } else {
                reply(400, "query.rejected", "database request was rejected")
            }
        },
    }
}

/// The whole seconds a client is told to wait: the wait rounded up to a
/// second, and at least one.
pub open spec fn retry_after_seconds(retry_after_ms: u64) -> u64 {
    let rounded = if retry_after_ms + 999 <= u64::MAX {
        ((retry_after_ms + 999) / 1000) as u64
    } else {
        (u64::MAX / 1000) as u64
    };
    if rounded < 1 {
        1
    } else {
        rounded
    }
}

/// Answers a request over its rate limit, with the `retry-after` seconds.
pub fn rate_limited(retry_after_ms: u64) -> (r: (ErrorReply, u64))
    ensures
        r.0@ == (429u16, "rate_limit.exceeded"@, "request rate limit exceeded"@),
        r.1 == retry_after_seconds(retry_after_ms),
        r.1 >= 1,
        r.1 * 1000 >= retry_after_ms || retry_after_ms > u64::MAX - 999,
{
    let seconds = retry_after_ms.saturating_add(999) / 1000;
    let seconds = if seconds < 1 {
        1
    } else {
        seconds
    };
    (reply(429, "rate_limit.exceeded", "request rate limit exceeded"), seconds)
}

} // verus!
