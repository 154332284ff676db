//! The decisions of running a worker operation for a request, as a state
//! machine: each step takes what the last piece of outside work reported
//! and says what to do next, or how the request ends — with which answer,
//! which terminal audit, and whether the idempotency claim is abandoned,
//! the usage reservation released, or the restore marked failed.
use vstd::prelude::*;
use crate::errors::{
    ErrorReply, ExecutionError, IdempotencyError, MeteringError, RoutingError, audit_unavailable,
    control_plane_unavailable, credential_error, execution_error, idempotency_error,
    internal_error, metering_error, rate_limit_unavailable, reply, routing_error, CredentialError,
};
use crate::ids::{BackupId, ProjectId};
use crate::management::AuditOutcome;
use crate::metering::UsagePlan;
use crate::operation::RestoreReply;
use crate::rate_limit::RateVerdict;

verus! {

/// Where a dispatch stands: the outside work it waits for.
#[derive(Clone, Copy, Debug, PartialEq, Eq, Structural)]
pub enum DispatchStage {
    Start,
    RateLimit,
    RequestedAudit,
    Idempotency,
    Route,
    RestoreBegin,
    UsagePlan,
    PrepareUsage,
    Execute,
    Ingest,
    Persist,
    Complete,
    Done,
}

/// What a dispatch knows of its request.
#[derive(Clone, Copy, Debug, PartialEq, Eq, Structural)]
pub struct DispatchState {
    pub stage: DispatchStage,
    pub project_id: ProjectId,
    /// The request carries an idempotency key.
    pub idempotent: bool,
    /// This request owns the idempotency claim of its key.
    pub claimed: bool,
    /// The backup that the operation restores, for a restore.
    pub restore: Option<BackupId>,
    /// Usage metering is configured.
    pub metering: bool,
    /// The control-plane database is configured.
    pub control_plane: bool,
    /// Usage was prepared (and possibly reserved) for the execution.
    pub prepared: bool,
    /// The worker restored the backup that was asked for.
    pub restore_confirmed: bool,
}

/// How the idempotency store admitted the request.
#[derive(Clone, Copy, Debug, PartialEq, Eq, Structural)]
pub enum Admission {
    Owner,
    Replay,
    Conflict,
    InProgress,
    Failed(IdempotencyError),
}

/// How recording the finished response under the idempotency key went.
#[derive(Clone, Copy, Debug, PartialEq, Eq, Structural)]
pub enum Completion {
    Completed,
    ResponseUnserializable,
    OwnershipLost,
    StoreFailed,
}

/// What the last piece of outside work reported.
#[derive(Debug)]
pub enum DispatchEvent {
    Begin { mode_matches: bool },
    RateChecked(RateVerdict),
    RequestedAudit { written: bool },
    Admitted(Admission),
    Routed(Result<ProjectId, RoutingError>),
    RestoreBegun { ok: bool },
    UsagePlanned(Result<Option<UsagePlan>, MeteringError>),
    UsagePrepared(Result<(), MeteringError>),
    Executed(Result<RestoreReply, ExecutionError>),
    UsageIngested(Result<(), MeteringError>),
    Persisted { ok: bool },
    IdempotencyCompleted(Completion),
}

/// Why a dispatch failed.
#[derive(Clone, Debug, PartialEq, Eq)]
pub enum DispatchFailure {
    WrongProject,
    RateLimitUnavailable,
    AuditUnavailable,
    ControlPlaneUnavailable,
    Idempotency(IdempotencyError),
    Routing(RoutingError),
    Internal,
    Metering(MeteringError),
    Execution(ExecutionError),
}

/// How a dispatch answers.
#[derive(Clone, Debug, PartialEq, Eq)]
pub enum DispatchAnswer {
    /// The worker's response, with status 200.
    Success,
    /// The response stored under the idempotency key, replayed.
    Replay,
    /// The key was used for another request.
    IdempotencyConflict,
    /// The key's first request is still running; retry after a second.
    IdempotencyInProgress,
    /// Over the rate limit.
    RateLimited { retry_after_ms: u64 },
    Failed(DispatchFailure),
}

/// How a dispatch ends.
#[derive(Clone, Debug, PartialEq, Eq)]
pub struct DispatchEnd {
    pub answer: DispatchAnswer,
    /// The terminal audit event to append, best effort.
    pub audit: Option<AuditOutcome>,
    /// The idempotency claim is given up so the key can be retried.
    pub abandon_claim: bool,
    /// The usage reservation is released.
    pub release_usage: bool,
    /// The restore is marked failed.
    pub fail_restore: bool,
}

/// What to do next.
#[derive(Clone, Debug, PartialEq, Eq)]
pub enum DispatchAction {
    CheckRateLimit,
    AppendRequestedAudit,
    AdmitIdempotency,
    ResolveRoute { restore: bool },
    BeginRestore,
    PlanUsage,
    PrepareUsage,
    Execute,
    IngestUsage,
    PersistResult,
    CompleteIdempotency,
    Finish(DispatchEnd),
}

/// A dispatch ending with `answer`, the audit, and whether the claim is
/// abandoned; no reservation is released and no restore failed.
pub open spec fn end(answer: DispatchAnswer, audit: Option<AuditOutcome>, abandon: bool) -> DispatchAction {
    DispatchAction::Finish(
        DispatchEnd {
            answer,
            audit,
            abandon_claim: abandon,
            release_usage: false,
            fail_restore: false,
        },
    )
}

pub open spec fn failed(f: DispatchFailure) -> DispatchAnswer {
    DispatchAnswer::Failed(f)
}

pub open spec fn at(s: DispatchState, stage: DispatchStage) -> DispatchState {
    DispatchState { stage, ..s }
}

/// The state machine of a dispatch. An event that does not belong to the
/// stage ends the dispatch as an internal failure, abandoning any claim.
pub open spec fn dispatch_next(s: DispatchState, e: DispatchEvent) -> (DispatchState, DispatchAction) {
    match (s.stage, e) {
        (DispatchStage::Start, DispatchEvent::Begin { mode_matches }) => on_begin(s, mode_matches),
        (DispatchStage::RateLimit, DispatchEvent::RateChecked(verdict)) => on_rate(s, verdict),
        (DispatchStage::RequestedAudit, DispatchEvent::RequestedAudit { written }) => on_requested_audit(
            s,
            written,
        ),
        (DispatchStage::Idempotency, DispatchEvent::Admitted(admission)) => on_admitted(s, admission),
        (DispatchStage::Route, DispatchEvent::Routed(routed)) => on_routed(s, routed),
        (DispatchStage::RestoreBegin, DispatchEvent::RestoreBegun { ok }) => on_restore_begun(s, ok),
        (DispatchStage::UsagePlan, DispatchEvent::UsagePlanned(planned)) => on_usage_planned(s, planned),
        (DispatchStage::PrepareUsage, DispatchEvent::UsagePrepared(prepared)) => on_usage_prepared(
            s,
            prepared,
        ),
        (DispatchStage::Execute, DispatchEvent::Executed(executed)) => on_executed(s, executed),
        (DispatchStage::Ingest, DispatchEvent::UsageIngested(ingested)) => on_ingested(s, ingested),
        (DispatchStage::Persist, DispatchEvent::Persisted { ok }) => on_persisted(s, ok),
        (DispatchStage::Complete, DispatchEvent::IdempotencyCompleted(completion)) => on_completed(
            s,
            completion,
        ),
        _ => (at(s, DispatchStage::Done), end(failed(DispatchFailure::Internal), None, s.claimed)),
    }
}

/// The request's principal may act on the project; a principal of another
/// project is refused.
pub open spec fn on_begin(s: DispatchState, mode_matches: bool) -> (DispatchState, DispatchAction) {
    if mode_matches {
        (at(s, DispatchStage::RateLimit), DispatchAction::CheckRateLimit)
    } else {
        (at(s, DispatchStage::Done), end(failed(DispatchFailure::WrongProject), None, false))
    }
}

/// Over the limit, or without a working limiter, the request ends.
pub open spec fn on_rate(s: DispatchState, verdict: RateVerdict) -> (DispatchState, DispatchAction) {
    match verdict {
        RateVerdict::Admit => (at(s, DispatchStage::RequestedAudit), DispatchAction::AppendRequestedAudit),
        RateVerdict::Limited { retry_after_ms } => (
            at(s, DispatchStage::Done),
            end(DispatchAnswer::RateLimited { retry_after_ms }, None, false),
        ),
        RateVerdict::Unavailable => (
            at(s, DispatchStage::Done),
            end(failed(DispatchFailure::RateLimitUnavailable), None, false),
        ),
    }
}

/// Nothing runs unless its request was audited first.
pub open spec fn on_requested_audit(s: DispatchState, written: bool) -> (DispatchState, DispatchAction) {
    if !written {
        (at(s, DispatchStage::Done), end(failed(DispatchFailure::AuditUnavailable), None, false))
    } else if s.idempotent {
        if s.control_plane {
            (at(s, DispatchStage::Idempotency), DispatchAction::AdmitIdempotency)
        } else {
            (at(s, DispatchStage::Done), end(failed(DispatchFailure::ControlPlaneUnavailable), None, false))
        }
    } else {
        (at(s, DispatchStage::Route), DispatchAction::ResolveRoute { restore: s.restore is Some })
    }
}

/// Only the owner of the key's claim goes on; a finished key is replayed.
pub open spec fn on_admitted(s: DispatchState, admission: Admission) -> (DispatchState, DispatchAction) {
    let done = at(s, DispatchStage::Done);
    match admission {
        Admission::Owner => (
            DispatchState { stage: DispatchStage::Route, claimed: true, ..s },
            DispatchAction::ResolveRoute { restore: s.restore is Some },
        ),
        Admission::Replay => (done, end(DispatchAnswer::Replay, Some(AuditOutcome::Success), false)),
        Admission::Conflict => (done, end(DispatchAnswer::IdempotencyConflict, None, false)),
        Admission::InProgress => (done, end(DispatchAnswer::IdempotencyInProgress, None, false)),
        Admission::Failed(error) => (done, end(failed(DispatchFailure::Idempotency(error)), None, false)),
    }
}

/// The route must lead to the requested project; a restore needs a claim
/// to take its receipt from.
pub open spec fn on_routed(s: DispatchState, routed: Result<ProjectId, RoutingError>) -> (DispatchState, DispatchAction) {
    let done = at(s, DispatchStage::Done);
    match routed {
        Err(error) => (
            done,
            end(failed(DispatchFailure::Routing(error)), Some(AuditOutcome::Failure), s.claimed),
        ),
        Ok(route_project) => if route_project != s.project_id {
            (done, end(failed(DispatchFailure::Internal), Some(AuditOutcome::Failure), s.claimed))
        } else if s.restore is Some {
            if s.claimed {
                (at(s, DispatchStage::RestoreBegin), DispatchAction::BeginRestore)
            } else {
                (done, end(failed(DispatchFailure::Internal), None, s.claimed))
            }
        } else {
            (at(s, DispatchStage::UsagePlan), DispatchAction::PlanUsage)
        },
    }
}

pub open spec fn on_restore_begun(s: DispatchState, ok: bool) -> (DispatchState, DispatchAction) {
    if ok {
        (at(s, DispatchStage::UsagePlan), DispatchAction::PlanUsage)
    } else {
        (
            at(s, DispatchStage::Done),
            end(failed(DispatchFailure::ControlPlaneUnavailable), Some(AuditOutcome::Failure), s.claimed),
        )
    }
}

/// Metered operations are prepared for when metering is configured.
pub open spec fn on_usage_planned(
    s: DispatchState,
    planned: Result<Option<UsagePlan>, MeteringError>,
) -> (DispatchState, DispatchAction) {
    match planned {
        Err(error) => (
            at(s, DispatchStage::Done),
            end(failed(DispatchFailure::Metering(error)), None, s.claimed),
        ),
        Ok(Some(_)) => if s.metering {
            (at(s, DispatchStage::PrepareUsage), DispatchAction::PrepareUsage)
        } else {
            (at(s, DispatchStage::Execute), DispatchAction::Execute)
        },
        Ok(None) => (at(s, DispatchStage::Execute), DispatchAction::Execute),
    }
}

/// Usage that cannot be admitted denies the request.
pub open spec fn on_usage_prepared(s: DispatchState, prepared: Result<(), MeteringError>) -> (DispatchState, DispatchAction) {
    match prepared {
        Err(error) => (
            at(s, DispatchStage::Done),
            end(failed(DispatchFailure::Metering(error)), Some(AuditOutcome::Denied), s.claimed),
        ),
        Ok(()) => (
            DispatchState { stage: DispatchStage::Execute, prepared: true, ..s },
            DispatchAction::Execute,
        ),
    }
}

/// A worker failure releases the prepared usage; a rejection is audited as
/// denied. A success records whether a restore restored what was asked.
pub open spec fn on_executed(s: DispatchState, executed: Result<RestoreReply, ExecutionError>) -> (DispatchState, DispatchAction) {
    match executed {
        Err(error) => (
            at(s, DispatchStage::Done),
            DispatchAction::Finish(
                DispatchEnd {
                    answer: failed(DispatchFailure::Execution(error)),
                    audit: Some(
                        if error is Rejected {
                            AuditOutcome::Denied
                        } else {
                            AuditOutcome::Failure
                        },
                    ),
                    abandon_claim: s.claimed,
                    release_usage: s.prepared,
                    fail_restore: false,
                },
            ),
        ),
        Ok(reply) => {
            let confirmed = match s.restore {
                Some(b) => reply == RestoreReply::Restored { backup_id: b },
                None => true,
            };
            let next = DispatchState { restore_confirmed: confirmed, ..s };
            if s.prepared {
                (at(next, DispatchStage::Ingest), DispatchAction::IngestUsage)
            } else {
                after_ingest(next)
            }
        },
    }
}

pub open spec fn on_ingested(s: DispatchState, ingested: Result<(), MeteringError>) -> (DispatchState, DispatchAction) {
    match ingested {
        Err(error) => (
            at(s, DispatchStage::Done),
            end(failed(DispatchFailure::Metering(error)), Some(AuditOutcome::Failure), s.claimed),
        ),
        Ok(()) => after_ingest(s),
    }
}

/// A persisted result is recorded under a claimed key before it is
/// answered.
pub open spec fn on_persisted(s: DispatchState, ok: bool) -> (DispatchState, DispatchAction) {
    let done = at(s, DispatchStage::Done);
    if !ok {
        (done, end(failed(DispatchFailure::ControlPlaneUnavailable), Some(AuditOutcome::Failure), s.claimed))
    } else if s.claimed {
        if s.control_plane {
            (at(s, DispatchStage::Complete), DispatchAction::CompleteIdempotency)
        } else {
            (done, end(failed(DispatchFailure::ControlPlaneUnavailable), None, false))
        }
    } else {
        (done, end(DispatchAnswer::Success, Some(AuditOutcome::Success), false))
    }
}

pub open spec fn on_completed(s: DispatchState, completion: Completion) -> (DispatchState, DispatchAction) {
    let done = at(s, DispatchStage::Done);
    match completion {
        Completion::Completed => (done, end(DispatchAnswer::Success, Some(AuditOutcome::Success), false)),
        Completion::ResponseUnserializable => (done, end(failed(DispatchFailure::Internal), None, true)),
        Completion::OwnershipLost | Completion::StoreFailed => (
            done,
            end(failed(DispatchFailure::ControlPlaneUnavailable), None, false),
        ),
    }
}

/// After the worker's usage is settled: a restore that the worker did not
/// confirm fails; otherwise the result is persisted.
pub open spec fn after_ingest(s: DispatchState) -> (DispatchState, DispatchAction) {
    if !s.restore_confirmed {
        (
            at(s, DispatchStage::Done),
            DispatchAction::Finish(
                DispatchEnd {
                    answer: failed(DispatchFailure::Internal),
                    audit: Some(AuditOutcome::Failure),
                    abandon_claim: s.claimed,
                    release_usage: false,
                    fail_restore: true,
                },
            ),
        )
    } else {
        (at(s, DispatchStage::Persist), DispatchAction::PersistResult)
    }
}

/// A dispatch that has not started yet.
pub fn dispatch_start(
    project_id: ProjectId,
    idempotent: bool,
    restore: Option<BackupId>,
    metering: bool,
    control_plane: bool,
) -> (s: DispatchState)
    ensures
        s == (DispatchState {
            stage: DispatchStage::Start,
            project_id,
            idempotent,
            claimed: false,
            restore,
            metering,
            control_plane,
            prepared: false,
            restore_confirmed: false,
        }),
{
    DispatchState {
        stage: DispatchStage::Start,
        project_id,
        idempotent,
        claimed: false,
        restore,
        metering,
        control_plane,
        prepared: false,
        restore_confirmed: false,
    }
}

fn finish(answer: DispatchAnswer, audit: Option<AuditOutcome>, abandon: bool) -> (r: DispatchAction)
    ensures
        r == end(answer, audit, abandon),
{
    DispatchAction::Finish(
        DispatchEnd { answer, audit, abandon_claim: abandon, release_usage: false, fail_restore: false },
    )
}

fn after_ingest_exec(s: DispatchState) -> (r: (DispatchState, DispatchAction))
    ensures
        r == after_ingest(s),
{
    if !s.restore_confirmed {
        (
            DispatchState { stage: DispatchStage::Done, ..s },
            DispatchAction::Finish(
                DispatchEnd {
                    answer: DispatchAnswer::Failed(DispatchFailure::Internal),
                    audit: Some(AuditOutcome::Failure),
                    abandon_claim: s.claimed,
                    release_usage: false,
                    fail_restore: true,
                },
            ),
        )
    } else {
        (DispatchState { stage: DispatchStage::Persist, ..s }, DispatchAction::PersistResult)
    }
}

fn done_state(s: DispatchState) -> (r: DispatchState)
    ensures
        r == at(s, DispatchStage::Done),
{
    DispatchState { stage: DispatchStage::Done, ..s }
}

fn step_begin(s: DispatchState, mode_matches: bool) -> (r: (DispatchState, DispatchAction))
    ensures
        r == on_begin(s, mode_matches),
{
    if mode_matches {
        (DispatchState { stage: DispatchStage::RateLimit, ..s }, DispatchAction::CheckRateLimit)
    } else {
        (done_state(s), finish(DispatchAnswer::Failed(DispatchFailure::WrongProject), None, false))
    }
}

fn step_rate(s: DispatchState, verdict: RateVerdict) -> (r: (DispatchState, DispatchAction))
    ensures
        r == on_rate(s, verdict),
{
    match verdict {
        RateVerdict::Admit => (
            DispatchState { stage: DispatchStage::RequestedAudit, ..s },
            DispatchAction::AppendRequestedAudit,
        ),
        RateVerdict::Limited { retry_after_ms } => (
            done_state(s),
            finish(DispatchAnswer::RateLimited { retry_after_ms }, None, false),
        ),
        RateVerdict::Unavailable => (
            done_state(s),
            finish(DispatchAnswer::Failed(DispatchFailure::RateLimitUnavailable), None, false),
        ),
    }
}

fn step_requested_audit(s: DispatchState, written: bool) -> (r: (DispatchState, DispatchAction))
    ensures
        r == on_requested_audit(s, written),
{
    if !written {
        (done_state(s), finish(DispatchAnswer::Failed(DispatchFailure::AuditUnavailable), None, false))
    } else if s.idempotent {
        if s.control_plane {
            (DispatchState { stage: DispatchStage::Idempotency, ..s }, DispatchAction::AdmitIdempotency)
        } else {
            (
                done_state(s),
                finish(DispatchAnswer::Failed(DispatchFailure::ControlPlaneUnavailable), None, false),
            )
        }
    } else {
        (
            DispatchState { stage: DispatchStage::Route, ..s },
            DispatchAction::ResolveRoute { restore: s.restore.is_some() },
        )
    }
}

fn step_admitted(s: DispatchState, admission: Admission) -> (r: (DispatchState, DispatchAction))
    ensures
        r == on_admitted(s, admission),
{
    match admission {
        Admission::Owner => (
            DispatchState { stage: DispatchStage::Route, claimed: true, ..s },
            DispatchAction::ResolveRoute { restore: s.restore.is_some() },
        ),
        Admission::Replay => (done_state(s), finish(DispatchAnswer::Replay, Some(AuditOutcome::Success), false)),
        Admission::Conflict => (done_state(s), finish(DispatchAnswer::IdempotencyConflict, None, false)),
        Admission::InProgress => (done_state(s), finish(DispatchAnswer::IdempotencyInProgress, None, false)),
        Admission::Failed(error) => (
            done_state(s),
            finish(DispatchAnswer::Failed(DispatchFailure::Idempotency(error)), None, false),
        ),
    }
}

fn step_routed(s: DispatchState, routed: Result<ProjectId, RoutingError>) -> (r: (DispatchState, DispatchAction))
    ensures
        r == on_routed(s, routed),
{
    match routed {
        Err(error) => (
            done_state(s),
            finish(
                DispatchAnswer::Failed(DispatchFailure::Routing(error)),
                Some(AuditOutcome::Failure),
                s.claimed,
            ),
        ),
        Ok(route_project) => if route_project.0 != s.project_id.0 {
            (
                done_state(s),
                finish(DispatchAnswer::Failed(DispatchFailure::Internal), Some(AuditOutcome::Failure), s.claimed),
            )
        } else if s.restore.is_some() {
            if s.claimed {
                (DispatchState { stage: DispatchStage::RestoreBegin, ..s }, DispatchAction::BeginRestore)
            } else {
                (done_state(s), finish(DispatchAnswer::Failed(DispatchFailure::Internal), None, s.claimed))
            }
        } else {
            (DispatchState { stage: DispatchStage::UsagePlan, ..s }, DispatchAction::PlanUsage)
        },
    }
}

fn step_restore_begun(s: DispatchState, ok: bool) -> (r: (DispatchState, DispatchAction))
    ensures
        r == on_restore_begun(s, ok),
{
    if ok {
        (DispatchState { stage: DispatchStage::UsagePlan, ..s }, DispatchAction::PlanUsage)
    } else {
        (
            done_state(s),
            finish(
                DispatchAnswer::Failed(DispatchFailure::ControlPlaneUnavailable),
                Some(AuditOutcome::Failure),
                s.claimed,
            ),
        )
    }
}

fn step_usage_planned(s: DispatchState, planned: Result<Option<UsagePlan>, MeteringError>) -> (r: (DispatchState, DispatchAction))
    ensures
        r == on_usage_planned(s, planned),
{
    match planned {
        Err(error) => (
            done_state(s),
            finish(DispatchAnswer::Failed(DispatchFailure::Metering(error)), None, s.claimed),
        ),
        Ok(Some(_)) => if s.metering {
            (DispatchState { stage: DispatchStage::PrepareUsage, ..s }, DispatchAction::PrepareUsage)
        } else {
            (DispatchState { stage: DispatchStage::Execute, ..s }, DispatchAction::Execute)
        },
        Ok(None) => (DispatchState { stage: DispatchStage::Execute, ..s }, DispatchAction::Execute),
    }
}

fn step_usage_prepared(s: DispatchState, prepared: Result<(), MeteringError>) -> (r: (DispatchState, DispatchAction))
    ensures
        r == on_usage_prepared(s, prepared),
{
    match prepared {
        Err(error) => (
            done_state(s),
            finish(
                DispatchAnswer::Failed(DispatchFailure::Metering(error)),
                Some(AuditOutcome::Denied),
                s.claimed,
            ),
        ),
        Ok(()) => (
            DispatchState { stage: DispatchStage::Execute, prepared: true, ..s },
            DispatchAction::Execute,
        ),
    }
}

fn step_executed(s: DispatchState, executed: Result<RestoreReply, ExecutionError>) -> (r: (DispatchState, DispatchAction))
    ensures
        r == on_executed(s, executed),
{
    match executed {
        Err(error) => {
            let audit = match &error {
                ExecutionError::Rejected { .. } => AuditOutcome::Denied,
                _ => AuditOutcome::Failure,
            };
            (
                done_state(s),
                DispatchAction::Finish(
                    DispatchEnd {
                        answer: DispatchAnswer::Failed(DispatchFailure::Execution(error)),
                        audit: Some(audit),
                        abandon_claim: s.claimed,
                        release_usage: s.prepared,
                        fail_restore: false,
                    },
                ),
            )
        },
        Ok(reply) => {
            let confirmed = match s.restore {
                Some(b) => match reply {
                    RestoreReply::Restored { backup_id } => backup_id.0 == b.0,
                    RestoreReply::Other => false,
                },
                None => true,
            };
            let next = DispatchState { restore_confirmed: confirmed, ..s };
            if s.prepared {
                (DispatchState { stage: DispatchStage::Ingest, ..next }, DispatchAction::IngestUsage)
            } else {
                after_ingest_exec(next)
            }
        },
    }
}

fn step_ingested(s: DispatchState, ingested: Result<(), MeteringError>) -> (r: (DispatchState, DispatchAction))
    ensures
        r == on_ingested(s, ingested),
{
    match ingested {
        Err(error) => (
            done_state(s),
            finish(
                DispatchAnswer::Failed(DispatchFailure::Metering(error)),
                Some(AuditOutcome::Failure),
                s.claimed,
            ),
        ),
        Ok(()) => after_ingest_exec(s),
    }
}

fn step_persisted(s: DispatchState, ok: bool) -> (r: (DispatchState, DispatchAction))
    ensures
        r == on_persisted(s, ok),
{
    if !ok {
        (
            done_state(s),
            finish(
                DispatchAnswer::Failed(DispatchFailure::ControlPlaneUnavailable),
                Some(AuditOutcome::Failure),
                s.claimed,
            ),
        )
    } else if s.claimed {
        if s.control_plane {
            (DispatchState { stage: DispatchStage::Complete, ..s }, DispatchAction::CompleteIdempotency)
        } else {
            (
                done_state(s),
                finish(DispatchAnswer::Failed(DispatchFailure::ControlPlaneUnavailable), None, false),
            )
        }
    } else {
        (done_state(s), finish(DispatchAnswer::Success, Some(AuditOutcome::Success), false))
    }
}

fn step_completed(s: DispatchState, completion: Completion) -> (r: (DispatchState, DispatchAction))
    ensures
        r == on_completed(s, completion),
{
    match completion {
        Completion::Completed => (done_state(s), finish(DispatchAnswer::Success, Some(AuditOutcome::Success), false)),
        Completion::ResponseUnserializable => (
            done_state(s),
            finish(DispatchAnswer::Failed(DispatchFailure::Internal), None, true),
        ),
        Completion::OwnershipLost | Completion::StoreFailed => (
            done_state(s),
            finish(DispatchAnswer::Failed(DispatchFailure::ControlPlaneUnavailable), None, false),
        ),
    }
}

/// Takes one step of a dispatch.
pub fn dispatch_step(s: DispatchState, e: DispatchEvent) -> (r: (DispatchState, DispatchAction))
    ensures
        r == dispatch_next(s, e),
{
    match (s.stage, e) {
        (DispatchStage::Start, DispatchEvent::Begin { mode_matches }) => step_begin(s, mode_matches),
        (DispatchStage::RateLimit, DispatchEvent::RateChecked(verdict)) => step_rate(s, verdict),
        (DispatchStage::RequestedAudit, DispatchEvent::RequestedAudit { written }) => step_requested_audit(
            s,
            written,
        ),
        (DispatchStage::Idempotency, DispatchEvent::Admitted(admission)) => step_admitted(s, admission),
        (DispatchStage::Route, DispatchEvent::Routed(routed)) => step_routed(s, routed),
        (DispatchStage::RestoreBegin, DispatchEvent::RestoreBegun { ok }) => step_restore_begun(s, ok),
        (DispatchStage::UsagePlan, DispatchEvent::UsagePlanned(planned)) => step_usage_planned(s, planned),
        (DispatchStage::PrepareUsage, DispatchEvent::UsagePrepared(prepared)) => step_usage_prepared(
            s,
            prepared,
        ),
        (DispatchStage::Execute, DispatchEvent::Executed(executed)) => step_executed(s, executed),
        (DispatchStage::Ingest, DispatchEvent::UsageIngested(ingested)) => step_ingested(s, ingested),
        (DispatchStage::Persist, DispatchEvent::Persisted { ok }) => step_persisted(s, ok),
        (DispatchStage::Complete, DispatchEvent::IdempotencyCompleted(completion)) => step_completed(
            s,
            completion,
        ),
        _ => (done_state(s), finish(DispatchAnswer::Failed(DispatchFailure::Internal), None, s.claimed)),
    }
}

/// The error answer of a failed dispatch.
pub fn dispatch_failure_reply(failure: DispatchFailure) -> (r: ErrorReply)
    ensures
        r@ == match failure {
            DispatchFailure::WrongProject => crate::errors::credential_reply(
                CredentialError::WrongProject,
            ),
            DispatchFailure::RateLimitUnavailable => crate::errors::rate_limit_unavailable_reply(),
            DispatchFailure::AuditUnavailable => crate::errors::audit_unavailable_reply(),
            DispatchFailure::ControlPlaneUnavailable => crate::errors::control_plane_unavailable_reply(),
            DispatchFailure::Idempotency(e) => crate::errors::idempotency_reply(e),
            DispatchFailure::Routing(e) => crate::errors::routing_reply(e),
            DispatchFailure::Internal => crate::errors::internal_error_reply(),
            DispatchFailure::Metering(e) => crate::errors::metering_reply(e),
            DispatchFailure::Execution(e) => crate::errors::execution_reply(e),
        },
{
    match failure {
        DispatchFailure::WrongProject => credential_error(CredentialError::WrongProject),
        DispatchFailure::RateLimitUnavailable => rate_limit_unavailable(),
        DispatchFailure::AuditUnavailable => audit_unavailable(),
        DispatchFailure::ControlPlaneUnavailable => control_plane_unavailable(),
        DispatchFailure::Idempotency(e) => idempotency_error(e),
        DispatchFailure::Routing(e) => routing_error(e),
        DispatchFailure::Internal => internal_error(),
        DispatchFailure::Metering(e) => metering_error(e),
        DispatchFailure::Execution(e) => execution_error(e),
    }
}

/// The answers to a reused or busy idempotency key.
pub fn idempotency_conflict_reply() -> (r: ErrorReply)
    ensures
        r@ == (409u16, "idempotency.request_conflict"@,
            "the idempotency key was already used for a different request"@),
{
    reply(409, "idempotency.request_conflict", "the idempotency key was already used for a different request")
}

pub fn idempotency_in_progress_reply() -> (r: ErrorReply)
    ensures
        r@ == (409u16, "idempotency.in_progress"@,
            "an operation with this idempotency key is still in progress"@),
{
    reply(409, "idempotency.in_progress", "an operation with this idempotency key is still in progress")
}

/// A dispatch only succeeds after its result was persisted, and, for a
/// claimed key, after the response was recorded under the key: success is
/// reached from the persist stage without a claim, or from the completion
/// stage with the response recorded.
pub proof fn law_success_only_after_persisting(s: DispatchState, e: DispatchEvent)
    requires
        dispatch_next(s, e).1 matches DispatchAction::Finish(end) && end.answer is Success,
    ensures
        (s.stage == DispatchStage::Persist && !s.claimed && e == (DispatchEvent::Persisted { ok: true }))
            || (s.stage == DispatchStage::Complete && e == DispatchEvent::IdempotencyCompleted(
            Completion::Completed,
        )),
{
}

/// Every failure between owning the claim and persisting the result gives
/// the claim up, so that the key can be retried.
pub proof fn law_failures_before_persisting_abandon_the_claim(s: DispatchState, e: DispatchEvent)
    requires
        s.claimed,
        s.stage == DispatchStage::Route || s.stage == DispatchStage::RestoreBegin || s.stage
            == DispatchStage::UsagePlan || s.stage == DispatchStage::PrepareUsage || s.stage
            == DispatchStage::Execute || s.stage == DispatchStage::Ingest || s.stage
            == DispatchStage::Persist,
        dispatch_next(s, e).1 matches DispatchAction::Finish(end) && end.answer is Failed,
        !(s.stage == DispatchStage::Persist && e == (DispatchEvent::Persisted { ok: true })),
    ensures
        dispatch_next(s, e).1 matches DispatchAction::Finish(end) && end.abandon_claim,
{
}

/// A usage reservation is released exactly when the worker failed after
/// usage was prepared; a worker that succeeded keeps it, so that a retry can
/// settle it without counting twice.
pub proof fn law_reservation_released_only_on_worker_failure(s: DispatchState, e: DispatchEvent)
    requires
        dispatch_next(s, e).1 matches DispatchAction::Finish(end) && end.release_usage,
    ensures
        s.stage == DispatchStage::Execute,
        s.prepared,
        e matches DispatchEvent::Executed(Err(_)),
{
}

/// A restore that the worker did not confirm for the requested backup never
/// succeeds: it marks the restore failed instead of persisting.
pub proof fn law_unconfirmed_restore_fails(s: DispatchState, e: DispatchEvent)
    requires
        s.stage == DispatchStage::Execute,
        s.restore matches Some(b),
        !s.prepared,
        e matches DispatchEvent::Executed(Ok(reply)) && reply != (RestoreReply::Restored {
            backup_id: s.restore.unwrap(),
        }),
    ensures
        dispatch_next(s, e).1 matches DispatchAction::Finish(end) && end.fail_restore && end.answer
            is Failed,
{
}

/// Every failure after the worker was reached, and every routing failure, is
/// audited, except a control plane found missing after the result was
/// persisted.
pub proof fn law_late_failures_are_audited(s: DispatchState, e: DispatchEvent)
    requires
        s.stage == DispatchStage::Execute || s.stage == DispatchStage::Ingest || s.stage
            == DispatchStage::PrepareUsage || s.stage == DispatchStage::RestoreBegin || (s.stage
            == DispatchStage::Persist && e == (DispatchEvent::Persisted { ok: false })) || (s.stage == DispatchStage::Route
            && e matches DispatchEvent::Routed(Err(_))),
        s.stage == DispatchStage::Execute ==> e is Executed,
        s.stage == DispatchStage::Ingest ==> e is UsageIngested,
        s.stage == DispatchStage::PrepareUsage ==> e is UsagePrepared,
        s.stage == DispatchStage::RestoreBegin ==> e is RestoreBegun,
        dispatch_next(s, e).1 matches DispatchAction::Finish(end) && end.answer is Failed,
    ensures
        dispatch_next(s, e).1 matches DispatchAction::Finish(end) && end.audit is Some,
{
}


/// Every metered operation is metered, reads as well as writes: at the
/// usage-planning stage, a plan (whatever its read and write units) leads to
/// usage preparation when metering is configured and straight to execution
/// otherwise, and the next step never depends on the plan's units.
pub proof fn law_every_usage_plan_is_prepared_when_metering(s: DispatchState, p1: UsagePlan, p2: UsagePlan)
    requires
        s.stage == DispatchStage::UsagePlan,
    ensures
        dispatch_next(s, DispatchEvent::UsagePlanned(Ok(Some(p1)))) == dispatch_next(
            s,
            DispatchEvent::UsagePlanned(Ok(Some(p2))),
        ),
        s.metering ==> dispatch_next(s, DispatchEvent::UsagePlanned(Ok(Some(p1)))) == (
            DispatchState { stage: DispatchStage::PrepareUsage, ..s },
            DispatchAction::PrepareUsage,
        ),
        !s.metering ==> dispatch_next(s, DispatchEvent::UsagePlanned(Ok(Some(p1)))) == (
            DispatchState { stage: DispatchStage::Execute, ..s },
            DispatchAction::Execute,
        ),
{
}

} // verus!
