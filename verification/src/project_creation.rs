//! Creating a project under an idempotency key, as a state machine: each step
//! takes what the last piece of outside work (authentication, the instance,
//! the organization's membership, the rate limiter, the audit log, the
//! idempotency store, the project registry, provisioning) reported and says
//! what to do next. Every way it ends after the requested audit event appends
//! a terminal audit event.
use vstd::prelude::*;
use crate::dispatch::Admission;
use crate::errors::IdempotencyError;
use crate::ids::ProjectId;
use crate::instance::InstanceServiceError;
use crate::management::{AdmissionAnswer, AuditOutcome, RegistryError, management_admission};

verus! {

/// The outside work a project creation waits for.
#[derive(Clone, Copy, Debug, PartialEq, Eq, Structural)]
pub enum CreationStage {
    /// The caller is authenticated as a developer.
    Authenticate,
    /// The instance is present and its setup complete.
    CheckSetup,
    /// The caller administers the organization the project is created in.
    AuthorizeAdmin,
    /// The caller's rate limit admits the request.
    RateLimit,
    /// The requested audit event is written.
    RequestedAudit,
    /// The request is hashed for its idempotency key.
    Hash,
    /// The idempotency store admits the key.
    Admission,
    /// The registry creates the project.
    Create,
    /// After a registry conflict, an earlier creation of the same project is looked up.
    Recover,
    /// The project's database is provisioned.
    Provision,
    /// The claim on the key is confirmed to still be ours.
    ConfirmOwner,
    /// The response is recorded under the key.
    Complete,
    Done,
}

/// What a project creation knows.
#[derive(Clone, Copy, Debug, PartialEq, Eq, Structural)]
pub struct CreationState {
    pub stage: CreationStage,
    /// This request owns the claim on its idempotency key.
    pub claimed: bool,
    /// The project that was created or recovered.
    pub project: Option<ProjectId>,
}

/// What the last piece of outside work reported.
#[derive(Debug)]
pub enum CreationEvent {
    Authenticated(bool),
    /// `Err(Unavailable)` where the instance service is missing; otherwise
    /// what the setup check gave.
    SetupChecked(Result<(), InstanceServiceError>),
    AdminAuthorized(bool),
    RateChecked(bool),
    RequestedAuditWritten(bool),
    Hashed(Result<(), IdempotencyError>),
    Admitted(Admission),
    Created(Result<ProjectId, RegistryError>),
    /// The earlier creation found after a conflict; `Err` where the lookup failed.
    Recovered(Result<Option<ProjectId>, ()>),
    /// `Err` where provisioning failed with its own answer.
    Provisioned(Result<ProjectId, ()>),
    OwnerConfirmed(bool),
    Completed(bool),
}

/// Why a project creation failed.
#[derive(Clone, Copy, Debug, PartialEq, Eq, Structural)]
pub enum CreationFailure {
    /// Authentication failed; the authenticator gives the answer.
    Unauthenticated,
    /// The instance is missing or its setup is not complete.
    Instance(InstanceServiceError),
    /// The caller does not administer the organization; the authorizer
    /// gives the answer.
    NotOrganizationAdmin,
    /// Over the caller's rate limit; the limiter gives the answer.
    RateLimited,
    AuditUnavailable,
    Idempotency(IdempotencyError),
    IdempotencyConflict,
    IdempotencyInProgress,
    Registry(RegistryError),
    ControlPlaneUnavailable,
    /// Provisioning failed; its own answer is given.
    Provisioning,
    /// An event that does not belong to the stage.
    Internal,
}

/// How a project creation answers.
#[derive(Clone, Copy, Debug, PartialEq, Eq, Structural)]
pub enum CreationAnswer {
    /// `201` with the project.
    Created(ProjectId),
    /// The response stored under the key, replayed.
    Replay,
    Failed(CreationFailure),
}

/// How a project creation ends: the answer, the outcome of the terminal
/// audit event (none before the requested one was written) and the project it
/// names, and whether the claim on the key is given up so that the key can be
/// retried.
#[derive(Clone, Copy, Debug, PartialEq, Eq, Structural)]
pub struct CreationEnd {
    pub answer: CreationAnswer,
    pub audit: Option<AuditOutcome>,
    pub audit_project: Option<ProjectId>,
    pub abandon_claim: bool,
}

/// What to do next.
#[derive(Clone, Copy, Debug, PartialEq, Eq, Structural)]
pub enum CreationAction {
    CheckSetup,
    AuthorizeAdmin,
    CheckRateLimit,
    WriteRequestedAudit,
    HashRequest,
    AdmitKey,
    CreateProject,
    RecoverProject,
    ProvisionProject(ProjectId),
    ConfirmOwner,
    CompleteKey,
    Finish(CreationEnd),
}

pub open spec fn finish(
    s: CreationState,
    answer: CreationAnswer,
    audit: AuditOutcome,
    abandon: bool,
) -> (CreationState, CreationAction) {
    (
        CreationState { stage: CreationStage::Done, ..s },
        CreationAction::Finish(
            CreationEnd { answer, audit: Some(audit), audit_project: s.project, abandon_claim: abandon },
        ),
    )
}

/// A refusal before the requested audit event: no terminal audit, no claim.
pub open spec fn refuse(s: CreationState, failure: CreationFailure) -> (CreationState, CreationAction) {
    (
        CreationState { stage: CreationStage::Done, ..s },
        CreationAction::Finish(
            CreationEnd {
                answer: CreationAnswer::Failed(failure),
                audit: None,
                audit_project: s.project,
                abandon_claim: false,
            },
        ),
    )
}

/// The stages before the requested audit event is written.
pub open spec fn before_requested_audit(stage: CreationStage) -> bool {
    stage == CreationStage::Authenticate || stage == CreationStage::CheckSetup || stage
        == CreationStage::AuthorizeAdmin || stage == CreationStage::RateLimit || stage
        == CreationStage::RequestedAudit
}

/// The checks that come first, in order: the caller is authenticated, the
/// instance is set up, the caller administers the organization, the rate
/// limit admits the request and the requested audit event is written. A
/// failed check ends the creation without a terminal audit event.
pub open spec fn checks_next(s: CreationState, e: CreationEvent) -> (CreationState, CreationAction) {
    match (s.stage, e) {
        (CreationStage::Authenticate, CreationEvent::Authenticated(ok)) => if ok {
            (CreationState { stage: CreationStage::CheckSetup, ..s }, CreationAction::CheckSetup)
        } else {
            refuse(s, CreationFailure::Unauthenticated)
        },
        (CreationStage::CheckSetup, CreationEvent::SetupChecked(checked)) => match checked {
            Ok(()) => (CreationState { stage: CreationStage::AuthorizeAdmin, ..s }, CreationAction::AuthorizeAdmin),
            Err(error) => refuse(s, CreationFailure::Instance(error)),
        },
        (CreationStage::AuthorizeAdmin, CreationEvent::AdminAuthorized(ok)) => if ok {
            (CreationState { stage: CreationStage::RateLimit, ..s }, CreationAction::CheckRateLimit)
        } else {
            refuse(s, CreationFailure::NotOrganizationAdmin)
        },
        (CreationStage::RateLimit, CreationEvent::RateChecked(ok)) => if ok {
            (CreationState { stage: CreationStage::RequestedAudit, ..s }, CreationAction::WriteRequestedAudit)
        } else {
            refuse(s, CreationFailure::RateLimited)
        },
        (CreationStage::RequestedAudit, CreationEvent::RequestedAuditWritten(ok)) => if ok {
            (CreationState { stage: CreationStage::Hash, ..s }, CreationAction::HashRequest)
        } else {
            refuse(s, CreationFailure::AuditUnavailable)
        },
        _ => refuse(s, CreationFailure::Internal),
    }
}

/// The state machine of a project creation.
/// - First come the checks of `checks_next`.
/// - A request that cannot be hashed fails as an idempotency error.
/// - Only the owner of the key's claim creates the project; a replay,
///   a reused or busy key and a failing store end as the admission says.
/// - A registry conflict looks for an earlier creation of the same project;
///   none found is a conflict, a failed lookup is an unavailable control
///   plane; any other registry failure is answered as it is. These failures
///   give up the claim.
/// - A created project is provisioned; a failed provisioning gives up the
///   claim and gives its own answer.
/// - Once the project exists, the claim must still be ours and the response
///   must be recorded under the key before `201` is answered; a failure there
///   keeps the claim and answers that the control plane is unavailable.
/// - An event that does not belong to the stage fails internally, giving up
///   a claim held.
pub open spec fn creation_next(s: CreationState, e: CreationEvent) -> (CreationState, CreationAction) {
    if before_requested_audit(s.stage) {
        checks_next(s, e)
    } else {
    match (s.stage, e) {
        (CreationStage::Hash, CreationEvent::Hashed(hashed)) => match hashed {
            Ok(()) => (CreationState { stage: CreationStage::Admission, ..s }, CreationAction::AdmitKey),
            Err(error) => finish(
                s,
                CreationAnswer::Failed(CreationFailure::Idempotency(error)),
                AuditOutcome::Failure,
                false,
            ),
        },
        (CreationStage::Admission, CreationEvent::Admitted(admission)) => match admission {
            Admission::Owner => (
                CreationState { stage: CreationStage::Create, claimed: true, ..s },
                CreationAction::CreateProject,
            ),
            Admission::Replay => finish(s, CreationAnswer::Replay, AuditOutcome::Success, false),
            Admission::Conflict => finish(
                s,
                CreationAnswer::Failed(CreationFailure::IdempotencyConflict),
                AuditOutcome::Denied,
                false,
            ),
            Admission::InProgress => finish(
                s,
                CreationAnswer::Failed(CreationFailure::IdempotencyInProgress),
                AuditOutcome::Denied,
                false,
            ),
            Admission::Failed(error) => finish(
                s,
                CreationAnswer::Failed(CreationFailure::Idempotency(error)),
                AuditOutcome::Failure,
                false,
            ),
        },
        (CreationStage::Create, CreationEvent::Created(created)) => match created {
            Ok(project) => (
                CreationState { stage: CreationStage::Provision, ..s },
                CreationAction::ProvisionProject(project),
            ),
            Err(RegistryError::Conflict) => (
                CreationState { stage: CreationStage::Recover, ..s },
                CreationAction::RecoverProject,
            ),
            Err(error) => finish(
                s,
                CreationAnswer::Failed(CreationFailure::Registry(error)),
                AuditOutcome::Failure,
                s.claimed,
            ),
        },
        (CreationStage::Recover, CreationEvent::Recovered(recovered)) => match recovered {
            Ok(Some(project)) => (
                CreationState { stage: CreationStage::ConfirmOwner, project: Some(project), ..s },
                CreationAction::ConfirmOwner,
            ),
            Ok(None) => finish(
                s,
                CreationAnswer::Failed(CreationFailure::Registry(RegistryError::Conflict)),
                AuditOutcome::Denied,
                s.claimed,
            ),
            Err(()) => finish(
                s,
                CreationAnswer::Failed(CreationFailure::ControlPlaneUnavailable),
                AuditOutcome::Failure,
                s.claimed,
            ),
        },
        (CreationStage::Provision, CreationEvent::Provisioned(provisioned)) => match provisioned {
            Ok(project) => (
                CreationState { stage: CreationStage::ConfirmOwner, project: Some(project), ..s },
                CreationAction::ConfirmOwner,
            ),
            Err(()) => finish(
                s,
                CreationAnswer::Failed(CreationFailure::Provisioning),
                AuditOutcome::Failure,
                s.claimed,
            ),
        },
        (CreationStage::ConfirmOwner, CreationEvent::OwnerConfirmed(confirmed)) => if confirmed {
            (CreationState { stage: CreationStage::Complete, ..s }, CreationAction::CompleteKey)
        } else {
            finish(
                s,
                CreationAnswer::Failed(CreationFailure::ControlPlaneUnavailable),
                AuditOutcome::Failure,
                false,
            )
        },
        (CreationStage::Complete, CreationEvent::Completed(completed)) => if completed {
            match s.project {
                Some(project) => finish(s, CreationAnswer::Created(project), AuditOutcome::Success, false),
                None => finish(
                    s,
                    CreationAnswer::Failed(CreationFailure::Internal),
                    AuditOutcome::Failure,
                    s.claimed,
                ),
            }
        } else {
            finish(
                s,
                CreationAnswer::Failed(CreationFailure::ControlPlaneUnavailable),
                AuditOutcome::Failure,
                false,
            )
        },
        _ => finish(
            s,
            CreationAnswer::Failed(CreationFailure::Internal),
            AuditOutcome::Failure,
            s.claimed && s.project is None,
        ),
    }
    }
}

/// A project creation that has not started.
pub fn creation_start() -> (s: CreationState)
    ensures
        s == (CreationState { stage: CreationStage::Authenticate, claimed: false, project: None }),
        creation_reachable(s),
{
    CreationState { stage: CreationStage::Authenticate, claimed: false, project: None }
}

fn refuse_exec(s: CreationState, failure: CreationFailure) -> (r: (CreationState, CreationAction))
    ensures
        r == refuse(s, failure),
{
    (
        CreationState { stage: CreationStage::Done, ..s },
        CreationAction::Finish(
            CreationEnd {
                answer: CreationAnswer::Failed(failure),
                audit: None,
                audit_project: s.project,
                abandon_claim: false,
            },
        ),
    )
}

fn step_checks(s: CreationState, e: CreationEvent) -> (r: (CreationState, CreationAction))
    ensures
        r == checks_next(s, e),
{
    match (s.stage, e) {
        (CreationStage::Authenticate, CreationEvent::Authenticated(ok)) => if ok {
            (CreationState { stage: CreationStage::CheckSetup, ..s }, CreationAction::CheckSetup)
        } else {
            refuse_exec(s, CreationFailure::Unauthenticated)
        },
        (CreationStage::CheckSetup, CreationEvent::SetupChecked(checked)) => match checked {
            Ok(()) => (CreationState { stage: CreationStage::AuthorizeAdmin, ..s }, CreationAction::AuthorizeAdmin),
            Err(error) => refuse_exec(s, CreationFailure::Instance(error)),
        },
        (CreationStage::AuthorizeAdmin, CreationEvent::AdminAuthorized(ok)) => if ok {
            (CreationState { stage: CreationStage::RateLimit, ..s }, CreationAction::CheckRateLimit)
        } else {
            refuse_exec(s, CreationFailure::NotOrganizationAdmin)
        },
        (CreationStage::RateLimit, CreationEvent::RateChecked(ok)) => if ok {
            (CreationState { stage: CreationStage::RequestedAudit, ..s }, CreationAction::WriteRequestedAudit)
        } else {
            refuse_exec(s, CreationFailure::RateLimited)
        },
        (CreationStage::RequestedAudit, CreationEvent::RequestedAuditWritten(ok)) => if ok {
            (CreationState { stage: CreationStage::Hash, ..s }, CreationAction::HashRequest)
        } else {
            refuse_exec(s, CreationFailure::AuditUnavailable)
        },
        _ => refuse_exec(s, CreationFailure::Internal),
    }
}

fn finish_exec(
    s: CreationState,
    answer: CreationAnswer,
    audit: AuditOutcome,
    abandon: bool,
) -> (r: (CreationState, CreationAction))
    ensures
        r == finish(s, answer, audit, abandon),
{
    (
        CreationState { stage: CreationStage::Done, ..s },
        CreationAction::Finish(
            CreationEnd { answer, audit: Some(audit), audit_project: s.project, abandon_claim: abandon },
        ),
    )
}

fn step_admitted(s: CreationState, admission: Admission) -> (r: (CreationState, CreationAction))
    requires
        s.stage == CreationStage::Admission,
    ensures
        r == creation_next(s, CreationEvent::Admitted(admission)),
{
    match management_admission(admission) {
        None => (CreationState { stage: CreationStage::Create, claimed: true, ..s }, CreationAction::CreateProject),
        Some((answer, audit)) => {
            let answer = match answer {
                AdmissionAnswer::Replay => CreationAnswer::Replay,
                AdmissionAnswer::IdempotencyConflict => CreationAnswer::Failed(CreationFailure::IdempotencyConflict),
                AdmissionAnswer::IdempotencyInProgress => CreationAnswer::Failed(
                    CreationFailure::IdempotencyInProgress,
                ),
                AdmissionAnswer::IdempotencyFailed(e) => CreationAnswer::Failed(CreationFailure::Idempotency(e)),
            };
            finish_exec(s, answer, audit, false)
        },
    }
}

fn step_created(s: CreationState, created: Result<ProjectId, RegistryError>) -> (r: (CreationState, CreationAction))
    requires
        s.stage == CreationStage::Create,
    ensures
        r == creation_next(s, CreationEvent::Created(created)),
{
    match created {
        Ok(project) => (
            CreationState { stage: CreationStage::Provision, ..s },
            CreationAction::ProvisionProject(project),
        ),
        Err(RegistryError::Conflict) => (
            CreationState { stage: CreationStage::Recover, ..s },
            CreationAction::RecoverProject,
        ),
        Err(error) => finish_exec(
            s,
            CreationAnswer::Failed(CreationFailure::Registry(error)),
            AuditOutcome::Failure,
            s.claimed,
        ),
    }
}

fn step_recovered(s: CreationState, recovered: Result<Option<ProjectId>, ()>) -> (r: (CreationState, CreationAction))
    requires
        s.stage == CreationStage::Recover,
    ensures
        r == creation_next(s, CreationEvent::Recovered(recovered)),
{
    match recovered {
        Ok(Some(project)) => (
            CreationState { stage: CreationStage::ConfirmOwner, project: Some(project), ..s },
            CreationAction::ConfirmOwner,
        ),
        Ok(None) => finish_exec(
            s,
            CreationAnswer::Failed(CreationFailure::Registry(RegistryError::Conflict)),
            AuditOutcome::Denied,
            s.claimed,
        ),
        Err(()) => finish_exec(
            s,
            CreationAnswer::Failed(CreationFailure::ControlPlaneUnavailable),
            AuditOutcome::Failure,
            s.claimed,
        ),
    }
}

fn step_completed(s: CreationState, completed: bool) -> (r: (CreationState, CreationAction))
    requires
        s.stage == CreationStage::Complete,
    ensures
        r == creation_next(s, CreationEvent::Completed(completed)),
{
    if completed {
        match s.project {
            Some(project) => finish_exec(s, CreationAnswer::Created(project), AuditOutcome::Success, false),
            None => finish_exec(s, CreationAnswer::Failed(CreationFailure::Internal), AuditOutcome::Failure, s.claimed),
        }
    } else {
        finish_exec(s, CreationAnswer::Failed(CreationFailure::ControlPlaneUnavailable), AuditOutcome::Failure, false)
    }
}

/// Takes one step of a project creation.
pub fn creation_step(s: CreationState, e: CreationEvent) -> (r: (CreationState, CreationAction))
    ensures
        r == creation_next(s, e),
{
    let early = match s.stage {
        CreationStage::Authenticate | CreationStage::CheckSetup | CreationStage::AuthorizeAdmin
        | CreationStage::RateLimit | CreationStage::RequestedAudit => true,
        _ => false,
    };
    if early {
        return step_checks(s, e);
    }
    match (s.stage, e) {
        (CreationStage::Hash, CreationEvent::Hashed(hashed)) => match hashed {
            Ok(()) => (CreationState { stage: CreationStage::Admission, ..s }, CreationAction::AdmitKey),
            Err(error) => finish_exec(
                s,
                CreationAnswer::Failed(CreationFailure::Idempotency(error)),
                AuditOutcome::Failure,
                false,
            ),
        },
        (CreationStage::Admission, CreationEvent::Admitted(admission)) => step_admitted(s, admission),
        (CreationStage::Create, CreationEvent::Created(created)) => step_created(s, created),
        (CreationStage::Recover, CreationEvent::Recovered(recovered)) => step_recovered(s, recovered),
        (CreationStage::Provision, CreationEvent::Provisioned(provisioned)) => match provisioned {
            Ok(project) => (
                CreationState { stage: CreationStage::ConfirmOwner, project: Some(project), ..s },
                CreationAction::ConfirmOwner,
            ),
            Err(()) => finish_exec(s, CreationAnswer::Failed(CreationFailure::Provisioning), AuditOutcome::Failure, s.claimed),
        },
        (CreationStage::ConfirmOwner, CreationEvent::OwnerConfirmed(confirmed)) => if confirmed {
            (CreationState { stage: CreationStage::Complete, ..s }, CreationAction::CompleteKey)
        } else {
            finish_exec(s, CreationAnswer::Failed(CreationFailure::ControlPlaneUnavailable), AuditOutcome::Failure, false)
        },
        (CreationStage::Complete, CreationEvent::Completed(completed)) => step_completed(s, completed),
        _ => finish_exec(
            s,
            CreationAnswer::Failed(CreationFailure::Internal),
            AuditOutcome::Failure,
            s.claimed && s.project.is_none(),
        ),
    }
}

/// The error answer of a failed project creation; failures of
/// authentication, authorization, the rate limit and provisioning carry their
/// own answer and have none here.
pub fn creation_failure_reply(failure: CreationFailure) -> (r: Option<crate::errors::ErrorReply>)
    ensures
        (failure == CreationFailure::Provisioning || failure == CreationFailure::Unauthenticated
            || failure == CreationFailure::NotOrganizationAdmin || failure == CreationFailure::RateLimited)
            <==> r is None,
        r matches Some(reply) ==> reply@ == match failure {
            CreationFailure::Instance(e) => crate::instance::instance_reply(e),
            CreationFailure::AuditUnavailable => crate::errors::audit_unavailable_reply(),
            CreationFailure::Idempotency(e) => crate::errors::idempotency_reply(e),
            CreationFailure::IdempotencyConflict => (409u16, "idempotency.request_conflict"@,
                "the idempotency key was already used for a different request"@),
            CreationFailure::IdempotencyInProgress => (409u16, "idempotency.in_progress"@,
                "an operation with this idempotency key is still in progress"@),
            CreationFailure::Registry(e) => crate::management::registry_reply(e),
            CreationFailure::ControlPlaneUnavailable => crate::management::control_plane_unavailable_reply(),
            CreationFailure::Internal => crate::errors::internal_error_reply(),
            _ => crate::errors::internal_error_reply(),
        },
{
    match failure {
        CreationFailure::Instance(e) => Some(crate::instance::service_error(e)),
        CreationFailure::AuditUnavailable => Some(crate::errors::audit_unavailable()),
        CreationFailure::Unauthenticated | CreationFailure::NotOrganizationAdmin
        | CreationFailure::RateLimited => None,
        CreationFailure::Idempotency(e) => Some(crate::errors::idempotency_error(e)),
        CreationFailure::IdempotencyConflict => Some(crate::dispatch::idempotency_conflict_reply()),
        CreationFailure::IdempotencyInProgress => Some(crate::dispatch::idempotency_in_progress_reply()),
        CreationFailure::Registry(e) => Some(crate::management::registry_error(e)),
        CreationFailure::ControlPlaneUnavailable => Some(crate::management::control_plane_unavailable()),
        CreationFailure::Internal => Some(crate::errors::internal_error()),
        CreationFailure::Provisioning => None,
    }
}

/// `201` is only answered once the project exists, the claim was confirmed
/// and the response was recorded under the key; it names the project and is
/// audited as a success.
pub proof fn law_created_only_after_recording(s: CreationState, e: CreationEvent)
    requires
        creation_next(s, e).1 matches CreationAction::Finish(end) && end.answer is Created,
    ensures
        s.stage == CreationStage::Complete,
        e == CreationEvent::Completed(true),
        s.project == Some(creation_next(s, e).1->Finish_0.answer->Created_0),
        creation_next(s, e).1->Finish_0.audit == Some(AuditOutcome::Success),
{
}

/// A creation that ends after its requested audit event was written appends
/// a terminal audit event, naming the project once one exists; one that ends
/// earlier appends none.
pub proof fn law_ends_after_the_requested_audit_are_audited(s: CreationState, e: CreationEvent)
    requires
        creation_next(s, e).1 is Finish,
    ensures
        creation_next(s, e).1->Finish_0.audit_project == s.project,
        creation_next(s, e).0.stage == CreationStage::Done,
        creation_next(s, e).1->Finish_0.audit is Some <==> !before_requested_audit(s.stage),
{
}

/// The position of a stage in the order a creation runs through.
pub open spec fn creation_rank(stage: CreationStage) -> int {
    match stage {
        CreationStage::Authenticate => 0,
        CreationStage::CheckSetup => 1,
        CreationStage::AuthorizeAdmin => 2,
        CreationStage::RateLimit => 3,
        CreationStage::RequestedAudit => 4,
        CreationStage::Hash => 5,
        CreationStage::Admission => 6,
        CreationStage::Create => 7,
        CreationStage::Recover => 8,
        CreationStage::Provision => 8,
        CreationStage::ConfirmOwner => 9,
        CreationStage::Complete => 10,
        CreationStage::Done => 11,
    }
}

/// The checks come first and in order: each check only moves on, one stage,
/// when it passed; so nothing is hashed, admitted or created for a caller who
/// is not authenticated, on an instance that is not set up, by someone who
/// does not administer the organization, over the rate limit, or before the
/// requested audit event was written.
pub proof fn law_checks_come_first(s: CreationState, e: CreationEvent)
    requires
        before_requested_audit(s.stage),
        creation_next(s, e).0.stage != CreationStage::Done,
    ensures
        creation_rank(creation_next(s, e).0.stage) == creation_rank(s.stage) + 1,
        match e {
            CreationEvent::Authenticated(ok) | CreationEvent::AdminAuthorized(ok)
            | CreationEvent::RateChecked(ok) | CreationEvent::RequestedAuditWritten(ok) => ok,
            CreationEvent::SetupChecked(checked) => checked is Ok,
            _ => false,
        },
{
}

/// What holds of every state a creation reaches from `creation_start`: the
/// claim is held from the registry step on, and a project is known exactly
/// from the owner confirmation on.
pub open spec fn creation_reachable(s: CreationState) -> bool {
    match s.stage {
        CreationStage::Authenticate | CreationStage::CheckSetup | CreationStage::AuthorizeAdmin
        | CreationStage::RateLimit | CreationStage::RequestedAudit | CreationStage::Hash
        | CreationStage::Admission => !s.claimed && s.project is None,
        CreationStage::Create | CreationStage::Recover | CreationStage::Provision => s.claimed
            && s.project is None,
        CreationStage::ConfirmOwner | CreationStage::Complete => s.claimed && s.project is Some,
        CreationStage::Done => true,
    }
}

/// Every step keeps a creation among the reachable states.
pub proof fn law_steps_stay_reachable(s: CreationState, e: CreationEvent)
    requires
        creation_reachable(s),
    ensures
        creation_reachable(creation_next(s, e).0),
{
}

/// The claim on the key is only given up by a request that holds it and
/// before a project exists for it; once the project exists the claim is kept,
/// so a retry with the same key cannot create a second project.
pub proof fn law_claim_abandoned_only_before_the_project_exists(s: CreationState, e: CreationEvent)
    requires
        creation_reachable(s),
        creation_next(s, e).1 matches CreationAction::Finish(end) && end.abandon_claim,
    ensures
        s.claimed,
        s.project is None,
{
}

/// Once a project exists, no later step forgets or replaces it.
pub proof fn law_project_is_kept(s: CreationState, e: CreationEvent)
    requires
        creation_reachable(s),
        s.project is Some,
    ensures
        creation_next(s, e).0.project == s.project,
{
}

} // verus!
