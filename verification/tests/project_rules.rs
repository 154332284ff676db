use ffdb_api::dispatch::Admission;
use ffdb_api::errors::IdempotencyError;
use ffdb_api::ids::ProjectId;
use ffdb_api::instance::InstanceServiceError;
use ffdb_api::management::{AuditOutcome, RegistryError};
use ffdb_api::project_creation::{
    CreationAction, CreationAnswer, CreationEnd, CreationEvent, CreationFailure, CreationStage,
    CreationState, creation_failure_reply, creation_start, creation_step,
};

const PROJECT: ProjectId = ProjectId(42);

fn checked() -> CreationState {
    let (s, a) = creation_step(creation_start(), CreationEvent::Authenticated(true));
    assert_eq!(a, CreationAction::CheckSetup);
    let (s, a) = creation_step(s, CreationEvent::SetupChecked(Ok(())));
    assert_eq!(a, CreationAction::AuthorizeAdmin);
    let (s, a) = creation_step(s, CreationEvent::AdminAuthorized(true));
    assert_eq!(a, CreationAction::CheckRateLimit);
    let (s, a) = creation_step(s, CreationEvent::RateChecked(true));
    assert_eq!(a, CreationAction::WriteRequestedAudit);
    let (s, a) = creation_step(s, CreationEvent::RequestedAuditWritten(true));
    assert_eq!(a, CreationAction::HashRequest);
    s
}

fn owned() -> CreationState {
    let (s, a) = creation_step(checked(), CreationEvent::Hashed(Ok(())));
    assert_eq!(a, CreationAction::AdmitKey);
    let (s, a) = creation_step(s, CreationEvent::Admitted(Admission::Owner));
    assert_eq!(a, CreationAction::CreateProject);
    s
}

fn end(action: CreationAction) -> CreationEnd {
    match action {
        CreationAction::Finish(end) => end,
        other => panic!("creation did not finish: {other:?}"),
    }
}

#[test]
fn a_new_project_is_created_provisioned_and_recorded() {
    let s = owned();
    let (s, a) = creation_step(s, CreationEvent::Created(Ok(PROJECT)));
    assert_eq!(a, CreationAction::ProvisionProject(PROJECT));
    let (s, a) = creation_step(s, CreationEvent::Provisioned(Ok(PROJECT)));
    assert_eq!(a, CreationAction::ConfirmOwner);
    let (s, a) = creation_step(s, CreationEvent::OwnerConfirmed(true));
    assert_eq!(a, CreationAction::CompleteKey);
    let (s, a) = creation_step(s, CreationEvent::Completed(true));
    assert_eq!(s.stage, CreationStage::Done);
    let end = end(a);
    assert_eq!(end.answer, CreationAnswer::Created(PROJECT));
    assert_eq!(end.audit, Some(AuditOutcome::Success));
    assert_eq!(end.audit_project, Some(PROJECT));
    assert!(!end.abandon_claim);
}

#[test]
fn a_registry_conflict_recovers_an_earlier_creation() {
    let s = owned();
    let (s, a) = creation_step(s, CreationEvent::Created(Err(RegistryError::Conflict)));
    assert_eq!(a, CreationAction::RecoverProject);
    let (_, none) = creation_step(s, CreationEvent::Recovered(Ok(None)));
    let none = end(none);
    assert_eq!(none.answer, CreationAnswer::Failed(CreationFailure::Registry(RegistryError::Conflict)));
    assert_eq!(none.audit, Some(AuditOutcome::Denied));
    assert!(none.abandon_claim);
    let (_, failed) = creation_step(s, CreationEvent::Recovered(Err(())));
    assert_eq!(end(failed).answer, CreationAnswer::Failed(CreationFailure::ControlPlaneUnavailable));
    let (s, a) = creation_step(s, CreationEvent::Recovered(Ok(Some(PROJECT))));
    assert_eq!(a, CreationAction::ConfirmOwner);
    assert_eq!(s.project, Some(PROJECT));
}

#[test]
fn failures_after_the_project_exists_keep_the_claim() {
    let s = owned();
    let (s, _) = creation_step(s, CreationEvent::Created(Ok(PROJECT)));
    let (_, failed) = creation_step(s, CreationEvent::Provisioned(Err(())));
    let failed = end(failed);
    assert_eq!(failed.answer, CreationAnswer::Failed(CreationFailure::Provisioning));
    assert!(failed.abandon_claim);
    let (s, _) = creation_step(s, CreationEvent::Provisioned(Ok(PROJECT)));
    let (_, lost) = creation_step(s, CreationEvent::OwnerConfirmed(false));
    let lost = end(lost);
    assert!(!lost.abandon_claim);
    assert_eq!(lost.audit_project, Some(PROJECT));
    let (s, _) = creation_step(s, CreationEvent::OwnerConfirmed(true));
    let (_, unrecorded) = creation_step(s, CreationEvent::Completed(false));
    let unrecorded = end(unrecorded);
    assert!(!unrecorded.abandon_claim);
    assert_eq!(unrecorded.answer, CreationAnswer::Failed(CreationFailure::ControlPlaneUnavailable));
}

#[test]
fn admissions_end_as_the_idempotency_store_says() {
    let (s, _) = creation_step(checked(), CreationEvent::Hashed(Ok(())));
    let (_, replay) = creation_step(s, CreationEvent::Admitted(Admission::Replay));
    assert_eq!(end(replay).answer, CreationAnswer::Replay);
    let (_, busy) = creation_step(s, CreationEvent::Admitted(Admission::InProgress));
    let busy = end(busy);
    assert_eq!(busy.answer, CreationAnswer::Failed(CreationFailure::IdempotencyInProgress));
    assert_eq!(busy.audit, Some(AuditOutcome::Denied));
    let (_, hashed) = creation_step(
        checked(),
        CreationEvent::Hashed(Err(IdempotencyError::InvalidKey)),
    );
    assert_eq!(
        end(hashed).answer,
        CreationAnswer::Failed(CreationFailure::Idempotency(IdempotencyError::InvalidKey))
    );
    let (_, wrong) = creation_step(owned(), CreationEvent::Completed(true));
    let wrong = end(wrong);
    assert_eq!(wrong.answer, CreationAnswer::Failed(CreationFailure::Internal));
    assert!(wrong.abandon_claim);
}

#[test]
fn creation_failures_have_stable_replies() {
    let conflict = creation_failure_reply(CreationFailure::Registry(RegistryError::Conflict)).expect("reply");
    assert_eq!((conflict.status, conflict.code.as_str()), (409, "control_plane.conflict"));
    let busy = creation_failure_reply(CreationFailure::IdempotencyInProgress).expect("reply");
    assert_eq!(busy.code, "idempotency.in_progress");
    assert!(creation_failure_reply(CreationFailure::Provisioning).is_none());
    let limit = creation_failure_reply(CreationFailure::Registry(RegistryError::BillingLimit)).expect("reply");
    assert_eq!(limit.status, 402);
}

#[test]
fn failed_checks_end_before_any_audit() {
    let refused = |s, event| match creation_step(s, event).1 {
        CreationAction::Finish(end) => end,
        other => panic!("creation did not finish: {other:?}"),
    };
    let anonymous = refused(creation_start(), CreationEvent::Authenticated(false));
    assert_eq!(anonymous.answer, CreationAnswer::Failed(CreationFailure::Unauthenticated));
    assert_eq!(anonymous.audit, None);
    let (s, _) = creation_step(creation_start(), CreationEvent::Authenticated(true));
    let unset = refused(s, CreationEvent::SetupChecked(Err(InstanceServiceError::SetupRequired)));
    assert_eq!(unset.answer, CreationAnswer::Failed(CreationFailure::Instance(InstanceServiceError::SetupRequired)));
    let (s, _) = creation_step(s, CreationEvent::SetupChecked(Ok(())));
    let outsider = refused(s, CreationEvent::AdminAuthorized(false));
    assert_eq!(outsider.answer, CreationAnswer::Failed(CreationFailure::NotOrganizationAdmin));
    let (s, _) = creation_step(s, CreationEvent::AdminAuthorized(true));
    let limited = refused(s, CreationEvent::RateChecked(false));
    assert_eq!(limited.answer, CreationAnswer::Failed(CreationFailure::RateLimited));
    let (s, _) = creation_step(s, CreationEvent::RateChecked(true));
    let unaudited = refused(s, CreationEvent::RequestedAuditWritten(false));
    assert_eq!(unaudited.answer, CreationAnswer::Failed(CreationFailure::AuditUnavailable));
    assert_eq!(unaudited.audit, None);
    assert!(!unaudited.abandon_claim);
    let early_hash = refused(creation_start(), CreationEvent::Hashed(Ok(())));
    assert_eq!(early_hash.answer, CreationAnswer::Failed(CreationFailure::Internal));
    assert_eq!(early_hash.audit, None);
    assert_eq!(creation_failure_reply(CreationFailure::AuditUnavailable).expect("reply").code, "audit.unavailable");
    assert!(creation_failure_reply(CreationFailure::RateLimited).is_none());
    assert_eq!(
        creation_failure_reply(CreationFailure::Instance(InstanceServiceError::Unavailable)).expect("reply").status,
        503
    );
}
