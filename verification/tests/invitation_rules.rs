use ffdb_api::ids::{BackupId, ProjectId};
use ffdb_api::invitations::{
    AcceptAction, AcceptEvent, AcceptFailure, AcceptStage, InvitationLookup, InviteAction,
    InviteEvent, InviteFailure, InviteStage, accept_step, invite_start, invite_step,
};
use ffdb_api::management::{AuditOutcome, MembershipMutationError, OrganizationRole};
use ffdb_api::operation::{
    MigrationStatus, PersistPlan, PersistRefusal, PersistedResponse, backup_provider_key,
    plan_persistence,
};

#[test]
fn accepting_an_invitation_runs_every_stage_in_order() {
    let events = [
        (AcceptEvent::TokenParsed(true), AcceptAction::HashPassword),
        (AcceptEvent::PasswordHashed(true), AcceptAction::BeginTransaction),
        (AcceptEvent::Began(true), AcceptAction::LookUpInvitation),
        (
            AcceptEvent::LookedUp(InvitationLookup::Found { digest_matches: true, fields_readable: true }),
            AcceptAction::WriteRequestedAudit,
        ),
        (AcceptEvent::Audited(true), AcceptAction::CreateUser),
        (AcceptEvent::UserCreated(true), AcceptAction::AddMembership),
        (AcceptEvent::MembershipAdded(true), AcceptAction::ConsumeInvitation),
        (AcceptEvent::Consumed(true), AcceptAction::SignIn),
    ];
    let mut stage = AcceptStage::ParseToken;
    for (event, expected) in events {
        let (next, action) = accept_step(stage, event);
        assert_eq!(action, expected);
        stage = next;
    }
    let (stage, action) = accept_step(stage, AcceptEvent::SignedIn(true));
    assert_eq!(stage, AcceptStage::Done);
    match action {
        AcceptAction::Finish(end) => {
            assert!(end.session);
            assert_eq!(end.audit, Some(AuditOutcome::Success));
            assert!(end.audit_names_user);
        }
        other => panic!("acceptance did not finish: {other:?}"),
    }
}

#[test]
fn invalid_invitations_leave_no_audit_outcome() {
    let finish = |stage, event| match accept_step(stage, event).1 {
        AcceptAction::Finish(end) => end,
        other => panic!("acceptance did not finish: {other:?}"),
    };
    let forged = finish(
        AcceptStage::LookUp,
        AcceptEvent::LookedUp(InvitationLookup::Found { digest_matches: false, fields_readable: true }),
    );
    assert_eq!(forged.failure, Some(AcceptFailure::InvitationInvalid));
    assert_eq!(forged.audit, None);
    let missing = finish(AcceptStage::LookUp, AcceptEvent::LookedUp(InvitationLookup::Missing));
    assert_eq!(missing.failure, Some(AcceptFailure::InvitationInvalid));
    let broken = finish(AcceptStage::LookUp, AcceptEvent::LookedUp(InvitationLookup::UnreadableDigest));
    assert_eq!(broken.failure, Some(AcceptFailure::ControlPlaneUnavailable));
    let existing = finish(AcceptStage::CreateUser, AcceptEvent::UserCreated(false));
    assert_eq!(existing.failure, Some(AcceptFailure::InvitationInvalid));
    assert_eq!(existing.audit, Some(AuditOutcome::Denied));
    let unaudited = finish(AcceptStage::Audit, AcceptEvent::Audited(false));
    assert_eq!(unaudited.failure, Some(AcceptFailure::AuditUnavailable));
    let out_of_order = finish(AcceptStage::ParseToken, AcceptEvent::SignedIn(true));
    assert!(!out_of_order.session);
    assert_eq!(out_of_order.failure, Some(AcceptFailure::Internal));
}

#[test]
fn invitations_hide_existing_accounts() {
    let (s, a) = invite_start(OrganizationRole::Admin, OrganizationRole::Developer);
    assert_eq!(a, InviteAction::CheckRateLimit);
    let (s, _) = invite_step(s, InviteEvent::RateChecked(true));
    let (s, _) = invite_step(s, InviteEvent::EmailNormalized(true));
    let (s, a) = invite_step(s, InviteEvent::Audited(true));
    assert_eq!(a, InviteAction::LookUpUser);
    let (_, existing) = invite_step(s, InviteEvent::UserLookedUp(Ok(true)));
    let (s, _) = invite_step(s, InviteEvent::UserLookedUp(Ok(false)));
    let (s, _) = invite_step(s, InviteEvent::TokenIssued(true));
    let (s, a) = invite_step(s, InviteEvent::Began(true));
    assert_eq!(a, InviteAction::LockActor);
    let (s, a) = invite_step(s, InviteEvent::ActorLocked(Ok(OrganizationRole::Admin)));
    assert_eq!(a, InviteAction::RevokePrevious);
    let (s, _) = invite_step(s, InviteEvent::PreviousRevoked(true));
    let (s, _) = invite_step(s, InviteEvent::Stored(true));
    let (s, _) = invite_step(s, InviteEvent::NameRead(true));
    let (s, a) = invite_step(s, InviteEvent::UrlBuilt(true));
    assert_eq!(a, InviteAction::EnqueueEmail);
    let (_, sent) = invite_step(s, InviteEvent::Enqueued(true));
    assert_eq!(existing, sent);
    let (done, unsent) = invite_step(s, InviteEvent::Enqueued(false));
    assert_eq!(done.stage, InviteStage::Done);
    match unsent {
        InviteAction::Finish(end) => {
            assert!(end.revoke_invitation && !end.accepted);
            assert_eq!(end.audit, Some(AuditOutcome::Failure));
        }
        other => panic!("invitation did not finish: {other:?}"),
    }
}

#[test]
fn only_owners_invite_owners_even_after_locking() {
    let (_, refused) = invite_start(OrganizationRole::Admin, OrganizationRole::Owner);
    match refused {
        InviteAction::Finish(end) => assert_eq!(end.failure, Some(InviteFailure::InvitationInvalid)),
        other => panic!("invitation was not refused: {other:?}"),
    }
    let (s, _) = invite_start(OrganizationRole::Owner, OrganizationRole::Owner);
    let locked = ffdb_api::invitations::InviteState { stage: InviteStage::LockActor, ..s };
    let (_, demoted) = invite_step(locked, InviteEvent::ActorLocked(Ok(OrganizationRole::Admin)));
    match demoted {
        InviteAction::Finish(end) => assert_eq!(end.failure, Some(InviteFailure::InvitationInvalid)),
        other => panic!("demoted owner could invite: {other:?}"),
    }
    let (_, lost) = invite_step(locked, InviteEvent::ActorLocked(Err(MembershipMutationError::Unavailable)));
    match lost {
        InviteAction::Finish(end) => assert_eq!(end.failure, Some(InviteFailure::ControlPlaneUnavailable)),
        other => panic!("lock failure went on: {other:?}"),
    }
}

#[test]
fn worker_results_are_recorded_only_when_complete() {
    let applied = PersistedResponse::Migration { status: MigrationStatus::Applied, checksum_ok: true };
    assert_eq!(plan_persistence(applied, true), Ok(PersistPlan::RecordMigration { applied: true }));
    assert_eq!(plan_persistence(applied, false), Err(PersistRefusal::InvalidActor));
    let pending = PersistedResponse::Migration { status: MigrationStatus::Applying, checksum_ok: true };
    assert_eq!(plan_persistence(pending, true), Err(PersistRefusal::NonTerminalMigration));
    let garbled = PersistedResponse::Migration { status: MigrationStatus::Applied, checksum_ok: false };
    assert_eq!(plan_persistence(garbled, false), Err(PersistRefusal::InvalidChecksum));
    assert_eq!(
        plan_persistence(PersistedResponse::Backup { checksum_ok: false }, false),
        Err(PersistRefusal::InvalidActor)
    );
    assert_eq!(
        plan_persistence(PersistedResponse::Restore { integrity_ok: true, has_receipt: false }, true),
        Err(PersistRefusal::MissingReceipt)
    );
    assert_eq!(
        plan_persistence(PersistedResponse::Restore { integrity_ok: false, has_receipt: true }, true),
        Err(PersistRefusal::UnverifiedRestore)
    );
    assert_eq!(plan_persistence(PersistedResponse::Other, false), Ok(PersistPlan::Nothing));
    assert_eq!(
        backup_provider_key(ProjectId(1), BackupId(2)),
        "local/00000000-0000-0000-0000-000000000001/00000000-0000-0000-0000-000000000002.sqlite3"
    );
}
