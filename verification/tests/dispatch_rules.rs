use ffdb_api::accounts::{
    CapabilityNode, V1AccountPayload, V2AccountPayload, parse_v1_account, parse_v2_account,
};
use ffdb_api::dispatch::{
    Admission, Completion, DispatchAction, DispatchAnswer, DispatchEnd, DispatchEvent,
    DispatchFailure, DispatchStage, DispatchState, dispatch_failure_reply, dispatch_start,
    dispatch_step,
};
use ffdb_api::encoding::derive_secret;
use ffdb_api::errors::{ExecutionError, IdempotencyError, MeteringError, RoutingError};
use ffdb_api::ids::{BackupId, ProjectId};
use ffdb_api::instance::InstanceServiceError;
use ffdb_api::management::AuditOutcome;
use ffdb_api::metering::UsagePlan;
use ffdb_api::operation::RestoreReply;
use ffdb_api::provider::{AccountLinkPayload, parse_account_link};
use ffdb_api::rate_limit::RateVerdict;
use ffdb_api::storage::{
    CleanupCall, StorageAction, StorageError, cleanup_call, cleanup_removed_total, normalize_checksum,
};
use ffdb_api::instance::{InstanceBillingMode, InstanceDeploymentMode};
use ffdb_api::provider::{ AccountSource, connect_account_path, refresh_billing_mode, refresh_needs_catalog, refresh_source, require_bound_account, };

const PROJECT: ProjectId = ProjectId(7);

fn step(state: DispatchState, event: DispatchEvent) -> (DispatchState, DispatchAction) {
    dispatch_step(state, event)
}

fn finished(action: DispatchAction) -> DispatchEnd {
    match action {
        DispatchAction::Finish(end) => end,
        other => panic!("dispatch did not finish: {other:?}"),
    }
}

#[test]
fn a_plain_dispatch_runs_every_stage_in_order() {
    let s = dispatch_start(PROJECT, false, None, true, true);
    let (s, a) = step(s, DispatchEvent::Begin { mode_matches: true });
    assert_eq!(a, DispatchAction::CheckRateLimit);
    let (s, a) = step(s, DispatchEvent::RateChecked(RateVerdict::Admit));
    assert_eq!(a, DispatchAction::AppendRequestedAudit);
    let (s, a) = step(s, DispatchEvent::RequestedAudit { written: true });
    assert_eq!(a, DispatchAction::ResolveRoute { restore: false });
    let (s, a) = step(s, DispatchEvent::Routed(Ok(PROJECT)));
    assert_eq!(a, DispatchAction::PlanUsage);
    let plan = UsagePlan { read_units: 0, write_units: 1 };
    let (s, a) = step(s, DispatchEvent::UsagePlanned(Ok(Some(plan))));
    assert_eq!(a, DispatchAction::PrepareUsage);
    let (s, a) = step(s, DispatchEvent::UsagePrepared(Ok(())));
    assert_eq!(a, DispatchAction::Execute);
    assert!(s.prepared);
    let (s, a) = step(s, DispatchEvent::Executed(Ok(RestoreReply::Other)));
    assert_eq!(a, DispatchAction::IngestUsage);
    let (s, a) = step(s, DispatchEvent::UsageIngested(Ok(())));
    assert_eq!(a, DispatchAction::PersistResult);
    let (s, a) = step(s, DispatchEvent::Persisted { ok: true });
    assert_eq!(s.stage, DispatchStage::Done);
    let end = finished(a);
    assert_eq!(end.answer, DispatchAnswer::Success);
    assert_eq!(end.audit, Some(AuditOutcome::Success));
    assert!(!end.abandon_claim && !end.release_usage && !end.fail_restore);
}

#[test]
fn wrong_projects_and_limits_end_before_any_work() {
    let s = dispatch_start(PROJECT, false, None, true, true);
    let (_, a) = step(s, DispatchEvent::Begin { mode_matches: false });
    assert_eq!(finished(a).answer, DispatchAnswer::Failed(DispatchFailure::WrongProject));
    let (s, _) = step(s, DispatchEvent::Begin { mode_matches: true });
    let (_, a) = step(s, DispatchEvent::RateChecked(RateVerdict::Limited { retry_after_ms: 1_500 }));
    assert_eq!(finished(a).answer, DispatchAnswer::RateLimited { retry_after_ms: 1_500 });
    let (_, a) = step(s, DispatchEvent::RateChecked(RateVerdict::Unavailable));
    assert_eq!(
        finished(a).answer,
        DispatchAnswer::Failed(DispatchFailure::RateLimitUnavailable)
    );
    let (s, _) = step(s, DispatchEvent::RateChecked(RateVerdict::Admit));
    let (_, a) = step(s, DispatchEvent::RequestedAudit { written: false });
    assert_eq!(finished(a).answer, DispatchAnswer::Failed(DispatchFailure::AuditUnavailable));
}

#[test]
fn idempotent_dispatches_complete_their_claim() {
    let s = dispatch_start(PROJECT, true, None, false, true);
    let (s, _) = step(s, DispatchEvent::Begin { mode_matches: true });
    let (s, _) = step(s, DispatchEvent::RateChecked(RateVerdict::Admit));
    let (s, a) = step(s, DispatchEvent::RequestedAudit { written: true });
    assert_eq!(a, DispatchAction::AdmitIdempotency);
    let (_, replay) = step(s, DispatchEvent::Admitted(Admission::Replay));
    assert_eq!(finished(replay).answer, DispatchAnswer::Replay);
    let (_, conflict) = step(s, DispatchEvent::Admitted(Admission::Conflict));
    assert_eq!(finished(conflict).answer, DispatchAnswer::IdempotencyConflict);
    let (_, failed) = step(s, DispatchEvent::Admitted(Admission::Failed(IdempotencyError::InvalidKey)));
    assert_eq!(
        finished(failed).answer,
        DispatchAnswer::Failed(DispatchFailure::Idempotency(IdempotencyError::InvalidKey))
    );
    let (s, _) = step(s, DispatchEvent::Admitted(Admission::Owner));
    assert!(s.claimed);
    let (_, routed) = step(s, DispatchEvent::Routed(Err(RoutingError::NotFound)));
    let routed = finished(routed);
    assert!(routed.abandon_claim);
    assert_eq!(routed.audit, Some(AuditOutcome::Failure));
    let (s, _) = step(s, DispatchEvent::Routed(Ok(PROJECT)));
    let (s, a) = step(s, DispatchEvent::UsagePlanned(Ok(Some(UsagePlan { read_units: 1, write_units: 0 }))));
    assert_eq!(a, DispatchAction::Execute);
    let (s, a) = step(s, DispatchEvent::Executed(Ok(RestoreReply::Other)));
    assert_eq!(a, DispatchAction::PersistResult);
    let (s, a) = step(s, DispatchEvent::Persisted { ok: true });
    assert_eq!(a, DispatchAction::CompleteIdempotency);
    let (_, a) = step(s, DispatchEvent::IdempotencyCompleted(Completion::Completed));
    assert_eq!(finished(a).answer, DispatchAnswer::Success);
    let (_, a) = step(s, DispatchEvent::IdempotencyCompleted(Completion::ResponseUnserializable));
    let end = finished(a);
    assert!(end.abandon_claim);
    assert_eq!(end.answer, DispatchAnswer::Failed(DispatchFailure::Internal));
}

#[test]
fn worker_failures_release_the_reservation() {
    let s = dispatch_start(PROJECT, false, None, true, true);
    let (s, _) = step(s, DispatchEvent::Begin { mode_matches: true });
    let (s, _) = step(s, DispatchEvent::RateChecked(RateVerdict::Admit));
    let (s, _) = step(s, DispatchEvent::RequestedAudit { written: true });
    let (s, _) = step(s, DispatchEvent::Routed(Ok(PROJECT)));
    let (s, _) = step(s, DispatchEvent::UsagePlanned(Ok(Some(UsagePlan { read_units: 0, write_units: 2 }))));
    let (_, denied) = step(s, DispatchEvent::UsagePrepared(Err(MeteringError::ReportingBlocked)));
    let denied = finished(denied);
    assert_eq!(denied.audit, Some(AuditOutcome::Denied));
    assert!(!denied.release_usage);
    let (s, _) = step(s, DispatchEvent::UsagePrepared(Ok(())));
    let (_, a) = step(s, DispatchEvent::Executed(Err(ExecutionError::Unavailable)));
    let end = finished(a);
    assert!(end.release_usage);
    assert_eq!(end.audit, Some(AuditOutcome::Failure));
    let (_, a) = step(
        s,
        DispatchEvent::Executed(Err(ExecutionError::Rejected { code: "query.invalid".to_owned() })),
    );
    assert_eq!(finished(a).audit, Some(AuditOutcome::Denied));
}

#[test]
fn restores_fail_unless_the_worker_restored_the_requested_backup() {
    let backup = BackupId(11);
    let s = dispatch_start(PROJECT, true, Some(backup), false, true);
    let (s, _) = step(s, DispatchEvent::Begin { mode_matches: true });
    let (s, _) = step(s, DispatchEvent::RateChecked(RateVerdict::Admit));
    let (s, _) = step(s, DispatchEvent::RequestedAudit { written: true });
    let (s, a) = step(s, DispatchEvent::Admitted(Admission::Owner));
    assert_eq!(a, DispatchAction::ResolveRoute { restore: true });
    let (s, a) = step(s, DispatchEvent::Routed(Ok(PROJECT)));
    assert_eq!(a, DispatchAction::BeginRestore);
    let (s, _) = step(s, DispatchEvent::RestoreBegun { ok: true });
    let (s, _) = step(s, DispatchEvent::UsagePlanned(Ok(None)));
    let (_, wrong) = step(s, DispatchEvent::Executed(Ok(RestoreReply::Restored { backup_id: BackupId(12) })));
    let wrong = finished(wrong);
    assert!(wrong.fail_restore && wrong.abandon_claim);
    assert_eq!(wrong.answer, DispatchAnswer::Failed(DispatchFailure::Internal));
    let (_, right) = step(s, DispatchEvent::Executed(Ok(RestoreReply::Restored { backup_id: backup })));
    assert_eq!(right, DispatchAction::PersistResult);
}

#[test]
fn out_of_order_events_fail_internally() {
    let s = dispatch_start(PROJECT, false, None, true, true);
    let (s, a) = step(s, DispatchEvent::Persisted { ok: true });
    assert_eq!(s.stage, DispatchStage::Done);
    assert_eq!(finished(a).answer, DispatchAnswer::Failed(DispatchFailure::Internal));
    assert_eq!(dispatch_failure_reply(DispatchFailure::WrongProject).status, 403);
    assert_eq!(dispatch_failure_reply(DispatchFailure::RateLimitUnavailable).status, 503);
}

#[test]
fn provider_account_parsers_fail_closed_and_report_capabilities() -> Result<(), InstanceServiceError> {
    let v1 = parse_v1_account(&V1AccountPayload {
        id: Some("acct_12345678".to_owned()),
        charges_enabled: Some(true),
        payouts_enabled: Some(true),
        details_submitted: Some(true),
        capabilities: vec![
            ("card_payments".to_owned(), Some("active".to_owned())),
            ("transfers".to_owned(), Some("pending".to_owned())),
        ],
    })?;
    assert_eq!(v1.status, "enabled");
    assert_eq!(v1.capabilities, vec!["card_payments"]);

    let v2 = parse_v2_account(&V2AccountPayload {
        id: Some("acct_abcdefgh".to_owned()),
        capabilities: Some(vec![
            CapabilityNode {
                name: "card_payments".to_owned(),
                status: Some("active".to_owned()),
                children: None,
            },
            CapabilityNode {
                name: "stripe_balance".to_owned(),
                status: None,
                children: Some(vec![CapabilityNode {
                    name: "payouts".to_owned(),
                    status: Some("active".to_owned()),
                    children: Some(Vec::new()),
                }]),
            },
        ]),
        requirement_entries: Some(0),
    })?;
    assert_eq!(v2.status, "enabled");
    assert!(v2.capabilities.contains(&"card_payments".to_owned()));
    assert!(v2.capabilities.contains(&"stripe_balance.payouts".to_owned()));
    assert!(
        parse_v2_account(&V2AccountPayload {
            id: Some("customer_123".to_owned()),
            capabilities: None,
            requirement_entries: None,
        })
        .is_err()
    );
    Ok(())
}

#[test]
fn version_two_accounts_without_requirements_are_onboarding() {
    let v2 = parse_v2_account(&V2AccountPayload {
        id: Some("acct_abcdefgh".to_owned()),
        capabilities: None,
        requirement_entries: Some(2),
    })
    .expect("account");
    assert_eq!(v2.status, "onboarding");
    assert!(!v2.charges_enabled && !v2.payouts_enabled && !v2.details_submitted);
    assert!(v2.capabilities.is_empty());
    let v1 = parse_v1_account(&V1AccountPayload {
        id: Some("acct_12345678".to_owned()),
        charges_enabled: Some(false),
        payouts_enabled: None,
        details_submitted: Some(true),
        capabilities: vec![
            ("transfers".to_owned(), Some("active".to_owned())),
            ("card_payments".to_owned(), Some("active".to_owned())),
        ],
    })
    .expect("account");
    assert_eq!(v1.status, "restricted");
    assert_eq!(v1.capabilities, vec!["card_payments", "transfers"]);
}

#[test]
fn account_links_require_stripe_https_and_rfc3339_expiry() -> Result<(), InstanceServiceError> {
    let link = parse_account_link(&AccountLinkPayload {
        url: Some("https://connect.stripe.com/setup/s/acct_12345678".to_owned()),
        expires_at: Some("2026-08-03T14:00:00.000Z".to_owned()),
    })?;
    assert_eq!(link.expires_at_ms, 1_785_765_600_000);
    assert!(
        parse_account_link(&AccountLinkPayload {
            url: Some("https://stripe.example.test/phish".to_owned()),
            expires_at: Some("2026-08-03T14:00:00.000Z".to_owned()),
        })
        .is_err()
    );
    Ok(())
}

#[test]
fn account_links_need_an_expiry() {
    assert_eq!(
        parse_account_link(&AccountLinkPayload {
            url: Some("https://connect.stripe.com/setup/s/acct_12345678".to_owned()),
            expires_at: Some("tomorrow".to_owned()),
        }),
        Err(InstanceServiceError::ProviderRejected)
    );
    assert_eq!(
        parse_account_link(&AccountLinkPayload {
            url: Some("http://connect.stripe.com/setup".to_owned()),
            expires_at: Some("2026-08-03T14:00:00.000Z".to_owned()),
        }),
        Err(InstanceServiceError::ProviderRejected)
    );
}

#[test]
fn checksums_are_normalized_to_base64() {
    assert_eq!(
        normalize_checksum("ba7816bf8f01cfea414140de5dae2223b00361a396177a9cb410ff61f20015ad").as_deref(),
        Ok("ungWv48Bz+pBQUDeXa4iI7ADYaOWF3qctBD/YfIAFa0=")
    );
    assert_eq!(
        normalize_checksum("ungWv48Bz+pBQUDeXa4iI7ADYaOWF3qctBD/YfIAFa0=").as_deref(),
        Ok("ungWv48Bz+pBQUDeXa4iI7ADYaOWF3qctBD/YfIAFa0=")
    );
    assert_eq!(normalize_checksum("abcd"), Err(StorageError::InvalidObjectKey));
    assert_eq!(normalize_checksum("not base64!"), Err(StorageError::InvalidObjectKey));
}

#[test]
fn secrets_are_derived_per_purpose() {
    let derived = derive_secret(b"master", b"domain");
    assert_eq!(
        derived,
        vec![
            154, 3, 181, 23, 5, 100, 21, 254, 250, 189, 163, 151, 40, 195, 61, 63, 40, 142, 135,
            109, 93, 195, 132, 170, 80, 246, 240, 158, 173, 129, 220, 18
        ]
    );
    assert_ne!(derive_secret(b"master", b"other"), derived);
}

#[test]
fn refreshes_read_the_account_of_the_deployment_mode() {
    assert_eq!(refresh_source(InstanceDeploymentMode::PlatformByo, None), Ok(AccountSource::OwnAccount));
    assert_eq!(
        refresh_source(InstanceDeploymentMode::PlatformConnect, Some("acct_current1")),
        Ok(AccountSource::ConnectedAccount { account_id: "acct_current1".to_owned() })
    );
    assert_eq!(
        refresh_source(InstanceDeploymentMode::PlatformConnect, Some("acct_x")),
        Err(InstanceServiceError::Unavailable)
    );
    assert_eq!(
        refresh_source(InstanceDeploymentMode::PlatformConnect, None),
        Err(InstanceServiceError::Unavailable)
    );
    assert_eq!(refresh_source(InstanceDeploymentMode::Team, None), Err(InstanceServiceError::Conflict));
    assert!(refresh_needs_catalog(InstanceDeploymentMode::PlatformConnect, "enabled"));
    assert!(!refresh_needs_catalog(InstanceDeploymentMode::PlatformConnect, "restricted"));
    assert!(!refresh_needs_catalog(InstanceDeploymentMode::PlatformByo, "enabled"));
    assert_eq!(refresh_billing_mode(InstanceDeploymentMode::PlatformByo), Ok(InstanceBillingMode::ByoKeys));
    assert_eq!(refresh_billing_mode(InstanceDeploymentMode::Private), Err(InstanceServiceError::Conflict));
    assert_eq!(require_bound_account(Some("acct_a"), "acct_b"), Err(InstanceServiceError::BillingInUse));
    assert_eq!(require_bound_account(Some("acct_a"), "acct_a"), Ok(()));
    assert_eq!(require_bound_account(None, "acct_b"), Ok(()));
    assert_eq!(connect_account_path(None), "v2/core/accounts");
    assert_eq!(connect_account_path(Some("acct_1")), "v2/core/accounts/acct_1");
}

#[test]
fn abandoned_authorizations_are_cleaned_up_by_action() {
    assert_eq!(cleanup_call(StorageAction::Upload, false), CleanupCall::DeleteObject);
    assert_eq!(cleanup_call(StorageAction::CompleteMultipart, true), CleanupCall::DeleteObject);
    assert_eq!(cleanup_call(StorageAction::UploadPart, true), CleanupCall::AbortUpload);
    assert_eq!(cleanup_call(StorageAction::CreateMultipart, false), CleanupCall::AbortUploadsForKey);
    assert_eq!(
        cleanup_call(StorageAction::AbortMultipart, false),
        CleanupCall::Refuse(StorageError::InvalidMultipartRequest)
    );
    assert_eq!(
        cleanup_call(StorageAction::List, true),
        CleanupCall::Refuse(StorageError::InvalidAuthorizationDecision)
    );
    assert_eq!(cleanup_removed_total(2, 3, 4), 9);
    assert_eq!(cleanup_removed_total(u64::MAX, 1, 0), u64::MAX);
}
