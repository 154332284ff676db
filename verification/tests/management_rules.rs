use ffdb_api::management::{
    AuditOutcome, MembershipMutationError, OrganizationRole, decode_scope, membership_audit_outcome,
    membership_error, membership_role_name, normalize_platform_email, parse_membership_role,
    validate_member_transition, DeveloperScope, api_key_invalid_id, bootstrap_token_matches,
    revocation_outcome,
};
use sha2::Digest;
use ffdb_api::api_key_creation::{
    ApiKeyAction, ApiKeyAnswer, ApiKeyEvent, ApiKeyStage, api_key_error, api_key_start, api_key_step,
};

#[test]
fn membership_transitions_protect_owners() {
    assert!(matches!(
        validate_member_transition(
            OrganizationRole::Admin,
            OrganizationRole::Owner,
            Some(OrganizationRole::Admin),
            2,
        ),
        Err(MembershipMutationError::Forbidden)
    ));
    assert!(matches!(
        validate_member_transition(OrganizationRole::Owner, OrganizationRole::Owner, None, 1,),
        Err(MembershipMutationError::LastOwner)
    ));
    assert!(
        validate_member_transition(
            OrganizationRole::Owner,
            OrganizationRole::Owner,
            Some(OrganizationRole::Admin),
            2,
        )
        .is_ok()
    );
    assert!(
        validate_member_transition(
            OrganizationRole::Admin,
            OrganizationRole::Developer,
            Some(OrganizationRole::Viewer),
            1,
        )
        .is_ok()
    );
}

#[test]
fn admins_cannot_promote_to_owner() {
    assert_eq!(
        validate_member_transition(OrganizationRole::Admin, OrganizationRole::Viewer, Some(OrganizationRole::Owner), 3),
        Err(MembershipMutationError::Forbidden)
    );
    assert_eq!(
        validate_member_transition(OrganizationRole::Owner, OrganizationRole::Owner, Some(OrganizationRole::Owner), 1),
        Ok(())
    );
}

#[test]
fn invitation_email_normalization_matches_platform_auth_policy() {
    assert_eq!(
        normalize_platform_email("Admin@Example.test").as_deref(),
        Some("admin@example.test")
    );
    assert!(normalize_platform_email(" admin@example.test").is_none());
    assert!(normalize_platform_email("admin@localhost").is_none());
    assert!(normalize_platform_email("admin@example.test\n").is_none());
}

#[test]
fn platform_email_limits() {
    let local = "a".repeat(64);
    assert!(normalize_platform_email(&format!("{local}@example.test")).is_some());
    let long_local = "a".repeat(65);
    assert!(normalize_platform_email(&format!("{long_local}@example.test")).is_none());
    assert!(normalize_platform_email("user@").is_none());
    assert!(normalize_platform_email("usér@example.test").is_none());
    assert!(normalize_platform_email("us er@example.test").is_none());
    assert_eq!(
        normalize_platform_email("A@B@Example.TEST").as_deref(),
        Some("a@b@example.test")
    );
}

#[test]
fn membership_answers_and_names() {
    assert_eq!(membership_audit_outcome(MembershipMutationError::Unavailable), AuditOutcome::Failure);
    assert_eq!(membership_audit_outcome(MembershipMutationError::LastOwner), AuditOutcome::Denied);
    let reply = membership_error(MembershipMutationError::LastOwner);
    assert_eq!(reply.status, 409);
    assert_eq!(reply.code, "membership.last_owner");
    for role in [OrganizationRole::Owner, OrganizationRole::Admin, OrganizationRole::Developer, OrganizationRole::Viewer] {
        assert_eq!(parse_membership_role(membership_role_name(role)), Some(role));
    }
    assert_eq!(parse_membership_role("root"), None);
    assert_eq!(decode_scope("logs_read"), Some(DeveloperScope::LogsRead));
    assert_eq!(decode_scope("logs"), None);
}

#[test]
fn api_key_revocations_answer_by_rows_updated() {
    let (audit, reply) = revocation_outcome(Some(1));
    assert_eq!(audit, AuditOutcome::Success);
    assert!(reply.is_none());
    let (audit, reply) = revocation_outcome(Some(0));
    assert_eq!(audit, AuditOutcome::Denied);
    let reply = reply.expect("not found");
    assert_eq!((reply.status, reply.code.as_str()), (404, "api_key.not_found"));
    let (audit, reply) = revocation_outcome(None);
    assert_eq!(audit, AuditOutcome::Failure);
    assert_eq!(reply.expect("unavailable").status, 503);
    assert_eq!(api_key_invalid_id().code, "api_key.invalid_id");
}

#[test]
fn bootstrap_tokens_must_hash_to_the_configured_digest() {
    let digest: [u8; 32] = sha2::Sha256::digest(b"bootstrap-secret").into();
    assert!(bootstrap_token_matches(Some("bootstrap-secret"), &digest));
    assert!(!bootstrap_token_matches(Some("bootstrap-secreT"), &digest));
    assert!(!bootstrap_token_matches(None, &digest));
    let long = "x".repeat(4_097);
    let long_digest: [u8; 32] = sha2::Sha256::digest(long.as_bytes()).into();
    assert!(!bootstrap_token_matches(Some(&long), &long_digest));
    let limit = "x".repeat(4_096);
    let limit_digest: [u8; 32] = sha2::Sha256::digest(limit.as_bytes()).into();
    assert!(bootstrap_token_matches(Some(&limit), &limit_digest));
}

#[test]
fn api_keys_are_audited_before_they_are_stored() {
    assert_eq!(api_key_start(false), (ApiKeyStage::Answered, ApiKeyAction::Answer(ApiKeyAnswer::Invalid)));
    let (stage, action) = api_key_start(true);
    assert_eq!(action, ApiKeyAction::IssueKey);
    let (stage, action) = api_key_step(stage, ApiKeyEvent::Issued(true));
    assert_eq!(action, ApiKeyAction::AuditRequest);
    let (stage, action) = api_key_step(stage, ApiKeyEvent::RequestAudited(true));
    assert_eq!(action, ApiKeyAction::StoreKey);
    let (failed, action) = api_key_step(stage, ApiKeyEvent::Stored(false));
    assert_eq!(action, ApiKeyAction::AuditOutcome(AuditOutcome::Failure));
    assert_eq!(
        api_key_step(failed, ApiKeyEvent::OutcomeAudited),
        (ApiKeyStage::Answered, ApiKeyAction::Answer(ApiKeyAnswer::Unavailable))
    );
    let (stored, action) = api_key_step(stage, ApiKeyEvent::Stored(true));
    assert_eq!(action, ApiKeyAction::AuditOutcome(AuditOutcome::Success));
    assert_eq!(
        api_key_step(stored, ApiKeyEvent::OutcomeAudited),
        (ApiKeyStage::Answered, ApiKeyAction::Answer(ApiKeyAnswer::Created))
    );
    assert_eq!(
        api_key_step(ApiKeyStage::Issuing, ApiKeyEvent::Issued(false)).1,
        ApiKeyAction::Answer(ApiKeyAnswer::Unavailable)
    );
    assert_eq!(
        api_key_step(ApiKeyStage::AuditingRequest, ApiKeyEvent::RequestAudited(false)).1,
        ApiKeyAction::Answer(ApiKeyAnswer::AuditUnavailable)
    );
    let invalid = api_key_error(ApiKeyAnswer::Invalid).expect("reply");
    assert_eq!(invalid.status, 400);
    assert_eq!(invalid.code, "api_key.invalid");
    assert!(api_key_error(ApiKeyAnswer::Created).is_none());
}
