use ffdb_api::billing::{BillingError, LimitKind, MetricsError, UsageDimension, UsageMetric};
use ffdb_api::catalog::{default_usage_events, usage_catalog_labels};
use ffdb_api::clock::epoch_ms;
use ffdb_api::errors::{
    CredentialError, CredentialVerificationError, ExecutionError, MeteringError, RoutingError,
    map_auth_credential_error, validation_error,
};
use ffdb_api::ids::UserId;
use ffdb_api::instance::{
    CommerceServiceError, InstanceAdministratorRole, InstanceBillingAccountStatus,
    InstanceBillingMode, InstanceDeploymentMode, InstanceServiceError, OrganizationCreationPolicy,
    SetupCurrent, SetupKind, SetupPlan, billing_enforcement_enabled, creation_policy_name,
    map_billing_error, map_commerce_error, parse_administrator_role, parse_billing_mode,
    parse_billing_status, parse_creation_policy, plan_setup,
};
use ffdb_api::management::{
    DeveloperScope, PlatformAuthError, SigningKeyManagementError, api_key_invalid,
    api_key_unavailable, invalid_organization_id, invitation_error, invitation_expiry_ms,
    platform_error, signing_key_error, validate_api_key_request,
};
use ffdb_api::metering::allowance_enforcement;
use ffdb_api::observability::{error_response, instance_error};
use ffdb_api::plans::{
    InstanceReadsAtLimit, InstanceSignupsAtLimit, InstanceWritesAtLimit, PlatformBillingUnit,
    billing_unit_name, parse_billing_unit, parse_reads_at_limit, parse_signups_at_limit,
    parse_writes_at_limit, plan_select, reads_at_limit_name, signups_at_limit_name,
    writes_at_limit_name,
};
use ffdb_api::provider::validate_return_url;
use ffdb_api::rate_limit::{
    RateLimitDecision, RateLimitError, RateVerdict, single_check_verdict, validate_namespace_secret,
};
use ffdb_api::routes::stable_method;
use ffdb_api::storage::{
    StorageError, StorageReply, expect_ack, map_execution, map_routing, map_storage_metering,
    storage_error,
};
use ffdb_api::text::{byte_is_hex_digit, byte_to_lower};
use ffdb_api::usage_reporting::{
    PeriodCycleOutcome, ProviderUsageError, ReportingCycleError, ReportingHealth, failure_reason,
    finalized_outcome, map_metrics_error, map_provider_error, parse_metric, provider_metric,
    reconciliation_outcome,
};

#[test]
fn management_errors_keep_their_codes() {
    assert_eq!(invitation_error().code, "invitation.invalid");
    assert_eq!(invalid_organization_id().status, 400);
    let already = platform_error(PlatformAuthError::AlreadyInitialized);
    assert_eq!((already.status, already.code.as_str()), (409, "developer.already_initialized"));
    assert_eq!(platform_error(PlatformAuthError::VerificationRequired).status, 401);
    assert_eq!(platform_error(PlatformAuthError::Disabled).status, 403);
    let exists = signing_key_error(SigningKeyManagementError::ActiveKeyExists);
    assert_eq!((exists.status, exists.code.as_str()), (409, "signing_key.active_exists"));
    assert_eq!(signing_key_error(SigningKeyManagementError::ProjectNotFound).code, "project.not_found");
    assert_eq!(api_key_invalid().status, 400);
    assert_eq!(api_key_unavailable().status, 503);
    assert_eq!(validation_error("bad sql").message, "bad sql");
    assert_eq!(validation_error("bad sql").code, "query.invalid_request");
    assert_eq!(
        map_auth_credential_error(CredentialVerificationError::WrongProject),
        CredentialError::WrongProject
    );
}

#[test]
fn invitations_expire_after_a_day() {
    assert_eq!(invitation_expiry_ms(1_000), 1_000 + 86_400_000);
    assert_eq!(invitation_expiry_ms(i64::MAX - 1), i64::MAX);
}

#[test]
fn api_key_requests_need_a_trimmed_name_scopes_and_a_future_expiry() {
    let scopes = [DeveloperScope::DatabaseQuery, DeveloperScope::ProjectsRead];
    assert!(validate_api_key_request("ci", &scopes, Some(2_000), 1_000));
    assert!(validate_api_key_request("ci", &scopes, None, 1_000));
    assert!(!validate_api_key_request(" ci", &scopes, None, 1_000));
    assert!(!validate_api_key_request("", &scopes, None, 1_000));
    assert!(!validate_api_key_request("ci", &[], None, 1_000));
    assert!(!validate_api_key_request("ci", &scopes, Some(1_000), 1_000));
    assert!(!validate_api_key_request("ci", &[DeveloperScope::DatabaseQuery, DeveloperScope::DatabaseQuery], None, 1));
    assert!(!validate_api_key_request(&"k".repeat(129), &scopes, None, 1));
}

#[test]
fn stored_names_parse_back() {
    assert_eq!(parse_administrator_role("admin"), Ok(InstanceAdministratorRole::Admin));
    assert!(parse_administrator_role("root").is_err());
    assert_eq!(parse_billing_mode("byo_keys"), Ok(InstanceBillingMode::ByoKeys));
    assert_eq!(parse_billing_status("disconnected"), Ok(InstanceBillingAccountStatus::Disconnected));
    assert!(parse_billing_status("Enabled").is_err());
    let policy = OrganizationCreationPolicy::InvitationOnly;
    assert_eq!(parse_creation_policy(creation_policy_name(policy)), Ok(policy));
    assert_eq!(parse_billing_unit(billing_unit_name(PlatformBillingUnit::Seat)), Ok(PlatformBillingUnit::Seat));
    assert_eq!(parse_reads_at_limit(reads_at_limit_name(InstanceReadsAtLimit::Continue)), Ok(InstanceReadsAtLimit::Continue));
    assert_eq!(parse_writes_at_limit(writes_at_limit_name(InstanceWritesAtLimit::Pause)), Ok(InstanceWritesAtLimit::Pause));
    assert_eq!(
        parse_signups_at_limit(signups_at_limit_name(InstanceSignupsAtLimit::Overage)),
        Ok(InstanceSignupsAtLimit::Overage)
    );
    assert!(plan_select().starts_with("SELECT "));
}

#[test]
fn provider_failures_map_to_instance_failures() {
    assert_eq!(map_commerce_error(CommerceServiceError::AccountInUse), InstanceServiceError::Conflict);
    assert_eq!(map_commerce_error(CommerceServiceError::Encryption), InstanceServiceError::InvalidConfiguration);
    assert_eq!(
        map_commerce_error(CommerceServiceError::CapabilityUnavailable),
        InstanceServiceError::ProviderRejected
    );
    assert_eq!(map_billing_error(BillingError::InvalidWebhookPayload), InstanceServiceError::ProviderRejected);
    assert_eq!(map_billing_error(BillingError::ProviderUnavailable), InstanceServiceError::ProviderUnavailable);
    assert!(billing_enforcement_enabled(InstanceDeploymentMode::PlatformConnect));
    assert!(!billing_enforcement_enabled(InstanceDeploymentMode::Team));
}

fn current(mode: InstanceDeploymentMode, billing: Option<&str>, in_use: bool) -> SetupCurrent {
    SetupCurrent {
        owner: UserId(1),
        mode,
        policy: OrganizationCreationPolicy::OwnerOnly,
        setup_complete: true,
        billing_mode: billing.map(str::to_owned),
        provider_account_id: Some("acct_bound12345".to_owned()),
        tenant_billing_in_use: in_use,
    }
}

#[test]
fn completing_setup_keeps_billed_instances_bound() {
    let byo = current(InstanceDeploymentMode::PlatformByo, Some("byo_keys"), true);
    assert_eq!(
        plan_setup(UserId(2), SetupKind::PlatformByo, OrganizationCreationPolicy::OwnerOnly, &byo),
        Err(InstanceServiceError::Forbidden)
    );
    assert_eq!(
        plan_setup(UserId(1), SetupKind::Team, OrganizationCreationPolicy::OwnerOnly, &byo),
        Err(InstanceServiceError::BillingInUse)
    );
    assert_eq!(
        plan_setup(UserId(1), SetupKind::PlatformByo, OrganizationCreationPolicy::OwnerOnly, &byo),
        Ok(SetupPlan::ConfigureByo { required_account: Some("acct_bound12345".to_owned()) })
    );
    let team = current(InstanceDeploymentMode::Team, None, false);
    assert_eq!(
        plan_setup(UserId(1), SetupKind::Team, OrganizationCreationPolicy::OwnerOnly, &team),
        Ok(SetupPlan::Unchanged)
    );
    assert_eq!(
        plan_setup(UserId(1), SetupKind::Private, OrganizationCreationPolicy::OwnerOnly, &team),
        Ok(SetupPlan::ClearBilling)
    );
    let connect = current(InstanceDeploymentMode::PlatformConnect, Some("stripe_connect"), false);
    assert_eq!(
        plan_setup(UserId(1), SetupKind::PlatformConnect, OrganizationCreationPolicy::Authenticated, &connect),
        Ok(SetupPlan::ConfigureConnect { existing_account: Some("acct_bound12345".to_owned()) })
    );
    assert_eq!(
        plan_setup(UserId(1), SetupKind::PlatformConnect, OrganizationCreationPolicy::OwnerOnly, &team),
        Ok(SetupPlan::ConfigureConnect { existing_account: None })
    );
}

#[test]
fn return_urls_must_be_https_or_local() {
    assert_eq!(
        validate_return_url("https://portal.example.test/instance").as_deref(),
        Ok("https://portal.example.test/instance")
    );
    assert!(validate_return_url("http://localhost:3000/back").is_ok());
    assert_eq!(validate_return_url("http://portal.example.test/"), Err(InstanceServiceError::InvalidRequest));
    assert_eq!(validate_return_url("https://user:pw@portal.example.test/"), Err(InstanceServiceError::InvalidRequest));
}

#[test]
fn storage_failures_keep_their_replies() {
    assert_eq!(map_routing(RoutingError::NotFound), StorageError::Internal);
    assert_eq!(
        map_execution(ExecutionError::Rejected { code: "storage.project_quota".to_owned() }),
        StorageError::ProjectQuotaExceeded
    );
    assert_eq!(map_execution(ExecutionError::QueueFull), StorageError::TooManyReservations);
    assert_eq!(
        map_storage_metering(MeteringError::Store(MetricsError::LimitExceeded(LimitKind::StorageBytes))),
        StorageError::OrganizationQuotaExceeded
    );
    assert_eq!(map_storage_metering(MeteringError::Unavailable), StorageError::Internal);
    assert_eq!(expect_ack(StorageReply::StorageAck), Ok(()));
    assert_eq!(expect_ack(StorageReply::Other), Err(StorageError::Internal));
    let quota = storage_error(StorageError::OrganizationQuotaExceeded);
    assert_eq!((quota.status, quota.code.as_str()), (402, "storage.organization_quota"));
}

#[test]
fn reporting_maps_provider_and_store_failures() {
    assert_eq!(provider_metric(UsageDimension::StorageByteMilliseconds), UsageMetric::StorageByteHours);
    assert_eq!(parse_metric("writes"), Ok(UsageMetric::Writes));
    assert_eq!(parse_metric("bytes"), Err(ReportingCycleError::InvalidCatalog));
    assert_eq!(map_provider_error(BillingError::ProviderUnavailable), ProviderUsageError::Retryable);
    assert_eq!(map_provider_error(BillingError::InvalidRequest), ProviderUsageError::Rejected);
    assert_eq!(failure_reason(ProviderUsageError::Rejected), "provider_rejected");
    assert_eq!(map_metrics_error(MetricsError::HashConflict), ReportingCycleError::InconsistentTotals);
    assert_eq!(map_metrics_error(MetricsError::InvalidInput), ReportingCycleError::InvalidConfiguration);
    assert_eq!(map_metrics_error(MetricsError::StaleLease), ReportingCycleError::MetricsUnavailable);
    let sent = PeriodCycleOutcome { health: None, reports_enqueued: 1, reports_sent: 1, reports_failed: 0, reconciled: false };
    let matched = reconciliation_outcome(sent, true, true);
    assert_eq!(matched.health, Some(ReportingHealth::Healthy));
    assert!(matched.reconciled);
    let mismatched = reconciliation_outcome(sent, true, false);
    assert_eq!(mismatched.health, Some(ReportingHealth::Blocked));
    assert!(!mismatched.reconciled);
    assert_eq!(finalized_outcome().health, Some(ReportingHealth::Healthy));
}

#[test]
fn small_helpers() {
    assert_eq!(stable_method("PATCH"), "PATCH");
    assert_eq!(stable_method("get"), "OTHER");
    assert_eq!(single_check_verdict(Ok(RateLimitDecision::Allowed)), RateVerdict::Admit);
    assert_eq!(
        single_check_verdict(Ok(RateLimitDecision::Denied { retry_after_ms: 7 })),
        RateVerdict::Limited { retry_after_ms: 7 }
    );
    assert_eq!(single_check_verdict(Err(RateLimitError::Unavailable)), RateVerdict::Unavailable);
    assert!(validate_namespace_secret(&[1u8; 32]).is_ok());
    assert!(validate_namespace_secret(&[1u8; 31]).is_err());
    assert_eq!(allowance_enforcement(true, false, true, true), (true, true, true));
    assert_eq!(allowance_enforcement(true, true, true, true), (false, false, false));
    assert_eq!(allowance_enforcement(true, false, false, false), (false, false, false));
    assert_eq!(instance_error(InstanceServiceError::Forbidden).status, 403);
    assert_eq!(instance_error(InstanceServiceError::Unavailable).status, 503);
    assert_eq!(error_response("down").message, "down");
    assert_eq!(byte_to_lower(b'Q'), b'q');
    assert!(byte_is_hex_digit(b'f') && !byte_is_hex_digit(b'g'));
    assert!(epoch_ms().is_some_and(|now| now > 1_600_000_000_000));
    let events = default_usage_events();
    assert_eq!(events.len(), 4);
    assert_eq!(events[2].event_name, "ffdb_storage_kilobyte_hours");
    assert_eq!(usage_catalog_labels(UsageMetric::MonthlyActiveUsers), ("Distinct monthly active users", "user"));
}
