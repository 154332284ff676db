use ffdb_api::billing::{BillingPeriod, BillingPeriodStatus, UsageMetric, UsageSummary};
use ffdb_api::errors::MeteringError;
use ffdb_api::ids::{OrganizationId, ProjectId};
use ffdb_api::metering::{
    BillingContext, ReservationKind, UsagePlan, UsageReportingStatus, billing_period_for,
    account_entitled, calendar_month, database_resource, effective_tier_free,
    object_storage_resource, occurred_at_ms,
    parse_reporting_status, plan_usage_terms, positive_allowance, reservation_limits,
    storage_byte_hours, storage_reservation_id,
};
use ffdb_api::operation::WorkerOperation;
use ffdb_api::usage_reporting::{
    CycleTally, PeriodCycleOutcome, PeriodStep, ReportingCycleError, ReportingHealth,
    UsageReportingConfig, fallback_health, metric_totals, period_step, report_delta,
    reportable_through, retry_at, retry_delay_ms, seal_due, stable_report_identifier,
};

const AUG_2026_START: i64 = 1_785_542_400_000;
const SEP_2026_START: i64 = 1_788_220_800_000;

fn august() -> BillingPeriod {
    BillingPeriod {
        start_ms: AUG_2026_START,
        end_ms: SEP_2026_START,
        cutoff_ms: SEP_2026_START + 172_800_000,
    }
}

fn context(enforce_storage: bool, reporting_blocked: bool) -> BillingContext {
    BillingContext {
        organization_id: OrganizationId(9),
        period: august(),
        storage_bytes: 1_000,
        monthly_reads: 100,
        monthly_writes: 50,
        monthly_active_users: 5,
        enforce_write: true,
        enforce_storage,
        reporting_blocked,
    }
}

#[test]
fn operations_are_metered_by_their_statements() {
    let query = WorkerOperation::Query { read_only: Some(true) };
    assert_eq!(
        UsagePlan::for_operation(&query),
        Ok(Some(UsagePlan { read_units: 1, write_units: 0 }))
    );
    let transaction = WorkerOperation::Transaction {
        statements: vec![Some(true), Some(false), Some(false)],
    };
    assert_eq!(
        UsagePlan::for_operation(&transaction),
        Ok(Some(UsagePlan { read_units: 1, write_units: 2 }))
    );
    let unclassified = WorkerOperation::Transaction { statements: vec![Some(true), None] };
    assert_eq!(
        UsagePlan::for_operation(&unclassified),
        Err(MeteringError::InvalidOperation)
    );
    let push = WorkerOperation::SyncPush { mutations: 4 };
    assert_eq!(
        UsagePlan::for_operation(&push),
        Ok(Some(UsagePlan { read_units: 0, write_units: 4 }))
    );
    assert_eq!(UsagePlan::for_operation(&WorkerOperation::Schema), Ok(None));
    assert!(UsagePlan { read_units: 0, write_units: 1 }.mutating());
    assert!(!UsagePlan { read_units: 3, write_units: 0 }.mutating());
}

#[test]
fn calendar_months_are_utc() {
    let link_expiry = 1_785_765_600_000;
    assert_eq!(calendar_month(link_expiry), Ok(august()));
    assert_eq!(calendar_month(AUG_2026_START), Ok(august()));
    let december = calendar_month(1_798_761_600_000 - 1).expect("december");
    assert_eq!(december.end_ms, 1_798_761_600_000);
}

#[test]
fn provider_periods_are_used_only_while_entitled_and_current() {
    let now = AUG_2026_START + 10;
    let provider = billing_period_for(true, Some(AUG_2026_START - 5), Some(AUG_2026_START + 100), now)
        .expect("provider period");
    assert_eq!(provider.start_ms, AUG_2026_START - 5);
    assert_eq!(provider.cutoff_ms, AUG_2026_START + 100 + 172_800_000);
    assert_eq!(
        billing_period_for(false, Some(AUG_2026_START - 5), Some(AUG_2026_START + 100), now),
        Ok(august())
    );
    assert_eq!(billing_period_for(true, None, None, now), Ok(august()));
    let max_end = billing_period_for(true, Some(0), Some(i64::MAX), now).expect("period");
    assert_eq!(max_end.cutoff_ms, i64::MAX);
}

#[test]
fn writes_are_sized_by_the_remaining_storage() {
    let write = UsagePlan { read_units: 0, write_units: 1 };
    let read = UsagePlan { read_units: 1, write_units: 0 };
    assert_eq!(plan_usage_terms(&context(true, false), write, 400, 30, 10_000), Ok(Some((600, 630))));
    assert_eq!(plan_usage_terms(&context(true, false), write, 400, 30, 100), Ok(Some((600, 100))));
    assert_eq!(plan_usage_terms(&context(true, false), write, 4_000, 30, 10_000), Ok(Some((0, 30))));
    assert_eq!(plan_usage_terms(&context(false, false), write, 400, 30, 10_000), Ok(Some((0, 10_000))));
    assert_eq!(plan_usage_terms(&context(true, false), read, 400, 30, 10_000), Ok(None));
    assert_eq!(
        plan_usage_terms(&context(true, true), write, 400, 30, 10_000),
        Err(MeteringError::ReportingBlocked)
    );
    assert_eq!(plan_usage_terms(&context(true, true), read, 400, 30, 10_000), Ok(None));
    assert_eq!(
        plan_usage_terms(&context(true, false), write, 0, u64::MAX, 10),
        Err(MeteringError::Unavailable)
    );
}

#[test]
fn reservation_limits_follow_the_kind() {
    let limits = reservation_limits(&context(true, false), ReservationKind::Execution);
    assert!(limits.enforce_write_limit && limits.enforce_storage_limit);
    assert!(!limits.enforce_read_limit && !limits.enforce_mau_limit);
    let registration = reservation_limits(&context(true, false), ReservationKind::Registration);
    assert!(registration.enforce_mau_limit && !registration.enforce_storage_limit);
    let objects = reservation_limits(&context(true, false), ReservationKind::ObjectStorage);
    assert!(objects.enforce_storage_limit && !objects.enforce_write_limit);
    assert_eq!(objects.storage_bytes, 1_000);
    assert_eq!(positive_allowance(5), Ok(5));
    assert_eq!(positive_allowance(0), Err(MeteringError::Unavailable));
}

#[test]
fn usage_is_placed_inside_its_period() {
    let period = august();
    assert_eq!(occurred_at_ms(AUG_2026_START - 1, period), AUG_2026_START);
    assert_eq!(occurred_at_ms(SEP_2026_START, period), SEP_2026_START - 1);
    assert_eq!(occurred_at_ms(AUG_2026_START + 7, period), AUG_2026_START + 7);
    assert_eq!(storage_byte_hours(7_200_000), 2);
    assert_eq!(storage_byte_hours(3_599_999), 0);
    assert_eq!(storage_byte_hours(u128::MAX), u64::MAX);
}

#[test]
fn reporting_status_names() {
    assert_eq!(parse_reporting_status("healthy"), Ok(UsageReportingStatus::Healthy));
    assert_eq!(parse_reporting_status("blocked"), Ok(UsageReportingStatus::Blocked));
    assert_eq!(parse_reporting_status("Blocked"), Err(MeteringError::Unavailable));
}

#[test]
fn resources_and_reservations_are_named_stably() {
    let id = uuid::Uuid::parse_str("0191c2a8-5f4e-7a1b-8c3d-4e5f6a7b8c9d").expect("uuid");
    let project = ProjectId(id.as_u128());
    assert_eq!(database_resource(project), "database:0191c2a8-5f4e-7a1b-8c3d-4e5f6a7b8c9d");
    assert_eq!(object_storage_resource(project), "objects:0191c2a8-5f4e-7a1b-8c3d-4e5f6a7b8c9d");
    assert_eq!(
        storage_reservation_id("nonce-1"),
        "storage:9e3f156324d42f0ea4b6f4fce81d56fbd64a2143a3fdd60a130d9c90e5b4d688"
    );
}

#[test]
fn report_identifiers_hash_the_report_identity() {
    let period = BillingPeriod { start_ms: 1_000, end_ms: 2_000, cutoff_ms: 3_000 };
    let id = stable_report_identifier(OrganizationId(1), period, UsageMetric::Reads, 42, 1_500);
    assert_eq!(id, "ffdb_d2b3fdf9bc3c533651f0cc9561bd41ef7fc330ca5a963e294c21abc0af2af99c");
    let again = stable_report_identifier(OrganizationId(1), period, UsageMetric::Reads, 42, 1_500);
    assert_eq!(id, again);
    let other = stable_report_identifier(OrganizationId(1), period, UsageMetric::Reads, 43, 1_500);
    assert_ne!(id, other);
}

#[test]
fn retries_back_off_to_an_hour() {
    assert_eq!(retry_delay_ms(30_000, 0), 30_000);
    assert_eq!(retry_delay_ms(30_000, 1), 30_000);
    assert_eq!(retry_delay_ms(30_000, 2), 60_000);
    assert_eq!(retry_delay_ms(30_000, 4), 240_000);
    assert_eq!(retry_delay_ms(30_000, 8), 3_600_000);
    assert_eq!(retry_delay_ms(1_000, 40), 1_024_000);
    assert_eq!(retry_delay_ms(i64::MAX, 3), 3_600_000);
    assert_eq!(retry_at(i64::MAX - 5, 30_000, 1), i64::MAX);
    assert_eq!(retry_at(100, 30_000, 2), 60_100);
}

#[test]
fn reportable_windows_round_down_to_hours() {
    let period = BillingPeriod { start_ms: 0, end_ms: 100 * 3_600_000, cutoff_ms: 0 };
    assert_eq!(reportable_through(period, 5 * 3_600_000 + 400_000, 300_000), Some(5 * 3_600_000));
    assert_eq!(reportable_through(period, 200 * 3_600_000, 300_000), Some(100 * 3_600_000));
    assert_eq!(reportable_through(period, 3_600_000, 300_000), None);
    assert_eq!(reportable_through(period, i64::MIN, 1), None);
}

#[test]
fn totals_convert_storage_to_billing_units() {
    let summary = UsageSummary {
        read_units: 3,
        write_units: 4,
        storage_byte_milliseconds: 3_600_000 * 2_500,
        monthly_active_users: 6,
    };
    let totals = metric_totals(&summary).expect("totals");
    assert_eq!(totals[0].2, 3);
    assert_eq!(totals[1].2, 4);
    assert_eq!(totals[2].0, UsageMetric::StorageByteHours);
    assert_eq!(totals[2].2, 2);
    assert_eq!(totals[3].2, 6);
    let huge = UsageSummary { storage_byte_milliseconds: u128::MAX, ..summary };
    assert_eq!(metric_totals(&huge), Err(ReportingCycleError::InconsistentTotals));
    assert_eq!(report_delta(10, 4), Ok(6));
    assert_eq!(report_delta(4, 10), Err(ReportingCycleError::InconsistentTotals));
}

#[test]
fn periods_settle_by_outbox_and_time() {
    let period = BillingPeriod { start_ms: 0, end_ms: 1_000, cutoff_ms: 2_000 };
    assert!(seal_due(BillingPeriodStatus::Open, period, 2_000));
    assert!(!seal_due(BillingPeriodStatus::Open, period, 1_999));
    assert!(!seal_due(BillingPeriodStatus::Sealed, period, 5_000));
    assert_eq!(
        period_step(BillingPeriodStatus::Open, false, 0, None, period, 10, 500),
        PeriodStep::Settled(ReportingHealth::Healthy)
    );
    assert_eq!(
        period_step(BillingPeriodStatus::Open, false, 3, None, period, 10, 500),
        PeriodStep::Settled(ReportingHealth::Degraded)
    );
    assert_eq!(
        period_step(BillingPeriodStatus::Sealed, true, 0, None, period, 10, 500),
        PeriodStep::Settled(ReportingHealth::Blocked)
    );
    assert_eq!(
        period_step(BillingPeriodStatus::Sealed, false, 2, None, period, 2_499, 500),
        PeriodStep::Settled(ReportingHealth::Reconciling)
    );
    assert_eq!(
        period_step(BillingPeriodStatus::Sealed, false, 2, None, period, 2_500, 500),
        PeriodStep::Settled(ReportingHealth::Blocked)
    );
    assert_eq!(
        period_step(BillingPeriodStatus::Sealed, false, 0, Some(3_000), period, 3_400, 500),
        PeriodStep::Settled(ReportingHealth::Reconciling)
    );
    assert_eq!(
        period_step(BillingPeriodStatus::Sealed, false, 0, Some(3_000), period, 3_500, 500),
        PeriodStep::Reconcile
    );
    assert_eq!(fallback_health(2_500, period, 500), ReportingHealth::Blocked);
    assert_eq!(fallback_health(2_499, period, 500), ReportingHealth::Degraded);
}

#[test]
fn the_cycle_tally_keeps_the_worst_health_per_organization() {
    let mut tally = CycleTally::new(3).expect("tally");
    let sent = PeriodCycleOutcome {
        health: Some(ReportingHealth::Degraded),
        reports_enqueued: 2,
        reports_sent: 2,
        reports_failed: 0,
        reconciled: false,
    };
    tally.record(OrganizationId(1), sent);
    tally.record(OrganizationId(1), PeriodCycleOutcome::failed_with(ReportingHealth::Healthy));
    tally.record(OrganizationId(2), PeriodCycleOutcome::failed_with(ReportingHealth::Blocked));
    tally.record(
        OrganizationId(3),
        PeriodCycleOutcome { health: None, reports_enqueued: 0, reports_sent: 0, reports_failed: 1, reconciled: true },
    );
    let (summary, health) = tally.finish().expect("summary");
    assert_eq!(summary.periods, 3);
    assert_eq!(summary.organizations, 2);
    assert_eq!(summary.organizations_blocked, 1);
    assert_eq!(summary.reports_enqueued, 2);
    assert_eq!(summary.reports_failed, 1);
    assert_eq!(summary.periods_reconciled, 1);
    assert!(health.contains(&(OrganizationId(1), ReportingHealth::Degraded)));
    assert!(health.contains(&(OrganizationId(2), ReportingHealth::Blocked)));
    assert_eq!(ReportingHealth::Blocked.as_str(), "blocked");
    assert_eq!(ReportingHealth::Reconciling.rank(), 2);
}

#[test]
fn production_configuration_is_valid() {
    let config = UsageReportingConfig::production("/var/lib/ffdb/metrics".to_owned(), [7u8; 32]);
    assert_eq!(config.validate(), Ok(()));
    let relative = UsageReportingConfig::production("metrics".to_owned(), [7u8; 32]);
    assert_eq!(relative.validate(), Err(ReportingCycleError::InvalidConfiguration));
    let zero_key = UsageReportingConfig::production("/metrics".to_owned(), [0u8; 32]);
    assert_eq!(zero_key.validate(), Err(ReportingCycleError::InvalidConfiguration));
}

#[test]
fn only_entitled_accounts_leave_the_free_tier() {
    assert!(account_entitled(Some("trialing")));
    assert!(!account_entitled(Some("past_due")));
    assert!(!effective_tier_free(Some("active"), Some("pro")));
    assert!(effective_tier_free(Some("active"), None));
    assert!(effective_tier_free(Some("active"), Some("free")));
    assert!(effective_tier_free(Some("canceled"), Some("pro")));
    assert!(effective_tier_free(None, Some("pro")));
}

#[test]
fn a_cycle_checks_time_catalog_and_periods_and_falls_back_on_failed_periods() {
    assert!(matches!(
        CycleTally::begin(-1, Err(ReportingCycleError::InvalidCatalog), Ok(1)),
        Err(ReportingCycleError::InvalidConfiguration)
    ));
    assert!(matches!(
        CycleTally::begin(0, Err(ReportingCycleError::InvalidCatalog), Err(ReportingCycleError::RepositoryUnavailable)),
        Err(ReportingCycleError::InvalidCatalog)
    ));
    assert!(matches!(
        CycleTally::begin(0, Ok(()), Err(ReportingCycleError::RepositoryUnavailable)),
        Err(ReportingCycleError::RepositoryUnavailable)
    ));
    let delay = 900_000;
    let mut tally = CycleTally::begin(AUG_2026_START, Ok(()), Ok(2)).expect("tally");
    tally.record_period(OrganizationId(1), Err(ReportingCycleError::MetricsUnavailable), AUG_2026_START, august(), delay);
    let late = august().cutoff_ms + delay;
    tally.record_period(OrganizationId(2), Err(ReportingCycleError::MetricsUnavailable), late, august(), delay);
    let (summary, health) = tally.finish().expect("summary");
    assert_eq!(summary.periods, 2);
    assert_eq!(summary.organizations, 2);
    assert_eq!(summary.organizations_blocked, 1);
    assert!(health.contains(&(OrganizationId(1), ReportingHealth::Degraded)));
    assert!(health.contains(&(OrganizationId(2), ReportingHealth::Blocked)));
}
