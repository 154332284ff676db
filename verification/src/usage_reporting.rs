//! Durable organization-usage reporting: configuration, the reporting-health
//! ladder, reporting windows, retry backoff, usage totals, stable report
//! identifiers, and the per-cycle tally.
use vstd::prelude::*;
use crate::billing::{BillingError, BillingPeriod, BillingPeriodStatus, MetricsError, UsageDimension, UsageMetric,
    UsageSummary, metric_name, metric_named, lookup_metric};
use crate::ids::OrganizationId;
use crate::encoding::{be_bytes, hex_lower, lemma_hex_lower_facts, push_be, push_hex_lower};
use crate::outside::{sha256, sha256_digest};
use crate::text::{append_bytes, ascii_chars, is_ascii_bytes, str_eq};
use vstd::string::StringSliceAdditionalSpecFns;

verus! {

pub const HOUR_MS: i64 = 3_600_000;

pub const DAY_MS: i64 = 86_400_000;

/// Bytes in one billed storage unit (a decimal kilobyte).
pub const STORAGE_BILLING_UNIT_BYTES: u64 = 1_000;

/// Configuration of the usage-reporting worker.
#[derive(Clone, Debug)]
pub struct UsageReportingConfig {
    pub metrics_root: String,
    pub subject_key: [u8; 32],
    pub report_lag_ms: i64,
    pub provider_consistency_delay_ms: i64,
    pub period_cutoff_grace_ms: i64,
    pub outbox_lease_ms: i64,
    pub retry_base_ms: i64,
    pub max_periods_per_cycle: u32,
    pub max_reports_per_period: u32,
}

/// Why a reporting cycle stopped.
#[derive(Clone, Copy, Debug, PartialEq, Eq, Structural)]
pub enum ReportingCycleError {
    InvalidConfiguration,
    InvalidCatalog,
    RepositoryUnavailable,
    MetricsUnavailable,
    InconsistentTotals,
}

/// A subject key made only of zero bytes.
pub open spec fn all_zero(key: [u8; 32]) -> bool {
    forall|i: int| 0 <= i < 32 ==> #[trigger] key@[i] == 0
}

/// The bounds that a usable reporting configuration keeps: an absolute metrics
/// root, a non-zero subject key, and every timing and batch size in its range.
pub open spec fn config_is_valid(c: UsageReportingConfig) -> bool {
    &&& crate::outside::path_is_absolute(c.metrics_root@)
    &&& !all_zero(c.subject_key)
    &&& 1_000 <= c.report_lag_ms <= HOUR_MS
    &&& 1_000 <= c.provider_consistency_delay_ms <= DAY_MS
    &&& HOUR_MS <= c.period_cutoff_grace_ms <= 7 * DAY_MS
    &&& 1_000 <= c.outbox_lease_ms <= 600_000
    &&& 1_000 <= c.retry_base_ms <= HOUR_MS
    &&& 1 <= c.max_periods_per_cycle <= 10_000
    &&& 1 <= c.max_reports_per_period <= 100
}

impl UsageReportingConfig {
    /// The production timings: five minutes of report lag, fifteen minutes of
    /// provider consistency delay, two days of cutoff grace, a one-minute
    /// outbox lease, a thirty-second retry base, 1,000 periods per cycle and
    /// 100 reports per period.
    pub fn production(metrics_root: String, subject_key: [u8; 32]) -> (c: Self)
        ensures
            c.metrics_root == metrics_root,
            c.subject_key == subject_key,
            c.report_lag_ms == 300_000,
            c.provider_consistency_delay_ms == 900_000,
            c.period_cutoff_grace_ms == 2 * DAY_MS,
            c.outbox_lease_ms == 60_000,
            c.retry_base_ms == 30_000,
            c.max_periods_per_cycle == 1_000,
            c.max_reports_per_period == 100,
    {
        UsageReportingConfig {
            metrics_root,
            subject_key,
            report_lag_ms: 5 * 60 * 1_000,
            provider_consistency_delay_ms: 15 * 60 * 1_000,
            period_cutoff_grace_ms: 2 * DAY_MS,
            outbox_lease_ms: 60_000,
            retry_base_ms: 30_000,
            max_periods_per_cycle: 1_000,
            max_reports_per_period: 100,
        }
    }

    /// Checks the configuration before a worker is built from it.
    pub fn validate(&self) -> (r: Result<(), ReportingCycleError>)
        ensures
            r is Ok <==> config_is_valid(*self),
            r is Err ==> r == Err::<(), _>(ReportingCycleError::InvalidConfiguration),
    {
        let mut zero = true;
        let mut i: usize = 0;
        while i < 32
            invariant
                i <= 32,
                zero == (forall|k: int| 0 <= k < i ==> #[trigger] self.subject_key@[k] == 0),
            decreases 32 - i,
        {
            if self.subject_key[i] != 0 {
                zero = false;
            }
            i = i + 1;
        }
        if !crate::outside::path_is_absolute_str(self.metrics_root.as_str()) || zero || !(1_000
            <= self.report_lag_ms && self.report_lag_ms <= HOUR_MS) || !(1_000
            <= self.provider_consistency_delay_ms && self.provider_consistency_delay_ms <= DAY_MS)
            || !(HOUR_MS <= self.period_cutoff_grace_ms && self.period_cutoff_grace_ms <= 7
            * DAY_MS) || !(1_000 <= self.outbox_lease_ms && self.outbox_lease_ms <= 10 * 60
            * 1_000) || !(1_000 <= self.retry_base_ms && self.retry_base_ms <= HOUR_MS) || !(1
            <= self.max_periods_per_cycle && self.max_periods_per_cycle <= 10_000) || !(1
            <= self.max_reports_per_period && self.max_reports_per_period <= 100) {
            return Err(ReportingCycleError::InvalidConfiguration);
        }
        Ok(())
    }
}

/// Counters of one reporting cycle.
#[derive(Clone, Copy, Debug, PartialEq, Eq, Structural)]
pub struct ReportingCycleSummary {
    pub organizations: u32,
    pub periods: u32,
    pub reports_enqueued: u32,
    pub reports_sent: u32,
    pub reports_failed: u32,
    pub periods_reconciled: u32,
    pub organizations_blocked: u32,
}

impl Default for ReportingCycleSummary {
    fn default() -> (s: Self)
        ensures
            s == (ReportingCycleSummary {
                organizations: 0,
                periods: 0,
                reports_enqueued: 0,
                reports_sent: 0,
                reports_failed: 0,
                periods_reconciled: 0,
                organizations_blocked: 0,
            }),
    {
        ReportingCycleSummary {
            organizations: 0,
            periods: 0,
            reports_enqueued: 0,
            reports_sent: 0,
            reports_failed: 0,
            periods_reconciled: 0,
            organizations_blocked: 0,
        }
    }
}

/// Reporting health of an organization, from best to worst.
#[derive(Clone, Copy, Debug, PartialEq, Eq, Structural)]
pub enum ReportingHealth {
    Healthy,
    Degraded,
    Reconciling,
    Blocked,
}

pub open spec fn health_rank(h: ReportingHealth) -> u8 {
    match h {
        ReportingHealth::Healthy => 0,
        ReportingHealth::Degraded => 1,
        ReportingHealth::Reconciling => 2,
        ReportingHealth::Blocked => 3,
    }
}

impl ReportingHealth {
    /// Position on the health ladder: healthy 0, degraded 1, reconciling 2,
    /// blocked 3.
    pub fn rank(self) -> (r: u8)
        ensures
            r == health_rank(self),
    {
        match self {
            ReportingHealth::Healthy => 0,
            ReportingHealth::Degraded => 1,
            ReportingHealth::Reconciling => 2,
            ReportingHealth::Blocked => 3,
        }
    }

    /// The stored name of the health state.
    pub fn as_str(self) -> (s: &'static str)
        ensures
            self == ReportingHealth::Healthy ==> s == "healthy",
            self == ReportingHealth::Degraded ==> s == "degraded",
            self == ReportingHealth::Reconciling ==> s == "reconciling",
            self == ReportingHealth::Blocked ==> s == "blocked",
    {
        match self {
            ReportingHealth::Healthy => "healthy",
            ReportingHealth::Degraded => "degraded",
            ReportingHealth::Reconciling => "reconciling",
            ReportingHealth::Blocked => "blocked",
        }
    }
}

/// The worse of two health states; ties keep the current one.
pub open spec fn worse_health(current: ReportingHealth, incoming: ReportingHealth) -> ReportingHealth {
    if health_rank(incoming) > health_rank(current) {
        incoming
    } else {
        current
    }
}


/// `x` clamped into the range of `i64`, as the saturating operations give it.
pub open spec fn saturate_i64(x: int) -> i64 {
    if x > i64::MAX {
        i64::MAX
    } else if x < i64::MIN {
        i64::MIN
    } else {
        x as i64
    }
}

/// `i64::saturating_add`.
pub fn saturating_add_i64(a: i64, b: i64) -> (r: i64)
    ensures
        r == saturate_i64(a + b),
{
    match a.checked_add(b) {
        Some(v) => v,
        None => {
            if b > 0 {
                i64::MAX
            } else {
                i64::MIN
            }
        },
    }
}

/// The last instant of a billing period whose usage may be reported at `now_ms`:
/// the period end once `now_ms - lag_ms` has passed it, otherwise
/// `now_ms - lag_ms` rounded down to a whole hour; nothing when that instant
/// is not after the period start or `now_ms - lag_ms` leaves the `i64` range.
pub open spec fn reportable_window_end(period: BillingPeriod, now_ms: i64, lag_ms: i64) -> Option<i64> {
    let stable = now_ms - lag_ms;
    if stable < i64::MIN || stable > i64::MAX {
        None
    } else {
        let through = if stable >= period.end_ms {
            period.end_ms as int
        } else {
            stable - stable % (HOUR_MS as int)
        };
        if through > period.start_ms {
            Some(through as i64)
        } else {
            None
        }
    }
}

/// Computes `reportable_window_end`. The one input left out is a stable
/// instant within an hour of `i64::MIN`, where rounding down leaves `i64`.
pub fn reportable_through(period: BillingPeriod, now_ms: i64, lag_ms: i64) -> (r: Option<i64>)
    requires
        now_ms - lag_ms < i64::MIN || now_ms - lag_ms > i64::MAX || now_ms - lag_ms >= period.end_ms
            || (now_ms - lag_ms) - (now_ms - lag_ms) % (HOUR_MS as int) >= i64::MIN,
    ensures
        r == reportable_window_end(period, now_ms, lag_ms),
{
    let stable = match now_ms.checked_sub(lag_ms) {
        Some(v) => v,
        None => return None,
    };
    let through = if stable >= period.end_ms {
        period.end_ms
    } else {
        let rem = match stable.checked_rem_euclid(HOUR_MS) {
            Some(v) => v,
            None => return None,
        };
        stable - rem
    };
    if through > period.start_ms {
        Some(through)
    } else {
        None
    }
}

/// `2^e`.
pub open spec fn two_pow(e: nat) -> int
    decreases e,
{
    if e == 0 {
        1
    } else {
        2 * two_pow((e - 1) as nat)
    }
}

/// The backoff exponent of the `attempt`-th try: `attempt - 1`, at most 10.
pub open spec fn backoff_exponent(attempt: u32) -> nat {
    if attempt == 0 {
        0
    } else if attempt - 1 > 10 {
        10
    } else {
        (attempt - 1) as nat
    }
}

/// The retry delay after the `attempt`-th failed report: the base doubled once
/// per earlier attempt (at most ten times), saturating, and never more than an
/// hour.
pub open spec fn retry_delay(base_ms: i64, attempt: u32) -> i64 {
    let delayed = saturate_i64(base_ms * two_pow(backoff_exponent(attempt)));
    if delayed < HOUR_MS {
        delayed
    } else {
        HOUR_MS
    }
}

/// Computes `retry_delay`.
pub fn retry_delay_ms(base_ms: i64, attempt: u32) -> (r: i64)
    ensures
        r == retry_delay(base_ms, attempt),
{
    let exponent: u32 = if attempt == 0 {
        0
    } else if attempt - 1 > 10 {
        10
    } else {
        attempt - 1
    };
    let mut factor: i64 = 1;
    let mut k: u32 = 0;
    while k < exponent
        invariant
            k <= exponent <= 10,
            exponent == backoff_exponent(attempt),
            factor == two_pow(k as nat),
            1 <= factor <= 1024,
        decreases exponent - k,
    {
        proof {
            assert(two_pow((k + 1) as nat) == 2 * two_pow(k as nat));
            lemma_two_pow_bound(k as nat);
        }
        factor = factor * 2;
        k = k + 1;
    }
    proof {
        let p = base_ms * factor;
        assert(base_ms < 0 ==> p < 0) by (nonlinear_arith)
            requires
                factor >= 1,
                p == base_ms * factor,
        ;
        assert(base_ms >= 0 ==> p >= 0) by (nonlinear_arith)
            requires
                factor >= 1,
                p == base_ms * factor,
        ;
    }
    let delayed = match base_ms.checked_mul(factor) {
        Some(v) => v,
        None => {
            if base_ms < 0 {
                i64::MIN
            } else {
                i64::MAX
            }
        },
    };
    if delayed < HOUR_MS {
        delayed
    } else {
        HOUR_MS
    }
}

proof fn lemma_two_pow_monotone(a: nat, b: nat)
    requires
        a <= b,
    ensures
        1 <= two_pow(a) <= two_pow(b),
    decreases b,
{
    if b > a {
        lemma_two_pow_monotone(a, (b - 1) as nat);
    } else if a > 0 {
        lemma_two_pow_monotone((a - 1) as nat, (a - 1) as nat);
    }
}

proof fn lemma_two_pow_bound(e: nat)
    requires
        e < 10,
    ensures
        2 * two_pow(e) <= 1024,
        two_pow(e) >= 1,
{
    reveal_with_fuel(two_pow, 10);
    assert(two_pow(9) == 512);
    lemma_two_pow_monotone(e, 9);
}

/// The instant at which a failed report is retried.
pub fn retry_at(now_ms: i64, base_ms: i64, attempt: u32) -> (r: i64)
    ensures
        r == saturate_i64(now_ms + retry_delay(base_ms, attempt)),
{
    saturating_add_i64(now_ms, retry_delay_ms(base_ms, attempt))
}

/// The quantities reported per metric: the local totals, with storage
/// converted from byte-milliseconds to whole byte-hours and then to whole
/// billing units; an error when the byte-hours do not fit in `u64`.
pub open spec fn metric_totals_of(summary: UsageSummary) -> Result<
    Seq<(UsageMetric, UsageDimension, u64)>,
    ReportingCycleError,
> {
    let byte_hours = summary.storage_byte_milliseconds / (HOUR_MS as u128);
    if byte_hours > u64::MAX {
        Err(ReportingCycleError::InconsistentTotals)
    } else {
        Ok(
            seq![
                (UsageMetric::Reads, UsageDimension::ReadUnits, summary.read_units),
                (UsageMetric::Writes, UsageDimension::WriteUnits, summary.write_units),
                (
                    UsageMetric::StorageByteHours,
                    UsageDimension::StorageByteMilliseconds,
                    ((byte_hours as u64) / STORAGE_BILLING_UNIT_BYTES) as u64,
                ),
                (
                    UsageMetric::MonthlyActiveUsers,
                    UsageDimension::MonthlyActiveUsers,
                    summary.monthly_active_users,
                ),
            ],
        )
    }
}

/// Computes `metric_totals_of`.
pub fn metric_totals(summary: &UsageSummary) -> (r: Result<
    [(UsageMetric, UsageDimension, u64); 4],
    ReportingCycleError,
>)
    ensures
        match (r, metric_totals_of(*summary)) {
            (Ok(a), Ok(s)) => a@ == s,
            (Err(e), Err(f)) => e == f,
            _ => false,
        },
{
    let byte_hours = summary.storage_byte_milliseconds / 3_600_000u128;
    if byte_hours > u64::MAX as u128 {
        return Err(ReportingCycleError::InconsistentTotals);
    }
    let storage = (byte_hours as u64) / STORAGE_BILLING_UNIT_BYTES;
    let a = [
        (UsageMetric::Reads, UsageDimension::ReadUnits, summary.read_units),
        (UsageMetric::Writes, UsageDimension::WriteUnits, summary.write_units),
        (UsageMetric::StorageByteHours, UsageDimension::StorageByteMilliseconds, storage),
        (UsageMetric::MonthlyActiveUsers, UsageDimension::MonthlyActiveUsers, summary.monthly_active_users),
    ];
    proof {
        assert(a@ =~= metric_totals_of(*summary)->Ok_0);
    }
    Ok(a)
}

pub open spec fn metric_of_dimension(d: UsageDimension) -> UsageMetric {
    match d {
        UsageDimension::ReadUnits => UsageMetric::Reads,
        UsageDimension::WriteUnits => UsageMetric::Writes,
        UsageDimension::StorageByteMilliseconds => UsageMetric::StorageByteHours,
        UsageDimension::MonthlyActiveUsers => UsageMetric::MonthlyActiveUsers,
    }
}

/// The provider metric that a ledger dimension is reported under.
pub fn provider_metric(dimension: UsageDimension) -> (m: UsageMetric)
    ensures
        m == metric_of_dimension(dimension),
{
    match dimension {
        UsageDimension::ReadUnits => UsageMetric::Reads,
        UsageDimension::WriteUnits => UsageMetric::Writes,
        UsageDimension::StorageByteMilliseconds => UsageMetric::StorageByteHours,
        UsageDimension::MonthlyActiveUsers => UsageMetric::MonthlyActiveUsers,
    }
}

/// Reads a catalog metric name; an unknown name makes the catalog invalid.
pub fn parse_metric(value: &str) -> (r: Result<UsageMetric, ReportingCycleError>)
    ensures
        match metric_named(value) {
            Some(m) => r == Ok::<UsageMetric, ReportingCycleError>(m),
            None => r == Err::<UsageMetric, ReportingCycleError>(ReportingCycleError::InvalidCatalog),
        },
{
    match lookup_metric(value) {
        Some(m) => Ok(m),
        None => Err(ReportingCycleError::InvalidCatalog),
    }
}

/// How a usage report failed at the provider.
#[derive(Clone, Copy, Debug, PartialEq, Eq, Structural)]
pub enum ProviderUsageError {
    Retryable,
    Rejected,
}

/// Only an unavailable provider is worth retrying; every other billing error
/// is a rejection.
pub fn map_provider_error(error: BillingError) -> (r: ProviderUsageError)
    ensures
        r == (if error == BillingError::ProviderUnavailable {
            ProviderUsageError::Retryable
        } else {
            ProviderUsageError::Rejected
        }),
{
    match error {
        BillingError::ProviderUnavailable => ProviderUsageError::Retryable,
        BillingError::InvalidConfiguration
        | BillingError::InvalidRequest
        | BillingError::InvalidWebhookSignature
        | BillingError::InvalidWebhookPayload
        | BillingError::ProviderRejected => ProviderUsageError::Rejected,
    }
}

/// The failure reason stored with a failed report.
pub fn failure_reason(error: ProviderUsageError) -> (s: &'static str)
    ensures
        error == ProviderUsageError::Retryable ==> s == "provider_unavailable",
        error == ProviderUsageError::Rejected ==> s == "provider_rejected",
{
    match error {
        ProviderUsageError::Retryable => "provider_unavailable",
        ProviderUsageError::Rejected => "provider_rejected",
    }
}

pub open spec fn metrics_error_class(error: MetricsError) -> ReportingCycleError {
    match error {
        MetricsError::HashConflict
        | MetricsError::OrganizationMismatch
        | MetricsError::ReservationMismatch => ReportingCycleError::InconsistentTotals,
        MetricsError::InvalidConfiguration | MetricsError::InvalidInput => {
            ReportingCycleError::InvalidConfiguration
        },
        _ => ReportingCycleError::MetricsUnavailable,
    }
}

/// Classifies a metrics-store failure: integrity conflicts are inconsistent
/// totals, bad input is a configuration error, the rest is unavailability.
pub fn map_metrics_error(error: MetricsError) -> (r: ReportingCycleError)
    ensures
        r == metrics_error_class(error),
{
    match error {
        MetricsError::HashConflict
        | MetricsError::OrganizationMismatch
        | MetricsError::ReservationMismatch => ReportingCycleError::InconsistentTotals,
        MetricsError::InvalidConfiguration | MetricsError::InvalidInput => {
            ReportingCycleError::InvalidConfiguration
        },
        MetricsError::PeriodSealed
        | MetricsError::LimitExceeded(_)
        | MetricsError::ReservationNotFound
        | MetricsError::StaleLease
        | MetricsError::ReconciliationPending
        | MetricsError::Unavailable => ReportingCycleError::MetricsUnavailable,
    }
}

/// The usage still to report for a metric: the total minus what the outbox
/// already holds; less than that is an inconsistency.
pub fn report_delta(total: u64, enqueued: u64) -> (r: Result<u64, ReportingCycleError>)
    ensures
        total >= enqueued ==> r == Ok::<u64, ReportingCycleError>((total - enqueued) as u64),
        total < enqueued ==> r == Err::<u64, ReportingCycleError>(ReportingCycleError::InconsistentTotals),
{
    match total.checked_sub(enqueued) {
        Some(v) => Ok(v),
        None => Err(ReportingCycleError::InconsistentTotals),
    }
}


/// The bytes hashed into a usage report identifier: a versioned domain tag,
/// then the organization, the period bounds, the metric name, the cumulative
/// quantity and the reporting instant, each in big-endian form.
pub open spec fn report_identity_message(
    organization_id: OrganizationId,
    period: BillingPeriod,
    metric: UsageMetric,
    cumulative_quantity: u64,
    through_ms: i64,
) -> Seq<u8> {
    "ffdb.stripe.usage-report.v1\0".spec_bytes()
        + be_bytes(organization_id.0 as nat, 16)
        + be_bytes((period.start_ms as u64) as nat, 8)
        + be_bytes((period.end_ms as u64) as nat, 8)
        + metric_name(metric).spec_bytes()
        + be_bytes(cumulative_quantity as nat, 8)
        + be_bytes((through_ms as u64) as nat, 8)
}

/// `ffdb_`.
pub open spec fn report_id_prefix() -> Seq<u8> {
    seq![0x66u8, 0x66u8, 0x64u8, 0x62u8, 0x5Fu8]
}

/// The idempotency identifier of a usage report: `ffdb_` and the lowercase
/// hexadecimal SHA-256 digest of `report_identity_message`. Equal inputs give
/// equal identifiers, so a retried report is deduplicated by the provider.
pub fn stable_report_identifier(
    organization_id: OrganizationId,
    period: BillingPeriod,
    metric: UsageMetric,
    cumulative_quantity: u64,
    through_ms: i64,
) -> (id: String)
    ensures
        id@ == ascii_chars(
            report_id_prefix() + hex_lower(
                sha256(
                    report_identity_message(
                        organization_id,
                        period,
                        metric,
                        cumulative_quantity,
                        through_ms,
                    ),
                ),
            ),
        ),
{
    let mut message: Vec<u8> = Vec::new();
    append_bytes(&mut message, "ffdb.stripe.usage-report.v1\0".as_bytes());
    push_be(&mut message, organization_id.0, 16);
    push_be(&mut message, (period.start_ms as u64) as u128, 8);
    push_be(&mut message, (period.end_ms as u64) as u128, 8);
    append_bytes(&mut message, metric.name().as_bytes());
    push_be(&mut message, cumulative_quantity as u128, 8);
    push_be(&mut message, (through_ms as u64) as u128, 8);
    proof {
        assert(message@ =~= report_identity_message(
            organization_id,
            period,
            metric,
            cumulative_quantity,
            through_ms,
        ));
    }
    let digest = sha256_digest(message.as_slice());
    let mut text: Vec<u8> = Vec::new();
    text.push(0x66);
    text.push(0x66);
    text.push(0x64);
    text.push(0x62);
    text.push(0x5F);
    push_hex_lower(&mut text, digest.as_slice());
    proof {
        lemma_hex_lower_facts(digest@);
        assert(text@ =~= report_id_prefix() + hex_lower(digest@));
        assert forall|k: int| 0 <= k < text@.len() implies #[trigger] text@[k] < 128 by {
            if k >= 5 {
                assert(text@[k] == hex_lower(digest@)[k - 5]);
            }
        }
    }
    crate::outside::ascii_string(text)
}


/// What processing one paid period produced.
#[derive(Clone, Copy, Debug, PartialEq, Eq, Structural)]
pub struct PeriodCycleOutcome {
    pub health: Option<ReportingHealth>,
    pub reports_enqueued: u32,
    pub reports_sent: u32,
    pub reports_failed: u32,
    pub reconciled: bool,
}

impl PeriodCycleOutcome {
    /// The outcome of a period that failed with only a health to report.
    pub fn failed_with(health: ReportingHealth) -> (o: Self)
        ensures
            o == (PeriodCycleOutcome {
                health: Some(health),
                reports_enqueued: 0,
                reports_sent: 0,
                reports_failed: 0,
                reconciled: false,
            }),
    {
        PeriodCycleOutcome {
            health: Some(health),
            reports_enqueued: 0,
            reports_sent: 0,
            reports_failed: 0,
            reconciled: false,
        }
    }
}

/// The health of a period whose processing failed: blocked once the provider
/// consistency delay after the cutoff has passed, degraded before.
pub open spec fn fallback_health_of(now_ms: i64, period: BillingPeriod, delay_ms: i64) -> ReportingHealth {
    if now_ms >= saturate_i64(period.cutoff_ms + delay_ms) {
        ReportingHealth::Blocked
    } else {
        ReportingHealth::Degraded
    }
}

/// Computes `fallback_health_of`.
pub fn fallback_health(now_ms: i64, period: BillingPeriod, delay_ms: i64) -> (h: ReportingHealth)
    ensures
        h == fallback_health_of(now_ms, period, delay_ms),
{
    if now_ms >= saturating_add_i64(period.cutoff_ms, delay_ms) {
        ReportingHealth::Blocked
    } else {
        ReportingHealth::Degraded
    }
}

/// `a + b` saturating at `u32::MAX`.
pub open spec fn sat_add_u32(a: u32, b: u32) -> u32 {
    if a + b > u32::MAX {
        u32::MAX
    } else {
        (a + b) as u32
    }
}

fn saturating_add_u32(a: u32, b: u32) -> (r: u32)
    ensures
        r == sat_add_u32(a, b),
{
    match a.checked_add(b) {
        Some(v) => v,
        None => u32::MAX,
    }
}

/// The health map after an organization's period reported `h`: the worse of
/// what the organization already had and `h`.
pub open spec fn record_health(
    m: Map<OrganizationId, ReportingHealth>,
    org: OrganizationId,
    h: ReportingHealth,
) -> Map<OrganizationId, ReportingHealth> {
    if m.contains_key(org) {
        m.insert(org, worse_health(m[org], h))
    } else {
        m.insert(org, h)
    }
}

/// The map that a list of distinct organization entries describes.
pub open spec fn entries_map(s: Seq<(OrganizationId, ReportingHealth)>) -> Map<
    OrganizationId,
    ReportingHealth,
>
    decreases s.len(),
{
    if s.len() == 0 {
        Map::empty()
    } else {
        entries_map(s.drop_last()).insert(s.last().0, s.last().1)
    }
}

pub open spec fn distinct_orgs(s: Seq<(OrganizationId, ReportingHealth)>) -> bool {
    forall|i: int, j: int| 0 <= i < j < s.len() ==> s[i].0 != s[j].0
}

proof fn lemma_entries_map_keys(s: Seq<(OrganizationId, ReportingHealth)>)
    requires
        distinct_orgs(s),
    ensures
        forall|i: int| 0 <= i < s.len() ==> entries_map(s).contains_key(#[trigger] s[i].0) && entries_map(s)[s[i].0] == s[i].1,
        forall|o: OrganizationId| entries_map(s).contains_key(o) ==> exists|i: int| 0 <= i < s.len() && #[trigger] s[i].0 == o,
        entries_map(s).dom().finite(),
        entries_map(s).dom().len() == s.len(),
    decreases s.len(),
{
    if s.len() > 0 {
        let init = s.drop_last();
        assert(distinct_orgs(init));
        lemma_entries_map_keys(init);
        assert forall|i: int| 0 <= i < s.len() implies entries_map(s).contains_key(
            #[trigger] s[i].0,
        ) && entries_map(s)[s[i].0] == s[i].1 by {
            if i < s.len() - 1 {
                assert(init[i] == s[i]);
                assert(s[i].0 != s[s.len() - 1].0);
            }
        }
        assert(!entries_map(init).contains_key(s.last().0)) by {
            if entries_map(init).contains_key(s.last().0) {
                let i = choose|i: int| 0 <= i < init.len() && #[trigger] init[i].0 == s.last().0;
                assert(s[i].0 == s[s.len() - 1].0);
            }
        }
        assert forall|o: OrganizationId| entries_map(s).contains_key(o) implies exists|i: int|
            0 <= i < s.len() && #[trigger] s[i].0 == o by {
            if o != s.last().0 {
                let i = choose|i: int| 0 <= i < init.len() && #[trigger] init[i].0 == o;
                assert(s[i].0 == o);
            } else {
                assert(s[s.len() - 1].0 == o);
            }
        }
    }
}

proof fn lemma_entries_map_update(s: Seq<(OrganizationId, ReportingHealth)>, i: int, h: ReportingHealth)
    requires
        distinct_orgs(s),
        0 <= i < s.len(),
    ensures
        entries_map(s.update(i, (s[i].0, h))) == entries_map(s).insert(s[i].0, h),
        distinct_orgs(s.update(i, (s[i].0, h))),
    decreases s.len(),
{
    let t = s.update(i, (s[i].0, h));
    assert(distinct_orgs(t));
    if i == s.len() - 1 {
        assert(t.drop_last() =~= s.drop_last());
        assert(entries_map(t) =~= entries_map(s).insert(s[i].0, h));
    } else {
        let init = s.drop_last();
        assert(distinct_orgs(init));
        lemma_entries_map_update(init, i, h);
        assert(t.drop_last() =~= init.update(i, (s[i].0, h)));
        assert(s[i].0 != s.last().0);
        assert(entries_map(t) =~= entries_map(s).insert(s[i].0, h));
    }
}

/// The running tally of one reporting cycle: the summary counters and the
/// worst health seen for each organization.
pub struct CycleTally {
    summary: ReportingCycleSummary,
    health: Vec<(OrganizationId, ReportingHealth)>,
}

impl CycleTally {
    pub closed spec fn well_formed(&self) -> bool {
        distinct_orgs(self.health@)
    }

    /// The worst health recorded for each organization.
    pub closed spec fn health_view(&self) -> Map<OrganizationId, ReportingHealth> {
        entries_map(self.health@)
    }

    pub closed spec fn summary_view(&self) -> ReportingCycleSummary {
        self.summary
    }

    /// Starts the tally of a cycle over `periods` paid periods; a count that
    /// does not fit in `u32` means the repository misbehaved.
    pub fn new(periods: usize) -> (r: Result<CycleTally, ReportingCycleError>)
        ensures
            periods > u32::MAX ==> r == Err::<CycleTally, _>(ReportingCycleError::RepositoryUnavailable),
            periods <= u32::MAX ==> (r matches Ok(t) && t.well_formed() && t.health_view() == Map::<
                OrganizationId,
                ReportingHealth,
            >::empty() && t.summary_view() == (ReportingCycleSummary {
                organizations: 0,
                periods: periods as u32,
                reports_enqueued: 0,
                reports_sent: 0,
                reports_failed: 0,
                periods_reconciled: 0,
                organizations_blocked: 0,
            })),
    {
        if periods > u32::MAX as usize {
            return Err(ReportingCycleError::RepositoryUnavailable);
        }
        let t = CycleTally {
            summary: ReportingCycleSummary {
                organizations: 0,
                periods: periods as u32,
                reports_enqueued: 0,
                reports_sent: 0,
                reports_failed: 0,
                periods_reconciled: 0,
                organizations_blocked: 0,
            },
            health: Vec::new(),
        };
        proof {
            assert(entries_map(t.health@) =~= Map::<OrganizationId, ReportingHealth>::empty());
        }
        Ok(t)
    }

    /// Starts a reporting cycle at `now_ms`, in the order the cycle checks:
    /// a time before the epoch is a configuration error; then the usage
    /// catalog must have loaded and passed its check (`catalog`); then the
    /// paid periods must have loaded (`periods`, their number); then the
    /// tally starts as `new` does.
    pub fn begin(
        now_ms: i64,
        catalog: Result<(), ReportingCycleError>,
        periods: Result<usize, ReportingCycleError>,
    ) -> (r: Result<CycleTally, ReportingCycleError>)
        ensures
            now_ms < 0 ==> r == Err::<CycleTally, _>(ReportingCycleError::InvalidConfiguration),
            now_ms >= 0 && catalog is Err ==> r == Err::<CycleTally, _>(catalog->Err_0),
            now_ms >= 0 && catalog is Ok && periods is Err ==> r == Err::<CycleTally, _>(periods->Err_0),
            now_ms >= 0 && catalog is Ok && periods is Ok && periods->Ok_0 > u32::MAX ==> r == Err::<
                CycleTally,
                _,
            >(ReportingCycleError::RepositoryUnavailable),
            now_ms >= 0 && catalog is Ok && periods is Ok && periods->Ok_0 <= u32::MAX ==> (r matches Ok(
                t,
            ) && t.well_formed() && t.health_view() == Map::<OrganizationId, ReportingHealth>::empty()
                && t.summary_view() == (ReportingCycleSummary {
                organizations: 0,
                periods: periods->Ok_0 as u32,
                reports_enqueued: 0,
                reports_sent: 0,
                reports_failed: 0,
                periods_reconciled: 0,
                organizations_blocked: 0,
            })),
    {
        if now_ms < 0 {
            return Err(ReportingCycleError::InvalidConfiguration);
        }
        match catalog {
            Ok(()) => {},
            Err(e) => {
                return Err(e);
            },
        }
        match periods {
            Ok(n) => CycleTally::new(n),
            Err(e) => Err(e),
        }
    }

    /// Adds the result of processing one paid period: its outcome when it was
    /// processed, and otherwise only the fallback health of the period
    /// (`fallback_health_of`, blocked once the provider consistency delay
    /// after the cutoff has passed, degraded before).
    pub fn record_period(
        &mut self,
        organization_id: OrganizationId,
        result: Result<PeriodCycleOutcome, ReportingCycleError>,
        now_ms: i64,
        period: BillingPeriod,
        delay_ms: i64,
    )
        requires
            old(self).well_formed(),
        ensures
            final(self).well_formed(),
            ({
                let outcome = match result {
                    Ok(o) => o,
                    Err(_) => PeriodCycleOutcome {
                        health: Some(fallback_health_of(now_ms, period, delay_ms)),
                        reports_enqueued: 0,
                        reports_sent: 0,
                        reports_failed: 0,
                        reconciled: false,
                    },
                };
                &&& final(self).summary_view() == (ReportingCycleSummary {
                    reports_enqueued: sat_add_u32(old(self).summary_view().reports_enqueued, outcome.reports_enqueued),
                    reports_sent: sat_add_u32(old(self).summary_view().reports_sent, outcome.reports_sent),
                    reports_failed: sat_add_u32(old(self).summary_view().reports_failed, outcome.reports_failed),
                    periods_reconciled: sat_add_u32(
                        old(self).summary_view().periods_reconciled,
                        if outcome.reconciled { 1 } else { 0 },
                    ),
                    ..old(self).summary_view()
                })
                &&& final(self).health_view() == match outcome.health {
                    Some(h) => record_health(old(self).health_view(), organization_id, h),
                    None => old(self).health_view(),
                }
            }),
    {
        let outcome = match result {
            Ok(o) => o,
            Err(_) => PeriodCycleOutcome::failed_with(fallback_health(now_ms, period, delay_ms)),
        };
        self.record(organization_id, outcome);
    }

    /// Adds one period's outcome: its report counters (saturating), one more
    /// reconciled period if it reconciled, and its health, if any, folded into
    /// the organization's worst health.
    #[verifier::loop_isolation(false)]
    pub fn record(&mut self, organization_id: OrganizationId, outcome: PeriodCycleOutcome)
        requires
            old(self).well_formed(),
        ensures
            final(self).well_formed(),
            final(self).summary_view() == (ReportingCycleSummary {
                reports_enqueued: sat_add_u32(old(self).summary_view().reports_enqueued, outcome.reports_enqueued),
                reports_sent: sat_add_u32(old(self).summary_view().reports_sent, outcome.reports_sent),
                reports_failed: sat_add_u32(old(self).summary_view().reports_failed, outcome.reports_failed),
                periods_reconciled: sat_add_u32(
                    old(self).summary_view().periods_reconciled,
                    if outcome.reconciled { 1 } else { 0 },
                ),
                ..old(self).summary_view()
            }),
            final(self).health_view() == match outcome.health {
                Some(h) => record_health(old(self).health_view(), organization_id, h),
                None => old(self).health_view(),
            },
    {
        self.summary.reports_enqueued = saturating_add_u32(
            self.summary.reports_enqueued,
            outcome.reports_enqueued,
        );
        self.summary.reports_sent = saturating_add_u32(self.summary.reports_sent, outcome.reports_sent);
        self.summary.reports_failed = saturating_add_u32(
            self.summary.reports_failed,
            outcome.reports_failed,
        );
        self.summary.periods_reconciled = saturating_add_u32(
            self.summary.periods_reconciled,
            if outcome.reconciled { 1 } else { 0 },
        );
        if let Some(h) = outcome.health {
            let ghost before = self.health@;
            let ghost summary_now = self.summary;
            proof {
                lemma_entries_map_keys(before);
            }
            let mut i: usize = 0;
            while i < self.health.len()
                invariant
                    self.health@ == before,
                    self.summary == summary_now,
                    distinct_orgs(before),
                    i <= before.len(),
                    forall|k: int| 0 <= k < i ==> before[k].0 != organization_id,
                decreases before.len() - i,
            {
                if self.health[i].0 == organization_id {
                    let current = self.health[i].1;
                    let merged = if h.rank() > current.rank() { h } else { current };
                    self.health.set(i, (organization_id, merged));
                    proof {
                        lemma_entries_map_update(before, i as int, merged);
                    }
                    return;
                }
                i = i + 1;
            }
            proof {
                assert(!entries_map(before).contains_key(organization_id)) by {
                    if entries_map(before).contains_key(organization_id) {
                        let k = choose|k: int| 0 <= k < before.len() && #[trigger] before[k].0 == organization_id;
                    }
                }
            }
            self.health.push((organization_id, h));
            proof {
                assert(self.health@.drop_last() =~= before);
            }
        }
    }

    /// The finished summary and the health to store per organization: the
    /// organizations counted, and those whose worst health is `Blocked`.
    pub fn finish(self) -> (r: Result<
        (ReportingCycleSummary, Vec<(OrganizationId, ReportingHealth)>),
        ReportingCycleError,
    >)
        requires
            self.well_formed(),
        ensures
            self.health_view().dom().len() > u32::MAX ==> r == Err::<
                (ReportingCycleSummary, Vec<(OrganizationId, ReportingHealth)>),
                _,
            >(ReportingCycleError::RepositoryUnavailable),
            self.health_view().dom().len() <= u32::MAX ==> (r matches Ok((s, entries)) && distinct_orgs(
                entries@,
            ) && entries_map(entries@) == self.health_view() && s == (ReportingCycleSummary {
                organizations: self.health_view().dom().len() as u32,
                organizations_blocked: count_blocked(entries@) as u32,
                ..self.summary_view()
            })),
    {
        proof {
            lemma_entries_map_keys(self.health@);
        }
        if self.health.len() > u32::MAX as usize {
            return Err(ReportingCycleError::RepositoryUnavailable);
        }
        let mut summary = self.summary;
        summary.organizations = self.health.len() as u32;
        let mut blocked: u32 = 0;
        let mut i: usize = 0;
        while i < self.health.len()
            invariant
                i <= self.health@.len() <= u32::MAX,
                blocked == count_blocked(self.health@.take(i as int)),
                blocked <= i,
            decreases self.health@.len() - i,
        {
            proof {
                assert(self.health@.take(i + 1).drop_last() =~= self.health@.take(i as int));
            }
            if self.health[i].1 == ReportingHealth::Blocked {
                blocked = blocked + 1;
            }
            i = i + 1;
        }
        proof {
            assert(self.health@.take(self.health@.len() as int) =~= self.health@);
        }
        summary.organizations_blocked = blocked;
        Ok((summary, self.health))
    }
}

/// How many entries hold `Blocked`.
pub open spec fn count_blocked(s: Seq<(OrganizationId, ReportingHealth)>) -> nat
    decreases s.len(),
{
    if s.len() == 0 {
        0
    } else {
        count_blocked(s.drop_last()) + if s.last().1 == ReportingHealth::Blocked {
            1nat
        } else {
            0nat
        }
    }
}

/// Law: the health kept for organizations does not depend on the order in
/// which their periods' outcomes are recorded.
pub proof fn law_record_health_order_independent(
    m: Map<OrganizationId, ReportingHealth>,
    o1: OrganizationId,
    h1: ReportingHealth,
    o2: OrganizationId,
    h2: ReportingHealth,
)
    ensures
        record_health(record_health(m, o1, h1), o2, h2) == record_health(
            record_health(m, o2, h2),
            o1,
            h1,
        ),
{
    assert(record_health(record_health(m, o1, h1), o2, h2) =~= record_health(
        record_health(m, o2, h2),
        o1,
        h1,
    ));
}

/// Law: recording a health never improves an organization's health, and the
/// kept health is at least as bad as the one recorded.
pub proof fn law_record_health_keeps_worst(
    m: Map<OrganizationId, ReportingHealth>,
    org: OrganizationId,
    h: ReportingHealth,
)
    ensures
        record_health(m, org, h).contains_key(org),
        health_rank(record_health(m, org, h)[org]) >= health_rank(h),
        m.contains_key(org) ==> health_rank(record_health(m, org, h)[org]) >= health_rank(m[org]),
        forall|o: OrganizationId| o != org ==> #[trigger] record_health(m, org, h).contains_key(o) == m.contains_key(o),
{
}

/// What remains to decide about a period after its reports were sent.
#[derive(Clone, Copy, Debug, PartialEq, Eq, Structural)]
pub enum PeriodStep {
    /// The period's health is settled for this cycle.
    Settled(ReportingHealth),
    /// Compare the local totals with the provider's before settling.
    Reconcile,
}

/// Whether an open period must be sealed now: its cutoff has passed.
pub fn seal_due(status: BillingPeriodStatus, period: BillingPeriod, now_ms: i64) -> (r: bool)
    ensures
        r == (status == BillingPeriodStatus::Open && now_ms >= period.cutoff_ms),
{
    status == BillingPeriodStatus::Open && now_ms >= period.cutoff_ms
}

/// The decision after a period's claimed reports were sent: a permanent
/// provider rejection blocks; an open period is healthy once its outbox is
/// empty and degraded before; a closed period with reports outstanding is
/// reconciling until the consistency delay after the cutoff has passed and
/// blocked after; a closed, drained period waits for the consistency delay
/// after the later of the cutoff and the last acknowledgement, and is then
/// reconciled with the provider.
pub open spec fn period_step_of(
    status: BillingPeriodStatus,
    permanent_provider_failure: bool,
    outstanding: u64,
    last_acknowledged_at_ms: Option<i64>,
    period: BillingPeriod,
    now_ms: i64,
    delay_ms: i64,
) -> PeriodStep {
    if permanent_provider_failure {
        PeriodStep::Settled(ReportingHealth::Blocked)
    } else if status == BillingPeriodStatus::Open {
        PeriodStep::Settled(
            if outstanding == 0 {
                ReportingHealth::Healthy
            } else {
                ReportingHealth::Degraded
            },
        )
    } else if outstanding != 0 {
        PeriodStep::Settled(
            if now_ms >= saturate_i64(period.cutoff_ms + delay_ms) {
                ReportingHealth::Blocked
            } else {
                ReportingHealth::Reconciling
            },
        )
    } else {
        let acknowledged = match last_acknowledged_at_ms {
            Some(t) => t,
            None => period.cutoff_ms,
        };
        let base = if acknowledged >= period.cutoff_ms {
            acknowledged
        } else {
            period.cutoff_ms
        };
        if now_ms < saturate_i64(base + delay_ms) {
            PeriodStep::Settled(ReportingHealth::Reconciling)
        } else {
            PeriodStep::Reconcile
        }
    }
}

/// Computes `period_step_of`.
pub fn period_step(
    status: BillingPeriodStatus,
    permanent_provider_failure: bool,
    outstanding: u64,
    last_acknowledged_at_ms: Option<i64>,
    period: BillingPeriod,
    now_ms: i64,
    delay_ms: i64,
) -> (r: PeriodStep)
    ensures
        r == period_step_of(
            status,
            permanent_provider_failure,
            outstanding,
            last_acknowledged_at_ms,
            period,
            now_ms,
            delay_ms,
        ),
{
    if permanent_provider_failure {
        return PeriodStep::Settled(ReportingHealth::Blocked);
    }
    if status == BillingPeriodStatus::Open {
        return PeriodStep::Settled(
            if outstanding == 0 {
                ReportingHealth::Healthy
            } else {
                ReportingHealth::Degraded
            },
        );
    }
    if outstanding != 0 {
        return PeriodStep::Settled(
            if now_ms >= saturating_add_i64(period.cutoff_ms, delay_ms) {
                ReportingHealth::Blocked
            } else {
                ReportingHealth::Reconciling
            },
        );
    }
    let acknowledged = match last_acknowledged_at_ms {
        Some(t) => t,
        None => period.cutoff_ms,
    };
    let base = if acknowledged >= period.cutoff_ms {
        acknowledged
    } else {
        period.cutoff_ms
    };
    if now_ms < saturating_add_i64(base, delay_ms) {
        PeriodStep::Settled(ReportingHealth::Reconciling)
    } else {
        PeriodStep::Reconcile
    }
}

/// The outcome of reconciling a period with the provider: any mismatch, or a
/// provider that could not answer, blocks; agreement on every metric makes
/// the period healthy and reconciled (and the caller finalizes it).
pub fn reconciliation_outcome(
    outcome: PeriodCycleOutcome,
    provider_answered: bool,
    all_matched: bool,
) -> (r: PeriodCycleOutcome)
    ensures
        provider_answered && all_matched ==> r == (PeriodCycleOutcome {
            health: Some(ReportingHealth::Healthy),
            reconciled: true,
            ..outcome
        }),
        !(provider_answered && all_matched) ==> r == (PeriodCycleOutcome {
            health: Some(ReportingHealth::Blocked),
            ..outcome
        }),
{
    if provider_answered && all_matched {
        PeriodCycleOutcome { health: Some(ReportingHealth::Healthy), reconciled: true, ..outcome }
    } else {
        PeriodCycleOutcome { health: Some(ReportingHealth::Blocked), ..outcome }
    }
}

/// The outcome of a period that the store already finalized.
pub fn finalized_outcome() -> (r: PeriodCycleOutcome)
    ensures
        r == (PeriodCycleOutcome {
            health: Some(ReportingHealth::Healthy),
            reports_enqueued: 0,
            reports_sent: 0,
            reports_failed: 0,
            reconciled: true,
        }),
{
    PeriodCycleOutcome {
        health: Some(ReportingHealth::Healthy),
        reports_enqueued: 0,
        reports_sent: 0,
        reports_failed: 0,
        reconciled: true,
    }
}

} // verus!
