//! Billing vocabulary shared by metering, reporting and the instance catalog.
use vstd::prelude::*;
use crate::text::str_eq;

verus! {

/// A usage metric reported to the billing provider.
#[derive(Clone, Copy, Debug, PartialEq, Eq, Structural)]
pub enum UsageMetric {
    Reads,
    Writes,
    StorageByteHours,
    MonthlyActiveUsers,
}

/// A dimension of the local usage ledger.
#[derive(Clone, Copy, Debug, PartialEq, Eq, Structural)]
pub enum UsageDimension {
    ReadUnits,
    WriteUnits,
    StorageByteMilliseconds,
    MonthlyActiveUsers,
}

/// The stored name of a usage metric.
pub open spec fn metric_name(m: UsageMetric) -> &'static str {
    match m {
        UsageMetric::Reads => "reads",
        UsageMetric::Writes => "writes",
        UsageMetric::StorageByteHours => "storage_byte_hours",
        UsageMetric::MonthlyActiveUsers => "monthly_active_users",
    }
}

impl UsageMetric {
    /// Every usage metric, in catalog order.
    pub fn all() -> (r: [UsageMetric; 4])
        ensures
            r@ == seq![
                UsageMetric::Reads,
                UsageMetric::Writes,
                UsageMetric::StorageByteHours,
                UsageMetric::MonthlyActiveUsers,
            ],
    {
        let r = [
            UsageMetric::Reads,
            UsageMetric::Writes,
            UsageMetric::StorageByteHours,
            UsageMetric::MonthlyActiveUsers,
        ];
        proof {
            assert(r@ =~= seq![
                UsageMetric::Reads,
                UsageMetric::Writes,
                UsageMetric::StorageByteHours,
                UsageMetric::MonthlyActiveUsers,
            ]);
        }
        r
    }

    /// The stored name of the metric (see `metric_name`).
    pub fn name(self) -> (s: &'static str)
        ensures
            s == metric_name(self),
    {
        match self {
            UsageMetric::Reads => "reads",
            UsageMetric::Writes => "writes",
            UsageMetric::StorageByteHours => "storage_byte_hours",
            UsageMetric::MonthlyActiveUsers => "monthly_active_users",
        }
    }
}

/// The metric whose stored name is `value`, if any.
pub open spec fn metric_named(value: &str) -> Option<UsageMetric> {
    if value@ == "reads"@ {
        Some(UsageMetric::Reads)
    } else if value@ == "writes"@ {
        Some(UsageMetric::Writes)
    } else if value@ == "storage_byte_hours"@ {
        Some(UsageMetric::StorageByteHours)
    } else if value@ == "monthly_active_users"@ {
        Some(UsageMetric::MonthlyActiveUsers)
    } else {
        None
    }
}

/// Reads a stored metric name (see `metric_named`).
pub fn lookup_metric(value: &str) -> (r: Option<UsageMetric>)
    ensures
        r == metric_named(value),
{
    if str_eq(value, "reads") {
        Some(UsageMetric::Reads)
    } else if str_eq(value, "writes") {
        Some(UsageMetric::Writes)
    } else if str_eq(value, "storage_byte_hours") {
        Some(UsageMetric::StorageByteHours)
    } else if str_eq(value, "monthly_active_users") {
        Some(UsageMetric::MonthlyActiveUsers)
    } else {
        None
    }
}

/// Errors of the platform billing provider.
#[derive(Clone, Copy, Debug, PartialEq, Eq, Structural)]
pub enum BillingError {
    InvalidConfiguration,
    InvalidRequest,
    InvalidWebhookSignature,
    InvalidWebhookPayload,
    ProviderUnavailable,
    ProviderRejected,
}

/// Errors of an organization's usage-metrics store.
#[derive(Clone, Copy, Debug, PartialEq, Eq, Structural)]
pub enum MetricsError {
    InvalidConfiguration,
    InvalidInput,
    HashConflict,
    OrganizationMismatch,
    PeriodSealed,
    LimitExceeded(LimitKind),
    ReservationNotFound,
    ReservationMismatch,
    StaleLease,
    ReconciliationPending,
    Unavailable,
}

/// The allowance that a usage limit protects.
#[derive(Clone, Copy, Debug, PartialEq, Eq, Structural)]
pub enum LimitKind {
    WriteUnits,
    StorageBytes,
    MonthlyActiveUsers,
    Other,
}

/// A billing period of an organization, in epoch milliseconds.
#[derive(Clone, Copy, Debug, PartialEq, Eq, Structural)]
pub struct BillingPeriod {
    pub start_ms: i64,
    pub end_ms: i64,
    pub cutoff_ms: i64,
}

/// Lifecycle of a billing period in the metrics store.
#[derive(Clone, Copy, Debug, PartialEq, Eq, Structural)]
pub enum BillingPeriodStatus {
    Open,
    Sealed,
    Finalized,
}

/// Local usage totals of a billing period.
#[derive(Clone, Copy, Debug, PartialEq, Eq, Structural)]
pub struct UsageSummary {
    pub read_units: u64,
    pub write_units: u64,
    pub storage_byte_milliseconds: u128,
    pub monthly_active_users: u64,
}

} // verus!
