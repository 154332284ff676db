//! Usage metering: the units an operation is billed for, the billing period
//! and allowances an organization is held to, how a write reservation is
//! sized, and the resource names that usage is recorded under.
use vstd::prelude::*;
use vstd::string::{StrSliceExecFns, StringExecFns, StringSliceAdditionalSpecFns};
use crate::billing::BillingPeriod;
use crate::errors::MeteringError;
use crate::operation::WorkerOperation;

verus! {

/// The read and write units an operation is billed for.
#[derive(Clone, Copy, Debug, PartialEq, Eq, Structural)]
pub struct UsagePlan {
    pub read_units: u64,
    pub write_units: u64,
}

/// The units of a statement: one read if it only reads, one write otherwise.
pub open spec fn statement_units(read_only: bool) -> UsagePlan {
    UsagePlan { read_units: if read_only { 1 } else { 0 }, write_units: if read_only { 0 } else { 1 } }
}

pub open spec fn sat_add(a: u64, b: u64) -> u64 {
    if a + b <= u64::MAX {
        (a + b) as u64
    } else {
        u64::MAX
    }
}

/// The units of a transaction's statements, summed without overflow; `None`
/// where a statement could not be classified.
pub open spec fn transaction_units(statements: Seq<Option<bool>>) -> Option<UsagePlan>
    decreases statements.len(),
{
    if statements.len() == 0 {
        Some(UsagePlan { read_units: 0, write_units: 0 })
    } else {
        match (transaction_units(statements.drop_last()), statements.last()) {
            (Some(p), Some(read_only)) => Some(
                UsagePlan {
                    read_units: sat_add(p.read_units, if read_only { 1 } else { 0 }),
                    write_units: sat_add(p.write_units, if read_only { 0 } else { 1 }),
                },
            ),
            _ => None,
        }
    }
}

/// What an operation is metered as: statements by their classification,
/// snapshot and pull reads as one read, a push as one write per mutation;
/// other operations are not metered.
pub open spec fn plan_for(operation: WorkerOperation) -> Result<Option<UsagePlan>, MeteringError> {
    match operation {
        WorkerOperation::Query { read_only } => match read_only {
            Some(ro) => Ok(Some(statement_units(ro))),
            None => Err(MeteringError::InvalidOperation),
        },
        WorkerOperation::Transaction { statements } => match transaction_units(statements@) {
            Some(p) => Ok(Some(p)),
            None => Err(MeteringError::InvalidOperation),
        },
        WorkerOperation::Snapshot | WorkerOperation::SyncPull => Ok(
            Some(UsagePlan { read_units: 1, write_units: 0 }),
        ),
        WorkerOperation::SyncPush { mutations } => Ok(
            Some(UsagePlan { read_units: 0, write_units: mutations }),
        ),
        _ => Ok(None),
    }
}

/// The operations that read or change a project's table data: statements,
/// transactions, snapshots and sync in either direction.
pub open spec fn touches_table_data(operation: WorkerOperation) -> bool {
    match operation {
        WorkerOperation::Query { .. } | WorkerOperation::Transaction { .. } | WorkerOperation::Snapshot
        | WorkerOperation::SyncPull | WorkerOperation::SyncPush { .. } => true,
        _ => false,
    }
}

/// The operations that make one read of table data and change nothing: a
/// statement classified as read-only, a snapshot, and a sync pull.
pub open spec fn single_table_read(operation: WorkerOperation) -> bool {
    match operation {
        WorkerOperation::Query { read_only: Some(true) } | WorkerOperation::Snapshot
        | WorkerOperation::SyncPull => true,
        _ => false,
    }
}

/// Every access to table data is metered: such an operation is billed units
/// (or refused when a statement cannot be classified), never left unmetered;
/// any other operation is not metered.
pub proof fn law_table_data_access_is_metered(operation: WorkerOperation)
    ensures
        touches_table_data(operation) ==> plan_for(operation) != Ok::<Option<UsagePlan>, MeteringError>(None),
        !touches_table_data(operation) ==> plan_for(operation) == Ok::<Option<UsagePlan>, MeteringError>(None),
{
}

/// A single read of table data (a read-only statement, a snapshot, a sync
/// pull) is billed exactly one read unit and no write unit.
pub proof fn law_single_reads_bill_one_read(operation: WorkerOperation)
    requires
        single_table_read(operation),
    ensures
        plan_for(operation) == Ok::<Option<UsagePlan>, MeteringError>(
            Some(UsagePlan { read_units: 1, write_units: 0 }),
        ),
{
}

/// Changes are billed as writes and never as reads: a statement that
/// changes data is one write unit, and a sync push is one write unit per
/// mutation it carries.
pub proof fn law_changes_bill_writes(mutations: u64)
    ensures
        plan_for(WorkerOperation::Query { read_only: Some(false) }) == Ok::<Option<UsagePlan>, MeteringError>(
            Some(UsagePlan { read_units: 0, write_units: 1 }),
        ),
        plan_for(WorkerOperation::SyncPush { mutations }) == Ok::<Option<UsagePlan>, MeteringError>(
            Some(UsagePlan { read_units: 0, write_units: mutations }),
        ),
{
}

impl UsagePlan {
    /// The units an operation is billed for, or `None` where it is not
    /// metered.
    #[verifier::loop_isolation(false)]
    pub fn for_operation(operation: &WorkerOperation) -> (r: Result<Option<UsagePlan>, MeteringError>)
        ensures
            r == plan_for(*operation),
    {
        match operation {
            WorkerOperation::Query { read_only } => match read_only {
                Some(ro) => Ok(
                    Some(
                        UsagePlan {
                            read_units: if *ro {
                                1
                            } else {
                                0
                            },
                            write_units: if *ro {
                                0
                            } else {
                                1
                            },
                        },
                    ),
                ),
                None => Err(MeteringError::InvalidOperation),
            },
            WorkerOperation::Transaction { statements } => {
                let mut reads: u64 = 0;
                let mut writes: u64 = 0;
                let mut i: usize = 0;
                while i < statements.len()
                    invariant
                        i <= statements@.len(),
                        transaction_units(statements@.take(i as int)) == Some(
                            UsagePlan { read_units: reads, write_units: writes },
                        ),
                    decreases statements@.len() - i,
                {
                    proof {
                        assert(statements@.take(i + 1).drop_last() =~= statements@.take(i as int));
                    }
                    match statements[i] {
                        Some(ro) => {
                            reads = reads.saturating_add(
                                if ro {
                                    1
                                } else {
                                    0
                                },
                            );
                            writes = writes.saturating_add(
                                if ro {
                                    0
                                } else {
                                    1
                                },
                            );
                        },
                        None => {
                            proof {
                                lemma_unclassified_prefix(statements@, i + 1);
                            }
                            return Err(MeteringError::InvalidOperation);
                        },
                    }
                    i = i + 1;
                }
                proof {
                    assert(statements@.take(i as int) =~= statements@);
                }
                Ok(Some(UsagePlan { read_units: reads, write_units: writes }))
            },
            WorkerOperation::Snapshot | WorkerOperation::SyncPull => Ok(
                Some(UsagePlan { read_units: 1, write_units: 0 }),
            ),
            WorkerOperation::SyncPush { mutations } => Ok(
                Some(UsagePlan { read_units: 0, write_units: *mutations }),
            ),
            _ => Ok(None),
        }
    }

    /// A plan with writes mutates the database.
    pub fn mutating(self) -> (r: bool)
        ensures
            r == (self.write_units > 0),
    {
        self.write_units > 0
    }
}

proof fn lemma_unclassified_prefix(statements: Seq<Option<bool>>, k: int)
    requires
        0 <= k <= statements.len(),
        transaction_units(statements.take(k)) is None,
    ensures
        transaction_units(statements) is None,
    decreases statements.len() - k,
{
    if k < statements.len() {
        assert(statements.drop_last().take(k) =~= statements.take(k));
        lemma_unclassified_prefix(statements.drop_last(), k);
    } else {
        assert(statements.take(k) =~= statements);
    }
}


/// How long after its end a billing period still accepts usage.
pub const PERIOD_CUTOFF_GRACE_MS: i64 = 172_800_000;

/// How long a usage reservation is held.
pub const RESERVATION_TTL_MS: i64 = 60_000;

/// A period's cutoff: its end plus the grace, saturating.
pub open spec fn cutoff_after(end_ms: i64) -> i64 {
    crate::usage_reporting::saturate_i64(end_ms + PERIOD_CUTOFF_GRACE_MS)
}

/// The UTC calendar month around `now_ms`, as epoch milliseconds.
pub open spec fn calendar_month_of(now_ms: i64) -> Option<BillingPeriod> {
    match crate::outside::utc_year_month(now_ms) {
        None => None,
        Some((year, month)) => {
            let (next_year, next_month) = if month == 12 {
                (year + 1, 1u32)
            } else {
                (year as int, (month + 1) as u32)
            };
            if next_year > i32::MAX {
                None
            } else {
                match (
                    crate::outside::utc_month_start(year, month),
                    crate::outside::utc_month_start(next_year as i32, next_month),
                ) {
                    (Some(start_ms), Some(end_ms)) => Some(
                        BillingPeriod { start_ms, end_ms, cutoff_ms: cutoff_after(end_ms) },
                    ),
                    _ => None,
                }
            }
        },
    }
}

/// Midnight UTC, in epoch milliseconds, of the first day of the calendar
/// month that holds `now_ms` (`next` false) or of the month after it
/// (`next` true).
pub open spec fn civil_month_bound_ms(now_ms: i64, next: bool) -> int {
    let (y, m) = crate::outside::civil_year_month(now_ms as int / 86_400_000);
    let day = if !next {
        crate::outside::civil_month_first_day(y, m)
    } else if m == 12 {
        crate::outside::civil_month_first_day(y + 1, 1)
    } else {
        crate::outside::civil_month_first_day(y, m + 1)
    };
    day * 86_400_000
}

/// The billing period of the UTC calendar month around `now_ms`: it starts
/// at midnight UTC on the first of that month and ends at midnight UTC on
/// the first of the next.
pub fn calendar_month(now_ms: i64) -> (r: Result<BillingPeriod, MeteringError>)
    ensures
        match r {
            Ok(p) => calendar_month_of(now_ms) == Some(p),
            Err(e) => calendar_month_of(now_ms) is None && e == MeteringError::Unavailable,
        },
        r matches Ok(p) ==> p.start_ms == civil_month_bound_ms(now_ms, false) && p.end_ms
            == civil_month_bound_ms(now_ms, true),
{
    let (year, month) = match crate::outside::utc_year_month_of(now_ms) {
        Some(ym) => ym,
        None => {
            return Err(MeteringError::Unavailable);
        },
    };
    let start_ms = match crate::outside::utc_month_start_ms(year, month) {
        Some(v) => v,
        None => {
            return Err(MeteringError::Unavailable);
        },
    };
    let (next_year, next_month) = if month == 12 {
        match year.checked_add(1) {
            Some(y) => (y, 1u32),
            None => {
                return Err(MeteringError::Unavailable);
            },
        }
    } else {
        (year, month + 1)
    };
    let end_ms = match crate::outside::utc_month_start_ms(next_year, next_month) {
        Some(v) => v,
        None => {
            return Err(MeteringError::Unavailable);
        },
    };
    Ok(
        BillingPeriod {
            start_ms,
            end_ms,
            cutoff_ms: crate::usage_reporting::saturating_add_i64(end_ms, PERIOD_CUTOFF_GRACE_MS),
        },
    )
}

/// An account is entitled to its tier while it is active or trialing.
pub open spec fn entitled(status: Option<Seq<char>>) -> bool {
    status == Some("active"@) || status == Some("trialing"@)
}

pub open spec fn opt_view(value: Option<&str>) -> Option<Seq<char>> {
    match value {
        Some(v) => Some(v@),
        None => None,
    }
}

/// Whether the billing account's status entitles it to its tier.
pub fn account_entitled(status: Option<&str>) -> (r: bool)
    ensures
        r == entitled(opt_view(status)),
{
    match status {
        Some(s) => crate::text::str_eq(s, "active") || crate::text::str_eq(s, "trialing"),
        None => false,
    }
}

/// The tier usage is enforced under: the account's tier while entitled
/// (free where it has none), the free tier otherwise.
pub open spec fn effective_tier_is_free(status: Option<Seq<char>>, tier: Option<Seq<char>>) -> bool {
    if entitled(status) {
        match tier {
            Some(t) => t == "free"@,
            None => true,
        }
    } else {
        true
    }
}

/// Whether usage is held to the free tier (see `effective_tier_is_free`).
pub fn effective_tier_free(status: Option<&str>, tier: Option<&str>) -> (r: bool)
    ensures
        r == effective_tier_is_free(opt_view(status), opt_view(tier)),
{
    if account_entitled(status) {
        match tier {
            Some(t) => crate::text::str_eq(t, "free"),
            None => true,
        }
    } else {
        true
    }
}

/// The billing period of an account: its provider period while it is
/// entitled and the period holds `now_ms`; the calendar month otherwise.
pub open spec fn account_period(
    is_entitled: bool,
    start_ms: Option<i64>,
    end_ms: Option<i64>,
    now_ms: i64,
) -> Option<BillingPeriod> {
    match (start_ms, end_ms) {
        (Some(s), Some(e)) if is_entitled && s <= now_ms && now_ms < e => Some(
            BillingPeriod { start_ms: s, end_ms: e, cutoff_ms: cutoff_after(e) },
        ),
        _ => calendar_month_of(now_ms),
    }
}

/// Picks the billing period that usage at `now_ms` is counted in.
pub fn billing_period_for(
    is_entitled: bool,
    start_ms: Option<i64>,
    end_ms: Option<i64>,
    now_ms: i64,
) -> (r: Result<BillingPeriod, MeteringError>)
    ensures
        match r {
            Ok(p) => account_period(is_entitled, start_ms, end_ms, now_ms) == Some(p),
            Err(e) => account_period(is_entitled, start_ms, end_ms, now_ms) is None && e
                == MeteringError::Unavailable,
        },
{
    match (start_ms, end_ms) {
        (Some(s), Some(e)) => {
            if is_entitled && s <= now_ms && now_ms < e {
                return Ok(
                    BillingPeriod {
                        start_ms: s,
                        end_ms: e,
                        cutoff_ms: crate::usage_reporting::saturating_add_i64(
                            e,
                            PERIOD_CUTOFF_GRACE_MS,
                        ),
                    },
                );
            }
        },
        _ => {},
    }
    calendar_month(now_ms)
}

/// What an organization's usage is held to in its current period.
#[derive(Clone, Copy, Debug, PartialEq, Eq, Structural)]
pub struct BillingContext {
    pub organization_id: crate::ids::OrganizationId,
    pub period: BillingPeriod,
    pub storage_bytes: u64,
    pub monthly_reads: u64,
    pub monthly_writes: u64,
    pub monthly_active_users: u64,
    pub enforce_write: bool,
    pub enforce_storage: bool,
    pub reporting_blocked: bool,
}

/// Which allowances are enforced: with billing enforced and the
/// organization not exempt, writes and storage are capped on the free tier,
/// and a hard reporting cutoff blocks billable writes.
pub fn allowance_enforcement(
    billing_enforced: bool,
    billing_exempt: bool,
    effective_free: bool,
    reporting_cutoff: bool,
) -> (r: (bool, bool, bool))
    ensures
        r == ({
            let enforce = billing_enforced && !billing_exempt;
            (enforce && effective_free, enforce && effective_free, reporting_cutoff && enforce)
        }),
{
    let enforce = billing_enforced && !billing_exempt;
    (enforce && effective_free, enforce && effective_free, reporting_cutoff && enforce)
}

/// A catalog allowance read from storage must be positive.
pub fn positive_allowance(value: i64) -> (r: Result<u64, MeteringError>)
    ensures
        value > 0 ==> r == Ok::<u64, MeteringError>(value as u64),
        value <= 0 ==> r == Err::<u64, MeteringError>(MeteringError::Unavailable),
{
    if value > 0 {
        Ok(value as u64)
    } else {
        Err(MeteringError::Unavailable)
    }
}

/// The limits a reservation is admitted under: reads and active users are
/// never blocked for database work; writes and storage as enforced.
#[derive(Clone, Copy, Debug, PartialEq, Eq, Structural)]
pub struct UsageLimits {
    pub read_units: u64,
    pub write_units: u64,
    pub monthly_active_users: u64,
    pub storage_bytes: u64,
    pub enforce_read_limit: bool,
    pub enforce_write_limit: bool,
    pub enforce_mau_limit: bool,
    pub enforce_storage_limit: bool,
}

/// The kind of reservation that is being admitted.
#[derive(Clone, Copy, Debug, PartialEq, Eq, Structural)]
pub enum ReservationKind {
    /// Database work.
    Execution,
    /// A new end user of a project.
    Registration,
    /// Object storage growth.
    ObjectStorage,
}

/// The limits of a reservation of the given kind.
pub fn reservation_limits(context: &BillingContext, kind: ReservationKind) -> (r: UsageLimits)
    ensures
        r == (UsageLimits {
            read_units: context.monthly_reads,
            write_units: context.monthly_writes,
            monthly_active_users: context.monthly_active_users,
            storage_bytes: context.storage_bytes,
            enforce_read_limit: false,
            enforce_write_limit: kind == ReservationKind::Execution && context.enforce_write,
            enforce_mau_limit: kind == ReservationKind::Registration && context.enforce_write,
            enforce_storage_limit: (kind == ReservationKind::Execution || kind
                == ReservationKind::ObjectStorage) && context.enforce_storage,
        }),
{
    let execution = match kind {
        ReservationKind::Execution => true,
        _ => false,
    };
    let registration = match kind {
        ReservationKind::Registration => true,
        _ => false,
    };
    let objects = match kind {
        ReservationKind::ObjectStorage => true,
        _ => false,
    };
    UsageLimits {
        read_units: context.monthly_reads,
        write_units: context.monthly_writes,
        monthly_active_users: context.monthly_active_users,
        storage_bytes: context.storage_bytes,
        enforce_read_limit: false,
        enforce_write_limit: execution && context.enforce_write,
        enforce_mau_limit: registration && context.enforce_write,
        enforce_storage_limit: (execution || objects) && context.enforce_storage,
    }
}

/// How a write is sized before it runs: the storage it may grow by (the
/// remaining storage allowance where storage is enforced, none otherwise)
/// and the database size the worker is held to.
pub open spec fn write_terms(
    context: BillingContext,
    storage_at_end: u64,
    current_project_bytes: u64,
    configured_max_database_bytes: u64,
) -> Option<(u64, u64)> {
    if context.enforce_storage {
        let remaining = if context.storage_bytes >= storage_at_end {
            (context.storage_bytes - storage_at_end) as u64
        } else {
            0u64
        };
        if current_project_bytes + remaining > u64::MAX {
            None
        } else {
            let cap = (current_project_bytes + remaining) as u64;
            Some((remaining, if configured_max_database_bytes <= cap { configured_max_database_bytes } else { cap }))
        }
    } else {
        Some((0u64, configured_max_database_bytes))
    }
}

/// The decisions of preparing usage for an operation: billable writes are
/// refused while reporting is blocked; a mutating plan is sized by
/// `write_terms`; anything else runs at the configured database size.
pub open spec fn prepare_terms(
    context: BillingContext,
    plan: UsagePlan,
    storage_at_end: u64,
    current_project_bytes: u64,
    configured_max_database_bytes: u64,
) -> Result<Option<(u64, u64)>, MeteringError> {
    if context.reporting_blocked && plan.write_units > 0 {
        Err(MeteringError::ReportingBlocked)
    } else if plan.write_units > 0 {
        match write_terms(context, storage_at_end, current_project_bytes, configured_max_database_bytes) {
            Some(t) => Ok(Some(t)),
            None => Err(MeteringError::Unavailable),
        }
    } else {
        Ok(None)
    }
}

/// Sizes the usage of an operation (see `prepare_terms`): `Some` with the
/// storage growth and database cap where a reservation is needed.
pub fn plan_usage_terms(
    context: &BillingContext,
    plan: UsagePlan,
    storage_at_end: u64,
    current_project_bytes: u64,
    configured_max_database_bytes: u64,
) -> (r: Result<Option<(u64, u64)>, MeteringError>)
    ensures
        r == prepare_terms(*context, plan, storage_at_end, current_project_bytes, configured_max_database_bytes),
{
    if context.reporting_blocked && plan.mutating() {
        return Err(MeteringError::ReportingBlocked);
    }
    if !plan.mutating() {
        return Ok(None);
    }
    if context.enforce_storage {
        let remaining = context.storage_bytes.saturating_sub(storage_at_end);
        let cap = match current_project_bytes.checked_add(remaining) {
            Some(c) => c,
            None => {
                return Err(MeteringError::Unavailable);
            },
        };
        let max = if configured_max_database_bytes <= cap {
            configured_max_database_bytes
        } else {
            cap
        };
        Ok(Some((remaining, max)))
    } else {
        Ok(Some((0, configured_max_database_bytes)))
    }
}

/// A write never lets the database outgrow what the organization may still
/// store: where storage is enforced, the worker's cap is at most the
/// project's current size plus the remaining allowance.
pub proof fn law_write_cap_respects_the_storage_allowance(
    context: BillingContext,
    plan: UsagePlan,
    storage_at_end: u64,
    current_project_bytes: u64,
    configured_max_database_bytes: u64,
)
    requires
        context.enforce_storage,
        prepare_terms(context, plan, storage_at_end, current_project_bytes, configured_max_database_bytes)
            matches Ok(Some(t)),
    ensures
        ({
            let t = prepare_terms(context, plan, storage_at_end, current_project_bytes, configured_max_database_bytes)->Ok_0->Some_0;
            &&& t.1 <= configured_max_database_bytes
            &&& t.1 <= current_project_bytes + t.0
            &&& storage_at_end + t.0 <= context.storage_bytes || t.0 == 0
        }),
{
}

/// When usage happens inside a period: clamped to the period, whose last
/// instant is one millisecond before its end.
pub open spec fn occurrence_ms(now_ms: i64, period: BillingPeriod) -> i64 {
    if now_ms < period.start_ms {
        period.start_ms
    } else if now_ms > period.end_ms - 1 {
        (period.end_ms - 1) as i64
    } else {
        now_ms
    }
}

/// Places usage recorded at `now_ms` inside its billing period.
pub fn occurred_at_ms(now_ms: i64, period: BillingPeriod) -> (r: i64)
    requires
        period.start_ms < period.end_ms,
    ensures
        r == occurrence_ms(now_ms, period),
        period.start_ms <= r < period.end_ms,
{
    let last = period.end_ms - 1;
    if now_ms < period.start_ms {
        period.start_ms
    } else if now_ms > last {
        last
    } else {
        now_ms
    }
}

/// Whole storage byte-hours of a number of byte-milliseconds, saturated to
/// `u64`.
pub fn storage_byte_hours(storage_byte_milliseconds: u128) -> (r: u64)
    ensures
        r == (if storage_byte_milliseconds / 3_600_000 <= u64::MAX {
            (storage_byte_milliseconds / 3_600_000) as u64
        } else {
            u64::MAX
        }),
{
    let hours = storage_byte_milliseconds / 3_600_000;
    if hours <= u64::MAX as u128 {
        hours as u64
    } else {
        u64::MAX
    }
}

/// The health of usage reporting shown to an organization.
#[derive(Clone, Copy, Debug, PartialEq, Eq, Structural)]
pub enum UsageReportingStatus {
    Healthy,
    Degraded,
    Reconciling,
    Blocked,
}

/// Reads a stored reporting status; an unknown one makes the summary
/// unavailable.
pub fn parse_reporting_status(value: &str) -> (r: Result<UsageReportingStatus, MeteringError>)
    ensures
        r == (if value@ == "healthy"@ {
            Ok(UsageReportingStatus::Healthy)
        } else if value@ == "degraded"@ {
            Ok(UsageReportingStatus::Degraded)
        } else if value@ == "reconciling"@ {
            Ok(UsageReportingStatus::Reconciling)
        } else if value@ == "blocked"@ {
            Ok(UsageReportingStatus::Blocked)
        } else {
            Err(MeteringError::Unavailable)
        }),
{
    if crate::text::str_eq(value, "healthy") {
        Ok(UsageReportingStatus::Healthy)
    } else if crate::text::str_eq(value, "degraded") {
        Ok(UsageReportingStatus::Degraded)
    } else if crate::text::str_eq(value, "reconciling") {
        Ok(UsageReportingStatus::Reconciling)
    } else if crate::text::str_eq(value, "blocked") {
        Ok(UsageReportingStatus::Blocked)
    } else {
        Err(MeteringError::Unavailable)
    }
}

/// The resource that a project's database usage is recorded under.
pub fn database_resource(project_id: crate::ids::ProjectId) -> (r: String)
    ensures
        r@ == "database:"@ + crate::outside::uuid_text(project_id.0),
{
    let mut r = String::new();
    r.append("database:");
    let id = crate::outside::uuid_string(project_id.0);
    r.append(id.as_str());
    r
}

/// The resource that a project's object storage is recorded under.
pub fn object_storage_resource(project_id: crate::ids::ProjectId) -> (r: String)
    ensures
        r@ == "objects:"@ + crate::outside::uuid_text(project_id.0),
{
    let mut r = String::new();
    r.append("objects:");
    let id = crate::outside::uuid_string(project_id.0);
    r.append(id.as_str());
    r
}

/// The reservation of an object upload: `storage:` and the lowercase hex
/// SHA-256 of the upload's nonce.
pub fn storage_reservation_id(nonce: &str) -> (r: String)
    ensures
        r@ == crate::text::ascii_chars(
            "storage:".spec_bytes() + crate::encoding::hex_lower(crate::outside::sha256(nonce.spec_bytes())),
        ),
{
    let digest = crate::outside::sha256_digest(nonce.as_bytes());
    let mut out: Vec<u8> = Vec::new();
    crate::text::append_bytes(&mut out, "storage:".as_bytes());
    crate::encoding::push_hex_lower(&mut out, digest.as_slice());
    proof {
        reveal_strlit("storage:");
        vstd::string::is_ascii_spec_bytes("storage:");
        crate::encoding::lemma_hex_lower_facts(digest@);
        assert forall|k: int| 0 <= k < out@.len() implies #[trigger] out@[k] < 128 by {
            if k >= 8 {
                assert(out@[k] == crate::encoding::hex_lower(digest@)[k - 8]);
            }
        }
    }
    crate::outside::ascii_string(out)
}

} // verus!
