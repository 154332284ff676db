//! Observability of projects: the time buckets and ranges that request and
//! query metrics are kept in, how a query is profiled for grouping, how the
//! pending aggregate is bounded, and the answers to observability failures.
use vstd::prelude::*;
use vstd::string::{StrSliceExecFns, StringSliceAdditionalSpecFns};
use crate::errors::{ErrorReply, reply};
use crate::ids::ProjectId;
use crate::instance::InstanceServiceError;
use crate::text::str_eq;

verus! {

/// A window of metrics and the resolution it is shown at, in milliseconds.
#[derive(Clone, Copy, Debug, PartialEq, Eq, Structural)]
pub struct RangeSpec {
    pub window_ms: i64,
    pub resolution_ms: i64,
}

/// The message for a range that is not offered.
pub open spec fn unsupported_range() -> &'static str {
    "range must be one of 1h, 6h, 24h, 7d, or 30d"
}

/// The offered ranges: an hour by minutes, six hours by five minutes, a day
/// by quarter hours (the default), a week by hours, thirty days by six
/// hours.
pub open spec fn range_named(value: Seq<char>) -> Option<RangeSpec> {
    if value == "1h"@ {
        Some(RangeSpec { window_ms: 3_600_000, resolution_ms: 60_000 })
    } else if value == "6h"@ {
        Some(RangeSpec { window_ms: 21_600_000, resolution_ms: 300_000 })
    } else if value == "24h"@ {
        Some(RangeSpec { window_ms: 86_400_000, resolution_ms: 900_000 })
    } else if value == "7d"@ {
        Some(RangeSpec { window_ms: 604_800_000, resolution_ms: 3_600_000 })
    } else if value == "30d"@ {
        Some(RangeSpec { window_ms: 2_592_000_000, resolution_ms: 21_600_000 })
    } else {
        None
    }
}

impl RangeSpec {
    /// Reads a requested range; no range means a day.
    pub fn parse(value: Option<&str>) -> (r: Result<RangeSpec, &'static str>)
        ensures
            match value {
                None => r == Ok::<RangeSpec, &'static str>(
                    RangeSpec { window_ms: 86_400_000, resolution_ms: 900_000 },
                ),
                Some(v) => match range_named(v@) {
                    Some(spec) => r == Ok::<RangeSpec, &'static str>(spec),
                    None => r == Err::<RangeSpec, &'static str>(unsupported_range()),
                },
            },
    {
        let v = match value {
            Some(v) => v,
            None => {
                return Ok(RangeSpec { window_ms: 86_400_000, resolution_ms: 900_000 });
            },
        };
        if str_eq(v, "1h") {
            Ok(RangeSpec { window_ms: 3_600_000, resolution_ms: 60_000 })
        } else if str_eq(v, "6h") {
            Ok(RangeSpec { window_ms: 21_600_000, resolution_ms: 300_000 })
        } else if str_eq(v, "24h") {
            Ok(RangeSpec { window_ms: 86_400_000, resolution_ms: 900_000 })
        } else if str_eq(v, "7d") {
            Ok(RangeSpec { window_ms: 604_800_000, resolution_ms: 3_600_000 })
        } else if str_eq(v, "30d") {
            Ok(RangeSpec { window_ms: 2_592_000_000, resolution_ms: 21_600_000 })
        } else {
            Err("range must be one of 1h, 6h, 24h, 7d, or 30d")
        }
    }
}

/// Every offered range divides into whole buckets of its resolution.
pub proof fn law_ranges_divide_into_buckets(value: Seq<char>)
    requires
        range_named(value) is Some,
    ensures
        ({
            let spec = range_named(value).unwrap();
            spec.resolution_ms > 0 && spec.window_ms % spec.resolution_ms == 0 && spec.window_ms
                / spec.resolution_ms <= 168
        }),
{
    assert(3_600_000i64 % 60_000i64 == 0 && 3_600_000i64 / 60_000i64 == 60) by (nonlinear_arith);
    assert(21_600_000i64 % 300_000i64 == 0 && 21_600_000i64 / 300_000i64 == 72) by (nonlinear_arith);
    assert(86_400_000i64 % 900_000i64 == 0 && 86_400_000i64 / 900_000i64 == 96) by (nonlinear_arith);
    assert(604_800_000i64 % 3_600_000i64 == 0 && 604_800_000i64 / 3_600_000i64 == 168) by (nonlinear_arith);
    assert(2_592_000_000i64 % 21_600_000i64 == 0 && 2_592_000_000i64 / 21_600_000i64 == 120) by (nonlinear_arith);
}

/// The start of the minute that `now_ms` falls in, negative times counted
/// as zero.
pub open spec fn minute_of(now_ms: i64) -> i64 {
    if now_ms < 0 {
        0
    } else {
        ((now_ms / 60_000) * 60_000) as i64
    }
}

pub fn minute_bucket(now_ms: i64) -> (r: i64)
    ensures
        r == minute_of(now_ms),
        0 <= r <= now_ms || (now_ms < 0 && r == 0),
        now_ms >= 0 ==> now_ms - r < 60_000,
{
    let t = if now_ms < 0 {
        0
    } else {
        now_ms
    };
    (t / 60_000) * 60_000
}

/// A counter as a signed database value, saturating.
pub fn as_i64(value: u64) -> (r: i64)
    ensures
        r == (if value <= i64::MAX {
            value as i64
        } else {
            i64::MAX
        }),
{
    if value <= i64::MAX as u64 {
        value as i64
    } else {
        i64::MAX
    }
}

/// A signed database value as a counter; negative values count as zero.
pub fn as_u64(value: i64) -> (r: u64)
    ensures
        r == (if value >= 0 {
            value as u64
        } else {
            0
        }),
{
    if value >= 0 {
        value as u64
    } else {
        0
    }
}

/// A count as `u32`, saturating.
pub fn saturating_u32(value: usize) -> (r: u32)
    ensures
        r == (if value <= u32::MAX {
            value as u32
        } else {
            u32::MAX
        }),
{
    if value <= u32::MAX as usize {
        value as u32
    } else {
        u32::MAX
    }
}

/// The project a request path belongs to, for attributing its metrics (see
/// `request_path_project`).
pub fn project_from_path(path: &str) -> (r: Option<ProjectId>)
    ensures
        r == crate::routes::request_path_project(path),
{
    crate::routes::project_id_from_request_path(path)
}

/// What kind of SQL statement a query is.
#[derive(Clone, Copy, Debug, PartialEq, Eq, Structural)]
pub enum StatementKind {
    Select,
    Insert,
    Update,
    Delete,
    Ddl,
    Pragma,
    Attach,
    Detach,
    Vacuum,
    TransactionControl,
    Rls,
    Other,
}

/// The stored name of a statement kind.
pub open spec fn statement_kind_label(kind: StatementKind) -> Seq<char> {
    match kind {
        StatementKind::Select => "select"@,
        StatementKind::Insert => "insert"@,
        StatementKind::Update => "update"@,
        StatementKind::Delete => "delete"@,
        StatementKind::Ddl => "ddl"@,
        StatementKind::Pragma => "pragma"@,
        StatementKind::Attach => "attach"@,
        StatementKind::Detach => "detach"@,
        StatementKind::Vacuum => "vacuum"@,
        StatementKind::TransactionControl => "transaction_control"@,
        StatementKind::Rls => "rls"@,
        StatementKind::Other => "other"@,
    }
}

pub fn statement_kind_name(kind: StatementKind) -> (r: &'static str)
    ensures
        r@ == statement_kind_label(kind),
{
    match kind {
        StatementKind::Select => "select",
        StatementKind::Insert => "insert",
        StatementKind::Update => "update",
        StatementKind::Delete => "delete",
        StatementKind::Ddl => "ddl",
        StatementKind::Pragma => "pragma",
        StatementKind::Attach => "attach",
        StatementKind::Detach => "detach",
        StatementKind::Vacuum => "vacuum",
        StatementKind::TransactionControl => "transaction_control",
        StatementKind::Rls => "rls",
        StatementKind::Other => "other",
    }
}

/// How a query is grouped in metrics: by its redacted shape and the
/// fingerprint of that shape, with its statement kind.
#[derive(Clone, Debug, PartialEq, Eq)]
pub struct QueryProfile {
    pub fingerprint: String,
    pub shape: String,
    pub statement_kind: String,
    pub read_only: bool,
}

/// The fingerprint of a shape: the lowercase hex SHA-256 of its text.
pub open spec fn shape_fingerprint(shape: Seq<u8>) -> Seq<char> {
    crate::text::ascii_chars(crate::encoding::hex_lower(crate::outside::sha256(shape)))
}

/// Profiles a query from its text and its classification (`None` where it
/// could not be classified, which counts as another, writing statement).
pub fn profile_sql(sql: &str, classification: Option<(StatementKind, bool)>) -> (r: QueryProfile)
    ensures
        r.shape@ == crate::text::ascii_chars(crate::sql_shape::shape_bytes(sql.spec_bytes())),
        r.fingerprint@ == shape_fingerprint(vstd::utf8::encode_utf8(r.shape@)),
        match classification {
            Some((kind, read_only)) => r.statement_kind@ == statement_kind_label(kind) && r.read_only
                == read_only,
            None => r.statement_kind@ == "other"@ && !r.read_only,
        },
{
    let (kind, read_only) = match classification {
        Some((k, ro)) => (statement_kind_name(k), ro),
        None => ("other", false),
    };
    let shape = crate::sql_shape::redact_sql_shape(sql);
    let digest = crate::outside::sha256_digest(shape.as_str().as_bytes());
    let mut hex: Vec<u8> = Vec::new();
    crate::encoding::push_hex_lower(&mut hex, digest.as_slice());
    proof {
        crate::encoding::lemma_hex_lower_facts(digest@);
        assert(hex@ =~= crate::encoding::hex_lower(digest@));
    }
    let fingerprint = crate::outside::ascii_string(hex);
    QueryProfile { fingerprint, shape, statement_kind: kind.to_owned(), read_only }
}

/// Queries with the same shape are grouped under the same fingerprint.
pub proof fn law_same_shape_same_fingerprint(a: QueryProfile, b: QueryProfile)
    requires
        a.shape@ == b.shape@,
        a.fingerprint@ == shape_fingerprint(vstd::utf8::encode_utf8(a.shape@)),
        b.fingerprint@ == shape_fingerprint(vstd::utf8::encode_utf8(b.shape@)),
    ensures
        a.fingerprint@ == b.fingerprint@,
{
}

/// The most distinct keys the pending aggregate holds between flushes.
pub const MAX_PENDING_KEYS: usize = 50_000;

/// Days of metrics kept.
pub const RETENTION_DAYS: u16 = 30;

/// An event for a key already pending is always aggregated; a new key is
/// only taken while the aggregate holds fewer than `MAX_PENDING_KEYS` keys.
pub fn admits_key(already_pending: bool, key_count: usize) -> (r: bool)
    ensures
        r == (already_pending || key_count < MAX_PENDING_KEYS),
{
    already_pending || key_count < MAX_PENDING_KEYS
}

/// A storage sample replaces the one kept for its project unless the kept
/// one was taken later.
pub fn storage_sample_replaces(kept_sampled_at_ms: Option<i64>, incoming_sampled_at_ms: i64) -> (r: bool)
    ensures
        r == match kept_sampled_at_ms {
            None => true,
            Some(k) => k <= incoming_sampled_at_ms,
        },
{
    match kept_sampled_at_ms {
        None => true,
        Some(k) => k <= incoming_sampled_at_ms,
    }
}

/// The start of the retention window: now less the retained days, saturating.
pub fn retention_cutoff_ms(now_ms: i64) -> (r: i64)
    ensures
        r == (if now_ms - 2_592_000_000 >= i64::MIN {
            now_ms - 2_592_000_000
        } else {
            i64::MIN as int
        }),
{
    if now_ms >= i64::MIN + 2_592_000_000 {
        now_ms - 2_592_000_000
    } else {
        i64::MIN
    }
}

/// The answer to an instance observability request the caller may not
/// make, or that cannot be authorized now.
pub open spec fn instance_observability_reply(error: InstanceServiceError) -> (u16, Seq<char>, Seq<char>) {
    if error == InstanceServiceError::Forbidden {
        (403u16, "observability.forbidden"@, "instance observability requires an instance administrator"@)
    } else {
        (503u16, "observability.unavailable"@, "instance authorization is temporarily unavailable"@)
    }
}

pub fn instance_error(error: InstanceServiceError) -> (r: ErrorReply)
    ensures
        r@ == instance_observability_reply(error),
{
    match error {
        InstanceServiceError::Forbidden => reply(
            403,
            "observability.forbidden",
            "instance observability requires an instance administrator",
        ),
        _ => reply(503, "observability.unavailable", "instance authorization is temporarily unavailable"),
    }
}

/// Observability data that cannot be read now.
pub fn error_response(message: &str) -> (r: ErrorReply)
    ensures
        r@ == (503u16, "observability.unavailable"@, message@),
{
    reply(503, "observability.unavailable", message)
}

/// A range the caller asked for that is not offered.
pub fn invalid_range_response(message: &str) -> (r: ErrorReply)
    ensures
        r@ == (400u16, "observability.range_invalid"@, message@),
{
    reply(400, "observability.range_invalid", message)
}


/// The counters of a query fingerprint in the pending aggregate.
#[derive(Clone, Copy, Debug, PartialEq, Eq, Structural)]
pub struct QueryCounters {
    pub executions: u64,
    pub errors: u64,
    pub rows_returned: u64,
    pub rows_affected: u64,
}

/// One more execution: failures counted as errors, rows added; every counter
/// saturates.
pub open spec fn counters_after(c: QueryCounters, failed: bool, rows_returned: u64, rows_affected: u64) -> QueryCounters {
    QueryCounters {
        executions: crate::metering::sat_add(c.executions, 1),
        errors: crate::metering::sat_add(c.errors, if failed { 1 } else { 0 }),
        rows_returned: crate::metering::sat_add(c.rows_returned, rows_returned),
        rows_affected: crate::metering::sat_add(c.rows_affected, rows_affected),
    }
}

fn add_saturating(a: u64, b: u64) -> (r: u64)
    ensures
        r == crate::metering::sat_add(a, b),
{
    match a.checked_add(b) {
        Some(v) => v,
        None => u64::MAX,
    }
}

/// Counts one execution of a query (see `counters_after`).
pub fn record_query(c: QueryCounters, failed: bool, rows_returned: u64, rows_affected: u64) -> (r: QueryCounters)
    ensures
        r == counters_after(c, failed, rows_returned, rows_affected),
{
    QueryCounters {
        executions: add_saturating(c.executions, 1),
        errors: add_saturating(c.errors, if failed { 1 } else { 0 }),
        rows_returned: add_saturating(c.rows_returned, rows_returned),
        rows_affected: add_saturating(c.rows_affected, rows_affected),
    }
}

/// Counters of a batch that failed to flush, merged back into the pending
/// ones: each counter is the saturating sum.
pub open spec fn counters_merged(a: QueryCounters, b: QueryCounters) -> QueryCounters {
    QueryCounters {
        executions: crate::metering::sat_add(a.executions, b.executions),
        errors: crate::metering::sat_add(a.errors, b.errors),
        rows_returned: crate::metering::sat_add(a.rows_returned, b.rows_returned),
        rows_affected: crate::metering::sat_add(a.rows_affected, b.rows_affected),
    }
}

/// Merges the counters of a batch back (see `counters_merged`).
pub fn merge_query_counters(target: QueryCounters, incoming: QueryCounters) -> (r: QueryCounters)
    ensures
        r == counters_merged(target, incoming),
{
    QueryCounters {
        executions: add_saturating(target.executions, incoming.executions),
        errors: add_saturating(target.errors, incoming.errors),
        rows_returned: add_saturating(target.rows_returned, incoming.rows_returned),
        rows_affected: add_saturating(target.rows_affected, incoming.rows_affected),
    }
}

/// Merging counters back does not depend on which side is pending: a batch
/// that failed to flush and the events aggregated meanwhile add up the same
/// either way.
pub proof fn law_counter_merge_is_symmetric(a: QueryCounters, b: QueryCounters)
    ensures
        counters_merged(a, b) == counters_merged(b, a),
{
}

} // verus!
