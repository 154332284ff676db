//! The instance plan catalog: plan tiers and their limits, the rules a plan
//! must keep, and the graduated provider prices that a plan is sold at.
use vstd::prelude::*;
use vstd::string::{StrSliceExecFns, StringSliceAdditionalSpecFns};
use crate::billing::UsageMetric;
use crate::instance::{InstanceServiceError, MAX_SAFE_INTEGER, STORAGE_BILLING_UNIT_BYTES};
use vstd::utf8::encode_utf8;
use crate::text::{is_lower, str_eq, trim_chars, trim_str};

verus! {

#[derive(Clone, Copy, Debug, PartialEq, Eq, Structural)]
pub enum PlatformBillingTier {
    Free,
    PayAsYouGo,
    Pro,
}

#[derive(Clone, Copy, Debug, PartialEq, Eq, Structural)]
pub enum PlatformBillingUnit {
    Organization,
    Seat,
}

#[derive(Clone, Copy, Debug, PartialEq, Eq, Structural)]
pub enum InstanceReadsAtLimit {
    Continue,
    Overage,
}

#[derive(Clone, Copy, Debug, PartialEq, Eq, Structural)]
pub enum InstanceWritesAtLimit {
    Pause,
    Overage,
}

#[derive(Clone, Copy, Debug, PartialEq, Eq, Structural)]
pub enum InstanceSignupsAtLimit {
    Pause,
    Overage,
}

/// A plan as an administrator asks to store it.
#[derive(Clone, Debug)]
pub struct PutInstancePlanCatalogEntryRequest {
    pub display_name: String,
    pub billing_unit: PlatformBillingUnit,
    pub base_price_cents: Option<u64>,
    pub currency: String,
    pub project_limit: Option<u32>,
    pub storage_bytes: u64,
    pub monthly_reads: u64,
    pub monthly_writes: u64,
    pub monthly_active_users: u64,
    pub overage_enabled: bool,
    pub reads_at_limit: InstanceReadsAtLimit,
    pub writes_at_limit: InstanceWritesAtLimit,
    pub signups_at_limit: InstanceSignupsAtLimit,
    pub requires_payment_method_for_overage: bool,
    pub active: bool,
}

/// A stored plan.
#[derive(Clone, Debug)]
pub struct InstancePlanCatalogEntry {
    pub tier: PlatformBillingTier,
    pub display_name: String,
    pub billing_unit: PlatformBillingUnit,
    pub base_price_cents: Option<u64>,
    pub currency: String,
    pub project_limit: Option<u32>,
    pub storage_bytes: u64,
    pub monthly_reads: u64,
    pub monthly_writes: u64,
    pub monthly_active_users: u64,
    pub overage_enabled: bool,
    pub reads_at_limit: InstanceReadsAtLimit,
    pub writes_at_limit: InstanceWritesAtLimit,
    pub signups_at_limit: InstanceSignupsAtLimit,
    pub requires_payment_method_for_overage: bool,
    pub active: bool,
    pub provider_catalog_bound: bool,
    pub updated_at_ms: i64,
}

/// A usage allowance is set and fits in a JSON-safe integer.
pub open spec fn limit_ok(value: u64) -> bool {
    0 < value <= MAX_SAFE_INTEGER
}

/// The fields of a plan are well formed, whatever its tier.
pub open spec fn plan_fields_ok(input: PutInstancePlanCatalogEntryRequest) -> bool {
    let name = trim_chars(input.display_name@);
    &&& 1 <= name.len() <= 100
    &&& currency_code_ok(encode_utf8(input.currency@))
    &&& limit_ok(input.storage_bytes)
    &&& limit_ok(input.monthly_reads)
    &&& limit_ok(input.monthly_writes)
    &&& limit_ok(input.monthly_active_users)
    &&& input.project_limit != Some(0u32)
    &&& input.storage_bytes % STORAGE_BILLING_UNIT_BYTES == 0
    &&& (input.base_price_cents matches Some(p) ==> p <= MAX_SAFE_INTEGER)
}

/// Some limit of the plan is set to bill overage.
pub open spec fn uses_overage(input: PutInstancePlanCatalogEntryRequest) -> bool {
    input.reads_at_limit == InstanceReadsAtLimit::Overage || input.writes_at_limit
        == InstanceWritesAtLimit::Overage || input.signups_at_limit
        == InstanceSignupsAtLimit::Overage
}

/// What each tier demands of its plan: the free tier is billed per
/// organization at no price, caps projects, bills no overage and stays
/// active; pay-as-you-go has no base price; pro has a positive base price;
/// both paid tiers bill overage.
pub open spec fn tier_rules_ok(tier: PlatformBillingTier, input: PutInstancePlanCatalogEntryRequest) -> bool {
    match tier {
        PlatformBillingTier::Free => input.billing_unit == PlatformBillingUnit::Organization
            && input.base_price_cents == Some(0u64) && input.project_limit is Some
            && !input.overage_enabled && input.active,
        PlatformBillingTier::PayAsYouGo => input.base_price_cents is None && input.overage_enabled,
        PlatformBillingTier::Pro => (input.base_price_cents matches Some(p) && p > 0)
            && input.overage_enabled,
    }
}

pub open spec fn plan_ok(tier: PlatformBillingTier, input: PutInstancePlanCatalogEntryRequest) -> bool {
    plan_fields_ok(input) && uses_overage(input) == input.overage_enabled && tier_rules_ok(
        tier,
        input,
    )
}

/// A currency code: three lowercase ASCII letters.
pub open spec fn currency_code_ok(b: Seq<u8>) -> bool {
    b.len() == 3 && is_lower(b[0]) && is_lower(b[1]) && is_lower(b[2])
}

fn currency_ok(currency: &String) -> (r: bool)
    ensures
        r == currency_code_ok(encode_utf8(currency@)),
{
    let b = currency.as_str().as_bytes();
    b.len() == 3 && 0x61u8 <= b[0] && b[0] <= 0x7Au8 && 0x61u8 <= b[1] && b[1] <= 0x7Au8 && 0x61u8
        <= b[2] && b[2] <= 0x7Au8
}

/// Checks a plan against the rules of its tier.
pub fn validate_plan(tier: PlatformBillingTier, input: &PutInstancePlanCatalogEntryRequest) -> (r:
    Result<(), InstanceServiceError>)
    ensures
        r == (if plan_ok(tier, *input) {
            Ok(())
        } else {
            Err(InstanceServiceError::InvalidRequest)
        }),
{
    let (_, name_len) = trim_str(input.display_name.as_str());
    let limits_ok = 0 < input.storage_bytes && input.storage_bytes <= MAX_SAFE_INTEGER && 0
        < input.monthly_reads && input.monthly_reads <= MAX_SAFE_INTEGER && 0 < input.monthly_writes
        && input.monthly_writes <= MAX_SAFE_INTEGER && 0 < input.monthly_active_users
        && input.monthly_active_users <= MAX_SAFE_INTEGER;
    let project_limit_ok = match input.project_limit {
        Some(n) => n != 0,
        None => true,
    };
    let price_ok = match input.base_price_cents {
        Some(p) => p <= MAX_SAFE_INTEGER,
        None => true,
    };
    if name_len == 0 || name_len > 100 || !currency_ok(&input.currency) || !limits_ok
        || !project_limit_ok || input.storage_bytes % STORAGE_BILLING_UNIT_BYTES != 0 || !price_ok {
        return Err(InstanceServiceError::InvalidRequest);
    }
    let overage = input.reads_at_limit == InstanceReadsAtLimit::Overage || input.writes_at_limit
        == InstanceWritesAtLimit::Overage || input.signups_at_limit
        == InstanceSignupsAtLimit::Overage;
    if overage != input.overage_enabled {
        return Err(InstanceServiceError::InvalidRequest);
    }
    let ok = match tier {
        PlatformBillingTier::Free => input.billing_unit == PlatformBillingUnit::Organization
            && input.base_price_cents == Some(0u64) && input.project_limit.is_some()
            && !input.overage_enabled && input.active,
        PlatformBillingTier::PayAsYouGo => input.base_price_cents.is_none()
            && input.overage_enabled,
        PlatformBillingTier::Pro => match input.base_price_cents {
            Some(p) => p > 0 && input.overage_enabled,
            None => false,
        },
    };
    if ok {
        Ok(())
    } else {
        Err(InstanceServiceError::InvalidRequest)
    }
}

/// The fields that the provider's prices were provisioned from.
pub open spec fn pricing_fields_match(
    current: InstancePlanCatalogEntry,
    requested: PutInstancePlanCatalogEntryRequest,
) -> bool {
    &&& current.billing_unit == requested.billing_unit
    &&& current.base_price_cents == requested.base_price_cents
    &&& current.currency@ == requested.currency@
    &&& current.storage_bytes == requested.storage_bytes
    &&& current.monthly_reads == requested.monthly_reads
    &&& current.monthly_writes == requested.monthly_writes
    &&& current.monthly_active_users == requested.monthly_active_users
}

/// Whether a requested plan keeps every field that its provider prices were
/// provisioned from.
pub fn provider_pricing_fields_match(
    current: &InstancePlanCatalogEntry,
    requested: &PutInstancePlanCatalogEntryRequest,
) -> (r: bool)
    ensures
        r == pricing_fields_match(*current, *requested),
{
    current.billing_unit == requested.billing_unit && current.base_price_cents
        == requested.base_price_cents && str_eq(current.currency.as_str(), requested.currency.as_str())
        && current.storage_bytes == requested.storage_bytes && current.monthly_reads
        == requested.monthly_reads && current.monthly_writes == requested.monthly_writes
        && current.monthly_active_users == requested.monthly_active_users
}

/// The columns of a stored plan, in the order the plan reader expects them.
pub fn plan_select() -> (r: &'static str)
    ensures
        r@ == PLAN_SELECT@,
{
    PLAN_SELECT
}

pub const PLAN_SELECT: &'static str =
    "SELECT tier,display_name,billing_unit,base_price_cents,currency,project_limit, storage_bytes,monthly_reads,monthly_writes,monthly_active_users,overage_enabled, reads_at_limit,writes_at_limit,signups_at_limit, requires_payment_method_for_overage,active, (extract(epoch FROM updated_at)*1000)::bigint updated_at_ms FROM billing_price_catalog";

/// The stored name of a tier.
pub open spec fn tier_label(value: PlatformBillingTier) -> Seq<char> {
    match value {
        PlatformBillingTier::Free => "free"@,
        PlatformBillingTier::PayAsYouGo => "pay_as_you_go"@,
        PlatformBillingTier::Pro => "pro"@,
    }
}

/// The tier stored under `value`, if any.
pub open spec fn tier_named(value: Seq<char>) -> Option<PlatformBillingTier> {
    if value == "free"@ {
        Some(PlatformBillingTier::Free)
    } else if value == "pay_as_you_go"@ {
        Some(PlatformBillingTier::PayAsYouGo)
    } else if value == "pro"@ {
        Some(PlatformBillingTier::Pro)
    } else {
        None
    }
}

pub fn tier_name(value: PlatformBillingTier) -> (r: &'static str)
    ensures
        r@ == tier_label(value),
{
    match value {
        PlatformBillingTier::Free => "free",
        PlatformBillingTier::PayAsYouGo => "pay_as_you_go",
        PlatformBillingTier::Pro => "pro",
    }
}

/// Reads a stored tier; an unknown name means the stored state is unusable.
pub fn parse_tier(value: &str) -> (r: Result<PlatformBillingTier, InstanceServiceError>)
    ensures
        r == (match tier_named(value@) {
            Some(v) => Ok(v),
            None => Err(InstanceServiceError::Unavailable),
        }),
{
    if str_eq(value, "free") {
        Ok(PlatformBillingTier::Free)
    } else if str_eq(value, "pay_as_you_go") {
        Ok(PlatformBillingTier::PayAsYouGo)
    } else if str_eq(value, "pro") {
        Ok(PlatformBillingTier::Pro)
    } else {
        Err(InstanceServiceError::Unavailable)
    }
}

/// Reading the stored name of a tier gives the same value back.
pub proof fn law_tier_named_round_trip(value: PlatformBillingTier)
    ensures
        tier_named(tier_label(value)) == Some(value),
{
    reveal_strlit("free");
    reveal_strlit("pay_as_you_go");
    reveal_strlit("pro");
    assert("free"@.len() == 4);
    assert("pay_as_you_go"@.len() == 13);
    assert("pro"@.len() == 3);
}

/// The stored name of a billing unit.
pub open spec fn billing_unit_label(value: PlatformBillingUnit) -> Seq<char> {
    match value {
        PlatformBillingUnit::Organization => "organization"@,
        PlatformBillingUnit::Seat => "seat"@,
    }
}

/// The billing unit stored under `value`, if any.
pub open spec fn billing_unit_named(value: Seq<char>) -> Option<PlatformBillingUnit> {
    if value == "organization"@ {
        Some(PlatformBillingUnit::Organization)
    } else if value == "seat"@ {
        Some(PlatformBillingUnit::Seat)
    } else {
        None
    }
}

pub fn billing_unit_name(value: PlatformBillingUnit) -> (r: &'static str)
    ensures
        r@ == billing_unit_label(value),
{
    match value {
        PlatformBillingUnit::Organization => "organization",
        PlatformBillingUnit::Seat => "seat",
    }
}

/// Reads a stored billing unit; an unknown name means the stored state is unusable.
pub fn parse_billing_unit(value: &str) -> (r: Result<PlatformBillingUnit, InstanceServiceError>)
    ensures
        r == (match billing_unit_named(value@) {
            Some(v) => Ok(v),
            None => Err(InstanceServiceError::Unavailable),
        }),
{
    if str_eq(value, "organization") {
        Ok(PlatformBillingUnit::Organization)
    } else if str_eq(value, "seat") {
        Ok(PlatformBillingUnit::Seat)
    } else {
        Err(InstanceServiceError::Unavailable)
    }
}

/// Reading the stored name of a billing unit gives the same value back.
pub proof fn law_billing_unit_named_round_trip(value: PlatformBillingUnit)
    ensures
        billing_unit_named(billing_unit_label(value)) == Some(value),
{
    reveal_strlit("organization");
    reveal_strlit("seat");
    assert("seat"@.len() == 4);
    assert("organization"@.len() == 12);
}

/// The stored name of a reads-at-limit policy.
pub open spec fn reads_at_limit_label(value: InstanceReadsAtLimit) -> Seq<char> {
    match value {
        InstanceReadsAtLimit::Continue => "continue"@,
        InstanceReadsAtLimit::Overage => "overage"@,
    }
}

/// The reads-at-limit policy stored under `value`, if any.
pub open spec fn reads_at_limit_named(value: Seq<char>) -> Option<InstanceReadsAtLimit> {
    if value == "continue"@ {
        Some(InstanceReadsAtLimit::Continue)
    } else if value == "overage"@ {
        Some(InstanceReadsAtLimit::Overage)
    } else {
        None
    }
}

pub fn reads_at_limit_name(value: InstanceReadsAtLimit) -> (r: &'static str)
    ensures
        r@ == reads_at_limit_label(value),
{
    match value {
        InstanceReadsAtLimit::Continue => "continue",
        InstanceReadsAtLimit::Overage => "overage",
    }
}

/// Reads a stored reads-at-limit policy; an unknown name means the stored state is unusable.
pub fn parse_reads_at_limit(value: &str) -> (r: Result<InstanceReadsAtLimit, InstanceServiceError>)
    ensures
        r == (match reads_at_limit_named(value@) {
            Some(v) => Ok(v),
            None => Err(InstanceServiceError::Unavailable),
        }),
{
    if str_eq(value, "continue") {
        Ok(InstanceReadsAtLimit::Continue)
    } else if str_eq(value, "overage") {
        Ok(InstanceReadsAtLimit::Overage)
    } else {
        Err(InstanceServiceError::Unavailable)
    }
}

/// Reading the stored name of a reads-at-limit policy gives the same value back.
pub proof fn law_reads_at_limit_named_round_trip(value: InstanceReadsAtLimit)
    ensures
        reads_at_limit_named(reads_at_limit_label(value)) == Some(value),
{
    reveal_strlit("continue");
    reveal_strlit("overage");
    assert("continue"@.len() == 8);
    assert("overage"@.len() == 7);
}

/// The stored name of a writes-at-limit policy.
pub open spec fn writes_at_limit_label(value: InstanceWritesAtLimit) -> Seq<char> {
    match value {
        InstanceWritesAtLimit::Pause => "pause"@,
        InstanceWritesAtLimit::Overage => "overage"@,
    }
}

/// The writes-at-limit policy stored under `value`, if any.
pub open spec fn writes_at_limit_named(value: Seq<char>) -> Option<InstanceWritesAtLimit> {
    if value == "pause"@ {
        Some(InstanceWritesAtLimit::Pause)
    } else if value == "overage"@ {
        Some(InstanceWritesAtLimit::Overage)
    } else {
        None
    }
}

pub fn writes_at_limit_name(value: InstanceWritesAtLimit) -> (r: &'static str)
    ensures
        r@ == writes_at_limit_label(value),
{
    match value {
        InstanceWritesAtLimit::Pause => "pause",
        InstanceWritesAtLimit::Overage => "overage",
    }
}

/// Reads a stored writes-at-limit policy; an unknown name means the stored state is unusable.
pub fn parse_writes_at_limit(value: &str) -> (r: Result<InstanceWritesAtLimit, InstanceServiceError>)
    ensures
        r == (match writes_at_limit_named(value@) {
            Some(v) => Ok(v),
            None => Err(InstanceServiceError::Unavailable),
        }),
{
    if str_eq(value, "pause") {
        Ok(InstanceWritesAtLimit::Pause)
    } else if str_eq(value, "overage") {
        Ok(InstanceWritesAtLimit::Overage)
    } else {
        Err(InstanceServiceError::Unavailable)
    }
}

/// Reading the stored name of a writes-at-limit policy gives the same value back.
pub proof fn law_writes_at_limit_named_round_trip(value: InstanceWritesAtLimit)
    ensures
        writes_at_limit_named(writes_at_limit_label(value)) == Some(value),
{
    reveal_strlit("pause");
    reveal_strlit("overage");
    assert("pause"@.len() == 5);
    assert("overage"@.len() == 7);
}

/// The stored name of a signups-at-limit policy.
pub open spec fn signups_at_limit_label(value: InstanceSignupsAtLimit) -> Seq<char> {
    match value {
        InstanceSignupsAtLimit::Pause => "pause"@,
        InstanceSignupsAtLimit::Overage => "overage"@,
    }
}

/// The signups-at-limit policy stored under `value`, if any.
pub open spec fn signups_at_limit_named(value: Seq<char>) -> Option<InstanceSignupsAtLimit> {
    if value == "pause"@ {
        Some(InstanceSignupsAtLimit::Pause)
    } else if value == "overage"@ {
        Some(InstanceSignupsAtLimit::Overage)
    } else {
        None
    }
}

pub fn signups_at_limit_name(value: InstanceSignupsAtLimit) -> (r: &'static str)
    ensures
        r@ == signups_at_limit_label(value),
{
    match value {
        InstanceSignupsAtLimit::Pause => "pause",
        InstanceSignupsAtLimit::Overage => "overage",
    }
}

/// Reads a stored signups-at-limit policy; an unknown name means the stored state is unusable.
pub fn parse_signups_at_limit(value: &str) -> (r: Result<InstanceSignupsAtLimit, InstanceServiceError>)
    ensures
        r == (match signups_at_limit_named(value@) {
            Some(v) => Ok(v),
            None => Err(InstanceServiceError::Unavailable),
        }),
{
    if str_eq(value, "pause") {
        Ok(InstanceSignupsAtLimit::Pause)
    } else if str_eq(value, "overage") {
        Ok(InstanceSignupsAtLimit::Overage)
    } else {
        Err(InstanceServiceError::Unavailable)
    }
}

/// Reading the stored name of a signups-at-limit policy gives the same value back.
pub proof fn law_signups_at_limit_named_round_trip(value: InstanceSignupsAtLimit)
    ensures
        signups_at_limit_named(signups_at_limit_label(value)) == Some(value),
{
    reveal_strlit("pause");
    reveal_strlit("overage");
    assert("pause"@.len() == 5);
    assert("overage"@.len() == 7);
}

} // verus!
