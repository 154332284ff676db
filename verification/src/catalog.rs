//! The provider catalog of an instance: the usage events and meters it is
//! built from, the graduated prices each plan is sold at, the forms that
//! provision them, and the checks that a provider price still matches.
use vstd::prelude::*;
use vstd::string::{StrSliceExecFns, StringExecFns, StringSliceAdditionalSpecFns};
use crate::billing::{UsageMetric, metric_name};
use crate::instance::{InstanceServiceError, STORAGE_BILLING_UNIT_BYTES};
use crate::plans::{PlatformBillingTier, tier_label, tier_name};
use crate::provider::{
    STRIPE_CATALOG_VERSION, normalize_decimal, normalized_decimal, provider_id_ok,
    valid_provider_id,
};
use vstd::utf8::encode_utf8;
use crate::text::{
    ByteClass, all_in_class, ascii_chars, bytes_in_class, decimal_bytes, decimal_string, str_eq,
};

verus! {

/// The provider event that carries one usage metric.
#[derive(Clone, Debug)]
pub struct InstanceStripeUsageEventConfig {
    pub metric: UsageMetric,
    pub event_name: String,
}

/// The provider meter and prices that bill one usage metric.
#[derive(Clone, Debug)]
pub struct StripeUsageMeterConfig {
    pub metric: UsageMetric,
    pub event_name: String,
    pub meter_id: String,
    pub payg_price_id: String,
    pub pro_price_id: String,
}

/// The provider objects that make up an instance catalog.
#[derive(Clone, Debug)]
pub struct InstanceStripeProviderCatalog {
    pub product_id: Option<String>,
    pub pro_base_price_id: String,
    pub usage_meters: Vec<StripeUsageMeterConfig>,
}

/// An event name: 3 to 100 lowercase letters, digits and `_`.
pub open spec fn event_name_ok(b: Seq<u8>) -> bool {
    3 <= b.len() <= 100 && all_in_class(b, ByteClass::NameChar)
}

/// Some event carries the metric `m`.
pub open spec fn event_covers(events: Seq<InstanceStripeUsageEventConfig>, m: UsageMetric) -> bool {
    exists|i: int| 0 <= i < events.len() && #[trigger] events[i].metric == m
}

/// Some meter bills the metric `m`.
pub open spec fn meter_covers(meters: Seq<StripeUsageMeterConfig>, m: UsageMetric) -> bool {
    exists|i: int| 0 <= i < meters.len() && #[trigger] meters[i].metric == m
}

/// One event per usage metric, each with a well-formed name, no two with the
/// same name.
pub open spec fn usage_events_ok(events: Seq<InstanceStripeUsageEventConfig>) -> bool {
    &&& events.len() == 4
    &&& forall|m: UsageMetric| #[trigger] event_covers(events, m)
    &&& forall|i: int|
        0 <= i < events.len() ==> event_name_ok(encode_utf8((#[trigger] events[i]).event_name@))
    &&& forall|i: int, j: int|
        0 <= i < events.len() && 0 <= j < events.len() && i != j ==> #[trigger] events[i].event_name@
            != #[trigger] events[j].event_name@
}

fn metric_present(events: &[InstanceStripeUsageEventConfig], m: UsageMetric) -> (r: bool)
    ensures
        r == event_covers(events@, m),
{
    let mut i: usize = 0;
    while i < events.len()
        invariant
            i <= events@.len(),
            forall|k: int| 0 <= k < i ==> events@[k].metric != m,
        decreases events@.len() - i,
    {
        if events[i].metric == m {
            return true;
        }
        i = i + 1;
    }
    false
}

fn all_metrics_present(events: &[InstanceStripeUsageEventConfig]) -> (r: bool)
    ensures
        r == forall|m: UsageMetric| #[trigger] event_covers(events@, m),
{
    let reads = metric_present(events, UsageMetric::Reads);
    let writes = metric_present(events, UsageMetric::Writes);
    let storage = metric_present(events, UsageMetric::StorageByteHours);
    let users = metric_present(events, UsageMetric::MonthlyActiveUsers);
    proof {
        assert forall|m: UsageMetric| reads && writes && storage && users implies #[trigger] event_covers(events@, m) by {
            match m {
                UsageMetric::Reads => {},
                UsageMetric::Writes => {},
                UsageMetric::StorageByteHours => {},
                UsageMetric::MonthlyActiveUsers => {},
            }
        }
    }
    reads && writes && storage && users
}

/// Checks the usage events of an instance billing configuration.
pub fn validate_usage_events(usage_events: &[InstanceStripeUsageEventConfig]) -> (r: Result<
    (),
    InstanceServiceError,
>)
    ensures
        r == (if usage_events_ok(usage_events@) {
            Ok(())
        } else {
            Err(InstanceServiceError::InvalidConfiguration)
        }),
{
    if usage_events.len() != 4 || !all_metrics_present(usage_events) {
        return Err(InstanceServiceError::InvalidConfiguration);
    }
    let n = usage_events.len();
    let mut i: usize = 0;
    while i < n
        invariant
            i <= n == usage_events@.len(),
            forall|k: int|
                0 <= k < i ==> event_name_ok(
                    encode_utf8((#[trigger] usage_events@[k]).event_name@),
                ),
        decreases n - i,
    {
        let b = usage_events[i].event_name.as_str().as_bytes();
        if b.len() < 3 || b.len() > 100 || !bytes_in_class(b, ByteClass::NameChar) {
            return Err(InstanceServiceError::InvalidConfiguration);
        }
        i = i + 1;
    }
    let mut a: usize = 0;
    while a < n
        invariant
            a <= n == usage_events@.len(),
            forall|x: int, y: int|
                0 <= x < a && 0 <= y < n && x != y ==> #[trigger] usage_events@[x].event_name@
                    != #[trigger] usage_events@[y].event_name@,
        decreases n - a,
    {
        let mut b: usize = 0;
        while b < n
            invariant
                a < n,
                b <= n == usage_events@.len(),
                forall|x: int, y: int|
                    0 <= x < a && 0 <= y < n && x != y ==> #[trigger] usage_events@[x].event_name@
                        != #[trigger] usage_events@[y].event_name@,
                forall|y: int|
                    0 <= y < b && a != y ==> usage_events@[a as int].event_name@
                        != #[trigger] usage_events@[y].event_name@,
            decreases n - b,
        {
            if a != b && str_eq(
                usage_events[a].event_name.as_str(),
                usage_events[b].event_name.as_str(),
            ) {
                return Err(InstanceServiceError::InvalidConfiguration);
            }
            b = b + 1;
        }
        a = a + 1;
    }
    Ok(())
}

/// The identifiers of one meter and its prices are well formed.
pub open spec fn meter_ids_ok(m: StripeUsageMeterConfig) -> bool {
    &&& provider_id_ok(encode_utf8(m.meter_id@), "mtr_".spec_bytes())
    &&& provider_id_ok(encode_utf8(m.payg_price_id@), "price_".spec_bytes())
    &&& provider_id_ok(encode_utf8(m.pro_price_id@), "price_".spec_bytes())
}

/// A catalog names a well-formed product (where it names one) and base
/// price, one meter per metric with well-formed identifiers, and usage
/// events that pass `usage_events_ok`.
pub open spec fn catalog_shape_ok(catalog: InstanceStripeProviderCatalog) -> bool {
    let meters = catalog.usage_meters@;
    &&& (catalog.product_id matches Some(p) ==> provider_id_ok(
        encode_utf8(p@),
        "prod_".spec_bytes(),
    ))
    &&& provider_id_ok(encode_utf8(catalog.pro_base_price_id@), "price_".spec_bytes())
    &&& meters.len() == 4
    &&& forall|m: UsageMetric| #[trigger] meter_covers(meters, m)
    &&& forall|i: int| 0 <= i < meters.len() ==> meter_ids_ok(#[trigger] meters[i])
    &&& forall|i: int|
        0 <= i < meters.len() ==> event_name_ok(encode_utf8((#[trigger] meters[i]).event_name@))
    &&& forall|i: int, j: int|
        0 <= i < meters.len() && 0 <= j < meters.len() && i != j ==> #[trigger] meters[i].event_name@
            != #[trigger] meters[j].event_name@
}

/// Checks the shape of a provider catalog before it is used.
pub fn validate_provider_catalog_shape(catalog: &InstanceStripeProviderCatalog) -> (r: Result<
    (),
    InstanceServiceError,
>)
    ensures
        r == (if catalog_shape_ok(*catalog) {
            Ok(())
        } else {
            Err(InstanceServiceError::InvalidConfiguration)
        }),
{
    let product_ok = match &catalog.product_id {
        Some(p) => valid_provider_id(p.as_str(), "prod_"),
        None => true,
    };
    if !product_ok || !valid_provider_id(catalog.pro_base_price_id.as_str(), "price_") {
        return Err(InstanceServiceError::InvalidConfiguration);
    }
    let meters = &catalog.usage_meters;
    let n = meters.len();
    let mut events: Vec<InstanceStripeUsageEventConfig> = Vec::new();
    let mut i: usize = 0;
    while i < n
        invariant
            i <= n == meters@.len(),
            meters@ == catalog.usage_meters@,
            events@.len() == i,
            forall|k: int|
                0 <= k < i ==> (#[trigger] events@[k]).metric == meters@[k].metric
                    && events@[k].event_name == meters@[k].event_name,
            forall|k: int| 0 <= k < i ==> meter_ids_ok(#[trigger] meters@[k]),
        decreases n - i,
    {
        let m = &meters[i];
        if !valid_provider_id(m.meter_id.as_str(), "mtr_") || !valid_provider_id(
            m.payg_price_id.as_str(),
            "price_",
        ) || !valid_provider_id(m.pro_price_id.as_str(), "price_") {
            proof {
                assert(!meter_ids_ok(meters@[i as int]));
            }
            return Err(InstanceServiceError::InvalidConfiguration);
        }
        events.push(
            InstanceStripeUsageEventConfig { metric: m.metric, event_name: m.event_name.clone() },
        );
        i = i + 1;
    }
    proof {
        let ev = events@;
        let ms = meters@;
        assert forall|m: UsageMetric| #[trigger] event_covers(ev, m) == meter_covers(ms, m) by {
            if event_covers(ev, m) {
                let i = choose|i: int| 0 <= i < ev.len() && #[trigger] ev[i].metric == m;
                assert(ms[i].metric == m);
            }
            if meter_covers(ms, m) {
                let i = choose|i: int| 0 <= i < ms.len() && #[trigger] ms[i].metric == m;
                assert(ev[i].metric == m);
            }
        }
        assert((forall|m: UsageMetric| #[trigger] event_covers(ev, m)) == (forall|m: UsageMetric|
            #[trigger] meter_covers(ms, m))) by {
            if forall|m: UsageMetric| #[trigger] event_covers(ev, m) {
                assert forall|m: UsageMetric| #[trigger] meter_covers(ms, m) by {
                    assert(event_covers(ev, m));
                }
            }
            if forall|m: UsageMetric| #[trigger] meter_covers(ms, m) {
                assert forall|m: UsageMetric| #[trigger] event_covers(ev, m) by {
                    assert(meter_covers(ms, m));
                }
            }
        }
        assert((forall|i: int|
            0 <= i < ev.len() ==> event_name_ok(encode_utf8((#[trigger] ev[i]).event_name@)))
            == (forall|i: int|
            0 <= i < ms.len() ==> event_name_ok(encode_utf8((#[trigger] ms[i]).event_name@))))
            by {
            if forall|i: int|
                0 <= i < ev.len() ==> event_name_ok(
                    encode_utf8((#[trigger] ev[i]).event_name@),
                ) {
                assert forall|i: int| 0 <= i < ms.len() implies event_name_ok(
                    encode_utf8((#[trigger] ms[i]).event_name@),
                ) by {
                    assert(ev[i].event_name == ms[i].event_name);
                }
            }
            if forall|i: int|
                0 <= i < ms.len() ==> event_name_ok(
                    encode_utf8((#[trigger] ms[i]).event_name@),
                ) {
                assert forall|i: int| 0 <= i < ev.len() implies event_name_ok(
                    encode_utf8((#[trigger] ev[i]).event_name@),
                ) by {
                    assert(ev[i].event_name == ms[i].event_name);
                }
            }
        }
        assert((forall|i: int, j: int|
            0 <= i < ev.len() && 0 <= j < ev.len() && i != j ==> #[trigger] ev[i].event_name@
                != #[trigger] ev[j].event_name@) == (forall|i: int, j: int|
            0 <= i < ms.len() && 0 <= j < ms.len() && i != j ==> #[trigger] ms[i].event_name@
                != #[trigger] ms[j].event_name@)) by {
            if forall|i: int, j: int|
                0 <= i < ev.len() && 0 <= j < ev.len() && i != j ==> #[trigger] ev[i].event_name@
                    != #[trigger] ev[j].event_name@ {
                assert forall|i: int, j: int|
                    0 <= i < ms.len() && 0 <= j < ms.len() && i != j implies #[trigger] ms[i].event_name@
                    != #[trigger] ms[j].event_name@ by {
                    assert(ev[i].event_name == ms[i].event_name);
                    assert(ev[j].event_name == ms[j].event_name);
                }
            }
            if forall|i: int, j: int|
                0 <= i < ms.len() && 0 <= j < ms.len() && i != j ==> #[trigger] ms[i].event_name@
                    != #[trigger] ms[j].event_name@ {
                assert forall|i: int, j: int|
                    0 <= i < ev.len() && 0 <= j < ev.len() && i != j implies #[trigger] ev[i].event_name@
                    != #[trigger] ev[j].event_name@ by {
                    assert(ev[i].event_name == ms[i].event_name);
                    assert(ev[j].event_name == ms[j].event_name);
                }
            }
        }
    }
    validate_usage_events(events.as_slice())
}


/// What a plan is provisioned from at the provider.
#[derive(Clone, Debug)]
pub struct StripeProvisioningPlan {
    pub tier: PlatformBillingTier,
    pub currency: String,
    pub base_price_cents: Option<u64>,
    pub storage_bytes: u64,
    pub monthly_reads: u64,
    pub monthly_writes: u64,
    pub monthly_active_users: u64,
}

/// One tier of a graduated provider price: the usage it reaches up to (or no
/// bound) and the decimal amount charged per unit within it.
#[derive(Clone, Copy, Debug, PartialEq, Eq)]
pub struct StripePriceTier {
    pub up_to: Option<u64>,
    pub unit_amount_decimal: &'static str,
}

/// Billed storage-byte-hours in a month of 730 hours.
pub const HOURS_PER_BILLING_MONTH: u64 = 730;

/// The usage a plan includes for a metric, in the metric's provider units;
/// storage is counted in billed units over a 730-hour month.
pub open spec fn included_allowance(metric: UsageMetric, plan: StripeProvisioningPlan) -> Option<u64> {
    match metric {
        UsageMetric::Reads => Some(plan.monthly_reads),
        UsageMetric::Writes => Some(plan.monthly_writes),
        UsageMetric::StorageByteHours => {
            let hours = (plan.storage_bytes / STORAGE_BILLING_UNIT_BYTES) * HOURS_PER_BILLING_MONTH;
            if hours <= u64::MAX {
                Some(hours as u64)
            } else {
                None
            }
        },
        UsageMetric::MonthlyActiveUsers => Some(plan.monthly_active_users),
    }
}

/// The usage above which a metric's later rate applies, where it has one.
pub open spec fn rate_breakpoint(metric: UsageMetric) -> Option<u64> {
    match metric {
        UsageMetric::Writes => Some(1_000_000u64),
        UsageMetric::MonthlyActiveUsers => Some(50_000u64),
        _ => None,
    }
}

/// The unit rate charged from the end of the allowance.
pub open spec fn first_rate(metric: UsageMetric) -> &'static str {
    match metric {
        UsageMetric::Reads => "0.000025",
        UsageMetric::Writes => "0.00015",
        UsageMetric::StorageByteHours => "0.000000027397",
        UsageMetric::MonthlyActiveUsers => "0.5",
    }
}

/// The unit rate charged above the breakpoint.
pub open spec fn later_rate(metric: UsageMetric) -> &'static str {
    match metric {
        UsageMetric::Reads => "0.000025",
        UsageMetric::Writes => "0.000225",
        UsageMetric::StorageByteHours => "0.000000027397",
        UsageMetric::MonthlyActiveUsers => "1.5",
    }
}

/// The graduated tiers of a metric's price: the allowance free, then the
/// first rate up to the breakpoint where the allowance ends below it, then
/// the rate that applies above everything else, without bound.
pub open spec fn price_tiers_of(metric: UsageMetric, plan: StripeProvisioningPlan) -> Option<
    Seq<StripePriceTier>,
> {
    match included_allowance(metric, plan) {
        None => None,
        Some(included) => {
            let head = seq![StripePriceTier { up_to: Some(included), unit_amount_decimal: "0" }];
            let middle = match rate_breakpoint(metric) {
                Some(b) => if included < b {
                    seq![StripePriceTier { up_to: Some(b), unit_amount_decimal: first_rate(metric) }]
                } else {
                    Seq::<StripePriceTier>::empty()
                },
                None => Seq::<StripePriceTier>::empty(),
            };
            let last = StripePriceTier {
                up_to: None,
                unit_amount_decimal: if rate_breakpoint(metric) is Some {
                    later_rate(metric)
                } else {
                    first_rate(metric)
                },
            };
            Some(head + middle + seq![last])
        },
    }
}

/// The graduated price tiers that bill `metric` under `plan`.
pub fn stripe_price_tiers(metric: UsageMetric, plan: &StripeProvisioningPlan) -> (r: Result<
    Vec<StripePriceTier>,
    InstanceServiceError,
>)
    ensures
        match r {
            Ok(v) => price_tiers_of(metric, *plan) == Some(v@),
            Err(e) => price_tiers_of(metric, *plan) is None && e
                == InstanceServiceError::InvalidConfiguration,
        },
        r matches Ok(v) ==> {
            &&& v@[0] == StripePriceTier {
                up_to: included_allowance(metric, *plan),
                unit_amount_decimal: "0",
            }
            &&& v@.last().up_to is None
            &&& forall|i: int, j: int|
                #![trigger v@[i], v@[j]]
                0 <= i < j < v@.len() - 1 ==> (v@[i].up_to matches Some(a) && v@[j].up_to matches Some(
                    b,
                ) && a < b)
        },
{
    let (included, breakpoint, first, later): (u64, Option<u64>, &'static str, &'static str) =
        match metric {
        UsageMetric::Reads => (plan.monthly_reads, None, "0.000025", "0.000025"),
        UsageMetric::Writes => (plan.monthly_writes, Some(1_000_000u64), "0.00015", "0.000225"),
        UsageMetric::StorageByteHours => {
            let units = plan.storage_bytes / STORAGE_BILLING_UNIT_BYTES;
            match units.checked_mul(HOURS_PER_BILLING_MONTH) {
                Some(hours) => (hours, None, "0.000000027397", "0.000000027397"),
                None => {
                    return Err(InstanceServiceError::InvalidConfiguration);
                },
            }
        },
        UsageMetric::MonthlyActiveUsers => (plan.monthly_active_users, Some(50_000u64), "0.5", "1.5"),
    };
    let mut tiers: Vec<StripePriceTier> = Vec::new();
    tiers.push(StripePriceTier { up_to: Some(included), unit_amount_decimal: "0" });
    match breakpoint {
        Some(b) => {
            if included < b {
                tiers.push(StripePriceTier { up_to: Some(b), unit_amount_decimal: first });
            }
        },
        None => {},
    }
    let last_rate = if breakpoint.is_some() {
        later
    } else {
        first
    };
    tiers.push(StripePriceTier { up_to: None, unit_amount_decimal: last_rate });
    proof {
        let spec = price_tiers_of(metric, *plan).unwrap();
        assert(tiers@ =~= spec);
    }
    Ok(tiers)
}


/// A provider form as text pairs.
pub open spec fn form_view(form: Seq<(String, String)>) -> Seq<(Seq<char>, Seq<char>)> {
    form.map_values(|e: (String, String)| (e.0@, e.1@))
}

/// The text of the catalog layout version.
pub open spec fn version_text() -> Seq<char> {
    ascii_chars(decimal_bytes(STRIPE_CATALOG_VERSION as nat))
}

/// The decimal text of `n`.
pub open spec fn number_text(n: nat) -> Seq<char> {
    ascii_chars(decimal_bytes(n))
}

fn entry(key: &str, value: &str) -> (r: (String, String))
    ensures
        r.0@ == key@,
        r.1@ == value@,
{
    (key.to_owned(), value.to_owned())
}

fn push_entry(form: &mut Vec<(String, String)>, key: &str, value: String)
    ensures
        form_view(final(form)@) == form_view(old(form)@).push((key@, value@)),
{
    form.push((key.to_owned(), value));
    proof {
        assert(form_view(final(form)@) =~= form_view(old(form)@).push((key@, value@)));
    }
}

fn text(value: &str) -> (r: String)
    ensures
        r@ == value@,
{
    value.to_owned()
}

/// The product that every plan price of the catalog belongs to.
pub fn stripe_product_form() -> (form: Vec<(String, String)>)
    ensures
        form_view(form@) == seq![
            ("name"@, "FFDB Platform"@),
            ("description"@, "FFDB organization plans and measured usage"@),
            ("metadata[ffdb_catalog_version]"@, version_text()),
        ],
{
    let mut form: Vec<(String, String)> = Vec::new();
    push_entry(&mut form, "name", text("FFDB Platform"));
    push_entry(&mut form, "description", text("FFDB organization plans and measured usage"));
    push_entry(&mut form, "metadata[ffdb_catalog_version]", decimal_string(STRIPE_CATALOG_VERSION));
    proof {
        assert(form_view(form@) =~= seq![
            ("name"@, "FFDB Platform"@),
            ("description"@, "FFDB organization plans and measured usage"@),
            ("metadata[ffdb_catalog_version]"@, version_text()),
        ]);
    }
    form
}

/// The monthly base price of the pro plan; the plan must carry a positive
/// base price.
pub fn stripe_base_price_form(product_id: &str, plan: &StripeProvisioningPlan) -> (r: Result<
    Vec<(String, String)>,
    InstanceServiceError,
>)
    ensures
        match plan.base_price_cents {
            Some(amount) if amount > 0 => r matches Ok(form) && form_view(form@) == seq![
                ("product"@, product_id@),
                ("currency"@, plan.currency@),
                ("unit_amount"@, number_text(amount as nat)),
                ("recurring[interval]"@, "month"@),
                ("nickname"@, "FFDB Pro base"@),
                ("metadata[ffdb_tier]"@, "pro"@),
                ("metadata[ffdb_catalog_version]"@, version_text()),
            ],
            _ => r == Err::<Vec<(String, String)>, _>(InstanceServiceError::InvalidConfiguration),
        },
{
    let amount = match plan.base_price_cents {
        Some(a) => {
            if a == 0 {
                return Err(InstanceServiceError::InvalidConfiguration);
            }
            a
        },
        None => {
            return Err(InstanceServiceError::InvalidConfiguration);
        },
    };
    let mut form: Vec<(String, String)> = Vec::new();
    push_entry(&mut form, "product", text(product_id));
    push_entry(&mut form, "currency", plan.currency.clone());
    push_entry(&mut form, "unit_amount", decimal_string(amount));
    push_entry(&mut form, "recurring[interval]", text("month"));
    push_entry(&mut form, "nickname", text("FFDB Pro base"));
    push_entry(&mut form, "metadata[ffdb_tier]", text("pro"));
    push_entry(&mut form, "metadata[ffdb_catalog_version]", decimal_string(STRIPE_CATALOG_VERSION));
    proof {
        assert(form_view(form@) =~= seq![
            ("product"@, product_id@),
            ("currency"@, plan.currency@),
            ("unit_amount"@, number_text(amount as nat)),
            ("recurring[interval]"@, "month"@),
            ("nickname"@, "FFDB Pro base"@),
            ("metadata[ffdb_tier]"@, "pro"@),
            ("metadata[ffdb_catalog_version]"@, version_text()),
        ]);
    }
    Ok(form)
}

/// `s` with every `_` written as a space.
pub open spec fn underscores_as_spaces(s: Seq<char>) -> Seq<char> {
    s.map_values(|c: char| if c == '_' { ' ' } else { c })
}

/// The metric's name as shown to people: its stored name with spaces.
fn metric_display(metric: UsageMetric) -> (r: &'static str)
    ensures
        r@ == underscores_as_spaces(metric_name(metric)@),
{
    match metric {
        UsageMetric::Reads => {
            proof {
                reveal_strlit("reads");
                assert(underscores_as_spaces("reads"@) =~= "reads"@);
            }
            "reads"
        },
        UsageMetric::Writes => {
            proof {
                reveal_strlit("writes");
                assert(underscores_as_spaces("writes"@) =~= "writes"@);
            }
            "writes"
        },
        UsageMetric::StorageByteHours => {
            proof {
                reveal_strlit("storage_byte_hours");
                reveal_strlit("storage byte hours");
                assert(underscores_as_spaces("storage_byte_hours"@) =~= "storage byte hours"@);
            }
            "storage byte hours"
        },
        UsageMetric::MonthlyActiveUsers => {
            proof {
                reveal_strlit("monthly_active_users");
                reveal_strlit("monthly active users");
                assert(underscores_as_spaces("monthly_active_users"@) =~= "monthly active users"@);
            }
            "monthly active users"
        },
    }
}

/// The provider meter that sums one metric's usage events per customer.
pub fn stripe_meter_form(event: &InstanceStripeUsageEventConfig) -> (form: Vec<(String, String)>)
    ensures
        form_view(form@) == seq![
            ("display_name"@, "FFDB "@ + underscores_as_spaces(metric_name(event.metric)@)),
            ("event_name"@, event.event_name@),
            ("default_aggregation[formula]"@, "sum"@),
            ("customer_mapping[type]"@, "by_id"@),
            ("customer_mapping[event_payload_key]"@, "stripe_customer_id"@),
            ("value_settings[event_payload_key]"@, "value"@),
        ],
{
    let mut display = String::new();
    display.append("FFDB ");
    display.append(metric_display(event.metric));
    let mut form: Vec<(String, String)> = Vec::new();
    push_entry(&mut form, "display_name", display);
    push_entry(&mut form, "event_name", event.event_name.clone());
    push_entry(&mut form, "default_aggregation[formula]", text("sum"));
    push_entry(&mut form, "customer_mapping[type]", text("by_id"));
    push_entry(&mut form, "customer_mapping[event_payload_key]", text("stripe_customer_id"));
    push_entry(&mut form, "value_settings[event_payload_key]", text("value"));
    proof {
        assert(form_view(form@) =~= seq![
            ("display_name"@, "FFDB "@ + underscores_as_spaces(metric_name(event.metric)@)),
            ("event_name"@, event.event_name@),
            ("default_aggregation[formula]"@, "sum"@),
            ("customer_mapping[type]"@, "by_id"@),
            ("customer_mapping[event_payload_key]"@, "stripe_customer_id"@),
            ("value_settings[event_payload_key]"@, "value"@),
        ]);
    }
    form
}

/// The form entries of one price tier at position `index`.
pub open spec fn tier_entries(index: nat, tier: StripePriceTier) -> Seq<(Seq<char>, Seq<char>)> {
    seq![
        (
            "tiers["@ + number_text(index) + "][up_to]"@,
            match tier.up_to {
                Some(v) => number_text(v as nat),
                None => "inf"@,
            },
        ),
        ("tiers["@ + number_text(index) + "][unit_amount_decimal]"@, tier.unit_amount_decimal@),
    ]
}

/// The form entries of a list of price tiers, numbered from zero.
pub open spec fn tiers_entries(tiers: Seq<StripePriceTier>) -> Seq<(Seq<char>, Seq<char>)>
    decreases tiers.len(),
{
    if tiers.len() == 0 {
        Seq::empty()
    } else {
        tiers_entries(tiers.drop_last()) + tier_entries((tiers.len() - 1) as nat, tiers.last())
    }
}

/// The header of a metered usage price, before its tiers.
pub open spec fn usage_price_header(
    product_id: Seq<char>,
    meter_id: Seq<char>,
    metric: UsageMetric,
    plan: StripeProvisioningPlan,
) -> Seq<(Seq<char>, Seq<char>)> {
    seq![
        ("product"@, product_id),
        ("currency"@, plan.currency@),
        ("recurring[interval]"@, "month"@),
        ("recurring[usage_type]"@, "metered"@),
        ("recurring[meter]"@, meter_id),
        ("billing_scheme"@, "tiered"@),
        ("tiers_mode"@, "graduated"@),
        ("nickname"@, "FFDB "@ + tier_label(plan.tier) + " "@ + metric_name(metric)@ + " usage"@),
        ("metadata[ffdb_tier]"@, tier_label(plan.tier)),
        ("metadata[ffdb_metric]"@, metric_name(metric)@),
        ("metadata[ffdb_catalog_version]"@, version_text()),
    ]
}

/// The metered, graduated price that bills `metric` under `plan` through
/// the meter `meter_id`.
pub fn stripe_usage_price_form(
    product_id: &str,
    meter_id: &str,
    metric: UsageMetric,
    plan: &StripeProvisioningPlan,
) -> (r: Result<Vec<(String, String)>, InstanceServiceError>)
    ensures
        match price_tiers_of(metric, *plan) {
            Some(tiers) => r matches Ok(form) && form_view(form@) == usage_price_header(
                product_id@,
                meter_id@,
                metric,
                *plan,
            ) + tiers_entries(tiers),
            None => r == Err::<Vec<(String, String)>, _>(InstanceServiceError::InvalidConfiguration),
        },
{
    let tiers = match stripe_price_tiers(metric, plan) {
        Ok(t) => t,
        Err(e) => {
            return Err(e);
        },
    };
    let mut nickname = String::new();
    nickname.append("FFDB ");
    nickname.append(tier_name(plan.tier));
    nickname.append(" ");
    nickname.append(metric.name());
    nickname.append(" usage");
    let mut form: Vec<(String, String)> = Vec::new();
    push_entry(&mut form, "product", text(product_id));
    push_entry(&mut form, "currency", plan.currency.clone());
    push_entry(&mut form, "recurring[interval]", text("month"));
    push_entry(&mut form, "recurring[usage_type]", text("metered"));
    push_entry(&mut form, "recurring[meter]", text(meter_id));
    push_entry(&mut form, "billing_scheme", text("tiered"));
    push_entry(&mut form, "tiers_mode", text("graduated"));
    push_entry(&mut form, "nickname", nickname);
    push_entry(&mut form, "metadata[ffdb_tier]", text(tier_name(plan.tier)));
    push_entry(&mut form, "metadata[ffdb_metric]", text(metric.name()));
    push_entry(&mut form, "metadata[ffdb_catalog_version]", decimal_string(STRIPE_CATALOG_VERSION));
    let ghost header = usage_price_header(product_id@, meter_id@, metric, *plan);
    proof {
        assert(form_view(form@) =~= header);
        assert(tiers@.take(0) =~= Seq::<StripePriceTier>::empty());
        assert(header + tiers_entries(tiers@.take(0)) =~= header);
    }
    let n = tiers.len();
    let mut i: usize = 0;
    while i < n
        invariant
            i <= n == tiers@.len(),
            n <= 3,
            form_view(form@) == header + tiers_entries(tiers@.take(i as int)),
        decreases n - i,
    {
        let tier = tiers[i];
        let mut up_key = String::new();
        up_key.append("tiers[");
        let index_text = decimal_string(i as u64);
        up_key.append(index_text.as_str());
        up_key.append("][up_to]");
        let up_value = match tier.up_to {
            Some(v) => decimal_string(v),
            None => text("inf"),
        };
        let mut amount_key = String::new();
        amount_key.append("tiers[");
        amount_key.append(index_text.as_str());
        amount_key.append("][unit_amount_decimal]");
        let ghost before = form@;
        form.push((up_key, up_value));
        form.push((amount_key, text(tier.unit_amount_decimal)));
        proof {
            let t = tiers@.take(i + 1);
            assert(t.drop_last() =~= tiers@.take(i as int));
            assert(t.last() == tier);
            assert(form_view(form@) =~= form_view(before) + tier_entries(i as nat, tier));
            assert(header + tiers_entries(t) =~= header + tiers_entries(tiers@.take(i as int))
                + tier_entries(i as nat, tier));
        }
        i = i + 1;
    }
    proof {
        assert(tiers@.take(n as int) =~= tiers@);
    }
    Ok(form)
}


/// One tier of a price as the provider reports it: each field holds the
/// value where the provider sent one of the expected JSON type.
#[derive(Clone, Debug)]
pub struct ProviderPriceTier {
    pub up_to: Option<u64>,
    pub unit_amount_decimal: Option<String>,
    pub unit_amount: Option<i64>,
    pub flat_amount_decimal: Option<String>,
    pub flat_amount: Option<i64>,
}

/// A price as the provider reports it. `recurring` tells whether the price
/// carries a recurring object; `recurring_meter` is the meter named in it,
/// written as text or as an object with an `id`.
#[derive(Clone, Debug)]
pub struct ProviderPrice {
    pub id: Option<String>,
    pub active: Option<bool>,
    pub currency: Option<String>,
    pub recurring: bool,
    pub recurring_meter: Option<String>,
    pub unit_amount: Option<u64>,
    pub billing_scheme: Option<String>,
    pub tiers_mode: Option<String>,
    pub tiers: Option<Vec<ProviderPriceTier>>,
}

/// The optional text is present and equal to `expected`.
pub open spec fn text_is(value: Option<String>, expected: Seq<char>) -> bool {
    value matches Some(v) && v@ == expected
}

/// A provider price is the one the catalog expects: same identifier, active,
/// same currency, recurring, and, where the catalog fixes them, the same
/// unit amount and meter.
pub open spec fn price_matches(
    payload: ProviderPrice,
    expected_id: Seq<char>,
    expected_currency: Seq<char>,
    expected_unit_amount: Option<u64>,
    expected_meter_id: Option<Seq<char>>,
) -> bool {
    &&& text_is(payload.id, expected_id)
    &&& payload.active == Some(true)
    &&& text_is(payload.currency, expected_currency)
    &&& payload.recurring
    &&& (expected_unit_amount matches Some(a) ==> payload.unit_amount == Some(a))
    &&& (expected_meter_id matches Some(m) ==> text_is(payload.recurring_meter, m))
}

fn text_equals(value: &Option<String>, expected: &str) -> (r: bool)
    ensures
        r == text_is(*value, expected@),
{
    match value {
        Some(v) => str_eq(v.as_str(), expected),
        None => false,
    }
}

/// Checks that a provider price is still the one the catalog provisioned.
pub fn validate_stripe_price(
    payload: &ProviderPrice,
    expected_id: &str,
    expected_currency: &str,
    expected_unit_amount: Option<u64>,
    expected_meter_id: Option<&str>,
) -> (r: Result<(), InstanceServiceError>)
    ensures
        r == (if price_matches(
            *payload,
            expected_id@,
            expected_currency@,
            expected_unit_amount,
            match expected_meter_id {
                Some(m) => Some(m@),
                None => None,
            },
        ) {
            Ok(())
        } else {
            Err(InstanceServiceError::ProviderCatalogConflict)
        }),
{
    if !text_equals(&payload.id, expected_id) || payload.active != Some(true) || !text_equals(
        &payload.currency,
        expected_currency,
    ) || !payload.recurring {
        return Err(InstanceServiceError::ProviderCatalogConflict);
    }
    match expected_unit_amount {
        Some(expected) => {
            if payload.unit_amount != Some(expected) {
                return Err(InstanceServiceError::ProviderCatalogConflict);
            }
        },
        None => {},
    }
    match expected_meter_id {
        Some(expected) => {
            if !text_equals(&payload.recurring_meter, expected) {
                return Err(InstanceServiceError::ProviderCatalogConflict);
            }
        },
        None => {},
    }
    Ok(())
}

/// The per-unit amount a reported tier charges: its decimal text, or else
/// its integer amount, which only a zero makes comparable.
pub open spec fn reported_amount(tier: ProviderPriceTier) -> Option<Seq<char>> {
    match tier.unit_amount_decimal {
        Some(text) => Some(text@),
        None => match tier.unit_amount {
            Some(v) => Some(if v == 0 { "0"@ } else { ""@ }),
            None => None,
        },
    }
}

/// A reported tier charges what the expected tier charges, up to the same
/// bound, with no flat fee.
pub open spec fn tier_matches(actual: ProviderPriceTier, expected: StripePriceTier) -> bool {
    &&& actual.up_to == expected.up_to
    &&& reported_amount(actual) matches Some(amount) && normalized_decimal(amount)
        == normalized_decimal(expected.unit_amount_decimal@)
    &&& (actual.flat_amount_decimal matches Some(f) ==> normalized_decimal(f@) == "0"@)
    &&& (actual.flat_amount matches Some(f) ==> f == 0)
}

/// A reported price is graduated and tiered exactly as expected.
pub open spec fn tiers_match(payload: ProviderPrice, expected: Seq<StripePriceTier>) -> bool {
    &&& text_is(payload.billing_scheme, "tiered"@)
    &&& text_is(payload.tiers_mode, "graduated"@)
    &&& payload.tiers matches Some(actual) && actual@.len() == expected.len() && forall|i: int|
        0 <= i < expected.len() ==> tier_matches(#[trigger] actual@[i], expected[i])
}

fn tier_matches_exec(actual: &ProviderPriceTier, expected: &StripePriceTier) -> (r: bool)
    ensures
        r == tier_matches(*actual, *expected),
{
    if actual.up_to != expected.up_to {
        return false;
    }
    let amount: &str = match &actual.unit_amount_decimal {
        Some(text) => text.as_str(),
        None => match actual.unit_amount {
            Some(v) => if v == 0 {
                "0"
            } else {
                ""
            },
            None => {
                return false;
            },
        },
    };
    if !str_eq(normalize_decimal(amount), normalize_decimal(expected.unit_amount_decimal)) {
        return false;
    }
    match &actual.flat_amount_decimal {
        Some(f) => {
            if !str_eq(normalize_decimal(f.as_str()), "0") {
                return false;
            }
        },
        None => {},
    }
    match actual.flat_amount {
        Some(f) => f == 0,
        None => true,
    }
}

/// Checks that a provider price is graduated and tiered exactly as the plan
/// expects.
pub fn validate_stripe_price_tiers(payload: &ProviderPrice, expected: &[StripePriceTier]) -> (r:
    Result<(), InstanceServiceError>)
    ensures
        r == (if tiers_match(*payload, expected@) {
            Ok(())
        } else {
            Err(InstanceServiceError::ProviderCatalogConflict)
        }),
{
    if !text_equals(&payload.billing_scheme, "tiered") || !text_equals(
        &payload.tiers_mode,
        "graduated",
    ) {
        return Err(InstanceServiceError::ProviderCatalogConflict);
    }
    let actual = match &payload.tiers {
        Some(t) => t,
        None => {
            return Err(InstanceServiceError::ProviderCatalogConflict);
        },
    };
    if actual.len() != expected.len() {
        return Err(InstanceServiceError::ProviderCatalogConflict);
    }
    let n = expected.len();
    let mut i: usize = 0;
    while i < n
        invariant
            i <= n == expected@.len() == actual@.len(),
            payload.tiers == Some(*actual),
            forall|k: int| 0 <= k < i ==> tier_matches(#[trigger] actual@[k], expected@[k]),
        decreases n - i,
    {
        if !tier_matches_exec(&actual[i], &expected[i]) {
            return Err(InstanceServiceError::ProviderCatalogConflict);
        }
        i = i + 1;
    }
    Ok(())
}


/// The usage events an instance reports when it is not configured with its
/// own: one per metric, named `ffdb_` and the metric (storage in decimal
/// kilobyte-hours).
pub fn default_usage_events() -> (r: Vec<InstanceStripeUsageEventConfig>)
    ensures
        r@.map_values(|e: InstanceStripeUsageEventConfig| (e.metric, e.event_name@)) == seq![
            (UsageMetric::Reads, "ffdb_reads"@),
            (UsageMetric::Writes, "ffdb_writes"@),
            (UsageMetric::StorageByteHours, "ffdb_storage_kilobyte_hours"@),
            (UsageMetric::MonthlyActiveUsers, "ffdb_monthly_active_users"@),
        ],
{
    let mut r: Vec<InstanceStripeUsageEventConfig> = Vec::new();
    r.push(InstanceStripeUsageEventConfig { metric: UsageMetric::Reads, event_name: text("ffdb_reads") });
    r.push(InstanceStripeUsageEventConfig { metric: UsageMetric::Writes, event_name: text("ffdb_writes") });
    r.push(
        InstanceStripeUsageEventConfig {
            metric: UsageMetric::StorageByteHours,
            event_name: text("ffdb_storage_kilobyte_hours"),
        },
    );
    r.push(
        InstanceStripeUsageEventConfig {
            metric: UsageMetric::MonthlyActiveUsers,
            event_name: text("ffdb_monthly_active_users"),
        },
    );
    proof {
        assert(r@.map_values(|e: InstanceStripeUsageEventConfig| (e.metric, e.event_name@)) =~= seq![
            (UsageMetric::Reads, "ffdb_reads"@),
            (UsageMetric::Writes, "ffdb_writes"@),
            (UsageMetric::StorageByteHours, "ffdb_storage_kilobyte_hours"@),
            (UsageMetric::MonthlyActiveUsers, "ffdb_monthly_active_users"@),
        ]);
    }
    r
}

/// How a metric is described in the usage catalog: its display name and
/// unit.
pub open spec fn usage_catalog_entry(metric: UsageMetric) -> (Seq<char>, Seq<char>) {
    match metric {
        UsageMetric::Reads => ("Successful SQL read statements"@, "statement"@),
        UsageMetric::Writes => ("Successful SQL write statements"@, "statement"@),
        UsageMetric::StorageByteHours => (
            "Logical storage usage reported in decimal kilobyte-hours"@,
            "kilobyte_hour"@,
        ),
        UsageMetric::MonthlyActiveUsers => ("Distinct monthly active users"@, "user"@),
    }
}

pub fn usage_catalog_labels(metric: UsageMetric) -> (r: (&'static str, &'static str))
    ensures
        (r.0@, r.1@) == usage_catalog_entry(metric),
{
    match metric {
        UsageMetric::Reads => ("Successful SQL read statements", "statement"),
        UsageMetric::Writes => ("Successful SQL write statements", "statement"),
        UsageMetric::StorageByteHours => (
            "Logical storage usage reported in decimal kilobyte-hours",
            "kilobyte_hour",
        ),
        UsageMetric::MonthlyActiveUsers => ("Distinct monthly active users", "user"),
    }
}

} // verus!
