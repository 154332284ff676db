use ffdb_api::billing::UsageMetric;
use ffdb_api::ids::UserId;
use ffdb_api::instance::{SetupCurrent, SetupKind, SetupPlan, complete_setup_plan};
use ffdb_api::catalog::{
    InstanceStripeProviderCatalog, InstanceStripeUsageEventConfig, ProviderPrice, ProviderPriceTier,
    StripePriceTier, StripeProvisioningPlan, StripeUsageMeterConfig, stripe_base_price_form,
    stripe_meter_form, stripe_price_tiers, stripe_product_form, stripe_usage_price_form,
    validate_provider_catalog_shape, validate_stripe_price, validate_stripe_price_tiers,
    validate_usage_events,
};
use ffdb_api::instance::{
    InstanceAdministratorRole, InstanceDeploymentMode, InstanceServiceError, MAX_PAGE_SIZE,
    OrganizationCreationPolicy, PageQuery, authorize_instance_role, authorize_user_disable,
    billing_mode_capabilities, creation_policy_allows, deployment_mode_clears_billing,
    ensure_billing_reconfiguration_safe, ensure_instance_setup_complete, parse_deployment_mode,
    deployment_mode_name, service_error, setup_completion_ready, validate_reason,
};
use ffdb_api::plans::{
    InstancePlanCatalogEntry, InstanceReadsAtLimit, InstanceSignupsAtLimit, InstanceWritesAtLimit,
    PlatformBillingTier, PlatformBillingUnit, PutInstancePlanCatalogEntryRequest, parse_tier,
    provider_pricing_fields_match, tier_name, validate_plan,
};
use ffdb_api::provider::{
    catalog_idempotency_key, normalize_decimal, valid_provider_id, validate_catalog_account,
    validate_country, validate_email, validate_provider_idempotency_key,
    validate_stripe_secret_key, validate_stripe_webhook_secret,
};

fn valid_plan(tier: PlatformBillingTier) -> PutInstancePlanCatalogEntryRequest {
    PutInstancePlanCatalogEntryRequest {
        display_name: "Plan".to_owned(),
        billing_unit: PlatformBillingUnit::Organization,
        base_price_cents: match tier {
            PlatformBillingTier::Free => Some(0),
            PlatformBillingTier::PayAsYouGo => None,
            PlatformBillingTier::Pro => Some(700),
        },
        currency: "usd".to_owned(),
        project_limit: (tier == PlatformBillingTier::Free).then_some(2),
        storage_bytes: 1_000_000_000,
        monthly_reads: 1_000_000,
        monthly_writes: 50_000,
        monthly_active_users: 5_000,
        overage_enabled: tier != PlatformBillingTier::Free,
        reads_at_limit: if tier == PlatformBillingTier::Free {
            InstanceReadsAtLimit::Continue
        } else {
            InstanceReadsAtLimit::Overage
        },
        writes_at_limit: if tier == PlatformBillingTier::Free {
            InstanceWritesAtLimit::Pause
        } else {
            InstanceWritesAtLimit::Overage
        },
        signups_at_limit: if tier == PlatformBillingTier::Free {
            InstanceSignupsAtLimit::Pause
        } else {
            InstanceSignupsAtLimit::Overage
        },
        requires_payment_method_for_overage: tier != PlatformBillingTier::Free,
        active: true,
    }
}

fn catalog_plan(tier: PlatformBillingTier) -> InstancePlanCatalogEntry {
    let plan = valid_plan(tier);
    InstancePlanCatalogEntry {
        tier,
        display_name: plan.display_name.clone(),
        billing_unit: plan.billing_unit,
        base_price_cents: plan.base_price_cents,
        currency: plan.currency.clone(),
        project_limit: plan.project_limit,
        storage_bytes: plan.storage_bytes,
        monthly_reads: plan.monthly_reads,
        monthly_writes: plan.monthly_writes,
        monthly_active_users: plan.monthly_active_users,
        overage_enabled: plan.overage_enabled,
        reads_at_limit: plan.reads_at_limit,
        writes_at_limit: plan.writes_at_limit,
        signups_at_limit: plan.signups_at_limit,
        requires_payment_method_for_overage: plan.requires_payment_method_for_overage,
        active: plan.active,
        provider_catalog_bound: true,
        updated_at_ms: 1,
    }
}

#[test]
fn catalog_validation_preserves_tier_invariants() {
    for tier in [
        PlatformBillingTier::Free,
        PlatformBillingTier::PayAsYouGo,
        PlatformBillingTier::Pro,
    ] {
        assert_eq!(validate_plan(tier, &valid_plan(tier)), Ok(()));
    }
    let mut free = valid_plan(PlatformBillingTier::Free);
    free.active = false;
    assert_eq!(
        validate_plan(PlatformBillingTier::Free, &free),
        Err(InstanceServiceError::InvalidRequest)
    );
    let mut payg = valid_plan(PlatformBillingTier::PayAsYouGo);
    payg.overage_enabled = false;
    assert_eq!(
        validate_plan(PlatformBillingTier::PayAsYouGo, &payg),
        Err(InstanceServiceError::InvalidRequest)
    );
}

#[test]
fn plan_fields_are_bounded() {
    let mut plan = valid_plan(PlatformBillingTier::Pro);
    plan.currency = "USD".to_owned();
    assert_eq!(validate_plan(PlatformBillingTier::Pro, &plan), Err(InstanceServiceError::InvalidRequest));
    let mut plan = valid_plan(PlatformBillingTier::Pro);
    plan.storage_bytes = 1_000_000_001;
    assert_eq!(validate_plan(PlatformBillingTier::Pro, &plan), Err(InstanceServiceError::InvalidRequest));
    let mut plan = valid_plan(PlatformBillingTier::Pro);
    plan.display_name = "   ".to_owned();
    assert_eq!(validate_plan(PlatformBillingTier::Pro, &plan), Err(InstanceServiceError::InvalidRequest));
    let mut plan = valid_plan(PlatformBillingTier::Pro);
    plan.display_name = "é".repeat(100);
    assert_eq!(validate_plan(PlatformBillingTier::Pro, &plan), Ok(()));
    plan.display_name = "é".repeat(101);
    assert_eq!(validate_plan(PlatformBillingTier::Pro, &plan), Err(InstanceServiceError::InvalidRequest));
    let mut plan = valid_plan(PlatformBillingTier::Pro);
    plan.base_price_cents = Some(0);
    assert_eq!(validate_plan(PlatformBillingTier::Pro, &plan), Err(InstanceServiceError::InvalidRequest));
    let mut plan = valid_plan(PlatformBillingTier::Pro);
    plan.monthly_reads = 9_007_199_254_740_992;
    assert_eq!(validate_plan(PlatformBillingTier::Pro, &plan), Err(InstanceServiceError::InvalidRequest));
}

#[test]
fn plan_mutation_allows_owner_and_admin_but_rejects_ordinary_users() {
    assert_eq!(
        authorize_instance_role(Some(InstanceAdministratorRole::Owner), false),
        Ok(InstanceAdministratorRole::Owner)
    );
    assert_eq!(
        authorize_instance_role(Some(InstanceAdministratorRole::Admin), false),
        Ok(InstanceAdministratorRole::Admin)
    );
    assert_eq!(
        authorize_instance_role(None, false),
        Err(InstanceServiceError::Forbidden)
    );
    assert_eq!(
        authorize_instance_role(Some(InstanceAdministratorRole::Admin), true),
        Err(InstanceServiceError::Forbidden)
    );
}

#[test]
fn organization_creation_policy_distinguishes_invited_members() {
    assert!(creation_policy_allows(OrganizationCreationPolicy::Authenticated, false, false));
    assert!(creation_policy_allows(OrganizationCreationPolicy::OwnerOnly, true, false));
    assert!(!creation_policy_allows(OrganizationCreationPolicy::OwnerOnly, false, true));
    assert!(creation_policy_allows(OrganizationCreationPolicy::InvitationOnly, false, true));
    assert!(!creation_policy_allows(OrganizationCreationPolicy::InvitationOnly, false, false));
}

#[test]
fn provider_bound_plan_rejects_local_pricing_and_billing_unit_drift() {
    let current = catalog_plan(PlatformBillingTier::Pro);
    let requested = valid_plan(PlatformBillingTier::Pro);
    assert!(provider_pricing_fields_match(&current, &requested));

    let mut changed_allowance = requested.clone();
    changed_allowance.monthly_reads += 1;
    assert!(!provider_pricing_fields_match(&current, &changed_allowance));

    let mut changed_billing_unit = requested;
    changed_billing_unit.billing_unit = PlatformBillingUnit::Seat;
    assert!(!provider_pricing_fields_match(&current, &changed_billing_unit));
}

#[test]
fn user_disable_protects_owner_and_last_enabled_administrator() {
    assert_eq!(
        authorize_user_disable(true, Some("owner"), false, 5),
        Err(InstanceServiceError::Forbidden)
    );
    assert_eq!(
        authorize_user_disable(true, Some("admin"), true, 0),
        Err(InstanceServiceError::Conflict)
    );
    assert_eq!(authorize_user_disable(true, Some("admin"), true, 1), Ok(()));
    assert_eq!(authorize_user_disable(true, None, false, 0), Ok(()));
    assert_eq!(authorize_user_disable(false, Some("owner"), false, 0), Ok(()));
}

#[test]
fn reasons_are_trimmed_and_bounded() {
    assert_eq!(validate_reason("  incident  "), Ok("incident"));
    assert_eq!(validate_reason(""), Err(InstanceServiceError::InvalidRequest));
    assert_eq!(
        validate_reason(&"x".repeat(501)),
        Err(InstanceServiceError::InvalidRequest)
    );
}

#[test]
fn reasons_count_characters_not_bytes() {
    assert_eq!(validate_reason(&"é".repeat(500)).map(|r| r.chars().count()), Ok(500));
    assert_eq!(validate_reason("\u{3000}\t "), Err(InstanceServiceError::InvalidRequest));
}

#[test]
fn pagination_is_bounded() {
    assert!(
        PageQuery {
            limit: MAX_PAGE_SIZE,
            offset: i64::MAX as u64
        }
        .validated()
        .is_ok()
    );
    assert!(
        PageQuery {
            limit: MAX_PAGE_SIZE + 1,
            offset: 0
        }
        .validated()
        .is_err()
    );
}

#[test]
fn pagination_rejects_empty_pages_and_huge_offsets() {
    assert!(PageQuery { limit: 0, offset: 0 }.validated().is_err());
    assert!(PageQuery { limit: 1, offset: i64::MAX as u64 + 1 }.validated().is_err());
    assert_eq!(ffdb_api::instance::default_page_size(), 100);
}

fn provisioning_plan(tier: PlatformBillingTier) -> StripeProvisioningPlan {
    StripeProvisioningPlan {
        tier,
        currency: "usd".into(),
        base_price_cents: (tier == PlatformBillingTier::Pro).then_some(700),
        storage_bytes: if tier == PlatformBillingTier::Pro {
            10_000_000_000
        } else {
            1_000_000_000
        },
        monthly_reads: if tier == PlatformBillingTier::Pro {
            15_000_000
        } else {
            1_000_000
        },
        monthly_writes: if tier == PlatformBillingTier::Pro {
            750_000
        } else {
            50_000
        },
        monthly_active_users: if tier == PlatformBillingTier::Pro {
            50_000
        } else {
            5_000
        },
    }
}

#[test]
fn provisioned_prices_encode_allowances_and_prototype_rates() {
    let payg = provisioning_plan(PlatformBillingTier::PayAsYouGo);
    assert_eq!(
        stripe_price_tiers(UsageMetric::Reads, &payg),
        Ok(vec![
            StripePriceTier { up_to: Some(1_000_000), unit_amount_decimal: "0" },
            StripePriceTier { up_to: None, unit_amount_decimal: "0.000025" },
        ])
    );
    assert_eq!(
        stripe_price_tiers(UsageMetric::Writes, &payg),
        Ok(vec![
            StripePriceTier { up_to: Some(50_000), unit_amount_decimal: "0" },
            StripePriceTier { up_to: Some(1_000_000), unit_amount_decimal: "0.00015" },
            StripePriceTier { up_to: None, unit_amount_decimal: "0.000225" },
        ])
    );
    assert_eq!(
        stripe_price_tiers(UsageMetric::MonthlyActiveUsers, &payg),
        Ok(vec![
            StripePriceTier { up_to: Some(5_000), unit_amount_decimal: "0" },
            StripePriceTier { up_to: Some(50_000), unit_amount_decimal: "0.5" },
            StripePriceTier { up_to: None, unit_amount_decimal: "1.5" },
        ])
    );
    let pro = provisioning_plan(PlatformBillingTier::Pro);
    assert_eq!(
        stripe_price_tiers(UsageMetric::MonthlyActiveUsers, &pro),
        Ok(vec![
            StripePriceTier { up_to: Some(50_000), unit_amount_decimal: "0" },
            StripePriceTier { up_to: None, unit_amount_decimal: "1.5" },
        ])
    );
    assert_eq!(
        stripe_price_tiers(UsageMetric::StorageByteHours, &payg),
        Ok(vec![
            StripePriceTier { up_to: Some(1_000_000 * 730), unit_amount_decimal: "0" },
            StripePriceTier { up_to: None, unit_amount_decimal: "0.000000027397" },
        ])
    );
}

#[test]
fn storage_allowance_counts_whole_units_over_a_month() {
    let mut plan = provisioning_plan(PlatformBillingTier::PayAsYouGo);
    plan.storage_bytes = u64::MAX;
    assert_eq!(
        stripe_price_tiers(UsageMetric::StorageByteHours, &plan).map(|t| t[0].up_to),
        Ok(Some(u64::MAX / 1_000 * 730))
    );
    plan.storage_bytes = 1_999;
    assert_eq!(
        stripe_price_tiers(UsageMetric::StorageByteHours, &plan).map(|t| t[0].up_to),
        Ok(Some(730))
    );
}

#[test]
fn capability_flags_and_non_billing_transitions_fail_closed() {
    assert_eq!(billing_mode_capabilities(false), (false, false));
    assert_eq!(billing_mode_capabilities(true), (true, true));
    assert!(setup_completion_ready(InstanceDeploymentMode::Private, "restricted", false));
    assert!(!setup_completion_ready(InstanceDeploymentMode::Unconfigured, "enabled", true));
    assert_eq!(ensure_instance_setup_complete(true), Ok(()));
    assert_eq!(
        ensure_instance_setup_complete(false),
        Err(InstanceServiceError::SetupRequired)
    );
    assert!(!setup_completion_ready(InstanceDeploymentMode::PlatformConnect, "onboarding", false));
    assert!(!setup_completion_ready(InstanceDeploymentMode::PlatformConnect, "enabled", false));
    assert!(setup_completion_ready(InstanceDeploymentMode::PlatformConnect, "enabled", true));
    assert!(deployment_mode_clears_billing(InstanceDeploymentMode::Private));
    assert!(deployment_mode_clears_billing(InstanceDeploymentMode::Team));
    assert!(!deployment_mode_clears_billing(InstanceDeploymentMode::PlatformConnect));
    assert_eq!(
        ensure_billing_reconfiguration_safe(
            InstanceDeploymentMode::PlatformByo,
            InstanceDeploymentMode::Private,
            Some("byo_keys"),
            Some("acct_current"),
            true,
        ),
        Err(InstanceServiceError::BillingInUse)
    );
    assert_eq!(
        ensure_billing_reconfiguration_safe(
            InstanceDeploymentMode::PlatformByo,
            InstanceDeploymentMode::PlatformConnect,
            Some("byo_keys"),
            Some("acct_current"),
            true,
        ),
        Err(InstanceServiceError::BillingInUse)
    );
    assert_eq!(
        ensure_billing_reconfiguration_safe(
            InstanceDeploymentMode::PlatformByo,
            InstanceDeploymentMode::PlatformByo,
            Some("byo_keys"),
            Some("acct_current"),
            true,
        ),
        Ok(())
    );
    assert_eq!(
        ensure_billing_reconfiguration_safe(
            InstanceDeploymentMode::PlatformByo,
            InstanceDeploymentMode::Private,
            Some("byo_keys"),
            Some("acct_current"),
            false,
        ),
        Ok(())
    );
}

#[test]
fn billing_in_use_error_contract_is_stable() {
    let reply = service_error(InstanceServiceError::BillingInUse);
    assert_eq!(reply.status, 409);
    assert_eq!(reply.code, "instance.billing_in_use");
    assert_eq!(
        reply.message,
        "cancel and reconcile every organization subscription before changing the instance billing provider"
    );
}

#[test]
fn deployment_mode_names_round_trip() {
    for mode in [
        InstanceDeploymentMode::Unconfigured,
        InstanceDeploymentMode::Private,
        InstanceDeploymentMode::Team,
        InstanceDeploymentMode::PlatformByo,
        InstanceDeploymentMode::PlatformConnect,
    ] {
        assert_eq!(parse_deployment_mode(deployment_mode_name(mode)), Ok(mode));
    }
    assert_eq!(parse_deployment_mode("saas"), Err(InstanceServiceError::Unavailable));
    for tier in [PlatformBillingTier::Free, PlatformBillingTier::PayAsYouGo, PlatformBillingTier::Pro] {
        assert_eq!(parse_tier(tier_name(tier)), Ok(tier));
    }
    assert_eq!(tier_name(PlatformBillingTier::PayAsYouGo), "pay_as_you_go");
}

fn meters() -> Vec<StripeUsageMeterConfig> {
    [
        UsageMetric::Reads,
        UsageMetric::Writes,
        UsageMetric::StorageByteHours,
        UsageMetric::MonthlyActiveUsers,
    ]
    .iter()
    .map(|metric| StripeUsageMeterConfig {
        metric: *metric,
        event_name: format!("ffdb_{}", metric.name()),
        meter_id: format!("mtr_{}_12345678", metric.name()),
        payg_price_id: format!("price_payg_{}_12345678", metric.name()),
        pro_price_id: format!("price_pro_{}_12345678", metric.name()),
    })
    .collect()
}

#[test]
fn provider_deactivation_removes_the_runtime_delegate() {
    let usage_meters = meters();
    let catalog = InstanceStripeProviderCatalog {
        product_id: Some("prod_ffdb_12345678".into()),
        pro_base_price_id: "price_pro_base_12345678".into(),
        usage_meters: usage_meters.clone(),
    };
    assert_eq!(validate_provider_catalog_shape(&catalog), Ok(()));
    let events: Vec<InstanceStripeUsageEventConfig> = usage_meters
        .iter()
        .map(|meter| InstanceStripeUsageEventConfig {
            metric: meter.metric,
            event_name: meter.event_name.clone(),
        })
        .collect();
    assert_eq!(validate_usage_events(&events), Ok(()));
    assert_eq!(validate_stripe_secret_key("sk_test_1234567890123456"), Ok(()));
    assert_eq!(validate_stripe_webhook_secret("whsec_1234567890123456"), Ok(()));
}

#[test]
fn catalog_shape_rejects_duplicates_and_bad_identifiers() {
    let mut usage_meters = meters();
    usage_meters[1].event_name = usage_meters[0].event_name.clone();
    let catalog = InstanceStripeProviderCatalog {
        product_id: None,
        pro_base_price_id: "price_pro_base_12345678".into(),
        usage_meters,
    };
    assert_eq!(
        validate_provider_catalog_shape(&catalog),
        Err(InstanceServiceError::InvalidConfiguration)
    );
    let mut usage_meters = meters();
    usage_meters[2].meter_id = "mtr_short".into();
    let catalog = InstanceStripeProviderCatalog {
        product_id: None,
        pro_base_price_id: "price_pro_base_12345678".into(),
        usage_meters,
    };
    assert_eq!(
        validate_provider_catalog_shape(&catalog),
        Err(InstanceServiceError::InvalidConfiguration)
    );
    let catalog = InstanceStripeProviderCatalog {
        product_id: Some("product_12345678".into()),
        pro_base_price_id: "price_pro_base_12345678".into(),
        usage_meters: meters(),
    };
    assert_eq!(
        validate_provider_catalog_shape(&catalog),
        Err(InstanceServiceError::InvalidConfiguration)
    );
    let mut three = meters();
    three.pop();
    let events: Vec<InstanceStripeUsageEventConfig> = three
        .iter()
        .map(|m| InstanceStripeUsageEventConfig { metric: m.metric, event_name: m.event_name.clone() })
        .collect();
    assert_eq!(validate_usage_events(&events), Err(InstanceServiceError::InvalidConfiguration));
}

#[test]
fn repeat_and_partial_byo_or_connect_provisioning_use_stable_resource_keys() {
    let account = "acct_catalog_12345678";
    let resources = [
        "product",
        "pro-base",
        "meter-reads",
        "price-payg-reads",
        "price-pro-reads",
        "meter-writes",
        "price-payg-writes",
        "price-pro-writes",
        "meter-storage_byte_hours",
        "price-payg-storage_byte_hours",
        "price-pro-storage_byte_hours",
        "meter-monthly_active_users",
        "price-payg-monthly_active_users",
        "price-pro-monthly_active_users",
    ];
    let first = resources
        .iter()
        .map(|resource| catalog_idempotency_key(account, resource))
        .collect::<Result<Vec<_>, _>>();
    let retry = resources
        .iter()
        .map(|resource| catalog_idempotency_key(account, resource))
        .collect::<Result<Vec<_>, _>>();
    assert_eq!(first, retry);
    let keys = first.expect("keys");
    let retry_keys = retry.expect("keys");
    assert_eq!(keys.len(), 14);
    let mut unique = keys.clone();
    unique.sort_unstable();
    unique.dedup();
    assert_eq!(unique.len(), keys.len());
    assert_eq!(&keys[..5], &retry_keys[..5]);
    assert_eq!(keys[0], "ffdb-catalog-v1:acct_catalog_12345678:product");
    assert_eq!(
        catalog_idempotency_key("acct with space", "product"),
        Err(InstanceServiceError::InvalidConfiguration)
    );
}

fn reads_price() -> ProviderPrice {
    ProviderPrice {
        id: Some("price_reads_12345678".into()),
        active: Some(true),
        currency: Some("eur".into()),
        recurring: true,
        recurring_meter: Some("mtr_reads_12345678".into()),
        unit_amount: None,
        billing_scheme: Some("tiered".into()),
        tiers_mode: Some("graduated".into()),
        tiers: Some(vec![
            ProviderPriceTier {
                up_to: Some(1_000_000),
                unit_amount_decimal: Some("0".into()),
                unit_amount: None,
                flat_amount_decimal: None,
                flat_amount: None,
            },
            ProviderPriceTier {
                up_to: None,
                unit_amount_decimal: Some("0.000025".into()),
                unit_amount: None,
                flat_amount_decimal: None,
                flat_amount: None,
            },
        ]),
    }
}

#[test]
fn catalog_rejects_wrong_account_currency_and_price_tiers() {
    assert_eq!(
        validate_catalog_account("acct_first_12345678", "acct_second_12345678"),
        Err(InstanceServiceError::InvalidConfiguration)
    );
    let price = reads_price();
    assert_eq!(
        validate_stripe_price(&price, "price_reads_12345678", "usd", None, Some("mtr_reads_12345678")),
        Err(InstanceServiceError::ProviderCatalogConflict)
    );
    let expected = stripe_price_tiers(
        UsageMetric::Reads,
        &provisioning_plan(PlatformBillingTier::PayAsYouGo),
    )
    .expect("tiers");
    let mut wrong_tiers = price;
    wrong_tiers.currency = Some("usd".into());
    if let Some(tiers) = wrong_tiers.tiers.as_mut() {
        tiers[1].unit_amount_decimal = Some("0.000026".into());
    }
    assert_eq!(
        validate_stripe_price_tiers(&wrong_tiers, &expected),
        Err(InstanceServiceError::ProviderCatalogConflict)
    );
    let current_price = ProviderPrice {
        id: None,
        active: None,
        currency: None,
        recurring: false,
        recurring_meter: None,
        unit_amount: None,
        ..reads_price()
    };
    assert_eq!(validate_stripe_price_tiers(&current_price, &expected), Ok(()));
    let mut changed_plan = provisioning_plan(PlatformBillingTier::PayAsYouGo);
    changed_plan.monthly_reads = 2_000_000;
    let changed_tiers = stripe_price_tiers(UsageMetric::Reads, &changed_plan).expect("tiers");
    assert_eq!(
        validate_stripe_price_tiers(&current_price, &changed_tiers),
        Err(InstanceServiceError::ProviderCatalogConflict)
    );
}

#[test]
fn matching_price_and_decimal_spellings_are_accepted() {
    let mut price = reads_price();
    price.currency = Some("usd".into());
    assert_eq!(
        validate_stripe_price(&price, "price_reads_12345678", "usd", None, Some("mtr_reads_12345678")),
        Ok(())
    );
    assert_eq!(
        validate_stripe_price(&price, "price_reads_12345678", "usd", Some(5), None),
        Err(InstanceServiceError::ProviderCatalogConflict)
    );
    let expected = [
        StripePriceTier { up_to: Some(1_000_000), unit_amount_decimal: "0" },
        StripePriceTier { up_to: None, unit_amount_decimal: "0.000025" },
    ];
    if let Some(tiers) = price.tiers.as_mut() {
        tiers[0].unit_amount_decimal = None;
        tiers[0].unit_amount = Some(0);
        tiers[1].unit_amount_decimal = Some(" 0.0000250 ".into());
    }
    assert_eq!(validate_stripe_price_tiers(&price, &expected), Ok(()));
    if let Some(tiers) = price.tiers.as_mut() {
        tiers[0].flat_amount = Some(3);
    }
    assert_eq!(
        validate_stripe_price_tiers(&price, &expected),
        Err(InstanceServiceError::ProviderCatalogConflict)
    );
}

#[test]
fn decimals_are_compared_without_trailing_zeros() {
    assert_eq!(normalize_decimal(" 1.500 "), "1.5");
    assert_eq!(normalize_decimal("2.000"), "2");
    assert_eq!(normalize_decimal("0.0"), "0");
    assert_eq!(normalize_decimal("100"), "100");
    assert_eq!(normalize_decimal("."), "");
}

#[test]
fn provider_inputs_are_validated() {
    assert!(valid_provider_id("acct_12345678", "acct_"));
    assert!(!valid_provider_id("acct_1234567", "acct_"));
    assert!(!valid_provider_id("acct_1234-5678", "acct_"));
    assert_eq!(validate_stripe_secret_key("pk_test_1234567890123456"), Err(InstanceServiceError::InvalidRequest));
    assert_eq!(validate_stripe_secret_key("sk_live_12345678"), Ok(()));
    assert_eq!(validate_stripe_secret_key("sk_live_1234567"), Err(InstanceServiceError::InvalidRequest));
    assert_eq!(validate_stripe_webhook_secret("whsec_12 345678901"), Err(InstanceServiceError::InvalidRequest));
    assert_eq!(validate_provider_idempotency_key("setup:1234"), Ok(()));
    assert_eq!(validate_provider_idempotency_key("short"), Err(InstanceServiceError::InvalidRequest));
    assert_eq!(validate_country("US"), Ok(()));
    assert_eq!(validate_country("U1"), Err(InstanceServiceError::InvalidRequest));
    assert_eq!(validate_email(" owner@example.test "), Ok(()));
    assert_eq!(validate_email("owner@localhost"), Err(InstanceServiceError::InvalidRequest));
    assert_eq!(validate_email("@example.test"), Err(InstanceServiceError::InvalidRequest));
    assert_eq!(validate_email("owner@.example"), Err(InstanceServiceError::InvalidRequest));
    assert_eq!(validate_email("a@b@example.test"), Ok(()));
}

#[test]
fn provisioning_forms_name_the_catalog_objects() {
    let product = stripe_product_form();
    assert_eq!(product[0], ("name".to_owned(), "FFDB Platform".to_owned()));
    assert_eq!(product[2], ("metadata[ffdb_catalog_version]".to_owned(), "1".to_owned()));
    let pro = provisioning_plan(PlatformBillingTier::Pro);
    let base = stripe_base_price_form("prod_ffdb_12345678", &pro).expect("base price");
    assert_eq!(base[2], ("unit_amount".to_owned(), "700".to_owned()));
    assert_eq!(
        stripe_base_price_form("prod_ffdb_12345678", &provisioning_plan(PlatformBillingTier::PayAsYouGo)),
        Err(InstanceServiceError::InvalidConfiguration)
    );
    let meter = stripe_meter_form(&InstanceStripeUsageEventConfig {
        metric: UsageMetric::StorageByteHours,
        event_name: "ffdb_storage".into(),
    });
    assert_eq!(meter[0], ("display_name".to_owned(), "FFDB storage byte hours".to_owned()));
    let payg = provisioning_plan(PlatformBillingTier::PayAsYouGo);
    let usage = stripe_usage_price_form("prod_x_12345678", "mtr_x_12345678", UsageMetric::Writes, &payg)
        .expect("usage price");
    assert_eq!(usage[7], ("nickname".to_owned(), "FFDB pay_as_you_go writes usage".to_owned()));
    assert_eq!(usage[11], ("tiers[0][up_to]".to_owned(), "50000".to_owned()));
    assert_eq!(usage[12], ("tiers[0][unit_amount_decimal]".to_owned(), "0".to_owned()));
    assert_eq!(usage[15], ("tiers[2][up_to]".to_owned(), "inf".to_owned()));
    assert_eq!(usage[16], ("tiers[2][unit_amount_decimal]".to_owned(), "0.000225".to_owned()));
    assert_eq!(usage.len(), 17);
}

#[test]
fn normalizing_a_normalized_decimal_changes_nothing() {
    for value in ["1.50", "2.000", "100", " 0.000025 ", "0.0", "7."] {
        let once = normalize_decimal(value);
        assert_eq!(normalize_decimal(&once), once);
    }
    assert_eq!(normalize_decimal("1.50"), "1.5");
    assert_ne!(normalize_decimal("0.000025"), normalize_decimal("0.000026"));
}

#[test]
fn setup_checks_the_owner_then_the_key_then_the_stored_setup() {
    let owner = UserId(7);
    let current = SetupCurrent {
        owner,
        mode: InstanceDeploymentMode::Private,
        policy: OrganizationCreationPolicy::OwnerOnly,
        setup_complete: true,
        billing_mode: None,
        provider_account_id: None,
        tenant_billing_in_use: false,
    };
    let key = "setup-request-0001";
    assert_eq!(
        complete_setup_plan(owner, false, "bad key", SetupKind::Team, OrganizationCreationPolicy::OwnerOnly, &current),
        Err(InstanceServiceError::Forbidden)
    );
    assert_eq!(
        complete_setup_plan(owner, true, "short", SetupKind::Team, OrganizationCreationPolicy::OwnerOnly, &current),
        Err(InstanceServiceError::InvalidRequest)
    );
    assert_eq!(
        complete_setup_plan(UserId(8), true, key, SetupKind::Team, OrganizationCreationPolicy::OwnerOnly, &current),
        Err(InstanceServiceError::Forbidden)
    );
    assert_eq!(
        complete_setup_plan(owner, true, key, SetupKind::Private, OrganizationCreationPolicy::OwnerOnly, &current),
        Ok(SetupPlan::Unchanged)
    );
    assert_eq!(
        complete_setup_plan(owner, true, key, SetupKind::Team, OrganizationCreationPolicy::OwnerOnly, &current),
        Ok(SetupPlan::ClearBilling)
    );
}
