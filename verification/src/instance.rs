//! Instance administration rules: roles, user disabling, pagination, reasons,
//! deployment modes and their billing bindings, provider credentials and
//! identifiers, the plan catalog, and the provider price tiers.
use vstd::prelude::*;
use vstd::string::StringSliceAdditionalSpecFns;
use crate::billing::BillingError;
use crate::errors::{ErrorReply, reply};
use crate::text::{
    all_bytes, has_prefix, is_alnum, is_alpha, is_digit, is_graphic, is_lower, range_eq,
    starts_with, str_eq, trim_chars, trim_str,
};

verus! {

pub const MAX_PAGE_SIZE: u32 = 500;

pub const DEFAULT_PAGE_SIZE: u32 = 100;

pub const MAX_SAFE_INTEGER: u64 = 9_007_199_254_740_991;

/// Bytes in one billed storage unit.
pub const STORAGE_BILLING_UNIT_BYTES: u64 = 1_000;

/// Errors of instance administration.
#[derive(Clone, Copy, Debug, PartialEq, Eq, Structural)]
pub enum InstanceServiceError {
    InvalidRequest,
    Forbidden,
    NotFound,
    Conflict,
    BillingInUse,
    ProviderCatalogConflict,
    NotInitialized,
    SetupRequired,
    ProviderUnavailable,
    ProviderRejected,
    InvalidConfiguration,
    Unavailable,
}

/// The role of an instance administrator.
#[derive(Clone, Copy, Debug, PartialEq, Eq, Structural)]
pub enum InstanceAdministratorRole {
    Owner,
    Admin,
}

/// Admits an instance administrator: the owner always, an admin unless the
/// operation is reserved to the owner, anyone else never.
pub fn authorize_instance_role(role: Option<InstanceAdministratorRole>, owner_only: bool) -> (r: Result<
    InstanceAdministratorRole,
    InstanceServiceError,
>)
    ensures
        role == Some(InstanceAdministratorRole::Owner) ==> r == Ok::<_, InstanceServiceError>(
            InstanceAdministratorRole::Owner,
        ),
        role == Some(InstanceAdministratorRole::Admin) && !owner_only ==> r == Ok::<
            _,
            InstanceServiceError,
        >(InstanceAdministratorRole::Admin),
        (role == Some(InstanceAdministratorRole::Admin) && owner_only) || role is None ==> r == Err::<
            InstanceAdministratorRole,
            _,
        >(InstanceServiceError::Forbidden),
{
    match role {
        Some(InstanceAdministratorRole::Owner) => Ok(InstanceAdministratorRole::Owner),
        Some(InstanceAdministratorRole::Admin) => {
            if !owner_only {
                Ok(InstanceAdministratorRole::Admin)
            } else {
                Err(InstanceServiceError::Forbidden)
            }
        },
        None => Err(InstanceServiceError::Forbidden),
    }
}

/// Decides whether a user may be disabled: re-enabling is always allowed; the
/// instance owner can never be disabled; an administrator cannot disable
/// themselves while no other administrator stays enabled.
pub fn authorize_user_disable(
    disabled: bool,
    target_role: Option<&str>,
    self_disable: bool,
    other_enabled_administrators: i64,
) -> (r: Result<(), InstanceServiceError>)
    ensures
        !disabled ==> r == Ok::<(), InstanceServiceError>(()),
        disabled && (target_role matches Some(t) && t@ == "owner"@) ==> r == Err::<(), _>(
            InstanceServiceError::Forbidden,
        ),
        disabled && !(target_role matches Some(t) && t@ == "owner"@) && self_disable
            && other_enabled_administrators == 0 ==> r == Err::<(), _>(InstanceServiceError::Conflict),
        disabled && !(target_role matches Some(t) && t@ == "owner"@) && !(self_disable
            && other_enabled_administrators == 0) ==> r == Ok::<(), InstanceServiceError>(()),
{
    if !disabled {
        return Ok(());
    }
    match target_role {
        Some(t) => {
            if str_eq(t, "owner") {
                return Err(InstanceServiceError::Forbidden);
            }
        },
        None => {},
    }
    if self_disable && other_enabled_administrators == 0 {
        return Err(InstanceServiceError::Conflict);
    }
    Ok(())
}

/// A page of an instance listing.
#[derive(Clone, Copy, Debug, PartialEq, Eq, Structural)]
pub struct PageQuery {
    pub limit: u32,
    pub offset: u64,
}

/// Default number of rows returned by a page of an instance listing.
pub fn default_page_size() -> (r: u32)
    ensures
        r == DEFAULT_PAGE_SIZE,
{
    DEFAULT_PAGE_SIZE
}

impl PageQuery {
    /// Accepts a page of 1 to 500 rows at an offset that fits in `i64`.
    pub fn validated(self) -> (r: Result<Self, InstanceServiceError>)
        ensures
            (1 <= self.limit <= MAX_PAGE_SIZE && self.offset <= i64::MAX) ==> r == Ok::<
                Self,
                InstanceServiceError,
            >(self),
            !(1 <= self.limit <= MAX_PAGE_SIZE && self.offset <= i64::MAX) ==> r == Err::<
                Self,
                _,
            >(InstanceServiceError::InvalidRequest),
    {
        if self.limit == 0 || self.limit > MAX_PAGE_SIZE || self.offset > i64::MAX as u64 {
            return Err(InstanceServiceError::InvalidRequest);
        }
        Ok(self)
    }
}

/// Accepts an audit reason: the text without surrounding whitespace, which
/// must hold 1 to 500 characters.
pub fn validate_reason(value: &str) -> (r: Result<&str, InstanceServiceError>)
    ensures
        1 <= trim_chars(value@).len() <= 500 ==> (r matches Ok(t) && t@ == trim_chars(value@)),
        !(1 <= trim_chars(value@).len() <= 500) ==> r == Err::<&str, _>(
            InstanceServiceError::InvalidRequest,
        ),
{
    let (trimmed, count) = trim_str(value);
    if count == 0 || count > 500 {
        return Err(InstanceServiceError::InvalidRequest);
    }
    Ok(trimmed)
}

/// The reply to an instance administration failure.
pub open spec fn instance_reply(error: InstanceServiceError) -> (u16, Seq<char>, Seq<char>) {
    match error {
        InstanceServiceError::InvalidRequest => (400u16, "instance.invalid_request"@, "the instance administration request is invalid"@),
        InstanceServiceError::Forbidden => (403u16, "instance.forbidden"@, "the operation is not permitted"@),
        InstanceServiceError::NotFound => (404u16, "instance.not_found"@, "the requested instance resource was not found"@),
        InstanceServiceError::Conflict => (409u16, "instance.conflict"@, "the requested change conflicts with current instance state"@),
        InstanceServiceError::BillingInUse => (409u16, "instance.billing_in_use"@, "cancel and reconcile every organization subscription before changing the instance billing provider"@),
        InstanceServiceError::ProviderCatalogConflict => (409u16, "instance.plan_provider_bound"@, "provider-priced plan fields are immutable while the Stripe catalog is active"@),
        InstanceServiceError::NotInitialized => (409u16, "instance.not_initialized"@, "the instance owner has not been initialized"@),
        InstanceServiceError::SetupRequired => (409u16, "instance.setup_required"@, "complete instance onboarding before creating organizations or projects"@),
        InstanceServiceError::ProviderUnavailable => (502u16, "instance.provider_unavailable"@, "the billing provider is temporarily unavailable"@),
        InstanceServiceError::ProviderRejected => (422u16, "instance.provider_rejected"@, "the billing provider rejected the request"@),
        InstanceServiceError::InvalidConfiguration => (503u16, "instance.configuration_invalid"@, "instance billing is not configured for this operation"@),
        InstanceServiceError::Unavailable => (503u16, "instance.unavailable"@, "instance administration is temporarily unavailable"@),
    }
}

/// Answers an instance administration failure.
pub fn service_error(error: InstanceServiceError) -> (r: ErrorReply)
    ensures
        r@ == instance_reply(error),
{
    match error {
        InstanceServiceError::InvalidRequest => reply(400, "instance.invalid_request", "the instance administration request is invalid"),
        InstanceServiceError::Forbidden => reply(403, "instance.forbidden", "the operation is not permitted"),
        InstanceServiceError::NotFound => reply(404, "instance.not_found", "the requested instance resource was not found"),
        InstanceServiceError::Conflict => reply(409, "instance.conflict", "the requested change conflicts with current instance state"),
        InstanceServiceError::BillingInUse => reply(409, "instance.billing_in_use", "cancel and reconcile every organization subscription before changing the instance billing provider"),
        InstanceServiceError::ProviderCatalogConflict => reply(409, "instance.plan_provider_bound", "provider-priced plan fields are immutable while the Stripe catalog is active"),
        InstanceServiceError::NotInitialized => reply(409, "instance.not_initialized", "the instance owner has not been initialized"),
        InstanceServiceError::SetupRequired => reply(409, "instance.setup_required", "complete instance onboarding before creating organizations or projects"),
        InstanceServiceError::ProviderUnavailable => reply(502, "instance.provider_unavailable", "the billing provider is temporarily unavailable"),
        InstanceServiceError::ProviderRejected => reply(422, "instance.provider_rejected", "the billing provider rejected the request"),
        InstanceServiceError::InvalidConfiguration => reply(503, "instance.configuration_invalid", "instance billing is not configured for this operation"),
        InstanceServiceError::Unavailable => reply(503, "instance.unavailable", "instance administration is temporarily unavailable"),
    }
}

/// Failures of the commerce provider client.
#[derive(Clone, Copy, Debug, PartialEq, Eq, Structural)]
pub enum CommerceServiceError {
    InvalidConfiguration,
    Encryption,
    AccountNotConfigured,
    InvalidRequest,
    ProviderUnavailable,
    ProviderRejected,
    ProviderResponseInvalid,
    AccountRestricted,
    CapabilityUnavailable,
    InvalidSignature,
    NotFound,
    AccountInUse,
    Conflict,
    WebhookHashConflict,
    Forbidden,
    Unavailable,
}

/// The instance failure that a commerce client failure stands for.
pub fn map_commerce_error(error: CommerceServiceError) -> (r: InstanceServiceError)
    ensures
        r == match error {
            CommerceServiceError::InvalidConfiguration | CommerceServiceError::Encryption | CommerceServiceError::AccountNotConfigured => InstanceServiceError::InvalidConfiguration,
            CommerceServiceError::InvalidRequest => InstanceServiceError::InvalidRequest,
            CommerceServiceError::ProviderUnavailable => InstanceServiceError::ProviderUnavailable,
            CommerceServiceError::ProviderRejected | CommerceServiceError::ProviderResponseInvalid | CommerceServiceError::AccountRestricted | CommerceServiceError::CapabilityUnavailable | CommerceServiceError::InvalidSignature => InstanceServiceError::ProviderRejected,
            CommerceServiceError::NotFound => InstanceServiceError::NotFound,
            CommerceServiceError::AccountInUse | CommerceServiceError::Conflict | CommerceServiceError::WebhookHashConflict => InstanceServiceError::Conflict,
            CommerceServiceError::Forbidden => InstanceServiceError::Forbidden,
            CommerceServiceError::Unavailable => InstanceServiceError::Unavailable,
        },
{
    match error {
        CommerceServiceError::InvalidConfiguration | CommerceServiceError::Encryption | CommerceServiceError::AccountNotConfigured => InstanceServiceError::InvalidConfiguration,
        CommerceServiceError::InvalidRequest => InstanceServiceError::InvalidRequest,
        CommerceServiceError::ProviderUnavailable => InstanceServiceError::ProviderUnavailable,
        CommerceServiceError::ProviderRejected | CommerceServiceError::ProviderResponseInvalid | CommerceServiceError::AccountRestricted | CommerceServiceError::CapabilityUnavailable | CommerceServiceError::InvalidSignature => InstanceServiceError::ProviderRejected,
        CommerceServiceError::NotFound => InstanceServiceError::NotFound,
        CommerceServiceError::AccountInUse | CommerceServiceError::Conflict | CommerceServiceError::WebhookHashConflict => InstanceServiceError::Conflict,
        CommerceServiceError::Forbidden => InstanceServiceError::Forbidden,
        CommerceServiceError::Unavailable => InstanceServiceError::Unavailable,
    }
}

/// The instance failure that a billing provider failure stands for.
pub fn map_billing_error(error: BillingError) -> (r: InstanceServiceError)
    ensures
        r == match error {
            BillingError::InvalidConfiguration => InstanceServiceError::InvalidConfiguration,
            BillingError::InvalidRequest => InstanceServiceError::InvalidRequest,
            BillingError::InvalidWebhookSignature | BillingError::InvalidWebhookPayload => InstanceServiceError::ProviderRejected,
            BillingError::ProviderUnavailable => InstanceServiceError::ProviderUnavailable,
            BillingError::ProviderRejected => InstanceServiceError::ProviderRejected,
        },
{
    match error {
        BillingError::InvalidConfiguration => InstanceServiceError::InvalidConfiguration,
        BillingError::InvalidRequest => InstanceServiceError::InvalidRequest,
        BillingError::InvalidWebhookSignature | BillingError::InvalidWebhookPayload => InstanceServiceError::ProviderRejected,
        BillingError::ProviderUnavailable => InstanceServiceError::ProviderUnavailable,
        BillingError::ProviderRejected => InstanceServiceError::ProviderRejected,
    }
}

/// How an instance is deployed.
#[derive(Clone, Copy, Debug, PartialEq, Eq, Structural)]
pub enum InstanceDeploymentMode {
    Unconfigured,
    Private,
    Team,
    PlatformByo,
    PlatformConnect,
}

/// Who may create organizations.
#[derive(Clone, Copy, Debug, PartialEq, Eq, Structural)]
pub enum OrganizationCreationPolicy {
    OwnerOnly,
    Authenticated,
    InvitationOnly,
}

/// Whether the creation policy lets a user create an organization: any
/// signed-in user, only instance administrators, or administrators and
/// members already invited into some organization.
pub fn creation_policy_allows(
    policy: OrganizationCreationPolicy,
    administrator: bool,
    organization_member: bool,
) -> (r: bool)
    ensures
        r == match policy {
            OrganizationCreationPolicy::Authenticated => true,
            OrganizationCreationPolicy::OwnerOnly => administrator,
            OrganizationCreationPolicy::InvitationOnly => administrator || organization_member,
        },
{
    match policy {
        OrganizationCreationPolicy::Authenticated => true,
        OrganizationCreationPolicy::OwnerOnly => administrator,
        OrganizationCreationPolicy::InvitationOnly => administrator || organization_member,
    }
}

/// Whether checkout and the customer portal can be offered: both exactly
/// when a billing template is configured.
pub fn billing_mode_capabilities(template_configured: bool) -> (r: (bool, bool))
    ensures
        r == (template_configured, template_configured),
{
    (template_configured, template_configured)
}

/// Whether setup in `mode` is complete: the unbilled modes at once, the
/// billed ones once the provider account is enabled and the catalog is
/// ready, never while unconfigured.
pub fn setup_completion_ready(mode: InstanceDeploymentMode, account_status: &str, catalog_ready: bool) -> (r: bool)
    ensures
        r == match mode {
            InstanceDeploymentMode::Private | InstanceDeploymentMode::Team => true,
            InstanceDeploymentMode::PlatformByo | InstanceDeploymentMode::PlatformConnect =>
                catalog_ready && account_status@ == "enabled"@,
            InstanceDeploymentMode::Unconfigured => false,
        },
{
    match mode {
        InstanceDeploymentMode::Private | InstanceDeploymentMode::Team => true,
        InstanceDeploymentMode::PlatformByo | InstanceDeploymentMode::PlatformConnect => catalog_ready
            && str_eq(account_status, "enabled"),
        InstanceDeploymentMode::Unconfigured => false,
    }
}

/// Organizations and projects can only be created once setup is complete.
pub fn ensure_instance_setup_complete(setup_complete: bool) -> (r: Result<(), InstanceServiceError>)
    ensures
        r == (if setup_complete {
            Ok(())
        } else {
            Err(InstanceServiceError::SetupRequired)
        }),
{
    if setup_complete {
        Ok(())
    } else {
        Err(InstanceServiceError::SetupRequired)
    }
}

/// The modes without billing drop any stored billing state.
pub fn deployment_mode_clears_billing(mode: InstanceDeploymentMode) -> (r: bool)
    ensures
        r == (mode == InstanceDeploymentMode::Private || mode == InstanceDeploymentMode::Team),
{
    match mode {
        InstanceDeploymentMode::Private | InstanceDeploymentMode::Team => true,
        _ => false,
    }
}

/// The stored billing binding is the one `mode` runs on.
pub open spec fn binding_matches(mode: InstanceDeploymentMode, billing_mode: Option<Seq<char>>) -> bool {
    match mode {
        InstanceDeploymentMode::PlatformByo => billing_mode == Some("byo_keys"@),
        InstanceDeploymentMode::PlatformConnect => billing_mode == Some("stripe_connect"@),
        _ => false,
    }
}

pub open spec fn opt_view(value: Option<&str>) -> Option<Seq<char>> {
    match value {
        Some(v) => Some(v@),
        None => None,
    }
}

/// While organizations are billed, the instance may only be set up again in
/// the mode it runs in, on the billing binding and provider account it
/// already has.
pub fn ensure_billing_reconfiguration_safe(
    current_mode: InstanceDeploymentMode,
    requested_mode: InstanceDeploymentMode,
    current_billing_mode: Option<&str>,
    current_provider_account_id: Option<&str>,
    tenant_billing_in_use: bool,
) -> (r: Result<(), InstanceServiceError>)
    ensures
        r == (if !tenant_billing_in_use || (current_mode == requested_mode && binding_matches(
            current_mode,
            opt_view(current_billing_mode),
        ) && current_provider_account_id is Some) {
            Ok(())
        } else {
            Err(InstanceServiceError::BillingInUse)
        }),
{
    if !tenant_billing_in_use {
        return Ok(());
    }
    let matches = match current_mode {
        InstanceDeploymentMode::PlatformByo => match current_billing_mode {
            Some(m) => str_eq(m, "byo_keys"),
            None => false,
        },
        InstanceDeploymentMode::PlatformConnect => match current_billing_mode {
            Some(m) => str_eq(m, "stripe_connect"),
            None => false,
        },
        _ => false,
    };
    if current_mode != requested_mode || !matches || current_provider_account_id.is_none() {
        Err(InstanceServiceError::BillingInUse)
    } else {
        Ok(())
    }
}

/// How the instance bills its organizations.
#[derive(Clone, Copy, Debug, PartialEq, Eq, Structural)]
pub enum InstanceBillingMode {
    ByoKeys,
    StripeConnect,
}

/// The state of the instance's provider account.
#[derive(Clone, Copy, Debug, PartialEq, Eq, Structural)]
pub enum InstanceBillingAccountStatus {
    Pending,
    Onboarding,
    Enabled,
    Restricted,
    Disconnected,
}

/// The stored name of a deployment mode.
pub open spec fn deployment_mode_label(value: InstanceDeploymentMode) -> Seq<char> {
    match value {
        InstanceDeploymentMode::Unconfigured => "unconfigured"@,
        InstanceDeploymentMode::Private => "private"@,
        InstanceDeploymentMode::Team => "team"@,
        InstanceDeploymentMode::PlatformByo => "platform_byo"@,
        InstanceDeploymentMode::PlatformConnect => "platform_connect"@,
    }
}

/// The deployment mode stored under `value`, if any.
pub open spec fn deployment_mode_named(value: Seq<char>) -> Option<InstanceDeploymentMode> {
    if value == "unconfigured"@ {
        Some(InstanceDeploymentMode::Unconfigured)
    } else if value == "private"@ {
        Some(InstanceDeploymentMode::Private)
    } else if value == "team"@ {
        Some(InstanceDeploymentMode::Team)
    } else if value == "platform_byo"@ {
        Some(InstanceDeploymentMode::PlatformByo)
    } else if value == "platform_connect"@ {
        Some(InstanceDeploymentMode::PlatformConnect)
    } else {
        None
    }
}

pub fn deployment_mode_name(value: InstanceDeploymentMode) -> (r: &'static str)
    ensures
        r@ == deployment_mode_label(value),
{
    match value {
        InstanceDeploymentMode::Unconfigured => "unconfigured",
        InstanceDeploymentMode::Private => "private",
        InstanceDeploymentMode::Team => "team",
        InstanceDeploymentMode::PlatformByo => "platform_byo",
        InstanceDeploymentMode::PlatformConnect => "platform_connect",
    }
}

/// Reads a stored deployment mode; an unknown name means the stored state is unusable.
pub fn parse_deployment_mode(value: &str) -> (r: Result<InstanceDeploymentMode, InstanceServiceError>)
    ensures
        r == (match deployment_mode_named(value@) {
            Some(v) => Ok(v),
            None => Err(InstanceServiceError::Unavailable),
        }),
{
    if str_eq(value, "unconfigured") {
        Ok(InstanceDeploymentMode::Unconfigured)
    } else if str_eq(value, "private") {
        Ok(InstanceDeploymentMode::Private)
    } else if str_eq(value, "team") {
        Ok(InstanceDeploymentMode::Team)
    } else if str_eq(value, "platform_byo") {
        Ok(InstanceDeploymentMode::PlatformByo)
    } else if str_eq(value, "platform_connect") {
        Ok(InstanceDeploymentMode::PlatformConnect)
    } else {
        Err(InstanceServiceError::Unavailable)
    }
}

/// Reading the stored name of a deployment mode gives the same value back.
pub proof fn law_deployment_mode_named_round_trip(value: InstanceDeploymentMode)
    ensures
        deployment_mode_named(deployment_mode_label(value)) == Some(value),
{
    reveal_strlit("unconfigured");
    reveal_strlit("private");
    reveal_strlit("team");
    reveal_strlit("platform_byo");
    reveal_strlit("platform_connect");
    assert("unconfigured"@.len() == 12);
    assert("private"@.len() == 7);
    assert("team"@.len() == 4);
    assert("platform_byo"@.len() == 12);
    assert("platform_connect"@.len() == 16);
    assert("unconfigured"@[0] == 'u');
    assert("platform_byo"@[0] == 'p');
}

/// The stored name of a organization creation policy.
pub open spec fn creation_policy_label(value: OrganizationCreationPolicy) -> Seq<char> {
    match value {
        OrganizationCreationPolicy::OwnerOnly => "owner_only"@,
        OrganizationCreationPolicy::Authenticated => "authenticated"@,
        OrganizationCreationPolicy::InvitationOnly => "invitation_only"@,
    }
}

/// The organization creation policy stored under `value`, if any.
pub open spec fn creation_policy_named(value: Seq<char>) -> Option<OrganizationCreationPolicy> {
    if value == "owner_only"@ {
        Some(OrganizationCreationPolicy::OwnerOnly)
    } else if value == "authenticated"@ {
        Some(OrganizationCreationPolicy::Authenticated)
    } else if value == "invitation_only"@ {
        Some(OrganizationCreationPolicy::InvitationOnly)
    } else {
        None
    }
}

pub fn creation_policy_name(value: OrganizationCreationPolicy) -> (r: &'static str)
    ensures
        r@ == creation_policy_label(value),
{
    match value {
        OrganizationCreationPolicy::OwnerOnly => "owner_only",
        OrganizationCreationPolicy::Authenticated => "authenticated",
        OrganizationCreationPolicy::InvitationOnly => "invitation_only",
    }
}

/// Reads a stored organization creation policy; an unknown name means the stored state is unusable.
pub fn parse_creation_policy(value: &str) -> (r: Result<OrganizationCreationPolicy, InstanceServiceError>)
    ensures
        r == (match creation_policy_named(value@) {
            Some(v) => Ok(v),
            None => Err(InstanceServiceError::Unavailable),
        }),
{
    if str_eq(value, "owner_only") {
        Ok(OrganizationCreationPolicy::OwnerOnly)
    } else if str_eq(value, "authenticated") {
        Ok(OrganizationCreationPolicy::Authenticated)
    } else if str_eq(value, "invitation_only") {
        Ok(OrganizationCreationPolicy::InvitationOnly)
    } else {
        Err(InstanceServiceError::Unavailable)
    }
}

/// Reading the stored name of a organization creation policy gives the same value back.
pub proof fn law_creation_policy_named_round_trip(value: OrganizationCreationPolicy)
    ensures
        creation_policy_named(creation_policy_label(value)) == Some(value),
{
    reveal_strlit("owner_only");
    reveal_strlit("authenticated");
    reveal_strlit("invitation_only");
    assert("owner_only"@.len() == 10);
    assert("authenticated"@.len() == 13);
    assert("invitation_only"@.len() == 15);
}

/// The stored name of a administrator role.
pub open spec fn administrator_role_label(value: InstanceAdministratorRole) -> Seq<char> {
    match value {
        InstanceAdministratorRole::Owner => "owner"@,
        InstanceAdministratorRole::Admin => "admin"@,
    }
}

/// The administrator role stored under `value`, if any.
pub open spec fn administrator_role_named(value: Seq<char>) -> Option<InstanceAdministratorRole> {
    if value == "owner"@ {
        Some(InstanceAdministratorRole::Owner)
    } else if value == "admin"@ {
        Some(InstanceAdministratorRole::Admin)
    } else {
        None
    }
}

/// Reads a stored administrator role; an unknown name means the stored state is unusable.
pub fn parse_administrator_role(value: &str) -> (r: Result<InstanceAdministratorRole, InstanceServiceError>)
    ensures
        r == (match administrator_role_named(value@) {
            Some(v) => Ok(v),
            None => Err(InstanceServiceError::Unavailable),
        }),
{
    if str_eq(value, "owner") {
        Ok(InstanceAdministratorRole::Owner)
    } else if str_eq(value, "admin") {
        Ok(InstanceAdministratorRole::Admin)
    } else {
        Err(InstanceServiceError::Unavailable)
    }
}

/// The stored name of a billing mode.
pub open spec fn billing_mode_label(value: InstanceBillingMode) -> Seq<char> {
    match value {
        InstanceBillingMode::ByoKeys => "byo_keys"@,
        InstanceBillingMode::StripeConnect => "stripe_connect"@,
    }
}

/// The billing mode stored under `value`, if any.
pub open spec fn billing_mode_named(value: Seq<char>) -> Option<InstanceBillingMode> {
    if value == "byo_keys"@ {
        Some(InstanceBillingMode::ByoKeys)
    } else if value == "stripe_connect"@ {
        Some(InstanceBillingMode::StripeConnect)
    } else {
        None
    }
}

/// Reads a stored billing mode; an unknown name means the stored state is unusable.
pub fn parse_billing_mode(value: &str) -> (r: Result<InstanceBillingMode, InstanceServiceError>)
    ensures
        r == (match billing_mode_named(value@) {
            Some(v) => Ok(v),
            None => Err(InstanceServiceError::Unavailable),
        }),
{
    if str_eq(value, "byo_keys") {
        Ok(InstanceBillingMode::ByoKeys)
    } else if str_eq(value, "stripe_connect") {
        Ok(InstanceBillingMode::StripeConnect)
    } else {
        Err(InstanceServiceError::Unavailable)
    }
}

/// The stored name of a billing account status.
pub open spec fn billing_status_label(value: InstanceBillingAccountStatus) -> Seq<char> {
    match value {
        InstanceBillingAccountStatus::Pending => "pending"@,
        InstanceBillingAccountStatus::Onboarding => "onboarding"@,
        InstanceBillingAccountStatus::Enabled => "enabled"@,
        InstanceBillingAccountStatus::Restricted => "restricted"@,
        InstanceBillingAccountStatus::Disconnected => "disconnected"@,
    }
}

/// The billing account status stored under `value`, if any.
pub open spec fn billing_status_named(value: Seq<char>) -> Option<InstanceBillingAccountStatus> {
    if value == "pending"@ {
        Some(InstanceBillingAccountStatus::Pending)
    } else if value == "onboarding"@ {
        Some(InstanceBillingAccountStatus::Onboarding)
    } else if value == "enabled"@ {
        Some(InstanceBillingAccountStatus::Enabled)
    } else if value == "restricted"@ {
        Some(InstanceBillingAccountStatus::Restricted)
    } else if value == "disconnected"@ {
        Some(InstanceBillingAccountStatus::Disconnected)
    } else {
        None
    }
}

/// Reads a stored billing account status; an unknown name means the stored state is unusable.
pub fn parse_billing_status(value: &str) -> (r: Result<InstanceBillingAccountStatus, InstanceServiceError>)
    ensures
        r == (match billing_status_named(value@) {
            Some(v) => Ok(v),
            None => Err(InstanceServiceError::Unavailable),
        }),
{
    if str_eq(value, "pending") {
        Ok(InstanceBillingAccountStatus::Pending)
    } else if str_eq(value, "onboarding") {
        Ok(InstanceBillingAccountStatus::Onboarding)
    } else if str_eq(value, "enabled") {
        Ok(InstanceBillingAccountStatus::Enabled)
    } else if str_eq(value, "restricted") {
        Ok(InstanceBillingAccountStatus::Restricted)
    } else if str_eq(value, "disconnected") {
        Ok(InstanceBillingAccountStatus::Disconnected)
    } else {
        Err(InstanceServiceError::Unavailable)
    }
}


/// The deployment that a setup request asks for.
#[derive(Clone, Copy, Debug, PartialEq, Eq, Structural)]
pub enum SetupKind {
    Private,
    Team,
    PlatformByo,
    PlatformConnect,
}

/// The deployment mode that a setup request asks for.
pub open spec fn setup_mode(kind: SetupKind) -> InstanceDeploymentMode {
    match kind {
        SetupKind::Private => InstanceDeploymentMode::Private,
        SetupKind::Team => InstanceDeploymentMode::Team,
        SetupKind::PlatformByo => InstanceDeploymentMode::PlatformByo,
        SetupKind::PlatformConnect => InstanceDeploymentMode::PlatformConnect,
    }
}

/// The mode and organization creation policy of a setup request.
pub fn setup_mode_and_policy(kind: SetupKind, policy: OrganizationCreationPolicy) -> (r: (
    InstanceDeploymentMode,
    OrganizationCreationPolicy,
))
    ensures
        r == (setup_mode(kind), policy),
{
    let mode = match kind {
        SetupKind::Private => InstanceDeploymentMode::Private,
        SetupKind::Team => InstanceDeploymentMode::Team,
        SetupKind::PlatformByo => InstanceDeploymentMode::PlatformByo,
        SetupKind::PlatformConnect => InstanceDeploymentMode::PlatformConnect,
    };
    (mode, policy)
}

/// The stored setup of the instance, as setup reads it under lock.
#[derive(Clone, Debug)]
pub struct SetupCurrent {
    pub owner: crate::ids::UserId,
    pub mode: InstanceDeploymentMode,
    pub policy: OrganizationCreationPolicy,
    pub setup_complete: bool,
    pub billing_mode: Option<String>,
    pub provider_account_id: Option<String>,
    pub tenant_billing_in_use: bool,
}

/// What completing setup does.
#[derive(Clone, Debug, PartialEq, Eq)]
pub enum SetupPlan {
    /// The same unbilled setup again: nothing changes.
    Unchanged,
    /// An unbilled mode: all billing state is dropped.
    ClearBilling,
    /// Own provider keys; while organizations are billed the provider
    /// account must stay the one they are billed through.
    ConfigureByo { required_account: Option<String> },
    /// The platform's connected account, reusing the connected account that
    /// the instance already has.
    ConfigureConnect { existing_account: Option<String> },
}

pub open spec fn opt_string_view(value: Option<String>) -> Option<Seq<char>> {
    match value {
        Some(v) => Some(v@),
        None => None,
    }
}

pub open spec fn plan_view(plan: SetupPlan) -> (int, Option<Seq<char>>) {
    match plan {
        SetupPlan::Unchanged => (0, None),
        SetupPlan::ClearBilling => (1, None),
        SetupPlan::ConfigureByo { required_account } => (2, opt_string_view(required_account)),
        SetupPlan::ConfigureConnect { existing_account } => (3, opt_string_view(existing_account)),
    }
}

/// Completing setup: only the owner may; billing in use must stay bound as
/// it is; repeating a finished unbilled setup changes nothing; otherwise the
/// requested mode is configured.
pub open spec fn setup_plan_of(
    actor: crate::ids::UserId,
    kind: SetupKind,
    policy: OrganizationCreationPolicy,
    current: SetupCurrent,
) -> Result<(int, Option<Seq<char>>), InstanceServiceError> {
    let requested = setup_mode(kind);
    let billing = opt_string_view(current.billing_mode);
    let account = opt_string_view(current.provider_account_id);
    if current.owner != actor {
        Err(InstanceServiceError::Forbidden)
    } else if current.tenant_billing_in_use && !(current.mode == requested && binding_matches(
        current.mode,
        billing,
    ) && account is Some) {
        Err(InstanceServiceError::BillingInUse)
    } else if current.setup_complete && current.mode == requested && current.policy == policy && (
    kind == SetupKind::Private || kind == SetupKind::Team) {
        Ok((0, None))
    } else {
        match kind {
            SetupKind::Private | SetupKind::Team => Ok((1, None)),
            SetupKind::PlatformByo => if current.tenant_billing_in_use {
                match account {
                    Some(a) => Ok((2, Some(a))),
                    None => Err(InstanceServiceError::BillingInUse),
                }
            } else {
                Ok((2, None))
            },
            SetupKind::PlatformConnect => if current.mode == InstanceDeploymentMode::PlatformConnect
                && billing == Some("stripe_connect"@) {
                Ok((3, account))
            } else {
                Ok((3, None))
            },
        }
    }
}

fn clone_opt(value: &Option<String>) -> (r: Option<String>)
    ensures
        opt_string_view(r) == opt_string_view(*value),
{
    match value {
        Some(v) => Some(v.clone()),
        None => None,
    }
}

/// Decides what completing setup does from the stored setup.
pub fn plan_setup(
    actor: crate::ids::UserId,
    kind: SetupKind,
    policy: OrganizationCreationPolicy,
    current: &SetupCurrent,
) -> (r: Result<SetupPlan, InstanceServiceError>)
    ensures
        match r {
            Ok(plan) => setup_plan_of(actor, kind, policy, *current) == Ok::<
                (int, Option<Seq<char>>),
                InstanceServiceError,
            >(plan_view(plan)),
            Err(e) => setup_plan_of(actor, kind, policy, *current) == Err::<
                (int, Option<Seq<char>>),
                InstanceServiceError,
            >(e),
        },
{
    if current.owner.0 != actor.0 {
        return Err(InstanceServiceError::Forbidden);
    }
    let (requested, _) = setup_mode_and_policy(kind, policy);
    let billing_mode: Option<&str> = match &current.billing_mode {
        Some(m) => Some(m.as_str()),
        None => None,
    };
    let account: Option<&str> = match &current.provider_account_id {
        Some(a) => Some(a.as_str()),
        None => None,
    };
    match ensure_billing_reconfiguration_safe(
        current.mode,
        requested,
        billing_mode,
        account,
        current.tenant_billing_in_use,
    ) {
        Ok(()) => {},
        Err(e) => {
            return Err(e);
        },
    }
    let unbilled = match kind {
        SetupKind::Private | SetupKind::Team => true,
        _ => false,
    };
    if current.setup_complete && current.mode == requested && current.policy == policy && unbilled {
        return Ok(SetupPlan::Unchanged);
    }
    match kind {
        SetupKind::Private | SetupKind::Team => Ok(SetupPlan::ClearBilling),
        SetupKind::PlatformByo => if current.tenant_billing_in_use {
            match &current.provider_account_id {
                Some(a) => Ok(SetupPlan::ConfigureByo { required_account: Some(a.clone()) }),
                None => Err(InstanceServiceError::BillingInUse),
            }
        } else {
            Ok(SetupPlan::ConfigureByo { required_account: None })
        },
        SetupKind::PlatformConnect => {
            let connected = match billing_mode {
                Some(m) => str_eq(m, "stripe_connect"),
                None => false,
            };
            if current.mode == InstanceDeploymentMode::PlatformConnect && connected {
                Ok(SetupPlan::ConfigureConnect { existing_account: clone_opt(&current.provider_account_id) })
            } else {
                Ok(SetupPlan::ConfigureConnect { existing_account: None })
            }
        },
    }
}

/// Decides a request to complete setup, checking in the order the service
/// does: an actor who is not the instance owner is refused, then a provider
/// idempotency key that is not acceptable, and only then is the stored setup
/// weighed (see `plan_setup`).
pub fn complete_setup_plan(
    actor: crate::ids::UserId,
    actor_is_owner: bool,
    idempotency_key: &str,
    kind: SetupKind,
    policy: OrganizationCreationPolicy,
    current: &SetupCurrent,
) -> (r: Result<SetupPlan, InstanceServiceError>)
    ensures
        !actor_is_owner ==> (r matches Err(e) && e == InstanceServiceError::Forbidden),
        actor_is_owner && !crate::provider::provider_idempotency_key_ok(idempotency_key.spec_bytes())
            ==> (r matches Err(e) && e == InstanceServiceError::InvalidRequest),
        actor_is_owner && crate::provider::provider_idempotency_key_ok(idempotency_key.spec_bytes())
            ==> match r {
            Ok(plan) => setup_plan_of(actor, kind, policy, *current) == Ok::<
                (int, Option<Seq<char>>),
                InstanceServiceError,
            >(plan_view(plan)),
            Err(e) => setup_plan_of(actor, kind, policy, *current) == Err::<
                (int, Option<Seq<char>>),
                InstanceServiceError,
            >(e),
        },
{
    if !actor_is_owner {
        return Err(InstanceServiceError::Forbidden);
    }
    match crate::provider::validate_provider_idempotency_key(idempotency_key) {
        Ok(()) => {},
        Err(e) => {
            return Err(e);
        },
    }
    plan_setup(actor, kind, policy, current)
}

/// Billing is enforced exactly in the platform modes.
pub fn billing_enforcement_enabled(mode: InstanceDeploymentMode) -> (r: bool)
    ensures
        r == (mode == InstanceDeploymentMode::PlatformByo || mode
            == InstanceDeploymentMode::PlatformConnect),
{
    match mode {
        InstanceDeploymentMode::PlatformByo | InstanceDeploymentMode::PlatformConnect => true,
        _ => false,
    }
}

/// A setup never moves billed organizations to another provider binding:
/// while tenant billing is in use, a setup that goes ahead keeps the mode,
/// its binding and its provider account.
pub proof fn law_billed_instances_keep_their_binding(
    actor: crate::ids::UserId,
    kind: SetupKind,
    policy: OrganizationCreationPolicy,
    current: SetupCurrent,
)
    requires
        current.tenant_billing_in_use,
        setup_plan_of(actor, kind, policy, current) is Ok,
    ensures
        current.mode == setup_mode(kind),
        binding_matches(current.mode, opt_string_view(current.billing_mode)),
        current.provider_account_id is Some,
{
}


/// Reading the stored name of an administrator role gives the same role back.
pub proof fn law_administrator_role_named_round_trip(value: InstanceAdministratorRole)
    ensures
        administrator_role_named(administrator_role_label(value)) == Some(value),
{
    reveal_strlit("owner");
    reveal_strlit("admin");
    assert("owner"@[0] == 'o' && "admin"@[0] == 'a');
}

/// Reading the stored name of a billing mode gives the same mode back.
pub proof fn law_billing_mode_named_round_trip(value: InstanceBillingMode)
    ensures
        billing_mode_named(billing_mode_label(value)) == Some(value),
{
    reveal_strlit("byo_keys");
    reveal_strlit("stripe_connect");
    assert("byo_keys"@.len() == 8 && "stripe_connect"@.len() == 14);
}

/// Reading the stored name of a billing account status gives the same
/// status back.
pub proof fn law_billing_status_named_round_trip(value: InstanceBillingAccountStatus)
    ensures
        billing_status_named(billing_status_label(value)) == Some(value),
{
    reveal_strlit("pending");
    reveal_strlit("onboarding");
    reveal_strlit("enabled");
    reveal_strlit("restricted");
    reveal_strlit("disconnected");
    assert("pending"@.len() == 7 && "pending"@[0] == 'p');
    assert("enabled"@.len() == 7 && "enabled"@[0] == 'e');
    assert("onboarding"@.len() == 10 && "onboarding"@[0] == 'o');
    assert("restricted"@.len() == 10 && "restricted"@[0] == 'r');
    assert("disconnected"@.len() == 12);
}

} // verus!
