//! Organization management rules: membership roles and the transitions
//! between them, developer scopes, platform e-mail addresses, and the
//! answers to management failures.
use vstd::prelude::*;
use vstd::string::{StrSliceExecFns, StringExecFns, StringSliceAdditionalSpecFns};
use crate::errors::{ErrorReply, reply};
use crate::text::{
    ascii_chars, find_last, is_ascii_bytes, is_control, is_ws, last_index_of,
    lemma_last_index_of, contains_byte, str_eq, to_lower, trim_chars,
};

verus! {

/// A member's role in an organization.
#[derive(Clone, Copy, Debug, PartialEq, Eq, Structural)]
pub enum OrganizationRole {
    Owner,
    Admin,
    Developer,
    Viewer,
}

/// Why a membership change was refused.
#[derive(Clone, Copy, Debug, PartialEq, Eq, Structural)]
pub enum MembershipMutationError {
    Invalid,
    Forbidden,
    LastOwner,
    NotFound,
    Conflict,
    Unavailable,
}

/// How an audited action ended.
#[derive(Clone, Copy, Debug, PartialEq, Eq, Structural)]
pub enum AuditOutcome {
    Success,
    Failure,
    Denied,
}

/// Whether a membership change may happen: only owners may touch an owner
/// or make one, and the last owner can neither leave nor be demoted.
pub open spec fn member_transition(
    actor_role: OrganizationRole,
    current: OrganizationRole,
    next: Option<OrganizationRole>,
    owner_count: i64,
) -> Result<(), MembershipMutationError> {
    if actor_role != OrganizationRole::Owner && (current == OrganizationRole::Owner || next == Some(
        OrganizationRole::Owner,
    )) {
        Err(MembershipMutationError::Forbidden)
    } else if current == OrganizationRole::Owner && next != Some(OrganizationRole::Owner)
        && owner_count <= 1 {
        Err(MembershipMutationError::LastOwner)
    } else {
        Ok(())
    }
}

/// Decides a membership change (`next` is `None` for a removal).
pub fn validate_member_transition(
    actor_role: OrganizationRole,
    current: OrganizationRole,
    next: Option<OrganizationRole>,
    owner_count: i64,
) -> (r: Result<(), MembershipMutationError>)
    ensures
        r == member_transition(actor_role, current, next, owner_count),
{
    if actor_role != OrganizationRole::Owner && (current == OrganizationRole::Owner || next == Some(
        OrganizationRole::Owner,
    )) {
        return Err(MembershipMutationError::Forbidden);
    }
    if current == OrganizationRole::Owner && next != Some(OrganizationRole::Owner) && owner_count
        <= 1 {
        return Err(MembershipMutationError::LastOwner);
    }
    Ok(())
}

/// An organization never loses its last owner: a change that leaves an
/// owner's seat when at most one owner is counted is refused, and only an
/// owner can change who is an owner.
pub proof fn law_last_owner_is_kept(
    actor_role: OrganizationRole,
    current: OrganizationRole,
    next: Option<OrganizationRole>,
    owner_count: i64,
)
    requires
        member_transition(actor_role, current, next, owner_count) is Ok,
    ensures
        current == OrganizationRole::Owner && next != Some(OrganizationRole::Owner) ==> owner_count
            >= 2,
        (current == OrganizationRole::Owner || next == Some(OrganizationRole::Owner)) ==> actor_role
            == OrganizationRole::Owner,
{
}

/// A refusal is audited as denied, an outage as a failure.
pub fn membership_audit_outcome(error: MembershipMutationError) -> (r: AuditOutcome)
    ensures
        r == (if error == MembershipMutationError::Unavailable {
            AuditOutcome::Failure
        } else {
            AuditOutcome::Denied
        }),
{
    match error {
        MembershipMutationError::Unavailable => AuditOutcome::Failure,
        _ => AuditOutcome::Denied,
    }
}

/// The reply to a refused membership change.
pub open spec fn membership_reply(error: MembershipMutationError) -> (u16, Seq<char>, Seq<char>) {
    match error {
        MembershipMutationError::Invalid => (400u16, "membership.invalid"@, "membership input is invalid"@),
        MembershipMutationError::Forbidden => (403u16, "membership.forbidden"@, "membership operation is not permitted"@),
        MembershipMutationError::LastOwner => (409u16, "membership.last_owner"@, "the final organization owner cannot be removed or demoted"@),
        MembershipMutationError::NotFound => (404u16, "membership.not_found"@, "organization member was not found"@),
        MembershipMutationError::Conflict => (409u16, "membership.exists"@, "organization membership already exists"@),
        MembershipMutationError::Unavailable => (503u16, "membership.unavailable"@, "membership service is unavailable"@),
    }
}

/// Answers a refused membership change.
pub fn membership_error(error: MembershipMutationError) -> (r: ErrorReply)
    ensures
        r@ == membership_reply(error),
{
    match error {
        MembershipMutationError::Invalid => reply(400, "membership.invalid", "membership input is invalid"),
        MembershipMutationError::Forbidden => reply(403, "membership.forbidden", "membership operation is not permitted"),
        MembershipMutationError::LastOwner => reply(409, "membership.last_owner", "the final organization owner cannot be removed or demoted"),
        MembershipMutationError::NotFound => reply(404, "membership.not_found", "organization member was not found"),
        MembershipMutationError::Conflict => reply(409, "membership.exists", "organization membership already exists"),
        MembershipMutationError::Unavailable => reply(503, "membership.unavailable", "membership service is unavailable"),
    }
}

/// An invitation that cannot be accepted.
pub open spec fn invitation_error_reply() -> (u16, Seq<char>, Seq<char>) {
    (400u16, "invitation.invalid"@, "the invitation is invalid or expired"@)
}

pub fn invitation_error() -> (r: ErrorReply)
    ensures
        r@ == invitation_error_reply(),
{
    reply(400, "invitation.invalid", "the invitation is invalid or expired")
}

/// The management control plane could not be reached.
pub open spec fn control_plane_unavailable_reply() -> (u16, Seq<char>, Seq<char>) {
    (503u16, "control_plane.unavailable"@, "control plane is unavailable"@)
}

pub fn control_plane_unavailable() -> (r: ErrorReply)
    ensures
        r@ == control_plane_unavailable_reply(),
{
    reply(503, "control_plane.unavailable", "control plane is unavailable")
}

/// An organization identifier that is not a UUID.
pub open spec fn invalid_organization_id_reply() -> (u16, Seq<char>, Seq<char>) {
    (400u16, "organization.invalid_id"@, "invalid organization identifier"@)
}

pub fn invalid_organization_id() -> (r: ErrorReply)
    ensures
        r@ == invalid_organization_id_reply(),
{
    reply(400, "organization.invalid_id", "invalid organization identifier")
}

/// A project whose database could not be brought up.
pub open spec fn provisioning_failed_reply() -> (u16, Seq<char>, Seq<char>) {
    (503u16, "project.provisioning_failed"@, "project provisioning failed"@)
}

pub fn provisioning_failed() -> (r: ErrorReply)
    ensures
        r@ == provisioning_failed_reply(),
{
    reply(503, "project.provisioning_failed", "project provisioning failed")
}

/// Failures of developer authentication.
#[derive(Clone, Copy, Debug, PartialEq, Eq, Structural)]
pub enum PlatformAuthError {
    AlreadyInitialized,
    InvalidEmail,
    InvalidPassword,
    InvalidCredentials,
    InvalidSession,
    VerificationRequired,
    Disabled,
    Unavailable,
}

/// The reply to a developer authentication failure.
pub open spec fn platform_reply(error: PlatformAuthError) -> (u16, Seq<char>, Seq<char>) {
    match error {
        PlatformAuthError::AlreadyInitialized => (409u16, "developer.already_initialized"@, "developer authentication is already initialized"@),
        PlatformAuthError::InvalidEmail | PlatformAuthError::InvalidPassword => (400u16, "developer.invalid_input"@, "developer authentication input is invalid"@),
        PlatformAuthError::InvalidCredentials | PlatformAuthError::InvalidSession | PlatformAuthError::VerificationRequired => (401u16, "developer.invalid_credentials"@, "developer credentials are invalid"@),
        PlatformAuthError::Disabled => (403u16, "developer.disabled"@, "developer account is disabled"@),
        PlatformAuthError::Unavailable => (503u16, "developer.unavailable"@, "developer authentication is unavailable"@),
    }
}

/// Answers a developer authentication failure.
pub fn platform_error(error: PlatformAuthError) -> (r: ErrorReply)
    ensures
        r@ == platform_reply(error),
{
    match error {
        PlatformAuthError::AlreadyInitialized => reply(409, "developer.already_initialized", "developer authentication is already initialized"),
        PlatformAuthError::InvalidEmail | PlatformAuthError::InvalidPassword => reply(400, "developer.invalid_input", "developer authentication input is invalid"),
        PlatformAuthError::InvalidCredentials | PlatformAuthError::InvalidSession | PlatformAuthError::VerificationRequired => reply(401, "developer.invalid_credentials", "developer credentials are invalid"),
        PlatformAuthError::Disabled => reply(403, "developer.disabled", "developer account is disabled"),
        PlatformAuthError::Unavailable => reply(503, "developer.unavailable", "developer authentication is unavailable"),
    }
}

/// Failures of the project registry.
#[derive(Clone, Copy, Debug, PartialEq, Eq, Structural)]
pub enum RegistryError {
    InvalidInput,
    NotFound,
    Conflict,
    Forbidden,
    BillingLimit,
    Unavailable,
    DatastoreUnavailable,
    StaleGeneration,
    Inconsistent,
}

/// The reply to a project registry failure.
pub open spec fn registry_reply(error: RegistryError) -> (u16, Seq<char>, Seq<char>) {
    match error {
        RegistryError::InvalidInput => (400u16, "control_plane.invalid_input"@, "control-plane input is invalid"@),
        RegistryError::NotFound => (404u16, "control_plane.not_found"@, "resource was not found"@),
        RegistryError::Conflict => (409u16, "control_plane.conflict"@, "resource already exists"@),
        RegistryError::Forbidden => (403u16, "control_plane.forbidden"@, "operation is not permitted"@),
        RegistryError::BillingLimit => (402u16, "billing.project_limit_reached"@, "the organization project allowance is exhausted"@),
        RegistryError::Unavailable | RegistryError::DatastoreUnavailable | RegistryError::StaleGeneration | RegistryError::Inconsistent => (503u16, "control_plane.unavailable"@, "control plane is unavailable"@),
    }
}

/// Answers a project registry failure.
pub fn registry_error(error: RegistryError) -> (r: ErrorReply)
    ensures
        r@ == registry_reply(error),
{
    match error {
        RegistryError::InvalidInput => reply(400, "control_plane.invalid_input", "control-plane input is invalid"),
        RegistryError::NotFound => reply(404, "control_plane.not_found", "resource was not found"),
        RegistryError::Conflict => reply(409, "control_plane.conflict", "resource already exists"),
        RegistryError::Forbidden => reply(403, "control_plane.forbidden", "operation is not permitted"),
        RegistryError::BillingLimit => reply(402, "billing.project_limit_reached", "the organization project allowance is exhausted"),
        RegistryError::Unavailable | RegistryError::DatastoreUnavailable | RegistryError::StaleGeneration | RegistryError::Inconsistent => reply(503, "control_plane.unavailable", "control plane is unavailable"),
    }
}

/// Failures of project signing-key management.
#[derive(Clone, Copy, Debug, PartialEq, Eq, Structural)]
pub enum SigningKeyManagementError {
    InvalidConfiguration,
    Encryption,
    Unavailable,
    ProjectNotFound,
    ActiveKeyExists,
    NoActiveKey,
    InvalidInput,
}

/// The reply to a signing-key failure.
pub open spec fn signing_key_reply(error: SigningKeyManagementError) -> (u16, Seq<char>, Seq<char>) {
    match error {
        SigningKeyManagementError::InvalidConfiguration | SigningKeyManagementError::Encryption | SigningKeyManagementError::Unavailable => (503u16, "signing_key.unavailable"@, "signing key service is unavailable"@),
        SigningKeyManagementError::ProjectNotFound => (404u16, "project.not_found"@, "project was not found"@),
        SigningKeyManagementError::ActiveKeyExists => (409u16, "signing_key.active_exists"@, "an active signing key already exists"@),
        SigningKeyManagementError::NoActiveKey | SigningKeyManagementError::InvalidInput => (400u16, "signing_key.invalid"@, "signing key request is invalid"@),
    }
}

/// Answers a signing-key failure.
pub fn signing_key_error(error: SigningKeyManagementError) -> (r: ErrorReply)
    ensures
        r@ == signing_key_reply(error),
{
    match error {
        SigningKeyManagementError::InvalidConfiguration | SigningKeyManagementError::Encryption | SigningKeyManagementError::Unavailable => reply(503, "signing_key.unavailable", "signing key service is unavailable"),
        SigningKeyManagementError::ProjectNotFound => reply(404, "project.not_found", "project was not found"),
        SigningKeyManagementError::ActiveKeyExists => reply(409, "signing_key.active_exists", "an active signing key already exists"),
        SigningKeyManagementError::NoActiveKey | SigningKeyManagementError::InvalidInput => reply(400, "signing_key.invalid", "signing key request is invalid"),
    }
}

/// What an API key allows its holder to do.
#[derive(Clone, Copy, Debug, PartialEq, Eq, Structural)]
pub enum DeveloperScope {
    ProjectsRead,
    ProjectsWrite,
    DatabaseQuery,
    DatabaseMigrate,
    DatabaseSchema,
    AuthManage,
    StorageManage,
    EmailManage,
    KeysRotate,
    BackupsManage,
    LogsRead,
    CommerceManage,
}

/// The developer scope stored under `value`, if any.
pub open spec fn scope_named(value: Seq<char>) -> Option<DeveloperScope> {
    if value == "projects_read"@ {
        Some(DeveloperScope::ProjectsRead)
    } else if value == "projects_write"@ {
        Some(DeveloperScope::ProjectsWrite)
    } else if value == "database_query"@ {
        Some(DeveloperScope::DatabaseQuery)
    } else if value == "database_migrate"@ {
        Some(DeveloperScope::DatabaseMigrate)
    } else if value == "database_schema"@ {
        Some(DeveloperScope::DatabaseSchema)
    } else if value == "auth_manage"@ {
        Some(DeveloperScope::AuthManage)
    } else if value == "storage_manage"@ {
        Some(DeveloperScope::StorageManage)
    } else if value == "email_manage"@ {
        Some(DeveloperScope::EmailManage)
    } else if value == "keys_rotate"@ {
        Some(DeveloperScope::KeysRotate)
    } else if value == "backups_manage"@ {
        Some(DeveloperScope::BackupsManage)
    } else if value == "logs_read"@ {
        Some(DeveloperScope::LogsRead)
    } else if value == "commerce_manage"@ {
        Some(DeveloperScope::CommerceManage)
    } else {
        None
    }
}

/// Reads a stored developer scope.
pub fn decode_scope(value: &str) -> (r: Option<DeveloperScope>)
    ensures
        r == scope_named(value@),
{
    if str_eq(value, "projects_read") {
        Some(DeveloperScope::ProjectsRead)
    } else if str_eq(value, "projects_write") {
        Some(DeveloperScope::ProjectsWrite)
    } else if str_eq(value, "database_query") {
        Some(DeveloperScope::DatabaseQuery)
    } else if str_eq(value, "database_migrate") {
        Some(DeveloperScope::DatabaseMigrate)
    } else if str_eq(value, "database_schema") {
        Some(DeveloperScope::DatabaseSchema)
    } else if str_eq(value, "auth_manage") {
        Some(DeveloperScope::AuthManage)
    } else if str_eq(value, "storage_manage") {
        Some(DeveloperScope::StorageManage)
    } else if str_eq(value, "email_manage") {
        Some(DeveloperScope::EmailManage)
    } else if str_eq(value, "keys_rotate") {
        Some(DeveloperScope::KeysRotate)
    } else if str_eq(value, "backups_manage") {
        Some(DeveloperScope::BackupsManage)
    } else if str_eq(value, "logs_read") {
        Some(DeveloperScope::LogsRead)
    } else if str_eq(value, "commerce_manage") {
        Some(DeveloperScope::CommerceManage)
    } else {
        None
    }
}

/// The stored name of an organization role.
pub open spec fn role_label(value: OrganizationRole) -> Seq<char> {
    match value {
        OrganizationRole::Owner => "owner"@,
        OrganizationRole::Admin => "admin"@,
        OrganizationRole::Developer => "developer"@,
        OrganizationRole::Viewer => "viewer"@,
    }
}

/// The organization role stored under `value`, if any.
pub open spec fn role_named(value: Seq<char>) -> Option<OrganizationRole> {
    if value == "owner"@ {
        Some(OrganizationRole::Owner)
    } else if value == "admin"@ {
        Some(OrganizationRole::Admin)
    } else if value == "developer"@ {
        Some(OrganizationRole::Developer)
    } else if value == "viewer"@ {
        Some(OrganizationRole::Viewer)
    } else {
        None
    }
}

pub fn membership_role_name(value: OrganizationRole) -> (r: &'static str)
    ensures
        r@ == role_label(value),
{
    match value {
        OrganizationRole::Owner => "owner",
        OrganizationRole::Admin => "admin",
        OrganizationRole::Developer => "developer",
        OrganizationRole::Viewer => "viewer",
    }
}

/// Reads a stored organization role.
pub fn parse_membership_role(value: &str) -> (r: Option<OrganizationRole>)
    ensures
        r == role_named(value@),
{
    if str_eq(value, "owner") {
        Some(OrganizationRole::Owner)
    } else if str_eq(value, "admin") {
        Some(OrganizationRole::Admin)
    } else if str_eq(value, "developer") {
        Some(OrganizationRole::Developer)
    } else if str_eq(value, "viewer") {
        Some(OrganizationRole::Viewer)
    } else {
        None
    }
}

/// Reading the stored name of a role gives the same role back.
pub proof fn law_role_named_round_trip(value: OrganizationRole)
    ensures
        role_named(role_label(value)) == Some(value),
{
    reveal_strlit("owner");
    reveal_strlit("admin");
    reveal_strlit("developer");
    reveal_strlit("viewer");
    assert("owner"@.len() == 5);
    assert("admin"@.len() == 5);
    assert("developer"@.len() == 9);
    assert("viewer"@.len() == 6);
    assert("owner"@[0] == 'o');
    assert("admin"@[0] == 'a');
}

/// A platform e-mail address as sign-up accepts it: at most 254 ASCII
/// bytes with no surrounding whitespace, no whitespace or control byte at
/// all, a local part of 1 to 64 bytes before the last `@`, and a non-empty
/// domain after it that holds a `.`.
pub open spec fn platform_email_ok(email: &str) -> bool {
    let b = email.spec_bytes();
    let at = last_index_of(b, 0x40u8);
    let domain = b.subrange(at + 1, b.len() as int);
    &&& b.len() <= 254
    &&& trim_chars(email@) == email@
    &&& email.is_ascii()
    &&& 1 <= at <= 64
    &&& domain.len() > 0
    &&& contains_byte(domain, 0x2Eu8)
    &&& forall|i: int| 0 <= i < b.len() ==> !is_ws(#[trigger] b[i]) && !is_control(b[i])
}

/// The address in the form platform accounts are keyed by: lowercase.
pub open spec fn normalized_email_bytes(email: &str) -> Seq<u8> {
    email.spec_bytes().map_values(|c: u8| to_lower(c))
}

/// Normalizes an e-mail address as platform sign-up does; `None` where
/// sign-up would refuse it.
pub fn normalize_platform_email(email: &str) -> (r: Option<String>)
    ensures
        platform_email_ok(email) ==> (r matches Some(s) && s@ == ascii_chars(
            normalized_email_bytes(email),
        )),
        !platform_email_ok(email) ==> r is None,
{
    broadcast use vstd::string::group_string_axioms;

    let b = email.as_bytes();
    if b.len() > 254 || !email.is_ascii() {
        return None;
    }
    let (trimmed, _) = crate::text::trim_str(email);
    if !str_eq(trimmed, email) {
        return None;
    }
    proof {
        lemma_last_index_of(b@, 0x40u8);
    }
    let at = match find_last(b, 0x40u8) {
        Some(i) => i,
        None => {
            return None;
        },
    };
    let n = b.len();
    if at == 0 || at > 64 || at + 1 == n {
        return None;
    }
    let mut dot = false;
    let mut k: usize = at + 1;
    while k < n
        invariant
            at + 1 <= k <= n == b@.len(),
            dot == contains_byte(b@.subrange(at + 1, k as int), 0x2Eu8),
        decreases n - k,
    {
        proof {
            let d = b@.subrange(at + 1, k as int);
            let e = b@.subrange(at + 1, k + 1);
            assert(e =~= d.push(b@[k as int]));
            if contains_byte(d, 0x2Eu8) {
                let j = choose|j: int| 0 <= j < d.len() && d[j] == 0x2Eu8;
                assert(e[j] == 0x2Eu8);
            }
            if contains_byte(e, 0x2Eu8) {
                let j = choose|j: int| 0 <= j < e.len() && e[j] == 0x2Eu8;
                if j < d.len() {
                    assert(d[j] == 0x2Eu8);
                }
            }
            if b@[k as int] == 0x2Eu8 {
                assert(e[d.len() as int] == 0x2Eu8);
            }
        }
        if b[k] == 0x2Eu8 {
            dot = true;
        }
        k = k + 1;
    }
    if !dot {
        return None;
    }
    let mut lowered: Vec<u8> = Vec::new();
    let mut i: usize = 0;
    while i < n
        invariant
            i <= n == b@.len(),
            email.is_ascii(),
            b@ == email.spec_bytes(),
            lowered@ == b@.take(i as int).map_values(|c: u8| to_lower(c)),
            forall|j: int| 0 <= j < i ==> !is_ws(#[trigger] b@[j]) && !is_control(b@[j]),
        decreases n - i,
    {
        let c = b[i];
        if c == 0x20u8 || c == 0x09u8 || c == 0x0Au8 || c == 0x0Cu8 || c == 0x0Du8 || c <= 0x1Fu8
            || c == 0x7Fu8 {
            return None;
        }
        let low = if 0x41u8 <= c && c <= 0x5Au8 {
            c + 32
        } else {
            c
        };
        lowered.push(low);
        proof {
            assert(b@.take(i + 1).map_values(|c: u8| to_lower(c)) =~= b@.take(i as int).map_values(
                |c: u8| to_lower(c),
            ).push(to_lower(c)));
        }
        i = i + 1;
    }
    proof {
        assert(b@.take(n as int) =~= b@);
        vstd::string::is_ascii_spec_bytes(email);
        assert forall|j: int| 0 <= j < lowered@.len() implies #[trigger] lowered@[j] < 128 by {
            assert(b@[j] == email@[j] as u8);
            assert((email@[j] as u32) < 128);
        }
    }
    Some(crate::outside::ascii_string(lowered))
}


/// How an idempotent management mutation ends before it runs, where it
/// does.
#[derive(Clone, Copy, Debug, PartialEq, Eq, Structural)]
pub enum AdmissionAnswer {
    Replay,
    IdempotencyConflict,
    IdempotencyInProgress,
    IdempotencyFailed(crate::errors::IdempotencyError),
}

/// The start of an idempotent management mutation: the claim's owner goes
/// on; a finished key is replayed and audited as a success; a reused or
/// busy key is denied; a failing store is a failure.
pub fn management_admission(admission: crate::dispatch::Admission) -> (r: Option<(AdmissionAnswer, AuditOutcome)>)
    ensures
        r == match admission {
            crate::dispatch::Admission::Owner => None,
            crate::dispatch::Admission::Replay => Some((AdmissionAnswer::Replay, AuditOutcome::Success)),
            crate::dispatch::Admission::Conflict => Some(
                (AdmissionAnswer::IdempotencyConflict, AuditOutcome::Denied),
            ),
            crate::dispatch::Admission::InProgress => Some(
                (AdmissionAnswer::IdempotencyInProgress, AuditOutcome::Denied),
            ),
            crate::dispatch::Admission::Failed(e) => Some(
                (AdmissionAnswer::IdempotencyFailed(e), AuditOutcome::Failure),
            ),
        },
{
    match admission {
        crate::dispatch::Admission::Owner => None,
        crate::dispatch::Admission::Replay => Some((AdmissionAnswer::Replay, AuditOutcome::Success)),
        crate::dispatch::Admission::Conflict => Some(
            (AdmissionAnswer::IdempotencyConflict, AuditOutcome::Denied),
        ),
        crate::dispatch::Admission::InProgress => Some(
            (AdmissionAnswer::IdempotencyInProgress, AuditOutcome::Denied),
        ),
        crate::dispatch::Admission::Failed(e) => Some(
            (AdmissionAnswer::IdempotencyFailed(e), AuditOutcome::Failure),
        ),
    }
}

/// Only an owner may invite another owner.
pub fn invitation_role_permitted(actor_role: OrganizationRole, role: OrganizationRole) -> (r: bool)
    ensures
        r == !(actor_role != OrganizationRole::Owner && role == OrganizationRole::Owner),
{
    !(actor_role != OrganizationRole::Owner && role == OrganizationRole::Owner)
}

/// How long an invitation stays valid.
pub const INVITATION_LIFETIME_MS: i64 = 86_400_000;

/// When an invitation issued at `now_ms` expires.
pub fn invitation_expiry_ms(now_ms: i64) -> (r: i64)
    ensures
        r == crate::usage_reporting::saturate_i64(now_ms + INVITATION_LIFETIME_MS),
{
    crate::usage_reporting::saturating_add_i64(now_ms, INVITATION_LIFETIME_MS)
}

/// An API key request: a name of 1 to 128 bytes without surrounding
/// whitespace, at least one scope and none twice, and an expiry, where set,
/// after now.
pub open spec fn api_key_request_ok(name: &str, scopes: Seq<DeveloperScope>, expires_at_ms: Option<i64>, now_ms: i64) -> bool {
    &&& trim_chars(name@) == name@
    &&& 0 < name.spec_bytes().len() <= 128
    &&& scopes.len() > 0
    &&& forall|i: int, j: int| 0 <= i < j < scopes.len() ==> #[trigger] scopes[i] != #[trigger] scopes[j]
    &&& (expires_at_ms matches Some(e) ==> e > now_ms)
}

/// Checks an API key request.
pub fn validate_api_key_request(
    name: &str,
    scopes: &[DeveloperScope],
    expires_at_ms: Option<i64>,
    now_ms: i64,
) -> (r: bool)
    ensures
        r == api_key_request_ok(name, scopes@, expires_at_ms, now_ms),
{
    let (trimmed, _) = crate::text::trim_str(name);
    if !str_eq(trimmed, name) {
        return false;
    }
    let n = name.as_bytes().len();
    if n == 0 || n > 128 || scopes.len() == 0 {
        return false;
    }
    match expires_at_ms {
        Some(e) => {
            if e <= now_ms {
                return false;
            }
        },
        None => {},
    }
    let k = scopes.len();
    let mut j: usize = 0;
    while j < k
        invariant
            k == scopes@.len(),
            j <= k,
            forall|a: int, b: int| 0 <= a < b < j ==> #[trigger] scopes@[a] != #[trigger] scopes@[b],
        decreases k - j,
    {
        let mut i: usize = 0;
        while i < j
            invariant
                k == scopes@.len(),
                i <= j < k,
                forall|a: int, b: int| 0 <= a < b < j ==> #[trigger] scopes@[a] != #[trigger] scopes@[b],
                forall|a: int| 0 <= a < i ==> #[trigger] scopes@[a] != scopes@[j as int],
            decreases j - i,
        {
            if scopes[i] == scopes[j] {
                return false;
            }
            i = i + 1;
        }
        j = j + 1;
    }
    true
}

/// An API key request that breaks the rules of `api_key_request_ok`.
pub open spec fn api_key_invalid_reply() -> (u16, Seq<char>, Seq<char>) {
    (400u16, "api_key.invalid"@, "invalid API key request"@)
}

pub fn api_key_invalid() -> (r: ErrorReply)
    ensures
        r@ == api_key_invalid_reply(),
{
    reply(400, "api_key.invalid", "invalid API key request")
}

/// API keys could not be issued or stored.
pub open spec fn api_key_unavailable_reply() -> (u16, Seq<char>, Seq<char>) {
    (503u16, "api_key.unavailable"@, "API key service is unavailable"@)
}

pub fn api_key_unavailable() -> (r: ErrorReply)
    ensures
        r@ == api_key_unavailable_reply(),
{
    reply(503, "api_key.unavailable", "API key service is unavailable")
}

/// How revoking an API key ended, from the rows that the revocation updated
/// (`None` where the store failed): the audit outcome and, unless it
/// succeeded, the error answered.
pub open spec fn revocation_of(updated_rows: Option<u64>) -> (AuditOutcome, Option<(u16, Seq<char>, Seq<char>)>) {
    match updated_rows {
        None => (AuditOutcome::Failure, Some(control_plane_unavailable_reply())),
        Some(0) => (AuditOutcome::Denied, Some((404u16, "api_key.not_found"@, "API key was not found"@))),
        Some(_) => (AuditOutcome::Success, None),
    }
}

pub open spec fn reply_view(r: Option<ErrorReply>) -> Option<(u16, Seq<char>, Seq<char>)> {
    match r {
        Some(e) => Some(e@),
        None => None,
    }
}

/// Decides how a revocation ends (see `revocation_of`).
pub fn revocation_outcome(updated_rows: Option<u64>) -> (r: (AuditOutcome, Option<ErrorReply>))
    ensures
        (r.0, reply_view(r.1)) == revocation_of(updated_rows),
{
    match updated_rows {
        None => (AuditOutcome::Failure, Some(control_plane_unavailable())),
        Some(0) => (AuditOutcome::Denied, Some(reply(404, "api_key.not_found", "API key was not found"))),
        Some(_) => (AuditOutcome::Success, None),
    }
}

/// An API key identifier that is not a UUID.
pub fn api_key_invalid_id() -> (r: ErrorReply)
    ensures
        r@ == (400u16, "api_key.invalid_id"@, "invalid API key identifier"@),
{
    reply(400, "api_key.invalid_id", "invalid API key identifier")
}



/// The page that accepts an invitation: `accept-invitation` under the public
/// base URL, with the token carried in the fragment so that it never
/// reaches a server.
pub fn invitation_action_url(base: &str, token: &str) -> (r: Option<String>)
    ensures
        crate::outside::opt_text(r) == match crate::outside::url_joined(base@, "accept-invitation"@) {
            Some(joined) => crate::outside::url_with_fragment(joined, "token="@ + token@),
            None => None,
        },
{
    let joined = match crate::outside::join_url(base, "accept-invitation") {
        Some(j) => j,
        None => {
            return None;
        },
    };
    let mut fragment = String::new();
    fragment.append("token=");
    fragment.append(token);
    crate::outside::set_url_fragment(joined.as_str(), fragment.as_str())
}


/// The most bytes a bootstrap token may have.
pub const MAX_BOOTSTRAP_TOKEN_BYTES: usize = 4_096;

proof fn lemma_or_xor_zero(acc: u8, x: u8, y: u8)
    ensures
        ((acc | (x ^ y)) == 0u8) == (acc == 0u8 && x == y),
{
    assert(((acc | (x ^ y)) == 0u8) == (acc == 0u8 && x == y)) by (bit_vector);
}

/// A bootstrap request is let in only with a token of at most 4,096 bytes
/// whose SHA-256 digest is the configured one.
pub open spec fn bootstrap_token_ok(provided: Option<Seq<u8>>, expected_digest: Seq<u8>) -> bool {
    provided matches Some(t) && t.len() <= MAX_BOOTSTRAP_TOKEN_BYTES && crate::outside::sha256(t)
        == expected_digest
}

/// Checks a bootstrap token (see `bootstrap_token_ok`), comparing every byte
/// of the digests whatever the earlier bytes were.
pub fn bootstrap_token_matches(provided: Option<&str>, expected_digest: &[u8; 32]) -> (r: bool)
    ensures
        r == bootstrap_token_ok(
            match provided {
                Some(t) => Some(t.spec_bytes()),
                None => None,
            },
            expected_digest@,
        ),
{
    let token = match provided {
        Some(t) => t,
        None => {
            return false;
        },
    };
    let bytes = token.as_bytes();
    if bytes.len() > MAX_BOOTSTRAP_TOKEN_BYTES {
        return false;
    }
    let digest = crate::outside::sha256_digest(bytes);
    let mut diff: u8 = 0;
    let mut i: usize = 0;
    while i < 32
        invariant
            i <= 32,
            digest@.len() == 32,
            expected_digest@.len() == 32,
            (diff == 0) == (forall|k: int| 0 <= k < i ==> digest@[k] == expected_digest@[k]),
        decreases 32 - i,
    {
        proof {
            lemma_or_xor_zero(diff, digest@[i as int], expected_digest@[i as int]);
        }
        diff = diff | (digest[i] ^ expected_digest[i]);
        i = i + 1;
    }
    proof {
        assert((diff == 0) == (digest@ =~= expected_digest@));
    }
    diff == 0
}

} // verus!
