//! Organization invitations as state machines: issuing one to an e-mail
//! address, and accepting one to become a member. Each step takes what the
//! last piece of outside work (the database, the audit log, the e-mail
//! outbox, the sign-in service) reported and says what to do next.
use vstd::prelude::*;
use crate::management::{AuditOutcome, MembershipMutationError, OrganizationRole};

verus! {

// ---------------------------------------------------------------------------
// Accepting an invitation.

/// The outside work an acceptance waits for, in order.
#[derive(Clone, Copy, Debug, PartialEq, Eq, Structural)]
pub enum AcceptStage {
    ParseToken,
    HashPassword,
    Begin,
    LookUp,
    Audit,
    CreateUser,
    AddMembership,
    Consume,
    SignIn,
    Done,
}

/// The position of a stage in the order an acceptance runs through.
pub open spec fn accept_rank(stage: AcceptStage) -> int {
    match stage {
        AcceptStage::ParseToken => 0,
        AcceptStage::HashPassword => 1,
        AcceptStage::Begin => 2,
        AcceptStage::LookUp => 3,
        AcceptStage::Audit => 4,
        AcceptStage::CreateUser => 5,
        AcceptStage::AddMembership => 6,
        AcceptStage::Consume => 7,
        AcceptStage::SignIn => 8,
        AcceptStage::Done => 9,
    }
}

/// What the lookup of an open invitation by its token prefix found.
#[derive(Clone, Copy, Debug, PartialEq, Eq, Structural)]
pub enum InvitationLookup {
    /// No open, unexpired invitation has the prefix.
    Missing,
    StoreFailed,
    /// The stored digest could not be read.
    UnreadableDigest,
    /// An invitation: whether the token's digest matches the stored one, and
    /// whether its other fields could be read.
    Found { digest_matches: bool, fields_readable: bool },
}

/// What the last piece of outside work reported.
#[derive(Clone, Copy, Debug, PartialEq, Eq, Structural)]
pub enum AcceptEvent {
    TokenParsed(bool),
    PasswordHashed(bool),
    Began(bool),
    LookedUp(InvitationLookup),
    /// The requested audit event was written.
    Audited(bool),
    /// A new platform user was inserted for the invited address.
    UserCreated(bool),
    MembershipAdded(bool),
    /// The invitation was marked accepted and the transaction committed.
    Consumed(bool),
    SignedIn(bool),
}

/// Why an acceptance failed.
#[derive(Clone, Copy, Debug, PartialEq, Eq, Structural)]
pub enum AcceptFailure {
    InvitationInvalid,
    ControlPlaneUnavailable,
    AuditUnavailable,
    Internal,
}

/// How an acceptance ends: a session for the new member, or a failure; the
/// outcome of the terminal audit event, if one is appended, and whether it
/// names the new user.
#[derive(Clone, Copy, Debug, PartialEq, Eq, Structural)]
pub struct AcceptEnd {
    pub session: bool,
    pub failure: Option<AcceptFailure>,
    pub audit: Option<AuditOutcome>,
    pub audit_names_user: bool,
}

/// What to do next.
#[derive(Clone, Copy, Debug, PartialEq, Eq, Structural)]
pub enum AcceptAction {
    HashPassword,
    BeginTransaction,
    LookUpInvitation,
    WriteRequestedAudit,
    CreateUser,
    AddMembership,
    ConsumeInvitation,
    SignIn,
    Finish(AcceptEnd),
}

pub open spec fn accept_fail(
    failure: AcceptFailure,
    audit: Option<AuditOutcome>,
    names_user: bool,
) -> (AcceptStage, AcceptAction) {
    (
        AcceptStage::Done,
        AcceptAction::Finish(
            AcceptEnd { session: false, failure: Some(failure), audit, audit_names_user: names_user },
        ),
    )
}

/// The state machine of an acceptance.
/// - A token that does not parse, a password that cannot be hashed, an
///   invitation that is missing, expired or whose digest does not match, and
///   an address that already has an account all answer that the invitation
///   is invalid; a database that fails answers that the control plane is
///   unavailable.
/// - Nothing is written before the requested audit event is.
/// - The user, the membership and the consumed invitation are committed
///   together before the new member is signed in and given a session.
/// - Terminal audit events are appended from the user's creation on.
pub open spec fn accept_next(stage: AcceptStage, e: AcceptEvent) -> (AcceptStage, AcceptAction) {
    match (stage, e) {
        (AcceptStage::ParseToken, AcceptEvent::TokenParsed(ok)) => if ok {
            (AcceptStage::HashPassword, AcceptAction::HashPassword)
        } else {
            accept_fail(AcceptFailure::InvitationInvalid, None, false)
        },
        (AcceptStage::HashPassword, AcceptEvent::PasswordHashed(ok)) => if ok {
            (AcceptStage::Begin, AcceptAction::BeginTransaction)
        } else {
            accept_fail(AcceptFailure::InvitationInvalid, None, false)
        },
        (AcceptStage::Begin, AcceptEvent::Began(ok)) => if ok {
            (AcceptStage::LookUp, AcceptAction::LookUpInvitation)
        } else {
            accept_fail(AcceptFailure::ControlPlaneUnavailable, None, false)
        },
        (AcceptStage::LookUp, AcceptEvent::LookedUp(lookup)) => match lookup {
            InvitationLookup::Missing => accept_fail(AcceptFailure::InvitationInvalid, None, false),
            InvitationLookup::StoreFailed | InvitationLookup::UnreadableDigest => accept_fail(
                AcceptFailure::ControlPlaneUnavailable,
                None,
                false,
            ),
            InvitationLookup::Found { digest_matches, fields_readable } => if !digest_matches {
                accept_fail(AcceptFailure::InvitationInvalid, None, false)
            } else if !fields_readable {
                accept_fail(AcceptFailure::ControlPlaneUnavailable, None, false)
            } else {
                (AcceptStage::Audit, AcceptAction::WriteRequestedAudit)
            },
        },
        (AcceptStage::Audit, AcceptEvent::Audited(ok)) => if ok {
            (AcceptStage::CreateUser, AcceptAction::CreateUser)
        } else {
            accept_fail(AcceptFailure::AuditUnavailable, None, false)
        },
        (AcceptStage::CreateUser, AcceptEvent::UserCreated(ok)) => if ok {
            (AcceptStage::AddMembership, AcceptAction::AddMembership)
        } else {
            accept_fail(AcceptFailure::InvitationInvalid, Some(AuditOutcome::Denied), false)
        },
        (AcceptStage::AddMembership, AcceptEvent::MembershipAdded(ok)) => if ok {
            (AcceptStage::Consume, AcceptAction::ConsumeInvitation)
        } else {
            accept_fail(AcceptFailure::ControlPlaneUnavailable, Some(AuditOutcome::Failure), false)
        },
        (AcceptStage::Consume, AcceptEvent::Consumed(ok)) => if ok {
            (AcceptStage::SignIn, AcceptAction::SignIn)
        } else {
            accept_fail(AcceptFailure::ControlPlaneUnavailable, Some(AuditOutcome::Failure), false)
        },
        (AcceptStage::SignIn, AcceptEvent::SignedIn(ok)) => if ok {
            (
                AcceptStage::Done,
                AcceptAction::Finish(
                    AcceptEnd {
                        session: true,
                        failure: None,
                        audit: Some(AuditOutcome::Success),
                        audit_names_user: true,
                    },
                ),
            )
        } else {
            accept_fail(AcceptFailure::ControlPlaneUnavailable, Some(AuditOutcome::Failure), true)
        },
        _ => accept_fail(AcceptFailure::Internal, None, false),
    }
}

fn accept_fail_exec(failure: AcceptFailure, audit: Option<AuditOutcome>, names_user: bool) -> (r: (
    AcceptStage,
    AcceptAction,
))
    ensures
        r == accept_fail(failure, audit, names_user),
{
    (
        AcceptStage::Done,
        AcceptAction::Finish(
            AcceptEnd { session: false, failure: Some(failure), audit, audit_names_user: names_user },
        ),
    )
}

fn accept_looked_up(lookup: InvitationLookup) -> (r: (AcceptStage, AcceptAction))
    ensures
        r == accept_next(AcceptStage::LookUp, AcceptEvent::LookedUp(lookup)),
{
    match lookup {
        InvitationLookup::Missing => accept_fail_exec(AcceptFailure::InvitationInvalid, None, false),
        InvitationLookup::StoreFailed | InvitationLookup::UnreadableDigest => accept_fail_exec(
            AcceptFailure::ControlPlaneUnavailable,
            None,
            false,
        ),
        InvitationLookup::Found { digest_matches, fields_readable } => if !digest_matches {
            accept_fail_exec(AcceptFailure::InvitationInvalid, None, false)
        } else if !fields_readable {
            accept_fail_exec(AcceptFailure::ControlPlaneUnavailable, None, false)
        } else {
            (AcceptStage::Audit, AcceptAction::WriteRequestedAudit)
        },
    }
}

/// Takes one step of an acceptance.
pub fn accept_step(stage: AcceptStage, e: AcceptEvent) -> (r: (AcceptStage, AcceptAction))
    ensures
        r == accept_next(stage, e),
{
    match (stage, e) {
        (AcceptStage::ParseToken, AcceptEvent::TokenParsed(ok)) => if ok {
            (AcceptStage::HashPassword, AcceptAction::HashPassword)
        } else {
            accept_fail_exec(AcceptFailure::InvitationInvalid, None, false)
        },
        (AcceptStage::HashPassword, AcceptEvent::PasswordHashed(ok)) => if ok {
            (AcceptStage::Begin, AcceptAction::BeginTransaction)
        } else {
            accept_fail_exec(AcceptFailure::InvitationInvalid, None, false)
        },
        (AcceptStage::Begin, AcceptEvent::Began(ok)) => if ok {
            (AcceptStage::LookUp, AcceptAction::LookUpInvitation)
        } else {
            accept_fail_exec(AcceptFailure::ControlPlaneUnavailable, None, false)
        },
        (AcceptStage::LookUp, AcceptEvent::LookedUp(lookup)) => accept_looked_up(lookup),
        (AcceptStage::Audit, AcceptEvent::Audited(ok)) => if ok {
            (AcceptStage::CreateUser, AcceptAction::CreateUser)
        } else {
            accept_fail_exec(AcceptFailure::AuditUnavailable, None, false)
        },
        (AcceptStage::CreateUser, AcceptEvent::UserCreated(ok)) => if ok {
            (AcceptStage::AddMembership, AcceptAction::AddMembership)
        } else {
            accept_fail_exec(AcceptFailure::InvitationInvalid, Some(AuditOutcome::Denied), false)
        },
        (AcceptStage::AddMembership, AcceptEvent::MembershipAdded(ok)) => if ok {
            (AcceptStage::Consume, AcceptAction::ConsumeInvitation)
        } else {
            accept_fail_exec(AcceptFailure::ControlPlaneUnavailable, Some(AuditOutcome::Failure), false)
        },
        (AcceptStage::Consume, AcceptEvent::Consumed(ok)) => if ok {
            (AcceptStage::SignIn, AcceptAction::SignIn)
        } else {
            accept_fail_exec(AcceptFailure::ControlPlaneUnavailable, Some(AuditOutcome::Failure), false)
        },
        (AcceptStage::SignIn, AcceptEvent::SignedIn(ok)) => if ok {
            (
                AcceptStage::Done,
                AcceptAction::Finish(
                    AcceptEnd {
                        session: true,
                        failure: None,
                        audit: Some(AuditOutcome::Success),
                        audit_names_user: true,
                    },
                ),
            )
        } else {
            accept_fail_exec(AcceptFailure::ControlPlaneUnavailable, Some(AuditOutcome::Failure), true)
        },
        _ => accept_fail_exec(AcceptFailure::Internal, None, false),
    }
}

/// An acceptance only moves forward one stage at a time, and only on the
/// success of the stage it leaves; so a session is only given after the
/// token, the invitation, the requested audit, the new user, the membership
/// and the consumed invitation were all in place.
pub proof fn law_acceptance_moves_one_stage_on_success(stage: AcceptStage, e: AcceptEvent)
    ensures
        accept_next(stage, e).0 == AcceptStage::Done || (accept_rank(accept_next(stage, e).0) == accept_rank(stage)
            + 1 && match e {
            AcceptEvent::TokenParsed(ok) | AcceptEvent::PasswordHashed(ok) | AcceptEvent::Began(ok)
            | AcceptEvent::Audited(ok) | AcceptEvent::UserCreated(ok) | AcceptEvent::MembershipAdded(ok)
            | AcceptEvent::Consumed(ok) | AcceptEvent::SignedIn(ok) => ok,
            AcceptEvent::LookedUp(l) => l == InvitationLookup::Found { digest_matches: true, fields_readable: true },
        }),
        accept_next(stage, e).1 matches AcceptAction::Finish(end) && end.session ==> stage == AcceptStage::SignIn
            && e == AcceptEvent::SignedIn(true),
{
}

/// No terminal audit event is appended before the requested one was
/// written: an acceptance that fails earlier leaves no outcome in the log.
pub proof fn law_acceptance_audits_only_after_the_request(stage: AcceptStage, e: AcceptEvent)
    requires
        accept_next(stage, e).1 matches AcceptAction::Finish(end) && end.audit is Some,
    ensures
        accept_rank(stage) >= accept_rank(AcceptStage::CreateUser),
{
}

// ---------------------------------------------------------------------------
// Issuing an invitation.

/// The outside work the issuing of an invitation waits for, in order.
#[derive(Clone, Copy, Debug, PartialEq, Eq, Structural)]
pub enum InviteStage {
    RateLimit,
    NormalizeEmail,
    Audit,
    LookUpUser,
    IssueToken,
    Begin,
    LockActor,
    RevokePrevious,
    Store,
    ReadName,
    BuildUrl,
    Enqueue,
    Done,
}

/// What the issuing of an invitation knows: its stage and the role it grants.
#[derive(Clone, Copy, Debug, PartialEq, Eq, Structural)]
pub struct InviteState {
    pub stage: InviteStage,
    pub role: OrganizationRole,
}

/// What the last piece of outside work reported.
#[derive(Debug)]
pub enum InviteEvent {
    RateChecked(bool),
    EmailNormalized(bool),
    Audited(bool),
    /// Whether a platform user has the address; `Err` where the lookup failed.
    UserLookedUp(Result<bool, ()>),
    /// An e-mail service is configured and a token was issued.
    TokenIssued(bool),
    Began(bool),
    /// The actor's role, read again with the organization locked.
    ActorLocked(Result<OrganizationRole, MembershipMutationError>),
    PreviousRevoked(bool),
    /// The invitation was inserted and the transaction committed.
    Stored(bool),
    NameRead(bool),
    UrlBuilt(bool),
    Enqueued(bool),
}

/// Why issuing an invitation failed.
#[derive(Clone, Copy, Debug, PartialEq, Eq, Structural)]
pub enum InviteFailure {
    InvitationInvalid,
    /// Over the actor's rate limit; the limiter gives the answer.
    RateLimited,
    AuditUnavailable,
    ControlPlaneUnavailable,
    Internal,
}

/// How issuing an invitation ends: `202 Accepted` or a failure, the outcome
/// of the terminal audit event, if one is appended, and whether the stored
/// invitation is revoked again because its e-mail could not be queued.
#[derive(Clone, Copy, Debug, PartialEq, Eq, Structural)]
pub struct InviteEnd {
    pub accepted: bool,
    pub failure: Option<InviteFailure>,
    pub audit: Option<AuditOutcome>,
    pub revoke_invitation: bool,
}

/// What to do next.
#[derive(Clone, Copy, Debug, PartialEq, Eq, Structural)]
pub enum InviteAction {
    CheckRateLimit,
    NormalizeEmail,
    WriteRequestedAudit,
    LookUpUser,
    IssueToken,
    BeginTransaction,
    LockActor,
    RevokePrevious,
    StoreInvitation,
    ReadOrganizationName,
    BuildActionUrl,
    EnqueueEmail,
    Finish(InviteEnd),
}

pub open spec fn invite_fail(s: InviteState, failure: InviteFailure) -> (InviteState, InviteAction) {
    (
        InviteState { stage: InviteStage::Done, ..s },
        InviteAction::Finish(
            InviteEnd { accepted: false, failure: Some(failure), audit: None, revoke_invitation: false },
        ),
    )
}

pub open spec fn invite_accepted(s: InviteState) -> (InviteState, InviteAction) {
    (
        InviteState { stage: InviteStage::Done, ..s },
        InviteAction::Finish(
            InviteEnd {
                accepted: true,
                failure: None,
                audit: Some(AuditOutcome::Success),
                revoke_invitation: false,
            },
        ),
    )
}

pub open spec fn invite_go(s: InviteState, stage: InviteStage, action: InviteAction) -> (InviteState, InviteAction) {
    (InviteState { stage, ..s }, action)
}

/// Whether an actor of `actor_role` may invite to `role`: only owners invite owners.
pub open spec fn may_invite(actor_role: OrganizationRole, role: OrganizationRole) -> bool {
    !(actor_role != OrganizationRole::Owner && role == OrganizationRole::Owner)
}

/// The start of issuing an invitation to `role` by an actor of `actor_role`:
/// refused at once unless the actor may invite to that role.
pub open spec fn invite_begin(actor_role: OrganizationRole, role: OrganizationRole) -> (InviteState, InviteAction) {
    let s = InviteState { stage: InviteStage::RateLimit, role };
    if may_invite(actor_role, role) {
        (s, InviteAction::CheckRateLimit)
    } else {
        invite_fail(s, InviteFailure::InvitationInvalid)
    }
}

/// The state machine of issuing an invitation.
/// - An address that already has an account is answered exactly as a sent
///   invitation is, so that the endpoint does not reveal accounts.
/// - The actor's role is checked again with the organization locked before
///   anything is stored; earlier open invitations to the address are revoked.
/// - An invitation whose e-mail cannot be queued is revoked again.
pub open spec fn invite_next(s: InviteState, e: InviteEvent) -> (InviteState, InviteAction) {
    let unavailable = invite_fail(s, InviteFailure::ControlPlaneUnavailable);
    match (s.stage, e) {
        (InviteStage::RateLimit, InviteEvent::RateChecked(ok)) => if ok {
            invite_go(s, InviteStage::NormalizeEmail, InviteAction::NormalizeEmail)
        } else {
            invite_fail(s, InviteFailure::RateLimited)
        },
        (InviteStage::NormalizeEmail, InviteEvent::EmailNormalized(ok)) => if ok {
            invite_go(s, InviteStage::Audit, InviteAction::WriteRequestedAudit)
        } else {
            invite_fail(s, InviteFailure::InvitationInvalid)
        },
        (InviteStage::Audit, InviteEvent::Audited(ok)) => if ok {
            invite_go(s, InviteStage::LookUpUser, InviteAction::LookUpUser)
        } else {
            invite_fail(s, InviteFailure::AuditUnavailable)
        },
        (InviteStage::LookUpUser, InviteEvent::UserLookedUp(found)) => match found {
            Ok(true) => invite_accepted(s),
            Ok(false) => invite_go(s, InviteStage::IssueToken, InviteAction::IssueToken),
            Err(()) => unavailable,
        },
        (InviteStage::IssueToken, InviteEvent::TokenIssued(ok)) => if ok {
            invite_go(s, InviteStage::Begin, InviteAction::BeginTransaction)
        } else {
            unavailable
        },
        (InviteStage::Begin, InviteEvent::Began(ok)) => if ok {
            invite_go(s, InviteStage::LockActor, InviteAction::LockActor)
        } else {
            unavailable
        },
        (InviteStage::LockActor, InviteEvent::ActorLocked(locked)) => match locked {
            Ok(actor_role) => if may_invite(actor_role, s.role) {
                invite_go(s, InviteStage::RevokePrevious, InviteAction::RevokePrevious)
            } else {
                invite_fail(s, InviteFailure::InvitationInvalid)
            },
            Err(MembershipMutationError::Unavailable) => unavailable,
            Err(_) => invite_fail(s, InviteFailure::InvitationInvalid),
        },
        (InviteStage::RevokePrevious, InviteEvent::PreviousRevoked(ok)) => if ok {
            invite_go(s, InviteStage::Store, InviteAction::StoreInvitation)
        } else {
            unavailable
        },
        (InviteStage::Store, InviteEvent::Stored(ok)) => if ok {
            invite_go(s, InviteStage::ReadName, InviteAction::ReadOrganizationName)
        } else {
            unavailable
        },
        (InviteStage::ReadName, InviteEvent::NameRead(ok)) => if ok {
            invite_go(s, InviteStage::BuildUrl, InviteAction::BuildActionUrl)
        } else {
            unavailable
        },
        (InviteStage::BuildUrl, InviteEvent::UrlBuilt(ok)) => if ok {
            invite_go(s, InviteStage::Enqueue, InviteAction::EnqueueEmail)
        } else {
            unavailable
        },
        (InviteStage::Enqueue, InviteEvent::Enqueued(ok)) => if ok {
            invite_accepted(s)
        } else {
            (
                InviteState { stage: InviteStage::Done, ..s },
                InviteAction::Finish(
                    InviteEnd {
                        accepted: false,
                        failure: Some(InviteFailure::ControlPlaneUnavailable),
                        audit: Some(AuditOutcome::Failure),
                        revoke_invitation: true,
                    },
                ),
            )
        },
        _ => invite_fail(s, InviteFailure::Internal),
    }
}

fn may_invite_exec(actor_role: OrganizationRole, role: OrganizationRole) -> (r: bool)
    ensures
        r == may_invite(actor_role, role),
{
    crate::management::invitation_role_permitted(actor_role, role)
}

fn invite_fail_exec(s: InviteState, failure: InviteFailure) -> (r: (InviteState, InviteAction))
    ensures
        r == invite_fail(s, failure),
{
    (
        InviteState { stage: InviteStage::Done, ..s },
        InviteAction::Finish(
            InviteEnd { accepted: false, failure: Some(failure), audit: None, revoke_invitation: false },
        ),
    )
}

fn invite_accepted_exec(s: InviteState) -> (r: (InviteState, InviteAction))
    ensures
        r == invite_accepted(s),
{
    (
        InviteState { stage: InviteStage::Done, ..s },
        InviteAction::Finish(
            InviteEnd {
                accepted: true,
                failure: None,
                audit: Some(AuditOutcome::Success),
                revoke_invitation: false,
            },
        ),
    )
}

fn invite_go_exec(s: InviteState, stage: InviteStage, action: InviteAction) -> (r: (InviteState, InviteAction))
    ensures
        r == invite_go(s, stage, action),
{
    (InviteState { stage, ..s }, action)
}

/// Starts issuing an invitation (see `invite_begin`).
pub fn invite_start(actor_role: OrganizationRole, role: OrganizationRole) -> (r: (InviteState, InviteAction))
    ensures
        r == invite_begin(actor_role, role),
{
    let s = InviteState { stage: InviteStage::RateLimit, role };
    if may_invite_exec(actor_role, role) {
        (s, InviteAction::CheckRateLimit)
    } else {
        invite_fail_exec(s, InviteFailure::InvitationInvalid)
    }
}

fn invite_locked(s: InviteState, locked: Result<OrganizationRole, MembershipMutationError>) -> (r: (
    InviteState,
    InviteAction,
))
    requires
        s.stage == InviteStage::LockActor,
    ensures
        r == invite_next(s, InviteEvent::ActorLocked(locked)),
{
    match locked {
        Ok(actor_role) => if may_invite_exec(actor_role, s.role) {
            invite_go_exec(s, InviteStage::RevokePrevious, InviteAction::RevokePrevious)
        } else {
            invite_fail_exec(s, InviteFailure::InvitationInvalid)
        },
        Err(MembershipMutationError::Unavailable) => invite_fail_exec(s, InviteFailure::ControlPlaneUnavailable),
        Err(_) => invite_fail_exec(s, InviteFailure::InvitationInvalid),
    }
}

fn invite_early(s: InviteState, e: InviteEvent) -> (r: (InviteState, InviteAction))
    requires
        s.stage == InviteStage::RateLimit || s.stage == InviteStage::NormalizeEmail || s.stage
            == InviteStage::Audit || s.stage == InviteStage::LookUpUser,
    ensures
        r == invite_next(s, e),
{
    match (s.stage, e) {
        (InviteStage::RateLimit, InviteEvent::RateChecked(ok)) => if ok {
            invite_go_exec(s, InviteStage::NormalizeEmail, InviteAction::NormalizeEmail)
        } else {
            invite_fail_exec(s, InviteFailure::RateLimited)
        },
        (InviteStage::NormalizeEmail, InviteEvent::EmailNormalized(ok)) => if ok {
            invite_go_exec(s, InviteStage::Audit, InviteAction::WriteRequestedAudit)
        } else {
            invite_fail_exec(s, InviteFailure::InvitationInvalid)
        },
        (InviteStage::Audit, InviteEvent::Audited(ok)) => if ok {
            invite_go_exec(s, InviteStage::LookUpUser, InviteAction::LookUpUser)
        } else {
            invite_fail_exec(s, InviteFailure::AuditUnavailable)
        },
        (InviteStage::LookUpUser, InviteEvent::UserLookedUp(found)) => match found {
            Ok(true) => invite_accepted_exec(s),
            Ok(false) => invite_go_exec(s, InviteStage::IssueToken, InviteAction::IssueToken),
            Err(()) => invite_fail_exec(s, InviteFailure::ControlPlaneUnavailable),
        },
        _ => invite_fail_exec(s, InviteFailure::Internal),
    }
}

fn invite_late(s: InviteState, e: InviteEvent) -> (r: (InviteState, InviteAction))
    requires
        s.stage != InviteStage::RateLimit && s.stage != InviteStage::NormalizeEmail && s.stage
            != InviteStage::Audit && s.stage != InviteStage::LookUpUser && s.stage != InviteStage::LockActor,
    ensures
        r == invite_next(s, e),
{
    match (s.stage, e) {
        (InviteStage::IssueToken, InviteEvent::TokenIssued(ok)) => if ok {
            invite_go_exec(s, InviteStage::Begin, InviteAction::BeginTransaction)
        } else {
            invite_fail_exec(s, InviteFailure::ControlPlaneUnavailable)
        },
        (InviteStage::Begin, InviteEvent::Began(ok)) => if ok {
            invite_go_exec(s, InviteStage::LockActor, InviteAction::LockActor)
        } else {
            invite_fail_exec(s, InviteFailure::ControlPlaneUnavailable)
        },
        (InviteStage::RevokePrevious, InviteEvent::PreviousRevoked(ok)) => if ok {
            invite_go_exec(s, InviteStage::Store, InviteAction::StoreInvitation)
        } else {
            invite_fail_exec(s, InviteFailure::ControlPlaneUnavailable)
        },
        (InviteStage::Store, InviteEvent::Stored(ok)) => if ok {
            invite_go_exec(s, InviteStage::ReadName, InviteAction::ReadOrganizationName)
        } else {
            invite_fail_exec(s, InviteFailure::ControlPlaneUnavailable)
        },
        (InviteStage::ReadName, InviteEvent::NameRead(ok)) => if ok {
            invite_go_exec(s, InviteStage::BuildUrl, InviteAction::BuildActionUrl)
        } else {
            invite_fail_exec(s, InviteFailure::ControlPlaneUnavailable)
        },
        (InviteStage::BuildUrl, InviteEvent::UrlBuilt(ok)) => if ok {
            invite_go_exec(s, InviteStage::Enqueue, InviteAction::EnqueueEmail)
        } else {
            invite_fail_exec(s, InviteFailure::ControlPlaneUnavailable)
        },
        (InviteStage::Enqueue, InviteEvent::Enqueued(ok)) => if ok {
            invite_accepted_exec(s)
        } else {
            (
                InviteState { stage: InviteStage::Done, ..s },
                InviteAction::Finish(
                    InviteEnd {
                        accepted: false,
                        failure: Some(InviteFailure::ControlPlaneUnavailable),
                        audit: Some(AuditOutcome::Failure),
                        revoke_invitation: true,
                    },
                ),
            )
        },
        _ => invite_fail_exec(s, InviteFailure::Internal),
    }
}

/// Takes one step of issuing an invitation.
pub fn invite_step(s: InviteState, e: InviteEvent) -> (r: (InviteState, InviteAction))
    ensures
        r == invite_next(s, e),
{
    match s.stage {
        InviteStage::RateLimit | InviteStage::NormalizeEmail | InviteStage::Audit | InviteStage::LookUpUser => {
            invite_early(s, e)
        },
        InviteStage::LockActor => match e {
            InviteEvent::ActorLocked(locked) => invite_locked(s, locked),
            _ => invite_fail_exec(s, InviteFailure::Internal),
        },
        _ => invite_late(s, e),
    }
}

/// Existing accounts are not revealed: an address that already has an
/// account is answered and audited exactly as an invitation that was sent.
pub proof fn law_existing_accounts_are_indistinguishable(s: InviteState)
    requires
        s.stage == InviteStage::LookUpUser,
    ensures
        invite_next(s, InviteEvent::UserLookedUp(Ok(true))).1 == invite_next(
            InviteState { stage: InviteStage::Enqueue, ..s },
            InviteEvent::Enqueued(true),
        ).1,
{
}

/// An invitation is only stored once the actor's role, read again under the
/// organization's lock, still permits inviting to its role.
pub proof fn law_invitations_respect_the_locked_role(s: InviteState, e: InviteEvent)
    requires
        invite_next(s, e).0.stage == InviteStage::RevokePrevious,
    ensures
        s.stage == InviteStage::LockActor,
        e matches InviteEvent::ActorLocked(Ok(actor_role)) && may_invite(actor_role, s.role),
{
}

} // verus!
