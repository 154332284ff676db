//! Creating an API key once the caller is authorized: the request is checked,
//! the key is issued, the request is audited before anything is stored, the
//! key is stored, and the outcome is audited. The steps that reach the key
//! codec, the audit log and the key store are the caller's; this module
//! decides what comes next from what they answered.
use vstd::prelude::*;
use crate::errors::{ErrorReply, reply};
use crate::management::AuditOutcome;

verus! {

/// Where creating an API key stands.
#[derive(Clone, Copy, Debug, PartialEq, Eq, Structural)]
pub enum ApiKeyStage {
    /// The key is being issued by the codec.
    Issuing,
    /// The request is being written to the audit log.
    AuditingRequest,
    /// The key record is being stored.
    Storing,
    /// The outcome is being audited; `stored` says whether the key was stored.
    AuditingOutcome { stored: bool },
    /// An answer was given.
    Answered,
}

/// What the caller reports back.
#[derive(Clone, Copy, Debug, PartialEq, Eq, Structural)]
pub enum ApiKeyEvent {
    /// Whether the codec issued a key.
    Issued(bool),
    /// Whether the request audit was written.
    RequestAudited(bool),
    /// Whether the key record was stored.
    Stored(bool),
    /// The outcome audit was attempted; a failure there is only logged.
    OutcomeAudited,
}

/// The answer to an API key request.
#[derive(Clone, Copy, Debug, PartialEq, Eq, Structural)]
pub enum ApiKeyAnswer {
    /// `201`, with the issued key.
    Created,
    /// `400 api_key.invalid`.
    Invalid,
    /// `503 api_key.unavailable`.
    Unavailable,
    /// The audit log could not take the request.
    AuditUnavailable,
}

/// What the caller does next.
#[derive(Clone, Copy, Debug, PartialEq, Eq, Structural)]
pub enum ApiKeyAction {
    IssueKey,
    AuditRequest,
    StoreKey,
    AuditOutcome(AuditOutcome),
    Answer(ApiKeyAnswer),
}

/// The first step: an invalid request is answered at once, a valid one goes
/// to the codec.
pub open spec fn api_key_first(request_ok: bool) -> (ApiKeyStage, ApiKeyAction) {
    if request_ok {
        (ApiKeyStage::Issuing, ApiKeyAction::IssueKey)
    } else {
        (ApiKeyStage::Answered, ApiKeyAction::Answer(ApiKeyAnswer::Invalid))
    }
}

/// The action that a stage waits on.
pub open spec fn stage_action(stage: ApiKeyStage) -> ApiKeyAction {
    match stage {
        ApiKeyStage::Issuing => ApiKeyAction::IssueKey,
        ApiKeyStage::AuditingRequest => ApiKeyAction::AuditRequest,
        ApiKeyStage::Storing => ApiKeyAction::StoreKey,
        ApiKeyStage::AuditingOutcome { stored } => ApiKeyAction::AuditOutcome(
            if stored { AuditOutcome::Success } else { AuditOutcome::Failure },
        ),
        ApiKeyStage::Answered => ApiKeyAction::Answer(ApiKeyAnswer::Unavailable),
    }
}

/// The next stage and action after an event. An issue failure answers `503`
/// before anything is audited; a request audit failure answers that the
/// audit is unavailable before anything is stored; a store failure is
/// audited as a failure and answers `503`; a stored key is audited as a
/// success and answered `201`. An event that does not belong to the stage
/// leaves the stage as it is and asks again for its action.
pub open spec fn api_key_next(stage: ApiKeyStage, event: ApiKeyEvent) -> (ApiKeyStage, ApiKeyAction) {
    match (stage, event) {
        (ApiKeyStage::Issuing, ApiKeyEvent::Issued(ok)) => if ok {
            (ApiKeyStage::AuditingRequest, ApiKeyAction::AuditRequest)
        } else {
            (ApiKeyStage::Answered, ApiKeyAction::Answer(ApiKeyAnswer::Unavailable))
        },
        (ApiKeyStage::AuditingRequest, ApiKeyEvent::RequestAudited(ok)) => if ok {
            (ApiKeyStage::Storing, ApiKeyAction::StoreKey)
        } else {
            (ApiKeyStage::Answered, ApiKeyAction::Answer(ApiKeyAnswer::AuditUnavailable))
        },
        (ApiKeyStage::Storing, ApiKeyEvent::Stored(ok)) => (
            ApiKeyStage::AuditingOutcome { stored: ok },
            ApiKeyAction::AuditOutcome(if ok { AuditOutcome::Success } else { AuditOutcome::Failure }),
        ),
        (ApiKeyStage::AuditingOutcome { stored }, ApiKeyEvent::OutcomeAudited) => (
            ApiKeyStage::Answered,
            ApiKeyAction::Answer(if stored { ApiKeyAnswer::Created } else { ApiKeyAnswer::Unavailable }),
        ),
        _ => (stage, stage_action(stage)),
    }
}

/// Starts creating a key from the outcome of the request check
/// (`validate_api_key_request`).
pub fn api_key_start(request_ok: bool) -> (r: (ApiKeyStage, ApiKeyAction))
    ensures
        r == api_key_first(request_ok),
{
    if request_ok {
        (ApiKeyStage::Issuing, ApiKeyAction::IssueKey)
    } else {
        (ApiKeyStage::Answered, ApiKeyAction::Answer(ApiKeyAnswer::Invalid))
    }
}

fn action_of(stage: ApiKeyStage) -> (r: ApiKeyAction)
    ensures
        r == stage_action(stage),
{
    match stage {
        ApiKeyStage::Issuing => ApiKeyAction::IssueKey,
        ApiKeyStage::AuditingRequest => ApiKeyAction::AuditRequest,
        ApiKeyStage::Storing => ApiKeyAction::StoreKey,
        ApiKeyStage::AuditingOutcome { stored } => ApiKeyAction::AuditOutcome(
            if stored { AuditOutcome::Success } else { AuditOutcome::Failure },
        ),
        ApiKeyStage::Answered => ApiKeyAction::Answer(ApiKeyAnswer::Unavailable),
    }
}

/// Takes one step (see `api_key_next`).
pub fn api_key_step(stage: ApiKeyStage, event: ApiKeyEvent) -> (r: (ApiKeyStage, ApiKeyAction))
    ensures
        r == api_key_next(stage, event),
{
    match (stage, event) {
        (ApiKeyStage::Issuing, ApiKeyEvent::Issued(ok)) => if ok {
            (ApiKeyStage::AuditingRequest, ApiKeyAction::AuditRequest)
        } else {
            (ApiKeyStage::Answered, ApiKeyAction::Answer(ApiKeyAnswer::Unavailable))
        },
        (ApiKeyStage::AuditingRequest, ApiKeyEvent::RequestAudited(ok)) => if ok {
            (ApiKeyStage::Storing, ApiKeyAction::StoreKey)
        } else {
            (ApiKeyStage::Answered, ApiKeyAction::Answer(ApiKeyAnswer::AuditUnavailable))
        },
        (ApiKeyStage::Storing, ApiKeyEvent::Stored(ok)) => (
            ApiKeyStage::AuditingOutcome { stored: ok },
            ApiKeyAction::AuditOutcome(if ok { AuditOutcome::Success } else { AuditOutcome::Failure }),
        ),
        (ApiKeyStage::AuditingOutcome { stored }, ApiKeyEvent::OutcomeAudited) => (
            ApiKeyStage::Answered,
            ApiKeyAction::Answer(if stored { ApiKeyAnswer::Created } else { ApiKeyAnswer::Unavailable }),
        ),
        _ => (stage, action_of(stage)),
    }
}

/// The error body of an answer; `201` has none.
pub open spec fn api_key_error_reply(answer: ApiKeyAnswer) -> Option<(u16, Seq<char>, Seq<char>)> {
    match answer {
        ApiKeyAnswer::Created => None,
        ApiKeyAnswer::Invalid => Some((400u16, "api_key.invalid"@, "invalid API key request"@)),
        ApiKeyAnswer::Unavailable => Some((503u16, "api_key.unavailable"@, "API key service is unavailable"@)),
        ApiKeyAnswer::AuditUnavailable => Some(crate::errors::audit_unavailable_reply()),
    }
}

/// The error reply of an answer (see `api_key_error_reply`).
pub fn api_key_error(answer: ApiKeyAnswer) -> (r: Option<ErrorReply>)
    ensures
        match r {
            Some(e) => api_key_error_reply(answer) == Some(e@),
            None => api_key_error_reply(answer) is None,
        },
{
    match answer {
        ApiKeyAnswer::Created => None,
        ApiKeyAnswer::Invalid => Some(reply(400, "api_key.invalid", "invalid API key request")),
        ApiKeyAnswer::Unavailable => Some(reply(503, "api_key.unavailable", "API key service is unavailable")),
        ApiKeyAnswer::AuditUnavailable => Some(crate::errors::audit_unavailable()),
    }
}

/// The order of the steps: a key is only stored once the request was
/// audited, `201` is only answered once the key was stored and the outcome
/// audited as a success, and a failed store is audited as a failure before
/// `503` is answered.
pub proof fn law_api_key_steps_keep_their_order(stage: ApiKeyStage, event: ApiKeyEvent)
    ensures
        api_key_next(stage, event).1 == ApiKeyAction::StoreKey ==> (stage
            == ApiKeyStage::AuditingRequest && event == ApiKeyEvent::RequestAudited(true)) || stage
            == ApiKeyStage::Storing,
        api_key_next(stage, event).1 == ApiKeyAction::Answer(ApiKeyAnswer::Created) ==> stage
            == (ApiKeyStage::AuditingOutcome { stored: true }) && event == ApiKeyEvent::OutcomeAudited,
        api_key_next(stage, event).0 == (ApiKeyStage::AuditingOutcome { stored: true }) ==> stage
            == (ApiKeyStage::AuditingOutcome { stored: true }) || (stage == ApiKeyStage::Storing
            && event == ApiKeyEvent::Stored(true)),
        stage == ApiKeyStage::Storing && event == ApiKeyEvent::Stored(false) ==> api_key_next(
            stage,
            event,
        ).1 == ApiKeyAction::AuditOutcome(AuditOutcome::Failure),
{
}

} // verus!
