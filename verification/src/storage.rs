//! Object storage rules of the API: how worker and metering failures map to
//! storage failures, how a storage failure is answered, and how an object
//! checksum is normalized.
use vstd::prelude::*;
use vstd::string::{StrSliceExecFns, StringSliceAdditionalSpecFns};
use crate::billing::{LimitKind, MetricsError};
use crate::errors::{ErrorReply, ExecutionError, MeteringError, RoutingError, reply};
use crate::operation::{hex_pair, hex_value};
use crate::text::{ByteClass, all_in_class, is_hex_digit, str_eq};

verus! {

/// Failures of object storage.
#[derive(Clone, Copy, Debug, PartialEq, Eq, Structural)]
pub enum StorageError {
    RlsDenied,
    InvalidObjectKey,
    InvalidProviderKey,
    InvalidMultipartRequest,
    InvalidGrant,
    InvalidTtl,
    InvalidAuthorizationDecision,
    ExpiredGrant,
    ObjectQuotaExceeded,
    ProjectQuotaExceeded,
    OrganizationQuotaExceeded,
    DuplicateReservation,
    TooManyReservations,
    Provider,
    ProviderMetadataMismatch,
    InvalidConfiguration,
    UnsafeProviderEndpoint,
    Internal,
}

/// The reply to a storage failure.
pub open spec fn storage_reply(error: StorageError) -> (u16, Seq<char>, Seq<char>) {
    match error {
        StorageError::RlsDenied => (403u16, "storage.rls_denied"@, "storage policy denied the operation"@),
        StorageError::InvalidObjectKey | StorageError::InvalidProviderKey | StorageError::InvalidMultipartRequest | StorageError::InvalidGrant | StorageError::InvalidTtl | StorageError::InvalidAuthorizationDecision => (400u16, "storage.invalid_request"@, "storage request is invalid"@),
        StorageError::ExpiredGrant => (401u16, "storage.authorization_expired"@, "storage authorization expired"@),
        StorageError::ObjectQuotaExceeded => (413u16, "storage.object_quota"@, "object exceeds its configured size limit"@),
        StorageError::ProjectQuotaExceeded => (409u16, "storage.project_quota"@, "project storage quota would be exceeded"@),
        StorageError::OrganizationQuotaExceeded => (402u16, "storage.organization_quota"@, "organization storage allowance would be exceeded"@),
        StorageError::DuplicateReservation => (409u16, "storage.duplicate_reservation"@, "storage reservation already exists"@),
        StorageError::TooManyReservations => (429u16, "storage.too_many_pending"@, "too many storage operations are pending"@),
        StorageError::Provider => (502u16, "storage.provider_failed"@, "object provider operation failed"@),
        StorageError::ProviderMetadataMismatch => (409u16, "storage.provider_metadata_mismatch"@, "provider object does not match the authorized upload"@),
        StorageError::InvalidConfiguration | StorageError::UnsafeProviderEndpoint | StorageError::Internal => (503u16, "storage.unavailable"@, "storage service is temporarily unavailable"@),
    }
}

/// Answers a storage failure.
pub fn storage_error(error: StorageError) -> (r: ErrorReply)
    ensures
        r@ == storage_reply(error),
{
    match error {
        StorageError::RlsDenied => reply(403, "storage.rls_denied", "storage policy denied the operation"),
        StorageError::InvalidObjectKey | StorageError::InvalidProviderKey | StorageError::InvalidMultipartRequest | StorageError::InvalidGrant | StorageError::InvalidTtl | StorageError::InvalidAuthorizationDecision => reply(400, "storage.invalid_request", "storage request is invalid"),
        StorageError::ExpiredGrant => reply(401, "storage.authorization_expired", "storage authorization expired"),
        StorageError::ObjectQuotaExceeded => reply(413, "storage.object_quota", "object exceeds its configured size limit"),
        StorageError::ProjectQuotaExceeded => reply(409, "storage.project_quota", "project storage quota would be exceeded"),
        StorageError::OrganizationQuotaExceeded => reply(402, "storage.organization_quota", "organization storage allowance would be exceeded"),
        StorageError::DuplicateReservation => reply(409, "storage.duplicate_reservation", "storage reservation already exists"),
        StorageError::TooManyReservations => reply(429, "storage.too_many_pending", "too many storage operations are pending"),
        StorageError::Provider => reply(502, "storage.provider_failed", "object provider operation failed"),
        StorageError::ProviderMetadataMismatch => reply(409, "storage.provider_metadata_mismatch", "provider object does not match the authorized upload"),
        StorageError::InvalidConfiguration | StorageError::UnsafeProviderEndpoint | StorageError::Internal => reply(503, "storage.unavailable", "storage service is temporarily unavailable"),
    }
}

/// A project that cannot be routed is, to storage, an internal failure.
pub fn map_routing(error: RoutingError) -> (r: StorageError)
    ensures
        r == StorageError::Internal,
{
    match error {
        RoutingError::NotFound | RoutingError::Unavailable | RoutingError::StaleGeneration
        | RoutingError::Inconsistent => StorageError::Internal,
    }
}

/// The storage failure that a worker failure stands for: the worker's
/// storage rejections keep their meaning, a full queue is too many pending
/// operations, anything else is internal.
pub open spec fn storage_failure_of(error: ExecutionError) -> StorageError {
    match error {
        ExecutionError::Rejected { code } => if code@ == "storage.rls_denied"@ {
            StorageError::RlsDenied
        } else if code@ == "storage.object_quota"@ {
            StorageError::ObjectQuotaExceeded
        } else if code@ == "storage.project_quota"@ {
            StorageError::ProjectQuotaExceeded
        } else if code@ == "storage.duplicate_reservation"@ {
            StorageError::DuplicateReservation
        } else if code@ == "storage.invalid_request"@ {
            StorageError::InvalidObjectKey
        } else {
            StorageError::Internal
        },
        ExecutionError::QueueFull => StorageError::TooManyReservations,
        _ => StorageError::Internal,
    }
}

pub fn map_execution(error: ExecutionError) -> (r: StorageError)
    ensures
        r == storage_failure_of(error),
{
    match error {
        ExecutionError::Rejected { code } => {
            let c = code.as_str();
            if str_eq(c, "storage.rls_denied") {
                StorageError::RlsDenied
            } else if str_eq(c, "storage.object_quota") {
                StorageError::ObjectQuotaExceeded
            } else if str_eq(c, "storage.project_quota") {
                StorageError::ProjectQuotaExceeded
            } else if str_eq(c, "storage.duplicate_reservation") {
                StorageError::DuplicateReservation
            } else if str_eq(c, "storage.invalid_request") {
                StorageError::InvalidObjectKey
            } else {
                StorageError::Internal
            }
        },
        ExecutionError::QueueFull => StorageError::TooManyReservations,
        _ => StorageError::Internal,
    }
}

/// An exhausted storage allowance is the organization's quota; any other
/// metering failure is internal.
pub fn map_storage_metering(error: MeteringError) -> (r: StorageError)
    ensures
        r == (if error == MeteringError::Store(MetricsError::LimitExceeded(LimitKind::StorageBytes)) {
            StorageError::OrganizationQuotaExceeded
        } else {
            StorageError::Internal
        }),
{
    match error {
        MeteringError::Store(MetricsError::LimitExceeded(LimitKind::StorageBytes)) => StorageError::OrganizationQuotaExceeded,
        _ => StorageError::Internal,
    }
}

/// What a worker answered to a storage change: an acknowledgement or
/// something else.
#[derive(Clone, Copy, Debug, PartialEq, Eq, Structural)]
pub enum StorageReply {
    StorageAck,
    Other,
}

/// Only an acknowledgement confirms a storage change.
pub fn expect_ack(response: StorageReply) -> (r: Result<(), StorageError>)
    ensures
        r == (if response == StorageReply::StorageAck {
            Ok(())
        } else {
            Err(StorageError::Internal)
        }),
{
    match response {
        StorageReply::StorageAck => Ok(()),
        StorageReply::Other => Err(StorageError::Internal),
    }
}

/// The character of a 6-bit value in the standard base64 alphabet
/// (`A`-`Z`, `a`-`z`, `0`-`9`, `+`, `/`).
pub open spec fn base64_char(v: int) -> char {
    if v < 26 {
        (65 + v) as char
    } else if v < 52 {
        (71 + v) as char
    } else if v < 62 {
        (v - 4) as char
    } else if v == 62 {
        '+'
    } else {
        '/'
    }
}

/// The standard base64 text of some bytes, with padding, as the `base64`
/// crate's `STANDARD` engine encodes it: each group of three bytes becomes
/// four characters of six bits each, and a last group of one or two bytes
/// becomes two or three characters followed by `=` up to four.
pub open spec fn base64_text(bytes: Seq<u8>) -> Seq<char>
    decreases bytes.len(),
{
    if bytes.len() == 0 {
        Seq::empty()
    } else if bytes.len() == 1 {
        let a = bytes[0] as int;
        seq![base64_char(a / 4), base64_char((a % 4) * 16), '=', '=']
    } else if bytes.len() == 2 {
        let a = bytes[0] as int;
        let b = bytes[1] as int;
        seq![base64_char(a / 4), base64_char((a % 4) * 16 + b / 16), base64_char((b % 16) * 4), '=']
    } else {
        let a = bytes[0] as int;
        let b = bytes[1] as int;
        let c = bytes[2] as int;
        seq![
            base64_char(a / 4),
            base64_char((a % 4) * 16 + b / 16),
            base64_char((b % 16) * 4 + c / 64),
            base64_char(c % 64),
        ] + base64_text(bytes.subrange(3, bytes.len() as int))
    }
}


/// No six-bit value is written as the padding character.
proof fn lemma_base64_char_not_pad(v: int)
    requires
        0 <= v < 64,
    ensures
        base64_char(v) != '=',
{
}

/// The length of a base64 text, and its padding: four characters for every
/// started group of three bytes, ending in `=` exactly when the last group is
/// short, and in `==` exactly when it holds one byte.
proof fn lemma_base64_shape(b: Seq<u8>)
    ensures
        base64_text(b).len() == 4 * ((b.len() + 2) / 3),
        b.len() > 0 ==> (base64_text(b).last() == '=' <==> b.len() % 3 != 0),
        b.len() > 0 ==> (base64_text(b)[base64_text(b).len() - 2] == '=' <==> b.len() % 3 == 1),
    decreases b.len(),
{
    if b.len() == 0 {
    } else if b.len() == 1 {
        lemma_base64_char_not_pad(b[0] as int / 4);
        lemma_base64_char_not_pad((b[0] as int % 4) * 16);
    } else if b.len() == 2 {
        lemma_base64_char_not_pad(b[0] as int / 4);
        lemma_base64_char_not_pad((b[0] as int % 4) * 16 + b[1] as int / 16);
        lemma_base64_char_not_pad((b[1] as int % 16) * 4);
    } else {
        let rest = b.subrange(3, b.len() as int);
        lemma_base64_shape(rest);
        let a = b[0] as int;
        let c1 = b[1] as int;
        let c2 = b[2] as int;
        lemma_base64_char_not_pad((c1 % 16) * 4 + c2 / 64);
        lemma_base64_char_not_pad(c2 % 64);
        let head = seq![
            base64_char(a / 4),
            base64_char((a % 4) * 16 + c1 / 16),
            base64_char((c1 % 16) * 4 + c2 / 64),
            base64_char(c2 % 64),
        ];
        assert(base64_text(b) == head + base64_text(rest));
        if rest.len() > 0 {
            assert(base64_text(b).last() == base64_text(rest).last());
            assert(base64_text(rest).len() >= 4);
            assert(base64_text(b)[base64_text(b).len() - 2] == base64_text(rest)[base64_text(
                rest,
            ).len() - 2]);
        } else {
            assert(base64_text(rest).len() == 0);
        }
    }
}

/// Two byte sequences with the same base64 text have the same length.
proof fn lemma_base64_length_determined(b1: Seq<u8>, b2: Seq<u8>)
    requires
        base64_text(b1) == base64_text(b2),
    ensures
        b1.len() == b2.len(),
{
    lemma_base64_shape(b1);
    lemma_base64_shape(b2);
}

/// Calls `base64::engine::general_purpose::STANDARD.encode`. The contract
/// claims that the text is `base64_text` of the bytes.
#[verifier::external_body]
fn base64_encode(bytes: &[u8]) -> (r: String)
    ensures
        r@ == base64_text(bytes@),
{
    base64::Engine::encode(&base64::engine::general_purpose::STANDARD, bytes)
}

/// Calls `base64::engine::general_purpose::STANDARD.decode`. That engine
/// requires canonical padding and no trailing bits, so it accepts exactly
/// the texts that its encoder writes: the contract claims that decoded bytes
/// encode back to the text (`base64_text`), and that a refused text is the
/// encoding of no bytes.
#[verifier::external_body]
fn base64_decode(text: &str) -> (r: Option<Vec<u8>>)
    ensures
        match r {
            Some(v) => base64_text(v@) == text@,
            None => forall|b: Seq<u8>| #[trigger] base64_text(b) != text@,
        },
{
    base64::Engine::decode(&base64::engine::general_purpose::STANDARD, text).ok()
}

/// The 32 bytes that 64 hexadecimal digits stand for.
pub open spec fn hex_digest(text: Seq<u8>) -> Seq<u8> {
    Seq::new(32, |i: int| hex_pair(text[2 * i], text[2 * i + 1]).unwrap())
}

/// An object's SHA-256 checksum in the form the provider is given: 64
/// hexadecimal digits are re-encoded as base64; base64 text that decodes to
/// 32 bytes is kept as it is; anything else is refused.
pub open spec fn checksum_normalized(value: &str) -> Result<Seq<char>, StorageError> {
    let b = value.spec_bytes();
    if b.len() == 64 && forall|i: int| 0 <= i < 64 ==> is_hex_digit(#[trigger] b[i]) {
        Ok(base64_text(hex_digest(b)))
    } else {
        if exists|d: Seq<u8>| d.len() == 32 && #[trigger] base64_text(d) == value@ {
            Ok(value@)
        } else {
            Err(StorageError::InvalidObjectKey)
        }
    }
}

/// Normalizes an object checksum (see `checksum_normalized`).
pub fn normalize_checksum(value: &str) -> (r: Result<String, StorageError>)
    ensures
        match r {
            Ok(s) => checksum_normalized(value) == Ok::<Seq<char>, StorageError>(s@),
            Err(e) => checksum_normalized(value) == Err::<Seq<char>, StorageError>(e),
        },
{
    let b = value.as_bytes();
    let mut all_hex = b.len() == 64;
    let mut i: usize = 0;
    while all_hex && i < 64
        invariant
            b@ == value.spec_bytes(),
            all_hex ==> b@.len() == 64,
            i <= 64,
            all_hex ==> forall|k: int| 0 <= k < i ==> is_hex_digit(#[trigger] b@[k]),
            !all_hex ==> !(b@.len() == 64 && forall|k: int| 0 <= k < 64 ==> is_hex_digit(#[trigger] b@[k])),
        decreases 64 - i,
    {
        let c = b[i];
        if !((0x30u8 <= c && c <= 0x39u8) || (0x41u8 <= c && c <= 0x46u8) || (0x61u8 <= c && c
            <= 0x66u8)) {
            all_hex = false;
        }
        i = i + 1;
    }
    if all_hex {
        let mut digest: Vec<u8> = Vec::new();
        let mut j: usize = 0;
        while j < 32
            invariant
                b@ == value.spec_bytes(),
                b@.len() == 64,
                forall|k: int| 0 <= k < 64 ==> is_hex_digit(#[trigger] b@[k]),
                j <= 32,
                digest@.len() == j,
                forall|k: int| 0 <= k < j ==> #[trigger] digest@[k] == hex_digest(b@)[k],
            decreases 32 - j,
        {
            let hi = b[2 * j];
            let lo = b[2 * j + 1];
            proof {
                assert(is_hex_digit(b@[2 * j as int]));
                assert(is_hex_digit(b@[2 * j + 1]));
            }
            let hv = if hi <= 0x39u8 { hi - 0x30 } else if hi <= 0x46u8 { hi - 0x41 + 10 } else { hi - 0x61 + 10 };
            let lv = if lo <= 0x39u8 { lo - 0x30 } else if lo <= 0x46u8 { lo - 0x41 + 10 } else { lo - 0x61 + 10 };
            proof {
                assert(hv == hex_value(hi));
                assert(lv == hex_value(lo));
            }
            digest.push(hv * 16 + lv);
            j = j + 1;
        }
        proof {
            assert(digest@ =~= hex_digest(b@));
        }
        return Ok(base64_encode(digest.as_slice()));
    }
    match base64_decode(value) {
        Some(d) => if d.len() == 32 {
            Ok(value.to_owned())
        } else {
            proof {
                assert forall|e: Seq<u8>| e.len() == 32 implies #[trigger] base64_text(e) != value@ by {
                    if base64_text(e) == value@ {
                        lemma_base64_length_determined(e, d@);
                    }
                }
            }
            Err(StorageError::InvalidObjectKey)
        },
        None => Err(StorageError::InvalidObjectKey),
    }
}


/// What an object-storage authorization was for.
#[derive(Clone, Copy, Debug, PartialEq, Eq, Structural)]
pub enum StorageAction {
    Upload,
    Download,
    Delete,
    List,
    CreateMultipart,
    UploadPart,
    CompleteMultipart,
    AbortMultipart,
}

/// How the provider is asked to clean up after an abandoned authorization.
#[derive(Clone, Copy, Debug, PartialEq, Eq, Structural)]
pub enum CleanupCall {
    /// Delete the object under the provider key.
    DeleteObject,
    /// Abort the multipart upload with the item's upload identifier.
    AbortUpload,
    /// Abort every multipart upload under the provider key.
    AbortUploadsForKey,
    /// Nothing can be cleaned up; the item is retried.
    Refuse(StorageError),
}

/// The cleanup of an item: written objects are deleted; multipart uploads
/// are aborted by their identifier, or, for an upload that was being
/// created, by key; reads have nothing to clean up.
pub fn cleanup_call(action: StorageAction, has_upload_id: bool) -> (r: CleanupCall)
    ensures
        r == match action {
            StorageAction::Upload | StorageAction::Delete | StorageAction::CompleteMultipart => CleanupCall::DeleteObject,
            StorageAction::CreateMultipart | StorageAction::UploadPart | StorageAction::AbortMultipart => {
                if has_upload_id {
                    CleanupCall::AbortUpload
                } else if action == StorageAction::CreateMultipart {
                    CleanupCall::AbortUploadsForKey
                } else {
                    CleanupCall::Refuse(StorageError::InvalidMultipartRequest)
                }
            },
            StorageAction::Download | StorageAction::List => CleanupCall::Refuse(
                StorageError::InvalidAuthorizationDecision,
            ),
        },
{
    match action {
        StorageAction::Upload | StorageAction::Delete | StorageAction::CompleteMultipart => CleanupCall::DeleteObject,
        StorageAction::CreateMultipart => {
            if has_upload_id {
                CleanupCall::AbortUpload
            } else {
                CleanupCall::AbortUploadsForKey
            }
        },
        StorageAction::UploadPart | StorageAction::AbortMultipart => {
            if has_upload_id {
                CleanupCall::AbortUpload
            } else {
                CleanupCall::Refuse(StorageError::InvalidMultipartRequest)
            }
        },
        StorageAction::Download | StorageAction::List => CleanupCall::Refuse(
            StorageError::InvalidAuthorizationDecision,
        ),
    }
}

/// Everything a cleanup removed: expired reservations, objects removed at
/// the provider and local reservations, summed saturating.
pub fn cleanup_removed_total(removed_reservations: u64, provider_removed: u64, local_removed: usize) -> (r: u64)
    ensures
        r == crate::metering::sat_add(
            crate::metering::sat_add(removed_reservations, provider_removed),
            if local_removed <= u64::MAX { local_removed as u64 } else { u64::MAX },
        ),
{
    let local: u64 = if local_removed as u128 <= u64::MAX as u128 {
        local_removed as u64
    } else {
        u64::MAX
    };
    let partial = match removed_reservations.checked_add(provider_removed) {
        Some(v) => v,
        None => u64::MAX,
    };
    match partial.checked_add(local) {
        Some(v) => v,
        None => u64::MAX,
    }
}

} // verus!
