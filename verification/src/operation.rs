//! The operations a project database worker runs, as the API reasons about
//! them: what each is audited as, what it costs against rate limits, which
//! principal may run it against which project, and how a restore is
//! confirmed.
use vstd::prelude::*;
use vstd::string::{StrSliceExecFns, StringSliceAdditionalSpecFns};
use crate::errors::CredentialError;
use crate::ids::{BackupId, ProjectId};
use crate::text::{is_hex_digit, str_eq};

verus! {

/// A worker operation, with what the API reads of its payload: the read-only
/// classification of each SQL statement (`None` where it could not be
/// classified), the number of sync mutations, and the page size of a
/// listing.
#[derive(Clone, Debug)]
pub enum WorkerOperation {
    Query { read_only: Option<bool> },
    Transaction { statements: Vec<Option<bool>> },
    ApplyMigration,
    RollbackMigration,
    MigrationHistory,
    Schema,
    Policies,
    Snapshot,
    SyncPull,
    SyncPush { mutations: u64 },
    Backup { backup_id: BackupId },
    Restore { backup_id: BackupId },
    IntegrityCheck,
    StorageAuthorize,
    StorageReserve,
    StorageCommit,
    StorageReceipt,
    StorageUsage,
    StorageRelease,
    StorageList { limit: u32 },
    StorageCleanup,
    StorageCleanupClaim,
    StorageCleanupAck,
    StorageBuckets,
    StorageCreateBucket,
}

/// A batch cost: the count, at least one and at most ten.
pub open spec fn bounded_cost(n: nat) -> u32 {
    if n < 1 {
        1
    } else if n > 10 {
        10
    } else {
        n as u32
    }
}

/// The cost of listing up to `limit` objects: one per hundred, rounded up,
/// between one and ten.
pub open spec fn list_cost(limit: u32) -> u32 {
    let pages = if limit + 99 <= u32::MAX {
        ((limit + 99) / 100) as nat
    } else {
        (u32::MAX / 100) as nat
    };
    bounded_cost(pages)
}

/// What an operation is audited as (action and resource kind) and its cost.
pub open spec fn descriptor(operation: WorkerOperation) -> (Seq<char>, Seq<char>, u32) {
    match operation {
        WorkerOperation::Query { .. } => ("database.query"@, "query"@, 1u32),
        WorkerOperation::Transaction { statements } => ("database.transaction"@, "transaction"@, bounded_cost(statements.len() as nat)),
        WorkerOperation::ApplyMigration => ("database.migration.apply"@, "migration"@, 10u32),
        WorkerOperation::RollbackMigration => ("database.migration.rollback"@, "migration"@, 10u32),
        WorkerOperation::MigrationHistory => ("database.migration.history"@, "migration"@, 1u32),
        WorkerOperation::Schema => ("database.schema.read"@, "schema"@, 1u32),
        WorkerOperation::Policies => ("database.policy.read"@, "policy"@, 1u32),
        WorkerOperation::Snapshot => ("database.snapshot.read"@, "snapshot"@, 5u32),
        WorkerOperation::SyncPull => ("database.sync.pull"@, "sync"@, 1u32),
        WorkerOperation::SyncPush { mutations } => ("database.sync.push"@, "sync"@, bounded_cost(mutations as nat)),
        WorkerOperation::Backup { .. } => ("database.backup.create"@, "backup"@, 10u32),
        WorkerOperation::Restore { .. } => ("database.backup.restore"@, "backup"@, 10u32),
        WorkerOperation::IntegrityCheck => ("database.integrity.check"@, "database"@, 5u32),
        WorkerOperation::StorageAuthorize => ("storage.authorize"@, "object"@, 2u32),
        WorkerOperation::StorageReserve => ("storage.reserve"@, "object"@, 2u32),
        WorkerOperation::StorageCommit => ("storage.commit"@, "object"@, 2u32),
        WorkerOperation::StorageReceipt => ("storage.receipt"@, "object"@, 1u32),
        WorkerOperation::StorageUsage => ("storage.usage"@, "object"@, 1u32),
        WorkerOperation::StorageRelease => ("storage.release"@, "object"@, 1u32),
        WorkerOperation::StorageList { limit } => ("storage.list"@, "object"@, list_cost(limit)),
        WorkerOperation::StorageCleanup => ("storage.cleanup"@, "object"@, 5u32),
        WorkerOperation::StorageCleanupClaim => ("storage.cleanup.claim"@, "object"@, 5u32),
        WorkerOperation::StorageCleanupAck => ("storage.cleanup.ack"@, "object"@, 2u32),
        WorkerOperation::StorageBuckets => ("storage.bucket.list"@, "bucket"@, 1u32),
        WorkerOperation::StorageCreateBucket => ("storage.bucket.create"@, "bucket"@, 3u32),
    }
}

fn clamp_cost(n: u64) -> (r: u32)
    ensures
        r == bounded_cost(n as nat),
{
    if n < 1 {
        1
    } else if n > 10 {
        10
    } else {
        n as u32
    }
}

/// The audit action, resource kind and rate-limit cost of an operation.
pub fn operation_descriptor(operation: &WorkerOperation) -> (r: (&'static str, &'static str, u32))
    ensures
        (r.0@, r.1@, r.2) == descriptor(*operation),
        1 <= r.2 <= 10,
{
    match operation {
        WorkerOperation::Query { .. } => ("database.query", "query", 1),
        WorkerOperation::Transaction { statements } => ("database.transaction", "transaction", clamp_cost(statements.len() as u64)),
        WorkerOperation::ApplyMigration => ("database.migration.apply", "migration", 10),
        WorkerOperation::RollbackMigration => ("database.migration.rollback", "migration", 10),
        WorkerOperation::MigrationHistory => ("database.migration.history", "migration", 1),
        WorkerOperation::Schema => ("database.schema.read", "schema", 1),
        WorkerOperation::Policies => ("database.policy.read", "policy", 1),
        WorkerOperation::Snapshot => ("database.snapshot.read", "snapshot", 5),
        WorkerOperation::SyncPull => ("database.sync.pull", "sync", 1),
        WorkerOperation::SyncPush { mutations } => ("database.sync.push", "sync", clamp_cost(*mutations)),
        WorkerOperation::Backup { .. } => ("database.backup.create", "backup", 10),
        WorkerOperation::Restore { .. } => ("database.backup.restore", "backup", 10),
        WorkerOperation::IntegrityCheck => ("database.integrity.check", "database", 5),
        WorkerOperation::StorageAuthorize => ("storage.authorize", "object", 2),
        WorkerOperation::StorageReserve => ("storage.reserve", "object", 2),
        WorkerOperation::StorageCommit => ("storage.commit", "object", 2),
        WorkerOperation::StorageReceipt => ("storage.receipt", "object", 1),
        WorkerOperation::StorageUsage => ("storage.usage", "object", 1),
        WorkerOperation::StorageRelease => ("storage.release", "object", 1),
        WorkerOperation::StorageList { limit } => ("storage.list", "object", clamp_cost((limit.saturating_add(99) / 100) as u64)),
        WorkerOperation::StorageCleanup => ("storage.cleanup", "object", 5),
        WorkerOperation::StorageCleanupClaim => ("storage.cleanup.claim", "object", 5),
        WorkerOperation::StorageCleanupAck => ("storage.cleanup.ack", "object", 2),
        WorkerOperation::StorageBuckets => ("storage.bucket.list", "bucket", 1),
        WorkerOperation::StorageCreateBucket => ("storage.bucket.create", "bucket", 3),
    }
}

/// The principal a request runs as: a developer key (bound to its project
/// when the key was verified), or an end user of one project.
#[derive(Clone, Copy, Debug, PartialEq, Eq, Structural)]
pub enum ExecutionMode {
    Developer,
    EndUser { project_id: ProjectId },
}

/// An end user may only act on the project their session belongs to.
pub fn execution_mode_matches_project(mode: &ExecutionMode, project_id: ProjectId) -> (r: bool)
    ensures
        r == match *mode {
            ExecutionMode::EndUser { project_id: p } => p == project_id,
            ExecutionMode::Developer => true,
        },
{
    match mode {
        ExecutionMode::EndUser { project_id: p } => p.0 == project_id.0,
        ExecutionMode::Developer => true,
    }
}

/// What a worker answered to a restore: the backup it restored, or another
/// kind of answer.
#[derive(Clone, Copy, Debug, PartialEq, Eq, Structural)]
pub enum RestoreReply {
    Restored { backup_id: BackupId },
    Other,
}

/// A restore only succeeds when the worker restored the backup that was
/// asked for.
pub fn restore_response_matches(expected: BackupId, response: &RestoreReply) -> (r: bool)
    ensures
        r == (*response == RestoreReply::Restored { backup_id: expected }),
{
    match response {
        RestoreReply::Restored { backup_id } => backup_id.0 == expected.0,
        RestoreReply::Other => false,
    }
}

/// Where a restore failed.
#[derive(Clone, Copy, Debug, PartialEq, Eq, Structural)]
pub enum RestoreFailureStage {
    WorkerResponseMismatch,
}

impl RestoreFailureStage {
    pub fn name(self) -> (r: &'static str)
        ensures
            r@ == "worker_response_mismatch"@,
    {
        match self {
            RestoreFailureStage::WorkerResponseMismatch => "worker_response_mismatch",
        }
    }
}

/// The value of a hexadecimal digit.
pub open spec fn hex_value(b: u8) -> u8 {
    if 0x30 <= b <= 0x39 {
        (b - 0x30) as u8
    } else if 0x41 <= b <= 0x46 {
        (b - 0x41 + 10) as u8
    } else {
        (b - 0x61 + 10) as u8
    }
}

/// The byte that two characters of hexadecimal text stand for, read as
/// `u8::from_str_radix(pair, 16)` reads them: two digits, or a `+` sign and
/// one digit.
pub open spec fn hex_pair(first: u8, second: u8) -> Option<u8> {
    if first == 0x2Bu8 && is_hex_digit(second) {
        Some(hex_value(second))
    } else if is_hex_digit(first) && is_hex_digit(second) {
        Some((hex_value(first) * 16 + hex_value(second)) as u8)
    } else {
        None
    }
}

/// The 32 bytes that 64 characters of hexadecimal text stand for, pair by
/// pair.
pub open spec fn hex_checksum(text: Seq<u8>) -> Option<Seq<u8>> {
    if text.len() == 64 && forall|i: int| 0 <= i < 32 ==> (#[trigger] hex_pair(text[2 * i], text[2 * i + 1])) is Some {
        Some(Seq::new(32, |i: int| hex_pair(text[2 * i], text[2 * i + 1]).unwrap()))
    } else {
        None
    }
}

/// The byte at `i` does not continue a multi-byte character, so the text
/// can be cut there.
pub open spec fn cuttable_at(text: Seq<u8>, i: int) -> bool {
    !(0x80u8 <= text[i] < 0xC0u8)
}

fn hex_digit_value(b: u8) -> (r: Option<u8>)
    ensures
        is_hex_digit(b) ==> r == Some(hex_value(b)),
        !is_hex_digit(b) ==> r is None,
{
    if 0x30u8 <= b && b <= 0x39u8 {
        Some(b - 0x30)
    } else if 0x41u8 <= b && b <= 0x46u8 {
        Some(b - 0x41 + 10)
    } else if 0x61u8 <= b && b <= 0x66u8 {
        Some(b - 0x61 + 10)
    } else {
        None
    }
}

fn pair_value(first: u8, second: u8) -> (r: Option<u8>)
    ensures
        r == hex_pair(first, second),
{
    let lo = match hex_digit_value(second) {
        Some(v) => v,
        None => {
            return None;
        },
    };
    if first == 0x2Bu8 {
        return Some(lo);
    }
    match hex_digit_value(first) {
        Some(hi) => Some(hi * 16 + lo),
        None => None,
    }
}

/// Reads a SHA-256 checksum written as 64 hexadecimal characters, two per
/// byte, pair by pair up to the first pair that is not a byte. Every pair up
/// to that one must lie on character boundaries.
pub fn decode_hex_checksum(value: &str) -> (r: Option<Vec<u8>>)
    requires
        value.spec_bytes().len() == 64 ==> forall|i: int|
            0 <= i < 32 && (forall|k: int|
                0 <= k < i ==> (#[trigger] hex_pair(
                    value.spec_bytes()[2 * k],
                    value.spec_bytes()[2 * k + 1],
                )) is Some) ==> #[trigger] cuttable_at(value.spec_bytes(), 2 * i) && (2 * i + 2
                == 64 || cuttable_at(value.spec_bytes(), 2 * i + 2)),
    ensures
        match r {
            Some(v) => hex_checksum(value.spec_bytes()) == Some(v@),
            None => hex_checksum(value.spec_bytes()) is None,
        },
{
    let b = value.as_bytes();
    if b.len() != 64 {
        return None;
    }
    let mut out: Vec<u8> = Vec::new();
    let mut i: usize = 0;
    while i < 32
        invariant
            b@ == value.spec_bytes(),
            b@.len() == 64,
            i <= 32,
            out@.len() == i,
            forall|k: int| 0 <= k < i ==> (#[trigger] hex_pair(b@[2 * k], b@[2 * k + 1])) is Some,
            forall|k: int|
                0 <= k < i ==> #[trigger] out@[k] == hex_pair(b@[2 * k], b@[2 * k + 1]).unwrap(),
        decreases 32 - i,
    {
        let v = match pair_value(b[2 * i], b[2 * i + 1]) {
            Some(v) => v,
            None => {
                proof {
                    assert(hex_pair(b@[2 * i], b@[2 * i + 1]) is None);
                }
                return None;
            },
        };
        out.push(v);
        i = i + 1;
    }
    proof {
        assert(out@ =~= Seq::new(32, |i: int| hex_pair(b@[2 * i], b@[2 * i + 1]).unwrap()));
    }
    Some(out)
}

/// The bearer token of an `authorization` header: missing when there is no
/// header, invalid when it is not text, lacks the `Bearer ` scheme, or holds
/// an empty or over-long (more than 8192 bytes) token.
pub open spec fn bearer_token(header: Option<Option<&str>>) -> Result<Seq<char>, CredentialError> {
    match header {
        None => Err(CredentialError::Missing),
        Some(None) => Err(CredentialError::Invalid),
        Some(Some(v)) => {
            let t = v@.subrange(7, v@.len() as int);
            if v@.len() >= 7 && v@.subrange(0, 7) == "Bearer "@ && 0 < vstd::utf8::encode_utf8(t).len()
                <= 8192 {
                Ok(t)
            } else {
                Err(CredentialError::Invalid)
            }
        },
    }
}

/// Reads the bearer token of a request from its `authorization` header
/// (`None` where there is none, `Some(None)` where it is not text).
pub fn bearer<'a>(header: Option<Option<&'a str>>) -> (r: Result<&'a str, CredentialError>)
    ensures
        match r {
            Ok(t) => bearer_token(header) == Ok::<Seq<char>, CredentialError>(t@),
            Err(e) => bearer_token(header) == Err::<Seq<char>, CredentialError>(e),
        },
{
    let value = match header {
        None => {
            return Err(CredentialError::Missing);
        },
        Some(None) => {
            return Err(CredentialError::Invalid);
        },
        Some(Some(v)) => v,
    };
    let n = value.unicode_len();
    if n < 7 {
        return Err(CredentialError::Invalid);
    }
    let scheme = value.substring_char(0, 7);
    if !str_eq(scheme, "Bearer ") {
        return Err(CredentialError::Invalid);
    }
    let token = value.substring_char(7, n);
    let len = token.as_bytes().len();
    if len == 0 || len > 8192 {
        return Err(CredentialError::Invalid);
    }
    Ok(token)
}


/// The most tables a snapshot may be filtered to.
pub const MAX_SNAPSHOT_TABLES: usize = 256;

/// The longest table name a snapshot filter may hold, in bytes.
pub const MAX_SNAPSHOT_TABLE_BYTES: usize = 128;

/// The message of a snapshot filter that is refused.
pub open spec fn invalid_snapshot_filter() -> &'static str {
    "snapshot table filters are invalid"
}

/// A snapshot filter pair names one table: its name is `table` and its value
/// is a table name of 1 to 128 bytes.
pub open spec fn table_pair_ok(pair: (Seq<char>, Seq<char>)) -> bool {
    pair.0 == "table"@ && 0 < vstd::utf8::encode_utf8(pair.1).len() <= MAX_SNAPSHOT_TABLE_BYTES
}

/// The tables named by decoded filter pairs: every pair must name a table,
/// at most 256 of them; none named means no filter.
pub open spec fn tables_of_pairs(pairs: Seq<(Seq<char>, Seq<char>)>) -> Result<Option<Seq<Seq<char>>>, ()> {
    if pairs.len() <= MAX_SNAPSHOT_TABLES && forall|i: int|
        0 <= i < pairs.len() ==> table_pair_ok(#[trigger] pairs[i]) {
        if pairs.len() == 0 {
            Ok(None)
        } else {
            Ok(Some(pairs.map_values(|p: (Seq<char>, Seq<char>)| p.1)))
        }
    } else {
        Err(())
    }
}

/// The answer of a snapshot filter, against what it should be.
pub open spec fn filter_answer(
    r: Result<Option<Vec<String>>, &'static str>,
    expected: Result<Option<Seq<Seq<char>>>, ()>,
) -> bool {
    match (r, expected) {
        (Ok(None), Ok(None)) => true,
        (Ok(Some(v)), Ok(Some(t))) => v@.map_values(|s: String| s@) == t,
        (Err(m), Err(())) => m == invalid_snapshot_filter(),
        _ => false,
    }
}

/// Reads the table filter from the decoded pairs of a snapshot query.
pub fn snapshot_tables_from_pairs(pairs: &[(String, String)]) -> (r: Result<Option<Vec<String>>, &'static str>)
    ensures
        filter_answer(r, tables_of_pairs(crate::outside::pair_views(pairs@))),
{
    let ghost spec_pairs = crate::outside::pair_views(pairs@);
    let mut tables: Vec<String> = Vec::new();
    let mut i: usize = 0;
    proof {
        assert(spec_pairs.len() == pairs@.len());
    }
    while i < pairs.len()
        invariant
            i <= pairs@.len(),
            spec_pairs == crate::outside::pair_views(pairs@),
            pairs@.len() == spec_pairs.len(),
            tables@.len() == i,
            i <= MAX_SNAPSHOT_TABLES,
            forall|k: int| 0 <= k < i ==> table_pair_ok(#[trigger] spec_pairs[k]),
            forall|k: int| 0 <= k < i ==> (#[trigger] tables@[k])@ == spec_pairs[k].1,
        decreases pairs@.len() - i,
    {
        let (name, value) = &pairs[i];
        proof {
            assert(spec_pairs[i as int] == (pairs@[i as int].0@, pairs@[i as int].1@));
        }
        let n = value.as_str().as_bytes().len();
        if !str_eq(name.as_str(), "table") || n == 0 || n > MAX_SNAPSHOT_TABLE_BYTES
            || tables.len() >= MAX_SNAPSHOT_TABLES {
            proof {
                if tables@.len() < MAX_SNAPSHOT_TABLES {
                    assert(!table_pair_ok(spec_pairs[i as int]));
                }
            }
            return Err("snapshot table filters are invalid");
        }
        tables.push(value.clone());
        i = i + 1;
    }
    if tables.len() == 0 {
        return Ok(None);
    }
    proof {
        assert(tables@.map_values(|s: String| s@) =~= spec_pairs.map_values(
            |p: (Seq<char>, Seq<char>)| p.1,
        ));
    }
    Ok(Some(tables))
}

/// Reads the table filter of a snapshot request from its raw query string:
/// none for an absent or empty query, else the tables that its decoded
/// pairs name (see `tables_of_pairs`).
pub fn snapshot_tables(raw_query: Option<&str>) -> (r: Result<Option<Vec<String>>, &'static str>)
    ensures
        match raw_query {
            None => r == Ok::<Option<Vec<String>>, &'static str>(None),
            Some(q) => if q@.len() == 0 {
                r == Ok::<Option<Vec<String>>, &'static str>(None)
            } else {
                filter_answer(r, tables_of_pairs(crate::outside::form_pairs(q.spec_bytes())))
            },
        },
{
    let query = match raw_query {
        Some(q) => q,
        None => {
            return Ok(None);
        },
    };
    if query.unicode_len() == 0 {
        return Ok(None);
    }
    let pairs = crate::outside::form_urlencoded_pairs(query.as_bytes());
    snapshot_tables_from_pairs(pairs.as_slice())
}


/// Where a migration stands in the worker's report.
#[derive(Clone, Copy, Debug, PartialEq, Eq, Structural)]
pub enum MigrationStatus {
    Pending,
    Applying,
    Applied,
    RollingBack,
    RolledBack,
    Failed,
}

/// What the API reads of a worker response before recording it in the
/// control plane: whether a reported checksum decodes, the migration's
/// status, whether a restore verified its integrity and whether the
/// operation carried a restore receipt.
#[derive(Clone, Copy, Debug, PartialEq, Eq, Structural)]
pub enum PersistedResponse {
    Migration { status: MigrationStatus, checksum_ok: bool },
    Backup { checksum_ok: bool },
    Restore { integrity_ok: bool, has_receipt: bool },
    Other,
}

/// What is recorded for a worker response.
#[derive(Clone, Copy, Debug, PartialEq, Eq, Structural)]
pub enum PersistPlan {
    Nothing,
    /// The migration is upserted as applied, or marked rolled back.
    RecordMigration { applied: bool },
    RecordBackup,
    /// The backup, database and project leave the restoring state.
    FinishRestore,
}

/// Why a worker response cannot be recorded.
#[derive(Clone, Copy, Debug, PartialEq, Eq, Structural)]
pub enum PersistRefusal {
    InvalidChecksum,
    /// Migrations and backups are only recorded for a developer principal.
    InvalidActor,
    NonTerminalMigration,
    UnverifiedRestore,
    MissingReceipt,
}

/// The record of a worker response: a migration needs a decodable checksum,
/// a developer actor and a terminal status (in that order); a backup a
/// developer actor and a decodable checksum; a restore a verified integrity
/// and a receipt. Other responses record nothing.
pub open spec fn persistence_of(response: PersistedResponse, developer: bool) -> Result<PersistPlan, PersistRefusal> {
    match response {
        PersistedResponse::Migration { status, checksum_ok } => if !checksum_ok {
            Err(PersistRefusal::InvalidChecksum)
        } else if !developer {
            Err(PersistRefusal::InvalidActor)
        } else if status == MigrationStatus::Applied {
            Ok(PersistPlan::RecordMigration { applied: true })
        } else if status == MigrationStatus::RolledBack {
            Ok(PersistPlan::RecordMigration { applied: false })
        } else {
            Err(PersistRefusal::NonTerminalMigration)
        },
        PersistedResponse::Backup { checksum_ok } => if !developer {
            Err(PersistRefusal::InvalidActor)
        } else if !checksum_ok {
            Err(PersistRefusal::InvalidChecksum)
        } else {
            Ok(PersistPlan::RecordBackup)
        },
        PersistedResponse::Restore { integrity_ok, has_receipt } => if !integrity_ok {
            Err(PersistRefusal::UnverifiedRestore)
        } else if !has_receipt {
            Err(PersistRefusal::MissingReceipt)
        } else {
            Ok(PersistPlan::FinishRestore)
        },
        PersistedResponse::Other => Ok(PersistPlan::Nothing),
    }
}

/// Decides how a worker response is recorded (see `persistence_of`).
pub fn plan_persistence(response: PersistedResponse, developer: bool) -> (r: Result<PersistPlan, PersistRefusal>)
    ensures
        r == persistence_of(response, developer),
{
    match response {
        PersistedResponse::Migration { status, checksum_ok } => if !checksum_ok {
            Err(PersistRefusal::InvalidChecksum)
        } else if !developer {
            Err(PersistRefusal::InvalidActor)
        } else {
            match status {
                MigrationStatus::Applied => Ok(PersistPlan::RecordMigration { applied: true }),
                MigrationStatus::RolledBack => Ok(PersistPlan::RecordMigration { applied: false }),
                _ => Err(PersistRefusal::NonTerminalMigration),
            }
        },
        PersistedResponse::Backup { checksum_ok } => if !developer {
            Err(PersistRefusal::InvalidActor)
        } else if !checksum_ok {
            Err(PersistRefusal::InvalidChecksum)
        } else {
            Ok(PersistPlan::RecordBackup)
        },
        PersistedResponse::Restore { integrity_ok, has_receipt } => if !integrity_ok {
            Err(PersistRefusal::UnverifiedRestore)
        } else if !has_receipt {
            Err(PersistRefusal::MissingReceipt)
        } else {
            Ok(PersistPlan::FinishRestore)
        },
        PersistedResponse::Other => Ok(PersistPlan::Nothing),
    }
}

/// Where a local backup is kept: `local/<project>/<backup>.sqlite3`.
pub fn backup_provider_key(project_id: ProjectId, backup_id: BackupId) -> (r: String)
    ensures
        r@ == "local/"@ + crate::outside::uuid_text(project_id.0) + "/"@ + crate::outside::uuid_text(backup_id.0)
            + ".sqlite3"@,
{
    let mut key = String::new();
    key.append("local/");
    let project = crate::outside::uuid_string(project_id.0);
    key.append(project.as_str());
    key.append("/");
    let backup = crate::outside::uuid_string(backup_id.0);
    key.append(backup.as_str());
    key.append(".sqlite3");
    key
}

} // verus!
