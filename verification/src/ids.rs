//! Identifiers of platform resources. Each is a UUID held as its 128-bit value.
use vstd::prelude::*;

verus! {

/// A project identifier.
#[derive(Clone, Copy, Debug, PartialEq, Eq, Structural)]
pub struct ProjectId(pub u128);

/// An organization identifier.
#[derive(Clone, Copy, Debug, PartialEq, Eq, Structural)]
pub struct OrganizationId(pub u128);

/// A backup identifier.
#[derive(Clone, Copy, Debug, PartialEq, Eq, Structural)]
pub struct BackupId(pub u128);

/// A platform user identifier.
#[derive(Clone, Copy, Debug, PartialEq, Eq, Structural)]
pub struct UserId(pub u128);

} // verus!
