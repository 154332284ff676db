//! Verified request-handling logic of the FFDB data API: route naming, SQL
//! shape redaction, client-address resolution, instance administration rules,
//! usage metering and reporting decisions, and the error contract.
use vstd::prelude::*;

pub mod text;
pub mod routes;
pub mod ids;
pub mod outside;
pub mod sql_shape;
pub mod usage_reporting;
pub mod billing;
pub mod encoding;
pub mod clock;
pub mod instance;
pub mod provider;
pub mod plans;
pub mod catalog;
pub mod errors;
pub mod management;
pub mod client_ip;
pub mod operation;
pub mod rate_limit;
pub mod metering;
pub mod dispatch;
pub mod observability;
pub mod storage;
pub mod accounts;
pub mod summary;
pub mod project_creation;
pub mod invitations;
pub mod shape_laws;
pub mod pending;
pub mod api_key_creation;

verus! {

} // verus!
