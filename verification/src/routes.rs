//! Bounded route names for metrics and traces, and the anonymous-admission policy.
use vstd::prelude::*;
use vstd::string::StringSliceAdditionalSpecFns;
use crate::ids::ProjectId;
use crate::outside::{parse_uuid_ascii, uuid_parse};
use crate::text::{pieces, range_eq, ranges_in, split_byte, split_ranges, str_eq, trim_bounds, trim_byte,
    trim_end_byte, trim_start_byte};

verus! {

/// The segments of a request path: the path with its leading and trailing
/// slashes removed, split at every remaining slash.
pub open spec fn path_segments(path: &str) -> Seq<Seq<u8>> {
    split_byte(trim_byte(path.spec_bytes(), 0x2Fu8), 0x2Fu8)
}

/// Whether segment `i` of `pieces(b, r)` is the text `lit`.
fn seg_is(b: &[u8], r: &Vec<(usize, usize)>, i: usize, lit: &str) -> (ok: bool)
    requires
        i < r@.len(),
        ranges_in(r@, 0, b@.len() as int),
    ensures
        ok == (pieces(b@, r@)[i as int] == lit.spec_bytes()),
{
    let (start, end) = r[i];
    range_eq(b, start, end, lit.as_bytes())
}

/// Splits a path into the ranges of its segments (see `path_segments`).
pub fn segment_ranges(path: &str) -> (r: Vec<(usize, usize)>)
    ensures
        ranges_in(r@, 0, path.spec_bytes().len() as int),
        pieces(path.spec_bytes(), r@) == path_segments(path),
{
    let b = path.as_bytes();
    let (lo, hi) = trim_bounds(b, 0x2F);
    split_ranges(b, lo, hi, 0x2F)
}

/// The route template that names the API route of a path, with every
/// identifier replaced by a placeholder; `"unmatched"` for any other path.
pub open spec fn segment_route(s: Seq<Seq<u8>>) -> &'static str {
    if s.len() == 2 && s[0] == "v1".spec_bytes() && s[1] == "instance".spec_bytes() {
        "/v1/instance"
    } else if s.len() == 3 && s[0] == "v1".spec_bytes() && s[1] == "instance".spec_bytes() && s[2] == "observability".spec_bytes() {
        "/v1/instance/observability"
    } else if s.len() == 3 && s[0] == "v1".spec_bytes() && s[1] == "instance".spec_bytes() && s[2] == "updates".spec_bytes() {
        "/v1/instance/updates"
    } else if s.len() == 4 && s[0] == "v1".spec_bytes() && s[1] == "instance".spec_bytes() && s[2] == "updates".spec_bytes() && s[3] == "check".spec_bytes() {
        "/v1/instance/updates/check"
    } else if s.len() == 4 && s[0] == "v1".spec_bytes() && s[1] == "instance".spec_bytes() && s[2] == "updates".spec_bytes() && s[3] == "install".spec_bytes() {
        "/v1/instance/updates/install"
    } else if s.len() == 4 && s[0] == "v1".spec_bytes() && s[1] == "instance".spec_bytes() && s[2] == "updates".spec_bytes() && s[3] == "rollback".spec_bytes() {
        "/v1/instance/updates/rollback"
    } else if s.len() == 4 && s[0] == "v1".spec_bytes() && s[1] == "instance".spec_bytes() && s[2] == "updates".spec_bytes() && s[3] == "settings".spec_bytes() {
        "/v1/instance/updates/settings"
    } else if s.len() == 5 && s[0] == "v1".spec_bytes() && s[1] == "instance".spec_bytes() && s[2] == "updates".spec_bytes() && s[3] == "jobs".spec_bytes() {
        "/v1/instance/updates/jobs/:job"
    } else if s.len() == 4 && s[0] == "v1".spec_bytes() && s[1] == "instance".spec_bytes() && s[2] == "setup".spec_bytes() && s[3] == "status".spec_bytes() {
        "/v1/instance/setup/status"
    } else if s.len() == 3 && s[0] == "v1".spec_bytes() && s[1] == "instance".spec_bytes() && s[2] == "organizations".spec_bytes() {
        "/v1/instance/organizations"
    } else if s.len() == 4 && s[0] == "v1".spec_bytes() && s[1] == "instance".spec_bytes() && s[2] == "organizations".spec_bytes() {
        "/v1/instance/organizations/:organization"
    } else if s.len() == 3 && s[0] == "v1".spec_bytes() && s[1] == "instance".spec_bytes() && s[2] == "users".spec_bytes() {
        "/v1/instance/users"
    } else if s.len() == 4 && s[0] == "v1".spec_bytes() && s[1] == "instance".spec_bytes() && s[2] == "users".spec_bytes() {
        "/v1/instance/users/:user"
    } else if s.len() == 3 && s[0] == "v1".spec_bytes() && s[1] == "instance".spec_bytes() && s[2] == "plans".spec_bytes() {
        "/v1/instance/plans"
    } else if s.len() == 4 && s[0] == "v1".spec_bytes() && s[1] == "instance".spec_bytes() && s[2] == "plans".spec_bytes() {
        "/v1/instance/plans/:tier"
    } else if s.len() == 4 && s[0] == "v1".spec_bytes() && s[1] == "projects".spec_bytes() && s[3] == "query".spec_bytes() {
        "/v1/projects/:id/query"
    } else if s.len() == 4 && s[0] == "v1".spec_bytes() && s[1] == "projects".spec_bytes() && s[3] == "transaction".spec_bytes() {
        "/v1/projects/:id/transaction"
    } else if s.len() == 4 && s[0] == "v1".spec_bytes() && s[1] == "projects".spec_bytes() && s[3] == "migrations".spec_bytes() {
        "/v1/projects/:id/migrations"
    } else if s.len() == 4 && s[0] == "v1".spec_bytes() && s[1] == "projects".spec_bytes() && s[3] == "seed".spec_bytes() {
        "/v1/projects/:id/seed"
    } else if s.len() == 6 && s[0] == "v1".spec_bytes() && s[1] == "projects".spec_bytes() && s[3] == "migrations".spec_bytes() && s[5] == "rollback".spec_bytes() {
        "/v1/projects/:id/migrations/:migration/rollback"
    } else if s.len() == 4 && s[0] == "v1".spec_bytes() && s[1] == "projects".spec_bytes() && s[3] == "schema".spec_bytes() {
        "/v1/projects/:id/schema"
    } else if s.len() == 4 && s[0] == "v1".spec_bytes() && s[1] == "projects".spec_bytes() && s[3] == "policies".spec_bytes() {
        "/v1/projects/:id/policies"
    } else if s.len() == 4 && s[0] == "v1".spec_bytes() && s[1] == "projects".spec_bytes() && s[3] == "sync".spec_bytes() {
        "/v1/projects/:id/sync"
    } else if s.len() == 5 && s[0] == "v1".spec_bytes() && s[1] == "projects".spec_bytes() && s[3] == "sync".spec_bytes() && s[4] == "push".spec_bytes() {
        "/v1/projects/:id/sync/push"
    } else if s.len() == 4 && s[0] == "v1".spec_bytes() && s[1] == "projects".spec_bytes() && s[3] == "snapshot".spec_bytes() {
        "/v1/projects/:id/snapshot"
    } else if s.len() == 4 && s[0] == "v1".spec_bytes() && s[1] == "projects".spec_bytes() && s[3] == "backups".spec_bytes() {
        "/v1/projects/:id/backups"
    } else if s.len() == 6 && s[0] == "v1".spec_bytes() && s[1] == "projects".spec_bytes() && s[3] == "backups".spec_bytes() && s[5] == "restore".spec_bytes() {
        "/v1/projects/:id/backups/:backup/restore"
    } else if s.len() == 4 && s[0] == "v1".spec_bytes() && s[1] == "projects".spec_bytes() && s[3] == "logs".spec_bytes() {
        "/v1/projects/:id/logs"
    } else if s.len() == 4 && s[0] == "v1".spec_bytes() && s[1] == "projects".spec_bytes() && s[3] == "observability".spec_bytes() {
        "/v1/projects/:id/observability"
    } else if s.len() == 5 && s[0] == "v1".spec_bytes() && s[1] == "projects".spec_bytes() && s[3] == "storage".spec_bytes() && s[4] == "buckets".spec_bytes() {
        "/v1/projects/:id/storage/buckets"
    } else if s.len() == 5 && s[0] == "v1".spec_bytes() && s[1] == "projects".spec_bytes() && s[3] == "storage".spec_bytes() && s[4] == "sign".spec_bytes() {
        "/v1/projects/:id/storage/sign"
    } else if s.len() == 5 && s[0] == "v1".spec_bytes() && s[1] == "projects".spec_bytes() && s[3] == "storage".spec_bytes() && s[4] == "commit".spec_bytes() {
        "/v1/projects/:id/storage/commit"
    } else if s.len() == 5 && s[0] == "v1".spec_bytes() && s[1] == "projects".spec_bytes() && s[3] == "storage".spec_bytes() && s[4] == "release".spec_bytes() {
        "/v1/projects/:id/storage/release"
    } else if s.len() == 5 && s[0] == "v1".spec_bytes() && s[1] == "projects".spec_bytes() && s[3] == "storage".spec_bytes() && s[4] == "objects".spec_bytes() {
        "/v1/projects/:id/storage/objects"
    } else if s.len() == 5 && s[0] == "v1".spec_bytes() && s[1] == "projects".spec_bytes() && s[3] == "storage".spec_bytes() && s[4] == "cleanup".spec_bytes() {
        "/v1/projects/:id/storage/cleanup"
    } else if s.len() == 6 && s[0] == "v1".spec_bytes() && s[1] == "projects".spec_bytes() && s[3] == "storage".spec_bytes() && s[4] == "multipart".spec_bytes() && s[5] == "authorize".spec_bytes() {
        "/v1/projects/:id/storage/multipart/authorize"
    } else if s.len() == 6 && s[0] == "v1".spec_bytes() && s[1] == "projects".spec_bytes() && s[3] == "storage".spec_bytes() && s[4] == "multipart".spec_bytes() && s[5] == "create".spec_bytes() {
        "/v1/projects/:id/storage/multipart/create"
    } else if s.len() == 6 && s[0] == "v1".spec_bytes() && s[1] == "projects".spec_bytes() && s[3] == "storage".spec_bytes() && s[4] == "multipart".spec_bytes() && s[5] == "commit".spec_bytes() {
        "/v1/projects/:id/storage/multipart/commit"
    } else if s.len() == 5 && s[0] == "v1".spec_bytes() && s[1] == "projects".spec_bytes() && s[3] == "email".spec_bytes() && s[4] == "templates".spec_bytes() {
        "/v1/projects/:id/email/templates"
    } else if s.len() == 6 && s[0] == "v1".spec_bytes() && s[1] == "projects".spec_bytes() && s[3] == "email".spec_bytes() && s[4] == "templates".spec_bytes() && s[5] == "artifacts".spec_bytes() {
        "/v1/projects/:id/email/templates/artifacts"
    } else if s.len() == 8 && s[0] == "v1".spec_bytes() && s[1] == "projects".spec_bytes() && s[3] == "email".spec_bytes() && s[4] == "templates".spec_bytes() && s[7] == "publish".spec_bytes() {
        "/v1/projects/:id/email/templates/:kind/:version/publish"
    } else if s.len() == 8 && s[0] == "v1".spec_bytes() && s[1] == "projects".spec_bytes() && s[3] == "email".spec_bytes() && s[4] == "templates".spec_bytes() && s[7] == "preview".spec_bytes() {
        "/v1/projects/:id/email/templates/:kind/:version/preview"
    } else if s.len() == 4 && s[0] == "v1".spec_bytes() && s[1] == "projects".spec_bytes() && s[3] == "integrity-check".spec_bytes() {
        "/v1/projects/:id/integrity-check"
    } else if s.len() == 3 && s[0] == "v1".spec_bytes() && s[1] == "developer".spec_bytes() && s[2] == "bootstrap".spec_bytes() {
        "/v1/developer/bootstrap"
    } else if s.len() == 3 && s[0] == "v1".spec_bytes() && s[1] == "developer".spec_bytes() && s[2] == "sign-in".spec_bytes() {
        "/v1/developer/sign-in"
    } else if s.len() == 3 && s[0] == "v1".spec_bytes() && s[1] == "developer".spec_bytes() && s[2] == "refresh".spec_bytes() {
        "/v1/developer/refresh"
    } else if s.len() == 3 && s[0] == "v1".spec_bytes() && s[1] == "developer".spec_bytes() && s[2] == "sign-out".spec_bytes() {
        "/v1/developer/sign-out"
    } else if s.len() == 2 && s[0] == "v1".spec_bytes() && s[1] == "organizations".spec_bytes() {
        "/v1/organizations"
    } else if s.len() == 4 && s[0] == "v1".spec_bytes() && s[1] == "organizations".spec_bytes() && s[3] == "projects".spec_bytes() {
        "/v1/organizations/:id/projects"
    } else if s.len() == 4 && s[0] == "v1".spec_bytes() && s[1] == "organizations".spec_bytes() && s[3] == "members".spec_bytes() {
        "/v1/organizations/:id/members"
    } else if s.len() == 5 && s[0] == "v1".spec_bytes() && s[1] == "organizations".spec_bytes() && s[3] == "members".spec_bytes() {
        "/v1/organizations/:id/members/:user"
    } else if s.len() == 2 && s[0] == "v1".spec_bytes() && s[1] == "projects".spec_bytes() {
        "/v1/projects"
    } else if s.len() == 5 && s[0] == "v1".spec_bytes() && s[1] == "projects".spec_bytes() && s[3] == "auth".spec_bytes() && s[4] == "register".spec_bytes() {
        "/v1/projects/:id/auth/register"
    } else if s.len() == 5 && s[0] == "v1".spec_bytes() && s[1] == "projects".spec_bytes() && s[3] == "auth".spec_bytes() && s[4] == "verify".spec_bytes() {
        "/v1/projects/:id/auth/verify"
    } else if s.len() == 5 && s[0] == "v1".spec_bytes() && s[1] == "projects".spec_bytes() && s[3] == "auth".spec_bytes() && s[4] == "sign-in".spec_bytes() {
        "/v1/projects/:id/auth/sign-in"
    } else if s.len() == 5 && s[0] == "v1".spec_bytes() && s[1] == "projects".spec_bytes() && s[3] == "auth".spec_bytes() && s[4] == "refresh".spec_bytes() {
        "/v1/projects/:id/auth/refresh"
    } else if s.len() == 5 && s[0] == "v1".spec_bytes() && s[1] == "projects".spec_bytes() && s[3] == "auth".spec_bytes() && s[4] == "sign-out".spec_bytes() {
        "/v1/projects/:id/auth/sign-out"
    } else if s.len() == 5 && s[0] == "v1".spec_bytes() && s[1] == "projects".spec_bytes() && s[3] == "auth".spec_bytes() && s[4] == "sessions".spec_bytes() {
        "/v1/projects/:id/auth/sessions"
    } else if s.len() == 6 && s[0] == "v1".spec_bytes() && s[1] == "projects".spec_bytes() && s[3] == "auth".spec_bytes() && s[4] == "sessions".spec_bytes() {
        "/v1/projects/:id/auth/sessions/:session"
    } else if s.len() == 5 && s[0] == "v1".spec_bytes() && s[1] == "projects".spec_bytes() && s[3] == "auth".spec_bytes() && s[4] == "settings".spec_bytes() {
        "/v1/projects/:id/auth/settings"
    } else if s.len() == 5 && s[0] == "v1".spec_bytes() && s[1] == "projects".spec_bytes() && s[3] == "auth".spec_bytes() && s[4] == "users".spec_bytes() {
        "/v1/projects/:id/auth/users"
    } else if s.len() == 6 && s[0] == "v1".spec_bytes() && s[1] == "projects".spec_bytes() && s[3] == "auth".spec_bytes() && s[4] == "users".spec_bytes() {
        "/v1/projects/:id/auth/users/:user"
    } else if s.len() == 4 && s[0] == "v1".spec_bytes() && s[1] == "developer".spec_bytes() && s[2] == "invitations".spec_bytes() && s[3] == "accept".spec_bytes() {
        "/v1/developer/invitations/accept"
    } else if s.len() == 4 && s[0] == "v1".spec_bytes() && s[1] == "organizations".spec_bytes() && s[3] == "invitations".spec_bytes() {
        "/v1/organizations/:id/invitations"
    } else if s.len() == 4 && s[0] == "v1".spec_bytes() && s[1] == "organizations".spec_bytes() && s[3] == "billing".spec_bytes() {
        "/v1/organizations/:id/billing"
    } else if s.len() == 5 && s[0] == "v1".spec_bytes() && s[1] == "organizations".spec_bytes() && s[3] == "billing".spec_bytes() && s[4] == "checkout".spec_bytes() {
        "/v1/organizations/:id/billing/checkout"
    } else if s.len() == 5 && s[0] == "v1".spec_bytes() && s[1] == "organizations".spec_bytes() && s[3] == "billing".spec_bytes() && s[4] == "portal".spec_bytes() {
        "/v1/organizations/:id/billing/portal"
    } else if s.len() == 5 && s[0] == "v1".spec_bytes() && s[1] == "organizations".spec_bytes() && s[3] == "billing".spec_bytes() && s[4] == "invoices".spec_bytes() {
        "/v1/organizations/:id/billing/invoices"
    } else if s.len() == 5 && s[0] == "v1".spec_bytes() && s[1] == "organizations".spec_bytes() && s[3] == "billing".spec_bytes() && s[4] == "usage".spec_bytes() {
        "/v1/organizations/:id/billing/usage"
    } else if s.len() == 4 && s[0] == "v1".spec_bytes() && s[1] == "billing".spec_bytes() && s[2] == "webhooks".spec_bytes() && s[3] == "stripe".spec_bytes() {
        "/v1/billing/webhooks/stripe"
    } else if s.len() == 4 && s[0] == "v1".spec_bytes() && s[1] == "projects".spec_bytes() && s[3] == "payments".spec_bytes() {
        "/v1/projects/:id/payments"
    } else if s.len() == 5 && s[0] == "v1".spec_bytes() && s[1] == "projects".spec_bytes() && s[3] == "commerce".spec_bytes() && s[4] == "account".spec_bytes() {
        "/v1/projects/:id/commerce/account"
    } else if s.len() == 6 && s[0] == "v1".spec_bytes() && s[1] == "projects".spec_bytes() && s[3] == "commerce".spec_bytes() && s[4] == "account".spec_bytes() && s[5] == "byo".spec_bytes() {
        "/v1/projects/:id/commerce/account/byo"
    } else if s.len() == 7 && s[0] == "v1".spec_bytes() && s[1] == "projects".spec_bytes() && s[3] == "commerce".spec_bytes() && s[4] == "account".spec_bytes() && s[5] == "connect".spec_bytes() && s[6] == "onboarding".spec_bytes() {
        "/v1/projects/:id/commerce/account/connect/onboarding"
    } else if s.len() == 6 && s[0] == "v1".spec_bytes() && s[1] == "projects".spec_bytes() && s[3] == "commerce".spec_bytes() && s[4] == "account".spec_bytes() && s[5] == "refresh".spec_bytes() {
        "/v1/projects/:id/commerce/account/refresh"
    } else if s.len() == 5 && s[0] == "v1".spec_bytes() && s[1] == "projects".spec_bytes() && s[3] == "commerce".spec_bytes() && s[4] == "products".spec_bytes() {
        "/v1/projects/:id/commerce/products"
    } else if s.len() == 6 && s[0] == "v1".spec_bytes() && s[1] == "projects".spec_bytes() && s[3] == "commerce".spec_bytes() && s[4] == "products".spec_bytes() {
        "/v1/projects/:id/commerce/products/:product"
    } else if s.len() == 5 && s[0] == "v1".spec_bytes() && s[1] == "projects".spec_bytes() && s[3] == "commerce".spec_bytes() && s[4] == "prices".spec_bytes() {
        "/v1/projects/:id/commerce/prices"
    } else if s.len() == 6 && s[0] == "v1".spec_bytes() && s[1] == "projects".spec_bytes() && s[3] == "commerce".spec_bytes() && s[4] == "prices".spec_bytes() {
        "/v1/projects/:id/commerce/prices/:price"
    } else if s.len() == 6 && s[0] == "v1".spec_bytes() && s[1] == "projects".spec_bytes() && s[3] == "commerce".spec_bytes() && s[4] == "checkouts".spec_bytes() && s[5] == "one-time".spec_bytes() {
        "/v1/projects/:id/commerce/checkouts/one-time"
    } else if s.len() == 6 && s[0] == "v1".spec_bytes() && s[1] == "projects".spec_bytes() && s[3] == "commerce".spec_bytes() && s[4] == "checkouts".spec_bytes() && s[5] == "recurring".spec_bytes() {
        "/v1/projects/:id/commerce/checkouts/recurring"
    } else if s.len() == 5 && s[0] == "v1".spec_bytes() && s[1] == "projects".spec_bytes() && s[3] == "commerce".spec_bytes() && s[4] == "customer-portal".spec_bytes() {
        "/v1/projects/:id/commerce/customer-portal"
    } else if s.len() == 5 && s[0] == "v1".spec_bytes() && s[1] == "projects".spec_bytes() && s[3] == "commerce".spec_bytes() && s[4] == "orders".spec_bytes() {
        "/v1/projects/:id/commerce/orders"
    } else if s.len() == 7 && s[0] == "v1".spec_bytes() && s[1] == "projects".spec_bytes() && s[3] == "commerce".spec_bytes() && s[4] == "orders".spec_bytes() && s[6] == "fulfillment".spec_bytes() {
        "/v1/projects/:id/commerce/orders/:order/fulfillment"
    } else if s.len() == 6 && s[0] == "v1".spec_bytes() && s[1] == "projects".spec_bytes() && s[3] == "commerce".spec_bytes() && s[4] == "orders".spec_bytes() {
        "/v1/projects/:id/commerce/orders/:order"
    } else if s.len() == 5 && s[0] == "v1".spec_bytes() && s[1] == "projects".spec_bytes() && s[3] == "commerce".spec_bytes() && s[4] == "payments".spec_bytes() {
        "/v1/projects/:id/commerce/payments"
    } else if s.len() == 5 && s[0] == "v1".spec_bytes() && s[1] == "projects".spec_bytes() && s[3] == "commerce".spec_bytes() && s[4] == "refunds".spec_bytes() {
        "/v1/projects/:id/commerce/refunds"
    } else if s.len() == 5 && s[0] == "v1".spec_bytes() && s[1] == "projects".spec_bytes() && s[3] == "commerce".spec_bytes() && s[4] == "subscriptions".spec_bytes() {
        "/v1/projects/:id/commerce/subscriptions"
    } else if s.len() == 7 && s[0] == "v1".spec_bytes() && s[1] == "projects".spec_bytes() && s[3] == "commerce".spec_bytes() && s[4] == "subscriptions".spec_bytes() && s[6] == "cancel".spec_bytes() {
        "/v1/projects/:id/commerce/subscriptions/:subscription/cancel"
    } else if s.len() == 5 && s[0] == "v1".spec_bytes() && s[1] == "projects".spec_bytes() && s[3] == "commerce".spec_bytes() && s[4] == "entitlements".spec_bytes() {
        "/v1/projects/:id/commerce/entitlements"
    } else if s.len() == 6 && s[0] == "v1".spec_bytes() && s[1] == "projects".spec_bytes() && s[3] == "commerce".spec_bytes() && s[4] == "webhooks".spec_bytes() && s[5] == "stripe".spec_bytes() {
        "/v1/projects/:id/commerce/webhooks/stripe"
    } else if s.len() == 4 && s[0] == "v1".spec_bytes() && s[1] == "commerce".spec_bytes() && s[2] == "webhooks".spec_bytes() && s[3] == "stripe-connect".spec_bytes() {
        "/v1/commerce/webhooks/stripe-connect"
    } else if s.len() == 6 && s[0] == "v1".spec_bytes() && s[1] == "projects".spec_bytes() && s[3] == "auth".spec_bytes() && s[4] == "password".spec_bytes() && s[5] == "reset".spec_bytes() {
        "/v1/projects/:id/auth/password/reset"
    } else if s.len() == 7 && s[0] == "v1".spec_bytes() && s[1] == "projects".spec_bytes() && s[3] == "auth".spec_bytes() && s[4] == "password".spec_bytes() && s[5] == "reset".spec_bytes() && s[6] == "complete".spec_bytes() {
        "/v1/projects/:id/auth/password/reset/complete"
    } else if s.len() == 6 && s[0] == "v1".spec_bytes() && s[1] == "projects".spec_bytes() && s[3] == "auth".spec_bytes() && s[4] == "password".spec_bytes() && s[5] == "change".spec_bytes() {
        "/v1/projects/:id/auth/password/change"
    } else if s.len() == 4 && s[0] == "v1".spec_bytes() && s[1] == "projects".spec_bytes() && s[3] == "api-keys".spec_bytes() {
        "/v1/projects/:id/api-keys"
    } else if s.len() == 6 && s[0] == "v1".spec_bytes() && s[1] == "projects".spec_bytes() && s[3] == "api-keys".spec_bytes() && s[5] == "revoke".spec_bytes() {
        "/v1/projects/:id/api-keys/:key/revoke"
    } else if s.len() == 5 && s[0] == "v1".spec_bytes() && s[1] == "projects".spec_bytes() && s[3] == "keys".spec_bytes() && s[4] == "rotate".spec_bytes() {
        "/v1/projects/:id/keys/rotate"
    } else {
        "unmatched"
    }
}

/// The bounded route name of a request path (see `segment_route`); the four
/// operational endpoints are matched on the whole path first.
pub open spec fn route_template(path: &str) -> &'static str {
    if path@ == "/healthz"@ {
        "/healthz"
    } else if path@ == "/readyz"@ {
        "/readyz"
    } else if path@ == "/metrics"@ {
        "/metrics"
    } else if path@ == "/openapi.json"@ {
        "/openapi.json"
    } else {
        segment_route(path_segments(path))
    }
}

fn segment_route_of(b: &[u8], r: &Vec<(usize, usize)>) -> (label: &'static str)
    requires
        ranges_in(r@, 0, b@.len() as int),
    ensures
        label == segment_route(pieces(b@, r@)),
{
    let n = r.len();
    let ghost s = pieces(b@, r@);
    assert(s.len() == n);
    if n == 2 && seg_is(b, &r, 0, "v1") && seg_is(b, &r, 1, "instance") {
        return "/v1/instance";
    }
    if n == 3 && seg_is(b, &r, 0, "v1") && seg_is(b, &r, 1, "instance") && seg_is(b, &r, 2, "observability") {
        return "/v1/instance/observability";
    }
    if n == 3 && seg_is(b, &r, 0, "v1") && seg_is(b, &r, 1, "instance") && seg_is(b, &r, 2, "updates") {
        return "/v1/instance/updates";
    }
    if n == 4 && seg_is(b, &r, 0, "v1") && seg_is(b, &r, 1, "instance") && seg_is(b, &r, 2, "updates") && seg_is(b, &r, 3, "check") {
        return "/v1/instance/updates/check";
    }
    if n == 4 && seg_is(b, &r, 0, "v1") && seg_is(b, &r, 1, "instance") && seg_is(b, &r, 2, "updates") && seg_is(b, &r, 3, "install") {
        return "/v1/instance/updates/install";
    }
    if n == 4 && seg_is(b, &r, 0, "v1") && seg_is(b, &r, 1, "instance") && seg_is(b, &r, 2, "updates") && seg_is(b, &r, 3, "rollback") {
        return "/v1/instance/updates/rollback";
    }
    if n == 4 && seg_is(b, &r, 0, "v1") && seg_is(b, &r, 1, "instance") && seg_is(b, &r, 2, "updates") && seg_is(b, &r, 3, "settings") {
        return "/v1/instance/updates/settings";
    }
    if n == 5 && seg_is(b, &r, 0, "v1") && seg_is(b, &r, 1, "instance") && seg_is(b, &r, 2, "updates") && seg_is(b, &r, 3, "jobs") {
        return "/v1/instance/updates/jobs/:job";
    }
    if n == 4 && seg_is(b, &r, 0, "v1") && seg_is(b, &r, 1, "instance") && seg_is(b, &r, 2, "setup") && seg_is(b, &r, 3, "status") {
        return "/v1/instance/setup/status";
    }
    if n == 3 && seg_is(b, &r, 0, "v1") && seg_is(b, &r, 1, "instance") && seg_is(b, &r, 2, "organizations") {
        return "/v1/instance/organizations";
    }
    if n == 4 && seg_is(b, &r, 0, "v1") && seg_is(b, &r, 1, "instance") && seg_is(b, &r, 2, "organizations") {
        return "/v1/instance/organizations/:organization";
    }
    if n == 3 && seg_is(b, &r, 0, "v1") && seg_is(b, &r, 1, "instance") && seg_is(b, &r, 2, "users") {
        return "/v1/instance/users";
    }
    if n == 4 && seg_is(b, &r, 0, "v1") && seg_is(b, &r, 1, "instance") && seg_is(b, &r, 2, "users") {
        return "/v1/instance/users/:user";
    }
    if n == 3 && seg_is(b, &r, 0, "v1") && seg_is(b, &r, 1, "instance") && seg_is(b, &r, 2, "plans") {
        return "/v1/instance/plans";
    }
    if n == 4 && seg_is(b, &r, 0, "v1") && seg_is(b, &r, 1, "instance") && seg_is(b, &r, 2, "plans") {
        return "/v1/instance/plans/:tier";
    }
    if n == 4 && seg_is(b, &r, 0, "v1") && seg_is(b, &r, 1, "projects") && seg_is(b, &r, 3, "query") {
        return "/v1/projects/:id/query";
    }
    if n == 4 && seg_is(b, &r, 0, "v1") && seg_is(b, &r, 1, "projects") && seg_is(b, &r, 3, "transaction") {
        return "/v1/projects/:id/transaction";
    }
    if n == 4 && seg_is(b, &r, 0, "v1") && seg_is(b, &r, 1, "projects") && seg_is(b, &r, 3, "migrations") {
        return "/v1/projects/:id/migrations";
    }
    if n == 4 && seg_is(b, &r, 0, "v1") && seg_is(b, &r, 1, "projects") && seg_is(b, &r, 3, "seed") {
        return "/v1/projects/:id/seed";
    }
    if n == 6 && seg_is(b, &r, 0, "v1") && seg_is(b, &r, 1, "projects") && seg_is(b, &r, 3, "migrations") && seg_is(b, &r, 5, "rollback") {
        return "/v1/projects/:id/migrations/:migration/rollback";
    }
    if n == 4 && seg_is(b, &r, 0, "v1") && seg_is(b, &r, 1, "projects") && seg_is(b, &r, 3, "schema") {
        return "/v1/projects/:id/schema";
    }
    if n == 4 && seg_is(b, &r, 0, "v1") && seg_is(b, &r, 1, "projects") && seg_is(b, &r, 3, "policies") {
        return "/v1/projects/:id/policies";
    }
    if n == 4 && seg_is(b, &r, 0, "v1") && seg_is(b, &r, 1, "projects") && seg_is(b, &r, 3, "sync") {
        return "/v1/projects/:id/sync";
    }
    if n == 5 && seg_is(b, &r, 0, "v1") && seg_is(b, &r, 1, "projects") && seg_is(b, &r, 3, "sync") && seg_is(b, &r, 4, "push") {
        return "/v1/projects/:id/sync/push";
    }
    if n == 4 && seg_is(b, &r, 0, "v1") && seg_is(b, &r, 1, "projects") && seg_is(b, &r, 3, "snapshot") {
        return "/v1/projects/:id/snapshot";
    }
    if n == 4 && seg_is(b, &r, 0, "v1") && seg_is(b, &r, 1, "projects") && seg_is(b, &r, 3, "backups") {
        return "/v1/projects/:id/backups";
    }
    if n == 6 && seg_is(b, &r, 0, "v1") && seg_is(b, &r, 1, "projects") && seg_is(b, &r, 3, "backups") && seg_is(b, &r, 5, "restore") {
        return "/v1/projects/:id/backups/:backup/restore";
    }
    if n == 4 && seg_is(b, &r, 0, "v1") && seg_is(b, &r, 1, "projects") && seg_is(b, &r, 3, "logs") {
        return "/v1/projects/:id/logs";
    }
    if n == 4 && seg_is(b, &r, 0, "v1") && seg_is(b, &r, 1, "projects") && seg_is(b, &r, 3, "observability") {
        return "/v1/projects/:id/observability";
    }
    if n == 5 && seg_is(b, &r, 0, "v1") && seg_is(b, &r, 1, "projects") && seg_is(b, &r, 3, "storage") && seg_is(b, &r, 4, "buckets") {
        return "/v1/projects/:id/storage/buckets";
    }
    if n == 5 && seg_is(b, &r, 0, "v1") && seg_is(b, &r, 1, "projects") && seg_is(b, &r, 3, "storage") && seg_is(b, &r, 4, "sign") {
        return "/v1/projects/:id/storage/sign";
    }
    if n == 5 && seg_is(b, &r, 0, "v1") && seg_is(b, &r, 1, "projects") && seg_is(b, &r, 3, "storage") && seg_is(b, &r, 4, "commit") {
        return "/v1/projects/:id/storage/commit";
    }
    if n == 5 && seg_is(b, &r, 0, "v1") && seg_is(b, &r, 1, "projects") && seg_is(b, &r, 3, "storage") && seg_is(b, &r, 4, "release") {
        return "/v1/projects/:id/storage/release";
    }
    if n == 5 && seg_is(b, &r, 0, "v1") && seg_is(b, &r, 1, "projects") && seg_is(b, &r, 3, "storage") && seg_is(b, &r, 4, "objects") {
        return "/v1/projects/:id/storage/objects";
    }
    if n == 5 && seg_is(b, &r, 0, "v1") && seg_is(b, &r, 1, "projects") && seg_is(b, &r, 3, "storage") && seg_is(b, &r, 4, "cleanup") {
        return "/v1/projects/:id/storage/cleanup";
    }
    if n == 6 && seg_is(b, &r, 0, "v1") && seg_is(b, &r, 1, "projects") && seg_is(b, &r, 3, "storage") && seg_is(b, &r, 4, "multipart") && seg_is(b, &r, 5, "authorize") {
        return "/v1/projects/:id/storage/multipart/authorize";
    }
    if n == 6 && seg_is(b, &r, 0, "v1") && seg_is(b, &r, 1, "projects") && seg_is(b, &r, 3, "storage") && seg_is(b, &r, 4, "multipart") && seg_is(b, &r, 5, "create") {
        return "/v1/projects/:id/storage/multipart/create";
    }
    if n == 6 && seg_is(b, &r, 0, "v1") && seg_is(b, &r, 1, "projects") && seg_is(b, &r, 3, "storage") && seg_is(b, &r, 4, "multipart") && seg_is(b, &r, 5, "commit") {
        return "/v1/projects/:id/storage/multipart/commit";
    }
    if n == 5 && seg_is(b, &r, 0, "v1") && seg_is(b, &r, 1, "projects") && seg_is(b, &r, 3, "email") && seg_is(b, &r, 4, "templates") {
        return "/v1/projects/:id/email/templates";
    }
    if n == 6 && seg_is(b, &r, 0, "v1") && seg_is(b, &r, 1, "projects") && seg_is(b, &r, 3, "email") && seg_is(b, &r, 4, "templates") && seg_is(b, &r, 5, "artifacts") {
        return "/v1/projects/:id/email/templates/artifacts";
    }
    if n == 8 && seg_is(b, &r, 0, "v1") && seg_is(b, &r, 1, "projects") && seg_is(b, &r, 3, "email") && seg_is(b, &r, 4, "templates") && seg_is(b, &r, 7, "publish") {
        return "/v1/projects/:id/email/templates/:kind/:version/publish";
    }
    if n == 8 && seg_is(b, &r, 0, "v1") && seg_is(b, &r, 1, "projects") && seg_is(b, &r, 3, "email") && seg_is(b, &r, 4, "templates") && seg_is(b, &r, 7, "preview") {
        return "/v1/projects/:id/email/templates/:kind/:version/preview";
    }
    if n == 4 && seg_is(b, &r, 0, "v1") && seg_is(b, &r, 1, "projects") && seg_is(b, &r, 3, "integrity-check") {
        return "/v1/projects/:id/integrity-check";
    }
    if n == 3 && seg_is(b, &r, 0, "v1") && seg_is(b, &r, 1, "developer") && seg_is(b, &r, 2, "bootstrap") {
        return "/v1/developer/bootstrap";
    }
    if n == 3 && seg_is(b, &r, 0, "v1") && seg_is(b, &r, 1, "developer") && seg_is(b, &r, 2, "sign-in") {
        return "/v1/developer/sign-in";
    }
    if n == 3 && seg_is(b, &r, 0, "v1") && seg_is(b, &r, 1, "developer") && seg_is(b, &r, 2, "refresh") {
        return "/v1/developer/refresh";
    }
    if n == 3 && seg_is(b, &r, 0, "v1") && seg_is(b, &r, 1, "developer") && seg_is(b, &r, 2, "sign-out") {
        return "/v1/developer/sign-out";
    }
    if n == 2 && seg_is(b, &r, 0, "v1") && seg_is(b, &r, 1, "organizations") {
        return "/v1/organizations";
    }
    if n == 4 && seg_is(b, &r, 0, "v1") && seg_is(b, &r, 1, "organizations") && seg_is(b, &r, 3, "projects") {
        return "/v1/organizations/:id/projects";
    }
    if n == 4 && seg_is(b, &r, 0, "v1") && seg_is(b, &r, 1, "organizations") && seg_is(b, &r, 3, "members") {
        return "/v1/organizations/:id/members";
    }
    if n == 5 && seg_is(b, &r, 0, "v1") && seg_is(b, &r, 1, "organizations") && seg_is(b, &r, 3, "members") {
        return "/v1/organizations/:id/members/:user";
    }
    if n == 2 && seg_is(b, &r, 0, "v1") && seg_is(b, &r, 1, "projects") {
        return "/v1/projects";
    }
    if n == 5 && seg_is(b, &r, 0, "v1") && seg_is(b, &r, 1, "projects") && seg_is(b, &r, 3, "auth") && seg_is(b, &r, 4, "register") {
        return "/v1/projects/:id/auth/register";
    }
    if n == 5 && seg_is(b, &r, 0, "v1") && seg_is(b, &r, 1, "projects") && seg_is(b, &r, 3, "auth") && seg_is(b, &r, 4, "verify") {
        return "/v1/projects/:id/auth/verify";
    }
    if n == 5 && seg_is(b, &r, 0, "v1") && seg_is(b, &r, 1, "projects") && seg_is(b, &r, 3, "auth") && seg_is(b, &r, 4, "sign-in") {
        return "/v1/projects/:id/auth/sign-in";
    }
    if n == 5 && seg_is(b, &r, 0, "v1") && seg_is(b, &r, 1, "projects") && seg_is(b, &r, 3, "auth") && seg_is(b, &r, 4, "refresh") {
        return "/v1/projects/:id/auth/refresh";
    }
    if n == 5 && seg_is(b, &r, 0, "v1") && seg_is(b, &r, 1, "projects") && seg_is(b, &r, 3, "auth") && seg_is(b, &r, 4, "sign-out") {
        return "/v1/projects/:id/auth/sign-out";
    }
    if n == 5 && seg_is(b, &r, 0, "v1") && seg_is(b, &r, 1, "projects") && seg_is(b, &r, 3, "auth") && seg_is(b, &r, 4, "sessions") {
        return "/v1/projects/:id/auth/sessions";
    }
    if n == 6 && seg_is(b, &r, 0, "v1") && seg_is(b, &r, 1, "projects") && seg_is(b, &r, 3, "auth") && seg_is(b, &r, 4, "sessions") {
        return "/v1/projects/:id/auth/sessions/:session";
    }
    if n == 5 && seg_is(b, &r, 0, "v1") && seg_is(b, &r, 1, "projects") && seg_is(b, &r, 3, "auth") && seg_is(b, &r, 4, "settings") {
        return "/v1/projects/:id/auth/settings";
    }
    if n == 5 && seg_is(b, &r, 0, "v1") && seg_is(b, &r, 1, "projects") && seg_is(b, &r, 3, "auth") && seg_is(b, &r, 4, "users") {
        return "/v1/projects/:id/auth/users";
    }
    if n == 6 && seg_is(b, &r, 0, "v1") && seg_is(b, &r, 1, "projects") && seg_is(b, &r, 3, "auth") && seg_is(b, &r, 4, "users") {
        return "/v1/projects/:id/auth/users/:user";
    }
    if n == 4 && seg_is(b, &r, 0, "v1") && seg_is(b, &r, 1, "developer") && seg_is(b, &r, 2, "invitations") && seg_is(b, &r, 3, "accept") {
        return "/v1/developer/invitations/accept";
    }
    if n == 4 && seg_is(b, &r, 0, "v1") && seg_is(b, &r, 1, "organizations") && seg_is(b, &r, 3, "invitations") {
        return "/v1/organizations/:id/invitations";
    }
    if n == 4 && seg_is(b, &r, 0, "v1") && seg_is(b, &r, 1, "organizations") && seg_is(b, &r, 3, "billing") {
        return "/v1/organizations/:id/billing";
    }
    if n == 5 && seg_is(b, &r, 0, "v1") && seg_is(b, &r, 1, "organizations") && seg_is(b, &r, 3, "billing") && seg_is(b, &r, 4, "checkout") {
        return "/v1/organizations/:id/billing/checkout";
    }
    if n == 5 && seg_is(b, &r, 0, "v1") && seg_is(b, &r, 1, "organizations") && seg_is(b, &r, 3, "billing") && seg_is(b, &r, 4, "portal") {
        return "/v1/organizations/:id/billing/portal";
    }
    if n == 5 && seg_is(b, &r, 0, "v1") && seg_is(b, &r, 1, "organizations") && seg_is(b, &r, 3, "billing") && seg_is(b, &r, 4, "invoices") {
        return "/v1/organizations/:id/billing/invoices";
    }
    if n == 5 && seg_is(b, &r, 0, "v1") && seg_is(b, &r, 1, "organizations") && seg_is(b, &r, 3, "billing") && seg_is(b, &r, 4, "usage") {
        return "/v1/organizations/:id/billing/usage";
    }
    if n == 4 && seg_is(b, &r, 0, "v1") && seg_is(b, &r, 1, "billing") && seg_is(b, &r, 2, "webhooks") && seg_is(b, &r, 3, "stripe") {
        return "/v1/billing/webhooks/stripe";
    }
    if n == 4 && seg_is(b, &r, 0, "v1") && seg_is(b, &r, 1, "projects") && seg_is(b, &r, 3, "payments") {
        return "/v1/projects/:id/payments";
    }
    if n == 5 && seg_is(b, &r, 0, "v1") && seg_is(b, &r, 1, "projects") && seg_is(b, &r, 3, "commerce") && seg_is(b, &r, 4, "account") {
        return "/v1/projects/:id/commerce/account";
    }
    if n == 6 && seg_is(b, &r, 0, "v1") && seg_is(b, &r, 1, "projects") && seg_is(b, &r, 3, "commerce") && seg_is(b, &r, 4, "account") && seg_is(b, &r, 5, "byo") {
        return "/v1/projects/:id/commerce/account/byo";
    }
    if n == 7 && seg_is(b, &r, 0, "v1") && seg_is(b, &r, 1, "projects") && seg_is(b, &r, 3, "commerce") && seg_is(b, &r, 4, "account") && seg_is(b, &r, 5, "connect") && seg_is(b, &r, 6, "onboarding") {
        return "/v1/projects/:id/commerce/account/connect/onboarding";
    }
    if n == 6 && seg_is(b, &r, 0, "v1") && seg_is(b, &r, 1, "projects") && seg_is(b, &r, 3, "commerce") && seg_is(b, &r, 4, "account") && seg_is(b, &r, 5, "refresh") {
        return "/v1/projects/:id/commerce/account/refresh";
    }
    if n == 5 && seg_is(b, &r, 0, "v1") && seg_is(b, &r, 1, "projects") && seg_is(b, &r, 3, "commerce") && seg_is(b, &r, 4, "products") {
        return "/v1/projects/:id/commerce/products";
    }
    if n == 6 && seg_is(b, &r, 0, "v1") && seg_is(b, &r, 1, "projects") && seg_is(b, &r, 3, "commerce") && seg_is(b, &r, 4, "products") {
        return "/v1/projects/:id/commerce/products/:product";
    }
    if n == 5 && seg_is(b, &r, 0, "v1") && seg_is(b, &r, 1, "projects") && seg_is(b, &r, 3, "commerce") && seg_is(b, &r, 4, "prices") {
        return "/v1/projects/:id/commerce/prices";
    }
    if n == 6 && seg_is(b, &r, 0, "v1") && seg_is(b, &r, 1, "projects") && seg_is(b, &r, 3, "commerce") && seg_is(b, &r, 4, "prices") {
        return "/v1/projects/:id/commerce/prices/:price";
    }
    if n == 6 && seg_is(b, &r, 0, "v1") && seg_is(b, &r, 1, "projects") && seg_is(b, &r, 3, "commerce") && seg_is(b, &r, 4, "checkouts") && seg_is(b, &r, 5, "one-time") {
        return "/v1/projects/:id/commerce/checkouts/one-time";
    }
    if n == 6 && seg_is(b, &r, 0, "v1") && seg_is(b, &r, 1, "projects") && seg_is(b, &r, 3, "commerce") && seg_is(b, &r, 4, "checkouts") && seg_is(b, &r, 5, "recurring") {
        return "/v1/projects/:id/commerce/checkouts/recurring";
    }
    if n == 5 && seg_is(b, &r, 0, "v1") && seg_is(b, &r, 1, "projects") && seg_is(b, &r, 3, "commerce") && seg_is(b, &r, 4, "customer-portal") {
        return "/v1/projects/:id/commerce/customer-portal";
    }
    if n == 5 && seg_is(b, &r, 0, "v1") && seg_is(b, &r, 1, "projects") && seg_is(b, &r, 3, "commerce") && seg_is(b, &r, 4, "orders") {
        return "/v1/projects/:id/commerce/orders";
    }
    if n == 7 && seg_is(b, &r, 0, "v1") && seg_is(b, &r, 1, "projects") && seg_is(b, &r, 3, "commerce") && seg_is(b, &r, 4, "orders") && seg_is(b, &r, 6, "fulfillment") {
        return "/v1/projects/:id/commerce/orders/:order/fulfillment";
    }
    if n == 6 && seg_is(b, &r, 0, "v1") && seg_is(b, &r, 1, "projects") && seg_is(b, &r, 3, "commerce") && seg_is(b, &r, 4, "orders") {
        return "/v1/projects/:id/commerce/orders/:order";
    }
    if n == 5 && seg_is(b, &r, 0, "v1") && seg_is(b, &r, 1, "projects") && seg_is(b, &r, 3, "commerce") && seg_is(b, &r, 4, "payments") {
        return "/v1/projects/:id/commerce/payments";
    }
    if n == 5 && seg_is(b, &r, 0, "v1") && seg_is(b, &r, 1, "projects") && seg_is(b, &r, 3, "commerce") && seg_is(b, &r, 4, "refunds") {
        return "/v1/projects/:id/commerce/refunds";
    }
    if n == 5 && seg_is(b, &r, 0, "v1") && seg_is(b, &r, 1, "projects") && seg_is(b, &r, 3, "commerce") && seg_is(b, &r, 4, "subscriptions") {
        return "/v1/projects/:id/commerce/subscriptions";
    }
    if n == 7 && seg_is(b, &r, 0, "v1") && seg_is(b, &r, 1, "projects") && seg_is(b, &r, 3, "commerce") && seg_is(b, &r, 4, "subscriptions") && seg_is(b, &r, 6, "cancel") {
        return "/v1/projects/:id/commerce/subscriptions/:subscription/cancel";
    }
    if n == 5 && seg_is(b, &r, 0, "v1") && seg_is(b, &r, 1, "projects") && seg_is(b, &r, 3, "commerce") && seg_is(b, &r, 4, "entitlements") {
        return "/v1/projects/:id/commerce/entitlements";
    }
    if n == 6 && seg_is(b, &r, 0, "v1") && seg_is(b, &r, 1, "projects") && seg_is(b, &r, 3, "commerce") && seg_is(b, &r, 4, "webhooks") && seg_is(b, &r, 5, "stripe") {
        return "/v1/projects/:id/commerce/webhooks/stripe";
    }
    if n == 4 && seg_is(b, &r, 0, "v1") && seg_is(b, &r, 1, "commerce") && seg_is(b, &r, 2, "webhooks") && seg_is(b, &r, 3, "stripe-connect") {
        return "/v1/commerce/webhooks/stripe-connect";
    }
    if n == 6 && seg_is(b, &r, 0, "v1") && seg_is(b, &r, 1, "projects") && seg_is(b, &r, 3, "auth") && seg_is(b, &r, 4, "password") && seg_is(b, &r, 5, "reset") {
        return "/v1/projects/:id/auth/password/reset";
    }
    if n == 7 && seg_is(b, &r, 0, "v1") && seg_is(b, &r, 1, "projects") && seg_is(b, &r, 3, "auth") && seg_is(b, &r, 4, "password") && seg_is(b, &r, 5, "reset") && seg_is(b, &r, 6, "complete") {
        return "/v1/projects/:id/auth/password/reset/complete";
    }
    if n == 6 && seg_is(b, &r, 0, "v1") && seg_is(b, &r, 1, "projects") && seg_is(b, &r, 3, "auth") && seg_is(b, &r, 4, "password") && seg_is(b, &r, 5, "change") {
        return "/v1/projects/:id/auth/password/change";
    }
    if n == 4 && seg_is(b, &r, 0, "v1") && seg_is(b, &r, 1, "projects") && seg_is(b, &r, 3, "api-keys") {
        return "/v1/projects/:id/api-keys";
    }
    if n == 6 && seg_is(b, &r, 0, "v1") && seg_is(b, &r, 1, "projects") && seg_is(b, &r, 3, "api-keys") && seg_is(b, &r, 5, "revoke") {
        return "/v1/projects/:id/api-keys/:key/revoke";
    }
    if n == 5 && seg_is(b, &r, 0, "v1") && seg_is(b, &r, 1, "projects") && seg_is(b, &r, 3, "keys") && seg_is(b, &r, 4, "rotate") {
        return "/v1/projects/:id/keys/rotate";
    }
    "unmatched"
}

/// Names the route of a request path for metrics and tracing, so that no
/// identifier, cursor or other request data reaches a label.
pub fn stable_route(path: &str) -> (label: &'static str)
    ensures
        label == route_template(path),
{
    if str_eq(path, "/healthz") {
        return "/healthz";
    }
    if str_eq(path, "/readyz") {
        return "/readyz";
    }
    if str_eq(path, "/metrics") {
        return "/metrics";
    }
    if str_eq(path, "/openapi.json") {
        return "/openapi.json";
    }
    let r = segment_ranges(path);
    segment_route_of(path.as_bytes(), &r)
}


/// The bounded metric label of an HTTP method name.
pub open spec fn method_label(method: &str) -> &'static str {
    if method@ == "GET"@ {
        "GET"
    } else if method@ == "POST"@ {
        "POST"
    } else if method@ == "PUT"@ {
        "PUT"
    } else if method@ == "PATCH"@ {
        "PATCH"
    } else if method@ == "DELETE"@ {
        "DELETE"
    } else {
        "OTHER"
    }
}

/// Maps an HTTP method name to one of six bounded metric labels.
pub fn stable_method(method: &str) -> (label: &'static str)
    ensures
        label == method_label(method),
{
    if str_eq(method, "GET") {
        "GET"
    } else if str_eq(method, "POST") {
        "POST"
    } else if str_eq(method, "PUT") {
        "PUT"
    } else if str_eq(method, "PATCH") {
        "PATCH"
    } else if str_eq(method, "DELETE") {
        "DELETE"
    } else {
        "OTHER"
    }
}

/// The project-scoped anonymous authentication routes:
/// `v1/projects/{project}/auth/{register|verify|sign-in|refresh}`,
/// `.../auth/password/reset` and `.../auth/password/reset/complete`, for a
/// non-empty project segment.
pub open spec fn is_project_auth_admission_route(s: Seq<Seq<u8>>) -> bool {
    ||| (s.len() == 5 && s[0] == "v1".spec_bytes() && s[1] == "projects".spec_bytes() && s[2].len()
        > 0 && s[3] == "auth".spec_bytes() && (s[4] == "register".spec_bytes() || s[4]
        == "verify".spec_bytes() || s[4] == "sign-in".spec_bytes() || s[4]
        == "refresh".spec_bytes()))
    ||| (s.len() == 6 && s[0] == "v1".spec_bytes() && s[1] == "projects".spec_bytes() && s[2].len()
        > 0 && s[3] == "auth".spec_bytes() && s[4] == "password".spec_bytes() && s[5]
        == "reset".spec_bytes())
    ||| (s.len() == 7 && s[0] == "v1".spec_bytes() && s[1] == "projects".spec_bytes() && s[2].len()
        > 0 && s[3] == "auth".spec_bytes() && s[4] == "password".spec_bytes() && s[5]
        == "reset".spec_bytes() && s[6] == "complete".spec_bytes())
}

/// Which requests consume the conservative per-IP admission bucket: only
/// `POST` requests to the instance setup, developer session and invitation
/// routes, and to the project authentication routes above.
pub open spec fn needs_pre_auth_rate_limit(method: &str, path: &str) -> bool {
    &&& method@ == "POST"@
    &&& {
        ||| path@ == "/v1/instance"@
        ||| path@ == "/v1/developer/bootstrap"@
        ||| path@ == "/v1/developer/sign-in"@
        ||| path@ == "/v1/developer/refresh"@
        ||| path@ == "/v1/developer/invitations/accept"@
        ||| is_project_auth_admission_route(path_segments(path))
    }
}

/// Decides whether a request passes the anonymous per-IP rate limit before
/// any credential is checked (see `needs_pre_auth_rate_limit`).
pub fn requires_pre_auth_rate_limit(method: &str, path: &str) -> (r: bool)
    ensures
        r == needs_pre_auth_rate_limit(method, path),
{
    if !str_eq(method, "POST") {
        return false;
    }
    if str_eq(path, "/v1/instance") || str_eq(path, "/v1/developer/bootstrap") || str_eq(
        path,
        "/v1/developer/sign-in",
    ) || str_eq(path, "/v1/developer/refresh") || str_eq(path, "/v1/developer/invitations/accept") {
        return true;
    }
    let b = path.as_bytes();
    let r = segment_ranges(path);
    let n = r.len();
    let ghost s = pieces(b@, r@);
    if n >= 5 && seg_is(b, &r, 0, "v1") && seg_is(b, &r, 1, "projects") && r[2].0 < r[2].1
        && seg_is(b, &r, 3, "auth") {
        if n == 5 {
            return seg_is(b, &r, 4, "register") || seg_is(b, &r, 4, "verify") || seg_is(
                b,
                &r,
                4,
                "sign-in",
            ) || seg_is(b, &r, 4, "refresh");
        }
        if n == 6 {
            return seg_is(b, &r, 4, "password") && seg_is(b, &r, 5, "reset");
        }
        if n == 7 {
            return seg_is(b, &r, 4, "password") && seg_is(b, &r, 5, "reset") && seg_is(
                b,
                &r,
                6,
                "complete",
            );
        }
        return false;
    }
    proof {
        if n >= 5 && s[0] == "v1".spec_bytes() && s[1] == "projects".spec_bytes() && s[3]
            == "auth".spec_bytes() {
            assert(s[2].len() == r@[2].1 - r@[2].0);
        }
    }
    false
}


/// The project named by a path of the form `v1/projects/{uuid}/...`.
pub open spec fn request_path_project(path: &str) -> Option<ProjectId> {
    let s = path_segments(path);
    if s.len() >= 3 && s[0] == "v1".spec_bytes() && s[1] == "projects".spec_bytes() {
        match uuid_parse(s[2]) {
            Some(value) => Some(ProjectId(value)),
            None => None,
        }
    } else {
        None
    }
}

/// Resolves the project that a request path addresses, for the per-project
/// CORS policy: the third segment of a `v1/projects/...` path, read as a UUID.
pub fn project_id_from_request_path(path: &str) -> (r: Option<ProjectId>)
    ensures
        r == request_path_project(path),
{
    let b = path.as_bytes();
    let r = segment_ranges(path);
    if r.len() >= 3 && seg_is(b, &r, 0, "v1") && seg_is(b, &r, 1, "projects") {
        let (start, end) = r[2];
        match parse_uuid_ascii(&b[start..end]) {
            Some(value) => Some(ProjectId(value)),
            None => None,
        }
    } else {
        None
    }
}


/// A project may be restored only while the project and its database are
/// active or restoring and its node is active.
pub open spec fn restore_states_ok(project_state: Seq<char>, database_state: Seq<char>, node_state: Seq<char>) -> bool {
    &&& (project_state == "active"@ || project_state == "restoring"@)
    &&& (database_state == "active"@ || database_state == "restoring"@)
    &&& node_state == "active"@
}

/// Admits the route of a restore (see `restore_states_ok`); any other state
/// makes the project unavailable.
pub fn admit_restore_route(project_state: &str, database_state: &str, node_state: &str) -> (r: Result<
    (),
    crate::errors::RoutingError,
>)
    ensures
        r is Ok <==> restore_states_ok(project_state@, database_state@, node_state@),
        r is Err ==> r == Err::<(), crate::errors::RoutingError>(crate::errors::RoutingError::Unavailable),
{
    let project_ok = str_eq(project_state, "active") || str_eq(project_state, "restoring");
    let database_ok = str_eq(database_state, "active") || str_eq(database_state, "restoring");
    if !project_ok || !database_ok || !str_eq(node_state, "active") {
        return Err(crate::errors::RoutingError::Unavailable);
    }
    Ok(())
}

/// A stored route generation; a negative one is an inconsistency.
pub fn route_generation(stored: i64) -> (r: Result<u64, crate::errors::RoutingError>)
    ensures
        stored >= 0 ==> r == Ok::<u64, crate::errors::RoutingError>(stored as u64),
        stored < 0 ==> r == Err::<u64, crate::errors::RoutingError>(crate::errors::RoutingError::Inconsistent),
{
    if stored >= 0 {
        Ok(stored as u64)
    } else {
        Err(crate::errors::RoutingError::Inconsistent)
    }
}


proof fn lemma_split_without_separator(b: Seq<u8>, c: u8)
    requires
        forall|k: int| 0 <= k < b.len() ==> b[k] != c,
    ensures
        split_byte(b, c).len() == 1,
    decreases b.len(),
{
    if b.len() > 0 {
        lemma_split_without_separator(b.drop_last(), c);
    }
}

/// A path made of one slash and a name without slashes is one segment.
proof fn lemma_one_segment(p: &str)
    requires
        p.spec_bytes().len() >= 2,
        p.spec_bytes()[0] == 0x2Fu8,
        forall|k: int| 1 <= k < p.spec_bytes().len() ==> p.spec_bytes()[k] != 0x2Fu8,
    ensures
        path_segments(p).len() == 1,
{
    let b = p.spec_bytes();
    let rest = b.drop_first();
    assert(trim_start_byte(rest, 0x2Fu8) == rest);
    assert(trim_start_byte(b, 0x2Fu8) == rest);
    assert(trim_end_byte(rest, 0x2Fu8) == rest);
    lemma_split_without_separator(rest, 0x2Fu8);
}

proof fn lemma_fixed_path_is_one_segment(p: &str, fixed: &str)
    requires
        p@ == fixed@,
        vstd::string::is_ascii(fixed),
        fixed@.len() >= 2,
        fixed@[0] == '/',
        forall|k: int| 1 <= k < fixed@.len() ==> #[trigger] fixed@[k] != '/',
    ensures
        path_segments(p).len() == 1,
{
    vstd::string::is_ascii_spec_bytes(fixed);
    assert(p.spec_bytes() == fixed.spec_bytes());
    assert forall|k: int| 1 <= k < p.spec_bytes().len() implies p.spec_bytes()[k] != 0x2Fu8 by {
        assert(p.spec_bytes()[k] == fixed@[k] as u8);
        assert(fixed@[k] != '/');
        assert((fixed@[k] as u32) < 128);
    }
    lemma_one_segment(p);
}

/// The fixed paths (`/healthz`, `/readyz`, `/metrics`, `/openapi.json`) are
/// one segment each.
proof fn lemma_fixed_paths(p: &str)
    requires
        path_segments(p).len() != 1,
    ensures
        p@ != "/healthz"@,
        p@ != "/readyz"@,
        p@ != "/metrics"@,
        p@ != "/openapi.json"@,
{
    reveal_strlit("/healthz");
    reveal_strlit("/readyz");
    reveal_strlit("/metrics");
    reveal_strlit("/openapi.json");
    if p@ == "/healthz"@ {
        lemma_fixed_path_is_one_segment(p, "/healthz");
    }
    if p@ == "/readyz"@ {
        lemma_fixed_path_is_one_segment(p, "/readyz");
    }
    if p@ == "/metrics"@ {
        lemma_fixed_path_is_one_segment(p, "/metrics");
    }
    if p@ == "/openapi.json"@ {
        lemma_fixed_path_is_one_segment(p, "/openapi.json");
    }
}

/// `stable_route` never depends on the project segment: two paths whose
/// segments (the path trimmed of `/` and split at `/`) number at least three,
/// start with `v1` and `projects`, and differ at most in the third segment,
/// the project's place, get the same label (`stable_route`'s result is
/// `route_template` of its path), so no project identifier reaches a metric
/// or trace.
pub proof fn law_stable_route_ignores_the_project_segment(p1: &str, p2: &str)
    requires
        path_segments(p1).len() == path_segments(p2).len(),
        path_segments(p1).len() >= 3,
        path_segments(p1)[0] == "v1".spec_bytes(),
        path_segments(p1)[1] == "projects".spec_bytes(),
        forall|k: int| 0 <= k < path_segments(p1).len() && k != 2 ==> path_segments(p1)[k]
            == path_segments(p2)[k],
    ensures
        route_template(p1) == route_template(p2),
{
    lemma_fixed_paths(p1);
    lemma_fixed_paths(p2);
    let s1 = path_segments(p1);
    let s2 = path_segments(p2);
    assert(s2[0] == s1[0] && s2[1] == s1[1]);
    reveal_strlit("projects");
    reveal_strlit("instance");
    reveal_strlit("developer");
    reveal_strlit("organizations");
    reveal_strlit("billing");
    reveal_strlit("commerce");
    vstd::string::is_ascii_spec_bytes("projects");
    vstd::string::is_ascii_spec_bytes("instance");
    vstd::string::is_ascii_spec_bytes("developer");
    vstd::string::is_ascii_spec_bytes("organizations");
    vstd::string::is_ascii_spec_bytes("billing");
    vstd::string::is_ascii_spec_bytes("commerce");
    assert("projects".spec_bytes() != "instance".spec_bytes()) by {
        assert("projects".spec_bytes()[0] != "instance".spec_bytes()[0]);
    }
    assert("projects".spec_bytes() != "developer".spec_bytes()) by {
        assert("projects".spec_bytes().len() != "developer".spec_bytes().len());
    }
    assert("projects".spec_bytes() != "organizations".spec_bytes()) by {
        assert("projects".spec_bytes().len() != "organizations".spec_bytes().len());
    }
    assert("projects".spec_bytes() != "billing".spec_bytes()) by {
        assert("projects".spec_bytes().len() != "billing".spec_bytes().len());
    }
    assert("projects".spec_bytes() != "commerce".spec_bytes()) by {
        assert("projects".spec_bytes()[0] != "commerce".spec_bytes()[0]);
    }
    assert forall|k: int| 3 <= k < s1.len() implies s1[k] == s2[k] by {}
}


// ---------------------------------------------------------------------------
// The registered route templates.

proof fn lemma_route_words_0()
    ensures
        "accept".spec_bytes().len() == 6 && "accept".spec_bytes()[0] == 97u8 && "accept".spec_bytes()[1] == 99u8 && "accept".spec_bytes()[2] == 99u8 && "accept".spec_bytes()[3] == 101u8 && "accept".spec_bytes()[4] == 112u8 && "accept".spec_bytes()[5] == 116u8,
        "account".spec_bytes().len() == 7 && "account".spec_bytes()[0] == 97u8 && "account".spec_bytes()[1] == 99u8 && "account".spec_bytes()[2] == 99u8 && "account".spec_bytes()[3] == 111u8 && "account".spec_bytes()[4] == 117u8 && "account".spec_bytes()[5] == 110u8 && "account".spec_bytes()[6] == 116u8,
        "api-keys".spec_bytes().len() == 8 && "api-keys".spec_bytes()[0] == 97u8 && "api-keys".spec_bytes()[1] == 112u8 && "api-keys".spec_bytes()[2] == 105u8 && "api-keys".spec_bytes()[3] == 45u8 && "api-keys".spec_bytes()[4] == 107u8 && "api-keys".spec_bytes()[5] == 101u8 && "api-keys".spec_bytes()[6] == 121u8 && "api-keys".spec_bytes()[7] == 115u8,
        "artifacts".spec_bytes().len() == 9 && "artifacts".spec_bytes()[0] == 97u8 && "artifacts".spec_bytes()[1] == 114u8 && "artifacts".spec_bytes()[2] == 116u8 && "artifacts".spec_bytes()[3] == 105u8 && "artifacts".spec_bytes()[4] == 102u8 && "artifacts".spec_bytes()[5] == 97u8 && "artifacts".spec_bytes()[6] == 99u8 && "artifacts".spec_bytes()[7] == 116u8 && "artifacts".spec_bytes()[8] == 115u8,
        "auth".spec_bytes().len() == 4 && "auth".spec_bytes()[0] == 97u8 && "auth".spec_bytes()[1] == 117u8 && "auth".spec_bytes()[2] == 116u8 && "auth".spec_bytes()[3] == 104u8,
        "authorize".spec_bytes().len() == 9 && "authorize".spec_bytes()[0] == 97u8 && "authorize".spec_bytes()[1] == 117u8 && "authorize".spec_bytes()[2] == 116u8 && "authorize".spec_bytes()[3] == 104u8 && "authorize".spec_bytes()[4] == 111u8 && "authorize".spec_bytes()[5] == 114u8 && "authorize".spec_bytes()[6] == 105u8 && "authorize".spec_bytes()[7] == 122u8 && "authorize".spec_bytes()[8] == 101u8,
        "backups".spec_bytes().len() == 7 && "backups".spec_bytes()[0] == 98u8 && "backups".spec_bytes()[1] == 97u8 && "backups".spec_bytes()[2] == 99u8 && "backups".spec_bytes()[3] == 107u8 && "backups".spec_bytes()[4] == 117u8 && "backups".spec_bytes()[5] == 112u8 && "backups".spec_bytes()[6] == 115u8,
        "billing".spec_bytes().len() == 7 && "billing".spec_bytes()[0] == 98u8 && "billing".spec_bytes()[1] == 105u8 && "billing".spec_bytes()[2] == 108u8 && "billing".spec_bytes()[3] == 108u8 && "billing".spec_bytes()[4] == 105u8 && "billing".spec_bytes()[5] == 110u8 && "billing".spec_bytes()[6] == 103u8,
        "bootstrap".spec_bytes().len() == 9 && "bootstrap".spec_bytes()[0] == 98u8 && "bootstrap".spec_bytes()[1] == 111u8 && "bootstrap".spec_bytes()[2] == 111u8 && "bootstrap".spec_bytes()[3] == 116u8 && "bootstrap".spec_bytes()[4] == 115u8 && "bootstrap".spec_bytes()[5] == 116u8 && "bootstrap".spec_bytes()[6] == 114u8 && "bootstrap".spec_bytes()[7] == 97u8 && "bootstrap".spec_bytes()[8] == 112u8,
        "buckets".spec_bytes().len() == 7 && "buckets".spec_bytes()[0] == 98u8 && "buckets".spec_bytes()[1] == 117u8 && "buckets".spec_bytes()[2] == 99u8 && "buckets".spec_bytes()[3] == 107u8 && "buckets".spec_bytes()[4] == 101u8 && "buckets".spec_bytes()[5] == 116u8 && "buckets".spec_bytes()[6] == 115u8,
        "byo".spec_bytes().len() == 3 && "byo".spec_bytes()[0] == 98u8 && "byo".spec_bytes()[1] == 121u8 && "byo".spec_bytes()[2] == 111u8,
        "cancel".spec_bytes().len() == 6 && "cancel".spec_bytes()[0] == 99u8 && "cancel".spec_bytes()[1] == 97u8 && "cancel".spec_bytes()[2] == 110u8 && "cancel".spec_bytes()[3] == 99u8 && "cancel".spec_bytes()[4] == 101u8 && "cancel".spec_bytes()[5] == 108u8,
{
    reveal_strlit("accept");
    vstd::string::is_ascii_spec_bytes("accept");
    reveal_strlit("account");
    vstd::string::is_ascii_spec_bytes("account");
    reveal_strlit("api-keys");
    vstd::string::is_ascii_spec_bytes("api-keys");
    reveal_strlit("artifacts");
    vstd::string::is_ascii_spec_bytes("artifacts");
    reveal_strlit("auth");
    vstd::string::is_ascii_spec_bytes("auth");
    reveal_strlit("authorize");
    vstd::string::is_ascii_spec_bytes("authorize");
    reveal_strlit("backups");
    vstd::string::is_ascii_spec_bytes("backups");
    reveal_strlit("billing");
    vstd::string::is_ascii_spec_bytes("billing");
    reveal_strlit("bootstrap");
    vstd::string::is_ascii_spec_bytes("bootstrap");
    reveal_strlit("buckets");
    vstd::string::is_ascii_spec_bytes("buckets");
    reveal_strlit("byo");
    vstd::string::is_ascii_spec_bytes("byo");
    reveal_strlit("cancel");
    vstd::string::is_ascii_spec_bytes("cancel");
}

proof fn lemma_route_words_1()
    ensures
        "change".spec_bytes().len() == 6 && "change".spec_bytes()[0] == 99u8 && "change".spec_bytes()[1] == 104u8 && "change".spec_bytes()[2] == 97u8 && "change".spec_bytes()[3] == 110u8 && "change".spec_bytes()[4] == 103u8 && "change".spec_bytes()[5] == 101u8,
        "check".spec_bytes().len() == 5 && "check".spec_bytes()[0] == 99u8 && "check".spec_bytes()[1] == 104u8 && "check".spec_bytes()[2] == 101u8 && "check".spec_bytes()[3] == 99u8 && "check".spec_bytes()[4] == 107u8,
        "checkout".spec_bytes().len() == 8 && "checkout".spec_bytes()[0] == 99u8 && "checkout".spec_bytes()[1] == 104u8 && "checkout".spec_bytes()[2] == 101u8 && "checkout".spec_bytes()[3] == 99u8 && "checkout".spec_bytes()[4] == 107u8 && "checkout".spec_bytes()[5] == 111u8 && "checkout".spec_bytes()[6] == 117u8 && "checkout".spec_bytes()[7] == 116u8,
        "checkouts".spec_bytes().len() == 9 && "checkouts".spec_bytes()[0] == 99u8 && "checkouts".spec_bytes()[1] == 104u8 && "checkouts".spec_bytes()[2] == 101u8 && "checkouts".spec_bytes()[3] == 99u8 && "checkouts".spec_bytes()[4] == 107u8 && "checkouts".spec_bytes()[5] == 111u8 && "checkouts".spec_bytes()[6] == 117u8 && "checkouts".spec_bytes()[7] == 116u8 && "checkouts".spec_bytes()[8] == 115u8,
        "cleanup".spec_bytes().len() == 7 && "cleanup".spec_bytes()[0] == 99u8 && "cleanup".spec_bytes()[1] == 108u8 && "cleanup".spec_bytes()[2] == 101u8 && "cleanup".spec_bytes()[3] == 97u8 && "cleanup".spec_bytes()[4] == 110u8 && "cleanup".spec_bytes()[5] == 117u8 && "cleanup".spec_bytes()[6] == 112u8,
        "commerce".spec_bytes().len() == 8 && "commerce".spec_bytes()[0] == 99u8 && "commerce".spec_bytes()[1] == 111u8 && "commerce".spec_bytes()[2] == 109u8 && "commerce".spec_bytes()[3] == 109u8 && "commerce".spec_bytes()[4] == 101u8 && "commerce".spec_bytes()[5] == 114u8 && "commerce".spec_bytes()[6] == 99u8 && "commerce".spec_bytes()[7] == 101u8,
        "commit".spec_bytes().len() == 6 && "commit".spec_bytes()[0] == 99u8 && "commit".spec_bytes()[1] == 111u8 && "commit".spec_bytes()[2] == 109u8 && "commit".spec_bytes()[3] == 109u8 && "commit".spec_bytes()[4] == 105u8 && "commit".spec_bytes()[5] == 116u8,
        "complete".spec_bytes().len() == 8 && "complete".spec_bytes()[0] == 99u8 && "complete".spec_bytes()[1] == 111u8 && "complete".spec_bytes()[2] == 109u8 && "complete".spec_bytes()[3] == 112u8 && "complete".spec_bytes()[4] == 108u8 && "complete".spec_bytes()[5] == 101u8 && "complete".spec_bytes()[6] == 116u8 && "complete".spec_bytes()[7] == 101u8,
        "connect".spec_bytes().len() == 7 && "connect".spec_bytes()[0] == 99u8 && "connect".spec_bytes()[1] == 111u8 && "connect".spec_bytes()[2] == 110u8 && "connect".spec_bytes()[3] == 110u8 && "connect".spec_bytes()[4] == 101u8 && "connect".spec_bytes()[5] == 99u8 && "connect".spec_bytes()[6] == 116u8,
        "create".spec_bytes().len() == 6 && "create".spec_bytes()[0] == 99u8 && "create".spec_bytes()[1] == 114u8 && "create".spec_bytes()[2] == 101u8 && "create".spec_bytes()[3] == 97u8 && "create".spec_bytes()[4] == 116u8 && "create".spec_bytes()[5] == 101u8,
        "customer-portal".spec_bytes().len() == 15 && "customer-portal".spec_bytes()[0] == 99u8 && "customer-portal".spec_bytes()[1] == 117u8 && "customer-portal".spec_bytes()[2] == 115u8 && "customer-portal".spec_bytes()[3] == 116u8 && "customer-portal".spec_bytes()[4] == 111u8 && "customer-portal".spec_bytes()[5] == 109u8 && "customer-portal".spec_bytes()[6] == 101u8 && "customer-portal".spec_bytes()[7] == 114u8 && "customer-portal".spec_bytes()[8] == 45u8 && "customer-portal".spec_bytes()[9] == 112u8 && "customer-portal".spec_bytes()[10] == 111u8 && "customer-portal".spec_bytes()[11] == 114u8 && "customer-portal".spec_bytes()[12] == 116u8 && "customer-portal".spec_bytes()[13] == 97u8 && "customer-portal".spec_bytes()[14] == 108u8,
        "developer".spec_bytes().len() == 9 && "developer".spec_bytes()[0] == 100u8 && "developer".spec_bytes()[1] == 101u8 && "developer".spec_bytes()[2] == 118u8 && "developer".spec_bytes()[3] == 101u8 && "developer".spec_bytes()[4] == 108u8 && "developer".spec_bytes()[5] == 111u8 && "developer".spec_bytes()[6] == 112u8 && "developer".spec_bytes()[7] == 101u8 && "developer".spec_bytes()[8] == 114u8,
{
    reveal_strlit("change");
    vstd::string::is_ascii_spec_bytes("change");
    reveal_strlit("check");
    vstd::string::is_ascii_spec_bytes("check");
    reveal_strlit("checkout");
    vstd::string::is_ascii_spec_bytes("checkout");
    reveal_strlit("checkouts");
    vstd::string::is_ascii_spec_bytes("checkouts");
    reveal_strlit("cleanup");
    vstd::string::is_ascii_spec_bytes("cleanup");
    reveal_strlit("commerce");
    vstd::string::is_ascii_spec_bytes("commerce");
    reveal_strlit("commit");
    vstd::string::is_ascii_spec_bytes("commit");
    reveal_strlit("complete");
    vstd::string::is_ascii_spec_bytes("complete");
    reveal_strlit("connect");
    vstd::string::is_ascii_spec_bytes("connect");
    reveal_strlit("create");
    vstd::string::is_ascii_spec_bytes("create");
    reveal_strlit("customer-portal");
    vstd::string::is_ascii_spec_bytes("customer-portal");
    reveal_strlit("developer");
    vstd::string::is_ascii_spec_bytes("developer");
}

proof fn lemma_route_words_2()
    ensures
        "email".spec_bytes().len() == 5 && "email".spec_bytes()[0] == 101u8 && "email".spec_bytes()[1] == 109u8 && "email".spec_bytes()[2] == 97u8 && "email".spec_bytes()[3] == 105u8 && "email".spec_bytes()[4] == 108u8,
        "entitlements".spec_bytes().len() == 12 && "entitlements".spec_bytes()[0] == 101u8 && "entitlements".spec_bytes()[1] == 110u8 && "entitlements".spec_bytes()[2] == 116u8 && "entitlements".spec_bytes()[3] == 105u8 && "entitlements".spec_bytes()[4] == 116u8 && "entitlements".spec_bytes()[5] == 108u8 && "entitlements".spec_bytes()[6] == 101u8 && "entitlements".spec_bytes()[7] == 109u8 && "entitlements".spec_bytes()[8] == 101u8 && "entitlements".spec_bytes()[9] == 110u8 && "entitlements".spec_bytes()[10] == 116u8 && "entitlements".spec_bytes()[11] == 115u8,
        "fulfillment".spec_bytes().len() == 11 && "fulfillment".spec_bytes()[0] == 102u8 && "fulfillment".spec_bytes()[1] == 117u8 && "fulfillment".spec_bytes()[2] == 108u8 && "fulfillment".spec_bytes()[3] == 102u8 && "fulfillment".spec_bytes()[4] == 105u8 && "fulfillment".spec_bytes()[5] == 108u8 && "fulfillment".spec_bytes()[6] == 108u8 && "fulfillment".spec_bytes()[7] == 109u8 && "fulfillment".spec_bytes()[8] == 101u8 && "fulfillment".spec_bytes()[9] == 110u8 && "fulfillment".spec_bytes()[10] == 116u8,
        "install".spec_bytes().len() == 7 && "install".spec_bytes()[0] == 105u8 && "install".spec_bytes()[1] == 110u8 && "install".spec_bytes()[2] == 115u8 && "install".spec_bytes()[3] == 116u8 && "install".spec_bytes()[4] == 97u8 && "install".spec_bytes()[5] == 108u8 && "install".spec_bytes()[6] == 108u8,
        "instance".spec_bytes().len() == 8 && "instance".spec_bytes()[0] == 105u8 && "instance".spec_bytes()[1] == 110u8 && "instance".spec_bytes()[2] == 115u8 && "instance".spec_bytes()[3] == 116u8 && "instance".spec_bytes()[4] == 97u8 && "instance".spec_bytes()[5] == 110u8 && "instance".spec_bytes()[6] == 99u8 && "instance".spec_bytes()[7] == 101u8,
        "integrity-check".spec_bytes().len() == 15 && "integrity-check".spec_bytes()[0] == 105u8 && "integrity-check".spec_bytes()[1] == 110u8 && "integrity-check".spec_bytes()[2] == 116u8 && "integrity-check".spec_bytes()[3] == 101u8 && "integrity-check".spec_bytes()[4] == 103u8 && "integrity-check".spec_bytes()[5] == 114u8 && "integrity-check".spec_bytes()[6] == 105u8 && "integrity-check".spec_bytes()[7] == 116u8 && "integrity-check".spec_bytes()[8] == 121u8 && "integrity-check".spec_bytes()[9] == 45u8 && "integrity-check".spec_bytes()[10] == 99u8 && "integrity-check".spec_bytes()[11] == 104u8 && "integrity-check".spec_bytes()[12] == 101u8 && "integrity-check".spec_bytes()[13] == 99u8 && "integrity-check".spec_bytes()[14] == 107u8,
        "invitations".spec_bytes().len() == 11 && "invitations".spec_bytes()[0] == 105u8 && "invitations".spec_bytes()[1] == 110u8 && "invitations".spec_bytes()[2] == 118u8 && "invitations".spec_bytes()[3] == 105u8 && "invitations".spec_bytes()[4] == 116u8 && "invitations".spec_bytes()[5] == 97u8 && "invitations".spec_bytes()[6] == 116u8 && "invitations".spec_bytes()[7] == 105u8 && "invitations".spec_bytes()[8] == 111u8 && "invitations".spec_bytes()[9] == 110u8 && "invitations".spec_bytes()[10] == 115u8,
        "invoices".spec_bytes().len() == 8 && "invoices".spec_bytes()[0] == 105u8 && "invoices".spec_bytes()[1] == 110u8 && "invoices".spec_bytes()[2] == 118u8 && "invoices".spec_bytes()[3] == 111u8 && "invoices".spec_bytes()[4] == 105u8 && "invoices".spec_bytes()[5] == 99u8 && "invoices".spec_bytes()[6] == 101u8 && "invoices".spec_bytes()[7] == 115u8,
        "jobs".spec_bytes().len() == 4 && "jobs".spec_bytes()[0] == 106u8 && "jobs".spec_bytes()[1] == 111u8 && "jobs".spec_bytes()[2] == 98u8 && "jobs".spec_bytes()[3] == 115u8,
        "keys".spec_bytes().len() == 4 && "keys".spec_bytes()[0] == 107u8 && "keys".spec_bytes()[1] == 101u8 && "keys".spec_bytes()[2] == 121u8 && "keys".spec_bytes()[3] == 115u8,
        "logs".spec_bytes().len() == 4 && "logs".spec_bytes()[0] == 108u8 && "logs".spec_bytes()[1] == 111u8 && "logs".spec_bytes()[2] == 103u8 && "logs".spec_bytes()[3] == 115u8,
        "members".spec_bytes().len() == 7 && "members".spec_bytes()[0] == 109u8 && "members".spec_bytes()[1] == 101u8 && "members".spec_bytes()[2] == 109u8 && "members".spec_bytes()[3] == 98u8 && "members".spec_bytes()[4] == 101u8 && "members".spec_bytes()[5] == 114u8 && "members".spec_bytes()[6] == 115u8,
{
    reveal_strlit("email");
    vstd::string::is_ascii_spec_bytes("email");
    reveal_strlit("entitlements");
    vstd::string::is_ascii_spec_bytes("entitlements");
    reveal_strlit("fulfillment");
    vstd::string::is_ascii_spec_bytes("fulfillment");
    reveal_strlit("install");
    vstd::string::is_ascii_spec_bytes("install");
    reveal_strlit("instance");
    vstd::string::is_ascii_spec_bytes("instance");
    reveal_strlit("integrity-check");
    vstd::string::is_ascii_spec_bytes("integrity-check");
    reveal_strlit("invitations");
    vstd::string::is_ascii_spec_bytes("invitations");
    reveal_strlit("invoices");
    vstd::string::is_ascii_spec_bytes("invoices");
    reveal_strlit("jobs");
    vstd::string::is_ascii_spec_bytes("jobs");
    reveal_strlit("keys");
    vstd::string::is_ascii_spec_bytes("keys");
    reveal_strlit("logs");
    vstd::string::is_ascii_spec_bytes("logs");
    reveal_strlit("members");
    vstd::string::is_ascii_spec_bytes("members");
}

proof fn lemma_route_words_3()
    ensures
        "migrations".spec_bytes().len() == 10 && "migrations".spec_bytes()[0] == 109u8 && "migrations".spec_bytes()[1] == 105u8 && "migrations".spec_bytes()[2] == 103u8 && "migrations".spec_bytes()[3] == 114u8 && "migrations".spec_bytes()[4] == 97u8 && "migrations".spec_bytes()[5] == 116u8 && "migrations".spec_bytes()[6] == 105u8 && "migrations".spec_bytes()[7] == 111u8 && "migrations".spec_bytes()[8] == 110u8 && "migrations".spec_bytes()[9] == 115u8,
        "multipart".spec_bytes().len() == 9 && "multipart".spec_bytes()[0] == 109u8 && "multipart".spec_bytes()[1] == 117u8 && "multipart".spec_bytes()[2] == 108u8 && "multipart".spec_bytes()[3] == 116u8 && "multipart".spec_bytes()[4] == 105u8 && "multipart".spec_bytes()[5] == 112u8 && "multipart".spec_bytes()[6] == 97u8 && "multipart".spec_bytes()[7] == 114u8 && "multipart".spec_bytes()[8] == 116u8,
        "objects".spec_bytes().len() == 7 && "objects".spec_bytes()[0] == 111u8 && "objects".spec_bytes()[1] == 98u8 && "objects".spec_bytes()[2] == 106u8 && "objects".spec_bytes()[3] == 101u8 && "objects".spec_bytes()[4] == 99u8 && "objects".spec_bytes()[5] == 116u8 && "objects".spec_bytes()[6] == 115u8,
        "observability".spec_bytes().len() == 13 && "observability".spec_bytes()[0] == 111u8 && "observability".spec_bytes()[1] == 98u8 && "observability".spec_bytes()[2] == 115u8 && "observability".spec_bytes()[3] == 101u8 && "observability".spec_bytes()[4] == 114u8 && "observability".spec_bytes()[5] == 118u8 && "observability".spec_bytes()[6] == 97u8 && "observability".spec_bytes()[7] == 98u8 && "observability".spec_bytes()[8] == 105u8 && "observability".spec_bytes()[9] == 108u8 && "observability".spec_bytes()[10] == 105u8 && "observability".spec_bytes()[11] == 116u8 && "observability".spec_bytes()[12] == 121u8,
        "onboarding".spec_bytes().len() == 10 && "onboarding".spec_bytes()[0] == 111u8 && "onboarding".spec_bytes()[1] == 110u8 && "onboarding".spec_bytes()[2] == 98u8 && "onboarding".spec_bytes()[3] == 111u8 && "onboarding".spec_bytes()[4] == 97u8 && "onboarding".spec_bytes()[5] == 114u8 && "onboarding".spec_bytes()[6] == 100u8 && "onboarding".spec_bytes()[7] == 105u8 && "onboarding".spec_bytes()[8] == 110u8 && "onboarding".spec_bytes()[9] == 103u8,
        "one-time".spec_bytes().len() == 8 && "one-time".spec_bytes()[0] == 111u8 && "one-time".spec_bytes()[1] == 110u8 && "one-time".spec_bytes()[2] == 101u8 && "one-time".spec_bytes()[3] == 45u8 && "one-time".spec_bytes()[4] == 116u8 && "one-time".spec_bytes()[5] == 105u8 && "one-time".spec_bytes()[6] == 109u8 && "one-time".spec_bytes()[7] == 101u8,
        "orders".spec_bytes().len() == 6 && "orders".spec_bytes()[0] == 111u8 && "orders".spec_bytes()[1] == 114u8 && "orders".spec_bytes()[2] == 100u8 && "orders".spec_bytes()[3] == 101u8 && "orders".spec_bytes()[4] == 114u8 && "orders".spec_bytes()[5] == 115u8,
        "organizations".spec_bytes().len() == 13 && "organizations".spec_bytes()[0] == 111u8 && "organizations".spec_bytes()[1] == 114u8 && "organizations".spec_bytes()[2] == 103u8 && "organizations".spec_bytes()[3] == 97u8 && "organizations".spec_bytes()[4] == 110u8 && "organizations".spec_bytes()[5] == 105u8 && "organizations".spec_bytes()[6] == 122u8 && "organizations".spec_bytes()[7] == 97u8 && "organizations".spec_bytes()[8] == 116u8 && "organizations".spec_bytes()[9] == 105u8 && "organizations".spec_bytes()[10] == 111u8 && "organizations".spec_bytes()[11] == 110u8 && "organizations".spec_bytes()[12] == 115u8,
        "password".spec_bytes().len() == 8 && "password".spec_bytes()[0] == 112u8 && "password".spec_bytes()[1] == 97u8 && "password".spec_bytes()[2] == 115u8 && "password".spec_bytes()[3] == 115u8 && "password".spec_bytes()[4] == 119u8 && "password".spec_bytes()[5] == 111u8 && "password".spec_bytes()[6] == 114u8 && "password".spec_bytes()[7] == 100u8,
        "payments".spec_bytes().len() == 8 && "payments".spec_bytes()[0] == 112u8 && "payments".spec_bytes()[1] == 97u8 && "payments".spec_bytes()[2] == 121u8 && "payments".spec_bytes()[3] == 109u8 && "payments".spec_bytes()[4] == 101u8 && "payments".spec_bytes()[5] == 110u8 && "payments".spec_bytes()[6] == 116u8 && "payments".spec_bytes()[7] == 115u8,
        "plans".spec_bytes().len() == 5 && "plans".spec_bytes()[0] == 112u8 && "plans".spec_bytes()[1] == 108u8 && "plans".spec_bytes()[2] == 97u8 && "plans".spec_bytes()[3] == 110u8 && "plans".spec_bytes()[4] == 115u8,
        "policies".spec_bytes().len() == 8 && "policies".spec_bytes()[0] == 112u8 && "policies".spec_bytes()[1] == 111u8 && "policies".spec_bytes()[2] == 108u8 && "policies".spec_bytes()[3] == 105u8 && "policies".spec_bytes()[4] == 99u8 && "policies".spec_bytes()[5] == 105u8 && "policies".spec_bytes()[6] == 101u8 && "policies".spec_bytes()[7] == 115u8,
{
    reveal_strlit("migrations");
    vstd::string::is_ascii_spec_bytes("migrations");
    reveal_strlit("multipart");
    vstd::string::is_ascii_spec_bytes("multipart");
    reveal_strlit("objects");
    vstd::string::is_ascii_spec_bytes("objects");
    reveal_strlit("observability");
    vstd::string::is_ascii_spec_bytes("observability");
    reveal_strlit("onboarding");
    vstd::string::is_ascii_spec_bytes("onboarding");
    reveal_strlit("one-time");
    vstd::string::is_ascii_spec_bytes("one-time");
    reveal_strlit("orders");
    vstd::string::is_ascii_spec_bytes("orders");
    reveal_strlit("organizations");
    vstd::string::is_ascii_spec_bytes("organizations");
    reveal_strlit("password");
    vstd::string::is_ascii_spec_bytes("password");
    reveal_strlit("payments");
    vstd::string::is_ascii_spec_bytes("payments");
    reveal_strlit("plans");
    vstd::string::is_ascii_spec_bytes("plans");
    reveal_strlit("policies");
    vstd::string::is_ascii_spec_bytes("policies");
}

proof fn lemma_route_words_4()
    ensures
        "portal".spec_bytes().len() == 6 && "portal".spec_bytes()[0] == 112u8 && "portal".spec_bytes()[1] == 111u8 && "portal".spec_bytes()[2] == 114u8 && "portal".spec_bytes()[3] == 116u8 && "portal".spec_bytes()[4] == 97u8 && "portal".spec_bytes()[5] == 108u8,
        "preview".spec_bytes().len() == 7 && "preview".spec_bytes()[0] == 112u8 && "preview".spec_bytes()[1] == 114u8 && "preview".spec_bytes()[2] == 101u8 && "preview".spec_bytes()[3] == 118u8 && "preview".spec_bytes()[4] == 105u8 && "preview".spec_bytes()[5] == 101u8 && "preview".spec_bytes()[6] == 119u8,
        "prices".spec_bytes().len() == 6 && "prices".spec_bytes()[0] == 112u8 && "prices".spec_bytes()[1] == 114u8 && "prices".spec_bytes()[2] == 105u8 && "prices".spec_bytes()[3] == 99u8 && "prices".spec_bytes()[4] == 101u8 && "prices".spec_bytes()[5] == 115u8,
        "products".spec_bytes().len() == 8 && "products".spec_bytes()[0] == 112u8 && "products".spec_bytes()[1] == 114u8 && "products".spec_bytes()[2] == 111u8 && "products".spec_bytes()[3] == 100u8 && "products".spec_bytes()[4] == 117u8 && "products".spec_bytes()[5] == 99u8 && "products".spec_bytes()[6] == 116u8 && "products".spec_bytes()[7] == 115u8,
        "projects".spec_bytes().len() == 8 && "projects".spec_bytes()[0] == 112u8 && "projects".spec_bytes()[1] == 114u8 && "projects".spec_bytes()[2] == 111u8 && "projects".spec_bytes()[3] == 106u8 && "projects".spec_bytes()[4] == 101u8 && "projects".spec_bytes()[5] == 99u8 && "projects".spec_bytes()[6] == 116u8 && "projects".spec_bytes()[7] == 115u8,
        "publish".spec_bytes().len() == 7 && "publish".spec_bytes()[0] == 112u8 && "publish".spec_bytes()[1] == 117u8 && "publish".spec_bytes()[2] == 98u8 && "publish".spec_bytes()[3] == 108u8 && "publish".spec_bytes()[4] == 105u8 && "publish".spec_bytes()[5] == 115u8 && "publish".spec_bytes()[6] == 104u8,
        "push".spec_bytes().len() == 4 && "push".spec_bytes()[0] == 112u8 && "push".spec_bytes()[1] == 117u8 && "push".spec_bytes()[2] == 115u8 && "push".spec_bytes()[3] == 104u8,
        "query".spec_bytes().len() == 5 && "query".spec_bytes()[0] == 113u8 && "query".spec_bytes()[1] == 117u8 && "query".spec_bytes()[2] == 101u8 && "query".spec_bytes()[3] == 114u8 && "query".spec_bytes()[4] == 121u8,
        "recurring".spec_bytes().len() == 9 && "recurring".spec_bytes()[0] == 114u8 && "recurring".spec_bytes()[1] == 101u8 && "recurring".spec_bytes()[2] == 99u8 && "recurring".spec_bytes()[3] == 117u8 && "recurring".spec_bytes()[4] == 114u8 && "recurring".spec_bytes()[5] == 114u8 && "recurring".spec_bytes()[6] == 105u8 && "recurring".spec_bytes()[7] == 110u8 && "recurring".spec_bytes()[8] == 103u8,
        "refresh".spec_bytes().len() == 7 && "refresh".spec_bytes()[0] == 114u8 && "refresh".spec_bytes()[1] == 101u8 && "refresh".spec_bytes()[2] == 102u8 && "refresh".spec_bytes()[3] == 114u8 && "refresh".spec_bytes()[4] == 101u8 && "refresh".spec_bytes()[5] == 115u8 && "refresh".spec_bytes()[6] == 104u8,
        "refunds".spec_bytes().len() == 7 && "refunds".spec_bytes()[0] == 114u8 && "refunds".spec_bytes()[1] == 101u8 && "refunds".spec_bytes()[2] == 102u8 && "refunds".spec_bytes()[3] == 117u8 && "refunds".spec_bytes()[4] == 110u8 && "refunds".spec_bytes()[5] == 100u8 && "refunds".spec_bytes()[6] == 115u8,
        "register".spec_bytes().len() == 8 && "register".spec_bytes()[0] == 114u8 && "register".spec_bytes()[1] == 101u8 && "register".spec_bytes()[2] == 103u8 && "register".spec_bytes()[3] == 105u8 && "register".spec_bytes()[4] == 115u8 && "register".spec_bytes()[5] == 116u8 && "register".spec_bytes()[6] == 101u8 && "register".spec_bytes()[7] == 114u8,
{
    reveal_strlit("portal");
    vstd::string::is_ascii_spec_bytes("portal");
    reveal_strlit("preview");
    vstd::string::is_ascii_spec_bytes("preview");
    reveal_strlit("prices");
    vstd::string::is_ascii_spec_bytes("prices");
    reveal_strlit("products");
    vstd::string::is_ascii_spec_bytes("products");
    reveal_strlit("projects");
    vstd::string::is_ascii_spec_bytes("projects");
    reveal_strlit("publish");
    vstd::string::is_ascii_spec_bytes("publish");
    reveal_strlit("push");
    vstd::string::is_ascii_spec_bytes("push");
    reveal_strlit("query");
    vstd::string::is_ascii_spec_bytes("query");
    reveal_strlit("recurring");
    vstd::string::is_ascii_spec_bytes("recurring");
    reveal_strlit("refresh");
    vstd::string::is_ascii_spec_bytes("refresh");
    reveal_strlit("refunds");
    vstd::string::is_ascii_spec_bytes("refunds");
    reveal_strlit("register");
    vstd::string::is_ascii_spec_bytes("register");
}

proof fn lemma_route_words_5()
    ensures
        "release".spec_bytes().len() == 7 && "release".spec_bytes()[0] == 114u8 && "release".spec_bytes()[1] == 101u8 && "release".spec_bytes()[2] == 108u8 && "release".spec_bytes()[3] == 101u8 && "release".spec_bytes()[4] == 97u8 && "release".spec_bytes()[5] == 115u8 && "release".spec_bytes()[6] == 101u8,
        "reset".spec_bytes().len() == 5 && "reset".spec_bytes()[0] == 114u8 && "reset".spec_bytes()[1] == 101u8 && "reset".spec_bytes()[2] == 115u8 && "reset".spec_bytes()[3] == 101u8 && "reset".spec_bytes()[4] == 116u8,
        "restore".spec_bytes().len() == 7 && "restore".spec_bytes()[0] == 114u8 && "restore".spec_bytes()[1] == 101u8 && "restore".spec_bytes()[2] == 115u8 && "restore".spec_bytes()[3] == 116u8 && "restore".spec_bytes()[4] == 111u8 && "restore".spec_bytes()[5] == 114u8 && "restore".spec_bytes()[6] == 101u8,
        "revoke".spec_bytes().len() == 6 && "revoke".spec_bytes()[0] == 114u8 && "revoke".spec_bytes()[1] == 101u8 && "revoke".spec_bytes()[2] == 118u8 && "revoke".spec_bytes()[3] == 111u8 && "revoke".spec_bytes()[4] == 107u8 && "revoke".spec_bytes()[5] == 101u8,
        "rollback".spec_bytes().len() == 8 && "rollback".spec_bytes()[0] == 114u8 && "rollback".spec_bytes()[1] == 111u8 && "rollback".spec_bytes()[2] == 108u8 && "rollback".spec_bytes()[3] == 108u8 && "rollback".spec_bytes()[4] == 98u8 && "rollback".spec_bytes()[5] == 97u8 && "rollback".spec_bytes()[6] == 99u8 && "rollback".spec_bytes()[7] == 107u8,
        "rotate".spec_bytes().len() == 6 && "rotate".spec_bytes()[0] == 114u8 && "rotate".spec_bytes()[1] == 111u8 && "rotate".spec_bytes()[2] == 116u8 && "rotate".spec_bytes()[3] == 97u8 && "rotate".spec_bytes()[4] == 116u8 && "rotate".spec_bytes()[5] == 101u8,
        "schema".spec_bytes().len() == 6 && "schema".spec_bytes()[0] == 115u8 && "schema".spec_bytes()[1] == 99u8 && "schema".spec_bytes()[2] == 104u8 && "schema".spec_bytes()[3] == 101u8 && "schema".spec_bytes()[4] == 109u8 && "schema".spec_bytes()[5] == 97u8,
        "seed".spec_bytes().len() == 4 && "seed".spec_bytes()[0] == 115u8 && "seed".spec_bytes()[1] == 101u8 && "seed".spec_bytes()[2] == 101u8 && "seed".spec_bytes()[3] == 100u8,
        "sessions".spec_bytes().len() == 8 && "sessions".spec_bytes()[0] == 115u8 && "sessions".spec_bytes()[1] == 101u8 && "sessions".spec_bytes()[2] == 115u8 && "sessions".spec_bytes()[3] == 115u8 && "sessions".spec_bytes()[4] == 105u8 && "sessions".spec_bytes()[5] == 111u8 && "sessions".spec_bytes()[6] == 110u8 && "sessions".spec_bytes()[7] == 115u8,
        "settings".spec_bytes().len() == 8 && "settings".spec_bytes()[0] == 115u8 && "settings".spec_bytes()[1] == 101u8 && "settings".spec_bytes()[2] == 116u8 && "settings".spec_bytes()[3] == 116u8 && "settings".spec_bytes()[4] == 105u8 && "settings".spec_bytes()[5] == 110u8 && "settings".spec_bytes()[6] == 103u8 && "settings".spec_bytes()[7] == 115u8,
        "setup".spec_bytes().len() == 5 && "setup".spec_bytes()[0] == 115u8 && "setup".spec_bytes()[1] == 101u8 && "setup".spec_bytes()[2] == 116u8 && "setup".spec_bytes()[3] == 117u8 && "setup".spec_bytes()[4] == 112u8,
        "sign".spec_bytes().len() == 4 && "sign".spec_bytes()[0] == 115u8 && "sign".spec_bytes()[1] == 105u8 && "sign".spec_bytes()[2] == 103u8 && "sign".spec_bytes()[3] == 110u8,
{
    reveal_strlit("release");
    vstd::string::is_ascii_spec_bytes("release");
    reveal_strlit("reset");
    vstd::string::is_ascii_spec_bytes("reset");
    reveal_strlit("restore");
    vstd::string::is_ascii_spec_bytes("restore");
    reveal_strlit("revoke");
    vstd::string::is_ascii_spec_bytes("revoke");
    reveal_strlit("rollback");
    vstd::string::is_ascii_spec_bytes("rollback");
    reveal_strlit("rotate");
    vstd::string::is_ascii_spec_bytes("rotate");
    reveal_strlit("schema");
    vstd::string::is_ascii_spec_bytes("schema");
    reveal_strlit("seed");
    vstd::string::is_ascii_spec_bytes("seed");
    reveal_strlit("sessions");
    vstd::string::is_ascii_spec_bytes("sessions");
    reveal_strlit("settings");
    vstd::string::is_ascii_spec_bytes("settings");
    reveal_strlit("setup");
    vstd::string::is_ascii_spec_bytes("setup");
    reveal_strlit("sign");
    vstd::string::is_ascii_spec_bytes("sign");
}

proof fn lemma_route_words_6()
    ensures
        "sign-in".spec_bytes().len() == 7 && "sign-in".spec_bytes()[0] == 115u8 && "sign-in".spec_bytes()[1] == 105u8 && "sign-in".spec_bytes()[2] == 103u8 && "sign-in".spec_bytes()[3] == 110u8 && "sign-in".spec_bytes()[4] == 45u8 && "sign-in".spec_bytes()[5] == 105u8 && "sign-in".spec_bytes()[6] == 110u8,
        "sign-out".spec_bytes().len() == 8 && "sign-out".spec_bytes()[0] == 115u8 && "sign-out".spec_bytes()[1] == 105u8 && "sign-out".spec_bytes()[2] == 103u8 && "sign-out".spec_bytes()[3] == 110u8 && "sign-out".spec_bytes()[4] == 45u8 && "sign-out".spec_bytes()[5] == 111u8 && "sign-out".spec_bytes()[6] == 117u8 && "sign-out".spec_bytes()[7] == 116u8,
        "snapshot".spec_bytes().len() == 8 && "snapshot".spec_bytes()[0] == 115u8 && "snapshot".spec_bytes()[1] == 110u8 && "snapshot".spec_bytes()[2] == 97u8 && "snapshot".spec_bytes()[3] == 112u8 && "snapshot".spec_bytes()[4] == 115u8 && "snapshot".spec_bytes()[5] == 104u8 && "snapshot".spec_bytes()[6] == 111u8 && "snapshot".spec_bytes()[7] == 116u8,
        "status".spec_bytes().len() == 6 && "status".spec_bytes()[0] == 115u8 && "status".spec_bytes()[1] == 116u8 && "status".spec_bytes()[2] == 97u8 && "status".spec_bytes()[3] == 116u8 && "status".spec_bytes()[4] == 117u8 && "status".spec_bytes()[5] == 115u8,
        "storage".spec_bytes().len() == 7 && "storage".spec_bytes()[0] == 115u8 && "storage".spec_bytes()[1] == 116u8 && "storage".spec_bytes()[2] == 111u8 && "storage".spec_bytes()[3] == 114u8 && "storage".spec_bytes()[4] == 97u8 && "storage".spec_bytes()[5] == 103u8 && "storage".spec_bytes()[6] == 101u8,
        "stripe".spec_bytes().len() == 6 && "stripe".spec_bytes()[0] == 115u8 && "stripe".spec_bytes()[1] == 116u8 && "stripe".spec_bytes()[2] == 114u8 && "stripe".spec_bytes()[3] == 105u8 && "stripe".spec_bytes()[4] == 112u8 && "stripe".spec_bytes()[5] == 101u8,
        "stripe-connect".spec_bytes().len() == 14 && "stripe-connect".spec_bytes()[0] == 115u8 && "stripe-connect".spec_bytes()[1] == 116u8 && "stripe-connect".spec_bytes()[2] == 114u8 && "stripe-connect".spec_bytes()[3] == 105u8 && "stripe-connect".spec_bytes()[4] == 112u8 && "stripe-connect".spec_bytes()[5] == 101u8 && "stripe-connect".spec_bytes()[6] == 45u8 && "stripe-connect".spec_bytes()[7] == 99u8 && "stripe-connect".spec_bytes()[8] == 111u8 && "stripe-connect".spec_bytes()[9] == 110u8 && "stripe-connect".spec_bytes()[10] == 110u8 && "stripe-connect".spec_bytes()[11] == 101u8 && "stripe-connect".spec_bytes()[12] == 99u8 && "stripe-connect".spec_bytes()[13] == 116u8,
        "subscriptions".spec_bytes().len() == 13 && "subscriptions".spec_bytes()[0] == 115u8 && "subscriptions".spec_bytes()[1] == 117u8 && "subscriptions".spec_bytes()[2] == 98u8 && "subscriptions".spec_bytes()[3] == 115u8 && "subscriptions".spec_bytes()[4] == 99u8 && "subscriptions".spec_bytes()[5] == 114u8 && "subscriptions".spec_bytes()[6] == 105u8 && "subscriptions".spec_bytes()[7] == 112u8 && "subscriptions".spec_bytes()[8] == 116u8 && "subscriptions".spec_bytes()[9] == 105u8 && "subscriptions".spec_bytes()[10] == 111u8 && "subscriptions".spec_bytes()[11] == 110u8 && "subscriptions".spec_bytes()[12] == 115u8,
        "sync".spec_bytes().len() == 4 && "sync".spec_bytes()[0] == 115u8 && "sync".spec_bytes()[1] == 121u8 && "sync".spec_bytes()[2] == 110u8 && "sync".spec_bytes()[3] == 99u8,
        "templates".spec_bytes().len() == 9 && "templates".spec_bytes()[0] == 116u8 && "templates".spec_bytes()[1] == 101u8 && "templates".spec_bytes()[2] == 109u8 && "templates".spec_bytes()[3] == 112u8 && "templates".spec_bytes()[4] == 108u8 && "templates".spec_bytes()[5] == 97u8 && "templates".spec_bytes()[6] == 116u8 && "templates".spec_bytes()[7] == 101u8 && "templates".spec_bytes()[8] == 115u8,
        "transaction".spec_bytes().len() == 11 && "transaction".spec_bytes()[0] == 116u8 && "transaction".spec_bytes()[1] == 114u8 && "transaction".spec_bytes()[2] == 97u8 && "transaction".spec_bytes()[3] == 110u8 && "transaction".spec_bytes()[4] == 115u8 && "transaction".spec_bytes()[5] == 97u8 && "transaction".spec_bytes()[6] == 99u8 && "transaction".spec_bytes()[7] == 116u8 && "transaction".spec_bytes()[8] == 105u8 && "transaction".spec_bytes()[9] == 111u8 && "transaction".spec_bytes()[10] == 110u8,
        "updates".spec_bytes().len() == 7 && "updates".spec_bytes()[0] == 117u8 && "updates".spec_bytes()[1] == 112u8 && "updates".spec_bytes()[2] == 100u8 && "updates".spec_bytes()[3] == 97u8 && "updates".spec_bytes()[4] == 116u8 && "updates".spec_bytes()[5] == 101u8 && "updates".spec_bytes()[6] == 115u8,
{
    reveal_strlit("sign-in");
    vstd::string::is_ascii_spec_bytes("sign-in");
    reveal_strlit("sign-out");
    vstd::string::is_ascii_spec_bytes("sign-out");
    reveal_strlit("snapshot");
    vstd::string::is_ascii_spec_bytes("snapshot");
    reveal_strlit("status");
    vstd::string::is_ascii_spec_bytes("status");
    reveal_strlit("storage");
    vstd::string::is_ascii_spec_bytes("storage");
    reveal_strlit("stripe");
    vstd::string::is_ascii_spec_bytes("stripe");
    reveal_strlit("stripe-connect");
    vstd::string::is_ascii_spec_bytes("stripe-connect");
    reveal_strlit("subscriptions");
    vstd::string::is_ascii_spec_bytes("subscriptions");
    reveal_strlit("sync");
    vstd::string::is_ascii_spec_bytes("sync");
    reveal_strlit("templates");
    vstd::string::is_ascii_spec_bytes("templates");
    reveal_strlit("transaction");
    vstd::string::is_ascii_spec_bytes("transaction");
    reveal_strlit("updates");
    vstd::string::is_ascii_spec_bytes("updates");
}

proof fn lemma_route_words_7()
    ensures
        "usage".spec_bytes().len() == 5 && "usage".spec_bytes()[0] == 117u8 && "usage".spec_bytes()[1] == 115u8 && "usage".spec_bytes()[2] == 97u8 && "usage".spec_bytes()[3] == 103u8 && "usage".spec_bytes()[4] == 101u8,
        "users".spec_bytes().len() == 5 && "users".spec_bytes()[0] == 117u8 && "users".spec_bytes()[1] == 115u8 && "users".spec_bytes()[2] == 101u8 && "users".spec_bytes()[3] == 114u8 && "users".spec_bytes()[4] == 115u8,
        "v1".spec_bytes().len() == 2 && "v1".spec_bytes()[0] == 118u8 && "v1".spec_bytes()[1] == 49u8,
        "verify".spec_bytes().len() == 6 && "verify".spec_bytes()[0] == 118u8 && "verify".spec_bytes()[1] == 101u8 && "verify".spec_bytes()[2] == 114u8 && "verify".spec_bytes()[3] == 105u8 && "verify".spec_bytes()[4] == 102u8 && "verify".spec_bytes()[5] == 121u8,
        "webhooks".spec_bytes().len() == 8 && "webhooks".spec_bytes()[0] == 119u8 && "webhooks".spec_bytes()[1] == 101u8 && "webhooks".spec_bytes()[2] == 98u8 && "webhooks".spec_bytes()[3] == 104u8 && "webhooks".spec_bytes()[4] == 111u8 && "webhooks".spec_bytes()[5] == 111u8 && "webhooks".spec_bytes()[6] == 107u8 && "webhooks".spec_bytes()[7] == 115u8,
{
    reveal_strlit("usage");
    vstd::string::is_ascii_spec_bytes("usage");
    reveal_strlit("users");
    vstd::string::is_ascii_spec_bytes("users");
    reveal_strlit("v1");
    vstd::string::is_ascii_spec_bytes("v1");
    reveal_strlit("verify");
    vstd::string::is_ascii_spec_bytes("verify");
    reveal_strlit("webhooks");
    vstd::string::is_ascii_spec_bytes("webhooks");
}

/// Every path that fits one of the registered `/v1/instance` route templates
/// (a `:name` segment stands for any one segment) is named by that template.
pub proof fn law_registered_instance_routes_are_named_by_their_templates(s: Seq<Seq<u8>>)
    ensures
        s.len() == 2 && s[0] == "v1".spec_bytes() && s[1] == "instance".spec_bytes()
            ==> segment_route(s) == "/v1/instance",
        s.len() == 3 && s[0] == "v1".spec_bytes() && s[1] == "instance".spec_bytes() && s[2] == "observability".spec_bytes()
            ==> segment_route(s) == "/v1/instance/observability",
        s.len() == 3 && s[0] == "v1".spec_bytes() && s[1] == "instance".spec_bytes() && s[2] == "updates".spec_bytes()
            ==> segment_route(s) == "/v1/instance/updates",
        s.len() == 4 && s[0] == "v1".spec_bytes() && s[1] == "instance".spec_bytes() && s[2] == "updates".spec_bytes() && s[3] == "check".spec_bytes()
            ==> segment_route(s) == "/v1/instance/updates/check",
        s.len() == 4 && s[0] == "v1".spec_bytes() && s[1] == "instance".spec_bytes() && s[2] == "updates".spec_bytes() && s[3] == "install".spec_bytes()
            ==> segment_route(s) == "/v1/instance/updates/install",
        s.len() == 4 && s[0] == "v1".spec_bytes() && s[1] == "instance".spec_bytes() && s[2] == "updates".spec_bytes() && s[3] == "rollback".spec_bytes()
            ==> segment_route(s) == "/v1/instance/updates/rollback",
        s.len() == 4 && s[0] == "v1".spec_bytes() && s[1] == "instance".spec_bytes() && s[2] == "updates".spec_bytes() && s[3] == "settings".spec_bytes()
            ==> segment_route(s) == "/v1/instance/updates/settings",
        s.len() == 5 && s[0] == "v1".spec_bytes() && s[1] == "instance".spec_bytes() && s[2] == "updates".spec_bytes() && s[3] == "jobs".spec_bytes()
            ==> segment_route(s) == "/v1/instance/updates/jobs/:job",
        s.len() == 4 && s[0] == "v1".spec_bytes() && s[1] == "instance".spec_bytes() && s[2] == "setup".spec_bytes() && s[3] == "status".spec_bytes()
            ==> segment_route(s) == "/v1/instance/setup/status",
        s.len() == 3 && s[0] == "v1".spec_bytes() && s[1] == "instance".spec_bytes() && s[2] == "organizations".spec_bytes()
            ==> segment_route(s) == "/v1/instance/organizations",
        s.len() == 4 && s[0] == "v1".spec_bytes() && s[1] == "instance".spec_bytes() && s[2] == "organizations".spec_bytes()
            ==> segment_route(s) == "/v1/instance/organizations/:organization",
        s.len() == 3 && s[0] == "v1".spec_bytes() && s[1] == "instance".spec_bytes() && s[2] == "users".spec_bytes()
            ==> segment_route(s) == "/v1/instance/users",
        s.len() == 4 && s[0] == "v1".spec_bytes() && s[1] == "instance".spec_bytes() && s[2] == "users".spec_bytes()
            ==> segment_route(s) == "/v1/instance/users/:user",
        s.len() == 3 && s[0] == "v1".spec_bytes() && s[1] == "instance".spec_bytes() && s[2] == "plans".spec_bytes()
            ==> segment_route(s) == "/v1/instance/plans",
        s.len() == 4 && s[0] == "v1".spec_bytes() && s[1] == "instance".spec_bytes() && s[2] == "plans".spec_bytes()
            ==> segment_route(s) == "/v1/instance/plans/:tier",
{
    lemma_route_words_0();
    lemma_route_words_1();
    lemma_route_words_2();
    lemma_route_words_3();
    lemma_route_words_4();
    lemma_route_words_5();
    lemma_route_words_6();
    lemma_route_words_7();
}

/// Every path that fits one of the registered `/v1/projects` route templates
/// (a `:name` segment stands for any one segment) is named by that template.
pub proof fn law_registered_project_routes_are_named_by_their_templates_1(s: Seq<Seq<u8>>)
    ensures
        s.len() == 4 && s[0] == "v1".spec_bytes() && s[1] == "projects".spec_bytes() && s[3] == "query".spec_bytes()
            ==> segment_route(s) == "/v1/projects/:id/query",
        s.len() == 4 && s[0] == "v1".spec_bytes() && s[1] == "projects".spec_bytes() && s[3] == "transaction".spec_bytes()
            ==> segment_route(s) == "/v1/projects/:id/transaction",
        s.len() == 4 && s[0] == "v1".spec_bytes() && s[1] == "projects".spec_bytes() && s[3] == "migrations".spec_bytes()
            ==> segment_route(s) == "/v1/projects/:id/migrations",
        s.len() == 4 && s[0] == "v1".spec_bytes() && s[1] == "projects".spec_bytes() && s[3] == "seed".spec_bytes()
            ==> segment_route(s) == "/v1/projects/:id/seed",
        s.len() == 6 && s[0] == "v1".spec_bytes() && s[1] == "projects".spec_bytes() && s[3] == "migrations".spec_bytes() && s[5] == "rollback".spec_bytes()
            ==> segment_route(s) == "/v1/projects/:id/migrations/:migration/rollback",
        s.len() == 4 && s[0] == "v1".spec_bytes() && s[1] == "projects".spec_bytes() && s[3] == "schema".spec_bytes()
            ==> segment_route(s) == "/v1/projects/:id/schema",
        s.len() == 4 && s[0] == "v1".spec_bytes() && s[1] == "projects".spec_bytes() && s[3] == "policies".spec_bytes()
            ==> segment_route(s) == "/v1/projects/:id/policies",
        s.len() == 4 && s[0] == "v1".spec_bytes() && s[1] == "projects".spec_bytes() && s[3] == "sync".spec_bytes()
            ==> segment_route(s) == "/v1/projects/:id/sync",
        s.len() == 5 && s[0] == "v1".spec_bytes() && s[1] == "projects".spec_bytes() && s[3] == "sync".spec_bytes() && s[4] == "push".spec_bytes()
            ==> segment_route(s) == "/v1/projects/:id/sync/push",
        s.len() == 4 && s[0] == "v1".spec_bytes() && s[1] == "projects".spec_bytes() && s[3] == "snapshot".spec_bytes()
            ==> segment_route(s) == "/v1/projects/:id/snapshot",
        s.len() == 4 && s[0] == "v1".spec_bytes() && s[1] == "projects".spec_bytes() && s[3] == "backups".spec_bytes()
            ==> segment_route(s) == "/v1/projects/:id/backups",
        s.len() == 6 && s[0] == "v1".spec_bytes() && s[1] == "projects".spec_bytes() && s[3] == "backups".spec_bytes() && s[5] == "restore".spec_bytes()
            ==> segment_route(s) == "/v1/projects/:id/backups/:backup/restore",
        s.len() == 4 && s[0] == "v1".spec_bytes() && s[1] == "projects".spec_bytes() && s[3] == "logs".spec_bytes()
            ==> segment_route(s) == "/v1/projects/:id/logs",
        s.len() == 4 && s[0] == "v1".spec_bytes() && s[1] == "projects".spec_bytes() && s[3] == "observability".spec_bytes()
            ==> segment_route(s) == "/v1/projects/:id/observability",
        s.len() == 5 && s[0] == "v1".spec_bytes() && s[1] == "projects".spec_bytes() && s[3] == "storage".spec_bytes() && s[4] == "buckets".spec_bytes()
            ==> segment_route(s) == "/v1/projects/:id/storage/buckets",
        s.len() == 5 && s[0] == "v1".spec_bytes() && s[1] == "projects".spec_bytes() && s[3] == "storage".spec_bytes() && s[4] == "sign".spec_bytes()
            ==> segment_route(s) == "/v1/projects/:id/storage/sign",
        s.len() == 5 && s[0] == "v1".spec_bytes() && s[1] == "projects".spec_bytes() && s[3] == "storage".spec_bytes() && s[4] == "commit".spec_bytes()
            ==> segment_route(s) == "/v1/projects/:id/storage/commit",
        s.len() == 5 && s[0] == "v1".spec_bytes() && s[1] == "projects".spec_bytes() && s[3] == "storage".spec_bytes() && s[4] == "release".spec_bytes()
            ==> segment_route(s) == "/v1/projects/:id/storage/release",
        s.len() == 5 && s[0] == "v1".spec_bytes() && s[1] == "projects".spec_bytes() && s[3] == "storage".spec_bytes() && s[4] == "objects".spec_bytes()
            ==> segment_route(s) == "/v1/projects/:id/storage/objects",
        s.len() == 5 && s[0] == "v1".spec_bytes() && s[1] == "projects".spec_bytes() && s[3] == "storage".spec_bytes() && s[4] == "cleanup".spec_bytes()
            ==> segment_route(s) == "/v1/projects/:id/storage/cleanup",
{
    lemma_route_words_0();
    lemma_route_words_1();
    lemma_route_words_2();
    lemma_route_words_3();
    lemma_route_words_4();
    lemma_route_words_5();
    lemma_route_words_6();
    lemma_route_words_7();
}

/// Every path that fits one of the registered `/v1/projects` route templates
/// (a `:name` segment stands for any one segment) is named by that template.
pub proof fn law_registered_project_routes_are_named_by_their_templates_2(s: Seq<Seq<u8>>)
    ensures
        s.len() == 6 && s[0] == "v1".spec_bytes() && s[1] == "projects".spec_bytes() && s[3] == "storage".spec_bytes() && s[4] == "multipart".spec_bytes() && s[5] == "authorize".spec_bytes()
            ==> segment_route(s) == "/v1/projects/:id/storage/multipart/authorize",
        s.len() == 6 && s[0] == "v1".spec_bytes() && s[1] == "projects".spec_bytes() && s[3] == "storage".spec_bytes() && s[4] == "multipart".spec_bytes() && s[5] == "create".spec_bytes()
            ==> segment_route(s) == "/v1/projects/:id/storage/multipart/create",
        s.len() == 6 && s[0] == "v1".spec_bytes() && s[1] == "projects".spec_bytes() && s[3] == "storage".spec_bytes() && s[4] == "multipart".spec_bytes() && s[5] == "commit".spec_bytes()
            ==> segment_route(s) == "/v1/projects/:id/storage/multipart/commit",
        s.len() == 5 && s[0] == "v1".spec_bytes() && s[1] == "projects".spec_bytes() && s[3] == "email".spec_bytes() && s[4] == "templates".spec_bytes()
            ==> segment_route(s) == "/v1/projects/:id/email/templates",
        s.len() == 6 && s[0] == "v1".spec_bytes() && s[1] == "projects".spec_bytes() && s[3] == "email".spec_bytes() && s[4] == "templates".spec_bytes() && s[5] == "artifacts".spec_bytes()
            ==> segment_route(s) == "/v1/projects/:id/email/templates/artifacts",
        s.len() == 8 && s[0] == "v1".spec_bytes() && s[1] == "projects".spec_bytes() && s[3] == "email".spec_bytes() && s[4] == "templates".spec_bytes() && s[7] == "publish".spec_bytes()
            ==> segment_route(s) == "/v1/projects/:id/email/templates/:kind/:version/publish",
        s.len() == 8 && s[0] == "v1".spec_bytes() && s[1] == "projects".spec_bytes() && s[3] == "email".spec_bytes() && s[4] == "templates".spec_bytes() && s[7] == "preview".spec_bytes()
            ==> segment_route(s) == "/v1/projects/:id/email/templates/:kind/:version/preview",
        s.len() == 4 && s[0] == "v1".spec_bytes() && s[1] == "projects".spec_bytes() && s[3] == "integrity-check".spec_bytes()
            ==> segment_route(s) == "/v1/projects/:id/integrity-check",
        s.len() == 2 && s[0] == "v1".spec_bytes() && s[1] == "projects".spec_bytes()
            ==> segment_route(s) == "/v1/projects",
        s.len() == 5 && s[0] == "v1".spec_bytes() && s[1] == "projects".spec_bytes() && s[3] == "auth".spec_bytes() && s[4] == "register".spec_bytes()
            ==> segment_route(s) == "/v1/projects/:id/auth/register",
        s.len() == 5 && s[0] == "v1".spec_bytes() && s[1] == "projects".spec_bytes() && s[3] == "auth".spec_bytes() && s[4] == "verify".spec_bytes()
            ==> segment_route(s) == "/v1/projects/:id/auth/verify",
        s.len() == 5 && s[0] == "v1".spec_bytes() && s[1] == "projects".spec_bytes() && s[3] == "auth".spec_bytes() && s[4] == "sign-in".spec_bytes()
            ==> segment_route(s) == "/v1/projects/:id/auth/sign-in",
        s.len() == 5 && s[0] == "v1".spec_bytes() && s[1] == "projects".spec_bytes() && s[3] == "auth".spec_bytes() && s[4] == "refresh".spec_bytes()
            ==> segment_route(s) == "/v1/projects/:id/auth/refresh",
        s.len() == 5 && s[0] == "v1".spec_bytes() && s[1] == "projects".spec_bytes() && s[3] == "auth".spec_bytes() && s[4] == "sign-out".spec_bytes()
            ==> segment_route(s) == "/v1/projects/:id/auth/sign-out",
        s.len() == 5 && s[0] == "v1".spec_bytes() && s[1] == "projects".spec_bytes() && s[3] == "auth".spec_bytes() && s[4] == "sessions".spec_bytes()
            ==> segment_route(s) == "/v1/projects/:id/auth/sessions",
        s.len() == 6 && s[0] == "v1".spec_bytes() && s[1] == "projects".spec_bytes() && s[3] == "auth".spec_bytes() && s[4] == "sessions".spec_bytes()
            ==> segment_route(s) == "/v1/projects/:id/auth/sessions/:session",
        s.len() == 5 && s[0] == "v1".spec_bytes() && s[1] == "projects".spec_bytes() && s[3] == "auth".spec_bytes() && s[4] == "settings".spec_bytes()
            ==> segment_route(s) == "/v1/projects/:id/auth/settings",
        s.len() == 5 && s[0] == "v1".spec_bytes() && s[1] == "projects".spec_bytes() && s[3] == "auth".spec_bytes() && s[4] == "users".spec_bytes()
            ==> segment_route(s) == "/v1/projects/:id/auth/users",
        s.len() == 6 && s[0] == "v1".spec_bytes() && s[1] == "projects".spec_bytes() && s[3] == "auth".spec_bytes() && s[4] == "users".spec_bytes()
            ==> segment_route(s) == "/v1/projects/:id/auth/users/:user",
        s.len() == 4 && s[0] == "v1".spec_bytes() && s[1] == "projects".spec_bytes() && s[3] == "payments".spec_bytes()
            ==> segment_route(s) == "/v1/projects/:id/payments",
{
    lemma_route_words_0();
    lemma_route_words_1();
    lemma_route_words_2();
    lemma_route_words_3();
    lemma_route_words_4();
    lemma_route_words_5();
    lemma_route_words_6();
    lemma_route_words_7();
}

/// Every path that fits one of the registered `/v1/projects` route templates
/// (a `:name` segment stands for any one segment) is named by that template.
pub proof fn law_registered_project_routes_are_named_by_their_templates_3(s: Seq<Seq<u8>>)
    ensures
        s.len() == 5 && s[0] == "v1".spec_bytes() && s[1] == "projects".spec_bytes() && s[3] == "commerce".spec_bytes() && s[4] == "account".spec_bytes()
            ==> segment_route(s) == "/v1/projects/:id/commerce/account",
        s.len() == 6 && s[0] == "v1".spec_bytes() && s[1] == "projects".spec_bytes() && s[3] == "commerce".spec_bytes() && s[4] == "account".spec_bytes() && s[5] == "byo".spec_bytes()
            ==> segment_route(s) == "/v1/projects/:id/commerce/account/byo",
        s.len() == 7 && s[0] == "v1".spec_bytes() && s[1] == "projects".spec_bytes() && s[3] == "commerce".spec_bytes() && s[4] == "account".spec_bytes() && s[5] == "connect".spec_bytes() && s[6] == "onboarding".spec_bytes()
            ==> segment_route(s) == "/v1/projects/:id/commerce/account/connect/onboarding",
        s.len() == 6 && s[0] == "v1".spec_bytes() && s[1] == "projects".spec_bytes() && s[3] == "commerce".spec_bytes() && s[4] == "account".spec_bytes() && s[5] == "refresh".spec_bytes()
            ==> segment_route(s) == "/v1/projects/:id/commerce/account/refresh",
        s.len() == 5 && s[0] == "v1".spec_bytes() && s[1] == "projects".spec_bytes() && s[3] == "commerce".spec_bytes() && s[4] == "products".spec_bytes()
            ==> segment_route(s) == "/v1/projects/:id/commerce/products",
        s.len() == 6 && s[0] == "v1".spec_bytes() && s[1] == "projects".spec_bytes() && s[3] == "commerce".spec_bytes() && s[4] == "products".spec_bytes()
            ==> segment_route(s) == "/v1/projects/:id/commerce/products/:product",
        s.len() == 5 && s[0] == "v1".spec_bytes() && s[1] == "projects".spec_bytes() && s[3] == "commerce".spec_bytes() && s[4] == "prices".spec_bytes()
            ==> segment_route(s) == "/v1/projects/:id/commerce/prices",
        s.len() == 6 && s[0] == "v1".spec_bytes() && s[1] == "projects".spec_bytes() && s[3] == "commerce".spec_bytes() && s[4] == "prices".spec_bytes()
            ==> segment_route(s) == "/v1/projects/:id/commerce/prices/:price",
        s.len() == 6 && s[0] == "v1".spec_bytes() && s[1] == "projects".spec_bytes() && s[3] == "commerce".spec_bytes() && s[4] == "checkouts".spec_bytes() && s[5] == "one-time".spec_bytes()
            ==> segment_route(s) == "/v1/projects/:id/commerce/checkouts/one-time",
        s.len() == 6 && s[0] == "v1".spec_bytes() && s[1] == "projects".spec_bytes() && s[3] == "commerce".spec_bytes() && s[4] == "checkouts".spec_bytes() && s[5] == "recurring".spec_bytes()
            ==> segment_route(s) == "/v1/projects/:id/commerce/checkouts/recurring",
        s.len() == 5 && s[0] == "v1".spec_bytes() && s[1] == "projects".spec_bytes() && s[3] == "commerce".spec_bytes() && s[4] == "customer-portal".spec_bytes()
            ==> segment_route(s) == "/v1/projects/:id/commerce/customer-portal",
        s.len() == 5 && s[0] == "v1".spec_bytes() && s[1] == "projects".spec_bytes() && s[3] == "commerce".spec_bytes() && s[4] == "orders".spec_bytes()
            ==> segment_route(s) == "/v1/projects/:id/commerce/orders",
        s.len() == 7 && s[0] == "v1".spec_bytes() && s[1] == "projects".spec_bytes() && s[3] == "commerce".spec_bytes() && s[4] == "orders".spec_bytes() && s[6] == "fulfillment".spec_bytes()
            ==> segment_route(s) == "/v1/projects/:id/commerce/orders/:order/fulfillment",
        s.len() == 6 && s[0] == "v1".spec_bytes() && s[1] == "projects".spec_bytes() && s[3] == "commerce".spec_bytes() && s[4] == "orders".spec_bytes()
            ==> segment_route(s) == "/v1/projects/:id/commerce/orders/:order",
        s.len() == 5 && s[0] == "v1".spec_bytes() && s[1] == "projects".spec_bytes() && s[3] == "commerce".spec_bytes() && s[4] == "payments".spec_bytes()
            ==> segment_route(s) == "/v1/projects/:id/commerce/payments",
        s.len() == 5 && s[0] == "v1".spec_bytes() && s[1] == "projects".spec_bytes() && s[3] == "commerce".spec_bytes() && s[4] == "refunds".spec_bytes()
            ==> segment_route(s) == "/v1/projects/:id/commerce/refunds",
        s.len() == 5 && s[0] == "v1".spec_bytes() && s[1] == "projects".spec_bytes() && s[3] == "commerce".spec_bytes() && s[4] == "subscriptions".spec_bytes()
            ==> segment_route(s) == "/v1/projects/:id/commerce/subscriptions",
        s.len() == 7 && s[0] == "v1".spec_bytes() && s[1] == "projects".spec_bytes() && s[3] == "commerce".spec_bytes() && s[4] == "subscriptions".spec_bytes() && s[6] == "cancel".spec_bytes()
            ==> segment_route(s) == "/v1/projects/:id/commerce/subscriptions/:subscription/cancel",
        s.len() == 5 && s[0] == "v1".spec_bytes() && s[1] == "projects".spec_bytes() && s[3] == "commerce".spec_bytes() && s[4] == "entitlements".spec_bytes()
            ==> segment_route(s) == "/v1/projects/:id/commerce/entitlements",
        s.len() == 6 && s[0] == "v1".spec_bytes() && s[1] == "projects".spec_bytes() && s[3] == "commerce".spec_bytes() && s[4] == "webhooks".spec_bytes() && s[5] == "stripe".spec_bytes()
            ==> segment_route(s) == "/v1/projects/:id/commerce/webhooks/stripe",
{
    lemma_route_words_0();
    lemma_route_words_1();
    lemma_route_words_2();
    lemma_route_words_3();
    lemma_route_words_4();
    lemma_route_words_5();
    lemma_route_words_6();
    lemma_route_words_7();
}

/// Every path that fits one of the registered `/v1/projects` route templates
/// (a `:name` segment stands for any one segment) is named by that template.
pub proof fn law_registered_project_routes_are_named_by_their_templates_4(s: Seq<Seq<u8>>)
    ensures
        s.len() == 6 && s[0] == "v1".spec_bytes() && s[1] == "projects".spec_bytes() && s[3] == "auth".spec_bytes() && s[4] == "password".spec_bytes() && s[5] == "reset".spec_bytes()
            ==> segment_route(s) == "/v1/projects/:id/auth/password/reset",
        s.len() == 7 && s[0] == "v1".spec_bytes() && s[1] == "projects".spec_bytes() && s[3] == "auth".spec_bytes() && s[4] == "password".spec_bytes() && s[5] == "reset".spec_bytes() && s[6] == "complete".spec_bytes()
            ==> segment_route(s) == "/v1/projects/:id/auth/password/reset/complete",
        s.len() == 6 && s[0] == "v1".spec_bytes() && s[1] == "projects".spec_bytes() && s[3] == "auth".spec_bytes() && s[4] == "password".spec_bytes() && s[5] == "change".spec_bytes()
            ==> segment_route(s) == "/v1/projects/:id/auth/password/change",
        s.len() == 4 && s[0] == "v1".spec_bytes() && s[1] == "projects".spec_bytes() && s[3] == "api-keys".spec_bytes()
            ==> segment_route(s) == "/v1/projects/:id/api-keys",
        s.len() == 6 && s[0] == "v1".spec_bytes() && s[1] == "projects".spec_bytes() && s[3] == "api-keys".spec_bytes() && s[5] == "revoke".spec_bytes()
            ==> segment_route(s) == "/v1/projects/:id/api-keys/:key/revoke",
        s.len() == 5 && s[0] == "v1".spec_bytes() && s[1] == "projects".spec_bytes() && s[3] == "keys".spec_bytes() && s[4] == "rotate".spec_bytes()
            ==> segment_route(s) == "/v1/projects/:id/keys/rotate",
{
    lemma_route_words_0();
    lemma_route_words_1();
    lemma_route_words_2();
    lemma_route_words_3();
    lemma_route_words_4();
    lemma_route_words_5();
    lemma_route_words_6();
    lemma_route_words_7();
}

/// Every path that fits one of the registered `/v1/developer` route templates
/// (a `:name` segment stands for any one segment) is named by that template.
pub proof fn law_registered_developer_routes_are_named_by_their_templates(s: Seq<Seq<u8>>)
    ensures
        s.len() == 3 && s[0] == "v1".spec_bytes() && s[1] == "developer".spec_bytes() && s[2] == "bootstrap".spec_bytes()
            ==> segment_route(s) == "/v1/developer/bootstrap",
        s.len() == 3 && s[0] == "v1".spec_bytes() && s[1] == "developer".spec_bytes() && s[2] == "sign-in".spec_bytes()
            ==> segment_route(s) == "/v1/developer/sign-in",
        s.len() == 3 && s[0] == "v1".spec_bytes() && s[1] == "developer".spec_bytes() && s[2] == "refresh".spec_bytes()
            ==> segment_route(s) == "/v1/developer/refresh",
        s.len() == 3 && s[0] == "v1".spec_bytes() && s[1] == "developer".spec_bytes() && s[2] == "sign-out".spec_bytes()
            ==> segment_route(s) == "/v1/developer/sign-out",
        s.len() == 4 && s[0] == "v1".spec_bytes() && s[1] == "developer".spec_bytes() && s[2] == "invitations".spec_bytes() && s[3] == "accept".spec_bytes()
            ==> segment_route(s) == "/v1/developer/invitations/accept",
{
    lemma_route_words_0();
    lemma_route_words_1();
    lemma_route_words_2();
    lemma_route_words_3();
    lemma_route_words_4();
    lemma_route_words_5();
    lemma_route_words_6();
    lemma_route_words_7();
}

/// Every path that fits one of the registered `/v1/organizations` route templates
/// (a `:name` segment stands for any one segment) is named by that template.
pub proof fn law_registered_organization_routes_are_named_by_their_templates(s: Seq<Seq<u8>>)
    ensures
        s.len() == 2 && s[0] == "v1".spec_bytes() && s[1] == "organizations".spec_bytes()
            ==> segment_route(s) == "/v1/organizations",
        s.len() == 4 && s[0] == "v1".spec_bytes() && s[1] == "organizations".spec_bytes() && s[3] == "projects".spec_bytes()
            ==> segment_route(s) == "/v1/organizations/:id/projects",
        s.len() == 4 && s[0] == "v1".spec_bytes() && s[1] == "organizations".spec_bytes() && s[3] == "members".spec_bytes()
            ==> segment_route(s) == "/v1/organizations/:id/members",
        s.len() == 5 && s[0] == "v1".spec_bytes() && s[1] == "organizations".spec_bytes() && s[3] == "members".spec_bytes()
            ==> segment_route(s) == "/v1/organizations/:id/members/:user",
        s.len() == 4 && s[0] == "v1".spec_bytes() && s[1] == "organizations".spec_bytes() && s[3] == "invitations".spec_bytes()
            ==> segment_route(s) == "/v1/organizations/:id/invitations",
        s.len() == 4 && s[0] == "v1".spec_bytes() && s[1] == "organizations".spec_bytes() && s[3] == "billing".spec_bytes()
            ==> segment_route(s) == "/v1/organizations/:id/billing",
        s.len() == 5 && s[0] == "v1".spec_bytes() && s[1] == "organizations".spec_bytes() && s[3] == "billing".spec_bytes() && s[4] == "checkout".spec_bytes()
            ==> segment_route(s) == "/v1/organizations/:id/billing/checkout",
        s.len() == 5 && s[0] == "v1".spec_bytes() && s[1] == "organizations".spec_bytes() && s[3] == "billing".spec_bytes() && s[4] == "portal".spec_bytes()
            ==> segment_route(s) == "/v1/organizations/:id/billing/portal",
        s.len() == 5 && s[0] == "v1".spec_bytes() && s[1] == "organizations".spec_bytes() && s[3] == "billing".spec_bytes() && s[4] == "invoices".spec_bytes()
            ==> segment_route(s) == "/v1/organizations/:id/billing/invoices",
        s.len() == 5 && s[0] == "v1".spec_bytes() && s[1] == "organizations".spec_bytes() && s[3] == "billing".spec_bytes() && s[4] == "usage".spec_bytes()
            ==> segment_route(s) == "/v1/organizations/:id/billing/usage",
{
    lemma_route_words_0();
    lemma_route_words_1();
    lemma_route_words_2();
    lemma_route_words_3();
    lemma_route_words_4();
    lemma_route_words_5();
    lemma_route_words_6();
    lemma_route_words_7();
}

/// Every path that fits one of the registered `/v1/billing` route templates
/// (a `:name` segment stands for any one segment) is named by that template.
pub proof fn law_registered_billing_routes_are_named_by_their_templates(s: Seq<Seq<u8>>)
    ensures
        s.len() == 4 && s[0] == "v1".spec_bytes() && s[1] == "billing".spec_bytes() && s[2] == "webhooks".spec_bytes() && s[3] == "stripe".spec_bytes()
            ==> segment_route(s) == "/v1/billing/webhooks/stripe",
{
    lemma_route_words_0();
    lemma_route_words_1();
    lemma_route_words_2();
    lemma_route_words_3();
    lemma_route_words_4();
    lemma_route_words_5();
    lemma_route_words_6();
    lemma_route_words_7();
}

/// Every path that fits one of the registered `/v1/commerce` route templates
/// (a `:name` segment stands for any one segment) is named by that template.
pub proof fn law_registered_commerce_routes_are_named_by_their_templates(s: Seq<Seq<u8>>)
    ensures
        s.len() == 4 && s[0] == "v1".spec_bytes() && s[1] == "commerce".spec_bytes() && s[2] == "webhooks".spec_bytes() && s[3] == "stripe-connect".spec_bytes()
            ==> segment_route(s) == "/v1/commerce/webhooks/stripe-connect",
{
    lemma_route_words_0();
    lemma_route_words_1();
    lemma_route_words_2();
    lemma_route_words_3();
    lemma_route_words_4();
    lemma_route_words_5();
    lemma_route_words_6();
    lemma_route_words_7();
}

} // verus!
