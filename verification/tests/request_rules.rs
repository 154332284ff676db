use ffdb_api::client_ip::{IpAddress, IpNetwork, resolve_client_ip};
use ffdb_api::errors::{
    CredentialError, ExecutionError, RoutingError, credential_error, execution_error, rate_limited,
};
use ffdb_api::ids::{BackupId, ProjectId};
use ffdb_api::operation::{
    ExecutionMode, RestoreFailureStage, RestoreReply, WorkerOperation, bearer,
    decode_hex_checksum, execution_mode_matches_project, operation_descriptor,
    restore_response_matches, snapshot_tables,
};
use ffdb_api::rate_limit::{
    RateBatch,
    RateDimension, RateLimitDecision, RateVerdict, execution_rate_verdict, is_pre_auth_dimension,
    policy_runs, validate_batch,
};
use ffdb_api::routes::{
    admit_restore_route, project_id_from_request_path, requires_pre_auth_rate_limit, route_generation,
    stable_route,
};

const PROJECT: &str = "0191c2a8-5f4e-7a1b-8c3d-4e5f6a7b8c9d";

fn project() -> ProjectId {
    ProjectId(uuid::Uuid::parse_str(PROJECT).expect("uuid").as_u128())
}

fn v4(a: u8, b: u8, c: u8, d: u8) -> IpAddress {
    IpAddress::V4(u32::from_be_bytes([a, b, c, d]))
}

fn net(a: IpAddress, prefix: u8) -> IpNetwork {
    IpNetwork::new(a, prefix).expect("network")
}

#[test]
fn snapshot_filter_parser_accepts_repeated_tables_and_rejects_unknown_parameters() {
    assert_eq!(snapshot_tables(None), Ok(None));
    assert_eq!(
        snapshot_tables(Some("table=documents&table=comments")),
        Ok(Some(vec!["documents".to_owned(), "comments".to_owned()]))
    );
    assert!(snapshot_tables(Some("other=documents")).is_err());
    assert!(snapshot_tables(Some("table=")).is_err());
}

#[test]
fn snapshot_filter_edges() {
    assert_eq!(snapshot_tables(Some("")), Ok(None));
    assert_eq!(snapshot_tables(Some("&&")), Ok(None));
    assert_eq!(snapshot_tables(Some("table=a%20b")), Ok(Some(vec!["a b".to_owned()])));
    let many = vec!["table=t"; 257].join("&");
    assert_eq!(snapshot_tables(Some(&many)), Err("snapshot table filters are invalid"));
    let enough = vec!["table=t"; 256].join("&");
    assert_eq!(snapshot_tables(Some(&enough)).map(|t| t.map(|v| v.len())), Ok(Some(256)));
    let long = format!("table={}", "x".repeat(129));
    assert!(snapshot_tables(Some(&long)).is_err());
}

#[test]
fn anonymous_admission_policy_is_limited_to_sensitive_post_routes() {
    for path in [
        "/v1/instance".to_owned(),
        "/v1/developer/bootstrap".to_owned(),
        "/v1/developer/sign-in".to_owned(),
        "/v1/developer/refresh".to_owned(),
        "/v1/developer/invitations/accept".to_owned(),
        format!("/v1/projects/{PROJECT}/auth/register"),
        format!("/v1/projects/{PROJECT}/auth/verify"),
        format!("/v1/projects/{PROJECT}/auth/sign-in"),
        format!("/v1/projects/{PROJECT}/auth/refresh"),
        format!("/v1/projects/{PROJECT}/auth/password/reset"),
        format!("/v1/projects/{PROJECT}/auth/password/reset/complete"),
    ] {
        assert!(requires_pre_auth_rate_limit("POST", &path), "{path}");
    }
    for (method, path) in [
        ("GET", "/v1/instance".to_owned()),
        ("POST", format!("/v1/projects/{PROJECT}/query")),
        ("POST", format!("/v1/projects/{PROJECT}/auth/sign-out")),
        ("POST", "/v1/billing/webhooks/stripe".to_owned()),
        ("GET", "/readyz".to_owned()),
    ] {
        assert!(!requires_pre_auth_rate_limit(method, &path), "{path}");
    }
}

#[test]
fn authentication_dimensions_keep_the_conservative_policy() {
    for dimension in [
        RateDimension::Ip,
        RateDimension::AuthProject,
        RateDimension::AuthUser,
        RateDimension::AuthApiKey,
    ] {
        assert!(is_pre_auth_dimension(dimension));
    }
    for dimension in [RateDimension::Project, RateDimension::User, RateDimension::ApiKey] {
        assert!(!is_pre_auth_dimension(dimension));
    }
}

#[test]
fn project_cors_policy_resolves_the_project_from_the_request_path() {
    assert_eq!(
        project_id_from_request_path(&format!("/v1/projects/{PROJECT}/query")),
        Some(project())
    );
    assert_eq!(project_id_from_request_path("/v1/organizations"), None);
    assert_eq!(project_id_from_request_path("/v1/projects/not-a-project/query"), None);
}

#[test]
fn trusted_proxy_chain_uses_the_first_untrusted_hop_from_the_right() {
    let trusted = [net(v4(127, 0, 0, 1), 32), net(v4(10, 0, 0, 0), 8)];
    let headers = [Some("198.51.100.99, 203.0.113.45, 10.1.2.3".to_owned())];
    let peer = v4(127, 0, 0, 1);
    assert_eq!(resolve_client_ip(peer, &headers, &trusted), v4(203, 0, 113, 45));
}

#[test]
fn malformed_forwarded_chain_fails_closed_to_the_transport_peer() {
    let trusted = [net(v4(127, 0, 0, 1), 32)];
    let headers = [Some("not-an-ip".to_owned())];
    let peer = v4(127, 0, 0, 1);
    assert_eq!(resolve_client_ip(peer, &headers, &trusted), peer);
}

#[test]
fn client_ip_edges() {
    let trusted = [net(v4(10, 0, 0, 0), 8)];
    let outside_peer = v4(192, 0, 2, 44);
    let spoofed = [Some("203.0.113.99".to_owned())];
    assert_eq!(resolve_client_ip(outside_peer, &spoofed, &trusted), outside_peer);
    let peer = v4(10, 9, 9, 9);
    assert_eq!(resolve_client_ip(peer, &[], &trusted), peer);
    let all_trusted = [Some("10.0.0.1, 10.0.0.2".to_owned())];
    assert_eq!(resolve_client_ip(peer, &all_trusted, &trusted), v4(10, 0, 0, 1));
    let two_headers = [Some("198.51.100.1".to_owned()), Some("203.0.113.2, 10.0.0.3".to_owned())];
    assert_eq!(resolve_client_ip(peer, &two_headers, &trusted), v4(203, 0, 113, 2));
    assert_eq!(resolve_client_ip(peer, &[None], &trusted), peer);
    let seventeen = [Some(vec!["10.0.0.1"; 17].join(","))];
    assert_eq!(resolve_client_ip(peer, &seventeen, &trusted), peer);
    let sixteen = [Some(vec!["10.0.0.1"; 16].join(","))];
    assert_eq!(resolve_client_ip(peer, &sixteen, &trusted), v4(10, 0, 0, 1));
    let v6_peer = IpAddress::V6(1);
    let v6_trusted = [net(IpAddress::V6(0), 120)];
    let chain = [Some("2001:db8::1".to_owned())];
    assert_eq!(
        resolve_client_ip(v6_peer, &chain, &v6_trusted),
        IpAddress::V6(0x2001_0db8_0000_0000_0000_0000_0000_0001)
    );
    assert!(IpNetwork::new(v4(1, 2, 3, 4), 33).is_none());
    let everything = [net(v4(0, 0, 0, 0), 0)];
    assert_eq!(resolve_client_ip(v4(8, 8, 8, 8), &[Some("1.1.1.1".to_owned())], &everything), v4(1, 1, 1, 1));
}

#[test]
fn forged_end_user_context_cannot_cross_project_boundary() {
    let routed = project();
    let foreign = ProjectId(routed.0 ^ 1);
    let mode = ExecutionMode::EndUser { project_id: foreign };
    assert!(!execution_mode_matches_project(&mode, routed));
    assert!(execution_mode_matches_project(&ExecutionMode::EndUser { project_id: routed }, routed));
    assert!(execution_mode_matches_project(&ExecutionMode::Developer, routed));
}

#[test]
fn restore_response_must_match_requested_backup_before_terminal_failure() {
    let expected = BackupId(7);
    let matching = RestoreReply::Restored { backup_id: expected };
    let mismatched = RestoreReply::Restored { backup_id: BackupId(8) };
    assert!(restore_response_matches(expected, &matching));
    assert!(!restore_response_matches(expected, &mismatched));
    assert!(!restore_response_matches(expected, &RestoreReply::Other));
    assert_eq!(
        RestoreFailureStage::WorkerResponseMismatch.name(),
        "worker_response_mismatch"
    );
}

#[test]
fn tracing_route_never_contains_signed_sync_cursor() {
    let route = stable_route(&format!("/v1/projects/{PROJECT}/sync"));
    assert_eq!(route, "/v1/projects/:id/sync");
    assert!(!route.contains("super-secret-signed-cursor"));
}

#[test]
fn instance_disable_routes_have_bounded_trace_names() {
    assert_eq!(
        stable_route(&format!("/v1/instance/organizations/{PROJECT}")),
        "/v1/instance/organizations/:organization"
    );
    assert_eq!(
        stable_route(&format!("/v1/instance/users/{PROJECT}")),
        "/v1/instance/users/:user"
    );
}

#[test]
fn host_update_job_route_never_exposes_job_ids_to_metrics() {
    assert_eq!(
        stable_route(&format!("/v1/instance/updates/jobs/{PROJECT}")),
        "/v1/instance/updates/jobs/:job"
    );
}

#[test]
fn operations_have_bounded_costs() {
    assert_eq!(
        operation_descriptor(&WorkerOperation::Query { read_only: Some(true) }),
        ("database.query", "query", 1)
    );
    assert_eq!(
        operation_descriptor(&WorkerOperation::Transaction { statements: vec![Some(true); 25] }),
        ("database.transaction", "transaction", 10)
    );
    assert_eq!(
        operation_descriptor(&WorkerOperation::Transaction { statements: Vec::new() }).2,
        1
    );
    assert_eq!(operation_descriptor(&WorkerOperation::StorageList { limit: 250 }).2, 3);
    assert_eq!(operation_descriptor(&WorkerOperation::StorageList { limit: u32::MAX }).2, 10);
    assert_eq!(operation_descriptor(&WorkerOperation::StorageList { limit: 0 }).2, 1);
    assert_eq!(
        operation_descriptor(&WorkerOperation::Restore { backup_id: BackupId(1) }),
        ("database.backup.restore", "backup", 10)
    );
}

#[test]
fn bearer_tokens_are_read_from_the_authorization_header() {
    assert_eq!(bearer(None), Err(CredentialError::Missing));
    assert_eq!(bearer(Some(None)), Err(CredentialError::Invalid));
    assert_eq!(bearer(Some(Some("Bearer abc"))), Ok("abc"));
    assert_eq!(bearer(Some(Some("Bearer "))), Err(CredentialError::Invalid));
    assert_eq!(bearer(Some(Some("Basic abc"))), Err(CredentialError::Invalid));
    let long = format!("Bearer {}", "x".repeat(8193));
    assert_eq!(bearer(Some(Some(&long))), Err(CredentialError::Invalid));
}

#[test]
fn hex_checksums_decode_to_32_bytes() {
    let text = "00".repeat(31) + "fF";
    let decoded = decode_hex_checksum(&text).expect("checksum");
    assert_eq!(decoded.len(), 32);
    assert_eq!(decoded[31], 255);
    assert_eq!(decode_hex_checksum("abc"), None);
    assert_eq!(decode_hex_checksum(&("zz".repeat(32))), None);
    assert_eq!(decode_hex_checksum(&("+a".repeat(32))), Some(vec![10; 32]));
}

#[test]
fn rate_limit_batches_and_verdicts() {
    let runs = policy_runs(&[
        RateDimension::Ip,
        RateDimension::AuthUser,
        RateDimension::Project,
        RateDimension::User,
        RateDimension::AuthApiKey,
    ]);
    assert_eq!(runs, vec![(0, 2), (2, 4), (4, 5)]);
    assert_eq!(policy_runs(&[]), Vec::<(usize, usize)>::new());
    assert!(validate_batch(&[vec![1], vec![2]]).is_ok());
    assert!(validate_batch(&[vec![1], vec![1]]).is_err());
    assert!(validate_batch(&[]).is_err());
    assert_eq!(
        execution_rate_verdict(&[RateLimitDecision::Allowed, RateLimitDecision::Allowed]),
        RateVerdict::Admit
    );
    assert_eq!(
        execution_rate_verdict(&[RateLimitDecision::Denied { retry_after_ms: 1_500 }]),
        RateVerdict::Limited { retry_after_ms: 1_500 }
    );
    assert_eq!(execution_rate_verdict(&[RateLimitDecision::Allowed]), RateVerdict::Unavailable);
    assert_eq!(
        execution_rate_verdict(&[RateLimitDecision::Allowed, RateLimitDecision::Denied { retry_after_ms: 5 }]),
        RateVerdict::Limited { retry_after_ms: 5 }
    );
}

#[test]
fn error_replies_keep_the_contract() {
    let (reply, seconds) = rate_limited(1_500);
    assert_eq!(reply.status, 429);
    assert_eq!(seconds, 2);
    assert_eq!(rate_limited(0).1, 1);
    assert_eq!(rate_limited(u64::MAX).1, u64::MAX / 1000);
    assert_eq!(credential_error(CredentialError::WrongProject).status, 403);
    let rejected = execution_error(ExecutionError::Rejected { code: "rls.denied".into() });
    assert_eq!(rejected.code, "rls.denied");
    let hidden = execution_error(ExecutionError::Rejected { code: "internal.detail".into() });
    assert_eq!(hidden.code, "query.rejected");
    assert_eq!(execution_error(ExecutionError::Protocol).status, 500);
}

#[test]
fn restores_need_live_projects_databases_and_nodes() {
    assert_eq!(admit_restore_route("active", "restoring", "active"), Ok(()));
    assert_eq!(admit_restore_route("restoring", "active", "active"), Ok(()));
    assert_eq!(admit_restore_route("deleted", "active", "active"), Err(RoutingError::Unavailable));
    assert_eq!(admit_restore_route("active", "active", "draining"), Err(RoutingError::Unavailable));
    assert_eq!(route_generation(7), Ok(7));
    assert_eq!(route_generation(-1), Err(RoutingError::Inconsistent));
}

#[test]
fn rate_checks_run_by_policy_and_stop_at_a_denial() {
    let dims = [RateDimension::Ip, RateDimension::AuthUser, RateDimension::Project, RateDimension::Ip];
    let mut batch = RateBatch::start(&dims);
    assert_eq!(batch.pending(), Some((0, 2)));
    batch.record(vec![RateLimitDecision::Allowed, RateLimitDecision::Allowed]);
    assert_eq!(batch.pending(), Some((2, 3)));
    batch.record(vec![RateLimitDecision::Denied { retry_after_ms: 900 }]);
    assert_eq!(batch.pending(), None);
    assert_eq!(
        batch.decisions(),
        vec![
            RateLimitDecision::Allowed,
            RateLimitDecision::Allowed,
            RateLimitDecision::Denied { retry_after_ms: 900 }
        ]
    );
    let mut all = RateBatch::start(&[RateDimension::Project]);
    all.record(vec![RateLimitDecision::Allowed]);
    assert_eq!(all.pending(), None);
    assert_eq!(RateBatch::start(&[]).pending(), None);
}

#[test]
fn the_project_segment_never_changes_the_route() {
    for tail in ["", "/sync", "/query", "/backups/b1/restore", "/unknown/thing"] {
        assert_eq!(
            stable_route(&format!("/v1/projects/{PROJECT}{tail}")),
            stable_route(&format!("/v1/projects/another-project{tail}")),
        );
    }
}

#[test]
fn checks_one_at_a_time_stop_at_the_first_denial() {
    let mut batch = RateBatch::one_at_a_time(3);
    assert_eq!(batch.pending(), Some((0, 1)));
    batch.record(vec![RateLimitDecision::Allowed]);
    assert_eq!(batch.pending(), Some((1, 2)));
    batch.record(vec![RateLimitDecision::Denied { retry_after_ms: 40 }]);
    assert_eq!(batch.pending(), None);
    assert_eq!(
        batch.decisions(),
        vec![RateLimitDecision::Allowed, RateLimitDecision::Denied { retry_after_ms: 40 }]
    );
    assert_eq!(RateBatch::one_at_a_time(0).pending(), None);
}
