use ffdb_api::ids::ProjectId;
use ffdb_api::management::invitation_action_url;
use ffdb_api::observability::{
    MAX_PENDING_KEYS, RangeSpec, StatementKind, admits_key, as_i64, as_u64, invalid_range_response,
    minute_bucket, profile_sql, project_from_path, retention_cutoff_ms, saturating_u32,
    statement_kind_name, storage_sample_replaces,
};
use ffdb_api::sql_shape::redact_sql_shape;
use ffdb_api::pending::{HttpKey, PendingAggregate, PendingEvent, QueryKey, StorageSample};
use sha2::Digest;
use ffdb_api::summary::{scope_name, series_buckets, summary_frame};
use ffdb_api::summary::{RANKING_LIMIT, rank_by_count};
use ffdb_api::observability::{QueryCounters, merge_query_counters, record_query};

fn sha256_hex(text: &str) -> String {
    let digest = sha2::Sha256::digest(text.as_bytes());
    let mut out = String::new();
    for byte in digest.iter() {
        out.push_str(&format!("{byte:02x}"));
    }
    out
}

#[test]
fn sql_shape_removes_identifiers_literals_comments_and_parameters() {
    let profile = profile_sql(
        "SELECT secret_name, email FROM customer_accounts WHERE email = 'person@example.com' AND id = :account_id -- private",
        Some((StatementKind::Select, true)),
    );
    assert_eq!(profile.statement_kind, "select");
    assert!(profile.read_only);
    assert!(!profile.shape.contains("secret_name"));
    assert!(!profile.shape.contains("customer_accounts"));
    assert!(!profile.shape.contains("person@example.com"));
    assert!(!profile.shape.contains("account_id"));
    assert_eq!(profile.fingerprint.len(), 64);
    assert!(
        profile
            .shape
            .starts_with("SELECT ? , ? FROM ? WHERE ? = ? AND ? = ?")
    );
}

#[test]
fn fingerprints_group_value_and_identifier_variants() {
    let first = profile_sql(
        "SELECT email FROM accounts WHERE id = 1",
        Some((StatementKind::Select, true)),
    );
    let second = profile_sql(
        "select name from customers where customer_id = 999",
        Some((StatementKind::Select, true)),
    );
    assert_eq!(first.shape, second.shape);
    assert_eq!(first.fingerprint, second.fingerprint);
}

#[test]
fn fingerprints_are_the_sha256_of_the_shape() {
    let profile = profile_sql("DELETE FROM t WHERE id = 3", None);
    assert_eq!(profile.fingerprint, sha256_hex(&profile.shape));
    assert_eq!(profile.shape, redact_sql_shape("DELETE FROM t WHERE id = 3"));
    assert_eq!(profile.statement_kind, "other");
    assert!(!profile.read_only);
    let insert = profile_sql("INSERT INTO t VALUES (1)", Some((StatementKind::Insert, false)));
    assert_eq!(insert.statement_kind, statement_kind_name(StatementKind::Insert));
    assert!(!insert.read_only);
}

#[test]
fn path_project_attribution_is_strict() {
    let id = uuid::Uuid::from_u128(0x0191_c2a8_5f4e_7a1b_8c3d_4e5f_6a7b_8c9d);
    let project = ProjectId(id.as_u128());
    assert_eq!(
        project_from_path(&format!("/v1/projects/{id}/query")),
        Some(project)
    );
    assert_eq!(project_from_path("/v1/instance/observability"), None);
    assert_eq!(project_from_path("/v1/projects/not-a-uuid/query"), None);
}

#[test]
fn invalid_ranges_fail_as_client_errors() {
    assert!(RangeSpec::parse(Some("31d")).is_err());
    let response = invalid_range_response("unsupported observability range");
    assert_eq!(response.status, 400);
}

#[test]
fn ranges_have_fixed_windows_and_resolutions() {
    let day = RangeSpec::parse(None).expect("default range");
    assert_eq!((day.window_ms, day.resolution_ms), (86_400_000, 900_000));
    let hour = RangeSpec::parse(Some("1h")).expect("hour");
    assert_eq!((hour.window_ms, hour.resolution_ms), (3_600_000, 60_000));
    let month = RangeSpec::parse(Some("30d")).expect("month");
    assert_eq!((month.window_ms, month.resolution_ms), (2_592_000_000, 21_600_000));
    assert_eq!(month.window_ms % month.resolution_ms, 0);
    assert!(RangeSpec::parse(Some("1H")).is_err());
}

#[test]
fn capacity_limit_keeps_aggregating_existing_keys() {
    // A full aggregate still takes a newer sample for a key it holds ...
    assert!(admits_key(true, MAX_PENDING_KEYS));
    assert!(storage_sample_replaces(Some(1), 2));
    // ... and drops an event for a new key.
    assert!(!admits_key(false, MAX_PENDING_KEYS));
    assert!(admits_key(false, MAX_PENDING_KEYS - 1));
}

#[test]
fn storage_samples_keep_the_latest() {
    assert!(storage_sample_replaces(None, 5));
    assert!(storage_sample_replaces(Some(5), 5));
    assert!(!storage_sample_replaces(Some(6), 5));
}

#[test]
fn minute_buckets_and_conversions() {
    assert_eq!(minute_bucket(125_000), 120_000);
    assert_eq!(minute_bucket(-5), 0);
    assert_eq!(as_i64(u64::MAX), i64::MAX);
    assert_eq!(as_i64(7), 7);
    assert_eq!(as_u64(-1), 0);
    assert_eq!(as_u64(9), 9);
    assert_eq!(saturating_u32(usize::MAX), u32::MAX);
    assert_eq!(saturating_u32(3), 3);
    assert_eq!(retention_cutoff_ms(40 * 86_400_000), 10 * 86_400_000);
}

#[test]
fn invitation_token_is_kept_out_of_http_request_components() {
    let url = invitation_action_url("https://portal.example.test/", "ffdb_invitation_prefix.secret")
        .and_then(|text| url::Url::parse(&text).ok());
    assert_eq!(url.as_ref().and_then(url::Url::query), None);
    assert_eq!(url.as_ref().map(url::Url::path), Some("/accept-invitation"));
    assert!(
        url.as_ref()
            .and_then(url::Url::fragment)
            .is_some_and(|fragment| fragment.starts_with("token=ffdb_invitation_"))
    );
}

#[test]
fn invitation_urls_need_a_base() {
    assert_eq!(invitation_action_url("not a url", "token"), None);
    assert_eq!(
        invitation_action_url("https://portal.example.test/app/", "abc").as_deref(),
        Some("https://portal.example.test/app/accept-invitation#token=abc")
    );
}

#[test]
fn summaries_cover_their_window_in_whole_buckets() {
    let range = RangeSpec::parse(Some("1h")).expect("hour");
    let frame = summary_frame(7_250_000, range, true);
    assert_eq!(frame.window_start_ms, 3_650_000);
    assert_eq!(frame.window_end_ms, 7_250_000);
    assert_eq!(frame.resolution_seconds, 60);
    assert_eq!(scope_name(&frame), "project");
    let buckets = series_buckets(frame.window_start_ms, frame.window_end_ms, range.resolution_ms);
    assert_eq!(buckets.len(), 61);
    assert_eq!(buckets[0], 3_600_000);
    assert_eq!(*buckets.last().expect("last"), 7_200_000);
    assert!(buckets.windows(2).all(|pair| pair[1] - pair[0] == 60_000));
    let early = summary_frame(1_000, RangeSpec::parse(None).expect("day"), false);
    assert_eq!(early.window_start_ms, 1_000 - 86_400_000);
    assert_eq!(scope_name(&early), "instance");
    let negative = series_buckets(-90_000, 30_000, 60_000);
    assert_eq!(negative, vec![-120_000, -60_000, 0]);
    assert!(series_buckets(120_000, 60_000, 60_000).is_empty());
    assert_eq!(summary_frame(i64::MIN + 5, range, false).window_start_ms, i64::MIN);
}

#[test]
fn rankings_are_stable_by_descending_count() {
    assert_eq!(rank_by_count(&vec![5, 9, 5, 1, 9], 20), vec![1, 4, 0, 2, 3]);
    assert_eq!(rank_by_count(&vec![5, 9, 5, 1, 9], 3), vec![1, 4, 0]);
    assert_eq!(rank_by_count(&vec![5, 9], 0), Vec::<usize>::new());
    let many: Vec<u64> = (0..50).map(|n| (n % 7) as u64).collect();
    let top = rank_by_count(&many, RANKING_LIMIT);
    assert_eq!(top.len(), 20);
    let mut expected: Vec<usize> = (0..50).collect();
    expected.sort_by_key(|index| std::cmp::Reverse(many[*index]));
    assert_eq!(top, expected[..20].to_vec());
}

#[test]
fn query_counters_saturate() {
    let zero = QueryCounters { executions: 0, errors: 0, rows_returned: 0, rows_affected: 0 };
    let one = record_query(zero, true, 3, 0);
    assert_eq!(one, QueryCounters { executions: 1, errors: 1, rows_returned: 3, rows_affected: 0 });
    let two = record_query(one, false, u64::MAX, 2);
    assert_eq!(two, QueryCounters { executions: 2, errors: 1, rows_returned: u64::MAX, rows_affected: 2 });
    assert_eq!(merge_query_counters(one, two), merge_query_counters(two, one));
    assert_eq!(merge_query_counters(one, two).executions, 3);
}

#[test]
fn shapes_keep_only_keywords_punctuation_and_operators() {
    assert_eq!(
        redact_sql_shape("select secret from t where a = 'x' or b >= 3 -- note"),
        "SELECT ? FROM ? WHERE ? = ? OR ? >= ?"
    );
    assert_eq!(redact_sql_shape("INSERT INTO t(a, b) VALUES ($1, @two)"), "INSERT INTO ? ( ? , ? ) VALUES ( ? , ? )");
    assert_eq!(redact_sql_shape("   /* only a comment */ "), "UNKNOWN");
}

#[test]
fn literal_values_and_identifiers_never_change_the_shape() {
    assert_eq!(
        redact_sql_shape("SELECT * FROM t WHERE a = 'x'"),
        redact_sql_shape("SELECT * FROM t WHERE a = 'a much longer value'"),
    );
    assert_eq!(
        redact_sql_shape("SELECT name FROM users WHERE id = 1"),
        redact_sql_shape("SELECT total FROM orders WHERE id = 1"),
    );
    assert_ne!(
        redact_sql_shape("SELECT a FROM t"),
        redact_sql_shape("SELECT a FROM t WHERE b = 1"),
    );
}

fn http_key(route: &str, status_class: i16) -> HttpKey {
    HttpKey {
        bucket_start_ms: 60_000,
        project_id: 5,
        method: "GET".to_owned(),
        route: route.to_owned(),
        status_class,
    }
}

#[test]
fn pending_aggregate_finds_held_keys_and_appends_new_ones() {
    let mut pending = PendingAggregate::new();
    assert_eq!(pending.aggregate_http(http_key("/v1/projects/:id/sync", 2)), Some(0));
    assert_eq!(pending.aggregate_http(http_key("/v1/projects/:id/query", 2)), Some(1));
    assert_eq!(pending.aggregate_http(http_key("/v1/projects/:id/sync", 2)), Some(0));
    assert_eq!(pending.aggregate_http(http_key("/v1/projects/:id/sync", 5)), Some(2));

    let key = QueryKey { bucket_start_ms: 60_000, project_id: 5, fingerprint: "abc".to_owned() };
    assert_eq!(pending.aggregate_query(key.clone(), false, 3, 0), Some(0));
    assert_eq!(pending.aggregate_query(key, true, u64::MAX, 2), Some(0));
    let counters = pending.counters_at(0).expect("counters");
    assert_eq!(counters.executions, 2);
    assert_eq!(counters.errors, 1);
    assert_eq!(counters.rows_returned, u64::MAX);
    assert_eq!(counters.rows_affected, 2);
    assert_eq!(pending.counters_at(1), None);

    let first = StorageSample { project_id: 5, logical_database_bytes: 10, sampled_at_ms: 1 };
    let second = StorageSample { project_id: 5, logical_database_bytes: 20, sampled_at_ms: 2 };
    assert_eq!(pending.aggregate_storage(first), Some(0));
    assert_eq!(pending.aggregate_storage(second), Some(0));
    assert_eq!(pending.storage_at(0), Some(second));
    assert_eq!(pending.storage_at(1), None);
    assert_eq!(pending.key_total(), 5);
}

#[test]
fn pending_events_are_folded_and_drops_are_not_counted_for_them() {
    let mut pending = PendingAggregate::new();
    let mut dropped: u64 = 0;
    assert_eq!(pending.aggregate_event(PendingEvent::Http(http_key("/v1/projects", 2)), &mut dropped), Some(0));
    assert_eq!(pending.aggregate_event(PendingEvent::Http(http_key("/v1/projects", 2)), &mut dropped), Some(0));
    let key = QueryKey { bucket_start_ms: 0, project_id: 1, fingerprint: "f".to_owned() };
    let query = PendingEvent::Query { key, failed: true, rows_returned: 1, rows_affected: 0 };
    assert_eq!(pending.aggregate_event(query, &mut dropped), Some(0));
    let sample = StorageSample { project_id: 1, logical_database_bytes: 3, sampled_at_ms: 9 };
    assert_eq!(pending.aggregate_event(PendingEvent::Storage(sample), &mut dropped), Some(0));
    assert_eq!(dropped, 0);
    assert_eq!(pending.key_total(), 3);
    assert_eq!(pending.counters_at(0).expect("counters").errors, 1);
    assert_eq!(pending.storage_at(0), Some(sample));
}
