use std::cell::Cell;

use tb_core::agent_warp::cache::{
    decode_cache, encode_cache, load_cache, persist_app_source, prepare_external_source,
    source_from_usage, CacheEnvelope, CacheLookup, SecureFileRead,
};
use tb_core::agent_warp::flows::{
    admit_set_bearer, app_snapshot, apply_inactive_failure, apply_same_scope_failure_with,
    begin_refresh, begin_restore_external, begin_set_bearer, begin_set_external, clear,
    complete_refresh, complete_set_bearer, external_refresh_target, load_cache_candidate,
    prior_identity,
    require_unchanged, restore_external_if_inactive, set_external, set_failure_action,
    FetchFailure, PriorIdentity, SetFailureAction, SyncOutcome,
};
use tb_core::agent_warp::keyed::{
    account_material, account_scope, cache_material, external_account_material,
    fingerprint_material, workspace_material, KeyedMaterial,
};
use tb_core::agent_warp::normalize::{
    normalize_external, normalize_remote, normalize_remote_with, parse_optional_time, validate_normalized,
    AiOverages, BonusGrantsInfo, ExternalAggregateUsage, ExternalUsage, ExternalWorkspaceUsage,
    RequestLimitData, RequestLimitInfo, SpendingInfo, WorkspaceData, WorkspaceMetadata,
    WorkspaceUsageInfo,
};
use tb_core::agent_warp::state::{
    capability, clear_external_error_if_current, clear_mode, clear_mode_with_error,
    external_source_is_current, finish_external_refresh, generation, initial_state,
    install_authenticated_app_mode, install_external_if_inactive, install_mode,
    install_refreshed_external, load_cache_candidate_with, mark_external_stale,
    path_identity_bytes, require_macos, revoke_scope, same_external_source, set_no_mode_error,
    source_snapshot, status, validate_bearer, validate_external_filename, AppMode, ExternalMode,
    Mode, PreparedSource, WarpError, WarpState,
};
use tb_core::agent_warp::transport::{
    admit_response, append_chunk, classify_status, graphql_request, now_ms, open_answer,
    parse_retry_after, request_failure, transient_failure, GraphqlAnswer, DEFAULT_RETRY_MS,
    ENDPOINT,
    MAX_RESPONSE_BYTES, REQUEST_LIMIT_OPERATION, REQUEST_LIMIT_QUERY, WORKSPACES_OPERATION,
    WORKSPACES_QUERY,
};
use tb_core::paths::SourcePath;
use tb_core::reports::{usage_data_generation, Reports};
use tb_core::warp_usage::{
    parse_warp_source, validate_normalized_usage, WarpAggregateUsage, WarpNormalizedUsage,
    WarpUsageSource, WarpWorkspaceUsage, WARP_NORMALIZED_USAGE_VERSION,
};

fn path(text: &str) -> SourcePath {
    SourcePath::from_text(text)
}

fn prepared(account: char, fingerprint: u8) -> PreparedSource {
    prepared_with_requests(account, fingerprint, 1)
}

fn prepared_with_requests(account: char, fingerprint: u8, requests_used: i64) -> PreparedSource {
    prepared_at_path("usage.json", account, fingerprint, requests_used, 1)
}

fn usage_of(account: char, requests_used: i64) -> WarpNormalizedUsage {
    WarpNormalizedUsage {
        version: WARP_NORMALIZED_USAGE_VERSION,
        synced_at_ms: 1,
        account_scope: account.to_string().repeat(43),
        usage: WarpAggregateUsage {
            requests_used: Some(requests_used),
            ..Default::default()
        },
        workspaces: Vec::new(),
    }
}

fn prepared_at_path(
    location: &str,
    account: char,
    fingerprint: u8,
    requests_used: i64,
    modified_ms: u64,
) -> PreparedSource {
    let usage = usage_of(account, requests_used);
    PreparedSource {
        source: WarpUsageSource::new(path(location), usage.copy(), [fingerprint; 32], modified_ms)
            .ok()
            .unwrap(),
        usage,
    }
}

fn app(bearer: &str, account: char, fingerprint: u8) -> AppMode {
    AppMode {
        bearer: bearer.to_string(),
        account_scope: account.to_string().repeat(43),
        prepared: prepared(account, fingerprint),
        stale: false,
        retry_at_ms: None,
        error: None,
    }
}

fn external(prepared: PreparedSource) -> Mode {
    Mode::External(ExternalMode {
        prepared,
        stale: false,
        error: None,
    })
}

fn fresh() -> (WarpState, Reports) {
    (initial_state(true), Reports::new())
}

fn removed() -> Result<(), WarpError> {
    Ok(())
}

fn unremovable() -> Result<(), WarpError> {
    Err(WarpError::Storage)
}

fn untouched() -> Result<(), WarpError> {
    unreachable!("the cache must not be removed")
}

fn answer<T>(data: Option<T>, errors: usize) -> GraphqlAnswer<T> {
    GraphqlAnswer { data, errors }
}

fn failure(error: WarpError) -> FetchFailure {
    FetchFailure {
        error,
        retry_at_ms: None,
    }
}

#[test]
fn external_reload_cannot_override_a_newer_source() {
    let (mut state, mut reports) = fresh();
    clear_mode(&mut state, &mut reports);
    install_mode(&mut state, &mut reports, external(prepared('A', 1)));
    let external_generation = generation(&state);
    assert!(install_refreshed_external(
        &mut state,
        &mut reports,
        external_generation,
        &path("usage.json"),
        prepared_with_requests('A', 2, 2),
    ));
    assert!(external_source_is_current(
        &state,
        &prepared_with_requests('A', 2, 2)
    ));
    assert!(!install_refreshed_external(
        &mut state,
        &mut reports,
        external_generation,
        &path("usage.json"),
        prepared_with_requests('A', 3, 3),
    ));
    assert!(external_source_is_current(
        &state,
        &prepared_with_requests('A', 2, 2)
    ));

    install_mode(
        &mut state,
        &mut reports,
        Mode::App(app("replacement-bearer", 'B', 4)),
    );
    let app_generation = generation(&state);
    assert!(!install_refreshed_external(
        &mut state,
        &mut reports,
        app_generation,
        &path("usage.json"),
        prepared_with_requests('A', 5, 5),
    ));
    assert_eq!(status(&state).mode, "app");
    clear_mode(&mut state, &mut reports);
}

#[test]
fn external_bootstrap_cannot_override_a_newer_app_source() {
    let (mut state, mut reports) = fresh();
    clear_mode(&mut state, &mut reports);
    let inactive_generation = generation(&state);
    install_mode(
        &mut state,
        &mut reports,
        Mode::App(app("newer-bearer", 'B', 1)),
    );
    assert!(!install_external_if_inactive(
        &mut state,
        &mut reports,
        inactive_generation,
        prepared('A', 2),
    ));
    assert_eq!(status(&state).mode, "app");

    clear_mode(&mut state, &mut reports);
    let inactive_generation = generation(&state);
    assert!(install_external_if_inactive(
        &mut state,
        &mut reports,
        inactive_generation,
        prepared('A', 3),
    ));
    assert_eq!(status(&state).mode, "external");
    clear_mode(&mut state, &mut reports);
}

#[test]
fn error_codes_never_embed_remote_or_local_details() {
    for error in [
        WarpError::Unauthorized,
        WarpError::Forbidden,
        WarpError::RateLimited,
        WarpError::RemoteServer,
        WarpError::Timeout,
        WarpError::Decode,
        WarpError::Graphql,
        WarpError::Oversize,
        WarpError::Storage,
    ] {
        let code = error.code();
        assert!(code.starts_with("warp_"));
        assert!(!code.contains('/'));
        assert!(!code.contains("sentinel"));
    }
}

#[test]
fn every_error_has_its_own_code() {
    let expected = [
        (WarpError::UnsupportedPlatform, "warp_unsupported_platform"),
        (WarpError::InvalidBearer, "warp_invalid_bearer"),
        (WarpError::NoActiveCredential, "warp_no_active_credential"),
        (WarpError::Cooldown, "warp_retry_cooldown"),
        (WarpError::Unauthorized, "warp_unauthorized"),
        (WarpError::Forbidden, "warp_forbidden"),
        (WarpError::RateLimited, "warp_rate_limited"),
        (WarpError::RemoteRejected, "warp_remote_rejected"),
        (WarpError::RemoteServer, "warp_remote_server"),
        (WarpError::Timeout, "warp_timeout"),
        (WarpError::Transport, "warp_transport"),
        (WarpError::Oversize, "warp_response_too_large"),
        (WarpError::Decode, "warp_decode_failed"),
        (WarpError::Graphql, "warp_graphql_error"),
        (WarpError::InvalidUsage, "warp_invalid_usage"),
        (WarpError::InvalidExternalPath, "warp_invalid_external_path"),
        (WarpError::ScopeMismatch, "warp_scope_mismatch"),
        (WarpError::Storage, "warp_storage_failed"),
        (WarpError::SourceChanged, "warp_source_changed"),
        (WarpError::Internal, "warp_internal"),
    ];
    for (error, code) in expected {
        assert_eq!(error.code(), code);
    }
}

#[test]
fn app_external_rotation_and_logout_expose_exactly_one_active_source() {
    let (mut state, mut reports) = fresh();
    clear_mode(&mut state, &mut reports);
    let before = generation(&state);
    install_mode(
        &mut state,
        &mut reports,
        Mode::App(app("process-memory-only", 'A', 1)),
    );
    let first = source_snapshot(&state);
    assert!(first.warp_usage_source.is_some());
    assert_eq!(status(&state).mode, "app");
    assert!(first.generation > before);

    install_mode(&mut state, &mut reports, external(prepared('B', 2)));
    let second = source_snapshot(&state);
    assert!(second.warp_usage_source.is_some());
    assert_eq!(status(&state).mode, "external");
    assert!(second.generation > first.generation);
    assert!(external_source_is_current(&state, &prepared('B', 2)));
    assert!(!external_source_is_current(&state, &prepared('C', 2)));
    let wire = format!("{:?}", status(&state));
    assert!(!wire.contains("process-memory-only"));
    assert!(!wire.contains(&"A".repeat(43)));

    clear_mode(&mut state, &mut reports);
    assert!(source_snapshot(&state).warp_usage_source.is_none());
    assert_eq!(status(&state).mode, "none");
    assert_eq!(usage_data_generation(&reports), 4);
}

#[test]
fn external_refresh_failures_keep_last_good_visible_and_success_clears_status() {
    let (mut state, mut reports) = fresh();
    let canonical = "/tmp/warp/usage.json";
    install_mode(
        &mut state,
        &mut reports,
        external(prepared_at_path(canonical, 'A', 7, 9, 1)),
    );
    let expected_generation = generation(&state);

    assert!(finish_external_refresh(
        &mut state,
        &mut reports,
        expected_generation,
        &path(canonical),
        Err(WarpError::InvalidExternalPath),
    ));
    assert!(status(&state).stale);
    assert_eq!(
        status(&state).error_code,
        Some(WarpError::InvalidExternalPath.code())
    );
    let source = source_snapshot(&state)
        .warp_usage_source
        .expect("last-good source remains selectable");
    assert_eq!(parse_warp_source(&source)[0].message_count, 9);

    assert!(finish_external_refresh(
        &mut state,
        &mut reports,
        expected_generation,
        &path(canonical),
        Err(WarpError::Decode),
    ));
    assert!(status(&state).stale);
    assert_eq!(status(&state).error_code, Some(WarpError::Decode.code()));

    for error in [WarpError::Storage, WarpError::InvalidUsage] {
        assert!(finish_external_refresh(
            &mut state,
            &mut reports,
            expected_generation,
            &path(canonical),
            Err(error),
        ));
        assert!(status(&state).stale);
        assert_eq!(status(&state).error_code, Some(error.code()));
        assert!(source_snapshot(&state).warp_usage_source.is_some());
    }

    assert!(finish_external_refresh(
        &mut state,
        &mut reports,
        expected_generation,
        &path("/tmp//warp/./usage.json"),
        Ok(prepared_at_path(canonical, 'A', 7, 9, 1)),
    ));
    let recovered = status(&state);
    assert!(!recovered.stale);
    assert_eq!(recovered.error_code, None);
    assert_eq!(recovered.requests_used, Some(9));
    assert_eq!(generation(&state), expected_generation);
    assert!(!mark_external_stale(
        &mut state,
        expected_generation,
        &path("/tmp/other/usage.json"),
        WarpError::Decode,
    ));
}

#[test]
fn failed_replacement_preserves_prior_scope_and_restart_cache_is_scope_gated() {
    let old = PriorIdentity {
        mode: Some("app"),
        account_scope: Some("A".repeat(43)),
        retry_at_ms: None,
    };
    assert_eq!(
        set_failure_action(Some(&old), &"B".repeat(43), true, WarpError::Unauthorized),
        SetFailureAction::PreservePrior
    );
    assert_eq!(
        set_failure_action(Some(&old), &"A".repeat(43), true, WarpError::Forbidden),
        SetFailureAction::ApplySameScope
    );
    assert_eq!(
        set_failure_action(None, &"A".repeat(43), true, WarpError::Timeout),
        SetFailureAction::InstallCached
    );
    assert_eq!(
        set_failure_action(None, &"A".repeat(43), true, WarpError::Unauthorized),
        SetFailureAction::StayInactive
    );
    assert_eq!(
        set_failure_action(None, &"A".repeat(43), false, WarpError::Timeout),
        SetFailureAction::StayInactive
    );
}

#[test]
fn unauthorized_purge_failure_blocks_residual_cache_on_transient_retry() {
    let (mut state, mut reports) = fresh();
    let account_scope = "R".repeat(43);
    install_mode(
        &mut state,
        &mut reports,
        Mode::App(app("revoked-bearer", 'R', 1)),
    );

    assert_eq!(
        apply_same_scope_failure_with(
            &mut state,
            &mut reports,
            &account_scope,
            failure(WarpError::Unauthorized),
            unremovable,
        ),
        Err(WarpError::Storage)
    );
    let failed_purge = status(&state);
    assert_eq!(failed_purge.mode, "none");
    assert_eq!(failed_purge.error_code, Some(WarpError::Storage.code()));

    let residual = load_cache_candidate_with(&state, &account_scope, || Ok(Some(prepared('R', 1))))
        .unwrap();
    assert!(residual.is_none());
    assert_eq!(
        set_failure_action(None, &account_scope, residual.is_some(), WarpError::Timeout),
        SetFailureAction::StayInactive
    );
    assert!(source_snapshot(&state).warp_usage_source.is_none());

    clear_mode(&mut state, &mut reports);
    assert!(
        load_cache_candidate_with(&state, &account_scope, || Ok(Some(prepared('R', 2))))
            .unwrap()
            .is_none()
    );

    install_authenticated_app_mode(
        &mut state,
        &mut reports,
        app("fresh-authenticated-bearer", 'R', 3),
    );
    let loaded_after_success = Cell::new(false);
    assert!(load_cache_candidate_with(&state, &account_scope, || {
        loaded_after_success.set(true);
        Ok(Some(()))
    })
    .unwrap()
    .is_some());
    assert!(loaded_after_success.get());
}

#[test]
fn external_path_identity_preserves_non_utf8_canonical_bytes() {
    let first = SourcePath {
        bytes: b"/tmp/warp-\x80/usage.json".to_vec(),
    };
    let second = SourcePath {
        bytes: b"/tmp/warp-\x81/usage.json".to_vec(),
    };
    assert_eq!(
        String::from_utf8_lossy(&first.bytes),
        String::from_utf8_lossy(&second.bytes)
    );
    assert_ne!(path_identity_bytes(&first), path_identity_bytes(&second));
    assert!(validate_external_filename(&first).is_ok());
}

#[test]
fn request_is_fixed_https_bearer_only_and_queries_exclude_member_identity() {
    let request = graphql_request("sentinel-secret", WORKSPACES_OPERATION, WORKSPACES_QUERY);
    assert_eq!(request.url, ENDPOINT);
    assert!(request.url.starts_with("https://"));
    let header = |name: &str| {
        request
            .headers
            .iter()
            .find(|(key, _)| key == name)
            .map(|(_, value)| value.as_str())
    };
    assert_eq!(header("authorization"), Some("Bearer sentinel-secret"));
    assert!(header("cookie").is_none());
    assert!(!WORKSPACES_QUERY.contains("members"));
    assert!(!WORKSPACES_QUERY.contains("userId"));
    assert!(!WORKSPACES_QUERY.contains(" name "));
    let body: serde_json::Value = serde_json::from_str(&request.body).unwrap();
    assert_eq!(body["operationName"], "GetWorkspacesMetadataForUser");
    assert_eq!(body["query"], WORKSPACES_QUERY);
    assert!(body["variables"].as_object().unwrap().is_empty());
    assert_eq!(
        graphql_request("b", "a\"b", "q").body,
        "{\"operationName\":\"a\\\"b\",\"query\":\"q\",\"variables\":{}}"
    );
}

#[test]
fn transport_refuses_redirects_caps_bodies_and_classifies_timeouts() {
    assert_eq!(
        admit_response(302, None, None, 0).unwrap_err().error,
        WarpError::RemoteRejected
    );
    let announced = format!("{}", MAX_RESPONSE_BYTES + 1);
    assert_eq!(
        admit_response(200, None, Some(&announced), 5),
        Err(FetchFailure {
            error: WarpError::Oversize,
            retry_at_ms: Some(300_005)
        })
    );
    assert!(admit_response(200, None, Some("2097152"), 5).is_ok());
    assert!(admit_response(204, None, Some("many"), 5).is_ok());
    assert!(admit_response(299, None, None, 5).is_ok());
    assert_eq!(
        admit_response(429, Some("400"), Some(&announced), 5),
        Err(FetchFailure {
            error: WarpError::RateLimited,
            retry_at_ms: Some(400_005)
        })
    );

    let mut bytes = Vec::new();
    assert!(append_chunk(&mut bytes, &vec![b'x'; 2_097_152], 5).is_ok());
    assert_eq!(
        append_chunk(&mut bytes, b"x", 5).unwrap_err().error,
        WarpError::Oversize
    );
    assert_eq!(bytes.len(), 2_097_152);
    assert_eq!(request_failure(true, 5).error, WarpError::Timeout);
    assert_eq!(request_failure(false, 5).error, WarpError::Transport);
}

#[test]
fn transport_sends_bearer_without_cookie_and_sanitizes_graphql_errors() {
    let error = open_answer(Some(answer::<()>(None, 1)), 7).unwrap_err();
    assert_eq!(error.error, WarpError::Graphql);
    let request = graphql_request("sentinel-secret", REQUEST_LIMIT_OPERATION, REQUEST_LIMIT_QUERY);
    assert!(request
        .headers
        .contains(&("authorization".to_string(), "Bearer sentinel-secret".to_string())));
    assert!(!request.headers.iter().any(|(key, _)| key == "cookie"));
    assert!(!error.error.code().contains("sentinel"));
    assert_eq!(open_answer::<()>(None, 7).unwrap_err().error, WarpError::Decode);
    assert_eq!(
        open_answer(Some(answer::<()>(None, 0)), 7).unwrap_err().error,
        WarpError::Decode
    );
    assert_eq!(
        open_answer(Some(answer(Some(3), 1)), 7).unwrap_err().error,
        WarpError::Graphql
    );
    assert_eq!(open_answer(Some(answer(Some(3), 0)), 7), Ok(3));
}

fn limits() -> RequestLimitData {
    RequestLimitData {
        request_limit_info: Some(RequestLimitInfo {
            request_limit: Some(100),
            requests_used_since_last_refresh: Some(42),
            next_refresh_time: Some("2026-08-01T00:00:00Z".to_string()),
            bonus_grants_info: Some(BonusGrantsInfo {
                spending_info: Some(SpendingInfo {
                    current_month_spend_cents: Some(1234),
                    current_month_credits_purchased: Some(500),
                }),
            }),
        }),
    }
}

fn workspace(id: &str) -> WorkspaceMetadata {
    WorkspaceMetadata {
        id: id.to_string(),
        total_requests_used_since_last_refresh: Some(10),
        ai_overages: Some(AiOverages {
            current_monthly_request_cost_cents: Some(345),
            current_monthly_requests_used: Some(12),
        }),
        usage_info: Some(WorkspaceUsageInfo {
            requests_used_since_last_refresh: Some(11),
        }),
    }
}

fn workspaces(list: Vec<WorkspaceMetadata>) -> WorkspaceData {
    WorkspaceData {
        workspaces_metadata_for_user: list,
    }
}

#[test]
fn two_typed_paths_normalize_without_raw_workspace_identity() {
    let normalized = normalize_remote_with(
        limits(),
        workspaces(vec![workspace("sentinel-workspace-id")]),
        "A".repeat(43),
        |_: &str| Ok("B".repeat(43)),
        1_769_683_200_000,
    )
    .unwrap();
    let wire = format!("{normalized:?}");
    assert_eq!(normalized.usage.requests_used, Some(42));
    assert_eq!(normalized.usage.spend_cents, Some(1234));
    assert_eq!(normalized.usage.credits_purchased_cents, Some(500));
    assert_eq!(normalized.usage.next_refresh_at_ms, Some(1_785_542_400_000));
    assert_eq!(normalized.synced_at_ms, 1_769_683_200_000);
    assert_eq!(normalized.workspaces[0].requests_used, Some(12));
    assert_eq!(normalized.workspaces[0].spend_cents, Some(345));
    assert!(!wire.contains("sentinel-workspace-id"));
    assert!(!wire.contains("Personal"));
}

#[test]
fn remote_workspaces_are_scoped_under_the_key() {
    let opaque = |material: &KeyedMaterial| -> Option<String> {
        assert_eq!(material.domain, "tokenbar-warp-workspace-v1");
        assert_eq!(
            material.parts,
            ["A".repeat(43).into_bytes(), b"sentinel-workspace-id".to_vec()]
        );
        Some("B".repeat(43))
    };
    let list = || workspaces(vec![workspace("sentinel-workspace-id")]);
    let normalized = normalize_remote(limits(), list(), "A".repeat(43), &opaque, 7).unwrap();
    assert_eq!(normalized.workspaces[0].workspace_scope, "B".repeat(43));
    assert_eq!(normalized.synced_at_ms, 7);
    let keyless = |_: &KeyedMaterial| -> Option<String> { None };
    assert_eq!(
        normalize_remote(limits(), list(), "A".repeat(43), &keyless, 7).unwrap_err(),
        WarpError::Storage
    );
    let unasked = |_: &KeyedMaterial| -> Option<String> { panic!("nothing to scope") };
    let none = RequestLimitData {
        request_limit_info: None,
    };
    assert_eq!(
        normalize_remote(none, list(), "A".repeat(43), &unasked, 7).unwrap_err(),
        WarpError::InvalidUsage
    );
}

#[test]
fn remote_usage_falls_back_and_is_validated() {
    let scope = |id: &str| Ok(format!("{}{}", id, "B".repeat(43 - id.len())));
    let mut total = workspace("t");
    total.ai_overages = None;
    let mut period = workspace("p");
    period.ai_overages = None;
    period.total_requests_used_since_last_refresh = None;
    let normalized = normalize_remote_with(
        limits(),
        workspaces(vec![total, period]),
        "A".repeat(43),
        scope,
        0,
    )
    .unwrap();
    assert_eq!(normalized.synced_at_ms, 1);
    assert_eq!(normalized.workspaces[0].requests_used, Some(10));
    assert_eq!(normalized.workspaces[0].spend_cents, None);
    assert_eq!(normalized.workspaces[1].requests_used, Some(11));

    let refused = |request: RequestLimitData, list: Vec<WorkspaceMetadata>, account: String| {
        normalize_remote_with(request, workspaces(list), account, scope, 5).unwrap_err()
    };
    let none = RequestLimitData {
        request_limit_info: None,
    };
    assert_eq!(
        refused(none, vec![], "A".repeat(43)),
        WarpError::InvalidUsage
    );
    let mut undated = limits();
    undated.request_limit_info.as_mut().unwrap().next_refresh_time = Some("soon".to_string());
    assert_eq!(
        refused(undated, vec![], "A".repeat(43)),
        WarpError::InvalidUsage
    );
    assert_eq!(
        refused(limits(), vec![workspace("  ")], "A".repeat(43)),
        WarpError::InvalidUsage
    );
    assert_eq!(
        refused(limits(), vec![workspace("x"), workspace("x")], "A".repeat(43)),
        WarpError::InvalidUsage
    );
    assert_eq!(
        refused(limits(), vec![], "raw-account".to_string()),
        WarpError::InvalidUsage
    );
    assert_eq!(
        normalize_remote_with(
            limits(),
            workspaces(vec![workspace("x")]),
            "A".repeat(43),
            |_: &str| Err(WarpError::Storage),
            5
        )
        .unwrap_err(),
        WarpError::Storage
    );
}

#[test]
fn status_classes_are_fixed_and_rate_limit_is_at_least_five_minutes() {
    assert_eq!(classify_status(401, None, 0).error, WarpError::Unauthorized);
    assert_eq!(classify_status(401, None, 0).retry_at_ms, None);
    assert_eq!(classify_status(403, None, 0).error, WarpError::Forbidden);
    let before = 1_769_683_200_000;
    let limited = classify_status(429, Some("1"), before);
    assert_eq!(limited.error, WarpError::RateLimited);
    assert!(limited.retry_at_ms.unwrap() >= before + DEFAULT_RETRY_MS);
    assert_eq!(
        classify_status(500, None, 0).error,
        WarpError::RemoteServer
    );
    assert_eq!(
        classify_status(429, Some("900"), before).retry_at_ms,
        Some(before + 900_000)
    );
    assert_eq!(
        classify_status(599, None, before),
        FetchFailure {
            error: WarpError::RemoteServer,
            retry_at_ms: Some(before + 300_000),
        }
    );
    assert_eq!(classify_status(600, None, 0).error, WarpError::RemoteRejected);
}

#[test]
fn retry_after_takes_seconds_and_dates() {
    assert_eq!(parse_retry_after(None, 10), 300_010);
    assert_eq!(parse_retry_after(Some(" 2 "), 10), 2_010);
    assert_eq!(parse_retry_after(Some("-2"), 10), 10);
    assert_eq!(parse_retry_after(Some("9223372036854775807"), 10), i64::MAX);
    assert_eq!(
        parse_retry_after(Some("Thu, 01 Jan 1970 00:00:09 GMT"), 10),
        9_000
    );
    assert_eq!(parse_retry_after(Some("later"), 10), 300_010);
    assert_eq!(
        transient_failure(WarpError::Decode, i64::MAX).retry_at_ms,
        Some(i64::MAX)
    );
}

#[test]
fn clocks_are_held_to_their_range() {
    assert_eq!(now_ms(None), 1);
    assert_eq!(now_ms(Some(17)), 17);
    assert_eq!(now_ms(Some(u128::MAX)), i64::MAX);
}

#[test]
fn trust_boundary_rejects_graphql_errors_unknown_shapes_and_bad_bearers() {
    assert!(open_answer(Some(answer::<RequestLimitData>(None, 1)), 0).is_err());
    assert_eq!(validate_bearer(""), Err(WarpError::InvalidBearer));
    assert_eq!(
        validate_bearer("Bearer token"),
        Err(WarpError::InvalidBearer)
    );
    assert_eq!(
        validate_bearer("token\nCookie: x"),
        Err(WarpError::InvalidBearer)
    );
    assert!(validate_external_filename(&path("/tmp/usage.json")).is_ok());
    for sibling in [
        "/tmp/usage-old.json",
        "/tmp/usage.json.backup",
        "/tmp/.usage.json.tmp",
        "/tmp/usage-archive.json",
    ] {
        assert_eq!(
            validate_external_filename(&path(sibling)),
            Err(WarpError::InvalidExternalPath)
        );
    }
}

#[test]
fn bearers_are_trimmed_and_bounded() {
    assert_eq!(validate_bearer("  abc \n"), Ok("abc".to_string()));
    assert_eq!(validate_bearer("bEaReR x"), Err(WarpError::InvalidBearer));
    assert_eq!(validate_bearer("Bearer"), Ok("Bearer".to_string()));
    assert_eq!(validate_bearer("bearer-token"), Ok("bearer-token".to_string()));
    assert!(validate_bearer(&"x".repeat(16384)).is_ok());
    assert!(validate_bearer(&"x".repeat(16385)).is_err());
    assert!(validate_bearer(&"é".repeat(8193)).is_err());
    assert!(validate_bearer("a\u{7f}b").is_err());
}

#[test]
fn file_names_are_last_components() {
    for good in ["usage.json", "./usage.json", "/a//usage.json/", "a/usage.json/."] {
        assert!(validate_external_filename(&path(good)).is_ok(), "{good}");
    }
    for bad in ["", "/", ".", "usage.json/..", "usage.json/x", "Usage.json"] {
        assert!(validate_external_filename(&path(bad)).is_err(), "{bad}");
    }
    assert!(path("/a//b/./c/").same_path(&path("/a/b/c")));
    assert!(!path("a").same_path(&path("/a")));
    assert!(!path("./a").same_path(&path("a")));
    assert!(!path("/a/../b").same_path(&path("/b")));
}

fn external_usage(version: u32, synced_at: &str) -> ExternalUsage {
    ExternalUsage {
        version,
        synced_at: synced_at.to_string(),
        usage: ExternalAggregateUsage {
            requests_used: Some(1),
            request_limit: Some(2),
            spend_cents: Some(3),
            credits_purchased_cents: Some(4),
            next_refresh_time: Some("2026-08-01T00:00:00Z".to_string()),
        },
        workspaces: vec![ExternalWorkspaceUsage {
            id: "sentinel-workspace-id".to_string(),
            name: Some("sentinel-workspace-name".to_string()),
            requests_used: Some(1),
            spend_cents: Some(2),
        }],
    }
}

#[test]
fn external_usage_is_normalized_without_names() {
    let scope = |material: &KeyedMaterial| -> Option<String> {
        assert_eq!(material.domain, "tokenbar-warp-workspace-v1");
        assert_eq!(
            material.parts,
            [
                "E".repeat(43).into_bytes(),
                b"sentinel-workspace-id".to_vec()
            ]
        );
        Some("W".repeat(43))
    };
    let normalized = normalize_external(
        external_usage(1, "2026-07-22T00:00:00.250Z"),
        "E".repeat(43),
        &scope,
    )
    .unwrap();
    assert_eq!(normalized.synced_at_ms, 1_784_678_400_250);
    assert_eq!(normalized.usage.next_refresh_at_ms, Some(1_785_542_400_000));
    assert_eq!(normalized.workspaces[0].workspace_scope, "W".repeat(43));
    assert!(!format!("{normalized:?}").contains("sentinel"));
    assert_eq!(
        normalize_external(external_usage(2, "2026-07-22T00:00:00Z"), "E".repeat(43), &scope)
            .unwrap_err(),
        WarpError::InvalidUsage
    );
    assert_eq!(
        normalize_external(external_usage(1, "yesterday"), "E".repeat(43), &scope).unwrap_err(),
        WarpError::InvalidUsage
    );
    let keyless = |_: &KeyedMaterial| -> Option<String> { None };
    assert_eq!(
        normalize_external(external_usage(1, "2026-07-22T00:00:00Z"), "E".repeat(43), &keyless)
            .unwrap_err(),
        WarpError::Storage
    );
    assert_eq!(parse_optional_time(None), Ok(None));
    assert_eq!(
        parse_optional_time(Some("1970-01-01T00:00:01.5Z")),
        Ok(Some(1_500))
    );
    assert_eq!(parse_optional_time(Some("1")), Err(WarpError::InvalidUsage));
}

#[test]
fn external_files_become_sources() {
    let read = |name: &str| SecureFileRead {
        path: path(name),
        bytes: b"raw".to_vec(),
        modified_ms: 77,
    };
    let opaque = |material: &KeyedMaterial| -> Option<String> {
        match material.domain {
            "tokenbar-warp-external-account-v1" => {
                assert_eq!(material.parts, [b"/tmp/usage.json".to_vec()]);
                Some("E".repeat(43))
            }
            "tokenbar-warp-workspace-v1" => {
                assert_eq!(material.parts[0], "E".repeat(43).into_bytes());
                Some("W".repeat(43))
            }
            other => panic!("{other}"),
        }
    };
    let decode = |bytes: &Vec<u8>| {
        assert_eq!(bytes, b"raw");
        Some(external_usage(1, "2026-07-22T00:00:00Z"))
    };
    let written = |usage: &WarpNormalizedUsage| Some(vec![usage.workspaces.len() as u8]);
    let digest = |material: &KeyedMaterial| -> Option<[u8; 32]> {
        assert_eq!(material.domain, "tokenbar-warp-source-fingerprint-v1");
        assert_eq!(material.parts[0], "E".repeat(43).into_bytes());
        Some([material.parts[1][0]; 32])
    };
    let source =
        prepare_external_source(read("/tmp/usage.json"), &opaque, &decode, &written, &digest)
            .ok()
            .unwrap();
    assert_eq!(source.source.fingerprint(), [1; 32]);
    assert_eq!(source.source.observed_mtime_ms(), 77);
    assert_eq!(source.usage.account_scope, "E".repeat(43));

    assert_eq!(
        prepare_external_source(read("/tmp/other"), &opaque, &decode, &written, &digest).err(),
        Some(WarpError::InvalidExternalPath)
    );
    let garbled = |_: &Vec<u8>| -> Option<ExternalUsage> { None };
    assert_eq!(
        prepare_external_source(read("/tmp/usage.json"), &opaque, &garbled, &written, &digest)
            .err(),
        Some(WarpError::Decode)
    );
    let keyless = |_: &KeyedMaterial| -> Option<String> { None };
    assert_eq!(
        prepare_external_source(read("/tmp/usage.json"), &keyless, &decode, &written, &digest)
            .err(),
        Some(WarpError::Storage)
    );
}

fn opaque(c: char) -> String {
    c.to_string().repeat(43)
}

#[test]
fn normalized_workspace_usage_emits_only_opaque_identity() {
    let source = WarpUsageSource::new(
        path("/private/usage.json"),
        WarpNormalizedUsage {
            version: WARP_NORMALIZED_USAGE_VERSION,
            synced_at_ms: 1_769_683_200_000,
            account_scope: opaque('A'),
            usage: WarpAggregateUsage {
                requests_used: Some(42),
                request_limit: Some(100),
                spend_cents: Some(1_234),
                credits_purchased_cents: Some(500),
                next_refresh_at_ms: Some(1_769_769_600_000),
            },
            workspaces: vec![WarpWorkspaceUsage {
                workspace_scope: opaque('B'),
                requests_used: Some(12),
                spend_cents: Some(345),
            }],
        },
        [7; 32],
        1,
    )
    .ok()
    .expect("valid source");
    let messages = parse_warp_source(&source);
    assert_eq!(messages.len(), 1);
    let workspace = &messages[0];
    assert_eq!(workspace.client, "warp");
    assert_eq!(workspace.model_id, "aggregate-requests");
    assert_eq!(workspace.provider_id, "warp");
    assert_eq!(
        workspace.session_id,
        format!("warp-aggregate-workspace-{}", opaque('B'))
    );
    assert_eq!(workspace.workspace_key.as_deref(), Some(opaque('B').as_str()));
    assert_eq!(workspace.workspace_label, None);
    assert_eq!(workspace.message_count, 12);
    assert_eq!(workspace.cost_cents, 345);
    assert!(workspace.provider_reported_cost);
    assert!(!workspace.session_id.contains(&opaque('A')));
}

#[test]
fn empty_workspace_usage_falls_back_to_opaque_account_scope() {
    let usage = WarpNormalizedUsage {
        version: WARP_NORMALIZED_USAGE_VERSION,
        synced_at_ms: 1_769_683_200_000,
        account_scope: opaque('C'),
        usage: WarpAggregateUsage {
            requests_used: Some(42),
            spend_cents: Some(1_234),
            ..Default::default()
        },
        workspaces: vec![],
    };
    let source = WarpUsageSource::new(path("/private/usage.json"), usage, [7; 32], 1)
        .ok()
        .expect("valid source");
    let messages = parse_warp_source(&source);
    assert_eq!(messages.len(), 1);
    assert_eq!(
        messages[0].session_id,
        format!("warp-aggregate-account-{}", opaque('C'))
    );
    assert_eq!(messages[0].workspace_key, None);
    assert_eq!(messages[0].workspace_label, None);
    assert_eq!(messages[0].message_count, 42);
    assert_eq!(messages[0].cost_cents, 1_234);
}

#[test]
fn raw_or_duplicate_scopes_are_rejected_before_parsing() {
    let raw = WarpNormalizedUsage {
        version: WARP_NORMALIZED_USAGE_VERSION,
        synced_at_ms: 1,
        account_scope: "raw-account-id".to_string(),
        usage: WarpAggregateUsage::default(),
        workspaces: vec![],
    };
    assert!(WarpUsageSource::new(path("usage.json"), raw, [0; 32], 1).is_err());

    let duplicate = WarpNormalizedUsage {
        version: WARP_NORMALIZED_USAGE_VERSION,
        synced_at_ms: 1,
        account_scope: opaque('E'),
        usage: WarpAggregateUsage::default(),
        workspaces: vec![
            WarpWorkspaceUsage {
                workspace_scope: opaque('D'),
                requests_used: Some(1),
                spend_cents: None,
            },
            WarpWorkspaceUsage {
                workspace_scope: opaque('D'),
                requests_used: Some(2),
                spend_cents: None,
            },
        ],
    };
    assert!(WarpUsageSource::new(path("usage.json"), duplicate, [0; 32], 1).is_err());
}

#[test]
fn every_fault_of_usage_is_named() {
    let fault = |change: &dyn Fn(&mut WarpNormalizedUsage)| {
        let mut usage = usage_of('A', 1);
        usage.workspaces.push(WarpWorkspaceUsage {
            workspace_scope: opaque('-'),
            requests_used: None,
            spend_cents: Some(i64::MAX),
        });
        change(&mut usage);
        validate_normalized_usage(&usage).err()
    };
    assert_eq!(fault(&|_| ()), None);
    assert_eq!(
        fault(&|u| u.version = 2),
        Some("invalid warp normalized usage header")
    );
    assert_eq!(
        fault(&|u| u.synced_at_ms = 0),
        Some("invalid warp normalized usage header")
    );
    assert_eq!(
        fault(&|u| u.account_scope.push('x')),
        Some("invalid warp account scope")
    );
    assert_eq!(
        fault(&|u| u.usage.request_limit = Some(-1)),
        Some("negative warp usage value")
    );
    assert_eq!(
        fault(&|u| u.usage.next_refresh_at_ms = Some(0)),
        Some("invalid warp refresh time")
    );
    assert_eq!(
        fault(&|u| u.workspaces[0].workspace_scope = "/".repeat(43)),
        Some("invalid warp workspace scope")
    );
    assert_eq!(
        fault(&|u| u.workspaces[0].spend_cents = Some(-5)),
        Some("negative warp usage value")
    );
    assert_eq!(
        WarpUsageSource::new(path(""), usage_of('A', 1), [0; 32], 1).err(),
        Some("warp source path is empty")
    );
    assert_eq!(
        validate_normalized(&usage_of('/', 1)),
        Err(WarpError::InvalidUsage)
    );
    let mut big = usage_of('A', i64::MAX);
    big.usage.spend_cents = None;
    let source = WarpUsageSource::new(path("x"), big, [0; 32], 1).ok().unwrap();
    assert_eq!(parse_warp_source(&source)[0].message_count, i32::MAX);
    let idle = WarpUsageSource::new(path("x"), usage_of('A', 0), [0; 32], 1)
        .ok()
        .unwrap();
    assert!(parse_warp_source(&idle).is_empty());
}

/// A stand-in for a keyed digest.
fn digest_of(material: &KeyedMaterial) -> Option<[u8; 32]> {
    let mut mac = [material.domain.len() as u8; 32];
    let mut at: usize = 0;
    for part in &material.parts {
        for byte in part.iter().chain([&0xff]) {
            mac[at % 32] = mac[at % 32].wrapping_mul(31).wrapping_add(*byte);
            at += 1;
        }
    }
    Some(mac)
}

fn verify(material: &KeyedMaterial, mac: &Vec<u8>) -> bool {
    assert_eq!(material.domain, "tokenbar-warp-cache-mac-v1");
    digest_of(material).unwrap()[..] == mac[..]
}

fn written(usage: &WarpNormalizedUsage) -> Option<Vec<u8>> {
    Some(format!("{}:{}", usage.account_scope, usage.usage.requests_used?).into_bytes())
}

fn read(payload: &Vec<u8>) -> Option<WarpNormalizedUsage> {
    let text = String::from_utf8(payload.clone()).ok()?;
    let (scope, requests) = text.split_once(':')?;
    Some(usage_of(scope.chars().next()?, requests.parse().ok()?))
}

fn open(envelope: Option<CacheEnvelope>, scope: &str) -> Result<Option<PreparedSource>, WarpError> {
    decode_cache(
        &envelope,
        path("cache.json"),
        11,
        scope,
        &verify,
        &read,
        &written,
        &digest_of,
    )
}

fn sealed(usage: &WarpNormalizedUsage) -> CacheEnvelope {
    encode_cache(usage, &written, &digest_of).ok().unwrap()
}

#[test]
fn caches_read_back_for_their_account_only() {
    let scope = opaque('A');
    let usage = usage_of('A', 5);
    let source = open(Some(sealed(&usage)), &scope).ok().unwrap().unwrap();
    assert_eq!(source.usage.usage.requests_used, Some(5));
    assert_eq!(
        source.source.fingerprint(),
        digest_of(&fingerprint_material(&scope, &written(&usage).unwrap())).unwrap()
    );
    assert_eq!(source.source.observed_mtime_ms(), 11);

    assert!(open(Some(sealed(&usage)), &opaque('B')).ok().unwrap().is_none());
    let mut older = sealed(&usage);
    older.schema_version = 0;
    assert!(open(Some(older), &scope).ok().unwrap().is_none());
    let foreign = |_: &WarpNormalizedUsage| written(&usage_of('B', 5));
    let misplaced = encode_cache(&usage, &foreign, &digest_of).ok().unwrap();
    assert_eq!(
        open(Some(misplaced), &scope).err(),
        Some(WarpError::ScopeMismatch)
    );
    assert_eq!(open(None, &scope).err(), Some(WarpError::Storage));
    let mut tampered = sealed(&usage);
    tampered.payload_bytes_base64 = sealed(&usage_of('A', 6)).payload_bytes_base64;
    assert_eq!(open(Some(tampered), &scope).err(), Some(WarpError::Storage));
    let mut forged = sealed(&usage);
    forged.payload_mac = sealed(&usage_of('A', 6)).payload_mac;
    assert_eq!(open(Some(forged), &scope).err(), Some(WarpError::Storage));
    let mut damaged = sealed(&usage);
    damaged.payload_mac.push('=');
    assert_eq!(open(Some(damaged), &scope).err(), Some(WarpError::Storage));
    let garbled = |_: &WarpNormalizedUsage| Some(b"payload".to_vec());
    let unreadable = encode_cache(&usage, &garbled, &digest_of).ok().unwrap();
    assert_eq!(unreadable.payload_bytes_base64, "cGF5bG9hZA");
    assert_eq!(unreadable.account_scope, scope);
    assert_eq!(open(Some(unreadable), &scope).err(), Some(WarpError::Storage));
    let keyless = |_: &KeyedMaterial| -> Option<[u8; 32]> { None };
    assert_eq!(
        encode_cache(&usage, &written, &keyless).err(),
        Some(WarpError::Storage)
    );
    let unwritable = |_: &WarpNormalizedUsage| -> Option<Vec<u8>> { None };
    assert_eq!(
        encode_cache(&usage, &unwritable, &digest_of).err(),
        Some(WarpError::Internal)
    );
}

#[test]
fn digests_are_taken_under_their_own_domains() {
    let shown = |material: KeyedMaterial| (material.domain, material.parts);
    assert_eq!(
        shown(account_material("bearer")),
        ("tokenbar-warp-account-v1", vec![b"bearer".to_vec()])
    );
    assert_eq!(
        shown(external_account_material(&vec![0x2f, 0xff])),
        (
            "tokenbar-warp-external-account-v1",
            vec![vec![0x2f, 0xff]]
        )
    );
    assert_eq!(
        shown(workspace_material("a\u{e9}", "id")),
        (
            "tokenbar-warp-workspace-v1",
            vec![vec![0x61, 0xc3, 0xa9], b"id".to_vec()]
        )
    );
    assert_eq!(
        shown(cache_material("scope", &vec![1, 2])),
        (
            "tokenbar-warp-cache-mac-v1",
            vec![b"scope".to_vec(), vec![1, 2]]
        )
    );
    assert_eq!(
        shown(fingerprint_material("scope", &vec![1, 2])),
        (
            "tokenbar-warp-source-fingerprint-v1",
            vec![b"scope".to_vec(), vec![1, 2]]
        )
    );
    let opaque = |material: &KeyedMaterial| {
        assert_eq!(material.domain, "tokenbar-warp-account-v1");
        String::from_utf8(material.parts[0].clone()).ok()
    };
    assert_eq!(account_scope("bearer", &opaque), Ok("bearer".to_string()));
    let keyless = |_: &KeyedMaterial| -> Option<String> { None };
    assert_eq!(account_scope("bearer", &keyless), Err(WarpError::Storage));
}

#[test]
fn unreadable_caches_are_removed() {
    let scope = opaque('A');
    assert_eq!(
        load_cache(CacheLookup::Unreadable, untouched).err(),
        Some(WarpError::Storage)
    );
    assert!(load_cache(CacheLookup::Absent, untouched).ok().unwrap().is_none());
    assert!(load_cache(
        CacheLookup::Read(open(Some(sealed(&usage_of('A', 5))), &scope)),
        untouched
    )
    .ok()
    .unwrap()
    .is_some());
    assert!(load_cache(CacheLookup::Read(Err(WarpError::Storage)), removed)
        .ok()
        .unwrap()
        .is_none());
    assert_eq!(
        load_cache(CacheLookup::Read(Err(WarpError::Decode)), unremovable).err(),
        Some(WarpError::Storage)
    );
    assert_eq!(persist_app_source(None).err(), Some(WarpError::Storage));
    assert_eq!(
        persist_app_source(Some(Ok(None))).err(),
        Some(WarpError::ScopeMismatch)
    );
    assert_eq!(
        persist_app_source(Some(Err(WarpError::InvalidUsage))).err(),
        Some(WarpError::InvalidUsage)
    );
    assert!(persist_app_source(Some(Ok(Some(prepared('A', 1))))).is_ok());
    assert_eq!(
        source_from_usage(path("x"), 1, usage_of('A', 1), &written, &|_: &KeyedMaterial| None)
            .err(),
        Some(WarpError::Storage)
    );
    assert_eq!(
        source_from_usage(
            path("x"),
            1,
            usage_of('A', 1),
            &|_: &WarpNormalizedUsage| None,
            &digest_of
        )
        .err(),
        Some(WarpError::Internal)
    );
    assert_eq!(
        source_from_usage(path("x"), 1, usage_of('/', 1), &written, &digest_of).err(),
        Some(WarpError::InvalidUsage)
    );
}

#[test]
fn set_bearer_installs_fetched_usage() {
    let (mut state, mut reports) = fresh();
    let bearer = begin_set_bearer(&state, " token ").unwrap();
    assert_eq!(bearer, "token");
    let scope = opaque('A');
    let prior = admit_set_bearer(&state, &scope, 10).ok().unwrap();
    assert!(prior.is_none());
    let answer = complete_set_bearer(
        &mut state,
        &mut reports,
        prior,
        bearer,
        scope.clone(),
        None,
        SyncOutcome::Synced(prepared('A', 1)),
        untouched,
    )
    .ok()
    .unwrap();
    assert_eq!(answer.mode, "app");
    assert_eq!(generation(&state), 1);
    assert_eq!(usage_data_generation(&reports), 1);
    let identity = prior_identity(&state).unwrap();
    assert_eq!(identity.account_scope, Some(scope));
    assert_eq!(app_snapshot(&state).ok().unwrap().bearer, "token");
}

#[test]
fn cached_usage_is_looked_for_only_while_nothing_is_in_use() {
    let (mut state, mut reports) = fresh();
    let scope = opaque('A');
    assert_eq!(
        load_cache_candidate(&state, &None, &scope, || Ok(Some(7))),
        Ok(Some(7))
    );
    install_mode(&mut state, &mut reports, external(prepared('B', 1)));
    let prior = prior_identity(&state);
    assert_eq!(
        load_cache_candidate::<(), _>(&state, &prior, &scope, || unreachable!()),
        Ok(None)
    );
    revoke_scope(&mut state, &scope);
    assert_eq!(
        load_cache_candidate::<(), _>(&state, &None, &scope, || unreachable!()),
        Ok(None)
    );
}

#[test]
fn failed_bearers_follow_the_source_in_use() {
    let timeout = FetchFailure {
        error: WarpError::Timeout,
        retry_at_ms: Some(99),
    };
    // No source, cached usage: it stands in.
    let (mut state, mut reports) = fresh();
    let error = complete_set_bearer(
        &mut state,
        &mut reports,
        None,
        "t".to_string(),
        opaque('A'),
        Some(prepared('A', 1)),
        SyncOutcome::Failed(timeout),
        untouched,
    )
    .err();
    assert_eq!(error, Some(WarpError::Timeout));
    let shown = status(&state);
    assert!(shown.active && shown.stale);
    assert_eq!(shown.retry_at_ms, Some(99));
    assert_eq!(shown.error_code, Some("warp_timeout"));
    assert_eq!(
        admit_set_bearer(&state, &opaque('A'), 98).err(),
        Some(WarpError::Cooldown)
    );
    assert!(admit_set_bearer(&state, &opaque('A'), 99).is_ok());
    assert!(admit_set_bearer(&state, &opaque('B'), 98).is_ok());

    // The same account again: the failure is noted.
    let prior = prior_identity(&state);
    let error = complete_set_bearer(
        &mut state,
        &mut reports,
        prior,
        "t".to_string(),
        opaque('A'),
        None,
        SyncOutcome::Failed(failure(WarpError::Forbidden)),
        untouched,
    )
    .err();
    assert_eq!(error, Some(WarpError::Forbidden));
    assert_eq!(status(&state).error_code, Some("warp_forbidden"));

    // Another account: the source in use stays.
    let prior = prior_identity(&state);
    let before = generation(&state);
    let error = complete_set_bearer(
        &mut state,
        &mut reports,
        prior,
        "other".to_string(),
        opaque('B'),
        None,
        SyncOutcome::Failed(failure(WarpError::Unauthorized)),
        untouched,
    )
    .err();
    assert_eq!(error, Some(WarpError::Unauthorized));
    assert_eq!(generation(&state), before);
    assert_eq!(status(&state).mode, "app");
    assert!(load_cache_candidate_with::<(), _>(&state, &opaque('B'), || unreachable!())
        .unwrap()
        .is_none());

    // The account in use refused, and its cache not removable.
    let prior = prior_identity(&state);
    let error = complete_set_bearer(
        &mut state,
        &mut reports,
        prior,
        "t".to_string(),
        opaque('A'),
        None,
        SyncOutcome::Failed(failure(WarpError::Unauthorized)),
        unremovable,
    )
    .err();
    assert_eq!(error, Some(WarpError::Storage));
    assert_eq!(status(&state).mode, "none");
    assert_eq!(status(&state).error_code, Some("warp_storage_failed"));

    // Nothing in use, and nothing cached.
    let error = complete_set_bearer(
        &mut state,
        &mut reports,
        None,
        "t".to_string(),
        opaque('C'),
        None,
        SyncOutcome::Failed(failure(WarpError::Unauthorized)),
        removed,
    )
    .err();
    assert_eq!(error, Some(WarpError::Unauthorized));
    assert_eq!(status(&state).error_code, Some("warp_unauthorized"));
    let error = complete_set_bearer(
        &mut state,
        &mut reports,
        None,
        "t".to_string(),
        opaque('C'),
        None,
        SyncOutcome::NotPersisted(WarpError::ScopeMismatch),
        untouched,
    )
    .err();
    assert_eq!(error, Some(WarpError::ScopeMismatch));
    assert_eq!(status(&state).error_code, Some("warp_unauthorized"));
    assert_eq!(
        apply_inactive_failure(
            &mut state,
            &opaque('C'),
            failure(WarpError::Unauthorized),
            unremovable
        ),
        Err(WarpError::Storage)
    );
}

#[test]
fn refreshes_need_a_credential_and_an_unchanged_source() {
    let (mut state, mut reports) = fresh();
    assert_eq!(
        begin_refresh(&state, 0).err(),
        Some(WarpError::NoActiveCredential)
    );
    let mut mode = app("token", 'A', 1);
    mode.retry_at_ms = Some(50);
    install_mode(&mut state, &mut reports, Mode::App(mode));
    assert_eq!(begin_refresh(&state, 49).err(), Some(WarpError::Cooldown));
    let snapshot = begin_refresh(&state, 50).ok().unwrap();
    assert!(require_unchanged(&state, snapshot.generation).is_ok());
    let answer = complete_refresh(
        &mut state,
        &mut reports,
        snapshot,
        SyncOutcome::Synced(prepared_with_requests('A', 2, 8)),
        untouched,
    )
    .ok()
    .unwrap();
    assert_eq!(answer.requests_used, Some(8));
    assert_eq!(answer.retry_at_ms, None);

    let late = begin_refresh(&state, 50).ok().unwrap();
    install_mode(&mut state, &mut reports, external(prepared('B', 2)));
    assert_eq!(
        require_unchanged(&state, late.generation),
        Err(WarpError::SourceChanged)
    );
    assert_eq!(
        complete_refresh(
            &mut state,
            &mut reports,
            late,
            SyncOutcome::Synced(prepared('A', 3)),
            untouched,
        )
        .err(),
        Some(WarpError::SourceChanged)
    );
    assert_eq!(status(&state).mode, "external");

    install_mode(&mut state, &mut reports, Mode::App(app("token", 'A', 1)));
    let snapshot = begin_refresh(&state, 50).ok().unwrap();
    assert_eq!(
        complete_refresh(
            &mut state,
            &mut reports,
            snapshot,
            SyncOutcome::Failed(failure(WarpError::Unauthorized)),
            removed,
        )
        .err(),
        Some(WarpError::Unauthorized)
    );
    assert_eq!(status(&state).mode, "none");
    assert_eq!(status(&state).error_code, Some("warp_unauthorized"));
}

#[test]
fn external_sources_replace_and_refresh() {
    let (mut state, mut reports) = fresh();
    assert!(begin_set_external(&state, &path("/x/usage.json")).is_ok());
    assert_eq!(
        begin_set_external(&state, &path("/x/other.json")),
        Err(WarpError::InvalidExternalPath)
    );
    install_mode(&mut state, &mut reports, Mode::App(app("token", 'A', 1)));
    assert_eq!(
        set_external(&mut state, &mut reports, prepared('B', 2), unremovable).err(),
        Some(WarpError::Storage)
    );
    assert_eq!(status(&state).mode, "app");
    let answer = set_external(&mut state, &mut reports, prepared('B', 2), removed)
        .ok()
        .unwrap();
    assert_eq!(answer.mode, "external");
    let before = generation(&state);
    assert!(mark_external_stale(
        &mut state,
        before,
        &path("usage.json"),
        WarpError::Decode
    ));
    let again = set_external(&mut state, &mut reports, prepared('B', 3), untouched)
        .ok()
        .unwrap();
    assert!(!again.stale);
    assert_eq!(generation(&state), before);
    assert!(same_external_source(&prepared('B', 2), &prepared('B', 3)));
    assert!(!same_external_source(
        &prepared('B', 2),
        &prepared_at_path("usage.json", 'B', 2, 1, 2)
    ));
    assert!(!clear_external_error_if_current(&mut state, &prepared('C', 2)));

    let (target_generation, target) = external_refresh_target(&state).unwrap();
    assert_eq!(target_generation, before);
    assert_eq!(target.bytes, b"usage.json");
    assert!(finish_external_refresh(
        &mut state,
        &mut reports,
        before,
        &target,
        Ok(prepared_with_requests('B', 2, 7)),
    ));
    assert_eq!(status(&state).requests_used, Some(7));
    assert_ne!(generation(&state), before);
}

#[test]
fn remembered_sources_are_restored_only_while_nothing_is_active() {
    let (mut state, mut reports) = fresh();
    let expected = begin_restore_external(&state, &path("usage.json"))
        .unwrap()
        .unwrap();
    assert_eq!(
        restore_external_if_inactive(&mut state, &mut reports, expected, Err(WarpError::Decode))
            .err(),
        Some(WarpError::Decode)
    );
    let answer =
        restore_external_if_inactive(&mut state, &mut reports, expected, Ok(prepared('A', 1)))
            .ok()
            .unwrap();
    assert_eq!(answer.mode, "external");
    assert_eq!(
        begin_restore_external(&state, &path("usage.json")).unwrap(),
        None
    );
    let answer =
        restore_external_if_inactive(&mut state, &mut reports, expected, Ok(prepared('B', 1)))
            .ok()
            .unwrap();
    assert_eq!(answer.mode, "external");
    assert!(external_source_is_current(&state, &prepared('A', 1)));
}

#[test]
fn clearing_drops_the_source_even_without_storage() {
    let (mut state, mut reports) = fresh();
    install_mode(&mut state, &mut reports, Mode::App(app("token", 'A', 1)));
    assert_eq!(
        clear(&mut state, &mut reports, true, unremovable).err(),
        Some(WarpError::Storage)
    );
    assert_eq!(status(&state).mode, "none");
    install_mode(&mut state, &mut reports, external(prepared('B', 2)));
    assert_eq!(
        clear(&mut state, &mut reports, false, untouched).err(),
        Some(WarpError::Storage)
    );
    assert_eq!(status(&state).mode, "none");
    install_mode(&mut state, &mut reports, external(prepared('B', 2)));
    let answer = clear(&mut state, &mut reports, true, untouched).ok().unwrap();
    assert_eq!(answer.mode, "none");
    clear_mode_with_error(&mut state, &mut reports, WarpError::Transport);
    assert_eq!(status(&state).error_code, Some("warp_transport"));
    set_no_mode_error(&mut state, WarpError::Decode);
    assert_eq!(status(&state).error_code, Some("warp_decode_failed"));
    revoke_scope(&mut state, "scope");
    revoke_scope(&mut state, "scope");
    assert_eq!(state.revoked_scopes.len(), 1);
}

#[test]
fn unsupported_platforms_refuse_every_request() {
    let mut state = initial_state(false);
    let mut reports = Reports::new();
    assert!(!capability(&state).supported);
    assert!(capability(&initial_state(true)).external_exact_usage_json);
    assert_eq!(require_macos(&state), Err(WarpError::UnsupportedPlatform));
    assert_eq!(
        begin_set_bearer(&state, "token"),
        Err(WarpError::UnsupportedPlatform)
    );
    assert_eq!(
        begin_refresh(&state, 0).err(),
        Some(WarpError::UnsupportedPlatform)
    );
    assert_eq!(
        begin_set_external(&state, &path("usage.json")),
        Err(WarpError::UnsupportedPlatform)
    );
    assert_eq!(
        clear(&mut state, &mut reports, true, untouched).err(),
        Some(WarpError::UnsupportedPlatform)
    );
    assert!(external_refresh_target(&state).is_none());
    assert!(!status(&state).supported);
}
