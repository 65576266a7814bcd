use base64::Engine as _;
use tb_core::agent_grokbot::credentials::{CursorCredentials, GrokBotCredentials};
use tb_core::agent_grokbot::meter::{
    map_document, map_response, parse_timestamp, AccountScopeError, GrokBotData,
};
use tb_core::agent_grokbot::request::{
    admit_login, complete_fetch, read_failure, response_failure, usage_request,
    ProviderFetchFailure, GROK_BOT_DESKTOP_USAGE_URL, GROK_BOT_USAGE_URL,
};
use tb_core::agent_grokbot::stores::{
    combine_cursor_login, cursor_state_db_path, decode_desktop_secret, desktop_secrets_path,
    extract_user_id, load_credentials_from, load_credentials_from_sources,
    load_desktop_credentials_from, normalized_stored_string, CursorDatabase, DesktopFile,
    GROK_BOT_KEYCHAIN_CONSENT_REQUIRED, INVALID_STORE, UNREADABLE_DATABASE, UNREADABLE_STORE,
};
use tb_core::http::HttpRequest;
use tb_core::json::{parse_json, Json, JsonNumber};
use tb_core::paths::SourcePath;
use tb_core::timestamps::Instant;

fn moment(text: &str) -> Instant {
    parse_timestamp(&Json::Text(text.to_string())).unwrap()
}

fn now() -> Instant {
    moment("2026-09-10T12:00:00Z")
}

fn mapped(body: &str) -> GrokBotData {
    match map_response(body, now()) {
        Ok(data) => data,
        Err(message) => panic!("unexpected: {message}"),
    }
}

fn refused(body: &str) -> String {
    match map_response(body, now()) {
        Ok(_) => panic!("expected a refusal"),
        Err(message) => message,
    }
}

fn remaining(data: &GrokBotData) -> f64 {
    100.0 - f64::from_bits(data.windows[0].used_percent)
}

fn rows(entries: &[(&str, &str)]) -> CursorDatabase {
    CursorDatabase::Rows(
        entries
            .iter()
            .map(|(key, value)| (key.to_string(), value.to_string()))
            .collect(),
    )
}

fn encoded(value: &[u8]) -> String {
    base64::engine::general_purpose::STANDARD.encode(value)
}

fn quoted(text: &str) -> String {
    serde_json::Value::from(text).to_string()
}

fn header<'a>(request: &'a HttpRequest, name: &str) -> Option<&'a str> {
    request
        .headers
        .iter()
        .find(|(key, _)| key == name)
        .map(|(_, value)| value.as_str())
}

/// What went through the Keychain closures: how often consent was asked, and what was decrypted.
#[derive(Default)]
struct Session {
    asked: usize,
    decrypted: Vec<Vec<u8>>,
}

fn session() -> Session {
    Session::default()
}

fn yes(mut session: Session) -> (bool, Session) {
    session.asked += 1;
    (true, session)
}

fn no(mut session: Session) -> (bool, Session) {
    session.asked += 1;
    (false, session)
}

fn never(_: Session, _: &[u8]) -> (Result<String, String>, Session) {
    panic!("nothing may be decrypted")
}

fn giving(
    answer: Result<&'static str, &'static str>,
) -> impl Fn(Session, &[u8]) -> (Result<String, String>, Session) {
    move |mut session, data| {
        session.decrypted.push(data.to_vec());
        (answer.map(str::to_string).map_err(str::to_string), session)
    }
}

#[test]
fn parses_camel_case_meter() {
    let data = mapped(
        r#"{
                "usagePercent": 22.5,
                "currentPeriodStart": "2026-09-08T15:40:06.727001+00:00",
                "nextResetTimestampUtc": "2026-09-15T15:40:06.727001+00:00",
                "hasNonZeroIncludedLimit": true
            }"#,
    );
    assert_eq!(data.windows.len(), 1);
    assert_eq!(data.windows[0].label, "Weekly");
    assert!((remaining(&data) - 77.5).abs() < 1e-9);
}

#[test]
fn parses_snake_case_meter_with_epoch_millis() {
    let data = mapped(
        r#"{
                "usage_percent": 90,
                "current_period_start": 1788855606727,
                "next_reset_timestamp_utc": 1789460406727
            }"#,
    );
    assert!((remaining(&data) - 10.0).abs() < 1e-9);
    assert_eq!(
        data.windows[0].resets_at,
        Some(Instant { secs: 1789460406, nanos: 0 })
    );
    assert_eq!(data.windows[0].duration.unwrap().seconds, 604800);
    assert_eq!(data.windows[0].duration.unwrap().reset_at, 1789460406);
}

#[test]
fn distinguishes_no_included_allowance_from_unused_allowance() {
    for (flag, meter, reset) in [
        (
            "hasNonZeroIncludedLimit",
            "usagePercent",
            "nextResetTimestampUtc",
        ),
        (
            "has_non_zero_included_limit",
            "usage_percent",
            "next_reset_timestamp_utc",
        ),
    ] {
        let without = format!(
            "{{\"{flag}\":false,\"{meter}\":0,\"{reset}\":\"2026-09-15T15:40:06Z\"}}"
        );
        assert_eq!(
            refused(&without),
            "Grok Bot has no included allowance; no individual weekly quota is available."
        );

        let unused = mapped(&format!(
            "{{\"{flag}\":true,\"{meter}\":0,\"{reset}\":\"2026-09-15T15:40:06Z\"}}"
        ));
        assert_eq!(remaining(&unused), 100.0);

        let silent = mapped(&format!(
            "{{\"{meter}\":0,\"{reset}\":\"2026-09-15T15:40:06Z\"}}"
        ));
        assert_eq!(silent.windows.len(), 1);
    }
}

#[test]
fn rejects_out_of_range_percent() {
    for used in ["-1.0", "140.0"] {
        let body = format!(
            "{{\"usagePercent\":{used},\"nextResetTimestampUtc\":\"2026-09-15T15:40:06Z\"}}"
        );
        assert!(map_response(&body, now()).is_err());
        assert_eq!(
            refused(&body),
            "Cursor returned an invalid Grok Bot usage percentage."
        );
    }
}

#[test]
fn missing_percent_is_an_error() {
    let err = refused(r#"{"nextResetTimestampUtc": "2026-09-15T15:40:06Z"}"#);
    assert!(err.contains("usage percentage"), "unexpected: {err}");
}

#[test]
fn missing_reset_is_an_error() {
    let err = refused(r#"{"usagePercent": 10.0}"#);
    assert!(err.contains("reset time"), "unexpected: {err}");
}

#[test]
fn remote_error_is_bounded() {
    let err = refused(r#"{"error": "private-response-canary"}"#);
    assert_eq!(
        err,
        "Grok Bot usage is unavailable. Open Grok Bot, then refresh."
    );
}

#[test]
fn non_object_body_is_an_error() {
    assert!(map_response("[1,2]", now()).is_err());
    assert_eq!(refused("[1,2]"), "Cursor returned an unexpected response.");
    assert_eq!(
        refused("{"),
        "Grok Bot usage response could not be decoded."
    );
}

#[test]
fn normalizes_quoted_and_plain_values() {
    assert_eq!(
        normalized_stored_string("\"abc123\"").as_deref(),
        Some("abc123")
    );
    assert_eq!(normalized_stored_string("plain").as_deref(), Some("plain"));
    assert_eq!(normalized_stored_string(""), None);
    assert_eq!(normalized_stored_string("\"\""), None);
}

#[test]
fn only_whole_json_strings_are_unquoted() {
    assert_eq!(
        normalized_stored_string("\"open").as_deref(),
        Some("\"open")
    );
    assert_eq!(normalized_stored_string("12").as_deref(), Some("12"));
    assert_eq!(
        normalized_stored_string("\"a\\nb\"").as_deref(),
        Some("a\nb")
    );
}

#[test]
fn extracts_user_id_from_identity_and_profile_shapes() {
    let id = "user_abcDEF1234567890xyzAB";
    assert_eq!(
        extract_user_id(&format!("glass-{id}-suffix")).as_deref(),
        Some(id)
    );
    assert_eq!(
        extract_user_id(&format!("{{\"id\":\"{id}\",\"x\":1}}")).as_deref(),
        Some(id)
    );
    assert_eq!(extract_user_id("user_short"), None);
    assert_eq!(extract_user_id("no id here"), None);
}

#[test]
fn only_the_first_user_mark_counts() {
    assert_eq!(
        extract_user_id("user_short user_abcDEF1234567890xyzAB"),
        None
    );
    assert_eq!(
        extract_user_id("user_12345678901234567890").as_deref(),
        Some("user_12345678901234567890")
    );
    assert_eq!(extract_user_id("user_1234567890123456789"), None);
}

#[test]
fn missing_db_yields_no_credentials() {
    let loaded = load_credentials_from(&CursorDatabase::Missing).unwrap();
    assert!(loaded.is_none());
    match load_credentials_from(&CursorDatabase::Unreadable) {
        Err(message) => assert_eq!(message, UNREADABLE_DATABASE),
        Ok(_) => panic!("an unreadable database must be an error"),
    }
}

#[test]
fn loads_token_and_user_id() {
    let id = "user_abcDEF1234567890xyzAB";
    let creds = load_credentials_from(&rows(&[
        ("cursorAuth/accessToken", "\"tok-123\""),
        ("glass.lastSignedInAuthId", &format!("glass-{id}")),
    ]))
    .unwrap()
    .expect("credentials load");
    assert_eq!(creds.access_token, "tok-123");
    assert_eq!(creds.user_id, id);
}

#[test]
fn falls_back_to_profile_for_user_id() {
    let id = "user_abcDEF1234567890xyzAB";
    let creds = load_credentials_from(&rows(&[
        ("cursorAuth/accessToken", "tok-plain"),
        (
            "cursorAuth/cachedScopedProfile",
            &format!("{{\"userId\":\"{id}\"}}"),
        ),
    ]))
    .unwrap()
    .expect("credentials load");
    assert_eq!(creds.user_id, id);
}

#[test]
fn token_without_user_id_yields_no_credentials() {
    assert!(load_credentials_from(&rows(&[("cursorAuth/accessToken", "tok-123")]))
        .unwrap()
        .is_none());
    assert!(combine_cursor_login(None, &None, &None).is_none());
}

#[test]
fn the_last_row_of_a_key_counts() {
    let id = "user_abcDEF1234567890xyzAB";
    let creds = load_credentials_from(&rows(&[
        ("cursorAuth/accessToken", "first"),
        ("glass.lastSignedInAuthId", id),
        ("cursorAuth/accessToken", "second"),
    ]))
    .unwrap()
    .unwrap();
    assert_eq!(creds.access_token, "second");
}

#[test]
fn standalone_active_account_loads_without_an_ide_login() {
    let accounts = format!(
        "{{\"active\":\"current-account\",\"accounts\":{{\"old-account\":{{\"cursor-access-token\":{}}},\"current-account\":{{\"cursor-access-token\":{},\"cursor-selected-team-id\":{},\"cursor-refresh-token\":\"must-never-read-this\"}}}}}}",
        quoted(&encoded(b"wrong-account")),
        quoted(&encoded(b"active-token")),
        quoted(&encoded(b"active-team")),
    );
    let file = DesktopFile::Contents(format!(
        "{{\"cursor-accounts\":{},\"cursor-access-token\":{}}}",
        quoted(&accounts),
        quoted(&encoded(b"stale-legacy-token"))
    ));
    let (outcome, after) = load_credentials_from_sources(
        &file,
        || rows(&[]),
        session(),
        &yes,
        &|mut session: Session, data: &[u8]| {
            session.decrypted.push(data.to_vec());
            let opened = match data {
                b"active-token" => Ok("desktop-test-token".to_string()),
                b"active-team" => Ok("42".to_string()),
                _ => panic!("must read only the active access token and its team"),
            };
            (opened, session)
        },
    );
    assert_eq!(after.asked, 2);
    assert_eq!(after.decrypted, [b"active-token".to_vec(), b"active-team".to_vec()]);
    let credentials = outcome
        .unwrap()
        .expect("standalone login must supply quota credentials");
    let request = usage_request(&credentials);
    assert_eq!(request.url, GROK_BOT_DESKTOP_USAGE_URL);
    assert_eq!(
        header(&request, "authorization"),
        Some("Bearer desktop-test-token")
    );
    assert_eq!(header(&request, "x-cursor-team-id"), Some("42"));
    assert!(header(&request, "cookie").is_none());
}

#[test]
fn standalone_login_takes_precedence_and_decryption_failure_is_visible() {
    let database = || {
        rows(&[
            ("cursorAuth/accessToken", "ide-token"),
            ("glass.lastSignedInAuthId", "user_abcDEF1234567890xyzAB"),
        ])
    };
    let file = DesktopFile::Contents(format!(
        "{{\"cursor-access-token\":{}}}",
        quoted(&encoded(b"native-token"))
    ));
    let credentials =
        load_credentials_from_sources(&file, database, session(), &yes, &giving(Ok("native")))
            .0
            .unwrap()
            .unwrap();
    assert!(matches!(credentials, GrokBotCredentials::Desktop { .. }));
    let error = load_credentials_from_sources(
        &file,
        database,
        session(),
        &yes,
        &giving(Err("Keychain denied")),
    )
    .0
    .err()
    .unwrap();
    assert_eq!(error, "Keychain denied");
    let invalid = DesktopFile::Contents("invalid JSON".to_string());
    assert!(
        load_credentials_from_sources(&invalid, database, session(), &yes, &never)
            .0
            .is_err()
    );
    assert_eq!(
        load_credentials_from_sources(&DesktopFile::Unreadable, database, session(), &yes, &never)
            .0
            .err()
            .unwrap(),
        UNREADABLE_STORE
    );
}

#[test]
fn missing_desktop_login_preserves_cursor_fallback() {
    let credentials = load_credentials_from_sources(
        &DesktopFile::Missing,
        || {
            rows(&[
                ("cursorAuth/accessToken", "ide-token"),
                ("glass.lastSignedInAuthId", "user_abcDEF1234567890xyzAB"),
            ])
        },
        session(),
        &yes,
        &never,
    )
    .0
    .unwrap()
    .unwrap();
    let request = usage_request(&credentials);
    assert_eq!(request.url, GROK_BOT_USAGE_URL);
    assert_eq!(
        header(&request, "cookie"),
        Some("WorkosCursorSessionToken=user_abcDEF1234567890xyzAB%3A%3Aide-token")
    );
    assert!(header(&request, "authorization").is_none());
    assert!(header(&request, "x-cursor-team-id").is_none());
    assert_eq!(request.body, "{}");
}

#[test]
fn signed_out_desktop_does_not_select_an_inactive_account() {
    let accounts = format!(
        "{{\"active\":null,\"accounts\":{{\"previous-account\":{{\"cursor-access-token\":{}}}}}}}",
        quoted(&encoded(b"previous-token"))
    );
    let file = DesktopFile::Contents(format!("{{\"cursor-accounts\":{}}}", quoted(&accounts)));
    let (outcome, after) =
        load_credentials_from_sources(&file, || rows(&[]), session(), &yes, &never);
    assert!(outcome.unwrap().is_none());
    assert_eq!(after.asked, 0, "nobody is signed in, so nothing is asked for");
}

#[test]
fn desktop_secret_formats_and_invalid_team() {
    let ciphertext = encoded(b"encrypted-token");
    let scoped = format!("scoped:v1:{}:{ciphertext}", "a".repeat(64));
    assert_eq!(
        decode_desktop_secret(&scoped, session(), &yes, &|session: Session, data: &[u8]| {
            assert_eq!(data, b"encrypted-token");
            (Ok("decoded-token".to_string()), session)
        })
        .0
        .unwrap(),
        "decoded-token"
    );
    assert_eq!(
        decode_desktop_secret(
            &format!("plaintext:v1:{}", encoded(b"dev-token")),
            session(),
            &yes,
            &never
        )
        .0
        .unwrap(),
        "dev-token"
    );
    for stored in [
        "scoped:v1:invalid:abc".to_string(),
        "scoped:v1:without-end".to_string(),
        "not base64!".to_string(),
        format!("plaintext:v1:{}", encoded(b"\xff")),
    ] {
        let (outcome, after) = decode_desktop_secret(&stored, session(), &yes, &never);
        assert!(outcome.is_err(), "{stored}");
        assert_eq!(after.asked, 0, "{stored}");
    }

    let file = DesktopFile::Contents(format!(
        "{{\"cursor-access-token\":{},\"cursor-selected-team-id\":{}}}",
        quoted(&format!("plaintext:v1:{}", encoded(b"token"))),
        quoted(&format!("plaintext:v1:{}", encoded(b"not-a-team")))
    ));
    assert!(load_desktop_credentials_from(&file, session(), &yes, &never).0.is_err());
}

#[test]
fn broken_desktop_stores_are_errors() {
    let plain = |text: &str| quoted(&format!("plaintext:v1:{}", encoded(text.as_bytes())));
    for raw in [
        "[]".to_string(),
        "{\"cursor-accounts\":7}".to_string(),
        "{\"cursor-accounts\":\"{\"}".to_string(),
        format!("{{\"cursor-accounts\":{}}}", quoted("{\"active\":null}")),
        format!(
            "{{\"cursor-accounts\":{}}}",
            quoted("{\"active\":\"gone\",\"accounts\":{}}")
        ),
        format!(
            "{{\"cursor-accounts\":{}}}",
            quoted("{\"active\":3,\"accounts\":{}}")
        ),
        "{\"cursor-access-token\":9}".to_string(),
        format!("{{\"cursor-access-token\":{}}}", plain("")),
        format!(
            "{{\"cursor-access-token\":{},\"cursor-selected-team-id\":{}}}",
            plain("token"),
            plain("0")
        ),
        format!(
            "{{\"cursor-access-token\":{},\"cursor-selected-team-id\":4}}",
            plain("token")
        ),
    ] {
        let (outcome, after) = load_desktop_credentials_from(
            &DesktopFile::Contents(raw.clone()),
            session(),
            &yes,
            &never,
        );
        assert_eq!(after.asked, 0, "{raw}");
        assert_eq!(outcome.err().as_deref(), Some(INVALID_STORE), "{raw}");
    }
    assert!(load_desktop_credentials_from(
        &DesktopFile::Contents("{}".to_string()),
        session(),
        &yes,
        &never
    )
    .0
    .unwrap()
    .is_none());
}

fn encrypted_login() -> DesktopFile {
    DesktopFile::Contents(format!(
        "{{\"cursor-access-token\":{}}}",
        quoted(&encoded(b"ciphertext"))
    ))
}

#[test]
fn desktop_login_is_not_decrypted_without_keychain_consent() {
    let (outcome, after) =
        load_credentials_from_sources(&encrypted_login(), || rows(&[]), session(), &no, &never);
    let error = outcome.err().unwrap();
    assert_eq!(after.asked, 1);
    assert_eq!(error, GROK_BOT_KEYCHAIN_CONSENT_REQUIRED);
}

#[test]
fn consented_desktop_login_still_decrypts() {
    let (outcome, after) = load_credentials_from_sources(
        &encrypted_login(),
        || rows(&[]),
        session(),
        &yes,
        &giving(Ok("granted-token")),
    );
    let credentials = outcome
        .unwrap()
        .expect("a consented desktop login must still load");
    assert!(matches!(credentials, GrokBotCredentials::Desktop { .. }));
    assert!(!after.decrypted.is_empty(), "the fixture never reached the decrypt");
}

#[test]
fn consent_absent_does_not_fall_back_to_the_cursor_login() {
    let database = || {
        rows(&[
            ("cursorAuth/accessToken", "ide-token"),
            ("glass.lastSignedInAuthId", "user_abcDEF1234567890xyzAB"),
        ])
    };
    assert!(
        load_credentials_from_sources(&DesktopFile::Missing, database, session(), &no, &never)
            .0
            .unwrap()
            .is_some(),
        "the Cursor fixture must be loadable for this test to mean anything"
    );
    let error = load_credentials_from_sources(&encrypted_login(), database, session(), &no, &never)
        .0
        .err()
        .unwrap();
    assert_eq!(error, GROK_BOT_KEYCHAIN_CONSENT_REQUIRED);
}

#[test]
fn plaintext_desktop_secret_needs_no_consent() {
    let file = DesktopFile::Contents(format!(
        "{{\"cursor-access-token\":{}}}",
        quoted(&format!("plaintext:v1:{}", encoded(b"dev-token")))
    ));
    let (outcome, after) =
        load_credentials_from_sources(&file, || rows(&[]), session(), &no, &never);
    assert_eq!(after.asked, 0);
    let credentials = outcome
        .unwrap()
        .expect("a plaintext desktop login must load without consent");
    assert!(matches!(credentials, GrokBotCredentials::Desktop { .. }));
}

#[test]
fn consent_withdrawn_mid_load_stops_the_next_keychain_read() {
    let file = DesktopFile::Contents(format!(
        "{{\"cursor-access-token\":{},\"cursor-selected-team-id\":{}}}",
        quoted(&encoded(b"ciphertext")),
        quoted(&encoded(b"team-ciphertext"))
    ));
    let (outcome, after) = load_credentials_from_sources(
        &file,
        || rows(&[]),
        session(),
        &|mut session: Session| {
            session.asked += 1;
            (session.asked == 1, session)
        },
        &giving(Ok("granted-token")),
    );
    let error = outcome.err().unwrap();
    assert_eq!(error, GROK_BOT_KEYCHAIN_CONSENT_REQUIRED);
    assert_eq!(
        after.decrypted.len(),
        1,
        "the withdrawal must stop the SECOND Keychain read; the first had \
             already been authorized when it ran"
    );
    assert_eq!(after.decrypted[0], b"ciphertext");
    assert_eq!(after.asked, 2, "consent must be re-read per Keychain read");
}

#[test]
fn cursor_only_users_are_unaffected_by_the_consent_gate() {
    let credentials = load_credentials_from_sources(
        &DesktopFile::Missing,
        || {
            rows(&[
                ("cursorAuth/accessToken", "ide-token"),
                ("glass.lastSignedInAuthId", "user_abcDEF1234567890xyzAB"),
            ])
        },
        session(),
        &no,
        &never,
    )
    .0
    .unwrap()
    .expect("the Cursor fallback must load with consent withheld");
    assert!(matches!(credentials, GrokBotCredentials::Cursor(_)));
}

#[test]
fn current_account_map_never_resurrects_legacy_credentials() {
    for active in ["null", "\"current\""] {
        let accounts = format!("{{\"active\":{active},\"accounts\":{{\"current\":{{}}}}}}");
        let file = DesktopFile::Contents(format!(
            "{{\"cursor-accounts\":{},\"cursor-access-token\":{}}}",
            quoted(&accounts),
            quoted(&encoded(b"stale-legacy-token"))
        ));
        assert!(
            load_desktop_credentials_from(&file, session(), &yes, &never)
                .0
                .unwrap()
                .is_none()
        );
    }
}

#[test]
fn weekly_window_has_stable_identity_and_provider_duration() {
    let data = mapped(
        r#"{
            "usagePercent": 30,
            "currentPeriodStart": "2026-09-08T12:00:00Z",
            "nextResetTimestampUtc": "2026-09-15T12:00:00Z"
        }"#,
    );
    let window = &data.windows[0];
    assert_eq!(window.card_id, "weekly.v1");
    assert_eq!(window.window_key.as_deref(), Some("weekly.v1"));
    assert_eq!(window.duration.unwrap().seconds, 604800);
    let data = mapped(
        r#"{
            "usagePercent": 30, "nextResetTimestampUtc": "2026-09-15T12:00:00Z"
        }"#,
    );
    assert!(data.windows[0].duration.is_none());
}

#[test]
fn invalid_reset_bounds_are_rejected_while_a_valid_pair_still_maps() {
    let ok = mapped(
        r#"{
            "usagePercent": 30,
            "currentPeriodStart": "2026-09-08T12:00:00Z",
            "nextResetTimestampUtc": "2026-09-15T12:00:00Z"
        }"#,
    );
    assert_eq!(ok.windows[0].duration.unwrap().seconds, 604800);

    let expired = refused(
        r#"{
            "usagePercent": 30, "nextResetTimestampUtc": "2026-09-09T12:00:00Z"
        }"#,
    );
    assert!(expired.contains("already passed"), "got {expired}");

    assert!(refused(
        r#"{
            "usagePercent": 30, "nextResetTimestampUtc": "2026-09-10T12:00:00Z"
        }"#
    )
    .contains("already passed"));

    for start in ["2026-09-15T12:00:00Z", "2026-09-16T12:00:00Z"] {
        let body = format!(
            r#"{{"usagePercent": 30, "currentPeriodStart": "{start}",
                     "nextResetTimestampUtc": "2026-09-15T12:00:00Z"}}"#
        );
        let data = mapped(&body);
        assert_eq!(
            data.windows[0].card_id, "weekly.v1",
            "the quota reading survives"
        );
        assert!(
            data.windows[0].duration.is_none(),
            "but the unusable span is not published as provider duration"
        );
    }
}

fn desktop_token(subject: &str, signature: &str, team_id: Option<u64>) -> GrokBotCredentials {
    let payload = base64::engine::general_purpose::URL_SAFE_NO_PAD
        .encode(format!("{{\"sub\":{}}}", quoted(subject)));
    GrokBotCredentials::Desktop {
        access_token: format!("header.{payload}.{signature}"),
        team_id,
    }
}

fn path(text: &str) -> SourcePath {
    SourcePath::from_text(text)
}

#[test]
fn cache_binding_tracks_request_but_history_survives_token_rotation() {
    let a = desktop_token("user-a", "credential-a", None);
    let rotated = desktop_token("user-a", "credential-b", None);
    let b = desktop_token("user-b", "credential-b", None);
    let team = desktop_token("user-a", "credential-a", Some(42));
    let resolve = |credentials: &GrokBotCredentials| {
        credentials
            .resolve_account_scope(
                &path("desktop"),
                &path("cursor"),
                |store: SourcePath| -> Result<Vec<u8>, ()> { Ok(store.bytes) },
                |provider: &'static str, source: &'static str, location: Vec<u8>, marker: String| {
                    assert_eq!(provider, "grok-bot");
                    assert_eq!(source, "grok-bot-desktop");
                    assert_eq!(location, b"desktop");
                    Ok(marker)
                },
            )
            .unwrap()
    };
    let a_scope = resolve(&a);
    assert_eq!(a_scope, resolve(&a));
    for other in [&rotated, &b, &team] {
        assert_ne!(a_scope, resolve(other));
    }
    let history = |credentials: &GrokBotCredentials| credentials.history_owner().unwrap();
    assert_eq!(history(&a), history(&rotated));
    assert_ne!(history(&a), history(&b));
    assert_ne!(history(&a), history(&team));
    assert_eq!(history(&team), "[\"user-a\",42]");
    assert_eq!(history(&a), "[\"user-a\",null]");
    assert!(GrokBotCredentials::Desktop {
        access_token: "opaque-token".to_string(),
        team_id: None
    }
    .history_owner()
    .is_none());
}

#[test]
fn cursor_logins_are_their_own_owner() {
    let cursor = GrokBotCredentials::Cursor(CursorCredentials {
        user_id: "user \"x\"".to_string(),
        access_token: "t".to_string(),
    });
    assert_eq!(
        cursor.history_owner().as_deref(),
        Some("[\"user \\\"x\\\"\",null]")
    );
    let (source, store, marker) = cursor.scope_material(&path("desktop"), &path("cursor"));
    assert_eq!(source, "grok-bot-cursor-dashboard");
    assert_eq!(store.bytes, b"cursor");
    assert_eq!(marker, "[\"user \\\"x\\\"\",\"t\"]");
}

#[test]
fn a_scope_that_cannot_be_located_is_not_resolved() {
    let a = desktop_token("user-a", "credential-a", None);
    let outcome = a.resolve_account_scope(
        &path("desktop"),
        &path("cursor"),
        |_: SourcePath| -> Result<(), &'static str> { Err("no such file") },
        |_: &'static str, _: &'static str, _: (), _: String| -> Result<(), &'static str> {
            unreachable!()
        },
    );
    assert_eq!(outcome, Err("no such file"));
}

#[test]
fn http_failure_classification_precedes_body_and_keeps_request_binding() {
    let credentials = desktop_token("user-a", "credential-a", Some(42));
    let binding = Some("account-a-team-42".to_string());
    for status in [401, 403, 404, 429, 500, 503] {
        let failure = read_failure(status, "diagnostic".to_string()).unwrap();
        match response_failure(failure, &credentials, binding.clone()) {
            ProviderFetchFailure::Transient {
                attempt_binding, ..
            } => {
                assert!(status == 429 || status >= 500);
                assert_eq!(attempt_binding, binding);
            }
            ProviderFetchFailure::Terminal { display } => {
                assert!([401, 403, 404].contains(&status));
                if status != 404 {
                    assert!(display.contains("Open Grok Bot and sign in again"));
                } else {
                    assert_eq!(display, "Grok Bot usage API returned 404.");
                }
            }
        }
    }
    assert!(read_failure(200, String::new()).is_none());
}

#[test]
fn native_meter_includes_plan_and_does_not_misreport_a_pooled_allowance() {
    let data = mapped(
        r#"{
            "usagePercent": 25, "nextResetTimestampUtc": "2026-09-15T15:40:06Z",
            "grokPlanLabel": "SuperGrok"
        }"#,
    );
    assert_eq!(data.identity.unwrap().plan.as_deref(), Some("SuperGrok"));
    assert!(refused(
        r#"{
            "usagePercent": 25, "nextResetTimestampUtc": "2026-09-15T15:40:06Z",
            "usesPooledEnterpriseAllowance": true
        }"#
    )
    .contains("pooled team allowance"));
    assert!(refused(
        r#"{
            "usage_percent": 25, "next_reset_timestamp_utc": "2026-09-15T15:40:06Z",
            "uses_pooled_enterprise_allowance": true
        }"#
    )
    .contains("pooled team allowance"));
}

#[test]
fn the_plan_is_read_in_both_spellings() {
    let data = mapped(
        r#"{
            "usage_percent": 25, "next_reset_timestamp_utc": "2026-09-15T15:40:06Z",
            "grok_plan_label": "SuperGrok"
        }"#,
    );
    let identity = data.identity.unwrap();
    assert_eq!(identity.plan.as_deref(), Some("SuperGrok"));
    assert!(identity.email.is_none());
    let data = mapped(
        r#"{
            "usagePercent": 25, "nextResetTimestampUtc": "2026-09-15T15:40:06Z",
            "grokPlanLabel": "", "grok_plan_label": "Basic"
        }"#,
    );
    assert_eq!(data.identity.unwrap().plan.as_deref(), Some("Basic"));
    let data = mapped(
        r#"{
            "usagePercent": 25, "nextResetTimestampUtc": "2026-09-15T15:40:06Z",
            "grokPlanLabel": "SuperGrok", "grok_plan_label": "Basic"
        }"#,
    );
    assert_eq!(data.identity.unwrap().plan.as_deref(), Some("SuperGrok"));
}

#[test]
fn numbers_numeric_texts_and_dates_denote_one_moment() {
    for n in [0_u64, 9, 100_000_000_000, 100_000_000_001, 1_789_460_406, 1_789_460_406_727] {
        let parsed = parse_json(&n.to_string()).unwrap();
        assert!(matches!(parsed, Json::Number(JsonNumber { unsigned: Some(m), .. }) if m == n));
        let expected = Instant {
            secs: (if n > 100_000_000_000 { n / 1000 } else { n }) as i64,
            nanos: 0,
        };
        assert_eq!(parse_timestamp(&parsed), Some(expected));
        for text in [n.to_string(), format!(" {n}\t"), format!("00{n}")] {
            assert_eq!(parse_timestamp(&Json::Text(text)), Some(expected));
        }
    }
    assert_eq!(moment("1789460406727").secs, 1_789_460_406);
    assert_eq!(moment(" 2026-09-15T08:40:06-07:00 "), moment("2026-09-15T15:40:06Z"));
    for text in ["9007199254740991", "8210266876800000"] {
        assert!(parse_timestamp(&Json::Text(text.to_string())).is_none());
        assert!(parse_timestamp(&parse_json(text).unwrap()).is_none());
    }
    for value in [
        Json::Null,
        Json::Bool(true),
        Json::Array(vec![]),
        Json::Object(vec![]),
        Json::Text(" \n".to_string()),
    ] {
        assert!(parse_timestamp(&value).is_none());
    }
}

#[test]
fn windows_count_the_leap_second_that_they_start_or_end_in() {
    for (start, reset, seconds) in [
        ("2026-09-08T10:00:60Z", "2026-09-15T15:40:06Z", 625_147),
        ("2026-09-08T18:00:60Z", "2026-09-15T15:40:06Z", 596_346),
        ("2026-09-08T10:00:59Z", "2026-09-15T15:40:60Z", 625_201),
        ("2026-09-08T18:00:59Z", "2026-09-15T15:40:60Z", 596_400),
        ("2026-09-08T12:00:00.5Z", "2026-09-15T12:00:00Z", 604_799),
    ] {
        let data = mapped(&format!(
            "{{\"usagePercent\":30,\"currentPeriodStart\":\"{start}\",\
             \"nextResetTimestampUtc\":\"{reset}\"}}"
        ));
        assert_eq!(data.windows[0].duration.unwrap().seconds, seconds, "{start} {reset}");
    }
}

fn number(value: f64) -> Json {
    Json::Number(JsonNumber {
        unsigned: None,
        double: Some(value.to_bits()),
    })
}

#[test]
fn documents_map_without_their_text() {
    let doc = Json::Object(vec![
        ("usagePercent".to_string(), number(100.0)),
        (
            "nextResetTimestampUtc".to_string(),
            Json::Text("1789460406".to_string()),
        ),
        ("grokPlanLabel".to_string(), Json::Text(String::new())),
    ]);
    let data = map_document(&doc, now()).ok().unwrap();
    assert_eq!(remaining(&data), 0.0);
    assert!(data.identity.is_none());
    assert!(map_document(&Json::Null, now()).is_err());
    let over = Json::Object(vec![(
        "usagePercent".to_string(),
        Json::Number(JsonNumber {
            unsigned: None,
            double: Some(100.0_f64.to_bits() + 1),
        }),
    )]);
    assert!(map_document(&over, now()).is_err());
}

fn at(secs: i64) -> Option<Instant> {
    Some(Instant { secs, nanos: 0 })
}

#[test]
fn timestamps_accept_seconds_millis_and_dates() {
    let text = |value: &str| parse_timestamp(&Json::Text(value.to_string()));
    assert_eq!(parse_timestamp(&number(1789460406.9)), at(1789460406));
    assert_eq!(parse_timestamp(&number(-1.9)), at(-1));
    assert_eq!(parse_timestamp(&number(1e11)), at(100_000_000_000));
    assert_eq!(
        parse_timestamp(&number(100_000_000_000.25)),
        at(100_000_000)
    );
    assert_eq!(parse_timestamp(&number(1789460406727.0)), at(1789460406));
    assert_eq!(parse_timestamp(&number(1789460406999.0)), at(1789460406));
    assert_eq!(parse_timestamp(&number(8.210266876799e15)), at(8210266876799));
    assert_eq!(parse_timestamp(&number(8.2102668768e15)), None);
    assert_eq!(
        parse_timestamp(&number(-8334601228800.0)),
        at(-8334601228800)
    );
    assert_eq!(parse_timestamp(&number(-8334601228801.0)), None);
    assert_eq!(parse_timestamp(&number(1e300)), None);
    assert_eq!(parse_timestamp(&number(f64::INFINITY)), None);
    assert_eq!(parse_timestamp(&number(5e-324)), at(0));
    assert_eq!(text(" 1789460406727 "), at(1789460406));
    assert_eq!(text("+NaN"), at(0));
    assert_eq!(text("inf"), None);
    assert_eq!(text(""), None);
    assert_eq!(text("  "), None);
    assert_eq!(text("1e400"), None);
    assert_eq!(text("tomorrow"), None);
    assert_eq!(text("1970-01-01T01:00:00+01:00"), at(0));
    assert_eq!(
        text("2016-12-31T23:59:60.5Z"),
        Some(Instant {
            secs: 1483228799,
            nanos: 1_500_000_000
        })
    );
    assert_eq!(parse_timestamp(&Json::Bool(true)), None);
}

#[test]
fn whole_parts_agree_with_double_arithmetic() {
    for value in [
        100_000_000_001.0_f64,
        123_456_789_012.5,
        999_999_999_999.0,
        1_789_460_406_999.9,
        4_503_599_627_370_495.5,
        8_210_266_876_798_999.0,
        137_438_953_471.99998,
        100_000_999_999.99998,
    ] {
        assert_eq!(
            parse_timestamp(&number(value)).map(|moment| moment.secs),
            Some((value / 1000.0) as i64),
            "{value}"
        );
    }
}

#[test]
fn completed_fetches_carry_scope_and_history() {
    let body = r#"{"usagePercent": 30, "nextResetTimestampUtc": "2026-09-15T12:00:00Z"}"#;
    let credentials = desktop_token("user-a", "credential-a", Some(42));
    let (outcome, asked) = complete_fetch(
        &credentials,
        "scope".to_string(),
        body,
        now(),
        0,
        |asked: i32, provider: &'static str, owner: String| {
            assert_eq!(provider, "grok-bot");
            assert_eq!(owner, "[\"user-a\",42]");
            (Ok("history".to_string()), asked + 1)
        },
    );
    let data = outcome.ok().unwrap();
    assert_eq!(asked, 1);
    assert_eq!(data.account_scope, Ok("scope".to_string()));
    assert_eq!(data.cache_binding.as_deref(), Some("scope"));
    assert_eq!(data.history_scope, Ok("history".to_string()));

    let unnamed = GrokBotCredentials::Desktop {
        access_token: "opaque-token".to_string(),
        team_id: None,
    };
    let unasked = |asked: i32, _: &'static str, _: String| {
        (Err(AccountScopeError::Unresolved), asked + 1)
    };
    let (outcome, asked) =
        complete_fetch(&unnamed, "scope".to_string(), body, now(), 0, unasked);
    let data = outcome.ok().unwrap();
    assert_eq!(asked, 0);
    assert_eq!(data.history_scope, Err(AccountScopeError::NoTrustedEvidence));

    let (outcome, asked) =
        complete_fetch(&credentials, "scope".to_string(), "{}", now(), 0, unasked);
    assert_eq!(asked, 0, "the owner is used only after the response is accepted");
    match outcome {
        Err(ProviderFetchFailure::Terminal { display }) => {
            assert_eq!(display, "Cursor omitted the Grok Bot usage percentage.")
        }
        _ => panic!("a response without figures is terminal"),
    }
}

#[test]
fn unread_logins_are_terminal() {
    assert!(matches!(
        admit_login(None),
        Err(ProviderFetchFailure::Terminal { display }) if display == "Could not read the Grok Bot login."
    ));
    assert!(matches!(
        admit_login(Some(Err("broken".to_string()))),
        Err(ProviderFetchFailure::Terminal { display }) if display == "broken"
    ));
    assert!(matches!(admit_login(Some(Ok(None))), Ok(None)));
}

#[test]
fn stores_are_found_below_home_unless_overridden() {
    let home = path("/Users/me");
    assert_eq!(
        desktop_secrets_path(None, Some(&home)).bytes,
        b"/Users/me/Library/Application Support/Grok Bot/sand-secrets.json"
    );
    assert_eq!(
        desktop_secrets_path(Some(&path("")), None).bytes,
        b"Library/Application Support/Grok Bot/sand-secrets.json"
    );
    assert_eq!(desktop_secrets_path(Some(&path("x")), Some(&home)).bytes, b"x");
    assert_eq!(
        cursor_state_db_path(None, Some(&home)).bytes,
        b"/Users/me/Library/Application Support/Cursor/User/globalStorage/state.vscdb"
    );
    assert_eq!(cursor_state_db_path(None, None).bytes, b"state.vscdb");
    assert_eq!(cursor_state_db_path(Some(&path("y")), None).bytes, b"y");
}

#[test]
fn json_documents_keep_their_content() {
    let doc = parse_json(r#"{"a":[1,-2.5,null,true],"b":"t","a2":18446744073709551615}"#).unwrap();
    assert!(doc.is_object());
    assert_eq!(doc.get_text("b").map(String::as_str), Some("t"));
    match doc.get("a") {
        Some(Json::Array(items)) => {
            assert_eq!(items.len(), 4);
            assert_eq!(items[0].double(), Some(1.0_f64.to_bits()));
            assert_eq!(items[1].double(), Some((-2.5_f64).to_bits()));
            assert!(matches!(items[2], Json::Null));
            assert_eq!(items[3].flag(), Some(true));
        }
        _ => panic!("an array was expected"),
    }
    match doc.get("a2") {
        Some(Json::Number(n)) => assert_eq!(n.unsigned, Some(u64::MAX)),
        _ => panic!("a number was expected"),
    }
    assert!(doc.get("c").is_none());
    assert!(parse_json("{\"a\":}").is_none());
}
