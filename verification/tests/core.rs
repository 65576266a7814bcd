use tb_core::agent_warp::state::{SourceSnapshot, WarpError};
use tb_core::doubles::{is_percentage, whole_and_rest};
use tb_core::envelope::{
    bearer_argument, clients_from, envelope, into_raw_json, panic_envelope, path_argument,
    probe_answer, warp_envelope, warp_panic_envelope, warp_utf8, year_from,
};
use tb_core::keychain_consent::{
    allowed, new_registry, reset_for_test, set_answers, set_from_json,
};
use tb_core::numbers::{decimal, parse_i64, parse_u64, saturating_sum, seconds_to_ms};
use tb_core::reports::{
    finish_tail_tick, graph_cached, graph_computed, graph_revalidated, invalidate_usage_data,
    release_tail_tick, tail_tick_if_stale, usage_data_generation, with_stable_usage_source,
    CachedRead, Reports, ONESHOT_MAX_AGE_NANOS, TAIL_TICK_NANOS,
};
use tb_core::safe_storage::{
    decrypt, erase, keychain_password, keychain_step, KeychainStep, KEYCHAIN_DENIED,
    UNDECRYPTABLE,
};
use tb_core::text::{split, split_once, strip_prefix, trim, trim_trailing};
use tb_core::warp_usage::WarpUsageSource;

use base64::Engine as _;

#[test]
fn registers_and_clears() {
    let mut registry = new_registry();
    reset_for_test(&mut registry);

    assert!(
        !allowed(&registry, "grok-bot"),
        "an untouched registry must deny, or a process that never calls the \
             setter would raise the dialog this registry exists to prevent"
    );

    let result = set_from_json(&mut registry, r#"{"grok-bot":true}"#).ok().unwrap();
    assert_eq!(result.granted_count, 1);
    assert!(allowed(&registry, "grok-bot"));

    let result = set_from_json(&mut registry, r#"{"grok-bot":false}"#).ok().unwrap();
    assert_eq!(result.granted_count, 0);
    assert!(result.rejected.is_empty());
    assert!(!allowed(&registry, "grok-bot"));

    set_from_json(&mut registry, r#"{"grok-bot":true}"#).ok().unwrap();
    set_from_json(&mut registry, "{}").ok().unwrap();
    assert!(!allowed(&registry, "grok-bot"));
    reset_for_test(&mut registry);
}

#[test]
fn an_unwired_client_id_is_refused_rather_than_stored() {
    let mut registry = new_registry();
    let result = set_from_json(&mut registry, r#"{"grok-bot":true,"codex":true}"#)
        .ok()
        .unwrap();
    assert_eq!(result.granted_count, 1);
    assert_eq!(result.rejected[0].client, "codex");
    assert_eq!(result.rejected[0].reason, "client does not read the Keychain");
    assert!(allowed(&registry, "grok-bot"));
    assert!(
        !allowed(&registry, "codex"),
        "storing a grant nothing reads would report consent for a dialog \
             that still appears unannounced"
    );
}

#[test]
fn malformed_json_leaves_the_registry_untouched() {
    let mut registry = new_registry();
    set_from_json(&mut registry, r#"{"grok-bot":true}"#).ok().unwrap();
    let error = set_from_json(&mut registry, "{not json").err().unwrap();
    assert!(error.contains("invalid Keychain consent JSON"), "{error}");
    assert!(error.len() > "invalid Keychain consent JSON: ".len());
    assert!(allowed(&registry, "grok-bot"));
    assert!(set_from_json(&mut registry, r#"{"grok-bot":1}"#).is_err());
    assert!(allowed(&registry, "grok-bot"));
}

#[test]
fn consent_answers_replace_each_other() {
    let mut registry = new_registry();
    let outcome = set_answers(
        &mut registry,
        &vec![
            ("codex".to_string(), false),
            ("grok-bot".to_string(), true),
            ("zed".to_string(), true),
        ],
    );
    assert_eq!(outcome.granted_count, 1);
    let names: Vec<&str> = outcome.rejected.iter().map(|r| r.client.as_str()).collect();
    assert_eq!(names, ["codex", "zed"]);
    set_answers(&mut registry, &Vec::new());
    assert!(!allowed(&registry, "grok-bot"));
    set_from_json(&mut registry, r#"{"grok-bot":false,"grok-bot":true}"#).ok().unwrap();
    assert!(allowed(&registry, "grok-bot"));
}

#[test]
fn tick_guard_clears_in_flight_without_stamping_on_panic() {
    let mut reports = Reports::new();
    reports.tick.in_flight = true;
    reports.tick.last = None;
    release_tail_tick(&mut reports);
    assert!(!reports.tick.in_flight);
    assert!(reports.tick.last.is_none());
}

#[test]
fn tail_ticks_are_claimed_once_and_paced() {
    let mut reports = Reports::new();
    assert_eq!(tail_tick_if_stale(&mut reports, 5), Some(0));
    assert_eq!(tail_tick_if_stale(&mut reports, u64::MAX), None);
    finish_tail_tick(&mut reports, 0, 7);
    release_tail_tick(&mut reports);
    assert_eq!(tail_tick_if_stale(&mut reports, 6), None);
    assert_eq!(tail_tick_if_stale(&mut reports, 6 + TAIL_TICK_NANOS), None);
    assert_eq!(tail_tick_if_stale(&mut reports, 7 + TAIL_TICK_NANOS), Some(0));
    invalidate_usage_data(&mut reports);
    finish_tail_tick(&mut reports, 0, 9);
    release_tail_tick(&mut reports);
    assert_eq!(reports.tick.last, None);
    assert_eq!(tail_tick_if_stale(&mut reports, 10), Some(1));
}

fn served(read: CachedRead) -> Option<String> {
    match read {
        CachedRead::Fresh(data) => Some(data),
        _ => None,
    }
}

#[test]
fn graphs_are_cached_by_year_until_the_sources_change() {
    let mut reports = Reports::new();
    let max = ONESHOT_MAX_AGE_NANOS;
    assert!(matches!(graph_cached(&reports, "2026", 0, max), CachedRead::Missing));
    assert_eq!(
        graph_computed(&mut reports, "2026", 0, Some(4), Ok("g1".to_string()), 100),
        Ok("g1".to_string())
    );
    graph_computed(&mut reports, "", 0, None, Ok("all".to_string()), 200).unwrap();
    assert_eq!(
        served(graph_cached(&reports, "2026", 100 + max, max)).as_deref(),
        Some("g1")
    );
    assert_eq!(served(graph_cached(&reports, "", 0, max)).as_deref(), Some("all"));
    let (token, data) = match graph_cached(&reports, "2026", 101 + max, max) {
        CachedRead::Aged { token, data } => (token, data),
        _ => panic!("the entry is too old to be served unseen"),
    };
    assert_eq!(token, 4);
    assert_eq!(
        graph_revalidated(&mut reports, "2026", token, data.clone(), Some(5), 101 + max),
        None
    );
    assert_eq!(
        graph_revalidated(&mut reports, "2026", token, data.clone(), None, 101 + max),
        None
    );
    assert_eq!(
        graph_revalidated(&mut reports, "2026", token, data, Some(4), 101 + max).as_deref(),
        Some("g1")
    );
    assert!(served(graph_cached(&reports, "2026", 102 + max, max)).is_some());
    graph_computed(&mut reports, "2026", 0, Some(6), Ok("g2".to_string()), 300).unwrap();
    assert_eq!(reports.graphs.len(), 2);
    assert_eq!(
        served(graph_cached(&reports, "2026", 300, max)).as_deref(),
        Some("g2")
    );
    assert_eq!(
        graph_computed(&mut reports, "2026", 0, None, Err("broken".to_string()), 300),
        Err("broken".to_string())
    );
    invalidate_usage_data(&mut reports);
    assert_eq!(usage_data_generation(&reports), 1);
    assert!(matches!(graph_cached(&reports, "2026", 300, max), CachedRead::Missing));
    assert_eq!(
        graph_computed(&mut reports, "2026", 0, Some(6), Ok("g3".to_string()), 300),
        Err("usage_data_changed".to_string())
    );
    assert!(matches!(graph_cached(&reports, "2026", 300, max), CachedRead::Missing));
}

#[test]
fn generations_wrap_and_always_change() {
    let mut reports = Reports::new();
    reports.generation = u64::MAX;
    invalidate_usage_data(&mut reports);
    assert_eq!(usage_data_generation(&reports), 0);
}

/// What the closures of a report act on.
#[derive(Default)]
struct World {
    clock: u64,
    calls: Vec<&'static str>,
}

#[test]
fn reports_run_again_when_disturbed() {
    let observe = |mut world: World| {
        world.calls.push("observe");
        let snapshot = SourceSnapshot {
            generation: 3,
            warp_usage_source: None,
        };
        ((world.clock, snapshot), world)
    };
    let generations = |mut world: World| {
        world.calls.push("generations");
        ((world.clock, 3), world)
    };
    let disturbed_once = |mut world: World, _: Option<WarpUsageSource>| {
        world.calls.push("body");
        if world.calls.len() < 3 {
            world.clock += 1;
        }
        (Ok::<usize, String>(world.calls.len()), world)
    };
    let (outcome, after) =
        with_stable_usage_source(World::default(), observe, disturbed_once, generations);
    assert_eq!(outcome, Ok(5));
    assert_eq!(
        after.calls,
        ["observe", "body", "generations", "observe", "body", "generations"]
    );
    let always = |mut world: World, _: Option<WarpUsageSource>| {
        world.clock += 1;
        (Ok::<i32, String>(1), world)
    };
    let (outcome, after) =
        with_stable_usage_source(World::default(), observe, always, generations);
    assert_eq!(outcome, Err("usage_data_changed".to_string()));
    assert_eq!(after.clock, 2);
    let failing =
        |world: World, _: Option<WarpUsageSource>| (Err::<i32, String>("own".to_string()), world);
    let (outcome, after) =
        with_stable_usage_source(World::default(), observe, failing, generations);
    assert_eq!(outcome, Err("own".to_string()));
    assert_eq!(after.calls, ["observe", "generations"]);
    let moved = |world: World| ((world.clock, 4), world);
    let calm = |world: World, _: Option<WarpUsageSource>| (Ok::<i32, String>(1), world);
    let (outcome, _) = with_stable_usage_source(World::default(), observe, calm, moved);
    assert_eq!(outcome, Err("usage_data_changed".to_string()));
}

#[test]
fn guarded_passes_success_through() {
    let s = envelope(Ok("{\"v\":1}".to_string()));
    assert!(s.contains(r#""ok":true"#), "got: {s}");
    assert!(s.contains(r#""v":1"#), "got: {s}");
    assert_eq!(s, r#"{"ok":true,"data":{"v":1}}"#);
}

#[test]
fn guarded_converts_panic_to_error_envelope() {
    let s = panic_envelope("tb_test", Some("boom"));
    assert!(s.contains(r#""ok":false"#), "got: {s}");
    assert!(s.contains("tb_test panicked: boom"), "got: {s}");
    assert_eq!(
        panic_envelope("tb_test", None),
        r#"{"ok":false,"err":"tb_test panicked: panic"}"#
    );
}

#[test]
fn warp_ffi_rejects_null_and_invalid_utf8_with_fixed_codes() {
    for broken in [None, Some(Err(()))] {
        let bearer = warp_envelope(Err(bearer_argument(broken).unwrap_err()));
        assert!(bearer.contains("warp_invalid_bearer"));
        let location = warp_envelope(Err(path_argument(broken).unwrap_err()));
        assert!(location.contains("warp_invalid_external_path"));
        assert_eq!(warp_utf8(broken), Err(WarpError::InvalidUsage));
    }
    assert_eq!(bearer_argument(Some(Ok("b"))), Ok("b"));
    assert_eq!(path_argument(Some(Ok("p"))), Ok("p"));
}

#[test]
fn warp_panic_boundary_never_returns_panic_details() {
    let output = warp_panic_envelope();
    assert!(output.contains("warp_internal"));
    assert!(!output.contains("sentinel-secret"));
    assert!(!output.contains("/private"));
    assert_eq!(warp_envelope(Ok(None)), output);
    assert_eq!(
        warp_envelope(Ok(Some("{}".to_string()))),
        r#"{"ok":true,"data":{}}"#
    );
}

#[test]
fn envelopes_quote_messages_and_hold_no_nul() {
    assert_eq!(
        envelope(Err("a \"b\"\u{0}".to_string())),
        "{\"ok\":false,\"err\":\"a \\\"b\\\"\\u0000\"}"
    );
    assert_eq!(
        into_raw_json("x\u{0}y".to_string()),
        r#"{"ok":false,"err":"interior NUL"}"#
    );
}

#[test]
fn errors_with_control_characters_are_escaped() {
    assert_eq!(
        envelope(Err("a\0b\n".to_string())),
        "{\"ok\":false,\"err\":\"a\\u0000b\\n\"}"
    );
    assert_eq!(
        panic_envelope("tb_graph", Some("\0")),
        "{\"ok\":false,\"err\":\"tb_graph panicked: \\u0000\"}"
    );
}

#[test]
fn rejected_clients_are_named_in_ascending_order() {
    let mut registry = new_registry();
    let outcome = set_from_json(
        &mut registry,
        r#"{"zed":true,"grok-bot":true,"cod":false,"codex":true,"\u00e9":true,"Zed":false}"#,
    )
    .ok()
    .unwrap();
    let names: Vec<&str> = outcome.rejected.iter().map(|r| r.client.as_str()).collect();
    assert_eq!(names, ["Zed", "cod", "codex", "zed", "\u{e9}"]);
    assert_eq!(outcome.granted_count, 1);
}

#[test]
fn probes_answer_with_a_bare_count() {
    assert_eq!(probe_answer(Ok(12)), r#"{"ok":true,"messages":12}"#);
    assert_eq!(
        probe_answer(Err("usage_data_changed".to_string())),
        r#"{"ok":false,"err":"usage_data_changed"}"#
    );
}

#[test]
fn filters_are_read_from_arguments() {
    assert_eq!(year_from(None), Ok(String::new()));
    assert_eq!(year_from(Some(Ok(" 2026"))), Ok(" 2026".to_string()));
    assert_eq!(year_from(Some(Ok("  \t"))), Ok(String::new()));
    assert_eq!(year_from(Some(Ok(""))), Ok(String::new()));
    assert_eq!(
        year_from(Some(Err(()))),
        Err("year filter is not valid UTF-8".to_string())
    );
    assert_eq!(clients_from(None), Ok(None));
    assert_eq!(clients_from(Some(Ok(" , ,"))), Ok(None));
    assert_eq!(
        clients_from(Some(Ok("codex, copilot ,,x"))),
        Ok(Some(vec![
            "codex".to_string(),
            "copilot".to_string(),
            "x".to_string()
        ]))
    );
    assert_eq!(
        clients_from(Some(Err(()))),
        Err("client filter is not valid UTF-8".to_string())
    );
}

#[test]
fn decrypts_electron_v10_fixture_and_rejects_invalid_data() {
    let encrypted = base64::engine::general_purpose::STANDARD
        .decode("djEwAO+8/FAQYBswbLPYv43X0Q==")
        .unwrap();
    let key = |blocks: &Vec<u8>| -> Option<Vec<u8>> {
        assert_eq!(blocks.len(), 16);
        assert_eq!(blocks[..], encrypted[3..]);
        Some(b"test-token-1234".to_vec())
    };
    let (opened, remains) = decrypt(&encrypted, &key);
    assert_eq!(opened.unwrap(), "test-token-1234");
    assert!(remains.is_empty());
    let wrong = |_: &Vec<u8>| -> Option<Vec<u8>> { None };
    assert_eq!(decrypt(&encrypted, &wrong).0.unwrap_err(), UNDECRYPTABLE);
    let garbled = |_: &Vec<u8>| -> Option<Vec<u8>> { Some(vec![0x61, 0xff, 0x62]) };
    let (refused, remains) = decrypt(&encrypted, &garbled);
    assert_eq!(refused.unwrap_err(), UNDECRYPTABLE);
    assert_eq!(remains, [0, 0, 0], "what is not text must not stay in memory");
    assert!(decrypt(b"v11unsupported", &wrong).0.is_err());
    assert!(decrypt(b"v10truncated", &key).0.is_err());
    assert!(decrypt(b"v10", &key).0.is_err());
}

#[test]
fn keychain_requests_are_waited_for_and_read() {
    assert_eq!(keychain_step(Some(true), 30_000), KeychainStep::Read);
    assert_eq!(keychain_step(Some(false), 24_999), KeychainStep::Wait);
    assert_eq!(keychain_step(Some(false), 25_000), KeychainStep::Stop);
    assert_eq!(keychain_step(None, 0), KeychainStep::Stop);
    assert_eq!(
        keychain_password(true, b"secret\r\n\n".to_vec()),
        Ok(b"secret".to_vec())
    );
    assert_eq!(
        keychain_password(true, b"\n".to_vec()),
        Err(KEYCHAIN_DENIED.to_string())
    );
    assert_eq!(
        keychain_password(false, b"secret".to_vec()),
        Err(KEYCHAIN_DENIED.to_string())
    );
    let mut secret = b"secret".to_vec();
    erase(&mut secret);
    assert_eq!(secret, [0; 6]);
}

#[test]
fn numbers_read_as_the_standard_parser_does() {
    for text in [
        "", "+", "-", "0", "+7", "-7", "007", "18446744073709551615", "18446744073709551616",
        "9223372036854775807", "9223372036854775808", "-9223372036854775808",
        "-9223372036854775809", " 1", "1 ", "1_0", "٣", "0x1", "--1", "+-1",
    ] {
        assert_eq!(parse_u64(text), text.parse::<u64>().ok(), "{text}");
        assert_eq!(parse_i64(text), text.parse::<i64>().ok(), "{text}");
    }
    for n in [0, 9, 10, 42, 1_000_000, u64::MAX] {
        assert_eq!(decimal(n), n.to_string());
        assert_eq!(parse_u64(&decimal(n)), Some(n));
    }
    assert_eq!(saturating_sum(i64::MAX, 1), i64::MAX);
    assert_eq!(saturating_sum(i64::MIN, -1), i64::MIN);
    assert_eq!(seconds_to_ms(i64::MAX), i64::MAX);
    assert_eq!(seconds_to_ms(-3), 0);
}

#[test]
fn texts_are_cut_as_the_standard_library_does() {
    for text in ["", " a ", "\u{a0}b\u{3000}", "\u{200b}c", "a\tb", "\u{85}\u{2028}"] {
        assert_eq!(trim(text), text.trim());
        assert_eq!(trim(&trim(text)), trim(text));
    }
    for code in 0..=0x10ffff_u32 {
        if let Some(c) = char::from_u32(code) {
            assert_eq!(tb_core::text::is_white_space(c), c.is_whitespace(), "{code:x}");
        }
    }
    assert_eq!(trim_trailing("ab==", '='), "ab");
    assert_eq!(split("a.b..c", '.'), ["a", "b", "", "c"]);
    assert_eq!(split("", '.'), [""]);
    assert_eq!(
        split_once("a:b:c", ':'),
        Some(("a".to_string(), "b:c".to_string()))
    );
    assert_eq!(split_once("abc", ':'), None);
    assert_eq!(strip_prefix("abc", "ab").as_deref(), Some("c"));
    assert_eq!(strip_prefix("abc", "b"), None);
}

#[test]
fn doubles_are_told_by_their_bits() {
    for value in [0.0, -0.0, 5e-324, 0.5, 63.9, 64.0, 99.999, 100.0] {
        assert!(is_percentage(f64::to_bits(value)), "{value}");
    }
    for value in [-5e-324, 100.00000000000001, 128.0, 1e300, f64::INFINITY, f64::NAN] {
        assert!(!is_percentage(f64::to_bits(value)), "{value}");
    }
    for value in [0.0, 0.25, 1.0, 1.5, 4503599627370495.5, 9007199254740993.0, 1e18] {
        assert_eq!(
            whole_and_rest(f64::to_bits(value)),
            Some((value as u64, value.fract() != 0.0)),
            "{value}"
        );
    }
    assert_eq!(whole_and_rest(f64::to_bits(1.2e18)), None);
    assert_eq!(whole_and_rest(f64::to_bits(f64::NAN)), None);
}
