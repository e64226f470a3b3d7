use reclaw_conformance::checks::{
    check_abort_agent, check_abort_chat, check_abort_session_agent, check_agent_deferred,
    check_completed_noop, check_handshake, check_methods, check_mismatch, check_not_found,
    check_ok_true, check_protocol_version, check_timeout,
};
use reclaw_conformance::{
    decimal_string, run_id_at, unique_run_id, ConformanceOutcome, ConformanceReport, JsonValue,
    RunIds, Scenario, TransportError,
};

fn s(text: &str) -> JsonValue {
    JsonValue::Str(text.to_owned())
}

fn obj(members: Vec<(&str, JsonValue)>) -> JsonValue {
    JsonValue::Object(
        members
            .into_iter()
            .map(|(key, value)| (key.to_owned(), value))
            .collect(),
    )
}

fn reply(payload: JsonValue) -> JsonValue {
    obj(vec![("ok", JsonValue::Bool(true)), ("payload", payload)])
}

fn hello() -> JsonValue {
    reply(obj(vec![("type", s("hello-ok"))]))
}

fn info(version: JsonValue) -> Result<JsonValue, TransportError> {
    Ok(obj(vec![
        ("protocolVersion", version),
        ("methods", JsonValue::Array(vec![s("health"), s("status")])),
    ]))
}

#[test]
fn version_scenario_passes_on_the_expected_version() {
    let outcome = check_protocol_version(3, &info(JsonValue::UInt(3)));
    assert_eq!(outcome.name, "info.protocol_version");
    assert!(outcome.passed);
    assert_eq!(outcome.detail, "protocolVersion=3");
}

#[test]
fn version_scenario_reports_the_offending_version() {
    let outcome = check_protocol_version(3, &info(JsonValue::UInt(4)));
    assert!(!outcome.passed);
    assert_eq!(outcome.detail, "expected protocolVersion=3, found 4");
    let outcome = check_protocol_version(3, &info(JsonValue::UInt(18446744073709551615)));
    assert!(!outcome.passed);
    assert!(outcome.detail.contains("18446744073709551615"));
}

#[test]
fn version_scenario_fails_on_a_missing_or_non_numeric_version() {
    let outcome = check_protocol_version(3, &info(s("3")));
    assert!(!outcome.passed);
    assert_eq!(outcome.detail, "expected protocolVersion=3, found \"3\"");
    let outcome = check_protocol_version(3, &info(JsonValue::OtherNumber("3.5".to_owned())));
    assert!(!outcome.passed);
    assert_eq!(outcome.detail, "expected protocolVersion=3, found 3.5");
    let outcome = check_protocol_version(3, &info(JsonValue::OtherNumber("-3".to_owned())));
    assert_eq!(outcome.detail, "expected protocolVersion=3, found -3");
    let outcome = check_protocol_version(3, &Ok(obj(vec![])));
    assert!(!outcome.passed);
    assert_eq!(outcome.detail, "expected protocolVersion=3, found nothing");
    let outcome = check_protocol_version(3, &Err(TransportError::Http("down".to_owned())));
    assert!(!outcome.passed);
    assert_eq!(
        outcome.detail,
        "info endpoint request failed: http transport error: down"
    );
}

#[test]
fn methods_scenario_needs_both_names() {
    assert!(check_methods(&info(JsonValue::UInt(3))).passed);
    let only_health = Ok(obj(vec![(
        "methods",
        JsonValue::Array(vec![s("health"), JsonValue::UInt(1)]),
    )]));
    let outcome = check_methods(&only_health);
    assert!(!outcome.passed);
    assert_eq!(
        outcome.detail,
        "expected info.methods to include health and status, found [\"health\"]"
    );
}

#[test]
fn not_found_scenario_needs_status_and_code() {
    let body = || {
        obj(vec![
            ("ok", JsonValue::Bool(false)),
            ("error", obj(vec![("code", s("NOT_FOUND"))])),
        ])
    };
    assert!(check_not_found(&Ok((404, body()))).passed);
    let outcome = check_not_found(&Ok((200, body())));
    assert!(!outcome.passed);
    assert_eq!(
        outcome.detail,
        "expected status=404 and error.code=NOT_FOUND, found status=200, error.code=Some(\"NOT_FOUND\")"
    );
    let outcome = check_not_found(&Ok((404, obj(vec![]))));
    assert!(!outcome.passed);
    assert!(outcome.detail.ends_with("error.code=None"));
}

#[test]
fn handshake_scenario_needs_a_rejection_code() {
    let response = |ok: bool, code: &str| {
        Ok(obj(vec![
            ("ok", JsonValue::Bool(ok)),
            ("error", obj(vec![("code", s(code))])),
        ]))
    };
    assert!(check_handshake(&response(false, "INVALID_REQUEST")).passed);
    assert!(!check_handshake(&response(true, "INVALID_REQUEST")).passed);
    assert!(!check_handshake(&response(false, "NOT_FOUND")).passed);
}

fn deferred_replies(status: &str, key: &str) -> Result<Vec<JsonValue>, TransportError> {
    Ok(vec![
        hello(),
        reply(obj(vec![("summary", s("queued"))])),
        reply(obj(vec![
            ("status", s(status)),
            (
                "result",
                obj(vec![
                    ("output", s("Echo: conformance deferred")),
                    ("sessionKey", s(key)),
                ]),
            ),
        ])),
    ])
}

#[test]
fn deferred_scenario_passes_only_on_completion() {
    let key = "agent:main:run-1";
    let input = "conformance deferred";
    let outcome = check_agent_deferred(input, key, &deferred_replies("completed", key));
    assert_eq!(outcome.name, "ws.agent_deferred_wait_completes");
    assert!(outcome.passed);
    for status in ["queued", "running", "aborted", "timeout"] {
        assert!(!check_agent_deferred(input, key, &deferred_replies(status, key)).passed);
    }
    assert!(!check_agent_deferred(input, key, &deferred_replies("completed", "agent:main:other")).passed);
    assert!(!check_agent_deferred("other input", key, &deferred_replies("completed", key)).passed);
}

#[test]
fn exchange_failures_are_reported_with_the_observed_count() {
    let key = "agent:main:run-1";
    let outcome = check_agent_deferred("conformance deferred", key, &Ok(vec![hello()]));
    assert!(!outcome.passed);
    assert_eq!(outcome.detail, "expected 3 websocket responses, found 1");
    let outcome = check_agent_deferred(
        "conformance deferred",
        key,
        &Err(TransportError::Protocol("websocket closed before response".to_owned())),
    );
    assert!(!outcome.passed);
    assert_eq!(
        outcome.detail,
        "websocket exchange failed: transport protocol error: websocket closed before response"
    );
}

fn session_wide_replies(first: &str, second: &str) -> Result<Vec<JsonValue>, TransportError> {
    let wait = |status: &str| reply(obj(vec![("status", s(status))]));
    Ok(vec![
        hello(),
        reply(obj(vec![("summary", s("queued"))])),
        reply(obj(vec![("summary", s("queued"))])),
        reply(obj(vec![
            ("aborted", JsonValue::Bool(true)),
            ("runIds", JsonValue::Array(vec![s("r-one"), s("r-two")])),
        ])),
        wait(first),
        wait(second),
    ])
}

#[test]
fn session_wide_cancel_needs_both_runs_aborted() {
    let check = |replies: Result<Vec<JsonValue>, TransportError>| {
        check_abort_session_agent("r-one", "r-two", &replies)
    };
    assert!(check(session_wide_replies("aborted", "aborted")).passed);
    assert!(!check(session_wide_replies("aborted", "completed")).passed);
    assert!(!check(session_wide_replies("timeout", "aborted")).passed);
    let outcome =
        check_abort_session_agent("r-one", "r-three", &session_wide_replies("aborted", "aborted"));
    assert!(!outcome.passed);
    assert!(outcome.detail.contains("hasRunTwo=false"));
}

fn mismatch_replies(ok: bool) -> Result<Vec<JsonValue>, TransportError> {
    Ok(vec![
        hello(),
        reply(obj(vec![("summary", s("queued"))])),
        obj(vec![
            ("ok", JsonValue::Bool(ok)),
            ("error", obj(vec![("code", s("INVALID_REQUEST"))])),
        ]),
    ])
}

#[test]
fn mismatched_cancel_must_be_rejected() {
    assert!(check_mismatch(&mismatch_replies(false)).passed);
    let outcome = check_mismatch(&mismatch_replies(true));
    assert!(!outcome.passed);
    assert!(outcome.detail.contains("ok=true"));
}

fn noop_replies(aborted: bool, ids: Vec<JsonValue>) -> Result<Vec<JsonValue>, TransportError> {
    Ok(vec![
        hello(),
        reply(obj(vec![("summary", s("queued"))])),
        reply(obj(vec![("status", s("completed"))])),
        reply(obj(vec![
            ("aborted", JsonValue::Bool(aborted)),
            ("runIds", JsonValue::Array(ids)),
        ])),
    ])
}

#[test]
fn cancelling_a_completed_run_is_a_noop() {
    assert!(check_completed_noop("run-7", &noop_replies(false, vec![s("run-7")])).passed);
    assert!(!check_completed_noop("run-7", &noop_replies(true, vec![s("run-7")])).passed);
    assert!(!check_completed_noop("run-7", &noop_replies(false, vec![])).passed);
}

#[test]
fn waiting_on_a_missing_run_times_out() {
    let replies = |status: &str, run: &str| {
        Ok(vec![
            hello(),
            reply(obj(vec![("runId", s(run)), ("status", s(status))])),
        ])
    };
    assert!(check_timeout("gone-1", &replies("timeout", "gone-1")).passed);
    assert!(!check_timeout("gone-1", &replies("timeout", "gone-2")).passed);
    assert!(!check_timeout("gone-1", &replies("aborted", "gone-1")).passed);
}

#[test]
fn report_counts_failures() {
    let outcome = |name: &str, passed: bool| ConformanceOutcome {
        name: name.to_owned(),
        passed,
        detail: String::new(),
    };
    let report = ConformanceReport::new(vec![
        outcome("a", true),
        outcome("b", false),
        outcome("c", false),
    ]);
    assert_eq!(report.total, 3);
    assert_eq!(report.failed, 2);
    assert!(!report.is_passing());
    let empty = ConformanceReport::new(Vec::new());
    assert_eq!(empty.total, 0);
    assert_eq!(empty.failed, 0);
    assert!(empty.is_passing());
}

#[test]
fn run_ids_carry_prefix_time_and_sequence() {
    assert_eq!(
        run_id_at("conformance-deferred", 1700000000123, 4),
        "conformance-deferred-1700000000123-4"
    );
    assert_eq!(run_id_at("x", 0, 0), "x-0-0");
    assert_eq!(decimal_string(0), "0");
    assert_eq!(decimal_string(1020), "1020");
    let mut ids = RunIds::new();
    let id = unique_run_id(&mut ids, "conformance-missing");
    let rest = id.strip_prefix("conformance-missing-").expect("prefix");
    let (stamp, seq) = rest.split_once('-').expect("sequence");
    assert!(!stamp.is_empty());
    assert!(stamp.chars().all(|c| c.is_ascii_digit()));
    assert_ne!(stamp, "0");
    assert_eq!(seq, "0");
    assert_eq!(ids.next, 1);
}

#[test]
fn run_ids_in_one_millisecond_still_differ() {
    let mut ids = RunIds::new();
    let drawn: Vec<String> = (0..50).map(|_| unique_run_id(&mut ids, "p")).collect();
    for (i, a) in drawn.iter().enumerate() {
        for b in drawn.iter().skip(i + 1) {
            assert_ne!(a, b);
        }
    }
    assert_eq!(ids.next, 50);
}

#[test]
fn liveness_failure_shows_the_observed_flag() {
    let scenario = Scenario::HealthzOkTrue;
    let outcome = check_ok_true(scenario, "health", &Ok(obj(vec![("ok", JsonValue::Bool(false))])));
    assert!(!outcome.passed);
    assert_eq!(
        outcome.detail,
        "health endpoint did not return {\"ok\":true}, found ok=false"
    );
    let outcome = check_ok_true(scenario, "health", &Ok(obj(vec![])));
    assert_eq!(
        outcome.detail,
        "health endpoint did not return {\"ok\":true}, found ok=nothing"
    );
    assert!(check_ok_true(scenario, "health", &Ok(obj(vec![("ok", JsonValue::Bool(true))]))).passed);
}

fn single_cancel_replies(listed: Vec<JsonValue>, by_summary: bool) -> Result<Vec<JsonValue>, TransportError> {
    let queued_key = if by_summary { "summary" } else { "status" };
    Ok(vec![
        hello(),
        reply(obj(vec![(queued_key, s("queued"))])),
        reply(obj(vec![
            ("aborted", JsonValue::Bool(true)),
            ("runIds", JsonValue::Array(listed)),
        ])),
        reply(obj(vec![
            ("status", s("aborted")),
            (
                "result",
                obj(vec![("output", JsonValue::Null), ("sessionKey", s("agent:main:r-1"))]),
            ),
        ])),
    ])
}

#[test]
fn single_run_cancel_must_name_the_run() {
    let key = "agent:main:r-1";
    assert!(check_abort_agent("r-1", key, &single_cancel_replies(vec![s("r-1")], true)).passed);
    let outcome = check_abort_agent("r-1", key, &single_cancel_replies(vec![], true));
    assert!(!outcome.passed);
    assert!(outcome.detail.starts_with("expected abort lifecycle, found summary="));
    assert!(outcome.detail.ends_with("runIdListed=false"));
    assert!(check_abort_chat("r-1", key, &single_cancel_replies(vec![s("r-1")], false)).passed);
    let outcome = check_abort_chat("r-1", key, &single_cancel_replies(vec![s("r-2")], false));
    assert!(!outcome.passed);
    assert!(outcome
        .detail
        .starts_with("expected deferred chat.send abort lifecycle, found status="));
}

#[test]
fn catalog_has_seventeen_distinct_names() {
    let names: Vec<&str> = Scenario::all().iter().map(|s| s.name()).collect();
    assert_eq!(names.len(), 17);
    for (i, a) in names.iter().enumerate() {
        for b in names.iter().skip(i + 1) {
            assert_ne!(a, b);
        }
    }
}

#[test]
fn observed_text_is_escaped_in_details() {
    let body = obj(vec![("error", obj(vec![("code", s("NOT \"FOUND\""))]))]);
    let outcome = check_not_found(&Ok((404, body)));
    assert!(!outcome.passed);
    assert!(outcome
        .detail
        .ends_with("error.code=Some(\"NOT \\\"FOUND\\\"\")"));
}
