use reclaw_conformance::frames::{
    abort_all_chat_frames, agent_deferred_frames, connect_frame, handshake_probe_frame,
    mismatch_frames, missing_run_frames, run_pair,
};
use reclaw_conformance::json::{as_bool, as_str, as_u64, get};
use reclaw_conformance::JsonValue;

fn at<'a>(frame: &'a JsonValue, path: &[&str]) -> Option<&'a JsonValue> {
    let mut current = Some(frame);
    for key in path {
        current = get(current, key);
    }
    current
}

fn text(frame: &JsonValue, path: &[&str]) -> Option<String> {
    as_str(at(frame, path)).cloned()
}

#[test]
fn connect_frame_announces_protocol_bounds() {
    let frame = connect_frame("c-1".to_owned());
    assert_eq!(text(&frame, &["type"]).as_deref(), Some("req"));
    assert_eq!(text(&frame, &["id"]).as_deref(), Some("c-1"));
    assert_eq!(text(&frame, &["method"]).as_deref(), Some("connect"));
    assert_eq!(as_u64(at(&frame, &["params", "minProtocol"])), Some(1));
    assert_eq!(as_u64(at(&frame, &["params", "maxProtocol"])), Some(3));
    assert_eq!(text(&frame, &["params", "role"]).as_deref(), Some("operator"));
    assert_eq!(
        text(&frame, &["params", "client", "id"]).as_deref(),
        Some("reclaw-conformance")
    );
    assert_eq!(text(&frame, &["params", "client", "mode"]).as_deref(), Some("cli"));
    assert!(matches!(at(&frame, &["params", "scopes"]), Some(JsonValue::Array(v)) if v.is_empty()));
    assert!(matches!(at(&frame, &["params", "auth", "token"]), Some(JsonValue::Null)));
}

#[test]
fn deferred_agent_frames_share_run_and_session() {
    let frames = agent_deferred_frames("run-5", "conformance deferred");
    let methods: Vec<Option<String>> = frames.iter().map(|f| text(f, &["method"])).collect();
    assert_eq!(
        methods,
        vec![
            Some("connect".to_owned()),
            Some("agent".to_owned()),
            Some("agent.wait".to_owned())
        ]
    );
    assert_eq!(text(&frames[0], &["id"]).as_deref(), Some("run-5-connect"));
    assert_eq!(text(&frames[1], &["id"]).as_deref(), Some("run-5-agent"));
    assert_eq!(text(&frames[1], &["params", "runId"]).as_deref(), Some("run-5"));
    assert_eq!(
        text(&frames[1], &["params", "sessionKey"]).as_deref(),
        Some("agent:main:run-5")
    );
    assert_eq!(as_bool(at(&frames[1], &["params", "deferred"])), Some(true));
    assert_eq!(text(&frames[1], &["params", "agentId"]).as_deref(), Some("main"));
    assert_eq!(
        text(&frames[1], &["params", "input"]).as_deref(),
        Some("conformance deferred")
    );
    assert_eq!(text(&frames[2], &["params", "runId"]).as_deref(), Some("run-5"));
    assert_eq!(as_u64(at(&frames[2], &["params", "timeoutMs"])), Some(2000));
}

#[test]
fn session_wide_cancel_omits_the_run_id() {
    let (one, two) = run_pair("base");
    assert_eq!(one, "base-one");
    assert_eq!(two, "base-two");
    let frames = abort_all_chat_frames("base");
    assert_eq!(frames.len(), 6);
    assert_eq!(text(&frames[3], &["method"]).as_deref(), Some("chat.abort"));
    assert!(at(&frames[3], &["params", "runId"]).is_none());
    assert_eq!(
        text(&frames[3], &["params", "sessionKey"]).as_deref(),
        Some("agent:main:base")
    );
    assert_eq!(
        text(&frames[2], &["params", "idempotencyKey"]).as_deref(),
        Some("base-two")
    );
}

#[test]
fn mismatch_cancel_names_another_session() {
    let frames = mismatch_frames("m-1");
    assert_eq!(
        text(&frames[2], &["params", "sessionKey"]).as_deref(),
        Some("agent:main:m-1-other")
    );
    assert_eq!(text(&frames[2], &["params", "runId"]).as_deref(), Some("m-1"));
}

#[test]
fn missing_run_wait_uses_a_short_deadline() {
    let frames = missing_run_frames("gone");
    assert_eq!(frames.len(), 2);
    assert_eq!(as_u64(at(&frames[1], &["params", "timeoutMs"])), Some(50));
}

#[test]
fn handshake_probe_is_not_a_connect() {
    let frame = handshake_probe_frame();
    assert_eq!(text(&frame, &["method"]).as_deref(), Some("health"));
    assert_eq!(
        text(&frame, &["id"]).as_deref(),
        Some("conformance-handshake-invalid-1")
    );
}
