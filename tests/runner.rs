use reclaw_conformance::json::{as_str, get};
use reclaw_conformance::{
    ConformanceReport, ConformanceRunner, ConformanceTransport, JsonValue, Scenario,
    TransportError, EXPECTED_PROTOCOL_VERSION,
};

fn s(text: &str) -> JsonValue {
    JsonValue::Str(text.to_owned())
}

fn obj(members: Vec<(&str, JsonValue)>) -> JsonValue {
    JsonValue::Object(
        members
            .into_iter()
            .map(|(key, value)| (key.to_owned(), value))
            .collect(),
    )
}

fn arr(items: Vec<JsonValue>) -> JsonValue {
    JsonValue::Array(items)
}

fn reply(payload: JsonValue) -> JsonValue {
    obj(vec![("ok", JsonValue::Bool(true)), ("payload", payload)])
}

fn hello() -> JsonValue {
    reply(obj(vec![("type", s("hello-ok"))]))
}

fn text_at(frame: &JsonValue, path: &[&str]) -> String {
    let mut current = Some(frame);
    for key in path {
        current = get(current, key);
    }
    as_str(current).expect("fixture frame field").clone()
}

/// A gateway that honours every invariant of the catalog, except the one
/// belonging to the scenario named by `broken`.
struct MockGateway {
    broken: Option<&'static str>,
    version: u64,
}

impl MockGateway {
    fn conforming() -> Self {
        MockGateway {
            broken: None,
            version: EXPECTED_PROTOCOL_VERSION,
        }
    }

    fn breaks(&self, name: &str) -> bool {
        self.broken == Some(name)
    }

    fn pick(&self, name: &str, good: &str, bad: &str) -> JsonValue {
        if self.breaks(name) {
            s(bad)
        } else {
            s(good)
        }
    }

    fn status_payload(&self, logged_out: bool) -> JsonValue {
        let mut accounts = vec![obj(vec![
            ("accountId", s("default")),
            ("connected", JsonValue::Bool(true)),
            ("kind", s("internal")),
            ("loggedOutAtMs", JsonValue::Null),
        ])];
        if logged_out {
            accounts.push(obj(vec![
                ("accountId", s("ops")),
                (
                    "connected",
                    JsonValue::Bool(self.breaks("ws.channels_logout_account_persists")),
                ),
                ("kind", s("internal")),
                ("loggedOutAtMs", JsonValue::UInt(42)),
            ]));
        }
        reply(obj(vec![
            ("ts", JsonValue::UInt(1)),
            (
                "channels",
                arr(vec![obj(vec![
                    ("id", s("webchat")),
                    ("connected", JsonValue::Bool(true)),
                    ("kind", s("internal")),
                ])]),
            ),
            ("channelOrder", arr(vec![s("webchat")])),
            ("channelLabels", obj(vec![("webchat", s("webchat"))])),
            (
                "channelsById",
                obj(vec![(
                    "webchat",
                    obj(vec![
                        ("connected", JsonValue::Bool(true)),
                        ("kind", s("internal")),
                    ]),
                )]),
            ),
            ("channelAccounts", obj(vec![("webchat", arr(accounts))])),
            (
                "channelDefaultAccountId",
                obj(vec![(
                    "webchat",
                    self.pick("ws.channels_status_includes_account_views", "default", "ops"),
                )]),
            ),
        ]))
    }

    fn aborted_wait(&self, session_key: &str, name: &str) -> JsonValue {
        reply(obj(vec![
            ("status", self.pick(name, "aborted", "completed")),
            (
                "result",
                obj(vec![("output", JsonValue::Null), ("sessionKey", s(session_key))]),
            ),
        ]))
    }
}

impl ConformanceTransport for MockGateway {
    fn get_json(&self, path: &str) -> Result<JsonValue, TransportError> {
        match path {
            "/healthz" => Ok(obj(vec![(
                "ok",
                JsonValue::Bool(!self.breaks("healthz.ok_true")),
            )])),
            "/readyz" => Ok(obj(vec![(
                "ok",
                JsonValue::Bool(!self.breaks("readyz.ok_true")),
            )])),
            "/info" => {
                let version = if self.breaks("info.protocol_version") {
                    self.version + 1
                } else {
                    self.version
                };
                let second = self.pick("info.methods_include_health_status", "status", "info");
                Ok(obj(vec![
                    ("protocolVersion", JsonValue::UInt(version)),
                    ("methods", arr(vec![s("health"), second])),
                ]))
            }
            _ => Err(TransportError::Protocol("unknown path".to_owned())),
        }
    }

    fn post_json(&self, path: &str, _body: &JsonValue) -> Result<(u16, JsonValue), TransportError> {
        if path != "/channels/nonexistent/webhook" {
            return Err(TransportError::Protocol("unknown path".to_owned()));
        }
        let status = if self.breaks("channels.unknown_webhook_not_found") {
            200
        } else {
            404
        };
        Ok((
            status,
            obj(vec![
                ("ok", JsonValue::Bool(false)),
                ("error", obj(vec![("code", s("NOT_FOUND"))])),
            ]),
        ))
    }

    fn websocket_first_response(&self, frame: &JsonValue) -> Result<JsonValue, TransportError> {
        Ok(obj(vec![
            ("type", s("res")),
            ("id", s(&text_at(frame, &["id"]))),
            ("ok", JsonValue::Bool(false)),
            (
                "error",
                obj(vec![(
                    "code",
                    self.pick(
                        "ws.handshake_requires_connect_first_frame",
                        "INVALID_REQUEST",
                        "UNAVAILABLE",
                    ),
                )]),
            ),
        ]))
    }

    fn websocket_exchange(&self, frames: &[JsonValue]) -> Result<Vec<JsonValue>, TransportError> {
        let methods: Vec<String> = frames.iter().map(|f| text_at(f, &["method"])).collect();
        let methods: Vec<&str> = methods.iter().map(|m| m.as_str()).collect();
        let queued_summary = || reply(obj(vec![("summary", s("queued"))]));
        let queued_status = |run: &str, key: &str| {
            reply(obj(vec![
                ("runId", s(run)),
                ("status", s("queued")),
                ("sessionKey", s(key)),
                ("message", JsonValue::Null),
            ]))
        };
        match methods.as_slice() {
            ["connect", "agent.wait"] => {
                let run = text_at(&frames[1], &["params", "runId"]);
                let status = self.pick("ws.agent_wait_timeout_for_missing_run", "timeout", "completed");
                Ok(vec![hello(), reply(obj(vec![("runId", s(&run)), ("status", status)]))])
            }
            ["connect", "channels.status"] => Ok(vec![hello(), self.status_payload(false)]),
            ["connect", "channels.logout", "channels.status"] => Ok(vec![
                hello(),
                reply(obj(vec![
                    ("ok", JsonValue::Bool(true)),
                    ("channel", s("webchat")),
                    ("accountId", s("ops")),
                    ("loggedOut", JsonValue::Bool(true)),
                ])),
                self.status_payload(true),
            ]),
            ["connect", "chat.send", "agent.wait"] => {
                let run = text_at(&frames[1], &["params", "idempotencyKey"]);
                let key = text_at(&frames[1], &["params", "sessionKey"]);
                Ok(vec![
                    hello(),
                    queued_status(&run, &key),
                    reply(obj(vec![
                        (
                            "status",
                            self.pick("ws.chat_send_deferred_wait_completes", "completed", "running"),
                        ),
                        (
                            "result",
                            obj(vec![
                                ("output", s("Echo: conformance deferred chat")),
                                ("sessionKey", s(&key)),
                            ]),
                        ),
                    ])),
                ])
            }
            ["connect", "chat.send", "chat.abort", "agent.wait"] => {
                let run = text_at(&frames[1], &["params", "idempotencyKey"]);
                let key = text_at(&frames[1], &["params", "sessionKey"]);
                Ok(vec![
                    hello(),
                    queued_status(&run, &key),
                    reply(obj(vec![
                        ("aborted", JsonValue::Bool(true)),
                        ("runIds", arr(vec![s(&run)])),
                    ])),
                    self.aborted_wait(&key, "ws.chat_abort_cancels_deferred_chat_send_run"),
                ])
            }
            ["connect", "chat.send", "chat.send", "chat.abort", "agent.wait", "agent.wait"] => {
                let one = text_at(&frames[1], &["params", "idempotencyKey"]);
                let two = text_at(&frames[2], &["params", "idempotencyKey"]);
                let key = text_at(&frames[1], &["params", "sessionKey"]);
                let name = "ws.chat_abort_session_wide_cancels_deferred_chat_send_runs";
                Ok(vec![
                    hello(),
                    queued_status(&one, &key),
                    queued_status(&two, &key),
                    reply(obj(vec![
                        ("aborted", JsonValue::Bool(true)),
                        ("runIds", arr(vec![s(&one), s(&two)])),
                    ])),
                    self.aborted_wait(&key, "-"),
                    self.aborted_wait(&key, name),
                ])
            }
            ["connect", "agent", "chat.abort"] => Ok(vec![
                hello(),
                queued_summary(),
                obj(vec![
                    (
                        "ok",
                        JsonValue::Bool(self.breaks("ws.chat_abort_rejects_run_session_mismatch")),
                    ),
                    ("error", obj(vec![("code", s("INVALID_REQUEST"))])),
                ]),
            ]),
            ["connect", "agent", "agent.wait", "chat.abort"] => {
                let run = text_at(&frames[1], &["params", "runId"]);
                let key = text_at(&frames[1], &["params", "sessionKey"]);
                Ok(vec![
                    hello(),
                    queued_summary(),
                    reply(obj(vec![
                        ("status", s("completed")),
                        (
                            "result",
                            obj(vec![
                                ("output", s("Echo: complete then abort")),
                                ("sessionKey", s(&key)),
                            ]),
                        ),
                    ])),
                    reply(obj(vec![
                        (
                            "aborted",
                            JsonValue::Bool(self.breaks("ws.chat_abort_completed_run_noop")),
                        ),
                        ("runIds", arr(vec![s(&run)])),
                    ])),
                ])
            }
            ["connect", "agent", "agent", "chat.abort", "agent.wait", "agent.wait"] => {
                let one = text_at(&frames[1], &["params", "runId"]);
                let two = text_at(&frames[2], &["params", "runId"]);
                let key = text_at(&frames[1], &["params", "sessionKey"]);
                Ok(vec![
                    hello(),
                    queued_summary(),
                    queued_summary(),
                    reply(obj(vec![
                        ("aborted", JsonValue::Bool(true)),
                        ("runIds", arr(vec![s(&one), s(&two)])),
                    ])),
                    self.aborted_wait(&key, "ws.chat_abort_session_wide_cancels_runs"),
                    self.aborted_wait(&key, "-"),
                ])
            }
            ["connect", "agent", "chat.abort", "agent.wait"] => {
                let run = text_at(&frames[1], &["params", "runId"]);
                let key = text_at(&frames[1], &["params", "sessionKey"]);
                Ok(vec![
                    hello(),
                    queued_summary(),
                    reply(obj(vec![
                        ("aborted", JsonValue::Bool(true)),
                        ("runIds", arr(vec![s(&run)])),
                    ])),
                    self.aborted_wait(&key, "ws.chat_abort_cancels_deferred_run"),
                ])
            }
            ["connect", "agent", "agent.wait"] => {
                let key = text_at(&frames[1], &["params", "sessionKey"]);
                Ok(vec![
                    hello(),
                    queued_summary(),
                    reply(obj(vec![
                        (
                            "status",
                            self.pick("ws.agent_deferred_wait_completes", "completed", "timeout"),
                        ),
                        (
                            "result",
                            obj(vec![
                                ("output", s("Echo: conformance deferred")),
                                ("sessionKey", s(&key)),
                            ]),
                        ),
                    ])),
                ])
            }
            _ => Err(TransportError::Protocol(format!(
                "unsupported websocket fixture methods: {methods:?}"
            ))),
        }
    }
}

struct DownGateway;

impl ConformanceTransport for DownGateway {
    fn get_json(&self, _path: &str) -> Result<JsonValue, TransportError> {
        Err(TransportError::Http("connection refused".to_owned()))
    }

    fn post_json(&self, _path: &str, _body: &JsonValue) -> Result<(u16, JsonValue), TransportError> {
        Err(TransportError::Http("connection refused".to_owned()))
    }

    fn websocket_first_response(&self, _frame: &JsonValue) -> Result<JsonValue, TransportError> {
        Err(TransportError::Http("connection refused".to_owned()))
    }

    fn websocket_exchange(&self, _frames: &[JsonValue]) -> Result<Vec<JsonValue>, TransportError> {
        Err(TransportError::Http("connection refused".to_owned()))
    }
}

fn failing_names(report: &ConformanceReport) -> Vec<&str> {
    report
        .outcomes
        .iter()
        .filter(|outcome| !outcome.passed)
        .map(|outcome| outcome.name.as_str())
        .collect()
}

#[test]
fn runner_passes_every_scenario_against_a_conforming_gateway() {
    let report = ConformanceRunner::new(MockGateway::conforming()).run();
    assert_eq!(report.total, 17);
    assert_eq!(report.failed, 0, "failing: {:?}", report.outcomes);
    assert!(report.outcomes.iter().all(|outcome| outcome.passed));
    assert!(report.is_passing());
}

#[test]
fn runner_fails_only_the_version_scenario_for_another_version() {
    let gateway = MockGateway {
        broken: None,
        version: 9,
    };
    let report = ConformanceRunner::new(gateway).run();
    assert_eq!(report.total, 17);
    assert_eq!(report.failed, 1);
    let protocol_case = report
        .outcomes
        .iter()
        .find(|entry| entry.name == "info.protocol_version")
        .expect("protocol scenario should exist");
    assert!(!protocol_case.passed);
    assert_eq!(protocol_case.detail, "expected protocolVersion=3, found 9");
    assert!(!report.is_passing());
}

#[test]
fn breaking_one_fixture_fails_exactly_its_scenario() {
    for scenario in Scenario::all() {
        let name = scenario.name();
        let gateway = MockGateway {
            broken: Some(name),
            version: EXPECTED_PROTOCOL_VERSION,
        };
        let report = ConformanceRunner::new(gateway).run();
        assert_eq!(report.total, 17);
        assert_eq!(report.failed, 1, "breaking {name}");
        assert_eq!(failing_names(&report), vec![name]);
    }
}

#[test]
fn runner_reports_outcomes_in_catalog_order_with_unique_names() {
    let report = ConformanceRunner::new(MockGateway::conforming()).run();
    let names: Vec<&str> = report.outcomes.iter().map(|o| o.name.as_str()).collect();
    let expected: Vec<&str> = Scenario::all().iter().map(|s| s.name()).collect();
    assert_eq!(names, expected);
    for (i, a) in names.iter().enumerate() {
        for b in names.iter().skip(i + 1) {
            assert_ne!(a, b);
        }
    }
    let again = ConformanceRunner::new(MockGateway::conforming()).run();
    let again: Vec<&str> = again.outcomes.iter().map(|o| o.name.as_str()).collect();
    assert_eq!(names, again);
}

#[test]
fn transport_failures_fail_every_scenario_without_aborting_the_run() {
    let report = ConformanceRunner::new(DownGateway).run();
    assert_eq!(report.total, 17);
    assert_eq!(report.failed, 17);
    let health = &report.outcomes[0];
    assert_eq!(
        health.detail,
        "health endpoint request failed: http transport error: connection refused"
    );
    let last = &report.outcomes[16];
    assert_eq!(
        last.detail,
        "websocket exchange failed: http transport error: connection refused"
    );
}

#[test]
fn runner_checks_the_configured_protocol_version() {
    let gateway = MockGateway {
        broken: None,
        version: 9,
    };
    let report = ConformanceRunner::with_protocol_version(gateway, 9).run();
    assert_eq!(report.total, 17);
    assert_eq!(report.failed, 0);
}
