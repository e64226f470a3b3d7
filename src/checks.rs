use vstd::prelude::*;
use vstd::string::*;

use crate::json::{
    as_bool, as_items, as_u64, bool_of, check_array, check_null, check_object, contains_str, deref,
    field, get, has_str, is_array, is_null, is_object, items_of, show_text_at, show_value,
    shown_value, str_is, str_of, u64_of, JsonValue,
};
use crate::report::ConformanceOutcome;
use crate::scenario::Scenario;
use crate::text::{
    concat, debug_quoted, debug_text, decimal, decimal_string, show_bool, show_opt_bool,
    shown_bool, shown_opt_bool, shown_opt_text,
};
use crate::transport::TransportError;

verus! {

/// The `ok` flag of a reply.
pub open spec fn ok_flag(r: JsonValue) -> Option<bool> {
    bool_of(field(Some(r), "ok"@))
}

/// The member `key` of a reply's payload.
pub open spec fn payload_field(r: JsonValue, key: Seq<char>) -> Option<JsonValue> {
    field(field(Some(r), "payload"@), key)
}

/// The member `key` of the run result in a reply's payload.
pub open spec fn result_field(r: JsonValue, key: Seq<char>) -> Option<JsonValue> {
    field(field(field(Some(r), "payload"@), "result"@), key)
}

/// The error code of a reply.
pub open spec fn error_code(r: JsonValue) -> Option<Seq<char>> {
    str_of(field(field(Some(r), "error"@), "code"@))
}

/// The exchange completed with exactly `n` replies.
pub open spec fn answered(replies: Result<Vec<JsonValue>, TransportError>, n: nat) -> bool {
    replies is Ok && replies->Ok_0@.len() == n
}

fn ok_of(r: &JsonValue) -> (b: Option<bool>)
    ensures
        b == ok_flag(*r),
{
    as_bool(get(Some(r), "ok"))
}

fn payload_get<'a>(r: &'a JsonValue, key: &str) -> (v: Option<&'a JsonValue>)
    ensures
        deref(v) == payload_field(*r, key@),
{
    get(get(Some(r), "payload"), key)
}

fn result_get<'a>(r: &'a JsonValue, key: &str) -> (v: Option<&'a JsonValue>)
    ensures
        deref(v) == result_field(*r, key@),
{
    get(get(get(Some(r), "payload"), "result"), key)
}

fn error_code_get<'a>(r: &'a JsonValue) -> (v: Option<&'a JsonValue>)
    ensures
        str_of(deref(v)) == error_code(*r),
{
    get(get(Some(r), "error"), "code")
}

fn outcome(name: &str, passed: bool, detail: String) -> (r: ConformanceOutcome)
    ensures
        r.name@ == name@,
        r.passed == passed,
        r.detail@ == detail@,
{
    ConformanceOutcome { name: String::from_str(name), passed, detail }
}

/// Takes the replies of an exchange that should have given `n` of them, or
/// the failed outcome of `scenario` when it did not.
fn expect_replies<'a>(
    scenario: Scenario,
    n: usize,
    replies: &'a Result<Vec<JsonValue>, TransportError>,
) -> (r: Result<&'a Vec<JsonValue>, ConformanceOutcome>)
    ensures
        match r {
            Ok(v) => answered(*replies, n as nat) && *v == replies->Ok_0,
            Err(o) => {
                &&& !answered(*replies, n as nat)
                &&& o.name@ == scenario.spec_name()
                &&& !o.passed
                &&& replies is Err ==> o.detail@ == "websocket exchange failed: "@
                    + replies->Err_0.text()
                &&& replies is Ok ==> o.detail@ == "expected "@ + decimal(n as nat)
                    + " websocket responses, found "@ + decimal(replies->Ok_0@.len())
            },
        },
{
    match replies {
        Ok(v) => {
            if v.len() == n {
                Ok(v)
            } else {
                let mut d = concat("expected ", decimal_string(n as u128).as_str());
                d.append(" websocket responses, found ");
                d.append(decimal_string(v.len() as u128).as_str());
                Err(outcome(scenario.name(), false, d))
            }
        },
        Err(e) => {
            let d = concat("websocket exchange failed: ", e.to_string().as_str());
            Err(outcome(scenario.name(), false, d))
        },
    }
}

/// Whether a fetched payload carries `ok: true`.
pub open spec fn ok_true_holds(reply: Result<JsonValue, TransportError>) -> bool {
    reply is Ok && bool_of(field(Some(reply->Ok_0), "ok"@)) == Some(true)
}

/// Judges a liveness call (`healthz` or `readyz`): it passes when the payload
/// carries `ok: true`.
pub fn check_ok_true(scenario: Scenario, endpoint: &str, reply: &Result<JsonValue, TransportError>) -> (r:
    ConformanceOutcome)
    ensures
        r.name@ == scenario.spec_name(),
        r.passed == ok_true_holds(*reply),
        reply is Ok && !r.passed ==> r.detail@ == endpoint@
            + " endpoint did not return {\"ok\":true}, found ok="@ + shown_value(
            field(Some(reply->Ok_0), "ok"@),
        ),
        reply is Err ==> r.detail@ == endpoint@ + " endpoint request failed: "@
            + reply->Err_0.text(),
{
    match reply {
        Ok(payload) => {
            if ok_of(payload) == Some(true) {
                outcome(scenario.name(), true, concat(endpoint, " endpoint returned ok=true"))
            } else {
                let mut d = concat(endpoint, " endpoint did not return {\"ok\":true}, found ok=");
                d.append(show_value(get(Some(payload), "ok")).as_str());
                outcome(scenario.name(), false, d)
            }
        },
        Err(e) => {
            let mut d = concat(endpoint, " endpoint request failed: ");
            d.append(e.to_string().as_str());
            outcome(scenario.name(), false, d)
        },
    }
}

/// Judges the advertised protocol version against `expected`. A failure
/// shows whatever was found in its place.
pub fn check_protocol_version(expected: u64, reply: &Result<JsonValue, TransportError>) -> (r:
    ConformanceOutcome)
    ensures
        r.name@ == Scenario::InfoProtocolVersion.spec_name(),
        r.passed == (reply is Ok && u64_of(field(Some(reply->Ok_0), "protocolVersion"@)) == Some(
            expected,
        )),
        r.passed ==> r.detail@ == "protocolVersion="@ + decimal(expected as nat),
        reply is Ok && !r.passed ==> r.detail@ == "expected protocolVersion="@ + decimal(
            expected as nat,
        ) + ", found "@ + shown_value(field(Some(reply->Ok_0), "protocolVersion"@)),
        reply is Err ==> r.detail@ == "info endpoint request failed: "@ + reply->Err_0.text(),
{
    let name = Scenario::InfoProtocolVersion.name();
    match reply {
        Ok(payload) => {
            let found = get(Some(payload), "protocolVersion");
            if as_u64(found) == Some(expected) {
                outcome(
                    name,
                    true,
                    concat("protocolVersion=", decimal_string(expected as u128).as_str()),
                )
            } else {
                let mut d = concat(
                    "expected protocolVersion=",
                    decimal_string(expected as u128).as_str(),
                );
                d.append(", found ");
                d.append(show_value(found).as_str());
                outcome(name, false, d)
            }
        },
        Err(e) => outcome(name, false, concat("info endpoint request failed: ", e.to_string().as_str())),
    }
}

/// Whether the advertised method list names `health` and `status`.
pub open spec fn methods_hold(reply: Result<JsonValue, TransportError>) -> bool {
    &&& reply is Ok
    &&& has_str(items_of(field(Some(reply->Ok_0), "methods"@)), "health"@)
    &&& has_str(items_of(field(Some(reply->Ok_0), "methods"@)), "status"@)
}

/// None of `items` is a string.
pub open spec fn no_strings(items: Seq<JsonValue>) -> bool
    decreases items.len(),
{
    items.len() == 0 || (no_strings(items.drop_last()) && !(items.last() is Str))
}

/// The strings among `items`, each quoted, separated by commas.
pub open spec fn listed(items: Seq<JsonValue>) -> Seq<char>
    decreases items.len(),
{
    if items.len() == 0 {
        Seq::empty()
    } else {
        let rest = listed(items.drop_last());
        match items.last() {
            JsonValue::Str(t) => if no_strings(items.drop_last()) {
                debug_text(t@)
            } else {
                rest + ", "@ + debug_text(t@)
            },
            _ => rest,
        }
    }
}

/// Items without strings list as nothing.
proof fn lemma_no_strings_listed_empty(items: Seq<JsonValue>)
    requires
        no_strings(items),
    ensures
        listed(items) == Seq::<char>::empty(),
    decreases items.len(),
{
    if items.len() > 0 {
        lemma_no_strings_listed_empty(items.drop_last());
    }
}

/// The strings of an array as a bracketed list; an absent array shows empty.
pub open spec fn shown_strings(items: Option<Seq<JsonValue>>) -> Seq<char> {
    match items {
        Some(v) => "["@ + listed(v) + "]"@,
        None => "[]"@,
    }
}

fn show_strings(items: Option<&Vec<JsonValue>>) -> (r: String)
    ensures
        r@ == shown_strings(
            match items {
                Some(v) => Some(v@),
                None => None,
            },
        ),
{
    let mut s = String::from_str("[");
    match items {
        Some(values) => {
            let mut first = true;
            let mut i: usize = 0;
            assert(values@.subrange(0, 0) =~= Seq::<JsonValue>::empty());
            while i < values.len()
                invariant
                    items == Some(values),
                    i <= values@.len(),
                    s@ == "["@ + listed(values@.subrange(0, i as int)),
                    first == no_strings(values@.subrange(0, i as int)),
                decreases values@.len() - i,
            {
                let ghost prefix = values@.subrange(0, i as int + 1);
                assert(prefix.drop_last() == values@.subrange(0, i as int));
                assert(prefix.last() == values@[i as int]);
                let ghost before = s@;
                if let JsonValue::Str(t) = &values[i] {
                    assert(prefix.last() == JsonValue::Str(*t));
                    let q = debug_quoted(t.as_str());
                    if !first {
                        s.append(", ");
                        s.append(q.as_str());
                        assert(listed(prefix) == listed(prefix.drop_last()) + ", "@ + debug_text(t@));
                        assert(s@ =~= "["@ + listed(prefix));
                    } else {
                        proof {
                            lemma_no_strings_listed_empty(prefix.drop_last());
                        }
                        s.append(q.as_str());
                        assert(listed(prefix) == debug_text(t@));
                        assert(s@ =~= "["@ + listed(prefix));
                    }
                    first = false;
                }
                i = i + 1;
            }
            assert(values@.subrange(0, values@.len() as int) == values@);
        },
        None => {
            proof {
                reveal_strlit("[");
                reveal_strlit("]");
                reveal_strlit("[]");
                assert("["@ + "]"@ =~= "[]"@);
            }
        },
    }
    s.append("]");
    s
}

/// Judges the advertised method list.
pub fn check_methods(reply: &Result<JsonValue, TransportError>) -> (r: ConformanceOutcome)
    ensures
        r.name@ == Scenario::InfoMethodsIncludeHealthAndStatus.spec_name(),
        r.passed == methods_hold(*reply),
        reply is Ok && !r.passed ==> r.detail@
            == "expected info.methods to include health and status, found "@ + shown_strings(
            items_of(field(Some(reply->Ok_0), "methods"@)),
        ),
        reply is Err ==> r.detail@ == "info endpoint request failed: "@ + reply->Err_0.text(),
{
    let name = Scenario::InfoMethodsIncludeHealthAndStatus.name();
    match reply {
        Ok(payload) => {
            let methods = get(Some(payload), "methods");
            let has_health = contains_str(methods, "health");
            let has_status = contains_str(methods, "status");
            if has_health && has_status {
                outcome(name, true, String::from_str("info.methods includes health and status"))
            } else {
                let d = concat(
                    "expected info.methods to include health and status, found ",
                    show_strings(as_items(methods)).as_str(),
                );
                outcome(name, false, d)
            }
        },
        Err(e) => outcome(name, false, concat("info endpoint request failed: ", e.to_string().as_str())),
    }
}

/// Whether a submission to an unknown channel answered not found.
pub open spec fn not_found_holds(reply: Result<(u16, JsonValue), TransportError>) -> bool {
    &&& reply is Ok
    &&& reply->Ok_0.0 == 404
    &&& str_of(field(field(Some(reply->Ok_0.1), "error"@), "code"@)) == Some("NOT_FOUND"@)
}

/// Judges the reply to a submission to an unknown channel.
pub fn check_not_found(reply: &Result<(u16, JsonValue), TransportError>) -> (r: ConformanceOutcome)
    ensures
        r.name@ == Scenario::UnknownChannelWebhookNotFound.spec_name(),
        r.passed == not_found_holds(*reply),
        reply is Ok && !r.passed ==> r.detail@
            == "expected status=404 and error.code=NOT_FOUND, found status="@ + decimal(
            reply->Ok_0.0 as nat,
        ) + ", error.code="@ + shown_opt_text(error_code(reply->Ok_0.1)),
        reply is Err ==> r.detail@ == "unknown channel webhook request failed: "@
            + reply->Err_0.text(),
{
    let name = Scenario::UnknownChannelWebhookNotFound.name();
    match reply {
        Ok((status, body)) => {
            let code = error_code_get(body);
            if *status == 404 && str_is(code, "NOT_FOUND") {
                outcome(name, true, String::from_str("unknown channel webhook returns 404 NOT_FOUND"))
            } else {
                let mut d = concat(
                    "expected status=404 and error.code=NOT_FOUND, found status=",
                    decimal_string(*status as u128).as_str(),
                );
                d.append(", error.code=");
                d.append(show_text_at(code).as_str());
                outcome(name, false, d)
            }
        },
        Err(e) => outcome(
            name,
            false,
            concat("unknown channel webhook request failed: ", e.to_string().as_str()),
        ),
    }
}

/// Whether a session whose first frame was not `connect` was refused.
pub open spec fn handshake_refused(reply: Result<JsonValue, TransportError>) -> bool {
    &&& reply is Ok
    &&& ok_flag(reply->Ok_0) == Some(false)
    &&& error_code(reply->Ok_0) == Some("INVALID_REQUEST"@)
}

/// Judges the first reply of a session opened with a non-`connect` frame.
pub fn check_handshake(reply: &Result<JsonValue, TransportError>) -> (r: ConformanceOutcome)
    ensures
        r.name@ == Scenario::WsHandshakeRequiresConnectFirstFrame.spec_name(),
        r.passed == handshake_refused(*reply),
        reply is Ok && !r.passed ==> r.detail@
            == "expected ok=false and error.code=INVALID_REQUEST, found ok="@ + shown_bool(
            !(ok_flag(reply->Ok_0) == Some(false)),
        ) + ", error.code="@ + shown_opt_text(error_code(reply->Ok_0)),
        reply is Err ==> r.detail@ == "websocket handshake request failed: "@ + reply->Err_0.text(),
{
    let name = Scenario::WsHandshakeRequiresConnectFirstFrame.name();
    match reply {
        Ok(response) => {
            let ok = ok_of(response);
            let code = error_code_get(response);
            if ok == Some(false) && str_is(code, "INVALID_REQUEST") {
                outcome(name, true, String::from_str("ws handshake rejects non-connect first request"))
            } else {
                let mut d = concat(
                    "expected ok=false and error.code=INVALID_REQUEST, found ok=",
                    show_bool(!(ok == Some(false))).as_str(),
                );
                d.append(", error.code=");
                d.append(show_text_at(code).as_str());
                outcome(name, false, d)
            }
        },
        Err(e) => outcome(
            name,
            false,
            concat("websocket handshake request failed: ", e.to_string().as_str()),
        ),
    }
}

/// The detail of an exchange that failed or gave the wrong number of replies.
pub open spec fn unanswered_detail(replies: Result<Vec<JsonValue>, TransportError>, n: nat) -> Seq<
    char,
> {
    match replies {
        Ok(v) => "expected "@ + decimal(n) + " websocket responses, found "@ + decimal(v@.len()),
        Err(e) => "websocket exchange failed: "@ + e.text(),
    }
}

/// The session's `connect` was accepted.
pub open spec fn connected(v: Seq<JsonValue>) -> bool {
    ok_flag(v[0]) == Some(true)
}

/// A text member of a reply's payload.
pub open spec fn payload_text(r: JsonValue, key: Seq<char>) -> Option<Seq<char>> {
    str_of(payload_field(r, key))
}

/// A text member of the run result in a reply's payload.
pub open spec fn result_text(r: JsonValue, key: Seq<char>) -> Option<Seq<char>> {
    str_of(result_field(r, key))
}

/// A deferred `agent` run given `input` is queued, then completes with the
/// echo of its input and its session key.
pub open spec fn agent_deferred_holds(v: Seq<JsonValue>, input: Seq<char>, session_key: Seq<char>) -> bool {
    &&& connected(v)
    &&& payload_text(v[1], "summary"@) == Some("queued"@)
    &&& payload_text(v[2], "status"@) == Some("completed"@)
    &&& result_text(v[2], "output"@) == Some("Echo: "@ + input)
    &&& result_text(v[2], "sessionKey"@) == Some(session_key)
}

/// A deferred `chat.send` run given `message` is queued with no reply
/// message, then completes with the echo of its message and its session key.
pub open spec fn chat_deferred_holds(v: Seq<JsonValue>, message: Seq<char>, session_key: Seq<char>) -> bool {
    &&& connected(v)
    &&& payload_text(v[1], "status"@) == Some("queued"@)
    &&& is_null(payload_field(v[1], "message"@))
    &&& payload_text(v[2], "status"@) == Some("completed"@)
    &&& result_text(v[2], "output"@) == Some("Echo: "@ + message)
    &&& result_text(v[2], "sessionKey"@) == Some(session_key)
}

/// A queued run is cancelled by id, the acknowledgment names the run, and
/// its wait reports it aborted with no output and its session key.
/// `by_summary` tells whether the queuing acknowledgment names its state in
/// `summary` (`agent`) or in `status` (`chat.send`).
pub open spec fn abort_single_holds(
    v: Seq<JsonValue>,
    run_id: Seq<char>,
    session_key: Seq<char>,
    by_summary: bool,
) -> bool {
    &&& connected(v)
    &&& payload_text(v[1], if by_summary { "summary"@ } else { "status"@ }) == Some("queued"@)
    &&& bool_of(payload_field(v[2], "aborted"@)) == Some(true)
    &&& has_str(items_of(payload_field(v[2], "runIds"@)), run_id)
    &&& payload_text(v[3], "status"@) == Some("aborted"@)
    &&& is_null(result_field(v[3], "output"@))
    &&& result_text(v[3], "sessionKey"@) == Some(session_key)
}

/// Two queued runs are both cancelled by a cancel that names only their
/// session, and both waits report them aborted.
pub open spec fn abort_session_holds(
    v: Seq<JsonValue>,
    run_one: Seq<char>,
    run_two: Seq<char>,
    by_summary: bool,
) -> bool {
    let queued_key = if by_summary { "summary"@ } else { "status"@ };
    &&& connected(v)
    &&& payload_text(v[1], queued_key) == Some("queued"@)
    &&& payload_text(v[2], queued_key) == Some("queued"@)
    &&& bool_of(payload_field(v[3], "aborted"@)) == Some(true)
    &&& has_str(items_of(payload_field(v[3], "runIds"@)), run_one)
    &&& has_str(items_of(payload_field(v[3], "runIds"@)), run_two)
    &&& payload_text(v[4], "status"@) == Some("aborted"@)
    &&& payload_text(v[5], "status"@) == Some("aborted"@)
}

/// A wait on an unknown run reports `timeout` for that run.
pub open spec fn timeout_holds(v: Seq<JsonValue>, run_id: Seq<char>) -> bool {
    &&& connected(v)
    &&& payload_text(v[1], "status"@) == Some("timeout"@)
    &&& payload_text(v[1], "runId"@) == Some(run_id)
}

/// A cancel naming a run of another session is refused as invalid.
pub open spec fn mismatch_holds(v: Seq<JsonValue>) -> bool {
    &&& connected(v)
    &&& payload_text(v[1], "summary"@) == Some("queued"@)
    &&& ok_flag(v[2]) == Some(false)
    &&& error_code(v[2]) == Some("INVALID_REQUEST"@)
}

/// A cancel of a completed run aborts nothing but still names the run.
pub open spec fn completed_noop_holds(v: Seq<JsonValue>, run_id: Seq<char>) -> bool {
    &&& connected(v)
    &&& payload_text(v[1], "summary"@) == Some("queued"@)
    &&& payload_text(v[2], "status"@) == Some("completed"@)
    &&& bool_of(payload_field(v[3], "aborted"@)) == Some(false)
    &&& has_str(items_of(payload_field(v[3], "runIds"@)), run_id)
}

/// The `webchat` entry of a payload's `key` map.
pub open spec fn webchat_of(r: JsonValue, key: Seq<char>) -> Option<JsonValue> {
    field(payload_field(r, key), "webchat"@)
}

/// A status query shows the channel list, its order and labels, the
/// per-channel map, the per-account breakdown and the default accounts,
/// with `webchat` connected under its default account.
pub open spec fn status_views_hold(v: Seq<JsonValue>) -> bool {
    &&& connected(v)
    &&& is_array(payload_field(v[1], "channels"@))
    &&& is_array(payload_field(v[1], "channelOrder"@))
    &&& is_object(payload_field(v[1], "channelLabels"@))
    &&& is_object(payload_field(v[1], "channelsById"@))
    &&& is_object(payload_field(v[1], "channelAccounts"@))
    &&& is_object(payload_field(v[1], "channelDefaultAccountId"@))
    &&& str_of(webchat_of(v[1], "channelDefaultAccountId"@)) == Some("default"@)
    &&& bool_of(field(webchat_of(v[1], "channelsById"@), "connected"@)) == Some(true)
}

/// `entries` holds an account `ops` that is not connected.
pub open spec fn ops_logged_out(entries: Option<Seq<JsonValue>>) -> bool {
    entries is Some && exists|i: int|
        0 <= i < entries->0.len() && str_of(field(Some(entries->0[i]), "accountId"@)) == Some(
            "ops"@,
        ) && #[trigger] bool_of(field(Some(entries->0[i]), "connected"@)) == Some(false)
}

/// Logging out account `ops` is acknowledged, persists as that account's
/// own disconnected state, and leaves the channel connected.
pub open spec fn logout_holds(v: Seq<JsonValue>) -> bool {
    &&& connected(v)
    &&& bool_of(payload_field(v[1], "loggedOut"@)) == Some(true)
    &&& payload_text(v[1], "accountId"@) == Some("ops"@)
    &&& ops_logged_out(items_of(webchat_of(v[2], "channelAccounts"@)))
    &&& bool_of(field(webchat_of(v[2], "channelsById"@), "connected"@)) == Some(true)
}

fn webchat_get<'a>(r: &'a JsonValue, key: &str) -> (w: Option<&'a JsonValue>)
    ensures
        deref(w) == webchat_of(*r, key@),
{
    get(payload_get(r, key), "webchat")
}

fn has_ops_logged_out(entries: Option<&Vec<JsonValue>>) -> (r: bool)
    ensures
        r == ops_logged_out(
            match entries {
                Some(e) => Some(e@),
                None => None,
            },
        ),
{
    match entries {
        Some(e) => {
            let mut i: usize = 0;
            while i < e.len()
                invariant
                    entries == Some(e),
                    i <= e@.len(),
                    forall|j: int|
                        0 <= j < i ==> !(str_of(field(Some(e@[j]), "accountId"@)) == Some("ops"@)
                            && #[trigger] bool_of(field(Some(e@[j]), "connected"@)) == Some(
                            false,
                        )),
                decreases e@.len() - i,
            {
                let account = get(Some(&e[i]), "accountId");
                let on = as_bool(get(Some(&e[i]), "connected"));
                if str_is(account, "ops") && on == Some(false) {
                    assert(bool_of(field(Some(e@[i as int]), "connected"@)) == Some(false));
                    return true;
                }
                i = i + 1;
            }
            false
        },
        None => false,
    }
}

/// The detail of a failed `check_agent_deferred`, naming what was observed.
pub open spec fn check_agent_deferred_detail(v: Seq<JsonValue>) -> Seq<char> {
    "expected queued/completed deferred lifecycle, found summary="@ + shown_opt_text(payload_text(v[1], "summary"@))
        + ", status="@ + shown_opt_text(payload_text(v[2], "status"@))
        + ", output="@ + shown_opt_text(result_text(v[2], "output"@))
        + ", sessionKey="@ + shown_opt_text(result_text(v[2], "sessionKey"@))
}

/// Judges a deferred `agent` run and its wait.
pub fn check_agent_deferred(input: &str, session_key: &str, replies: &Result<Vec<JsonValue>, TransportError>) -> (r: ConformanceOutcome)
    ensures
        r.name@ == Scenario::WsAgentDeferredWaitCompletes.spec_name(),
        r.passed == (answered(*replies, 3) && agent_deferred_holds(replies->Ok_0@, input@, session_key@)),
        !answered(*replies, 3) ==> r.detail@ == unanswered_detail(*replies, 3),
        answered(*replies, 3) && !r.passed ==> r.detail@ == check_agent_deferred_detail(replies->Ok_0@),
{
    let s = Scenario::WsAgentDeferredWaitCompletes;
    let v = match expect_replies(s, 3, replies) {
        Ok(v) => v,
        Err(o) => {
            return o;
        },
    };
    let echo = concat("Echo: ", input);
    let connect_ok = ok_of(&v[0]) == Some(true);
    let summary = payload_get(&v[1], "summary");
    let status = payload_get(&v[2], "status");
    let output = result_get(&v[2], "output");
    let key = result_get(&v[2], "sessionKey");
    if connect_ok && str_is(summary, "queued") && str_is(status, "completed") && str_is(output, echo.as_str()) && str_is(key, session_key) {
        outcome(s.name(), true, String::from_str("deferred agent run transitions queued->completed via agent.wait"))
    } else {
        let mut d = String::from_str("expected queued/completed deferred lifecycle, found summary=");
        d.append(show_text_at(summary).as_str());
        d.append(", status=");
        d.append(show_text_at(status).as_str());
        d.append(", output=");
        d.append(show_text_at(output).as_str());
        d.append(", sessionKey=");
        d.append(show_text_at(key).as_str());
        outcome(s.name(), false, d)
    }
}

/// The detail of a failed `check_chat_deferred`, naming what was observed.
pub open spec fn check_chat_deferred_detail(v: Seq<JsonValue>) -> Seq<char> {
    "expected deferred chat.send lifecycle, found status="@ + shown_opt_text(payload_text(v[1], "status"@))
        + ", messageIsNull="@ + shown_bool(is_null(payload_field(v[1], "message"@)))
        + ", waitStatus="@ + shown_opt_text(payload_text(v[2], "status"@))
        + ", waitOutput="@ + shown_opt_text(result_text(v[2], "output"@))
        + ", sessionKey="@ + shown_opt_text(result_text(v[2], "sessionKey"@))
}

/// Judges a deferred `chat.send` run and its wait.
pub fn check_chat_deferred(message: &str, session_key: &str, replies: &Result<Vec<JsonValue>, TransportError>) -> (r: ConformanceOutcome)
    ensures
        r.name@ == Scenario::WsChatSendDeferredWaitCompletes.spec_name(),
        r.passed == (answered(*replies, 3) && chat_deferred_holds(replies->Ok_0@, message@, session_key@)),
        !answered(*replies, 3) ==> r.detail@ == unanswered_detail(*replies, 3),
        answered(*replies, 3) && !r.passed ==> r.detail@ == check_chat_deferred_detail(replies->Ok_0@),
{
    let s = Scenario::WsChatSendDeferredWaitCompletes;
    let v = match expect_replies(s, 3, replies) {
        Ok(v) => v,
        Err(o) => {
            return o;
        },
    };
    let echo = concat("Echo: ", message);
    let connect_ok = ok_of(&v[0]) == Some(true);
    let queued = payload_get(&v[1], "status");
    let message_null = check_null(payload_get(&v[1], "message"));
    let status = payload_get(&v[2], "status");
    let output = result_get(&v[2], "output");
    let key = result_get(&v[2], "sessionKey");
    if connect_ok && str_is(queued, "queued") && message_null && str_is(status, "completed") && str_is(output, echo.as_str()) && str_is(key, session_key) {
        outcome(s.name(), true, String::from_str("deferred chat.send run transitions queued->completed via agent.wait"))
    } else {
        let mut d = String::from_str("expected deferred chat.send lifecycle, found status=");
        d.append(show_text_at(queued).as_str());
        d.append(", messageIsNull=");
        d.append(show_bool(message_null).as_str());
        d.append(", waitStatus=");
        d.append(show_text_at(status).as_str());
        d.append(", waitOutput=");
        d.append(show_text_at(output).as_str());
        d.append(", sessionKey=");
        d.append(show_text_at(key).as_str());
        outcome(s.name(), false, d)
    }
}

/// The detail of a failed `check_abort_agent`, naming what was observed.
pub open spec fn check_abort_agent_detail(v: Seq<JsonValue>, run_id: Seq<char>) -> Seq<char> {
    "expected abort lifecycle, found summary="@ + shown_opt_text(payload_text(v[1], "summary"@))
        + ", aborted="@ + shown_bool(bool_of(payload_field(v[2], "aborted"@)) == Some(true))
        + ", status="@ + shown_opt_text(payload_text(v[3], "status"@))
        + ", sessionKey="@ + shown_opt_text(result_text(v[3], "sessionKey"@))
        + ", outputIsNull="@ + shown_bool(is_null(result_field(v[3], "output"@)))
        + ", runIdListed="@ + shown_bool(has_str(items_of(payload_field(v[2], "runIds"@)), run_id))
}

/// Judges the cancellation by id of a queued `agent` run.
pub fn check_abort_agent(run_id: &str, session_key: &str, replies: &Result<Vec<JsonValue>, TransportError>) -> (r: ConformanceOutcome)
    ensures
        r.name@ == Scenario::WsChatAbortCancelsDeferredRun.spec_name(),
        r.passed == (answered(*replies, 4) && abort_single_holds(replies->Ok_0@, run_id@, session_key@, true)),
        !answered(*replies, 4) ==> r.detail@ == unanswered_detail(*replies, 4),
        answered(*replies, 4) && !r.passed ==> r.detail@ == check_abort_agent_detail(replies->Ok_0@, run_id@),
{
    let s = Scenario::WsChatAbortCancelsDeferredRun;
    let v = match expect_replies(s, 4, replies) {
        Ok(v) => v,
        Err(o) => {
            return o;
        },
    };
    let connect_ok = ok_of(&v[0]) == Some(true);
    let queued = payload_get(&v[1], "summary");
    let aborted = as_bool(payload_get(&v[2], "aborted")) == Some(true);
    let listed = contains_str(payload_get(&v[2], "runIds"), run_id);
    let status = payload_get(&v[3], "status");
    let output_null = check_null(result_get(&v[3], "output"));
    let key = result_get(&v[3], "sessionKey");
    if connect_ok && str_is(queued, "queued") && aborted && listed && str_is(status, "aborted") && output_null && str_is(key, session_key) {
        outcome(s.name(), true, String::from_str("chat.abort cancels deferred run and agent.wait reports aborted"))
    } else {
        let mut d = String::from_str("expected abort lifecycle, found summary=");
        d.append(show_text_at(queued).as_str());
        d.append(", aborted=");
        d.append(show_bool(aborted).as_str());
        d.append(", status=");
        d.append(show_text_at(status).as_str());
        d.append(", sessionKey=");
        d.append(show_text_at(key).as_str());
        d.append(", outputIsNull=");
        d.append(show_bool(output_null).as_str());
        d.append(", runIdListed=");
        d.append(show_bool(listed).as_str());
        outcome(s.name(), false, d)
    }
}

/// The detail of a failed `check_abort_chat`, naming what was observed.
pub open spec fn check_abort_chat_detail(v: Seq<JsonValue>, run_id: Seq<char>) -> Seq<char> {
    "expected deferred chat.send abort lifecycle, found status="@ + shown_opt_text(payload_text(v[1], "status"@))
        + ", aborted="@ + shown_bool(bool_of(payload_field(v[2], "aborted"@)) == Some(true))
        + ", waitStatus="@ + shown_opt_text(payload_text(v[3], "status"@))
        + ", waitOutputIsNull="@ + shown_bool(is_null(result_field(v[3], "output"@)))
        + ", sessionKey="@ + shown_opt_text(result_text(v[3], "sessionKey"@))
        + ", runIdListed="@ + shown_bool(has_str(items_of(payload_field(v[2], "runIds"@)), run_id))
}

/// Judges the cancellation by id of a queued `chat.send` run.
pub fn check_abort_chat(run_id: &str, session_key: &str, replies: &Result<Vec<JsonValue>, TransportError>) -> (r: ConformanceOutcome)
    ensures
        r.name@ == Scenario::WsChatAbortCancelsDeferredChatSendRun.spec_name(),
        r.passed == (answered(*replies, 4) && abort_single_holds(replies->Ok_0@, run_id@, session_key@, false)),
        !answered(*replies, 4) ==> r.detail@ == unanswered_detail(*replies, 4),
        answered(*replies, 4) && !r.passed ==> r.detail@ == check_abort_chat_detail(replies->Ok_0@, run_id@),
{
    let s = Scenario::WsChatAbortCancelsDeferredChatSendRun;
    let v = match expect_replies(s, 4, replies) {
        Ok(v) => v,
        Err(o) => {
            return o;
        },
    };
    let connect_ok = ok_of(&v[0]) == Some(true);
    let queued = payload_get(&v[1], "status");
    let aborted = as_bool(payload_get(&v[2], "aborted")) == Some(true);
    let listed = contains_str(payload_get(&v[2], "runIds"), run_id);
    let status = payload_get(&v[3], "status");
    let output_null = check_null(result_get(&v[3], "output"));
    let key = result_get(&v[3], "sessionKey");
    if connect_ok && str_is(queued, "queued") && aborted && listed && str_is(status, "aborted") && output_null && str_is(key, session_key) {
        outcome(s.name(), true, String::from_str("chat.abort cancels deferred chat.send run and agent.wait reports aborted"))
    } else {
        let mut d = String::from_str("expected deferred chat.send abort lifecycle, found status=");
        d.append(show_text_at(queued).as_str());
        d.append(", aborted=");
        d.append(show_bool(aborted).as_str());
        d.append(", waitStatus=");
        d.append(show_text_at(status).as_str());
        d.append(", waitOutputIsNull=");
        d.append(show_bool(output_null).as_str());
        d.append(", sessionKey=");
        d.append(show_text_at(key).as_str());
        d.append(", runIdListed=");
        d.append(show_bool(listed).as_str());
        outcome(s.name(), false, d)
    }
}

/// The detail of a failed `check_abort_session_agent`, naming what was observed.
pub open spec fn check_abort_session_agent_detail(v: Seq<JsonValue>, run_one: Seq<char>, run_two: Seq<char>) -> Seq<char> {
    "expected session-wide abort lifecycle, found queuedOne="@ + shown_opt_text(payload_text(v[1], "summary"@))
        + ", queuedTwo="@ + shown_opt_text(payload_text(v[2], "summary"@))
        + ", aborted="@ + shown_bool(bool_of(payload_field(v[3], "aborted"@)) == Some(true))
        + ", hasRunOne="@ + shown_bool(has_str(items_of(payload_field(v[3], "runIds"@)), run_one))
        + ", hasRunTwo="@ + shown_bool(has_str(items_of(payload_field(v[3], "runIds"@)), run_two))
        + ", waitOne="@ + shown_opt_text(payload_text(v[4], "status"@))
        + ", waitTwo="@ + shown_opt_text(payload_text(v[5], "status"@))
}

/// Judges the cancellation of every queued `agent` run of a session.
pub fn check_abort_session_agent(run_one: &str, run_two: &str, replies: &Result<Vec<JsonValue>, TransportError>) -> (r: ConformanceOutcome)
    ensures
        r.name@ == Scenario::WsChatAbortSessionWideCancelsRuns.spec_name(),
        r.passed == (answered(*replies, 6) && abort_session_holds(replies->Ok_0@, run_one@, run_two@, true)),
        !answered(*replies, 6) ==> r.detail@ == unanswered_detail(*replies, 6),
        answered(*replies, 6) && !r.passed ==> r.detail@ == check_abort_session_agent_detail(replies->Ok_0@, run_one@, run_two@),
{
    let s = Scenario::WsChatAbortSessionWideCancelsRuns;
    let v = match expect_replies(s, 6, replies) {
        Ok(v) => v,
        Err(o) => {
            return o;
        },
    };
    let connect_ok = ok_of(&v[0]) == Some(true);
    let queued_one = payload_get(&v[1], "summary");
    let queued_two = payload_get(&v[2], "summary");
    let aborted = as_bool(payload_get(&v[3], "aborted")) == Some(true);
    let ids = payload_get(&v[3], "runIds");
    let has_one = contains_str(ids, run_one);
    let has_two = contains_str(ids, run_two);
    let wait_one = payload_get(&v[4], "status");
    let wait_two = payload_get(&v[5], "status");
    if connect_ok && str_is(queued_one, "queued") && str_is(queued_two, "queued") && aborted && has_one && has_two && str_is(wait_one, "aborted") && str_is(wait_two, "aborted") {
        outcome(s.name(), true, String::from_str("chat.abort without runId cancels all session deferred runs"))
    } else {
        let mut d = String::from_str("expected session-wide abort lifecycle, found queuedOne=");
        d.append(show_text_at(queued_one).as_str());
        d.append(", queuedTwo=");
        d.append(show_text_at(queued_two).as_str());
        d.append(", aborted=");
        d.append(show_bool(aborted).as_str());
        d.append(", hasRunOne=");
        d.append(show_bool(has_one).as_str());
        d.append(", hasRunTwo=");
        d.append(show_bool(has_two).as_str());
        d.append(", waitOne=");
        d.append(show_text_at(wait_one).as_str());
        d.append(", waitTwo=");
        d.append(show_text_at(wait_two).as_str());
        outcome(s.name(), false, d)
    }
}

/// The detail of a failed `check_abort_session_chat`, naming what was observed.
pub open spec fn check_abort_session_chat_detail(v: Seq<JsonValue>, run_one: Seq<char>, run_two: Seq<char>) -> Seq<char> {
    "expected session-wide deferred chat.send abort lifecycle, found queuedOne="@ + shown_opt_text(payload_text(v[1], "status"@))
        + ", queuedTwo="@ + shown_opt_text(payload_text(v[2], "status"@))
        + ", aborted="@ + shown_bool(bool_of(payload_field(v[3], "aborted"@)) == Some(true))
        + ", hasRunOne="@ + shown_bool(has_str(items_of(payload_field(v[3], "runIds"@)), run_one))
        + ", hasRunTwo="@ + shown_bool(has_str(items_of(payload_field(v[3], "runIds"@)), run_two))
        + ", waitOne="@ + shown_opt_text(payload_text(v[4], "status"@))
        + ", waitTwo="@ + shown_opt_text(payload_text(v[5], "status"@))
}

/// Judges the cancellation of every queued `chat.send` run of a session.
pub fn check_abort_session_chat(run_one: &str, run_two: &str, replies: &Result<Vec<JsonValue>, TransportError>) -> (r: ConformanceOutcome)
    ensures
        r.name@ == Scenario::WsChatAbortSessionWideCancelsDeferredChatSendRuns.spec_name(),
        r.passed == (answered(*replies, 6) && abort_session_holds(replies->Ok_0@, run_one@, run_two@, false)),
        !answered(*replies, 6) ==> r.detail@ == unanswered_detail(*replies, 6),
        answered(*replies, 6) && !r.passed ==> r.detail@ == check_abort_session_chat_detail(replies->Ok_0@, run_one@, run_two@),
{
    let s = Scenario::WsChatAbortSessionWideCancelsDeferredChatSendRuns;
    let v = match expect_replies(s, 6, replies) {
        Ok(v) => v,
        Err(o) => {
            return o;
        },
    };
    let connect_ok = ok_of(&v[0]) == Some(true);
    let queued_one = payload_get(&v[1], "status");
    let queued_two = payload_get(&v[2], "status");
    let aborted = as_bool(payload_get(&v[3], "aborted")) == Some(true);
    let ids = payload_get(&v[3], "runIds");
    let has_one = contains_str(ids, run_one);
    let has_two = contains_str(ids, run_two);
    let wait_one = payload_get(&v[4], "status");
    let wait_two = payload_get(&v[5], "status");
    if connect_ok && str_is(queued_one, "queued") && str_is(queued_two, "queued") && aborted && has_one && has_two && str_is(wait_one, "aborted") && str_is(wait_two, "aborted") {
        outcome(s.name(), true, String::from_str("chat.abort without runId cancels all session deferred chat.send runs"))
    } else {
        let mut d = String::from_str("expected session-wide deferred chat.send abort lifecycle, found queuedOne=");
        d.append(show_text_at(queued_one).as_str());
        d.append(", queuedTwo=");
        d.append(show_text_at(queued_two).as_str());
        d.append(", aborted=");
        d.append(show_bool(aborted).as_str());
        d.append(", hasRunOne=");
        d.append(show_bool(has_one).as_str());
        d.append(", hasRunTwo=");
        d.append(show_bool(has_two).as_str());
        d.append(", waitOne=");
        d.append(show_text_at(wait_one).as_str());
        d.append(", waitTwo=");
        d.append(show_text_at(wait_two).as_str());
        outcome(s.name(), false, d)
    }
}

/// The detail of a failed `check_timeout`, naming what was observed.
pub open spec fn check_timeout_detail(v: Seq<JsonValue>) -> Seq<char> {
    "expected timeout for unknown run, found status="@ + shown_opt_text(payload_text(v[1], "status"@))
        + ", runId="@ + shown_opt_text(payload_text(v[1], "runId"@))
}

/// Judges a wait on a run that was never created.
pub fn check_timeout(run_id: &str, replies: &Result<Vec<JsonValue>, TransportError>) -> (r: ConformanceOutcome)
    ensures
        r.name@ == Scenario::WsAgentWaitTimeoutForMissingRun.spec_name(),
        r.passed == (answered(*replies, 2) && timeout_holds(replies->Ok_0@, run_id@)),
        !answered(*replies, 2) ==> r.detail@ == unanswered_detail(*replies, 2),
        answered(*replies, 2) && !r.passed ==> r.detail@ == check_timeout_detail(replies->Ok_0@),
{
    let s = Scenario::WsAgentWaitTimeoutForMissingRun;
    let v = match expect_replies(s, 2, replies) {
        Ok(v) => v,
        Err(o) => {
            return o;
        },
    };
    let connect_ok = ok_of(&v[0]) == Some(true);
    let status = payload_get(&v[1], "status");
    let id = payload_get(&v[1], "runId");
    if connect_ok && str_is(status, "timeout") && str_is(id, run_id) {
        outcome(s.name(), true, String::from_str("agent.wait returns timeout for unknown run ids"))
    } else {
        let mut d = String::from_str("expected timeout for unknown run, found status=");
        d.append(show_text_at(status).as_str());
        d.append(", runId=");
        d.append(show_text_at(id).as_str());
        outcome(s.name(), false, d)
    }
}

/// The detail of a failed `check_mismatch`, naming what was observed.
pub open spec fn check_mismatch_detail(v: Seq<JsonValue>) -> Seq<char> {
    "expected INVALID_REQUEST on mismatched sessionKey, found queued="@ + shown_opt_text(payload_text(v[1], "summary"@))
        + ", ok="@ + shown_bool(!(ok_flag(v[2]) == Some(false)))
        + ", code="@ + shown_opt_text(error_code(v[2]))
}

/// Judges a cancel that names a run under another session.
pub fn check_mismatch(replies: &Result<Vec<JsonValue>, TransportError>) -> (r: ConformanceOutcome)
    ensures
        r.name@ == Scenario::WsChatAbortRejectsRunSessionMismatch.spec_name(),
        r.passed == (answered(*replies, 3) && mismatch_holds(replies->Ok_0@)),
        !answered(*replies, 3) ==> r.detail@ == unanswered_detail(*replies, 3),
        answered(*replies, 3) && !r.passed ==> r.detail@ == check_mismatch_detail(replies->Ok_0@),
{
    let s = Scenario::WsChatAbortRejectsRunSessionMismatch;
    let v = match expect_replies(s, 3, replies) {
        Ok(v) => v,
        Err(o) => {
            return o;
        },
    };
    let connect_ok = ok_of(&v[0]) == Some(true);
    let queued = payload_get(&v[1], "summary");
    let abort_ok = ok_of(&v[2]);
    let code = error_code_get(&v[2]);
    if connect_ok && str_is(queued, "queued") && abort_ok == Some(false) && str_is(code, "INVALID_REQUEST") {
        outcome(s.name(), true, String::from_str("chat.abort rejects runId when sessionKey does not match"))
    } else {
        let mut d = String::from_str("expected INVALID_REQUEST on mismatched sessionKey, found queued=");
        d.append(show_text_at(queued).as_str());
        d.append(", ok=");
        d.append(show_bool(!(abort_ok == Some(false))).as_str());
        d.append(", code=");
        d.append(show_text_at(code).as_str());
        outcome(s.name(), false, d)
    }
}

/// The detail of a failed `check_completed_noop`, naming what was observed.
pub open spec fn check_completed_noop_detail(v: Seq<JsonValue>, run_id: Seq<char>) -> Seq<char> {
    "expected completed-run abort no-op, found queued="@ + shown_opt_text(payload_text(v[1], "summary"@))
        + ", wait="@ + shown_opt_text(payload_text(v[2], "status"@))
        + ", aborted="@ + shown_bool(!(bool_of(payload_field(v[3], "aborted"@)) == Some(false)))
        + ", runIdPresent="@ + shown_bool(has_str(items_of(payload_field(v[3], "runIds"@)), run_id))
}

/// Judges a cancel of a run that already completed.
pub fn check_completed_noop(run_id: &str, replies: &Result<Vec<JsonValue>, TransportError>) -> (r: ConformanceOutcome)
    ensures
        r.name@ == Scenario::WsChatAbortCompletedRunNoop.spec_name(),
        r.passed == (answered(*replies, 4) && completed_noop_holds(replies->Ok_0@, run_id@)),
        !answered(*replies, 4) ==> r.detail@ == unanswered_detail(*replies, 4),
        answered(*replies, 4) && !r.passed ==> r.detail@ == check_completed_noop_detail(replies->Ok_0@, run_id@),
{
    let s = Scenario::WsChatAbortCompletedRunNoop;
    let v = match expect_replies(s, 4, replies) {
        Ok(v) => v,
        Err(o) => {
            return o;
        },
    };
    let connect_ok = ok_of(&v[0]) == Some(true);
    let queued = payload_get(&v[1], "summary");
    let status = payload_get(&v[2], "status");
    let aborted = as_bool(payload_get(&v[3], "aborted"));
    let present = contains_str(payload_get(&v[3], "runIds"), run_id);
    if connect_ok && str_is(queued, "queued") && str_is(status, "completed") && aborted == Some(false) && present {
        outcome(s.name(), true, String::from_str("chat.abort is a no-op for completed runs"))
    } else {
        let mut d = String::from_str("expected completed-run abort no-op, found queued=");
        d.append(show_text_at(queued).as_str());
        d.append(", wait=");
        d.append(show_text_at(status).as_str());
        d.append(", aborted=");
        d.append(show_bool(!(aborted == Some(false))).as_str());
        d.append(", runIdPresent=");
        d.append(show_bool(present).as_str());
        outcome(s.name(), false, d)
    }
}

/// The detail of a failed `check_status_views`, naming what was observed.
pub open spec fn check_status_views_detail(v: Seq<JsonValue>) -> Seq<char> {
    "expected channel account views, found channels="@ + shown_bool(is_array(payload_field(v[1], "channels"@)))
        + ", order="@ + shown_bool(is_array(payload_field(v[1], "channelOrder"@)))
        + ", labels="@ + shown_bool(is_object(payload_field(v[1], "channelLabels"@)))
        + ", byId="@ + shown_bool(is_object(payload_field(v[1], "channelsById"@)))
        + ", accounts="@ + shown_bool(is_object(payload_field(v[1], "channelAccounts"@)))
        + ", defaults="@ + shown_bool(is_object(payload_field(v[1], "channelDefaultAccountId"@)))
        + ", webchatDefault="@ + shown_opt_text(str_of(webchat_of(v[1], "channelDefaultAccountId"@)))
        + ", webchatConnected="@ + shown_opt_bool(bool_of(field(webchat_of(v[1], "channelsById"@), "connected"@)))
}

/// Judges the channel status views.
pub fn check_status_views(replies: &Result<Vec<JsonValue>, TransportError>) -> (r: ConformanceOutcome)
    ensures
        r.name@ == Scenario::WsChannelsStatusIncludesAccountViews.spec_name(),
        r.passed == (answered(*replies, 2) && status_views_hold(replies->Ok_0@)),
        !answered(*replies, 2) ==> r.detail@ == unanswered_detail(*replies, 2),
        answered(*replies, 2) && !r.passed ==> r.detail@ == check_status_views_detail(replies->Ok_0@),
{
    let s = Scenario::WsChannelsStatusIncludesAccountViews;
    let v = match expect_replies(s, 2, replies) {
        Ok(v) => v,
        Err(o) => {
            return o;
        },
    };
    let connect_ok = ok_of(&v[0]) == Some(true);
    let channels = check_array(payload_get(&v[1], "channels"));
    let order = check_array(payload_get(&v[1], "channelOrder"));
    let labels = check_object(payload_get(&v[1], "channelLabels"));
    let by_id = check_object(payload_get(&v[1], "channelsById"));
    let accounts = check_object(payload_get(&v[1], "channelAccounts"));
    let defaults = check_object(payload_get(&v[1], "channelDefaultAccountId"));
    let webchat_default = webchat_get(&v[1], "channelDefaultAccountId");
    let webchat_connected = as_bool(get(webchat_get(&v[1], "channelsById"), "connected"));
    if connect_ok && channels && order && labels && by_id && accounts && defaults && str_is(webchat_default, "default") && webchat_connected == Some(true) {
        outcome(s.name(), true, String::from_str("channels.status includes account-aware channel summary views"))
    } else {
        let mut d = String::from_str("expected channel account views, found channels=");
        d.append(show_bool(channels).as_str());
        d.append(", order=");
        d.append(show_bool(order).as_str());
        d.append(", labels=");
        d.append(show_bool(labels).as_str());
        d.append(", byId=");
        d.append(show_bool(by_id).as_str());
        d.append(", accounts=");
        d.append(show_bool(accounts).as_str());
        d.append(", defaults=");
        d.append(show_bool(defaults).as_str());
        d.append(", webchatDefault=");
        d.append(show_text_at(webchat_default).as_str());
        d.append(", webchatConnected=");
        d.append(show_opt_bool(webchat_connected).as_str());
        outcome(s.name(), false, d)
    }
}

/// The detail of a failed `check_logout`, naming what was observed.
pub open spec fn check_logout_detail(v: Seq<JsonValue>) -> Seq<char> {
    "expected account-aware logout persistence, found loggedOut="@ + shown_bool(bool_of(payload_field(v[1], "loggedOut"@)) == Some(true))
        + ", accountId="@ + shown_opt_text(payload_text(v[1], "accountId"@))
        + ", opsPersisted="@ + shown_bool(ops_logged_out(items_of(webchat_of(v[2], "channelAccounts"@))))
        + ", webchatConnected="@ + shown_opt_bool(bool_of(field(webchat_of(v[2], "channelsById"@), "connected"@)))
}

/// Judges the persistence of an account logout.
pub fn check_logout(replies: &Result<Vec<JsonValue>, TransportError>) -> (r: ConformanceOutcome)
    ensures
        r.name@ == Scenario::WsChannelsLogoutAccountPersists.spec_name(),
        r.passed == (answered(*replies, 3) && logout_holds(replies->Ok_0@)),
        !answered(*replies, 3) ==> r.detail@ == unanswered_detail(*replies, 3),
        answered(*replies, 3) && !r.passed ==> r.detail@ == check_logout_detail(replies->Ok_0@),
{
    let s = Scenario::WsChannelsLogoutAccountPersists;
    let v = match expect_replies(s, 3, replies) {
        Ok(v) => v,
        Err(o) => {
            return o;
        },
    };
    let connect_ok = ok_of(&v[0]) == Some(true);
    let logged_out = as_bool(payload_get(&v[1], "loggedOut")) == Some(true);
    let account = payload_get(&v[1], "accountId");
    let persisted = has_ops_logged_out(as_items(webchat_get(&v[2], "channelAccounts")));
    let webchat_connected = as_bool(get(webchat_get(&v[2], "channelsById"), "connected"));
    if connect_ok && logged_out && str_is(account, "ops") && persisted && webchat_connected == Some(true) {
        outcome(s.name(), true, String::from_str("channels.logout(accountId) persists account-specific disconnected state"))
    } else {
        let mut d = String::from_str("expected account-aware logout persistence, found loggedOut=");
        d.append(show_bool(logged_out).as_str());
        d.append(", accountId=");
        d.append(show_text_at(account).as_str());
        d.append(", opsPersisted=");
        d.append(show_bool(persisted).as_str());
        d.append(", webchatConnected=");
        d.append(show_opt_bool(webchat_connected).as_str());
        outcome(s.name(), false, d)
    }
}

} // verus!
