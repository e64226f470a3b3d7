use vstd::prelude::*;
use vstd::string::*;

use crate::text::concat;
use crate::json::{bool_of, field, is_null, items_of, lemma_member_at, member, str_of, u64_of, JsonValue};

verus! {

/// A string value.
pub fn text(s: &str) -> (r: JsonValue)
    ensures
        str_of(Some(r)) == Some(s@),
{
    JsonValue::Str(String::from_str(s))
}

/// An object member.
pub fn entry(key: &str, value: JsonValue) -> (r: (String, JsonValue))
    ensures
        r.0@ == key@,
        r.1 == value,
{
    (String::from_str(key), value)
}

/// `f` is a request frame with this id and method.
pub open spec fn is_request(f: JsonValue, id: Seq<char>, method: Seq<char>) -> bool {
    &&& str_of(field(Some(f), "type"@)) == Some("req"@)
    &&& str_of(field(Some(f), "id"@)) == Some(id)
    &&& str_of(field(Some(f), "method"@)) == Some(method)
}

/// The parameter `key` of a request frame.
pub open spec fn param(f: JsonValue, key: Seq<char>) -> Option<JsonValue> {
    field(field(Some(f), "params"@), key)
}

/// A request frame `{type: "req", id, method, params}`.
pub fn request(id: String, method: &str, params: JsonValue) -> (r: JsonValue)
    ensures
        is_request(r, id@, method@),
        field(Some(r), "params"@) == Some(params),
{
    let ghost idv = id@;
    let mut members: Vec<(String, JsonValue)> = Vec::new();
    members.push(entry("type", text("req")));
    members.push(id_entry(id));
    members.push(entry("method", text(method)));
    members.push(entry("params", params));
    proof {
        reveal_strlit("type");
        reveal_strlit("id");
        reveal_strlit("method");
        reveal_strlit("params");
        let m = members@;
        assert("type"@.len() == 4 && "id"@.len() == 2 && "method"@.len() == 6);
        assert("params"@[0] != "method"@[0]);
        assert(m[0].0@ != "id"@);
        assert(m[0].0@ != "method"@ && m[1].0@ != "method"@);
        assert(m[0].0@ != "params"@ && m[1].0@ != "params"@ && m[2].0@ != "params"@);
        lemma_member_at(m, 0, "type"@);
        lemma_member_at(m, 1, "id"@);
        lemma_member_at(m, 2, "method"@);
        lemma_member_at(m, 3, "params"@);
    }
    JsonValue::Object(members)
}

fn id_entry(id: String) -> (r: (String, JsonValue))
    ensures
        r.0@ == "id"@,
        str_of(Some(r.1)) == Some(id@),
{
    (String::from_str("id"), JsonValue::Str(id))
}

/// An empty object.
pub fn empty_object() -> (r: JsonValue)
    ensures
        r is Object && r->Object_0@.len() == 0,
{
    JsonValue::Object(Vec::new())
}

/// The member `key` of the client identity in a `connect` request.
pub open spec fn client_text(f: JsonValue, key: Seq<char>) -> Option<Seq<char>> {
    str_of(field(param(f, "client"@), key))
}

/// `f` is the `connect` request with id `id`: protocol versions 1 to 3, the
/// conformance client identity, the operator role, no scopes and no token.
pub open spec fn is_connect(f: JsonValue, id: Seq<char>) -> bool {
    &&& is_request(f, id, "connect"@)
    &&& u64_of(param(f, "minProtocol"@)) == Some(1u64)
    &&& u64_of(param(f, "maxProtocol"@)) == Some(3u64)
    &&& client_text(f, "id"@) == Some("reclaw-conformance"@)
    &&& client_text(f, "displayName"@) == Some("Reclaw Conformance"@)
    &&& client_text(f, "version"@) == Some("0.1.0"@)
    &&& client_text(f, "platform"@) == Some("conformance"@)
    &&& client_text(f, "mode"@) == Some("cli"@)
    &&& str_of(param(f, "role"@)) == Some("operator"@)
    &&& items_of(param(f, "scopes"@)) == Some(Seq::<JsonValue>::empty())
    &&& is_null(field(param(f, "auth"@), "token"@))
}

/// The session-opening `connect` request.
pub fn connect_frame(id: String) -> (r: JsonValue)
    ensures
        is_connect(r, id@),
{
    let mut client: Vec<(String, JsonValue)> = Vec::new();
    client.push(entry("id", text("reclaw-conformance")));
    client.push(entry("displayName", text("Reclaw Conformance")));
    client.push(entry("version", text("0.1.0")));
    client.push(entry("platform", text("conformance")));
    client.push(entry("mode", text("cli")));
    let mut auth: Vec<(String, JsonValue)> = Vec::new();
    auth.push(entry("token", JsonValue::Null));
    let mut params: Vec<(String, JsonValue)> = Vec::new();
    params.push(entry("minProtocol", JsonValue::UInt(1)));
    params.push(entry("maxProtocol", JsonValue::UInt(3)));
    params.push(entry("client", JsonValue::Object(client)));
    params.push(entry("role", text("operator")));
    params.push(entry("scopes", JsonValue::Array(Vec::new())));
    params.push(entry("auth", JsonValue::Object(auth)));
    proof {
        reveal_strlit("minProtocol");
        reveal_strlit("maxProtocol");
        reveal_strlit("client");
        reveal_strlit("role");
        reveal_strlit("scopes");
        reveal_strlit("auth");
        reveal_strlit("id");
        reveal_strlit("displayName");
        reveal_strlit("version");
        reveal_strlit("platform");
        reveal_strlit("mode");
        reveal_strlit("token");
        let m = params@;
        assert("minProtocol"@.len() == 11 && "client"@.len() == 6 && "role"@.len() == 4);
        assert("minProtocol"@[1] != "maxProtocol"@[1]);
        assert("scopes"@[0] != "client"@[0] && "auth"@[0] != "role"@[0]);
        lemma_member_at(m, 0, "minProtocol"@);
        lemma_member_at(m, 1, "maxProtocol"@);
        lemma_member_at(m, 2, "client"@);
        lemma_member_at(m, 3, "role"@);
        lemma_member_at(m, 4, "scopes"@);
        lemma_member_at(m, 5, "auth"@);
        let c = m[2].1->Object_0@;
        assert("id"@.len() == 2 && "displayName"@.len() == 11 && "version"@.len() == 7);
        assert("platform"@.len() == 8 && "mode"@.len() == 4);
        lemma_member_at(c, 0, "id"@);
        lemma_member_at(c, 1, "displayName"@);
        lemma_member_at(c, 2, "version"@);
        lemma_member_at(c, 3, "platform"@);
        lemma_member_at(c, 4, "mode"@);
        lemma_member_at(m[5].1->Object_0@, 0, "token"@);
        assert(m[4].1->Array_0@ =~= Seq::<JsonValue>::empty());
    }
    request(id, "connect", JsonValue::Object(params))
}

/// A deferred `agent` request creating run `run_id` in `session_key`.
pub fn agent_frame(id: String, run_id: &str, session_key: &str, input: &str) -> (r: JsonValue)
    ensures
        is_request(r, id@, "agent"@),
        str_of(param(r, "runId"@)) == Some(run_id@),
        str_of(param(r, "sessionKey"@)) == Some(session_key@),
        str_of(param(r, "agentId"@)) == Some("main"@),
        str_of(param(r, "input"@)) == Some(input@),
        bool_of(param(r, "deferred"@)) == Some(true),
{
    let mut params: Vec<(String, JsonValue)> = Vec::new();
    params.push(entry("runId", text(run_id)));
    params.push(entry("sessionKey", text(session_key)));
    params.push(entry("agentId", text("main")));
    params.push(entry("input", text(input)));
    params.push(entry("deferred", JsonValue::Bool(true)));
    proof {
        reveal_strlit("runId");
        reveal_strlit("sessionKey");
        reveal_strlit("agentId");
        reveal_strlit("input");
        reveal_strlit("deferred");
        let m = params@;
        assert("runId"@.len() == 5 && "sessionKey"@.len() == 10 && "agentId"@.len() == 7);
        assert("input"@.len() == 5 && "deferred"@.len() == 8);
        assert("runId"@[0] != "input"@[0]);
        lemma_member_at(m, 0, "runId"@);
        lemma_member_at(m, 1, "sessionKey"@);
        lemma_member_at(m, 2, "agentId"@);
        lemma_member_at(m, 3, "input"@);
        lemma_member_at(m, 4, "deferred"@);
    }
    request(id, "agent", JsonValue::Object(params))
}

/// A deferred `chat.send` request whose run is keyed by `idempotency_key`.
pub fn chat_send_frame(id: String, session_key: &str, message: &str, idempotency_key: &str) -> (r:
    JsonValue)
    ensures
        is_request(r, id@, "chat.send"@),
        str_of(param(r, "sessionKey"@)) == Some(session_key@),
        str_of(param(r, "message"@)) == Some(message@),
        str_of(param(r, "idempotencyKey"@)) == Some(idempotency_key@),
        bool_of(param(r, "deferred"@)) == Some(true),
{
    let mut params: Vec<(String, JsonValue)> = Vec::new();
    params.push(entry("sessionKey", text(session_key)));
    params.push(entry("message", text(message)));
    params.push(entry("idempotencyKey", text(idempotency_key)));
    params.push(entry("deferred", JsonValue::Bool(true)));
    proof {
        reveal_strlit("sessionKey");
        reveal_strlit("message");
        reveal_strlit("idempotencyKey");
        reveal_strlit("deferred");
        let m = params@;
        assert("sessionKey"@.len() == 10 && "message"@.len() == 7);
        assert("idempotencyKey"@.len() == 14 && "deferred"@.len() == 8);
        lemma_member_at(m, 0, "sessionKey"@);
        lemma_member_at(m, 1, "message"@);
        lemma_member_at(m, 2, "idempotencyKey"@);
        lemma_member_at(m, 3, "deferred"@);
    }
    request(id, "chat.send", JsonValue::Object(params))
}

/// An `agent.wait` request for run `run_id` with a deadline in milliseconds.
pub fn wait_frame(id: String, run_id: &str, timeout_ms: u64) -> (r: JsonValue)
    ensures
        is_request(r, id@, "agent.wait"@),
        str_of(param(r, "runId"@)) == Some(run_id@),
        u64_of(param(r, "timeoutMs"@)) == Some(timeout_ms),
{
    let mut params: Vec<(String, JsonValue)> = Vec::new();
    params.push(entry("runId", text(run_id)));
    params.push(entry("timeoutMs", JsonValue::UInt(timeout_ms)));
    proof {
        reveal_strlit("runId");
        reveal_strlit("timeoutMs");
        let m = params@;
        assert("runId"@.len() == 5 && "timeoutMs"@.len() == 9);
        lemma_member_at(m, 0, "runId"@);
        lemma_member_at(m, 1, "timeoutMs"@);
    }
    request(id, "agent.wait", JsonValue::Object(params))
}

/// A `chat.abort` request: for one run when `run_id` is given, else for
/// every run of the session.
pub fn abort_frame(id: String, run_id: Option<&str>, session_key: &str) -> (r: JsonValue)
    ensures
        is_request(r, id@, "chat.abort"@),
        str_of(param(r, "sessionKey"@)) == Some(session_key@),
        match run_id {
            Some(k) => str_of(param(r, "runId"@)) == Some(k@),
            None => param(r, "runId"@) is None,
        },
{
    let mut params: Vec<(String, JsonValue)> = Vec::new();
    proof {
        reveal_strlit("runId");
        reveal_strlit("sessionKey");
        assert("runId"@.len() == 5 && "sessionKey"@.len() == 10);
    }
    match run_id {
        Some(k) => {
            params.push(entry("runId", text(k)));
            params.push(entry("sessionKey", text(session_key)));
            proof {
                lemma_member_at(params@, 0, "runId"@);
                lemma_member_at(params@, 1, "sessionKey"@);
            }
        },
        None => {
            params.push(entry("sessionKey", text(session_key)));
            proof {
                lemma_member_at(params@, 0, "sessionKey"@);
                reveal_with_fuel(member, 2);
                assert(params@.drop_first().len() == 0);
            }
        },
    }
    request(id, "chat.abort", JsonValue::Object(params))
}

/// A `channels.status` request.
pub fn status_frame(id: String) -> (r: JsonValue)
    ensures
        is_request(r, id@, "channels.status"@),
        field(Some(r), "params"@) is Some && field(Some(r), "params"@)->0 is Object,
        field(Some(r), "params"@)->0->Object_0@.len() == 0,
{
    request(id, "channels.status", empty_object())
}

/// A `channels.logout` request for one account of a channel.
pub fn logout_frame(id: String, channel: &str, account_id: &str) -> (r: JsonValue)
    ensures
        is_request(r, id@, "channels.logout"@),
        str_of(param(r, "channel"@)) == Some(channel@),
        str_of(param(r, "accountId"@)) == Some(account_id@),
{
    let mut params: Vec<(String, JsonValue)> = Vec::new();
    params.push(entry("channel", text(channel)));
    params.push(entry("accountId", text(account_id)));
    proof {
        reveal_strlit("channel");
        reveal_strlit("accountId");
        assert("channel"@.len() == 7 && "accountId"@.len() == 9);
        lemma_member_at(params@, 0, "channel"@);
        lemma_member_at(params@, 1, "accountId"@);
    }
    request(id, "channels.logout", JsonValue::Object(params))
}

/// `f` opens a session under the id `<base>-connect`.
pub open spec fn opens_session(f: JsonValue, base: Seq<char>) -> bool {
    is_connect(f, base + "-connect"@)
}

/// `f` creates the deferred `agent` run `run` of agent `main` in `session`,
/// with `input`.
pub open spec fn creates_agent_run(
    f: JsonValue,
    id: Seq<char>,
    run: Seq<char>,
    session: Seq<char>,
    input: Seq<char>,
) -> bool {
    &&& is_request(f, id, "agent"@)
    &&& str_of(param(f, "runId"@)) == Some(run)
    &&& str_of(param(f, "sessionKey"@)) == Some(session)
    &&& str_of(param(f, "agentId"@)) == Some("main"@)
    &&& str_of(param(f, "input"@)) == Some(input)
    &&& bool_of(param(f, "deferred"@)) == Some(true)
}

/// `f` creates the deferred `chat.send` run keyed `run` in `session`, with
/// `message`.
pub open spec fn creates_chat_run(
    f: JsonValue,
    id: Seq<char>,
    run: Seq<char>,
    session: Seq<char>,
    message: Seq<char>,
) -> bool {
    &&& is_request(f, id, "chat.send"@)
    &&& str_of(param(f, "idempotencyKey"@)) == Some(run)
    &&& str_of(param(f, "sessionKey"@)) == Some(session)
    &&& str_of(param(f, "message"@)) == Some(message)
    &&& bool_of(param(f, "deferred"@)) == Some(true)
}

/// `f` waits for run `run` for at most `timeout_ms` milliseconds.
pub open spec fn waits_for(f: JsonValue, id: Seq<char>, run: Seq<char>, timeout_ms: u64) -> bool {
    &&& is_request(f, id, "agent.wait"@)
    &&& str_of(param(f, "runId"@)) == Some(run)
    &&& u64_of(param(f, "timeoutMs"@)) == Some(timeout_ms)
}

/// `f` cancels run `run` of `session`.
pub open spec fn cancels_run(f: JsonValue, id: Seq<char>, run: Seq<char>, session: Seq<char>) -> bool {
    &&& is_request(f, id, "chat.abort"@)
    &&& str_of(param(f, "runId"@)) == Some(run)
    &&& str_of(param(f, "sessionKey"@)) == Some(session)
}

/// `f` cancels every run of `session`.
pub open spec fn cancels_session(f: JsonValue, id: Seq<char>, session: Seq<char>) -> bool {
    &&& is_request(f, id, "chat.abort"@)
    &&& param(f, "runId"@) is None
    &&& str_of(param(f, "sessionKey"@)) == Some(session)
}

/// `<base><suffix>`, the id of one frame of a scenario.
fn frame_id(base: &str, suffix: &str) -> (r: String)
    ensures
        r@ == base@ + suffix@,
{
    concat(base, suffix)
}

/// The session key that the scenarios give to the runs of `base`.
pub open spec fn session_of(base: Seq<char>) -> Seq<char> {
    "agent:main:"@ + base
}

pub fn session_key_for(base: &str) -> (r: String)
    ensures
        r@ == session_of(base@),
{
    concat("agent:main:", base)
}

/// The deadline that waits on existing runs carry, in milliseconds.
pub const RUN_WAIT_MS: u64 = 2000;

/// The deadline that the wait on an unknown run carries, in milliseconds.
pub const MISSING_RUN_WAIT_MS: u64 = 50;

/// Connect, create a deferred `agent` run with `input`, wait for it.
pub open spec fn agent_deferred_set(f: Seq<JsonValue>, run: Seq<char>, input: Seq<char>) -> bool {
    &&& f.len() == 3
    &&& opens_session(f[0], run)
    &&& creates_agent_run(f[1], run + "-agent"@, run, session_of(run), input)
    &&& waits_for(f[2], run + "-wait"@, run, RUN_WAIT_MS)
}

pub fn agent_deferred_frames(run: &str, input: &str) -> (r: Vec<JsonValue>)
    ensures
        agent_deferred_set(r@, run@, input@),
{
    let key = session_key_for(run);
    let mut v: Vec<JsonValue> = Vec::new();
    v.push(connect_frame(frame_id(run, "-connect")));
    v.push(agent_frame(frame_id(run, "-agent"), run, key.as_str(), input));
    v.push(wait_frame(frame_id(run, "-wait"), run, RUN_WAIT_MS));
    v
}

/// Connect, create a deferred `chat.send` run with `message`, wait for it.
pub open spec fn chat_deferred_set(f: Seq<JsonValue>, run: Seq<char>, message: Seq<char>) -> bool {
    &&& f.len() == 3
    &&& opens_session(f[0], run)
    &&& creates_chat_run(f[1], run + "-chat-send"@, run, session_of(run), message)
    &&& waits_for(f[2], run + "-wait"@, run, RUN_WAIT_MS)
}

pub fn chat_deferred_frames(run: &str, message: &str) -> (r: Vec<JsonValue>)
    ensures
        chat_deferred_set(r@, run@, message@),
{
    let key = session_key_for(run);
    let mut v: Vec<JsonValue> = Vec::new();
    v.push(connect_frame(frame_id(run, "-connect")));
    v.push(chat_send_frame(frame_id(run, "-chat-send"), key.as_str(), message, run));
    v.push(wait_frame(frame_id(run, "-wait"), run, RUN_WAIT_MS));
    v
}

/// Connect, create a deferred `agent` run, cancel it by id, wait for it.
pub open spec fn abort_agent_set(f: Seq<JsonValue>, run: Seq<char>) -> bool {
    &&& f.len() == 4
    &&& opens_session(f[0], run)
    &&& creates_agent_run(f[1], run + "-agent"@, run, session_of(run), "conformance abort"@)
    &&& cancels_run(f[2], run + "-abort"@, run, session_of(run))
    &&& waits_for(f[3], run + "-wait"@, run, RUN_WAIT_MS)
}

pub fn abort_agent_frames(run: &str) -> (r: Vec<JsonValue>)
    ensures
        abort_agent_set(r@, run@),
{
    let key = session_key_for(run);
    let mut v: Vec<JsonValue> = Vec::new();
    v.push(connect_frame(frame_id(run, "-connect")));
    v.push(agent_frame(frame_id(run, "-agent"), run, key.as_str(), "conformance abort"));
    v.push(abort_frame(frame_id(run, "-abort"), Some(run), key.as_str()));
    v.push(wait_frame(frame_id(run, "-wait"), run, RUN_WAIT_MS));
    v
}

/// Connect, create a deferred `chat.send` run, cancel it by id, wait for it.
pub open spec fn abort_chat_set(f: Seq<JsonValue>, run: Seq<char>) -> bool {
    &&& f.len() == 4
    &&& opens_session(f[0], run)
    &&& creates_chat_run(
        f[1],
        run + "-chat-send"@,
        run,
        session_of(run),
        "conformance deferred chat abort"@,
    )
    &&& cancels_run(f[2], run + "-abort"@, run, session_of(run))
    &&& waits_for(f[3], run + "-wait"@, run, RUN_WAIT_MS)
}

pub fn abort_chat_frames(run: &str) -> (r: Vec<JsonValue>)
    ensures
        abort_chat_set(r@, run@),
{
    let key = session_key_for(run);
    let mut v: Vec<JsonValue> = Vec::new();
    v.push(connect_frame(frame_id(run, "-connect")));
    v.push(
        chat_send_frame(
            frame_id(run, "-chat-send"),
            key.as_str(),
            "conformance deferred chat abort",
            run,
        ),
    );
    v.push(abort_frame(frame_id(run, "-abort"), Some(run), key.as_str()));
    v.push(wait_frame(frame_id(run, "-wait"), run, RUN_WAIT_MS));
    v
}

/// The run ids `<base>-one` and `<base>-two` of a session-wide scenario.
pub fn run_pair(base: &str) -> (r: (String, String))
    ensures
        r.0@ == base@ + "-one"@,
        r.1@ == base@ + "-two"@,
{
    (concat(base, "-one"), concat(base, "-two"))
}

/// Connect, create the deferred `agent` runs `<base>-one` and `<base>-two`
/// in one session, cancel the session, wait for each run.
pub open spec fn abort_all_agent_set(f: Seq<JsonValue>, base: Seq<char>) -> bool {
    &&& f.len() == 6
    &&& opens_session(f[0], base)
    &&& creates_agent_run(f[1], base + "-agent-1"@, base + "-one"@, session_of(base), "abort all one"@)
    &&& creates_agent_run(f[2], base + "-agent-2"@, base + "-two"@, session_of(base), "abort all two"@)
    &&& cancels_session(f[3], base + "-abort"@, session_of(base))
    &&& waits_for(f[4], base + "-wait-1"@, base + "-one"@, RUN_WAIT_MS)
    &&& waits_for(f[5], base + "-wait-2"@, base + "-two"@, RUN_WAIT_MS)
}

pub fn abort_all_agent_frames(base: &str) -> (r: Vec<JsonValue>)
    ensures
        abort_all_agent_set(r@, base@),
{
    let key = session_key_for(base);
    let (one, two) = run_pair(base);
    let mut v: Vec<JsonValue> = Vec::new();
    v.push(connect_frame(frame_id(base, "-connect")));
    v.push(agent_frame(frame_id(base, "-agent-1"), one.as_str(), key.as_str(), "abort all one"));
    v.push(agent_frame(frame_id(base, "-agent-2"), two.as_str(), key.as_str(), "abort all two"));
    v.push(abort_frame(frame_id(base, "-abort"), None, key.as_str()));
    v.push(wait_frame(frame_id(base, "-wait-1"), one.as_str(), RUN_WAIT_MS));
    v.push(wait_frame(frame_id(base, "-wait-2"), two.as_str(), RUN_WAIT_MS));
    v
}

/// Connect, create the deferred `chat.send` runs `<base>-one` and
/// `<base>-two` in one session, cancel the session, wait for each run.
pub open spec fn abort_all_chat_set(f: Seq<JsonValue>, base: Seq<char>) -> bool {
    &&& f.len() == 6
    &&& opens_session(f[0], base)
    &&& creates_chat_run(
        f[1],
        base + "-chat-send-1"@,
        base + "-one"@,
        session_of(base),
        "abort all chat one"@,
    )
    &&& creates_chat_run(
        f[2],
        base + "-chat-send-2"@,
        base + "-two"@,
        session_of(base),
        "abort all chat two"@,
    )
    &&& cancels_session(f[3], base + "-abort"@, session_of(base))
    &&& waits_for(f[4], base + "-wait-1"@, base + "-one"@, RUN_WAIT_MS)
    &&& waits_for(f[5], base + "-wait-2"@, base + "-two"@, RUN_WAIT_MS)
}

pub fn abort_all_chat_frames(base: &str) -> (r: Vec<JsonValue>)
    ensures
        abort_all_chat_set(r@, base@),
{
    let key = session_key_for(base);
    let (one, two) = run_pair(base);
    let mut v: Vec<JsonValue> = Vec::new();
    v.push(connect_frame(frame_id(base, "-connect")));
    v.push(
        chat_send_frame(
            frame_id(base, "-chat-send-1"),
            key.as_str(),
            "abort all chat one",
            one.as_str(),
        ),
    );
    v.push(
        chat_send_frame(
            frame_id(base, "-chat-send-2"),
            key.as_str(),
            "abort all chat two",
            two.as_str(),
        ),
    );
    v.push(abort_frame(frame_id(base, "-abort"), None, key.as_str()));
    v.push(wait_frame(frame_id(base, "-wait-1"), one.as_str(), RUN_WAIT_MS));
    v.push(wait_frame(frame_id(base, "-wait-2"), two.as_str(), RUN_WAIT_MS));
    v
}

/// Connect, then wait briefly for a run that was never created.
pub open spec fn missing_run_set(f: Seq<JsonValue>, run: Seq<char>) -> bool {
    &&& f.len() == 2
    &&& opens_session(f[0], run)
    &&& waits_for(f[1], run + "-wait"@, run, MISSING_RUN_WAIT_MS)
}

pub fn missing_run_frames(run: &str) -> (r: Vec<JsonValue>)
    ensures
        missing_run_set(r@, run@),
{
    let mut v: Vec<JsonValue> = Vec::new();
    v.push(connect_frame(frame_id(run, "-connect")));
    v.push(wait_frame(frame_id(run, "-wait"), run, MISSING_RUN_WAIT_MS));
    v
}

/// The session key that the mismatch scenario names instead of the run's own.
pub open spec fn other_session_of(base: Seq<char>) -> Seq<char> {
    session_of(base) + "-other"@
}

/// Connect, create a deferred `agent` run, cancel it under another session.
pub open spec fn mismatch_set(f: Seq<JsonValue>, run: Seq<char>) -> bool {
    &&& f.len() == 3
    &&& opens_session(f[0], run)
    &&& creates_agent_run(f[1], run + "-agent"@, run, session_of(run), "session mismatch"@)
    &&& cancels_run(f[2], run + "-abort"@, run, other_session_of(run))
}

pub fn mismatch_frames(run: &str) -> (r: Vec<JsonValue>)
    ensures
        mismatch_set(r@, run@),
{
    let key = session_key_for(run);
    let other = concat(key.as_str(), "-other");
    let mut v: Vec<JsonValue> = Vec::new();
    v.push(connect_frame(frame_id(run, "-connect")));
    v.push(agent_frame(frame_id(run, "-agent"), run, key.as_str(), "session mismatch"));
    v.push(abort_frame(frame_id(run, "-abort"), Some(run), other.as_str()));
    v
}

/// Connect, create a deferred `agent` run, wait for it, then cancel it.
pub open spec fn completed_abort_set(f: Seq<JsonValue>, run: Seq<char>) -> bool {
    &&& f.len() == 4
    &&& opens_session(f[0], run)
    &&& creates_agent_run(f[1], run + "-agent"@, run, session_of(run), "complete then abort"@)
    &&& waits_for(f[2], run + "-wait"@, run, RUN_WAIT_MS)
    &&& cancels_run(f[3], run + "-abort"@, run, session_of(run))
}

pub fn completed_abort_frames(run: &str) -> (r: Vec<JsonValue>)
    ensures
        completed_abort_set(r@, run@),
{
    let key = session_key_for(run);
    let mut v: Vec<JsonValue> = Vec::new();
    v.push(connect_frame(frame_id(run, "-connect")));
    v.push(agent_frame(frame_id(run, "-agent"), run, key.as_str(), "complete then abort"));
    v.push(wait_frame(frame_id(run, "-wait"), run, RUN_WAIT_MS));
    v.push(abort_frame(frame_id(run, "-abort"), Some(run), key.as_str()));
    v
}

/// Connect, then query channel status.
pub open spec fn status_set(f: Seq<JsonValue>, base: Seq<char>) -> bool {
    &&& f.len() == 2
    &&& opens_session(f[0], base)
    &&& is_request(f[1], base + "-status"@, "channels.status"@)
    &&& field(Some(f[1]), "params"@) is Some && field(Some(f[1]), "params"@)->0 is Object
    &&& field(Some(f[1]), "params"@)->0->Object_0@.len() == 0
}

pub fn status_frames(base: &str) -> (r: Vec<JsonValue>)
    ensures
        status_set(r@, base@),
{
    let mut v: Vec<JsonValue> = Vec::new();
    v.push(connect_frame(frame_id(base, "-connect")));
    v.push(status_frame(frame_id(base, "-status")));
    v
}

/// Connect, log out account `ops` of `webchat`, then query channel status.
pub open spec fn logout_set(f: Seq<JsonValue>, base: Seq<char>) -> bool {
    &&& f.len() == 3
    &&& opens_session(f[0], base)
    &&& is_request(f[1], base + "-logout"@, "channels.logout"@)
    &&& str_of(param(f[1], "channel"@)) == Some("webchat"@)
    &&& str_of(param(f[1], "accountId"@)) == Some("ops"@)
    &&& is_request(f[2], base + "-status"@, "channels.status"@)
}

pub fn logout_frames(base: &str) -> (r: Vec<JsonValue>)
    ensures
        logout_set(r@, base@),
{
    let mut v: Vec<JsonValue> = Vec::new();
    v.push(connect_frame(frame_id(base, "-connect")));
    v.push(logout_frame(frame_id(base, "-logout"), "webchat", "ops"));
    v.push(status_frame(frame_id(base, "-status")));
    v
}

/// `f` is the handshake probe: a `health` request with no parameters, sent
/// where `connect` is due.
pub open spec fn is_probe(f: JsonValue) -> bool {
    &&& is_request(f, "conformance-handshake-invalid-1"@, "health"@)
    &&& field(Some(f), "params"@) is Some && field(Some(f), "params"@)->0 is Object
    &&& field(Some(f), "params"@)->0->Object_0@.len() == 0
}

/// The non-`connect` first frame of the handshake scenario.
pub fn handshake_probe_frame() -> (r: JsonValue)
    ensures
        is_probe(r),
{
    request(String::from_str("conformance-handshake-invalid-1"), "health", empty_object())
}

} // verus!
