use vstd::prelude::*;

use crate::checks::{
    abort_session_holds, abort_single_holds, agent_deferred_holds, answered, chat_deferred_holds,
    check_abort_agent, check_abort_chat, check_abort_session_agent, check_abort_session_chat,
    check_agent_deferred, check_chat_deferred, check_completed_noop, check_handshake, check_logout,
    check_methods, check_mismatch, check_not_found, check_ok_true, check_protocol_version,
    check_status_views, check_timeout, completed_noop_holds, handshake_refused, logout_holds,
    methods_hold, mismatch_holds, not_found_holds, ok_true_holds, status_views_hold,
    timeout_holds,
};
use crate::clock::{issued, unique_run_id, RunIds};
use crate::frames::{
    abort_agent_frames, abort_agent_set, abort_all_agent_frames, abort_all_agent_set,
    abort_all_chat_frames, abort_all_chat_set, abort_chat_frames, abort_chat_set,
    agent_deferred_frames, agent_deferred_set, chat_deferred_frames, chat_deferred_set,
    completed_abort_frames, completed_abort_set, empty_object, handshake_probe_frame, is_probe,
    logout_frames, logout_set, mismatch_frames, mismatch_set, missing_run_frames,
    missing_run_set, session_key_for, session_of, status_frames, status_set,
};
use crate::json::{field, u64_of, JsonValue};
use crate::report::ConformanceOutcome;
use crate::text::{concat, decimal};
use crate::transport::{ConformanceTransport, TransportError};
use crate::EXPECTED_PROTOCOL_VERSION;

verus! {

/// One named check of the catalog.
#[derive(Debug, Clone, Copy, PartialEq, Eq, Structural)]
pub enum Scenario {
    HealthzOkTrue,
    ReadyzOkTrue,
    InfoProtocolVersion,
    InfoMethodsIncludeHealthAndStatus,
    UnknownChannelWebhookNotFound,
    WsHandshakeRequiresConnectFirstFrame,
    WsChannelsStatusIncludesAccountViews,
    WsChannelsLogoutAccountPersists,
    WsAgentDeferredWaitCompletes,
    WsChatSendDeferredWaitCompletes,
    WsChatAbortCancelsDeferredRun,
    WsChatAbortCancelsDeferredChatSendRun,
    WsChatAbortSessionWideCancelsDeferredChatSendRuns,
    WsChatAbortSessionWideCancelsRuns,
    WsAgentWaitTimeoutForMissingRun,
    WsChatAbortRejectsRunSessionMismatch,
    WsChatAbortCompletedRunNoop,
}

/// The catalog, in the order in which it runs.
pub open spec fn catalog() -> Seq<Scenario> {
    seq![
        Scenario::HealthzOkTrue,
        Scenario::ReadyzOkTrue,
        Scenario::InfoProtocolVersion,
        Scenario::InfoMethodsIncludeHealthAndStatus,
        Scenario::UnknownChannelWebhookNotFound,
        Scenario::WsHandshakeRequiresConnectFirstFrame,
        Scenario::WsChannelsStatusIncludesAccountViews,
        Scenario::WsChannelsLogoutAccountPersists,
        Scenario::WsAgentDeferredWaitCompletes,
        Scenario::WsChatSendDeferredWaitCompletes,
        Scenario::WsChatAbortCancelsDeferredRun,
        Scenario::WsChatAbortCancelsDeferredChatSendRun,
        Scenario::WsChatAbortSessionWideCancelsDeferredChatSendRuns,
        Scenario::WsChatAbortSessionWideCancelsRuns,
        Scenario::WsAgentWaitTimeoutForMissingRun,
        Scenario::WsChatAbortRejectsRunSessionMismatch,
        Scenario::WsChatAbortCompletedRunNoop,
    ]
}

impl Scenario {
    /// The stable identifier of the scenario.
    pub open spec fn spec_name(self) -> Seq<char> {
        match self {
            Scenario::HealthzOkTrue => "healthz.ok_true"@,
            Scenario::ReadyzOkTrue => "readyz.ok_true"@,
            Scenario::InfoProtocolVersion => "info.protocol_version"@,
            Scenario::InfoMethodsIncludeHealthAndStatus => "info.methods_include_health_status"@,
            Scenario::UnknownChannelWebhookNotFound => "channels.unknown_webhook_not_found"@,
            Scenario::WsHandshakeRequiresConnectFirstFrame => "ws.handshake_requires_connect_first_frame"@,
            Scenario::WsChannelsStatusIncludesAccountViews => "ws.channels_status_includes_account_views"@,
            Scenario::WsChannelsLogoutAccountPersists => "ws.channels_logout_account_persists"@,
            Scenario::WsAgentDeferredWaitCompletes => "ws.agent_deferred_wait_completes"@,
            Scenario::WsChatSendDeferredWaitCompletes => "ws.chat_send_deferred_wait_completes"@,
            Scenario::WsChatAbortCancelsDeferredRun => "ws.chat_abort_cancels_deferred_run"@,
            Scenario::WsChatAbortCancelsDeferredChatSendRun => "ws.chat_abort_cancels_deferred_chat_send_run"@,
            Scenario::WsChatAbortSessionWideCancelsDeferredChatSendRuns => "ws.chat_abort_session_wide_cancels_deferred_chat_send_runs"@,
            Scenario::WsChatAbortSessionWideCancelsRuns => "ws.chat_abort_session_wide_cancels_runs"@,
            Scenario::WsAgentWaitTimeoutForMissingRun => "ws.agent_wait_timeout_for_missing_run"@,
            Scenario::WsChatAbortRejectsRunSessionMismatch => "ws.chat_abort_rejects_run_session_mismatch"@,
            Scenario::WsChatAbortCompletedRunNoop => "ws.chat_abort_completed_run_noop"@,
        }
    }

    pub fn name(&self) -> (r: &'static str)
        ensures
            r@ == self.spec_name(),
    {
        match self {
            Scenario::HealthzOkTrue => "healthz.ok_true",
            Scenario::ReadyzOkTrue => "readyz.ok_true",
            Scenario::InfoProtocolVersion => "info.protocol_version",
            Scenario::InfoMethodsIncludeHealthAndStatus => "info.methods_include_health_status",
            Scenario::UnknownChannelWebhookNotFound => "channels.unknown_webhook_not_found",
            Scenario::WsHandshakeRequiresConnectFirstFrame => "ws.handshake_requires_connect_first_frame",
            Scenario::WsChannelsStatusIncludesAccountViews => "ws.channels_status_includes_account_views",
            Scenario::WsChannelsLogoutAccountPersists => "ws.channels_logout_account_persists",
            Scenario::WsAgentDeferredWaitCompletes => "ws.agent_deferred_wait_completes",
            Scenario::WsChatSendDeferredWaitCompletes => "ws.chat_send_deferred_wait_completes",
            Scenario::WsChatAbortCancelsDeferredRun => "ws.chat_abort_cancels_deferred_run",
            Scenario::WsChatAbortCancelsDeferredChatSendRun => "ws.chat_abort_cancels_deferred_chat_send_run",
            Scenario::WsChatAbortSessionWideCancelsDeferredChatSendRuns => "ws.chat_abort_session_wide_cancels_deferred_chat_send_runs",
            Scenario::WsChatAbortSessionWideCancelsRuns => "ws.chat_abort_session_wide_cancels_runs",
            Scenario::WsAgentWaitTimeoutForMissingRun => "ws.agent_wait_timeout_for_missing_run",
            Scenario::WsChatAbortRejectsRunSessionMismatch => "ws.chat_abort_rejects_run_session_mismatch",
            Scenario::WsChatAbortCompletedRunNoop => "ws.chat_abort_completed_run_noop",
        }
    }

    /// Every scenario, in catalog order.
    pub fn all() -> (r: [Self; 17])
        ensures
            r@ == catalog(),
    {
        let r = [
            Scenario::HealthzOkTrue,
            Scenario::ReadyzOkTrue,
            Scenario::InfoProtocolVersion,
            Scenario::InfoMethodsIncludeHealthAndStatus,
            Scenario::UnknownChannelWebhookNotFound,
            Scenario::WsHandshakeRequiresConnectFirstFrame,
            Scenario::WsChannelsStatusIncludesAccountViews,
            Scenario::WsChannelsLogoutAccountPersists,
            Scenario::WsAgentDeferredWaitCompletes,
            Scenario::WsChatSendDeferredWaitCompletes,
            Scenario::WsChatAbortCancelsDeferredRun,
            Scenario::WsChatAbortCancelsDeferredChatSendRun,
            Scenario::WsChatAbortSessionWideCancelsDeferredChatSendRuns,
            Scenario::WsChatAbortSessionWideCancelsRuns,
            Scenario::WsAgentWaitTimeoutForMissingRun,
            Scenario::WsChatAbortRejectsRunSessionMismatch,
            Scenario::WsChatAbortCompletedRunNoop,
        ];
        assert(r@ == catalog());
        r
    }
}

/// The position of a scenario in the catalog.
pub open spec fn position(s: Scenario) -> int {
    match s {
        Scenario::HealthzOkTrue => 0,
        Scenario::ReadyzOkTrue => 1,
        Scenario::InfoProtocolVersion => 2,
        Scenario::InfoMethodsIncludeHealthAndStatus => 3,
        Scenario::UnknownChannelWebhookNotFound => 4,
        Scenario::WsHandshakeRequiresConnectFirstFrame => 5,
        Scenario::WsChannelsStatusIncludesAccountViews => 6,
        Scenario::WsChannelsLogoutAccountPersists => 7,
        Scenario::WsAgentDeferredWaitCompletes => 8,
        Scenario::WsChatSendDeferredWaitCompletes => 9,
        Scenario::WsChatAbortCancelsDeferredRun => 10,
        Scenario::WsChatAbortCancelsDeferredChatSendRun => 11,
        Scenario::WsChatAbortSessionWideCancelsDeferredChatSendRuns => 12,
        Scenario::WsChatAbortSessionWideCancelsRuns => 13,
        Scenario::WsAgentWaitTimeoutForMissingRun => 14,
        Scenario::WsChatAbortRejectsRunSessionMismatch => 15,
        Scenario::WsChatAbortCompletedRunNoop => 16,
    }
}

/// Each scenario stands once in the catalog, at its position.
pub proof fn lemma_catalog_positions()
    ensures
        catalog().len() == 17,
        forall|i: int| 0 <= i < 17 ==> position(#[trigger] catalog()[i]) == i,
{
    let c = catalog();
    assert(position(c[0]) == 0);
    assert(position(c[1]) == 1);
    assert(position(c[2]) == 2);
    assert(position(c[3]) == 3);
    assert(position(c[4]) == 4);
    assert(position(c[5]) == 5);
    assert(position(c[6]) == 6);
    assert(position(c[7]) == 7);
    assert(position(c[8]) == 8);
    assert(position(c[9]) == 9);
    assert(position(c[10]) == 10);
    assert(position(c[11]) == 11);
    assert(position(c[12]) == 12);
    assert(position(c[13]) == 13);
    assert(position(c[14]) == 14);
    assert(position(c[15]) == 15);
    assert(position(c[16]) == 16);
}

/// Distinct scenarios have distinct names.
pub proof fn lemma_names_distinct(a: Scenario, b: Scenario)
    requires
        a != b,
    ensures
        a.spec_name() != b.spec_name(),
{
    reveal_strlit("healthz.ok_true");
    reveal_strlit("readyz.ok_true");
    reveal_strlit("info.protocol_version");
    reveal_strlit("info.methods_include_health_status");
    reveal_strlit("channels.unknown_webhook_not_found");
    reveal_strlit("ws.handshake_requires_connect_first_frame");
    reveal_strlit("ws.channels_status_includes_account_views");
    reveal_strlit("ws.channels_logout_account_persists");
    reveal_strlit("ws.agent_deferred_wait_completes");
    reveal_strlit("ws.chat_send_deferred_wait_completes");
    reveal_strlit("ws.chat_abort_cancels_deferred_run");
    reveal_strlit("ws.chat_abort_cancels_deferred_chat_send_run");
    reveal_strlit("ws.chat_abort_session_wide_cancels_deferred_chat_send_runs");
    reveal_strlit("ws.chat_abort_session_wide_cancels_runs");
    reveal_strlit("ws.agent_wait_timeout_for_missing_run");
    reveal_strlit("ws.chat_abort_rejects_run_session_mismatch");
    reveal_strlit("ws.chat_abort_completed_run_noop");
    assert("healthz.ok_true"@.len() == 15);
    assert("readyz.ok_true"@.len() == 14);
    assert("info.protocol_version"@.len() == 21);
    assert("info.methods_include_health_status"@.len() == 34);
    assert("channels.unknown_webhook_not_found"@.len() == 34);
    assert("ws.handshake_requires_connect_first_frame"@.len() == 41);
    assert("ws.channels_status_includes_account_views"@.len() == 41);
    assert("ws.channels_logout_account_persists"@.len() == 35);
    assert("ws.agent_deferred_wait_completes"@.len() == 32);
    assert("ws.chat_send_deferred_wait_completes"@.len() == 36);
    assert("ws.chat_abort_cancels_deferred_run"@.len() == 34);
    assert("ws.chat_abort_cancels_deferred_chat_send_run"@.len() == 44);
    assert("ws.chat_abort_session_wide_cancels_deferred_chat_send_runs"@.len() == 58);
    assert("ws.chat_abort_session_wide_cancels_runs"@.len() == 39);
    assert("ws.agent_wait_timeout_for_missing_run"@.len() == 37);
    assert("ws.chat_abort_rejects_run_session_mismatch"@.len() == 42);
    assert("ws.chat_abort_completed_run_noop"@.len() == 32);
    assert("info.methods_include_health_status"@[0] != "channels.unknown_webhook_not_found"@[0]);
    assert("info.methods_include_health_status"@[0] != "ws.chat_abort_cancels_deferred_run"@[0]);
    assert("channels.unknown_webhook_not_found"@[0] != "ws.chat_abort_cancels_deferred_run"@[0]);
    assert("ws.handshake_requires_connect_first_frame"@[3] != "ws.channels_status_includes_account_views"@[3]);
    assert("ws.agent_deferred_wait_completes"@[3] != "ws.chat_abort_completed_run_noop"@[3]);
}

/// The names of the catalog's scenarios are pairwise distinct, so every
/// outcome of a run is told apart by its name.
pub proof fn lemma_catalog_names_unique()
    ensures
        forall|i: int, j: int|
            0 <= i < catalog().len() && 0 <= j < catalog().len() && i != j
                ==> #[trigger] catalog()[i].spec_name() != #[trigger] catalog()[j].spec_name(),
{
    lemma_catalog_positions();
    assert forall|i: int, j: int|
        0 <= i < catalog().len() && 0 <= j < catalog().len() && i != j implies
            #[trigger] catalog()[i].spec_name() != #[trigger] catalog()[j].spec_name() by {
        assert(position(catalog()[i]) != position(catalog()[j]));
        lemma_names_distinct(catalog()[i], catalog()[j]);
    }
}

/// Scenarios that open a message session, and so draw a run identifier.
pub open spec fn uses_session(s: Scenario) -> bool {
    position(s) >= 6
}

/// What running `s` against `t` reports as `r`: the scenario sent exactly
/// its fixture to `t` and passed exactly when an answer that `t` gave meets
/// the scenario's invariant. `expected` is the protocol version the version
/// scenario requires, and `seq` the sequence number of the run identifier a
/// session scenario draws.
pub open spec fn reported<T: ConformanceTransport>(
    s: Scenario,
    t: T,
    expected: u64,
    seq: nat,
    r: ConformanceOutcome,
) -> bool {
    match s {
        Scenario::HealthzOkTrue => exists|reply: Result<JsonValue, TransportError>|
            #[trigger] t.fetches("/healthz"@, reply) && r.passed == ok_true_holds(reply),
        Scenario::ReadyzOkTrue => exists|reply: Result<JsonValue, TransportError>|
            #[trigger] t.fetches("/readyz"@, reply) && r.passed == ok_true_holds(reply),
        Scenario::InfoProtocolVersion => exists|reply: Result<JsonValue, TransportError>|
            #[trigger] t.fetches("/info"@, reply) && r.passed == (reply is Ok && u64_of(
                field(Some(reply->Ok_0), "protocolVersion"@),
            ) == Some(expected)),
        Scenario::InfoMethodsIncludeHealthAndStatus => exists|reply: Result<JsonValue, TransportError>|
            #[trigger] t.fetches("/info"@, reply) && r.passed == methods_hold(reply),
        Scenario::UnknownChannelWebhookNotFound => exists|body: JsonValue, reply: Result<(u16, JsonValue), TransportError>|
            #[trigger] t.submits("/channels/nonexistent/webhook"@, body, reply) && body is Object
                && body->Object_0@.len() == 0 && r.passed == not_found_holds(reply),
        Scenario::WsHandshakeRequiresConnectFirstFrame => exists|frame: JsonValue, reply: Result<JsonValue, TransportError>|
            #[trigger] t.probes(frame, reply) && is_probe(frame) && r.passed == handshake_refused(
                reply,
            ),
        Scenario::WsChannelsStatusIncludesAccountViews => exists|run: Seq<char>, frames: Seq<JsonValue>, replies: Result<Vec<JsonValue>, TransportError>|
            #![trigger t.exchanges(frames, replies), issued(run, "conformance-channels-status"@, seq)]
            {
                &&& issued(run, "conformance-channels-status"@, seq)
                &&& status_set(frames, run)
                &&& t.exchanges(frames, replies)
                &&& r.passed == (answered(replies, 2) && status_views_hold(replies->Ok_0@))
            },
        Scenario::WsChannelsLogoutAccountPersists => exists|run: Seq<char>, frames: Seq<JsonValue>, replies: Result<Vec<JsonValue>, TransportError>|
            #![trigger t.exchanges(frames, replies), issued(run, "conformance-channels-logout"@, seq)]
            {
                &&& issued(run, "conformance-channels-logout"@, seq)
                &&& logout_set(frames, run)
                &&& t.exchanges(frames, replies)
                &&& r.passed == (answered(replies, 3) && logout_holds(replies->Ok_0@))
            },
        Scenario::WsAgentDeferredWaitCompletes => exists|run: Seq<char>, frames: Seq<JsonValue>, replies: Result<Vec<JsonValue>, TransportError>|
            #![trigger t.exchanges(frames, replies), issued(run, "conformance-deferred"@, seq)]
            {
                &&& issued(run, "conformance-deferred"@, seq)
                &&& agent_deferred_set(frames, run, "conformance deferred"@)
                &&& t.exchanges(frames, replies)
                &&& r.passed == (answered(replies, 3) && agent_deferred_holds(replies->Ok_0@, "conformance deferred"@, session_of(run)))
            },
        Scenario::WsChatSendDeferredWaitCompletes => exists|run: Seq<char>, frames: Seq<JsonValue>, replies: Result<Vec<JsonValue>, TransportError>|
            #![trigger t.exchanges(frames, replies), issued(run, "conformance-chat-deferred"@, seq)]
            {
                &&& issued(run, "conformance-chat-deferred"@, seq)
                &&& chat_deferred_set(frames, run, "conformance deferred chat"@)
                &&& t.exchanges(frames, replies)
                &&& r.passed == (answered(replies, 3) && chat_deferred_holds(replies->Ok_0@, "conformance deferred chat"@, session_of(run)))
            },
        Scenario::WsChatAbortCancelsDeferredRun => exists|run: Seq<char>, frames: Seq<JsonValue>, replies: Result<Vec<JsonValue>, TransportError>|
            #![trigger t.exchanges(frames, replies), issued(run, "conformance-abort"@, seq)]
            {
                &&& issued(run, "conformance-abort"@, seq)
                &&& abort_agent_set(frames, run)
                &&& t.exchanges(frames, replies)
                &&& r.passed == (answered(replies, 4) && abort_single_holds(replies->Ok_0@, run, session_of(run), true))
            },
        Scenario::WsChatAbortCancelsDeferredChatSendRun => exists|run: Seq<char>, frames: Seq<JsonValue>, replies: Result<Vec<JsonValue>, TransportError>|
            #![trigger t.exchanges(frames, replies), issued(run, "conformance-chat-abort"@, seq)]
            {
                &&& issued(run, "conformance-chat-abort"@, seq)
                &&& abort_chat_set(frames, run)
                &&& t.exchanges(frames, replies)
                &&& r.passed == (answered(replies, 4) && abort_single_holds(replies->Ok_0@, run, session_of(run), false))
            },
        Scenario::WsChatAbortSessionWideCancelsDeferredChatSendRuns => exists|run: Seq<char>, frames: Seq<JsonValue>, replies: Result<Vec<JsonValue>, TransportError>|
            #![trigger t.exchanges(frames, replies), issued(run, "conformance-chat-abort-all"@, seq)]
            {
                &&& issued(run, "conformance-chat-abort-all"@, seq)
                &&& abort_all_chat_set(frames, run)
                &&& t.exchanges(frames, replies)
                &&& r.passed == (answered(replies, 6) && abort_session_holds(replies->Ok_0@, run + "-one"@, run + "-two"@, false))
            },
        Scenario::WsChatAbortSessionWideCancelsRuns => exists|run: Seq<char>, frames: Seq<JsonValue>, replies: Result<Vec<JsonValue>, TransportError>|
            #![trigger t.exchanges(frames, replies), issued(run, "conformance-abort-all"@, seq)]
            {
                &&& issued(run, "conformance-abort-all"@, seq)
                &&& abort_all_agent_set(frames, run)
                &&& t.exchanges(frames, replies)
                &&& r.passed == (answered(replies, 6) && abort_session_holds(replies->Ok_0@, run + "-one"@, run + "-two"@, true))
            },
        Scenario::WsAgentWaitTimeoutForMissingRun => exists|run: Seq<char>, frames: Seq<JsonValue>, replies: Result<Vec<JsonValue>, TransportError>|
            #![trigger t.exchanges(frames, replies), issued(run, "conformance-missing"@, seq)]
            {
                &&& issued(run, "conformance-missing"@, seq)
                &&& missing_run_set(frames, run)
                &&& t.exchanges(frames, replies)
                &&& r.passed == (answered(replies, 2) && timeout_holds(replies->Ok_0@, run))
            },
        Scenario::WsChatAbortRejectsRunSessionMismatch => exists|run: Seq<char>, frames: Seq<JsonValue>, replies: Result<Vec<JsonValue>, TransportError>|
            #![trigger t.exchanges(frames, replies), issued(run, "conformance-mismatch"@, seq)]
            {
                &&& issued(run, "conformance-mismatch"@, seq)
                &&& mismatch_set(frames, run)
                &&& t.exchanges(frames, replies)
                &&& r.passed == (answered(replies, 3) && mismatch_holds(replies->Ok_0@))
            },
        Scenario::WsChatAbortCompletedRunNoop => exists|run: Seq<char>, frames: Seq<JsonValue>, replies: Result<Vec<JsonValue>, TransportError>|
            #![trigger t.exchanges(frames, replies), issued(run, "conformance-completed"@, seq)]
            {
                &&& issued(run, "conformance-completed"@, seq)
                &&& completed_abort_set(frames, run)
                &&& t.exchanges(frames, replies)
                &&& r.passed == (answered(replies, 4) && completed_noop_holds(replies->Ok_0@, run))
            },
    }
}

impl Scenario {
    /// Runs the scenario against `transport`, expecting the gateway to
    /// advertise `EXPECTED_PROTOCOL_VERSION`.
    pub fn run<T: ConformanceTransport>(&self, transport: &T) -> (r: ConformanceOutcome)
        ensures
            r.name@ == self.spec_name(),
            reported(*self, *transport, EXPECTED_PROTOCOL_VERSION, 0, r),
    {
        let mut ids = RunIds::new();
        self.run_expecting(transport, EXPECTED_PROTOCOL_VERSION, &mut ids)
    }

    /// Runs the scenario against `transport`, expecting the gateway to
    /// advertise `expected_version`; a session scenario draws its run
    /// identifier from `ids`.
    pub fn run_expecting<T: ConformanceTransport>(
        &self,
        transport: &T,
        expected_version: u64,
        ids: &mut RunIds,
    ) -> (r: ConformanceOutcome)
        requires
            old(ids).next < u64::MAX,
        ensures
            r.name@ == self.spec_name(),
            reported(*self, *transport, expected_version, old(ids).next as nat, r),
            *self == Scenario::InfoProtocolVersion && r.passed ==> r.detail@ == "protocolVersion="@
                + decimal(expected_version as nat),
            final(ids).next == old(ids).next + if uses_session(*self) {
                1int
            } else {
                0int
            },
    {
        match self {
            Scenario::HealthzOkTrue => {
                let reply = transport.get_json("/healthz");
                let r = check_ok_true(*self, "health", &reply);
                assert(transport.fetches("/healthz"@, reply));
                r
            },
            Scenario::ReadyzOkTrue => {
                let reply = transport.get_json("/readyz");
                let r = check_ok_true(*self, "ready", &reply);
                assert(transport.fetches("/readyz"@, reply));
                r
            },
            Scenario::InfoProtocolVersion => {
                let reply = transport.get_json("/info");
                let r = check_protocol_version(expected_version, &reply);
                assert(transport.fetches("/info"@, reply));
                r
            },
            Scenario::InfoMethodsIncludeHealthAndStatus => {
                let reply = transport.get_json("/info");
                let r = check_methods(&reply);
                assert(transport.fetches("/info"@, reply));
                r
            },
            Scenario::UnknownChannelWebhookNotFound => {
                let body = empty_object();
                let reply = transport.post_json("/channels/nonexistent/webhook", &body);
                let r = check_not_found(&reply);
                assert(transport.submits("/channels/nonexistent/webhook"@, body, reply));
                r
            },
            Scenario::WsHandshakeRequiresConnectFirstFrame => {
                let frame = handshake_probe_frame();
                let reply = transport.websocket_first_response(&frame);
                let r = check_handshake(&reply);
                assert(transport.probes(frame, reply));
                r
            },
            Scenario::WsChannelsStatusIncludesAccountViews => {
                let run = unique_run_id(ids, "conformance-channels-status");
                let frames = status_frames(run.as_str());
                let replies = transport.websocket_exchange(frames.as_slice());
                let r = check_status_views(&replies);
                assert(transport.exchanges(frames@, replies));
                r
            },
            Scenario::WsChannelsLogoutAccountPersists => {
                let run = unique_run_id(ids, "conformance-channels-logout");
                let frames = logout_frames(run.as_str());
                let replies = transport.websocket_exchange(frames.as_slice());
                let r = check_logout(&replies);
                assert(transport.exchanges(frames@, replies));
                r
            },
            Scenario::WsAgentDeferredWaitCompletes => {
                let run = unique_run_id(ids, "conformance-deferred");
                let frames = agent_deferred_frames(run.as_str(), "conformance deferred");
                let replies = transport.websocket_exchange(frames.as_slice());
                let r = check_agent_deferred("conformance deferred", session_key_for(run.as_str()).as_str(), &replies);
                assert(transport.exchanges(frames@, replies));
                r
            },
            Scenario::WsChatSendDeferredWaitCompletes => {
                let run = unique_run_id(ids, "conformance-chat-deferred");
                let frames = chat_deferred_frames(run.as_str(), "conformance deferred chat");
                let replies = transport.websocket_exchange(frames.as_slice());
                let r = check_chat_deferred("conformance deferred chat", session_key_for(run.as_str()).as_str(), &replies);
                assert(transport.exchanges(frames@, replies));
                r
            },
            Scenario::WsChatAbortCancelsDeferredRun => {
                let run = unique_run_id(ids, "conformance-abort");
                let frames = abort_agent_frames(run.as_str());
                let replies = transport.websocket_exchange(frames.as_slice());
                let r = check_abort_agent(run.as_str(), session_key_for(run.as_str()).as_str(), &replies);
                assert(transport.exchanges(frames@, replies));
                r
            },
            Scenario::WsChatAbortCancelsDeferredChatSendRun => {
                let run = unique_run_id(ids, "conformance-chat-abort");
                let frames = abort_chat_frames(run.as_str());
                let replies = transport.websocket_exchange(frames.as_slice());
                let r = check_abort_chat(run.as_str(), session_key_for(run.as_str()).as_str(), &replies);
                assert(transport.exchanges(frames@, replies));
                r
            },
            Scenario::WsChatAbortSessionWideCancelsDeferredChatSendRuns => {
                let run = unique_run_id(ids, "conformance-chat-abort-all");
                let frames = abort_all_chat_frames(run.as_str());
                let replies = transport.websocket_exchange(frames.as_slice());
                let r = check_abort_session_chat(concat(run.as_str(), "-one").as_str(), concat(run.as_str(), "-two").as_str(), &replies);
                assert(transport.exchanges(frames@, replies));
                r
            },
            Scenario::WsChatAbortSessionWideCancelsRuns => {
                let run = unique_run_id(ids, "conformance-abort-all");
                let frames = abort_all_agent_frames(run.as_str());
                let replies = transport.websocket_exchange(frames.as_slice());
                let r = check_abort_session_agent(concat(run.as_str(), "-one").as_str(), concat(run.as_str(), "-two").as_str(), &replies);
                assert(transport.exchanges(frames@, replies));
                r
            },
            Scenario::WsAgentWaitTimeoutForMissingRun => {
                let run = unique_run_id(ids, "conformance-missing");
                let frames = missing_run_frames(run.as_str());
                let replies = transport.websocket_exchange(frames.as_slice());
                let r = check_timeout(run.as_str(), &replies);
                assert(transport.exchanges(frames@, replies));
                r
            },
            Scenario::WsChatAbortRejectsRunSessionMismatch => {
                let run = unique_run_id(ids, "conformance-mismatch");
                let frames = mismatch_frames(run.as_str());
                let replies = transport.websocket_exchange(frames.as_slice());
                let r = check_mismatch(&replies);
                assert(transport.exchanges(frames@, replies));
                r
            },
            Scenario::WsChatAbortCompletedRunNoop => {
                let run = unique_run_id(ids, "conformance-completed");
                let frames = completed_abort_frames(run.as_str());
                let replies = transport.websocket_exchange(frames.as_slice());
                let r = check_completed_noop(run.as_str(), &replies);
                assert(transport.exchanges(frames@, replies));
                r
            },
        }
    }
}

} // verus!
