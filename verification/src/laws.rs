//! What holds of a session whatever it is given: the laws of request ids,
//! of the table of pending requests, of routing, of dispatch and of the wire.

use crate::control::{
    lemma_control_response_round_trip, ControlRequestPayloadView, ControlResponsePayloadView,
    ControlResponseView,
};
use crate::dispatch::{control_response_doc, dispatch_of, hook_output_doc, DispatchView};
use crate::errors::ErrorValue;
use crate::hooks::{opt_bool_member, opt_string_member, HookCallback, HookOutput};
use crate::ids::{is_request_id, lemma_request_ids_differ, next_count, request_id_text};
use crate::json::{lemma_get_with, lemma_get_with_opt, JsonValue};
use crate::message_parser::{is_control_request_spec, is_control_response_spec, message_of};
use crate::permission::default_allow;
use crate::query::{
    after_route, resolved, response_outcome, route_of, QueryView, ReaderActionView, SessionState,
};
use vstd::prelude::*;

verus! {

/// Two request ids issued at different counts differ. The count moves on
/// with every id, so the ids that a session issues differ from one another
/// until the count has gone round.
pub proof fn lemma_issued_ids_differ(count1: u64, id1: Seq<char>, count2: u64, id2: Seq<char>)
    requires
        is_request_id(id1, count1),
        is_request_id(id2, count2),
        count1 != count2,
    ensures
        id1 != id2,
{
    let s1 = choose|s: Seq<char>| s.len() == 8 && id1 == #[trigger] request_id_text(count1, s);
    let s2 = choose|s: Seq<char>| s.len() == 8 && id2 == #[trigger] request_id_text(count2, s);
    lemma_request_ids_differ(count1, s1, count2, s2);
}

/// A fresh id is not in the table. Where every request that awaits a reply
/// does so under an id that the session issued, the id of the next count is
/// the id of none of them.
pub proof fn lemma_fresh_id_is_not_pending<S>(session: QueryView<S>, id: Seq<char>)
    requires
        session.keys_issued(),
        is_request_id(id, session.issued),
    ensures
        !session.pending.contains_key(id),
{
    if session.pending.contains_key(id) {
        let count = choose|count: u64| count < session.issued && #[trigger] is_request_id(id, count);
        lemma_issued_ids_differ(count, id, session.issued, id);
    }
}

/// Registering a request keeps the ids in the table ids of the session,
/// until the count has gone round: the new id is an id of the old count,
/// which lies below the new one.
pub proof fn lemma_keys_stay_issued_after_send<S>(session: QueryView<S>, id: Seq<char>, slot: S)
    requires
        session.keys_issued(),
        session.issued < u64::MAX,
        is_request_id(id, session.issued),
    ensures
        (QueryView {
            pending: session.pending.insert(id, slot),
            issued: next_count(session.issued),
            ..session
        }).keys_issued(),
        (QueryView { issued: next_count(session.issued), ..session }).keys_issued(),
{
    let after = QueryView {
        pending: session.pending.insert(id, slot),
        issued: next_count(session.issued),
        ..session
    };
    assert forall|k: Seq<char>| #[trigger] after.pending.contains_key(k) implies exists|count: u64|
        count < after.issued && #[trigger] is_request_id(k, count) by {
        if k == id {
            assert(is_request_id(k, session.issued));
        } else {
            assert(session.pending.contains_key(k));
            let count = choose|count: u64| count < session.issued && #[trigger] is_request_id(k, count);
            assert(count < after.issued && is_request_id(k, count));
        }
    }
    let later = QueryView { issued: next_count(session.issued), ..session };
    assert forall|k: Seq<char>| #[trigger] later.pending.contains_key(k) implies exists|count: u64|
        count < later.issued && #[trigger] is_request_id(k, count) by {
        let count = choose|count: u64| count < session.issued && #[trigger] is_request_id(k, count);
        assert(count < later.issued && is_request_id(k, count));
    }
}

/// A session whose table only loses requests keeps the ids in it ids of the
/// session: so it is after a response, a timeout, a stop, and after any
/// document was routed.
pub proof fn lemma_keys_stay_issued<S>(before: QueryView<S>, after: QueryView<S>)
    requires
        before.keys_issued(),
        after.issued == before.issued,
        forall|id: Seq<char>| after.pending.contains_key(id) ==> before.pending.contains_key(id),
    ensures
        after.keys_issued(),
{
    assert forall|k: Seq<char>| #[trigger] after.pending.contains_key(k) implies exists|count: u64|
        count < after.issued && #[trigger] is_request_id(k, count) by {
        assert(before.pending.contains_key(k));
    }
}

/// Resolving a request, by its response, by a timeout or by giving it up,
/// keeps the ids in the table ids of the session; so does a stop, after
/// which the table is empty.
pub proof fn lemma_resolving_keeps_keys_issued<S>(session: QueryView<S>, request_id: Seq<char>)
    requires
        session.keys_issued(),
    ensures
        (QueryView { pending: resolved(session.pending, request_id).1, ..session }).keys_issued(),
        (QueryView { pending: Map::<Seq<char>, S>::empty(), ..session }).keys_issued(),
{
    lemma_keys_stay_issued(
        session,
        QueryView { pending: resolved(session.pending, request_id).1, ..session },
    );
    lemma_keys_stay_issued(session, QueryView { pending: Map::<Seq<char>, S>::empty(), ..session });
}

/// Routing a document keeps the ids in the table ids of the session.
pub proof fn lemma_routing_keeps_keys_issued<S>(session: QueryView<S>, raw: JsonValue)
    requires
        session.keys_issued(),
    ensures
        after_route(session, raw).keys_issued(),
{
    lemma_keys_stay_issued(session, after_route(session, raw));
}

/// A session that was stopped routes nothing: whatever the document is, the
/// reader is told to leave its loop, and the session is as it was.
pub proof fn lemma_stopped_session_routes_nothing<S>(session: QueryView<S>, raw: JsonValue)
    requires
        session.state == SessionState::Stopped,
    ensures
        route_of(session, raw) == ReaderActionView::<S>::Exit,
        after_route(session, raw) == session,
{
}

/// A request that was sent is resolved once and no more. Once it awaits a
/// reply under its id, the first of a matching response, a timeout and a
/// stop hands out its slot; whatever comes after finds no request of that id
/// and hands out nothing.
pub proof fn lemma_resolved_exactly_once<S>(pending: Map<Seq<char>, S>, request_id: Seq<char>, slot: S)
    ensures
        // a response or a timeout resolves it
        resolved(pending.insert(request_id, slot), request_id).0 == Some(slot),
        // and then it is gone: a second response, or a late timeout, resolves nothing
        !resolved(pending.insert(request_id, slot), request_id).1.contains_key(request_id),
        resolved(resolved(pending.insert(request_id, slot), request_id).1, request_id).0 is None,
        // after a stop nothing awaits a reply
        resolved(Map::<Seq<char>, S>::empty(), request_id).0 is None,
        // resolving it leaves every other request as it was
        forall|other: Seq<char>|
            other != request_id ==> (#[trigger] resolved(
                pending.insert(request_id, slot),
                request_id,
            ).1.contains_key(other) <==> pending.contains_key(other)),
        forall|other: Seq<char>|
            other != request_id && pending.contains_key(other) ==> #[trigger] resolved(
                pending.insert(request_id, slot),
                request_id,
            ).1[other] == pending[other],
{
}

/// In a session that was not stopped, a control response whose request id
/// is unknown resolves nothing: the
/// reader passes it over, and the session is as it was. So is a document
/// that says it is a control response and is none.
pub proof fn lemma_unknown_response_is_passed_over<S>(session: QueryView<S>, raw: JsonValue)
    requires
        session.state != SessionState::Stopped,
        is_control_response_spec(raw),
        match ControlResponseView::from_json(raw) {
            Some(response) => !session.pending.contains_key(response.response.request_id()),
            None => true,
        },
    ensures
        route_of(session, raw) == ReaderActionView::<S>::Skip,
        after_route(session, raw) == session,
{
}

/// A control response resolves the request that it names and no other:
/// every other request awaits its reply as before, with the same slot.
pub proof fn lemma_response_resolves_only_its_request<S>(
    session: QueryView<S>,
    raw: JsonValue,
    other: Seq<char>,
)
    requires
        session.pending.contains_key(other),
        match ControlResponseView::from_json(raw) {
            Some(response) => response.response.request_id() != other,
            None => true,
        },
    ensures
        after_route(session, raw).pending.contains_key(other),
        after_route(session, raw).pending[other] == session.pending[other],
{
}

/// In a session that was not stopped, a document without a `type`, or with a `type` that
/// does not name control traffic, resolves no request and asks no callback:
/// it is passed over or forwarded, and the session is as it was.
pub proof fn lemma_event_messages_leave_the_session<S>(session: QueryView<S>, raw: JsonValue)
    requires
        session.state != SessionState::Stopped,
        !is_control_response_spec(raw),
        !is_control_request_spec(raw),
    ensures
        after_route(session, raw) == session,
        route_of(session, raw) == if raw.get_str("type"@) is None {
            ReaderActionView::<S>::Skip
        } else {
            ReaderActionView::<S>::Forward(message_of(raw))
        },
{
}

/// A request that timed out and a request that was given up look different:
/// the errors are of different kinds, and so are the texts they show.
pub proof fn lemma_timeout_differs_from_closed(duration_ms: u64)
    ensures
        (ErrorValue::Timeout { duration_ms }) != (ErrorValue::Internal {
            message: "Control request receiver dropped"@,
        }),
        (ErrorValue::Timeout { duration_ms }).display() != (ErrorValue::Internal {
            message: "Control request receiver dropped"@,
        }).display(),
{
    reveal_strlit("Operation timed out after ");
    reveal_strlit("Internal error: ");
    let timed_out = (ErrorValue::Timeout { duration_ms }).display();
    let closed = (ErrorValue::Internal { message: "Control request receiver dropped"@ }).display();
    assert(timed_out[0] == 'O');
    assert(closed[0] == 'I');
}

/// A hook request whose callback id is not registered gets an empty success.
pub proof fn lemma_unregistered_hook_gets_empty_success(
    callback_id: Seq<char>,
    input: JsonValue,
    tool_use_id: Option<Seq<char>>,
    can_use_tool: bool,
    callbacks: Map<Seq<char>, HookCallback>,
)
    requires
        !callbacks.contains_key(callback_id),
    ensures
        dispatch_of(
            ControlRequestPayloadView::HookCallback { callback_id, input, tool_use_id },
            can_use_tool,
            callbacks,
        ) == DispatchView::Reply(Ok(JsonValue::empty_object())),
{
}

/// A tool-permission request is allowed where no callback is registered.
pub proof fn lemma_permission_defaults_to_allow(
    tool_name: Seq<char>,
    input: JsonValue,
    permission_suggestions: Option<Seq<JsonValue>>,
    blocked_path: Option<Seq<char>>,
    callbacks: Map<Seq<char>, HookCallback>,
)
    ensures
        dispatch_of(
            ControlRequestPayloadView::CanUseTool {
                tool_name,
                input,
                permission_suggestions,
                blocked_path,
            },
            false,
            callbacks,
        ) == DispatchView::Reply(Ok(default_allow())),
        default_allow().get("behavior"@) == Some(JsonValue::String("allow"@)),
{
    lemma_get_with(
        JsonValue::empty_object(),
        "behavior"@,
        JsonValue::String("allow"@),
        "behavior"@,
    );
}

/// The reply to a request of the peer, read back from the wire, names the
/// request and carries the outcome: the data of a success, or the text of
/// the failure.
pub proof fn lemma_reply_round_trip(request_id: Seq<char>, outcome: Result<JsonValue, ErrorValue>)
    ensures
        ControlResponseView::from_json(control_response_doc(request_id, outcome)) matches Some(
            response,
        ) && response.response.request_id() == request_id && response_outcome(response.response)
            == match outcome {
            Ok(data) => Ok::<JsonValue, ErrorValue>(data),
            Err(e) => Err(
                ErrorValue::ControlProtocol { message: e.display(), request_id: Some(request_id) },
            ),
        },
{
    let sent = ControlResponseView {
        response_type: "control_response"@,
        response: match outcome {
            Ok(data) => ControlResponsePayloadView::Success { request_id, response: Some(data) },
            Err(e) => ControlResponsePayloadView::Error { request_id, error: e.display() },
        },
    };
    if outcome == Ok::<JsonValue, ErrorValue>(JsonValue::Null) {
        // `null` data reads back as no data, which stands for `null` again
        let as_none = ControlResponseView {
            response_type: "control_response"@,
            response: ControlResponsePayloadView::Success { request_id, response: None },
        };
        assert(as_none.to_json() == sent.to_json());
        lemma_control_response_round_trip(as_none);
    } else {
        lemma_control_response_round_trip(sent);
    }
}

/// What is known of the member names of a hook's answer.
proof fn reveal_hook_output_names()
    ensures
        "async_"@.len() == 6,
        "continue_"@.len() == 9,
        "async"@.len() == 5,
        "asyncTimeout"@.len() == 12,
        "continue"@.len() == 8,
        "suppressOutput"@.len() == 14,
        "stopReason"@.len() == 10,
        "decision"@.len() == 8,
        "systemMessage"@.len() == 13,
        "reason"@.len() == 6,
        "hookSpecificOutput"@.len() == 18,
        "asyncTimeout"@[0] == 'a',
        "continue_"@[0] == 'c',
        "reason"@[0] == 'r',
        "async_"@[0] == 'a',
        "decision"@[0] == 'd',
        "continue"@[0] == 'c',
{
    reveal_strlit("async_");
    reveal_strlit("continue_");
    reveal_strlit("async");
    reveal_strlit("asyncTimeout");
    reveal_strlit("continue");
    reveal_strlit("suppressOutput");
    reveal_strlit("stopReason");
    reveal_strlit("decision");
    reveal_strlit("systemMessage");
    reveal_strlit("reason");
    reveal_strlit("hookSpecificOutput");
}

/// A hook's answer goes over the wire under the names `async` and
/// `continue`: the fields `async_` and `continue_` are found under those
/// names in the document that is sent, and no member goes by the name of a
/// field.
pub proof fn lemma_hook_output_wire_names(output: &HookOutput)
    ensures
        hook_output_doc(output) == output.wire(),
        hook_output_doc(output).get("async_"@) is None,
        hook_output_doc(output).get("continue_"@) is None,
        match *output {
            HookOutput::Async(o) => hook_output_doc(output).get("async"@) == Some(
                JsonValue::Bool(o.async_),
            ),
            HookOutput::Sync(o) => hook_output_doc(output).get("continue"@) == opt_bool_member(
                o.continue_,
            ),
        },
{
    reveal_hook_output_names();
    let e = JsonValue::empty_object();
    match *output {
        HookOutput::Async(o) => {
            let a = e.with("async"@, JsonValue::Bool(o.async_));
            let timeout = match o.async_timeout {
                Some(t) => Some(JsonValue::of_u64(t)),
                None => None,
            };
            let b = a.with_opt("asyncTimeout"@, timeout);
            assert forall|k: Seq<char>|
                #![trigger b.get(k)]
                k == "async_"@ || k == "continue_"@ || k == "async"@ implies b.get(k) == if k
                == "async"@ {
                Some(JsonValue::Bool(o.async_))
            } else {
                None
            } by {
                lemma_get_with(e, "async"@, JsonValue::Bool(o.async_), k);
                lemma_get_with_opt(a, "asyncTimeout"@, timeout, k);
            }
            assert(b.get("async_"@) is None);
            assert(b.get("continue_"@) is None);
            assert(b.get("async"@) == Some(JsonValue::Bool(o.async_)));
        },
        HookOutput::Sync(o) => {
            let specific = match o.hook_specific_output {
                Some(s) => Some(s.wire()),
                None => None,
            };
            let a = e.with_opt("continue"@, opt_bool_member(o.continue_));
            let b = a.with_opt("suppressOutput"@, opt_bool_member(o.suppress_output));
            let c = b.with_opt("stopReason"@, opt_string_member(o.stop_reason));
            let d = c.with_opt("decision"@, opt_string_member(o.decision));
            let f = d.with_opt("systemMessage"@, opt_string_member(o.system_message));
            let g = f.with_opt("reason"@, opt_string_member(o.reason));
            let h = g.with_opt("hookSpecificOutput"@, specific);
            assert forall|k: Seq<char>|
                #![trigger h.get(k)]
                k == "async_"@ || k == "continue_"@ || k == "continue"@ implies h.get(k) == if k
                == "continue"@ {
                opt_bool_member(o.continue_)
            } else {
                None
            } by {
                lemma_get_with_opt(e, "continue"@, opt_bool_member(o.continue_), k);
                lemma_get_with_opt(a, "suppressOutput"@, opt_bool_member(o.suppress_output), k);
                lemma_get_with_opt(b, "stopReason"@, opt_string_member(o.stop_reason), k);
                lemma_get_with_opt(c, "decision"@, opt_string_member(o.decision), k);
                lemma_get_with_opt(d, "systemMessage"@, opt_string_member(o.system_message), k);
                lemma_get_with_opt(f, "reason"@, opt_string_member(o.reason), k);
                lemma_get_with_opt(g, "hookSpecificOutput"@, specific, k);
            }
            assert(h.get("async_"@) is None);
            assert(h.get("continue_"@) is None);
            assert(h.get("continue"@) == opt_bool_member(o.continue_));
        },
    }
}

} // verus!
