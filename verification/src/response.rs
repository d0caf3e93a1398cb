//! Encoding of a [`HookResponse`] in the JSON form that each caller expects.
use vstd::prelude::*;

use crate::json::{clone_entries, entries_view, lookup, model_get, Json, JsonMap, JsonModel};
use crate::types::{CallerKind, HookEventEvent, HookResponse, ResponseModel};

verus! {

broadcast use vstd::std_specs::vec::group_vec_axioms;

/// A JSON string.
pub open spec fn jstr(s: Seq<char>) -> JsonModel {
    JsonModel::Str(s)
}

/// A JSON object with one entry.
pub open spec fn object1(k1: Seq<char>, v1: JsonModel) -> JsonModel {
    JsonModel::Object(seq![(k1, v1)])
}

/// A JSON object with two entries.
pub open spec fn object2(k1: Seq<char>, v1: JsonModel, k2: Seq<char>, v2: JsonModel) -> JsonModel {
    JsonModel::Object(seq![(k1, v1), (k2, v2)])
}

/// What `ClaudeCode` (and an unrecognized caller) is answered.  A block of a
/// `tool:before` event denies the tool call through `hookSpecificOutput`;
/// any other block uses `decision: "block"`, which ends the session.
pub open spec fn claude_code_reply(resp: ResponseModel, event: Option<HookEventEvent>) -> JsonModel {
    match resp {
        ResponseModel::Approve => JsonModel::Object(seq![]),
        ResponseModel::Block(msg) => if event == Some(HookEventEvent::ToolBefore) {
            object1(
                "hookSpecificOutput"@,
                JsonModel::Object(
                    seq![
                        ("hookEventName"@, jstr("PreToolUse"@)),
                        ("permissionDecision"@, jstr("deny"@)),
                        ("permissionDecisionReason"@, jstr(msg)),
                    ],
                ),
            )
        } else {
            object2("decision"@, jstr("block"@), "reason"@, jstr(msg))
        },
        ResponseModel::Modify(input) => object2(
            "decision"@,
            jstr("approve"@),
            "tool_input"@,
            JsonModel::Object(input),
        ),
    }
}

/// What a caller other than `ClaudeCode` is answered: its approve value, its
/// block value with the reason under `reason_key`, and its modify value with
/// the new input under `input_key`.
pub open spec fn keyed_reply(
    resp: ResponseModel,
    decision_key: Seq<char>,
    approve: JsonModel,
    deny: JsonModel,
    reason_key: Seq<char>,
    modify: JsonModel,
    input_key: Seq<char>,
) -> JsonModel {
    match resp {
        ResponseModel::Approve => object1(decision_key, approve),
        ResponseModel::Block(msg) => object2(decision_key, deny, reason_key, jstr(msg)),
        ResponseModel::Modify(input) => object2(
            decision_key,
            modify,
            input_key,
            JsonModel::Object(input),
        ),
    }
}

/// The reply that `caller` expects for `resp`.
pub open spec fn spec_reply(
    resp: ResponseModel,
    caller: CallerKind,
    event: Option<HookEventEvent>,
) -> JsonModel {
    match caller {
        CallerKind::ClaudeCode | CallerKind::Unknown => claude_code_reply(resp, event),
        CallerKind::Cursor => keyed_reply(
            resp,
            "action"@,
            jstr("allow"@),
            jstr("deny"@),
            "message"@,
            jstr("modify"@),
            "args"@,
        ),
        CallerKind::Windsurf => keyed_reply(
            resp,
            "allow"@,
            JsonModel::Bool(true),
            JsonModel::Bool(false),
            "reason"@,
            JsonModel::Bool(true),
            "modified_parameters"@,
        ),
        CallerKind::Cline => keyed_reply(
            resp,
            "approved"@,
            JsonModel::Bool(true),
            JsonModel::Bool(false),
            "reason"@,
            JsonModel::Bool(true),
            "modifiedInput"@,
        ),
        CallerKind::Amp => keyed_reply(
            resp,
            "result"@,
            jstr("allow"@),
            jstr("deny"@),
            "reason"@,
            jstr("allow"@),
            "modified"@,
        ),
        CallerKind::GeminiCli => keyed_reply(
            resp,
            "decision"@,
            jstr("allow"@),
            jstr("deny"@),
            "reason"@,
            jstr("allow"@),
            "tool_input"@,
        ),
        CallerKind::Hermes => match resp {
            ResponseModel::Approve => JsonModel::Object(seq![]),
            ResponseModel::Block(msg) => object2(
                "action"@,
                jstr("block"@),
                "message"@,
                jstr(msg),
            ),
            ResponseModel::Modify(input) => object2(
                "action"@,
                jstr("modify"@),
                "tool_input"@,
                JsonModel::Object(input),
            ),
        },
    }
}

fn jstring(s: &str) -> (r: Json)
    ensures
        r@ == jstr(s@),
{
    Json::Str(String::from_str(s))
}

fn empty_object() -> (r: Json)
    ensures
        r@ == JsonModel::Object(seq![]),
{
    let v: JsonMap = Vec::new();
    let r = Json::Object(v);
    assert(entries_view(&v) =~= seq![]);
    r
}

fn make_object1(k1: &str, v1: Json) -> (r: Json)
    ensures
        r@ == object1(k1@, v1@),
{
    let v: JsonMap = vec![(String::from_str(k1), v1)];
    assert(entries_view(&v) =~= seq![(k1@, v1@)]);
    Json::Object(v)
}

fn make_object2(k1: &str, v1: Json, k2: &str, v2: Json) -> (r: Json)
    ensures
        r@ == object2(k1@, v1@, k2@, v2@),
{
    let v: JsonMap = vec![(String::from_str(k1), v1), (String::from_str(k2), v2)];
    assert(entries_view(&v) =~= seq![(k1@, v1@), (k2@, v2@)]);
    Json::Object(v)
}

fn input_copy(input: &JsonMap) -> (r: Json)
    ensures
        r@ == JsonModel::Object(entries_view(input)),
{
    Json::Object(clone_entries(input))
}

/// Serialize a [`HookResponse`] into the JSON format expected by the detected caller.
///
/// Does not use event-type context. For PreToolUse blocking on `ClaudeCode`, prefer
/// [`serialize_response_with_event`] so the correct `hookSpecificOutput` format is used.
pub fn serialize_response(resp: &HookResponse, caller: &CallerKind) -> (r: Json)
    ensures
        r@ == spec_reply(resp@, *caller, None),
{
    serialize_response_with_event(resp, caller, None)
}

/// Like [`serialize_response`] but uses the event type to pick the correct block format.
/// For `ClaudeCode` + `tool:before`, emits `hookSpecificOutput.permissionDecision: "deny"`
/// instead of `decision: "block"` (which would terminate the whole session).
pub fn serialize_response_with_event(
    resp: &HookResponse,
    caller: &CallerKind,
    event: Option<HookEventEvent>,
) -> (r: Json)
    ensures
        r@ == spec_reply(resp@, *caller, event),
{
    match caller {
        CallerKind::ClaudeCode | CallerKind::Unknown => serialize_claude_code(resp, event),
        CallerKind::Cursor => serialize_cursor(resp),
        CallerKind::Windsurf => serialize_windsurf(resp),
        CallerKind::Cline => serialize_cline(resp),
        CallerKind::Amp => serialize_amp(resp),
        CallerKind::GeminiCli => serialize_gemini_cli(resp),
        CallerKind::Hermes => serialize_hermes(resp),
    }
}

fn serialize_claude_code(resp: &HookResponse, event: Option<HookEventEvent>) -> (r: Json)
    ensures
        r@ == claude_code_reply(resp@, event),
{
    match resp {
        HookResponse::ApproveResponse(_) => empty_object(),
        HookResponse::BlockResponse(b) => {
            if matches!(event, Some(HookEventEvent::ToolBefore)) {
                let v: JsonMap = vec![
                    (String::from_str("hookEventName"), jstring("PreToolUse")),
                    (String::from_str("permissionDecision"), jstring("deny")),
                    (String::from_str("permissionDecisionReason"), Json::Str(b.message.clone())),
                ];
                assert(entries_view(&v) =~= seq![
                    ("hookEventName"@, jstr("PreToolUse"@)),
                    ("permissionDecision"@, jstr("deny"@)),
                    ("permissionDecisionReason"@, jstr(b.message@)),
                ]);
                make_object1("hookSpecificOutput", Json::Object(v))
            } else {
                make_object2("decision", jstring("block"), "reason", Json::Str(b.message.clone()))
            }
        },
        HookResponse::ModifyResponse(m) => make_object2(
            "decision",
            jstring("approve"),
            "tool_input",
            input_copy(&m.input),
        ),
    }
}

fn serialize_cursor(resp: &HookResponse) -> (r: Json)
    ensures
        r@ == spec_reply(resp@, CallerKind::Cursor, None),
{
    match resp {
        HookResponse::ApproveResponse(_) => make_object1("action", jstring("allow")),
        HookResponse::BlockResponse(b) => make_object2(
            "action",
            jstring("deny"),
            "message",
            Json::Str(b.message.clone()),
        ),
        HookResponse::ModifyResponse(m) => make_object2(
            "action",
            jstring("modify"),
            "args",
            input_copy(&m.input),
        ),
    }
}

fn serialize_windsurf(resp: &HookResponse) -> (r: Json)
    ensures
        r@ == spec_reply(resp@, CallerKind::Windsurf, None),
{
    match resp {
        HookResponse::ApproveResponse(_) => make_object1("allow", Json::Bool(true)),
        HookResponse::BlockResponse(b) => make_object2(
            "allow",
            Json::Bool(false),
            "reason",
            Json::Str(b.message.clone()),
        ),
        HookResponse::ModifyResponse(m) => make_object2(
            "allow",
            Json::Bool(true),
            "modified_parameters",
            input_copy(&m.input),
        ),
    }
}

fn serialize_cline(resp: &HookResponse) -> (r: Json)
    ensures
        r@ == spec_reply(resp@, CallerKind::Cline, None),
{
    match resp {
        HookResponse::ApproveResponse(_) => make_object1("approved", Json::Bool(true)),
        HookResponse::BlockResponse(b) => make_object2(
            "approved",
            Json::Bool(false),
            "reason",
            Json::Str(b.message.clone()),
        ),
        HookResponse::ModifyResponse(m) => make_object2(
            "approved",
            Json::Bool(true),
            "modifiedInput",
            input_copy(&m.input),
        ),
    }
}

fn serialize_amp(resp: &HookResponse) -> (r: Json)
    ensures
        r@ == spec_reply(resp@, CallerKind::Amp, None),
{
    match resp {
        HookResponse::ApproveResponse(_) => make_object1("result", jstring("allow")),
        HookResponse::BlockResponse(b) => make_object2(
            "result",
            jstring("deny"),
            "reason",
            Json::Str(b.message.clone()),
        ),
        HookResponse::ModifyResponse(m) => make_object2(
            "result",
            jstring("allow"),
            "modified",
            input_copy(&m.input),
        ),
    }
}

fn serialize_gemini_cli(resp: &HookResponse) -> (r: Json)
    ensures
        r@ == spec_reply(resp@, CallerKind::GeminiCli, None),
{
    match resp {
        HookResponse::ApproveResponse(_) => make_object1("decision", jstring("allow")),
        HookResponse::BlockResponse(b) => make_object2(
            "decision",
            jstring("deny"),
            "reason",
            Json::Str(b.message.clone()),
        ),
        HookResponse::ModifyResponse(m) => make_object2(
            "decision",
            jstring("allow"),
            "tool_input",
            input_copy(&m.input),
        ),
    }
}

fn serialize_hermes(resp: &HookResponse) -> (r: Json)
    ensures
        r@ == spec_reply(resp@, CallerKind::Hermes, None),
{
    match resp {
        HookResponse::ApproveResponse(_) => empty_object(),
        HookResponse::BlockResponse(b) => make_object2(
            "action",
            jstring("block"),
            "message",
            Json::Str(b.message.clone()),
        ),
        HookResponse::ModifyResponse(m) => make_object2(
            "action",
            jstring("modify"),
            "tool_input",
            input_copy(&m.input),
        ),
    }
}

/// An unrecognized caller is answered exactly as `ClaudeCode` is.
pub proof fn lemma_unknown_answered_like_claude_code(
    resp: ResponseModel,
    event: Option<HookEventEvent>,
)
    ensures
        spec_reply(resp, CallerKind::Unknown, event) == spec_reply(resp, CallerKind::ClaudeCode, event),
{
}

/// The event only matters to the `ClaudeCode` (and unrecognized) form:
/// every other caller is answered the same whatever the event.
pub proof fn lemma_reply_ignores_event_outside_claude_code(
    resp: ResponseModel,
    caller: CallerKind,
    event: Option<HookEventEvent>,
)
    requires
        caller != CallerKind::ClaudeCode,
        caller != CallerKind::Unknown,
    ensures
        spec_reply(resp, caller, event) == spec_reply(resp, caller, None),
{
}

/// Only a block is answered differently for a tool:before event: approvals
/// and modifications get the same reply whatever the event.
pub proof fn lemma_only_block_depends_on_event(
    resp: ResponseModel,
    caller: CallerKind,
    event: Option<HookEventEvent>,
)
    requires
        !(resp is Block),
    ensures
        spec_reply(resp, caller, event) == spec_reply(resp, caller, None),
{
}

/// The field under which `caller`'s reply to a modify response carries the
/// new tool input.
pub open spec fn reply_input_key(caller: CallerKind) -> Seq<char> {
    match caller {
        CallerKind::Cursor => "args"@,
        CallerKind::Windsurf => "modified_parameters"@,
        CallerKind::Cline => "modifiedInput"@,
        CallerKind::Amp => "modified"@,
        _ => "tool_input"@,
    }
}

/// The field under which `caller`'s reply to a block response carries the
/// reason (outside the `ClaudeCode` tool:before form).
pub open spec fn reply_reason_key(caller: CallerKind) -> Seq<char> {
    match caller {
        CallerKind::Cursor | CallerKind::Hermes => "message"@,
        _ => "reason"@,
    }
}

/// Whether a block is answered in the `ClaudeCode` tool:before form.
pub open spec fn denies_tool_call(caller: CallerKind, event: Option<HookEventEvent>) -> bool {
    (caller == CallerKind::ClaudeCode || caller == CallerKind::Unknown) && event == Some(
        HookEventEvent::ToolBefore,
    )
}

/// Every caller's reply to a modify response carries the new input
/// unchanged.
pub proof fn lemma_modify_reply_carries_input(
    input: Seq<(Seq<char>, JsonModel)>,
    caller: CallerKind,
    event: Option<HookEventEvent>,
)
    ensures
        model_get(spec_reply(ResponseModel::Modify(input), caller, event), reply_input_key(caller))
            == Some(JsonModel::Object(input)),
{
    reveal_strlit("decision");
    reveal_strlit("tool_input");
    reveal_strlit("action");
    reveal_strlit("args");
    reveal_strlit("allow");
    reveal_strlit("modified_parameters");
    reveal_strlit("approved");
    reveal_strlit("modifiedInput");
    reveal_strlit("result");
    reveal_strlit("modified");
    let reply = spec_reply(ResponseModel::Modify(input), caller, event);
    let key = reply_input_key(caller);
    let e = reply->Object_0;
    assert(e.len() == 2 && e[1].0 == key && e[0].0.len() != key.len());
    assert(lookup(e.drop_first(), key) == Some(JsonModel::Object(input)));
}

/// Every caller's reply to a block response carries its reason: in the
/// `ClaudeCode` tool:before form under `hookSpecificOutput`, and otherwise under
/// the caller's reason field.
pub proof fn lemma_block_reply_carries_message(
    msg: Seq<char>,
    caller: CallerKind,
    event: Option<HookEventEvent>,
)
    ensures
        denies_tool_call(caller, event) ==> match model_get(
            spec_reply(ResponseModel::Block(msg), caller, event),
            "hookSpecificOutput"@,
        ) {
            Some(inner) => model_get(inner, "permissionDecisionReason"@) == Some(jstr(msg)),
            None => false,
        },
        !denies_tool_call(caller, event) ==> model_get(
            spec_reply(ResponseModel::Block(msg), caller, event),
            reply_reason_key(caller),
        ) == Some(jstr(msg)),
{
    reveal_strlit("decision");
    reveal_strlit("reason");
    reveal_strlit("action");
    reveal_strlit("message");
    reveal_strlit("allow");
    reveal_strlit("approved");
    reveal_strlit("result");
    reveal_strlit("hookSpecificOutput");
    reveal_strlit("hookEventName");
    reveal_strlit("permissionDecision");
    reveal_strlit("permissionDecisionReason");
    let reply = spec_reply(ResponseModel::Block(msg), caller, event);
    let e = reply->Object_0;
    if denies_tool_call(caller, event) {
        let inner = e[0].1;
        let ie = inner->Object_0;
        assert(lookup(e, "hookSpecificOutput"@) == Some(inner));
        assert(ie.drop_first().drop_first().len() == 1);
        assert(ie.drop_first()[0].0 == "permissionDecision"@);
        assert("permissionDecision"@.len() != "permissionDecisionReason"@.len());
        assert(ie[0].0.len() != "permissionDecisionReason"@.len());
        assert(lookup(ie.drop_first().drop_first(), "permissionDecisionReason"@) == Some(jstr(msg)));
        assert(lookup(ie.drop_first(), "permissionDecisionReason"@) == Some(jstr(msg)));
    } else {
        let key = reply_reason_key(caller);
        assert(e.len() == 2);
        assert(e[1].0 == key);
        if caller == CallerKind::Amp {
            assert("result"@[2] != "reason"@[2]);
            assert(e[0].0 == "result"@);
        }
        assert(e[0].0 != key);
        assert(lookup(e.drop_first(), key) == Some(jstr(msg)));
    }
}

} // verus!
