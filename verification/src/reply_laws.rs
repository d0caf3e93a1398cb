//! The reply that each caller is written, stated over the literal JSON that
//! the agent reads.
use vstd::prelude::*;

use crate::json::{model_get, JsonModel};
use crate::response::spec_reply;
use crate::types::{CallerKind, HookEventEvent, ResponseModel};

verus! {

/// `ClaudeCode` and an unrecognized caller: an approval is `{}`; a block of a
/// `tool:before` event denies the tool call through `hookSpecificOutput`, and
/// any other block is `{"decision": "block", "reason": msg}`; a modification
/// approves with the new input under `tool_input`.
pub proof fn lemma_claude_code_replies(
    caller: CallerKind,
    event: Option<HookEventEvent>,
    msg: Seq<char>,
    input: Seq<(Seq<char>, JsonModel)>,
)
    requires
        caller == CallerKind::ClaudeCode || caller == CallerKind::Unknown,
    ensures
        spec_reply(ResponseModel::Approve, caller, event) == JsonModel::Object(seq![]),
        event == Some(HookEventEvent::ToolBefore) ==> spec_reply(ResponseModel::Block(msg), caller, event)
            == JsonModel::Object(
            seq![
                (
                    "hookSpecificOutput"@,
                    JsonModel::Object(
                        seq![
                            ("hookEventName"@, JsonModel::Str("PreToolUse"@)),
                            ("permissionDecision"@, JsonModel::Str("deny"@)),
                            ("permissionDecisionReason"@, JsonModel::Str(msg)),
                        ],
                    ),
                ),
            ],
        ),
        event != Some(HookEventEvent::ToolBefore) ==> spec_reply(ResponseModel::Block(msg), caller, event)
            == JsonModel::Object(
            seq![("decision"@, JsonModel::Str("block"@)), ("reason"@, JsonModel::Str(msg))],
        ),
        spec_reply(ResponseModel::Modify(input), caller, event) == JsonModel::Object(
            seq![("decision"@, JsonModel::Str("approve"@)), ("tool_input"@, JsonModel::Object(input))],
        ),
{
}

/// Cursor: the approval, block and modification written out.
pub proof fn lemma_cursor_replies(
    event: Option<HookEventEvent>,
    msg: Seq<char>,
    input: Seq<(Seq<char>, JsonModel)>,
)
    ensures
        spec_reply(ResponseModel::Approve, CallerKind::Cursor, event) == JsonModel::Object(seq![("action"@, JsonModel::Str("allow"@))]),
        spec_reply(ResponseModel::Block(msg), CallerKind::Cursor, event) == JsonModel::Object(
            seq![("action"@, JsonModel::Str("deny"@)), ("message"@, JsonModel::Str(msg))],
        ),
        spec_reply(ResponseModel::Modify(input), CallerKind::Cursor, event) == JsonModel::Object(
            seq![("action"@, JsonModel::Str("modify"@)), ("args"@, JsonModel::Object(input))],
        ),
{
}

/// Windsurf: the approval, block and modification written out.
pub proof fn lemma_windsurf_replies(
    event: Option<HookEventEvent>,
    msg: Seq<char>,
    input: Seq<(Seq<char>, JsonModel)>,
)
    ensures
        spec_reply(ResponseModel::Approve, CallerKind::Windsurf, event) == JsonModel::Object(seq![("allow"@, JsonModel::Bool(true))]),
        spec_reply(ResponseModel::Block(msg), CallerKind::Windsurf, event) == JsonModel::Object(
            seq![("allow"@, JsonModel::Bool(false)), ("reason"@, JsonModel::Str(msg))],
        ),
        spec_reply(ResponseModel::Modify(input), CallerKind::Windsurf, event) == JsonModel::Object(
            seq![("allow"@, JsonModel::Bool(true)), ("modified_parameters"@, JsonModel::Object(input))],
        ),
{
}

/// Cline: the approval, block and modification written out.
pub proof fn lemma_cline_replies(
    event: Option<HookEventEvent>,
    msg: Seq<char>,
    input: Seq<(Seq<char>, JsonModel)>,
)
    ensures
        spec_reply(ResponseModel::Approve, CallerKind::Cline, event) == JsonModel::Object(seq![("approved"@, JsonModel::Bool(true))]),
        spec_reply(ResponseModel::Block(msg), CallerKind::Cline, event) == JsonModel::Object(
            seq![("approved"@, JsonModel::Bool(false)), ("reason"@, JsonModel::Str(msg))],
        ),
        spec_reply(ResponseModel::Modify(input), CallerKind::Cline, event) == JsonModel::Object(
            seq![("approved"@, JsonModel::Bool(true)), ("modifiedInput"@, JsonModel::Object(input))],
        ),
{
}

/// Amp: the approval, block and modification written out.
pub proof fn lemma_amp_replies(
    event: Option<HookEventEvent>,
    msg: Seq<char>,
    input: Seq<(Seq<char>, JsonModel)>,
)
    ensures
        spec_reply(ResponseModel::Approve, CallerKind::Amp, event) == JsonModel::Object(seq![("result"@, JsonModel::Str("allow"@))]),
        spec_reply(ResponseModel::Block(msg), CallerKind::Amp, event) == JsonModel::Object(
            seq![("result"@, JsonModel::Str("deny"@)), ("reason"@, JsonModel::Str(msg))],
        ),
        spec_reply(ResponseModel::Modify(input), CallerKind::Amp, event) == JsonModel::Object(
            seq![("result"@, JsonModel::Str("allow"@)), ("modified"@, JsonModel::Object(input))],
        ),
{
}

/// Gemini CLI: the approval, block and modification written out.
pub proof fn lemma_gemini_cli_replies(
    event: Option<HookEventEvent>,
    msg: Seq<char>,
    input: Seq<(Seq<char>, JsonModel)>,
)
    ensures
        spec_reply(ResponseModel::Approve, CallerKind::GeminiCli, event) == JsonModel::Object(seq![("decision"@, JsonModel::Str("allow"@))]),
        spec_reply(ResponseModel::Block(msg), CallerKind::GeminiCli, event) == JsonModel::Object(
            seq![("decision"@, JsonModel::Str("deny"@)), ("reason"@, JsonModel::Str(msg))],
        ),
        spec_reply(ResponseModel::Modify(input), CallerKind::GeminiCli, event) == JsonModel::Object(
            seq![("decision"@, JsonModel::Str("allow"@)), ("tool_input"@, JsonModel::Object(input))],
        ),
{
}

/// Hermes: the approval, block and modification written out.
pub proof fn lemma_hermes_replies(
    event: Option<HookEventEvent>,
    msg: Seq<char>,
    input: Seq<(Seq<char>, JsonModel)>,
)
    ensures
        spec_reply(ResponseModel::Approve, CallerKind::Hermes, event) == JsonModel::Object(seq![]),
        spec_reply(ResponseModel::Block(msg), CallerKind::Hermes, event) == JsonModel::Object(
            seq![("action"@, JsonModel::Str("block"@)), ("message"@, JsonModel::Str(msg))],
        ),
        spec_reply(ResponseModel::Modify(input), CallerKind::Hermes, event) == JsonModel::Object(
            seq![("action"@, JsonModel::Str("modify"@)), ("tool_input"@, JsonModel::Object(input))],
        ),
{
}

/// The field in which `caller`'s reply states its decision.
pub open spec fn decision_key(caller: CallerKind) -> Seq<char> {
    match caller {
        CallerKind::ClaudeCode => "decision"@,
        CallerKind::Unknown => "decision"@,
        CallerKind::Cursor => "action"@,
        CallerKind::Windsurf => "allow"@,
        CallerKind::Cline => "approved"@,
        CallerKind::Amp => "result"@,
        CallerKind::GeminiCli => "decision"@,
        CallerKind::Hermes => "action"@,
    }
}

/// A modification never refuses and a block always does: in every caller's
/// reply, the decision of a block differs from that of a modification, and
/// (where the approval states one) a modification's decision is the
/// approval's or, for Cursor, `"modify"`.  A block's decision also differs
/// from the approval's.
pub proof fn lemma_block_refuses_modify_does_not(
    caller: CallerKind,
    event: Option<HookEventEvent>,
    msg: Seq<char>,
    input: Seq<(Seq<char>, JsonModel)>,
)
    requires
        !(event == Some(HookEventEvent::ToolBefore) && (caller == CallerKind::ClaudeCode
            || caller == CallerKind::Unknown)),
    ensures
        model_get(spec_reply(ResponseModel::Block(msg), caller, event), decision_key(caller))
            != model_get(spec_reply(ResponseModel::Modify(input), caller, event), decision_key(caller)),
        model_get(spec_reply(ResponseModel::Block(msg), caller, event), decision_key(caller))
            != model_get(spec_reply(ResponseModel::Approve, caller, event), decision_key(caller)),
        caller != CallerKind::Cursor && model_get(spec_reply(ResponseModel::Approve, caller, event), decision_key(caller)) is Some
            ==> model_get(spec_reply(ResponseModel::Modify(input), caller, event), decision_key(caller))
            == model_get(spec_reply(ResponseModel::Approve, caller, event), decision_key(caller)),
{
    reveal_strlit("deny");
    reveal_strlit("allow");
    reveal_strlit("modify");
    reveal_strlit("block");
    reveal_strlit("approve");
    assert("deny"@.len() == 4 && "allow"@.len() == 5 && "modify"@.len() == 6);
    assert("block"@.len() == 5 && "approve"@.len() == 7);
    match caller {
        CallerKind::ClaudeCode | CallerKind::Unknown => lemma_claude_code_replies(caller, event, msg, input),
        CallerKind::Cursor => lemma_cursor_replies(event, msg, input),
        CallerKind::Windsurf => lemma_windsurf_replies(event, msg, input),
        CallerKind::Cline => lemma_cline_replies(event, msg, input),
        CallerKind::Amp => lemma_amp_replies(event, msg, input),
        CallerKind::GeminiCli => lemma_gemini_cli_replies(event, msg, input),
        CallerKind::Hermes => lemma_hermes_replies(event, msg, input),
    }
}

} // verus!
