//! The fields of a parsed event, stated caller by caller over the literal
//! names of the JSON fields that each agent sends.
use vstd::prelude::*;

use crate::detect::{spec_detect_caller, CallerEnv};
use crate::events::spec_normalize_event;
use crate::json::{model_get, JsonModel};
use crate::parse::spec_event_from;
use crate::tools::spec_normalize_tool;
use crate::types::{event_named, CallerKind, HookEventEvent};

verus! {

/// The string under `key`, when `doc` is an object holding a string there.
pub open spec fn string_at(doc: JsonModel, key: Seq<char>) -> Option<Seq<char>> {
    match model_get(doc, key) {
        Some(JsonModel::Str(s)) => Some(s),
        _ => None,
    }
}

/// The entries of the object under `key`, when `doc` holds an object there.
pub open spec fn object_at(doc: JsonModel, key: Seq<char>) -> Option<Seq<(Seq<char>, JsonModel)>> {
    match model_get(doc, key) {
        Some(JsonModel::Object(o)) => Some(o),
        _ => None,
    }
}

/// Whether `doc` is an object with an entry under `key`, of any type.
pub open spec fn present(doc: JsonModel, key: Seq<char>) -> bool {
    model_get(doc, key) is Some
}

/// The canonical event for a raw event name from `caller`.
pub open spec fn canonical_event(raw: Seq<char>, caller: CallerKind) -> HookEventEvent {
    match event_named(spec_normalize_event(raw, caller)) {
        Some(e) => e,
        None => HookEventEvent::Notification,
    }
}

/// Whoever the caller is, the session id is the string under the first of
/// `session_id`, `sessionId`, `session` that holds a string (empty when none
/// does), the agent id the string under the first of `agent_id`, `agentId`,
/// `agent` that holds one, and the event records the detected caller.
pub proof fn lemma_event_ids(doc: JsonModel, env: CallerEnv)
    ensures
        spec_event_from(doc, env).caller == spec_detect_caller(env, doc),
        spec_event_from(doc, env).session_id == (if string_at(doc, "session_id"@) is Some {
            string_at(doc, "session_id"@)->Some_0
        } else if string_at(doc, "sessionId"@) is Some {
            string_at(doc, "sessionId"@)->Some_0
        } else if string_at(doc, "session"@) is Some {
            string_at(doc, "session"@)->Some_0
        } else {
            Seq::empty()
        }),
        spec_event_from(doc, env).agent_id == (if string_at(doc, "agent_id"@) is Some {
            string_at(doc, "agent_id"@)
        } else if string_at(doc, "agentId"@) is Some {
            string_at(doc, "agentId"@)
        } else {
            string_at(doc, "agent"@)
        }),
{
    reveal_with_fuel(crate::parse::first_str, 4);
}

/// For `ClaudeCode`: the event is named by the string under the first of
/// `event`, `hookEvent`, `hook_event`, `type` that holds one (none: the empty name); the tool name is the string under the first of `tool_name` that holds one, the input is the value under the first of `tool_input` that is present, when it is an object, and so is the output under `tool_output`.
/// The tool name is then normalized for the caller.
pub proof fn lemma_claude_code_event_fields(doc: JsonModel, env: CallerEnv)
    requires
        spec_detect_caller(env, doc) == CallerKind::ClaudeCode,
    ensures
        spec_event_from(doc, env).event == canonical_event(
            if string_at(doc, "event"@) is Some {
                string_at(doc, "event"@)->Some_0
            } else if string_at(doc, "hookEvent"@) is Some {
                string_at(doc, "hookEvent"@)->Some_0
            } else if string_at(doc, "hook_event"@) is Some {
                string_at(doc, "hook_event"@)->Some_0
            } else if string_at(doc, "type"@) is Some {
                string_at(doc, "type"@)->Some_0
            } else {
                Seq::empty()
            },
            CallerKind::ClaudeCode,
        ),
        spec_event_from(doc, env).tool == match string_at(doc, "tool_name"@) {
            Some(t) => Some(spec_normalize_tool(t, CallerKind::ClaudeCode)),
            None => None,
        },
        spec_event_from(doc, env).input == object_at(doc, "tool_input"@),
        spec_event_from(doc, env).output == object_at(doc, "tool_output"@),
{
    reveal_with_fuel(crate::parse::first_str, 6);
    reveal_with_fuel(crate::parse::first_present, 5);
}

/// For Cursor: the event is named by the string under the first of
/// `type`, `event` that holds one (none: the empty name); the tool is the string under `toolCall.name`, the input and output the objects under `toolCall.args` and `toolCall.result`.
/// The tool name is then normalized for the caller.
pub proof fn lemma_cursor_event_fields(doc: JsonModel, env: CallerEnv)
    requires
        spec_detect_caller(env, doc) == CallerKind::Cursor,
    ensures
        spec_event_from(doc, env).event == canonical_event(
            if string_at(doc, "type"@) is Some {
                string_at(doc, "type"@)->Some_0
            } else if string_at(doc, "event"@) is Some {
                string_at(doc, "event"@)->Some_0
            } else {
                Seq::empty()
            },
            CallerKind::Cursor,
        ),
        spec_event_from(doc, env).tool == match match model_get(doc, "toolCall"@) {
                Some(call) => string_at(call, "name"@),
                None => None,
            } {
            Some(t) => Some(spec_normalize_tool(t, CallerKind::Cursor)),
            None => None,
        },
        spec_event_from(doc, env).input == match model_get(doc, "toolCall"@) {
            Some(call) => object_at(call, "args"@),
            None => None,
        },
        spec_event_from(doc, env).output == match model_get(doc, "toolCall"@) {
            Some(call) => object_at(call, "result"@),
            None => None,
        },
{
    reveal_with_fuel(crate::parse::first_str, 6);
    reveal_with_fuel(crate::parse::first_present, 5);
}

/// For Windsurf: the event is named by the string under the first of
/// `event`, `type` that holds one (none: the empty name); the tool name is the string under the first of `tool` that holds one, the input is the value under the first of `parameters` that is present, when it is an object, and so is the output under `result`.
/// The tool name is then normalized for the caller.
pub proof fn lemma_windsurf_event_fields(doc: JsonModel, env: CallerEnv)
    requires
        spec_detect_caller(env, doc) == CallerKind::Windsurf,
    ensures
        spec_event_from(doc, env).event == canonical_event(
            if string_at(doc, "event"@) is Some {
                string_at(doc, "event"@)->Some_0
            } else if string_at(doc, "type"@) is Some {
                string_at(doc, "type"@)->Some_0
            } else {
                Seq::empty()
            },
            CallerKind::Windsurf,
        ),
        spec_event_from(doc, env).tool == match string_at(doc, "tool"@) {
            Some(t) => Some(spec_normalize_tool(t, CallerKind::Windsurf)),
            None => None,
        },
        spec_event_from(doc, env).input == object_at(doc, "parameters"@),
        spec_event_from(doc, env).output == object_at(doc, "result"@),
{
    reveal_with_fuel(crate::parse::first_str, 6);
    reveal_with_fuel(crate::parse::first_present, 5);
}

/// For Cline: the event is named by the string under the first of
/// `type`, `event` that holds one (none: the empty name); the tool name is the string under the first of `toolName` that holds one, the input is the value under the first of `args`, `input` that is present, when it is an object, and so is the output under `result`, `output`.
/// The tool name is then normalized for the caller.
pub proof fn lemma_cline_event_fields(doc: JsonModel, env: CallerEnv)
    requires
        spec_detect_caller(env, doc) == CallerKind::Cline,
    ensures
        spec_event_from(doc, env).event == canonical_event(
            if string_at(doc, "type"@) is Some {
                string_at(doc, "type"@)->Some_0
            } else if string_at(doc, "event"@) is Some {
                string_at(doc, "event"@)->Some_0
            } else {
                Seq::empty()
            },
            CallerKind::Cline,
        ),
        spec_event_from(doc, env).tool == match string_at(doc, "toolName"@) {
            Some(t) => Some(spec_normalize_tool(t, CallerKind::Cline)),
            None => None,
        },
        spec_event_from(doc, env).input == (
            if present(doc, "args"@) {
                object_at(doc, "args"@)
            } else {
                object_at(doc, "input"@)
            }
        ),
        spec_event_from(doc, env).output == (
            if present(doc, "result"@) {
                object_at(doc, "result"@)
            } else {
                object_at(doc, "output"@)
            }
        ),
{
    reveal_with_fuel(crate::parse::first_str, 6);
    reveal_with_fuel(crate::parse::first_present, 5);
}

/// For Amp: the event is named by the string under the first of
/// `kind`, `event`, `type` that holds one (none: the empty name); the tool name is the string under the first of `name` that holds one, the input is the value under the first of `args`, `input` that is present, when it is an object, and so is the output under `result`, `output`.
/// The tool name is then normalized for the caller.
pub proof fn lemma_amp_event_fields(doc: JsonModel, env: CallerEnv)
    requires
        spec_detect_caller(env, doc) == CallerKind::Amp,
    ensures
        spec_event_from(doc, env).event == canonical_event(
            if string_at(doc, "kind"@) is Some {
                string_at(doc, "kind"@)->Some_0
            } else if string_at(doc, "event"@) is Some {
                string_at(doc, "event"@)->Some_0
            } else if string_at(doc, "type"@) is Some {
                string_at(doc, "type"@)->Some_0
            } else {
                Seq::empty()
            },
            CallerKind::Amp,
        ),
        spec_event_from(doc, env).tool == match string_at(doc, "name"@) {
            Some(t) => Some(spec_normalize_tool(t, CallerKind::Amp)),
            None => None,
        },
        spec_event_from(doc, env).input == (
            if present(doc, "args"@) {
                object_at(doc, "args"@)
            } else {
                object_at(doc, "input"@)
            }
        ),
        spec_event_from(doc, env).output == (
            if present(doc, "result"@) {
                object_at(doc, "result"@)
            } else {
                object_at(doc, "output"@)
            }
        ),
{
    reveal_with_fuel(crate::parse::first_str, 6);
    reveal_with_fuel(crate::parse::first_present, 5);
}

/// For Gemini CLI: the event is named by the string under the first of
/// `hook_event_name`, `event`, `type`, `kind`, `hookEvent` that holds one (none: the empty name); the tool name is the string under the first of `tool_name`, `toolName`, `tool`, `name` that holds one, the input is the value under the first of `tool_input`, `args`, `parameters`, `input` that is present, when it is an object, and so is the output under `tool_output`, `result`, `output`.
/// The tool name is then normalized for the caller.
pub proof fn lemma_gemini_cli_event_fields(doc: JsonModel, env: CallerEnv)
    requires
        spec_detect_caller(env, doc) == CallerKind::GeminiCli,
    ensures
        spec_event_from(doc, env).event == canonical_event(
            if string_at(doc, "hook_event_name"@) is Some {
                string_at(doc, "hook_event_name"@)->Some_0
            } else if string_at(doc, "event"@) is Some {
                string_at(doc, "event"@)->Some_0
            } else if string_at(doc, "type"@) is Some {
                string_at(doc, "type"@)->Some_0
            } else if string_at(doc, "kind"@) is Some {
                string_at(doc, "kind"@)->Some_0
            } else if string_at(doc, "hookEvent"@) is Some {
                string_at(doc, "hookEvent"@)->Some_0
            } else {
                Seq::empty()
            },
            CallerKind::GeminiCli,
        ),
        spec_event_from(doc, env).tool == match (
                if string_at(doc, "tool_name"@) is Some {
                    string_at(doc, "tool_name"@)
                } else if string_at(doc, "toolName"@) is Some {
                    string_at(doc, "toolName"@)
                } else if string_at(doc, "tool"@) is Some {
                    string_at(doc, "tool"@)
                } else {
                    string_at(doc, "name"@)
                }
            ) {
            Some(t) => Some(spec_normalize_tool(t, CallerKind::GeminiCli)),
            None => None,
        },
        spec_event_from(doc, env).input == (
            if present(doc, "tool_input"@) {
                object_at(doc, "tool_input"@)
            } else if present(doc, "args"@) {
                object_at(doc, "args"@)
            } else if present(doc, "parameters"@) {
                object_at(doc, "parameters"@)
            } else {
                object_at(doc, "input"@)
            }
        ),
        spec_event_from(doc, env).output == (
            if present(doc, "tool_output"@) {
                object_at(doc, "tool_output"@)
            } else if present(doc, "result"@) {
                object_at(doc, "result"@)
            } else {
                object_at(doc, "output"@)
            }
        ),
{
    reveal_with_fuel(crate::parse::first_str, 6);
    reveal_with_fuel(crate::parse::first_present, 5);
}

/// For an unrecognized caller: the event is named by the string under the first of
/// `event`, `type`, `kind`, `hookEvent` that holds one (none: the empty name); the tool name is the string under the first of `tool_name`, `toolName`, `tool`, `name` that holds one, the input is the value under the first of `tool_input`, `args`, `parameters`, `input` that is present, when it is an object, and so is the output under `tool_output`, `result`, `output`.
/// The tool name is then normalized for the caller.
pub proof fn lemma_unknown_event_fields(doc: JsonModel, env: CallerEnv)
    requires
        spec_detect_caller(env, doc) == CallerKind::Unknown,
    ensures
        spec_event_from(doc, env).event == canonical_event(
            if string_at(doc, "event"@) is Some {
                string_at(doc, "event"@)->Some_0
            } else if string_at(doc, "type"@) is Some {
                string_at(doc, "type"@)->Some_0
            } else if string_at(doc, "kind"@) is Some {
                string_at(doc, "kind"@)->Some_0
            } else if string_at(doc, "hookEvent"@) is Some {
                string_at(doc, "hookEvent"@)->Some_0
            } else {
                Seq::empty()
            },
            CallerKind::Unknown,
        ),
        spec_event_from(doc, env).tool == match (
                if string_at(doc, "tool_name"@) is Some {
                    string_at(doc, "tool_name"@)
                } else if string_at(doc, "toolName"@) is Some {
                    string_at(doc, "toolName"@)
                } else if string_at(doc, "tool"@) is Some {
                    string_at(doc, "tool"@)
                } else {
                    string_at(doc, "name"@)
                }
            ) {
            Some(t) => Some(spec_normalize_tool(t, CallerKind::Unknown)),
            None => None,
        },
        spec_event_from(doc, env).input == (
            if present(doc, "tool_input"@) {
                object_at(doc, "tool_input"@)
            } else if present(doc, "args"@) {
                object_at(doc, "args"@)
            } else if present(doc, "parameters"@) {
                object_at(doc, "parameters"@)
            } else {
                object_at(doc, "input"@)
            }
        ),
        spec_event_from(doc, env).output == (
            if present(doc, "tool_output"@) {
                object_at(doc, "tool_output"@)
            } else if present(doc, "result"@) {
                object_at(doc, "result"@)
            } else {
                object_at(doc, "output"@)
            }
        ),
{
    reveal_with_fuel(crate::parse::first_str, 6);
    reveal_with_fuel(crate::parse::first_present, 5);
}

} // verus!
