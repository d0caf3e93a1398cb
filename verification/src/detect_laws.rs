//! Caller detection, stated over the literal environment values and JSON
//! field names that identify each agent.
use vstd::prelude::*;

use crate::detect::{spec_detect_caller, CallerEnv};
use crate::field_laws::{present, string_at};
use crate::json::JsonModel;
use crate::text::{hyphenated, lowercase_of};
use crate::types::CallerKind;

verus! {

/// Whether `hook_event_name` holds one of the event names that only Gemini
/// CLI sends.
pub open spec fn names_gemini_only_event(doc: JsonModel) -> bool {
    string_at(doc, "hook_event_name"@) matches Some(n) && (n == "BeforeTool"@ || n == "AfterTool"@
        || n == "BeforeAgent"@ || n == "AfterAgent"@ || n == "BeforeModel"@ || n == "AfterModel"@
        || n == "BeforeToolSelection"@ || n == "PreCompress"@ || n == "SessionStart"@ || n
        == "SessionEnd"@)
}

/// With no variable set, the shape of the document decides: a non-object is
/// unknown; then a Gemini-only `hook_event_name`, `tool_name` with
/// `tool_input`, `type` with `toolCall`, `event` with `parameters`, `type`
/// with `toolName` but no `toolCall`, and `kind` select Gemini CLI,
/// `ClaudeCode`, Cursor, Windsurf, Cline and Amp, in that order; anything
/// else is unknown.
pub proof fn lemma_detect_by_shape(env: CallerEnv, doc: JsonModel)
    requires
        env.polyhook_caller is None,
        !env.claude_code_version,
        !env.cursor_session_id,
        !env.windsurf_session_id,
        !env.cline_session_id,
        !env.amp_session_id,
        !env.gemini_project_dir,
    ensures
        spec_detect_caller(env, doc) == (if !(doc is Object) {
            CallerKind::Unknown
        } else if names_gemini_only_event(doc) {
            CallerKind::GeminiCli
        } else if present(doc, "tool_name"@) && present(doc, "tool_input"@) {
            CallerKind::ClaudeCode
        } else if present(doc, "type"@) && present(doc, "toolCall"@) {
            CallerKind::Cursor
        } else if present(doc, "event"@) && present(doc, "parameters"@) {
            CallerKind::Windsurf
        } else if present(doc, "type"@) && present(doc, "toolName"@) && !present(doc, "toolCall"@) {
            CallerKind::Cline
        } else if present(doc, "kind"@) {
            CallerKind::Amp
        } else {
            CallerKind::Unknown
        }),
{
}

/// Without `POLYHOOK_CALLER`, the first agent variable that is set decides,
/// in the order `CLAUDE_CODE_VERSION`, `CURSOR_SESSION_ID`,
/// `WINDSURF_SESSION_ID`, `CLINE_SESSION_ID`, `AMP_SESSION_ID`,
/// `GEMINI_PROJECT_DIR`, whatever the document is.
pub proof fn lemma_detect_by_variables(env: CallerEnv, doc: JsonModel)
    requires
        env.polyhook_caller is None,
    ensures
        env.claude_code_version ==> spec_detect_caller(env, doc) == CallerKind::ClaudeCode,
        !env.claude_code_version && env.cursor_session_id ==> spec_detect_caller(env, doc)
            == CallerKind::Cursor,
        !env.claude_code_version && !env.cursor_session_id && env.windsurf_session_id
            ==> spec_detect_caller(env, doc) == CallerKind::Windsurf,
        !env.claude_code_version && !env.cursor_session_id && !env.windsurf_session_id
            && env.cline_session_id ==> spec_detect_caller(env, doc) == CallerKind::Cline,
        !env.claude_code_version && !env.cursor_session_id && !env.windsurf_session_id
            && !env.cline_session_id && env.amp_session_id ==> spec_detect_caller(env, doc)
            == CallerKind::Amp,
        !env.claude_code_version && !env.cursor_session_id && !env.windsurf_session_id
            && !env.cline_session_id && !env.amp_session_id && env.gemini_project_dir
            ==> spec_detect_caller(env, doc) == CallerKind::GeminiCli,
{
}

/// Whether a lowercased `POLYHOOK_CALLER` value names a caller.
pub open spec fn names_a_caller(l: Seq<char>) -> bool {
    l == "claudecode"@ || l == hyphenated("claudecode"@, 6) || l == "cursor"@ || l == "windsurf"@
        || l == "cline"@ || l == "amp"@ || l == "geminicli"@ || l == "gemini-cli"@
}

/// `POLYHOOK_CALLER` (compared after lowercasing) overrides everything else
/// when it names a caller; a value that names none is ignored.
pub proof fn lemma_detect_by_override(env: CallerEnv, doc: JsonModel)
    ensures
        env.polyhook_caller matches Some(v) ==> {
            let l = lowercase_of(v@);
            &&& (l == "claudecode"@ || l == hyphenated("claudecode"@, 6)) ==> spec_detect_caller(
                env,
                doc,
            ) == CallerKind::ClaudeCode
            &&& l == "cursor"@ ==> spec_detect_caller(env, doc) == CallerKind::Cursor
            &&& l == "windsurf"@ ==> spec_detect_caller(env, doc) == CallerKind::Windsurf
            &&& l == "cline"@ ==> spec_detect_caller(env, doc) == CallerKind::Cline
            &&& l == "amp"@ ==> spec_detect_caller(env, doc) == CallerKind::Amp
            &&& (l == "geminicli"@ || l == "gemini-cli"@) ==> spec_detect_caller(env, doc)
                == CallerKind::GeminiCli
            &&& !names_a_caller(l) ==> spec_detect_caller(env, doc) == spec_detect_caller(
                CallerEnv { polyhook_caller: None, ..env },
                doc,
            )
        },
{
    reveal_strlit("claudecode");
    reveal_strlit("cursor");
    reveal_strlit("windsurf");
    reveal_strlit("cline");
    reveal_strlit("amp");
    reveal_strlit("geminicli");
    reveal_strlit("gemini-cli");
    let cc = hyphenated("claudecode"@, 6);
    let gc = hyphenated("geminicli"@, 6);
    assert(gc =~= "gemini-cli"@);
    assert(cc.len() == 11);
    assert("claudecode"@.len() == 10 && "cursor"@.len() == 6 && "windsurf"@.len() == 8);
    assert("cline"@.len() == 5 && "amp"@.len() == 3 && "geminicli"@.len() == 9);
    assert("gemini-cli"@[0] != "claudecode"@[0]);
}

} // verus!
