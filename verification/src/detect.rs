//! Detection of the agent that invoked the hook.
use vstd::prelude::*;

use crate::json::{model_get, model_str_field, Json, JsonModel};
use crate::text::{
    ascii_lowercase, eq_with_optional_hyphen, hyphenated, is_ascii_chars, lowercase_of, str_eq,
    to_lowercase,
};
use crate::types::CallerKind;

verus! {

/// What detection reads from the process environment: the value of
/// `POLYHOOK_CALLER` (when it is set to valid Unicode), and whether each
/// agent-specific variable is set to valid Unicode.
#[derive(Debug)]
pub struct CallerEnv {
    /// `POLYHOOK_CALLER`.
    pub polyhook_caller: Option<String>,
    /// `CLAUDE_CODE_VERSION`.
    pub claude_code_version: bool,
    /// `CURSOR_SESSION_ID`.
    pub cursor_session_id: bool,
    /// `WINDSURF_SESSION_ID`.
    pub windsurf_session_id: bool,
    /// `CLINE_SESSION_ID`.
    pub cline_session_id: bool,
    /// `AMP_SESSION_ID`.
    pub amp_session_id: bool,
    /// `GEMINI_PROJECT_DIR`.
    pub gemini_project_dir: bool,
}

impl Default for CallerEnv {
    /// An environment in which none of the variables is set.
    fn default() -> (r: CallerEnv)
        ensures
            r.polyhook_caller is None,
            !r.claude_code_version,
            !r.cursor_session_id,
            !r.windsurf_session_id,
            !r.cline_session_id,
            !r.amp_session_id,
            !r.gemini_project_dir,
    {
        CallerEnv {
            polyhook_caller: None,
            claude_code_version: false,
            cursor_session_id: false,
            windsurf_session_id: false,
            cline_session_id: false,
            amp_session_id: false,
            gemini_project_dir: false,
        }
    }
}

/// The caller that a lowercased `POLYHOOK_CALLER` value names, if any.  The
/// two-word names are accepted with or without a hyphen between the words.
pub open spec fn override_named(lower: Seq<char>) -> Option<CallerKind> {
    if lower == "claudecode"@ || lower == hyphenated("claudecode"@, 6) {
        Some(CallerKind::ClaudeCode)
    } else if lower == "cursor"@ {
        Some(CallerKind::Cursor)
    } else if lower == "windsurf"@ {
        Some(CallerKind::Windsurf)
    } else if lower == "cline"@ {
        Some(CallerKind::Cline)
    } else if lower == "amp"@ {
        Some(CallerKind::Amp)
    } else if lower == "geminicli"@ || lower == hyphenated("geminicli"@, 6) {
        Some(CallerKind::GeminiCli)
    } else {
        None
    }
}

/// The caller named by the explicit `POLYHOOK_CALLER` override
/// (case-insensitive); nothing when it is unset or names no known caller.
pub open spec fn env_override(env: CallerEnv) -> Option<CallerKind> {
    match env.polyhook_caller {
        Some(v) => override_named(lowercase_of(v@)),
        None => None,
    }
}

/// The caller indicated by the first agent-specific variable that is set.
pub open spec fn env_marker(env: CallerEnv) -> Option<CallerKind> {
    if env.claude_code_version {
        Some(CallerKind::ClaudeCode)
    } else if env.cursor_session_id {
        Some(CallerKind::Cursor)
    } else if env.windsurf_session_id {
        Some(CallerKind::Windsurf)
    } else if env.cline_session_id {
        Some(CallerKind::Cline)
    } else if env.amp_session_id {
        Some(CallerKind::Amp)
    } else if env.gemini_project_dir {
        Some(CallerKind::GeminiCli)
    } else {
        None
    }
}

/// The `hook_event_name` values that only Gemini CLI sends.
pub open spec fn is_gemini_hook_event(s: Seq<char>) -> bool {
    ||| s == "BeforeTool"@
    ||| s == "AfterTool"@
    ||| s == "BeforeAgent"@
    ||| s == "AfterAgent"@
    ||| s == "BeforeModel"@
    ||| s == "AfterModel"@
    ||| s == "BeforeToolSelection"@
    ||| s == "PreCompress"@
    ||| s == "SessionStart"@
    ||| s == "SessionEnd"@
}

/// Whether the JSON value is an object with an entry under `key`.
pub open spec fn has_key(stdin: JsonModel, key: Seq<char>) -> bool {
    model_get(stdin, key) is Some
}

/// The caller that the shape of the stdin document indicates.
pub open spec fn shape_caller(stdin: JsonModel) -> CallerKind {
    if !(stdin is Object) {
        CallerKind::Unknown
    } else if model_str_field(stdin, "hook_event_name"@) matches Some(name)
        && is_gemini_hook_event(name) {
        CallerKind::GeminiCli
    } else if has_key(stdin, "tool_name"@) && has_key(stdin, "tool_input"@) {
        CallerKind::ClaudeCode
    } else if has_key(stdin, "type"@) && has_key(stdin, "toolCall"@) {
        CallerKind::Cursor
    } else if has_key(stdin, "event"@) && has_key(stdin, "parameters"@) {
        CallerKind::Windsurf
    } else if has_key(stdin, "type"@) && has_key(stdin, "toolName"@) && !has_key(
        stdin,
        "toolCall"@,
    ) {
        CallerKind::Cline
    } else if has_key(stdin, "kind"@) {
        CallerKind::Amp
    } else {
        CallerKind::Unknown
    }
}

/// The detected caller: the explicit override first, then the
/// agent-specific variables, then the shape of the document.
pub open spec fn spec_detect_caller(env: CallerEnv, stdin: JsonModel) -> CallerKind {
    match env_override(env) {
        Some(c) => c,
        None => match env_marker(env) {
            Some(c) => c,
            None => shape_caller(stdin),
        },
    }
}

fn caller_named(lower: &str) -> (r: Option<CallerKind>)
    ensures
        r == override_named(lower@),
{
    proof {
        reveal_strlit("claudecode");
        reveal_strlit("geminicli");
    }
    if eq_with_optional_hyphen(lower, "claudecode", 6) {
        Some(CallerKind::ClaudeCode)
    } else if str_eq(lower, "cursor") {
        Some(CallerKind::Cursor)
    } else if str_eq(lower, "windsurf") {
        Some(CallerKind::Windsurf)
    } else if str_eq(lower, "cline") {
        Some(CallerKind::Cline)
    } else if str_eq(lower, "amp") {
        Some(CallerKind::Amp)
    } else if eq_with_optional_hyphen(lower, "geminicli", 6) {
        Some(CallerKind::GeminiCli)
    } else {
        None
    }
}

fn is_gemini_event_name(s: &str) -> (r: bool)
    ensures
        r == is_gemini_hook_event(s@),
{
    str_eq(s, "BeforeTool") || str_eq(s, "AfterTool") || str_eq(s, "BeforeAgent") || str_eq(
        s,
        "AfterAgent",
    ) || str_eq(s, "BeforeModel") || str_eq(s, "AfterModel") || str_eq(s, "BeforeToolSelection")
        || str_eq(s, "PreCompress") || str_eq(s, "SessionStart") || str_eq(s, "SessionEnd")
}

fn detect_from_shape(stdin: &Json) -> (r: CallerKind)
    ensures
        r == shape_caller(stdin@),
{
    if !(stdin matches Json::Object(_)) {
        return CallerKind::Unknown;
    }
    let gemini = match stdin.str_field("hook_event_name") {
        Some(name) => is_gemini_event_name(name.as_str()),
        None => false,
    };
    if gemini {
        CallerKind::GeminiCli
    } else if stdin.contains_key("tool_name") && stdin.contains_key("tool_input") {
        CallerKind::ClaudeCode
    } else if stdin.contains_key("type") && stdin.contains_key("toolCall") {
        CallerKind::Cursor
    } else if stdin.contains_key("event") && stdin.contains_key("parameters") {
        CallerKind::Windsurf
    } else if stdin.contains_key("type") && stdin.contains_key("toolName")
        && !stdin.contains_key("toolCall") {
        CallerKind::Cline
    } else if stdin.contains_key("kind") {
        CallerKind::Amp
    } else {
        CallerKind::Unknown
    }
}

/// Detect which agent is calling the hook.
///
/// Priority:
/// 1. `POLYHOOK_CALLER` (explicit override)
/// 2. Agent-specific environment variables
/// 3. Heuristics on the shape of the stdin JSON
/// 4. `Unknown`
pub fn detect_caller(env: &CallerEnv, stdin: &Json) -> (r: CallerKind)
    ensures
        r == spec_detect_caller(*env, stdin@),
        env.polyhook_caller matches Some(v) ==> (is_ascii_chars(v@) ==> r == match override_named(
            ascii_lowercase(v@),
        ) {
            Some(c) => c,
            None => match env_marker(*env) {
                Some(c) => c,
                None => shape_caller(stdin@),
            },
        }),
{
    if let Some(val) = &env.polyhook_caller {
        let lower = to_lowercase(val.as_str());
        if let Some(c) = caller_named(lower.as_str()) {
            return c;
        }
    }
    if env.claude_code_version {
        CallerKind::ClaudeCode
    } else if env.cursor_session_id {
        CallerKind::Cursor
    } else if env.windsurf_session_id {
        CallerKind::Windsurf
    } else if env.cline_session_id {
        CallerKind::Cline
    } else if env.amp_session_id {
        CallerKind::Amp
    } else if env.gemini_project_dir {
        CallerKind::GeminiCli
    } else {
        detect_from_shape(stdin)
    }
}

/// An explicit, recognized `POLYHOOK_CALLER` decides the caller, whatever
/// the other variables and the document say.
pub proof fn lemma_override_decides(env: CallerEnv, stdin: JsonModel)
    requires
        env_override(env) is Some,
    ensures
        spec_detect_caller(env, stdin) == env_override(env)->Some_0,
{
}

/// With no variable set, a document that is not a JSON object is from an
/// unknown caller.
pub proof fn lemma_non_object_is_unknown(env: CallerEnv, stdin: JsonModel)
    requires
        env_override(env) is None,
        env_marker(env) is None,
        !(stdin is Object),
    ensures
        spec_detect_caller(env, stdin) == CallerKind::Unknown,
{
}

/// Detection never yields a caller that it has no rule for.
pub proof fn lemma_detect_never_hermes(env: CallerEnv, stdin: JsonModel)
    ensures
        spec_detect_caller(env, stdin) != CallerKind::Hermes,
{
}

} // verus!
