//! Caller detection.  The environment is given explicitly as a `CallerEnv`:
//! each case sets the variables that the corresponding process environment
//! would hold, with every other agent variable unset.

use polyhook_core::detect::detect_caller;
use polyhook_core::{CallerEnv, CallerKind, Json};

fn to_json(v: serde_json::Value) -> Json {
    match v {
        serde_json::Value::Null => Json::Null,
        serde_json::Value::Bool(b) => Json::Bool(b),
        serde_json::Value::Number(n) => Json::Number(n.to_string()),
        serde_json::Value::String(s) => Json::Str(s),
        serde_json::Value::Array(a) => Json::Array(a.into_iter().map(to_json).collect()),
        serde_json::Value::Object(m) => {
            Json::Object(m.into_iter().map(|(k, x)| (k, to_json(x))).collect())
        }
    }
}

fn doc(text: &str) -> Json {
    to_json(serde_json::from_str(text).expect("test document should be valid JSON"))
}

fn clean_env() -> CallerEnv {
    CallerEnv::default()
}

fn override_env(value: &str) -> CallerEnv {
    let mut env = clean_env();
    env.polyhook_caller = Some(value.to_string());
    env
}

#[test]
fn claude_code_version_env_var_detected() {
    let val = doc("{}");
    let mut env = clean_env();
    env.claude_code_version = true; // CLAUDE_CODE_VERSION=1.0.0
    assert_eq!(detect_caller(&env, &val), CallerKind::ClaudeCode);
}

#[test]
fn cursor_session_id_env_var_detected() {
    let val = doc("{}");
    let mut env = clean_env();
    env.cursor_session_id = true; // CURSOR_SESSION_ID=cursor-sess-abc
    assert_eq!(detect_caller(&env, &val), CallerKind::Cursor);
}

#[test]
fn windsurf_session_id_env_var_detected() {
    let val = doc("{}");
    let mut env = clean_env();
    env.windsurf_session_id = true; // WINDSURF_SESSION_ID=ws-sess-xyz
    assert_eq!(detect_caller(&env, &val), CallerKind::Windsurf);
}

#[test]
fn cline_session_id_env_var_detected() {
    let val = doc("{}");
    let mut env = clean_env();
    env.cline_session_id = true; // CLINE_SESSION_ID=cline-sess-999
    assert_eq!(detect_caller(&env, &val), CallerKind::Cline);
}

#[test]
fn amp_session_id_env_var_detected() {
    let val = doc("{}");
    let mut env = clean_env();
    env.amp_session_id = true; // AMP_SESSION_ID=amp-sess-000
    assert_eq!(detect_caller(&env, &val), CallerKind::Amp);
}

#[test]
fn polyhook_caller_garbage_falls_through_to_heuristics() {
    let val = doc(r#"{"tool_name": "Bash", "tool_input": {}, "session_id": "s1"}"#);
    let env = override_env("garbage_value_xyz");
    assert_eq!(detect_caller(&env, &val), CallerKind::ClaudeCode);
}

#[test]
fn polyhook_caller_garbage_with_no_heuristic_match_returns_unknown() {
    let val = doc(r#"{"some_random_key": "some_value"}"#);
    let env = override_env("not_a_known_caller");
    assert_eq!(detect_caller(&env, &val), CallerKind::Unknown);
}

#[test]
fn unknown_json_shape_returns_unknown() {
    let val = doc(r#"{"foo": "bar"}"#);
    assert_eq!(detect_caller(&clean_env(), &val), CallerKind::Unknown);
}

#[test]
fn empty_object_returns_unknown() {
    let val = doc("{}");
    assert_eq!(detect_caller(&clean_env(), &val), CallerKind::Unknown);
}

#[test]
fn non_object_json_returns_unknown() {
    let val = doc(r#"["tool_name", "tool_input"]"#);
    assert_eq!(detect_caller(&clean_env(), &val), CallerKind::Unknown);
}

#[test]
fn polyhook_caller_claudecode_alias_detected() {
    let val = doc("{}");
    let env = override_env("claudecode");
    assert_eq!(detect_caller(&env, &val), CallerKind::ClaudeCode);
}

// ---------------------------------------------------------------------------
// Further cases
// ---------------------------------------------------------------------------

fn hyphenated(name: &str) -> String {
    let mut v = name.to_string();
    v.insert(6, '-');
    v
}

#[test]
fn polyhook_caller_hyphenated_names_detected() {
    let val = doc("{}");
    assert_eq!(detect_caller(&override_env(&hyphenated("claudecode")), &val), CallerKind::ClaudeCode);
    assert_eq!(detect_caller(&override_env(&hyphenated("geminicli")), &val), CallerKind::GeminiCli);
    assert_eq!(detect_caller(&override_env("geminicli"), &val), CallerKind::GeminiCli);
}

#[test]
fn polyhook_caller_is_case_insensitive() {
    let val = doc("{}");
    assert_eq!(detect_caller(&override_env("CURSOR"), &val), CallerKind::Cursor);
    assert_eq!(detect_caller(&override_env("WindSurf"), &val), CallerKind::Windsurf);
    assert_eq!(detect_caller(&override_env("Cline"), &val), CallerKind::Cline);
    assert_eq!(detect_caller(&override_env("AMP"), &val), CallerKind::Amp);
}

#[test]
fn polyhook_caller_beats_agent_variables_and_shape() {
    let val = doc(r#"{"kind": "tool.before"}"#);
    let mut env = override_env("cline");
    env.claude_code_version = true;
    assert_eq!(detect_caller(&env, &val), CallerKind::Cline);
}

#[test]
fn agent_variables_checked_in_order() {
    let val = doc(r#"{"kind": "tool.before"}"#);
    let mut env = clean_env();
    env.amp_session_id = true;
    env.cursor_session_id = true;
    assert_eq!(detect_caller(&env, &val), CallerKind::Cursor);
    let mut env = clean_env();
    env.gemini_project_dir = true;
    assert_eq!(detect_caller(&env, &val), CallerKind::GeminiCli);
}

#[test]
fn gemini_hook_event_names_detected() {
    for name in ["BeforeTool", "AfterTool", "BeforeAgent", "AfterAgent", "BeforeModel",
        "AfterModel", "BeforeToolSelection", "PreCompress", "SessionStart", "SessionEnd"] {
        let text = format!(r#"{{"hook_event_name": "{}", "tool_name": "x", "tool_input": {{}}}}"#, name);
        assert_eq!(detect_caller(&clean_env(), &doc(&text)), CallerKind::GeminiCli);
    }
    let other = doc(r#"{"hook_event_name": "PreToolUse", "tool_name": "x", "tool_input": {}}"#);
    assert_eq!(detect_caller(&clean_env(), &other), CallerKind::ClaudeCode);
}

#[test]
fn shape_heuristics_in_order() {
    let env = clean_env();
    assert_eq!(detect_caller(&env, &doc(r#"{"type": "a", "toolCall": {}}"#)), CallerKind::Cursor);
    assert_eq!(detect_caller(&env, &doc(r#"{"event": "a", "parameters": {}}"#)), CallerKind::Windsurf);
    assert_eq!(detect_caller(&env, &doc(r#"{"type": "a", "toolName": "b"}"#)), CallerKind::Cline);
    assert_eq!(
        detect_caller(&env, &doc(r#"{"type": "a", "toolName": "b", "toolCall": {}}"#)),
        CallerKind::Cursor
    );
    assert_eq!(detect_caller(&env, &doc(r#"{"kind": 1}"#)), CallerKind::Amp);
    assert_eq!(detect_caller(&env, &doc(r#""just a string""#)), CallerKind::Unknown);
}
