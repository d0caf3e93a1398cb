//! End-to-end use of the library's public functions.

use polyhook_core::detect::detect_caller;
use polyhook_core::events::normalize_event;
use polyhook_core::json::entries_get;
use polyhook_core::parse::parse_event;
use polyhook_core::response::serialize_response;
use polyhook_core::tools::normalize_tool;
use polyhook_core::{CallerEnv, CallerKind, HookEvent, HookResponse, Json, JsonMap};

fn s(text: &str) -> Json {
    Json::Str(text.to_string())
}

#[allow(dead_code)]
fn obj(entries: Vec<(&str, Json)>) -> Json {
    Json::Object(entries.into_iter().map(|(k, v)| (k.to_string(), v)).collect())
}

fn get<'a>(value: &'a Json, key: &str) -> &'a Json {
    value.get(key).expect("field should be present")
}

fn field<'a>(map: &'a JsonMap, key: &str) -> &'a Json {
    entries_get(map, key).expect("field should be present")
}

fn to_json(v: serde_json::Value) -> Json {
    match v {
        serde_json::Value::Null => Json::Null,
        serde_json::Value::Bool(b) => Json::Bool(b),
        serde_json::Value::Number(n) => Json::Number(n.to_string()),
        serde_json::Value::String(s) => Json::Str(s),
        serde_json::Value::Array(a) => Json::Array(a.into_iter().map(to_json).collect()),
        serde_json::Value::Object(m) => {
            Json::Object(m.into_iter().map(|(k, x)| (k, to_json(x))).collect())
        }
    }
}

fn doc(text: &str) -> Json {
    to_json(serde_json::from_str(text).expect("test document should be valid JSON"))
}

// Parsing with none of the agent environment variables set.
fn parse(raw: &[u8]) -> Result<HookEvent, String> {
    parse_event(raw, &CallerEnv::default())
}

// An environment in which only POLYHOOK_CALLER is set.
fn override_env(value: &str) -> CallerEnv {
    let mut env = CallerEnv::default();
    env.polyhook_caller = Some(value.to_string());
    env
}

// POLYHOOK_CALLER's two-word spelling with a hyphen.
fn hyphenated(name: &str) -> String {
    let mut v = name.to_string();
    v.insert(6, '-');
    v
}

const CLAUDE_PRE_TOOL_USE: &str = r#"{"type":"PreToolUse","tool_name":"Bash","tool_input":{"command":"ls -la"},"session_id":"sess_123"}"#;
const CURSOR_BEFORE_TOOL_CALL: &str = r#"{"type":"BeforeToolCall","toolCall":{"name":"run_terminal_cmd","args":{"command":"ls -la"}},"sessionId":"sess_456"}"#;
const WINDSURF_PRE_TOOL: &str = r#"{"event":"pre_tool","tool":"run_command","parameters":{"command":"ls -la"},"session":"sess_789"}"#;
const CLINE_BEFORE_TOOL_USE: &str = r#"{"type":"beforeToolUse","toolName":"execute_command","input":{"command":"ls -la"},"sessionId":"sess_abc"}"#;
const AMP_TOOL_BEFORE: &str = r#"{"kind":"tool.before","name":"shell","input":{"command":"ls -la"},"sessionId":"sess_def"}"#;

#[test]
fn parse_claude_code() {
    let event = parse(CLAUDE_PRE_TOOL_USE.as_bytes()).expect("parse failed");
    assert_eq!(event.caller, CallerKind::ClaudeCode);
    assert_eq!(event.event.to_string(), "tool:before");
    assert_eq!(event.tool.as_deref(), Some("bash"));
    assert_eq!(event.session_id, "sess_123");
    assert_eq!(field(&event.input.expect("input"), "command"), &s("ls -la"));
}

#[test]
fn parse_cursor() {
    let event = parse(CURSOR_BEFORE_TOOL_CALL.as_bytes()).expect("parse failed");
    assert_eq!(event.caller, CallerKind::Cursor);
    assert_eq!(event.event.to_string(), "tool:before");
    assert_eq!(event.tool.as_deref(), Some("bash"));
}

#[test]
fn parse_windsurf() {
    let event = parse(WINDSURF_PRE_TOOL.as_bytes()).expect("parse failed");
    assert_eq!(event.caller, CallerKind::Windsurf);
    assert_eq!(event.tool.as_deref(), Some("bash"));
}

#[test]
fn parse_cline() {
    let event = parse(CLINE_BEFORE_TOOL_USE.as_bytes()).expect("parse failed");
    assert_eq!(event.caller, CallerKind::Cline);
    assert_eq!(event.tool.as_deref(), Some("bash"));
}

#[test]
fn parse_amp() {
    let event = parse(AMP_TOOL_BEFORE.as_bytes()).expect("parse failed");
    assert_eq!(event.caller, CallerKind::Amp);
    assert_eq!(event.tool.as_deref(), Some("bash"));
}

#[test]
fn serialize_claude_code_approve() {
    let val = serialize_response(&HookResponse::approve(), &CallerKind::ClaudeCode);
    assert!(val == Json::Object(vec![]));
}

#[test]
fn serialize_claude_code_block() {
    let val = serialize_response(
        &HookResponse::block("dangerous command"),
        &CallerKind::ClaudeCode,
    );
    assert_eq!(get(&val, "decision"), &s("block"));
    assert_eq!(get(&val, "reason"), &s("dangerous command"));
}

#[test]
fn serialize_cursor_approve() {
    assert_eq!(get(&serialize_response(&HookResponse::approve(), &CallerKind::Cursor), "action"), &s("allow"));
}
#[test]
fn serialize_cursor_block() {
    assert_eq!(get(&serialize_response(&HookResponse::block("x"), &CallerKind::Cursor), "action"), &s("deny"));
}
#[test]
fn serialize_windsurf_approve() {
    assert_eq!(get(&serialize_response(&HookResponse::approve(), &CallerKind::Windsurf), "allow"), &Json::Bool(true));
}
#[test]
fn serialize_cline_approve() {
    assert_eq!(get(&serialize_response(&HookResponse::approve(), &CallerKind::Cline), "approved"), &Json::Bool(true));
}
#[test]
fn serialize_amp_approve() {
    assert_eq!(get(&serialize_response(&HookResponse::approve(), &CallerKind::Amp), "result"), &s("allow"));
}

#[test]
fn detect_env_var_claude_code() {
    let env = override_env(&hyphenated("claudecode"));
    assert_eq!(
    detect_caller(&env, &Json::Object(vec![])),
    CallerKind::ClaudeCode
    );
}

#[test]
fn detect_heuristic_cursor() {
    let val = doc(CURSOR_BEFORE_TOOL_CALL);
    let env = CallerEnv::default();
    assert_eq!(detect_caller(&env, &val), CallerKind::Cursor);
}

#[test]
fn normalize_tool_claude_code_basic() {
    assert_eq!(normalize_tool("Bash", &CallerKind::ClaudeCode), "bash");
    assert_eq!(normalize_tool("Read", &CallerKind::ClaudeCode), "read_file");
}

#[test]
fn normalize_event_claude_code_basic() {
    assert_eq!(
        normalize_event("PreToolUse", &CallerKind::ClaudeCode),
        "tool:before"
    );
    assert_eq!(
        normalize_event("PostToolUse", &CallerKind::ClaudeCode),
        "tool:after"
    );
}
