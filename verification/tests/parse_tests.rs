//! `parse_event` on caller-shaped documents.

use polyhook_core::json::entries_get;
use polyhook_core::parse::parse_event;
use polyhook_core::{CallerEnv, CallerKind, Json, JsonMap};

// The caller-shaped documents that the cases below read.
fn fixture(name: &str) -> Vec<u8> {
    let text = match name {
        "cc-pre-tool.json" => r#"{"type":"PreToolUse","tool_name":"Bash","tool_input":{"command":"ls -la"},"session_id":"sess_cc_123","agent_id":"agent_001"}"#,
        "cc-post-tool.json" => r#"{"type":"PostToolUse","tool_name":"Read","tool_input":{"file_path":"/tmp/foo.txt"},"tool_output":{"content":"hello world"},"session_id":"sess_cc_123"}"#,
        "cc-startup.json" => r#"{"type":"Startup","session_id":"sess_cc_123"}"#,
        "cursor-before-tool.json" => r#"{"type":"BeforeToolCall","toolCall":{"name":"run_terminal_cmd","args":{"command":"ls -la"}},"sessionId":"sess_cur_456"}"#,
        "cursor-after-tool.json" => r#"{"type":"AfterToolCall","toolCall":{"name":"read_file","args":{"path":"/tmp/foo.txt"},"result":{"content":"hello"}},"sessionId":"sess_cur_456"}"#,
        "cursor-session-start.json" => r#"{"type":"SessionStart","sessionId":"sess_cur_456"}"#,
        "windsurf-pre-tool.json" => r#"{"event":"pre_tool","tool":"run_command","parameters":{"command":"ls -la"},"session":"sess_ws_789"}"#,
        "windsurf-post-tool.json" => r#"{"event":"post_tool","tool":"read_file","parameters":{"path":"/tmp/foo.txt"},"result":{"content":"hello"},"session":"sess_ws_789"}"#,
        "cline-before-tool.json" => r#"{"type":"beforeToolUse","toolName":"execute_command","input":{"command":"ls -la"},"sessionId":"sess_cl_abc"}"#,
        "cline-after-tool.json" => r#"{"type":"afterToolUse","toolName":"read_file","input":{"path":"/tmp/foo.txt"},"output":{"content":"hello"},"sessionId":"sess_cl_abc"}"#,
        "amp-tool-before.json" => r#"{"kind":"tool.before","name":"shell","input":{"command":"ls -la"},"sessionId":"sess_amp_def"}"#,
        "amp-tool-after.json" => r#"{"kind":"tool.after","name":"file.read","input":{"path":"/tmp/foo.txt"},"output":{"content":"hello"},"sessionId":"sess_amp_def"}"#,
        _ => panic!("no fixture named {name}"),
    };
    text.as_bytes().to_vec()
}

fn parse(raw: &[u8]) -> Result<polyhook_core::HookEvent, String> {
    parse_event(raw, &CallerEnv::default())
}

fn field<'a>(map: &'a JsonMap, key: &str) -> &'a Json {
    entries_get(map, key).expect("field should be present")
}

fn s(text: &str) -> Json {
    Json::Str(text.to_string())
}

// ---------------------------------------------------------------------------
// ClaudeCode
// ---------------------------------------------------------------------------

#[test]
fn parse_tests_claude_code_pre_tool() {
    let raw = fixture("cc-pre-tool.json");
    let evt = parse(&raw).expect("parse failed");

    assert_eq!(evt.caller, CallerKind::ClaudeCode);
    assert_eq!(evt.event.to_string(), "tool:before");
    assert_eq!(evt.tool.as_deref(), Some("bash"));
    assert_eq!(evt.session_id, "sess_cc_123");
    assert_eq!(evt.agent_id.as_deref(), Some("agent_001"));

    let input = evt.input.expect("input should be present");
    assert_eq!(field(&input, "command"), &s("ls -la"));

    assert!(evt.output.is_none());
}

#[test]
fn parse_tests_claude_code_post_tool() {
    let raw = fixture("cc-post-tool.json");
    let evt = parse(&raw).expect("parse failed");

    assert_eq!(evt.caller, CallerKind::ClaudeCode);
    assert_eq!(evt.event.to_string(), "tool:after");
    assert_eq!(evt.tool.as_deref(), Some("read_file"));
    assert_eq!(evt.session_id, "sess_cc_123");
    assert!(evt.agent_id.is_none());

    let input = evt.input.expect("input should be present");
    assert_eq!(field(&input, "file_path"), &s("/tmp/foo.txt"));

    let output = evt.output.expect("output should be present");
    assert_eq!(field(&output, "content"), &s("hello world"));
}

#[test]
fn parse_tests_claude_code_startup() {
    // Bare startup fixture has no tool_name/toolCall — heuristic detects Unknown.
    // Non-canonical event name "Startup" falls back to HookEventEvent::Notification.
    let raw = fixture("cc-startup.json");
    let evt = parse(&raw).expect("parse failed");

    assert_eq!(evt.caller, CallerKind::Unknown);
    assert_eq!(evt.session_id, "sess_cc_123");
    assert!(evt.tool.is_none());
    // "Startup" is not a canonical HookEventEvent variant; falls back to "notification".
    assert_eq!(evt.event.to_string(), "notification");
}

// ---------------------------------------------------------------------------
// Cursor
// ---------------------------------------------------------------------------

#[test]
fn parse_tests_cursor_before_tool() {
    let raw = fixture("cursor-before-tool.json");
    let evt = parse(&raw).expect("parse failed");

    assert_eq!(evt.caller, CallerKind::Cursor);
    assert_eq!(evt.event.to_string(), "tool:before");
    assert_eq!(evt.tool.as_deref(), Some("bash"));
    assert_eq!(evt.session_id, "sess_cur_456");

    let input = evt.input.expect("input should be present");
    assert_eq!(field(&input, "command"), &s("ls -la"));

    assert!(evt.output.is_none());
}

#[test]
fn parse_tests_cursor_after_tool() {
    let raw = fixture("cursor-after-tool.json");
    let evt = parse(&raw).expect("parse failed");

    assert_eq!(evt.caller, CallerKind::Cursor);
    assert_eq!(evt.event.to_string(), "tool:after");
    assert_eq!(evt.tool.as_deref(), Some("read_file"));
    assert_eq!(evt.session_id, "sess_cur_456");

    let input = evt.input.expect("input should be present");
    assert_eq!(field(&input, "path"), &s("/tmp/foo.txt"));

    let output = evt.output.expect("output should be present");
    assert_eq!(field(&output, "content"), &s("hello"));
}

#[test]
fn parse_tests_cursor_session_start() {
    // No toolCall field → Cursor heuristic doesn't fire → Unknown.
    let raw = fixture("cursor-session-start.json");
    let evt = parse(&raw).expect("parse failed");

    assert_eq!(evt.caller, CallerKind::Unknown);
    assert_eq!(evt.session_id, "sess_cur_456");
    assert!(evt.tool.is_none());
    // "SessionStart" is not canonical; falls back to "notification".
    assert_eq!(evt.event.to_string(), "notification");
}

// ---------------------------------------------------------------------------
// Windsurf
// ---------------------------------------------------------------------------

#[test]
fn parse_tests_windsurf_pre_tool() {
    let raw = fixture("windsurf-pre-tool.json");
    let evt = parse(&raw).expect("parse failed");

    assert_eq!(evt.caller, CallerKind::Windsurf);
    assert_eq!(evt.event.to_string(), "tool:before");
    assert_eq!(evt.tool.as_deref(), Some("bash"));
    assert_eq!(evt.session_id, "sess_ws_789");

    let input = evt.input.expect("input should be present");
    assert_eq!(field(&input, "command"), &s("ls -la"));

    assert!(evt.output.is_none());
}

#[test]
fn parse_tests_windsurf_post_tool() {
    let raw = fixture("windsurf-post-tool.json");
    let evt = parse(&raw).expect("parse failed");

    assert_eq!(evt.caller, CallerKind::Windsurf);
    assert_eq!(evt.event.to_string(), "tool:after");
    assert_eq!(evt.tool.as_deref(), Some("read_file"));
    assert_eq!(evt.session_id, "sess_ws_789");

    let input = evt.input.expect("input should be present");
    assert_eq!(field(&input, "path"), &s("/tmp/foo.txt"));

    let output = evt.output.expect("output should be present");
    assert_eq!(field(&output, "content"), &s("hello"));
}

// ---------------------------------------------------------------------------
// Cline
// ---------------------------------------------------------------------------

#[test]
fn parse_tests_cline_before_tool() {
    let raw = fixture("cline-before-tool.json");
    let evt = parse(&raw).expect("parse failed");

    assert_eq!(evt.caller, CallerKind::Cline);
    assert_eq!(evt.event.to_string(), "tool:before");
    assert_eq!(evt.tool.as_deref(), Some("bash"));
    assert_eq!(evt.session_id, "sess_cl_abc");

    let input = evt.input.expect("input should be present");
    assert_eq!(field(&input, "command"), &s("ls -la"));

    assert!(evt.output.is_none());
}

#[test]
fn parse_tests_cline_after_tool() {
    let raw = fixture("cline-after-tool.json");
    let evt = parse(&raw).expect("parse failed");

    assert_eq!(evt.caller, CallerKind::Cline);
    assert_eq!(evt.event.to_string(), "tool:after");
    assert_eq!(evt.tool.as_deref(), Some("read_file"));
    assert_eq!(evt.session_id, "sess_cl_abc");

    let input = evt.input.expect("input should be present");
    assert_eq!(field(&input, "path"), &s("/tmp/foo.txt"));

    let output = evt.output.expect("output should be present");
    assert_eq!(field(&output, "content"), &s("hello"));
}

// ---------------------------------------------------------------------------
// Amp
// ---------------------------------------------------------------------------

#[test]
fn parse_tests_amp_tool_before() {
    let raw = fixture("amp-tool-before.json");
    let evt = parse(&raw).expect("parse failed");

    assert_eq!(evt.caller, CallerKind::Amp);
    assert_eq!(evt.event.to_string(), "tool:before");
    assert_eq!(evt.tool.as_deref(), Some("bash"));
    assert_eq!(evt.session_id, "sess_amp_def");

    let input = evt.input.expect("input should be present");
    assert_eq!(field(&input, "command"), &s("ls -la"));

    assert!(evt.output.is_none());
}

#[test]
fn parse_tests_amp_tool_after() {
    let raw = fixture("amp-tool-after.json");
    let evt = parse(&raw).expect("parse failed");

    assert_eq!(evt.caller, CallerKind::Amp);
    assert_eq!(evt.event.to_string(), "tool:after");
    assert_eq!(evt.tool.as_deref(), Some("read_file"));
    assert_eq!(evt.session_id, "sess_amp_def");

    let input = evt.input.expect("input should be present");
    assert_eq!(field(&input, "path"), &s("/tmp/foo.txt"));

    let output = evt.output.expect("output should be present");
    assert_eq!(field(&output, "content"), &s("hello"));
}
