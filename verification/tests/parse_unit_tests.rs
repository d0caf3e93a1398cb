//! Field extraction in `parse_event`.

use polyhook_core::json::entries_get;
use polyhook_core::parse::parse_event;
use polyhook_core::{CallerEnv, CallerKind, Json, JsonMap};

// The caller-shaped documents that the cases below read.
fn fixture(name: &str) -> Vec<u8> {
    let text = match name {
        "cc-pre-tool.json" => r#"{"type":"PreToolUse","tool_name":"Bash","tool_input":{"command":"ls -la"},"session_id":"sess_cc_123","agent_id":"agent_001"}"#,
        "cc-post-tool.json" => r#"{"type":"PostToolUse","tool_name":"Read","tool_input":{"file_path":"/tmp/foo.txt"},"tool_output":{"content":"hello world"},"session_id":"sess_cc_123"}"#,
        "cc-startup.json" => r#"{"type":"Startup","session_id":"sess_cc_123"}"#,
        "cursor-before-tool.json" => r#"{"type":"BeforeToolCall","toolCall":{"name":"run_terminal_cmd","args":{"command":"ls -la"}},"sessionId":"sess_cur_456"}"#,
        "cursor-after-tool.json" => r#"{"type":"AfterToolCall","toolCall":{"name":"read_file","args":{"path":"/tmp/foo.txt"},"result":{"content":"hello"}},"sessionId":"sess_cur_456"}"#,
        "cursor-session-start.json" => r#"{"type":"SessionStart","sessionId":"sess_cur_456"}"#,
        "windsurf-pre-tool.json" => r#"{"event":"pre_tool","tool":"run_command","parameters":{"command":"ls -la"},"session":"sess_ws_789"}"#,
        "windsurf-post-tool.json" => r#"{"event":"post_tool","tool":"read_file","parameters":{"path":"/tmp/foo.txt"},"result":{"content":"hello"},"session":"sess_ws_789"}"#,
        "cline-before-tool.json" => r#"{"type":"beforeToolUse","toolName":"execute_command","input":{"command":"ls -la"},"sessionId":"sess_cl_abc"}"#,
        "cline-after-tool.json" => r#"{"type":"afterToolUse","toolName":"read_file","input":{"path":"/tmp/foo.txt"},"output":{"content":"hello"},"sessionId":"sess_cl_abc"}"#,
        "amp-tool-before.json" => r#"{"kind":"tool.before","name":"shell","input":{"command":"ls -la"},"sessionId":"sess_amp_def"}"#,
        "amp-tool-after.json" => r#"{"kind":"tool.after","name":"file.read","input":{"path":"/tmp/foo.txt"},"output":{"content":"hello"},"sessionId":"sess_amp_def"}"#,
        _ => panic!("no fixture named {name}"),
    };
    text.as_bytes().to_vec()
}

fn parse(raw: &[u8]) -> Result<polyhook_core::HookEvent, String> {
    parse_event(raw, &CallerEnv::default())
}

fn field<'a>(map: &'a JsonMap, key: &str) -> &'a Json {
    entries_get(map, key).expect("field should be present")
}

fn s(text: &str) -> Json {
    Json::Str(text.to_string())
}

#[test]
fn parse_claude_code_pre_tool() {
    let raw = fixture("cc-pre-tool.json");
    let evt = parse(&raw).expect("parse failed");
    assert_eq!(evt.caller, CallerKind::ClaudeCode);
    assert_eq!(evt.event.to_string(), "tool:before");
    assert_eq!(evt.tool.as_deref(), Some("bash"));
    assert_eq!(evt.session_id, "sess_cc_123");
    assert_eq!(evt.agent_id.as_deref(), Some("agent_001"));
    let input = evt.input.expect("input should be present");
    assert_eq!(field(&input, "command"), &s("ls -la"));
    assert!(evt.output.is_none());
}

#[test]
fn parse_claude_code_post_tool() {
    let raw = fixture("cc-post-tool.json");
    let evt = parse(&raw).expect("parse failed");
    assert_eq!(evt.caller, CallerKind::ClaudeCode);
    assert_eq!(evt.event.to_string(), "tool:after");
    assert_eq!(evt.tool.as_deref(), Some("read_file"));
    assert_eq!(evt.session_id, "sess_cc_123");
    assert!(evt.agent_id.is_none());
    let input = evt.input.expect("input should be present");
    assert_eq!(field(&input, "file_path"), &s("/tmp/foo.txt"));
    let output = evt.output.expect("output should be present");
    assert_eq!(field(&output, "content"), &s("hello world"));
}

#[test]
fn parse_claude_code_startup() {
    let raw = fixture("cc-startup.json");
    let evt = parse(&raw).expect("parse failed");
    assert_eq!(evt.caller, CallerKind::Unknown);
    assert_eq!(evt.session_id, "sess_cc_123");
    assert!(evt.tool.is_none());
    assert_eq!(evt.event.to_string(), "notification");
}

#[test]
fn parse_cursor_before_tool() {
    let raw = fixture("cursor-before-tool.json");
    let evt = parse(&raw).expect("parse failed");
    assert_eq!(evt.caller, CallerKind::Cursor);
    assert_eq!(evt.event.to_string(), "tool:before");
    assert_eq!(evt.tool.as_deref(), Some("bash"));
    assert_eq!(evt.session_id, "sess_cur_456");
    let input = evt.input.expect("input should be present");
    assert_eq!(field(&input, "command"), &s("ls -la"));
    assert!(evt.output.is_none());
}

#[test]
fn parse_cursor_after_tool() {
    let raw = fixture("cursor-after-tool.json");
    let evt = parse(&raw).expect("parse failed");
    assert_eq!(evt.caller, CallerKind::Cursor);
    assert_eq!(evt.event.to_string(), "tool:after");
    assert_eq!(evt.tool.as_deref(), Some("read_file"));
    assert_eq!(evt.session_id, "sess_cur_456");
    let input = evt.input.expect("input should be present");
    assert_eq!(field(&input, "path"), &s("/tmp/foo.txt"));
    let output = evt.output.expect("output should be present");
    assert_eq!(field(&output, "content"), &s("hello"));
}

#[test]
fn parse_cursor_session_start() {
    let raw = fixture("cursor-session-start.json");
    let evt = parse(&raw).expect("parse failed");
    assert_eq!(evt.caller, CallerKind::Unknown);
    assert_eq!(evt.session_id, "sess_cur_456");
    assert!(evt.tool.is_none());
    assert_eq!(evt.event.to_string(), "notification");
}

#[test]
fn parse_windsurf_pre_tool() {
    let raw = fixture("windsurf-pre-tool.json");
    let evt = parse(&raw).expect("parse failed");
    assert_eq!(evt.caller, CallerKind::Windsurf);
    assert_eq!(evt.event.to_string(), "tool:before");
    assert_eq!(evt.tool.as_deref(), Some("bash"));
    assert_eq!(evt.session_id, "sess_ws_789");
    let input = evt.input.expect("input should be present");
    assert_eq!(field(&input, "command"), &s("ls -la"));
    assert!(evt.output.is_none());
}

#[test]
fn parse_windsurf_post_tool() {
    let raw = fixture("windsurf-post-tool.json");
    let evt = parse(&raw).expect("parse failed");
    assert_eq!(evt.caller, CallerKind::Windsurf);
    assert_eq!(evt.event.to_string(), "tool:after");
    assert_eq!(evt.tool.as_deref(), Some("read_file"));
    assert_eq!(evt.session_id, "sess_ws_789");
    let input = evt.input.expect("input should be present");
    assert_eq!(field(&input, "path"), &s("/tmp/foo.txt"));
    let output = evt.output.expect("output should be present");
    assert_eq!(field(&output, "content"), &s("hello"));
}

#[test]
fn parse_cline_before_tool() {
    let raw = fixture("cline-before-tool.json");
    let evt = parse(&raw).expect("parse failed");
    assert_eq!(evt.caller, CallerKind::Cline);
    assert_eq!(evt.event.to_string(), "tool:before");
    assert_eq!(evt.tool.as_deref(), Some("bash"));
    assert_eq!(evt.session_id, "sess_cl_abc");
    let input = evt.input.expect("input should be present");
    assert_eq!(field(&input, "command"), &s("ls -la"));
    assert!(evt.output.is_none());
}

#[test]
fn parse_cline_after_tool() {
    let raw = fixture("cline-after-tool.json");
    let evt = parse(&raw).expect("parse failed");
    assert_eq!(evt.caller, CallerKind::Cline);
    assert_eq!(evt.event.to_string(), "tool:after");
    assert_eq!(evt.tool.as_deref(), Some("read_file"));
    assert_eq!(evt.session_id, "sess_cl_abc");
    let input = evt.input.expect("input should be present");
    assert_eq!(field(&input, "path"), &s("/tmp/foo.txt"));
    let output = evt.output.expect("output should be present");
    assert_eq!(field(&output, "content"), &s("hello"));
}

#[test]
fn parse_amp_tool_before() {
    let raw = fixture("amp-tool-before.json");
    let evt = parse(&raw).expect("parse failed");
    assert_eq!(evt.caller, CallerKind::Amp);
    assert_eq!(evt.event.to_string(), "tool:before");
    assert_eq!(evt.tool.as_deref(), Some("bash"));
    assert_eq!(evt.session_id, "sess_amp_def");
    let input = evt.input.expect("input should be present");
    assert_eq!(field(&input, "command"), &s("ls -la"));
    assert!(evt.output.is_none());
}

#[test]
fn unknown_caller_tool_found_no_session() {
    // No env vars + JSON shape → Unknown; tool_name present → hits extract_tool_field Unknown branch
    // No session_id/sessionId/session → hits String::new() in extract_session_id
    // No event/type/kind/hookEvent → hits String::new() in extract_event_field
    let raw = br#"{"tool_name": "bash"}"#;
    let evt = parse(raw).expect("parse failed");
    assert_eq!(evt.caller, CallerKind::Unknown);
    assert_eq!(evt.tool.as_deref(), Some("bash"));
    assert_eq!(evt.session_id, "");
}

#[test]
fn non_object_tool_input_returns_none() {
    // ClaudeCode shape but tool_input is a string → into_map returns None for non-Object
    let raw =
        br#"{"type":"PreToolUse","tool_name":"Bash","tool_input":"not-an-object","session_id":"s1"}"#;
    let evt = parse(raw).expect("parse failed");
    assert_eq!(evt.caller, CallerKind::ClaudeCode);
    assert!(evt.input.is_none());
}

#[test]
fn unknown_caller_input_found_via_tool_input_key() {
    // tool_input present but no tool_name → Unknown caller
    // → extract_input Unknown branch hits return into_map(v.clone())
    let raw = br#"{"tool_input": {"cmd": "ls"}, "session_id": "s1"}"#;
    let evt = parse(raw).expect("parse failed");
    assert_eq!(evt.caller, CallerKind::Unknown);
    let input = evt.input.expect("input should be present");
    assert_eq!(field(&input, "cmd"), &s("ls"));
}

#[test]
fn unknown_caller_output_found_via_tool_output_key() {
    // tool_output present, no tool_name → Unknown caller
    // → extract_output Unknown branch hits return into_map(v.clone())
    let raw = br#"{"tool_output": {"result": "ok"}, "session_id": "s1"}"#;
    let evt = parse(raw).expect("parse failed");
    assert_eq!(evt.caller, CallerKind::Unknown);
    let output = evt.output.expect("output should be present");
    assert_eq!(field(&output, "result"), &s("ok"));
}

#[test]
fn parse_amp_tool_after() {
    let raw = fixture("amp-tool-after.json");
    let evt = parse(&raw).expect("parse failed");
    assert_eq!(evt.caller, CallerKind::Amp);
    assert_eq!(evt.event.to_string(), "tool:after");
    assert_eq!(evt.tool.as_deref(), Some("read_file"));
    assert_eq!(evt.session_id, "sess_amp_def");
    let input = evt.input.expect("input should be present");
    assert_eq!(field(&input, "path"), &s("/tmp/foo.txt"));
    let output = evt.output.expect("output should be present");
    assert_eq!(field(&output, "content"), &s("hello"));
}
