//! Tests for `serialize_response`.
//!
//! Covers every CallerKind × every HookResponse variant.

use polyhook_core::response::serialize_response;
use polyhook_core::{CallerKind, HookResponse, Json};

fn s(text: &str) -> Json {
    Json::Str(text.to_string())
}

fn obj(entries: Vec<(&str, Json)>) -> Json {
    Json::Object(entries.into_iter().map(|(k, v)| (k.to_string(), v)).collect())
}

fn get<'a>(value: &'a Json, key: &str) -> &'a Json {
    value.get(key).expect("field should be present")
}

// ---------------------------------------------------------------------------
// ClaudeCode (and Unknown — same serializer)
// ---------------------------------------------------------------------------

#[test]
fn claude_code_approve() {
    let val = serialize_response(&HookResponse::approve(), &CallerKind::ClaudeCode);
    assert_eq!(val, Json::Object(vec![]));
}

#[test]
fn claude_code_block() {
    let val = serialize_response(&HookResponse::block("not allowed"), &CallerKind::ClaudeCode);
    assert_eq!(get(&val, "decision"), &s("block"));
    assert_eq!(get(&val, "reason"), &s("not allowed"));
}

#[test]
fn claude_code_modify() {
    let new_input = || obj(vec![("command", s("echo safe"))]);
    let val = serialize_response(&HookResponse::modify(new_input()), &CallerKind::ClaudeCode);
    assert_eq!(get(&val, "decision"), &s("approve"));
    assert_eq!(get(&val, "tool_input"), &new_input());
}

#[test]
fn unknown_approve() {
    let val = serialize_response(&HookResponse::approve(), &CallerKind::Unknown);
    assert_eq!(val, Json::Object(vec![]));
}

#[test]
fn unknown_block() {
    let val = serialize_response(&HookResponse::block("denied"), &CallerKind::Unknown);
    assert_eq!(get(&val, "decision"), &s("block"));
    assert_eq!(get(&val, "reason"), &s("denied"));
}

#[test]
fn unknown_modify() {
    let new_input = || obj(vec![("x", Json::Number("1".to_string()))]);
    let val = serialize_response(&HookResponse::modify(new_input()), &CallerKind::Unknown);
    assert_eq!(get(&val, "decision"), &s("approve"));
    assert_eq!(get(&val, "tool_input"), &new_input());
}

// ---------------------------------------------------------------------------
// Cursor
// ---------------------------------------------------------------------------

#[test]
fn cursor_approve() {
    let val = serialize_response(&HookResponse::approve(), &CallerKind::Cursor);
    assert_eq!(get(&val, "action"), &s("allow"));
}

#[test]
fn cursor_block() {
    let val = serialize_response(&HookResponse::block("too risky"), &CallerKind::Cursor);
    assert_eq!(get(&val, "action"), &s("deny"));
    assert_eq!(get(&val, "message"), &s("too risky"));
}

#[test]
fn cursor_modify() {
    let new_input = || obj(vec![("command", s("echo safe"))]);
    let val = serialize_response(&HookResponse::modify(new_input()), &CallerKind::Cursor);
    assert_eq!(get(&val, "action"), &s("modify"));
    assert_eq!(get(&val, "args"), &new_input());
}

// ---------------------------------------------------------------------------
// Windsurf
// ---------------------------------------------------------------------------

#[test]
fn windsurf_approve() {
    let val = serialize_response(&HookResponse::approve(), &CallerKind::Windsurf);
    assert_eq!(get(&val, "allow"), &Json::Bool(true));
}

#[test]
fn windsurf_block() {
    let val = serialize_response(&HookResponse::block("blocked by policy"), &CallerKind::Windsurf);
    assert_eq!(get(&val, "allow"), &Json::Bool(false));
    assert_eq!(get(&val, "reason"), &s("blocked by policy"));
}

#[test]
fn windsurf_modify() {
    let new_input = || obj(vec![("path", s("/safe/dir"))]);
    let val = serialize_response(&HookResponse::modify(new_input()), &CallerKind::Windsurf);
    assert_eq!(get(&val, "allow"), &Json::Bool(true));
    assert_eq!(get(&val, "modified_parameters"), &new_input());
}

// ---------------------------------------------------------------------------
// Cline
// ---------------------------------------------------------------------------

#[test]
fn cline_approve() {
    let val = serialize_response(&HookResponse::approve(), &CallerKind::Cline);
    assert_eq!(get(&val, "approved"), &Json::Bool(true));
}

#[test]
fn cline_block() {
    let val = serialize_response(&HookResponse::block("cline blocked"), &CallerKind::Cline);
    assert_eq!(get(&val, "approved"), &Json::Bool(false));
    assert_eq!(get(&val, "reason"), &s("cline blocked"));
}

#[test]
fn cline_modify() {
    let new_input = || obj(vec![("command", s("ls /safe"))]);
    let val = serialize_response(&HookResponse::modify(new_input()), &CallerKind::Cline);
    assert_eq!(get(&val, "approved"), &Json::Bool(true));
    assert_eq!(get(&val, "modifiedInput"), &new_input());
}

// ---------------------------------------------------------------------------
// Amp
// ---------------------------------------------------------------------------

#[test]
fn amp_approve() {
    let val = serialize_response(&HookResponse::approve(), &CallerKind::Amp);
    assert_eq!(get(&val, "result"), &s("allow"));
}

#[test]
fn amp_block() {
    let val = serialize_response(&HookResponse::block("amp denied"), &CallerKind::Amp);
    assert_eq!(get(&val, "result"), &s("deny"));
    assert_eq!(get(&val, "reason"), &s("amp denied"));
}

#[test]
fn amp_modify() {
    let new_input = || obj(vec![("command", s("echo ok"))]);
    let val = serialize_response(&HookResponse::modify(new_input()), &CallerKind::Amp);
    assert_eq!(get(&val, "result"), &s("allow"));
    assert_eq!(get(&val, "modified"), &new_input());
}

// ---------------------------------------------------------------------------
// Convenience constructors
// ---------------------------------------------------------------------------

#[test]
fn convenience_approve() {
    let resp = HookResponse::approve();
    let val = serialize_response(&resp, &CallerKind::ClaudeCode);
    assert_eq!(val, Json::Object(vec![]));
}

#[test]
fn convenience_block() {
    let resp = HookResponse::block("stop");
    let val = serialize_response(&resp, &CallerKind::Cursor);
    assert_eq!(get(&val, "action"), &s("deny"));
    assert_eq!(get(&val, "message"), &s("stop"));
}

#[test]
fn convenience_modify() {
    let payload = || obj(vec![("key", s("value"))]);
    let resp = HookResponse::modify(payload());
    let val = serialize_response(&resp, &CallerKind::Amp);
    assert_eq!(get(&val, "result"), &s("allow"));
    assert_eq!(get(&val, "modified"), &payload());
}
