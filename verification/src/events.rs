//! Mapping of vendor event names to the canonical polyhook event names.
use vstd::prelude::*;

use crate::text::{opt_str_view, str_eq};
use crate::types::{event_named, CallerKind};

verus! {

/// The canonical name of a `ClaudeCode` event name.
pub open spec fn claude_code_event(vendor: Seq<char>) -> Option<Seq<char>> {
    if vendor == "PreToolUse"@ {
        Some("tool:before"@)
    } else if vendor == "PostToolUse"@ {
        Some("tool:after"@)
    } else if vendor == "Startup"@ {
        Some("session:start"@)
    } else if vendor == "Stop"@ {
        Some("session:stop"@)
    } else if vendor == "SubagentStop"@ {
        Some("agent:stop"@)
    } else if vendor == "Notification"@ {
        Some("notification"@)
    } else {
        None
    }
}

/// Looks an event name up in the table above: its entry in
/// [`claude_code_event_names`], and `None` for a name with no entry.
fn normalize_claude_code_event(vendor: &str) -> (r: Option<&'static str>)
    ensures
        opt_str_view(r) == claude_code_event(vendor@),
        opt_str_view(r) == claude_code_event_names().get(vendor@),
{
    proof {
        lemma_claude_code_event_names(vendor@);
    }
    if str_eq(vendor, "PreToolUse") {
        Some("tool:before")
    } else if str_eq(vendor, "PostToolUse") {
        Some("tool:after")
    } else if str_eq(vendor, "Startup") {
        Some("session:start")
    } else if str_eq(vendor, "Stop") {
        Some("session:stop")
    } else if str_eq(vendor, "SubagentStop") {
        Some("agent:stop")
    } else if str_eq(vendor, "Notification") {
        Some("notification")
    } else {
        None
    }
}

/// The canonical name of a cursor event name.
pub open spec fn cursor_event(vendor: Seq<char>) -> Option<Seq<char>> {
    if vendor == "BeforeToolCall"@ {
        Some("tool:before"@)
    } else if vendor == "AfterToolCall"@ {
        Some("tool:after"@)
    } else if vendor == "SessionStart"@ {
        Some("session:start"@)
    } else if vendor == "SessionEnd"@ {
        Some("session:stop"@)
    } else if vendor == "Notification"@ {
        Some("notification"@)
    } else {
        None
    }
}

/// Looks an event name up in the table above: its entry in
/// [`cursor_event_names`], and `None` for a name with no entry.
fn normalize_cursor_event(vendor: &str) -> (r: Option<&'static str>)
    ensures
        opt_str_view(r) == cursor_event(vendor@),
        opt_str_view(r) == cursor_event_names().get(vendor@),
{
    proof {
        lemma_cursor_event_names(vendor@);
    }
    if str_eq(vendor, "BeforeToolCall") {
        Some("tool:before")
    } else if str_eq(vendor, "AfterToolCall") {
        Some("tool:after")
    } else if str_eq(vendor, "SessionStart") {
        Some("session:start")
    } else if str_eq(vendor, "SessionEnd") {
        Some("session:stop")
    } else if str_eq(vendor, "Notification") {
        Some("notification")
    } else {
        None
    }
}

/// The canonical name of a windsurf event name.
pub open spec fn windsurf_event(vendor: Seq<char>) -> Option<Seq<char>> {
    if vendor == "pre_tool"@ {
        Some("tool:before"@)
    } else if vendor == "post_tool"@ {
        Some("tool:after"@)
    } else if vendor == "session_start"@ {
        Some("session:start"@)
    } else if vendor == "session_end"@ {
        Some("session:stop"@)
    } else if vendor == "notification"@ {
        Some("notification"@)
    } else {
        None
    }
}

/// Looks an event name up in the table above: its entry in
/// [`windsurf_event_names`], and `None` for a name with no entry.
fn normalize_windsurf_event(vendor: &str) -> (r: Option<&'static str>)
    ensures
        opt_str_view(r) == windsurf_event(vendor@),
        opt_str_view(r) == windsurf_event_names().get(vendor@),
{
    proof {
        lemma_windsurf_event_names(vendor@);
    }
    if str_eq(vendor, "pre_tool") {
        Some("tool:before")
    } else if str_eq(vendor, "post_tool") {
        Some("tool:after")
    } else if str_eq(vendor, "session_start") {
        Some("session:start")
    } else if str_eq(vendor, "session_end") {
        Some("session:stop")
    } else if str_eq(vendor, "notification") {
        Some("notification")
    } else {
        None
    }
}

/// The canonical name of a cline event name.
pub open spec fn cline_event(vendor: Seq<char>) -> Option<Seq<char>> {
    if vendor == "beforeToolUse"@ {
        Some("tool:before"@)
    } else if vendor == "afterToolUse"@ {
        Some("tool:after"@)
    } else if vendor == "onStart"@ {
        Some("session:start"@)
    } else if vendor == "onStop"@ {
        Some("session:stop"@)
    } else {
        None
    }
}

/// Looks an event name up in the table above: its entry in
/// [`cline_event_names`], and `None` for a name with no entry.
fn normalize_cline_event(vendor: &str) -> (r: Option<&'static str>)
    ensures
        opt_str_view(r) == cline_event(vendor@),
        opt_str_view(r) == cline_event_names().get(vendor@),
{
    proof {
        lemma_cline_event_names(vendor@);
    }
    if str_eq(vendor, "beforeToolUse") {
        Some("tool:before")
    } else if str_eq(vendor, "afterToolUse") {
        Some("tool:after")
    } else if str_eq(vendor, "onStart") {
        Some("session:start")
    } else if str_eq(vendor, "onStop") {
        Some("session:stop")
    } else {
        None
    }
}

/// The canonical name of a amp event name.
pub open spec fn amp_event(vendor: Seq<char>) -> Option<Seq<char>> {
    if vendor == "tool.before"@ {
        Some("tool:before"@)
    } else if vendor == "tool.after"@ {
        Some("tool:after"@)
    } else if vendor == "session.start"@ {
        Some("session:start"@)
    } else if vendor == "session.stop"@ {
        Some("session:stop"@)
    } else if vendor == "agent.stop"@ {
        Some("agent:stop"@)
    } else {
        None
    }
}

/// Looks an event name up in the table above: its entry in
/// [`amp_event_names`], and `None` for a name with no entry.
fn normalize_amp_event(vendor: &str) -> (r: Option<&'static str>)
    ensures
        opt_str_view(r) == amp_event(vendor@),
        opt_str_view(r) == amp_event_names().get(vendor@),
{
    proof {
        lemma_amp_event_names(vendor@);
    }
    if str_eq(vendor, "tool.before") {
        Some("tool:before")
    } else if str_eq(vendor, "tool.after") {
        Some("tool:after")
    } else if str_eq(vendor, "session.start") {
        Some("session:start")
    } else if str_eq(vendor, "session.stop") {
        Some("session:stop")
    } else if str_eq(vendor, "agent.stop") {
        Some("agent:stop")
    } else {
        None
    }
}

/// The canonical name of a gemini cli event name.
pub open spec fn gemini_cli_event(vendor: Seq<char>) -> Option<Seq<char>> {
    if vendor == "BeforeTool"@ {
        Some("tool:before"@)
    } else if vendor == "AfterTool"@ {
        Some("tool:after"@)
    } else if vendor == "SessionStart"@ {
        Some("session:start"@)
    } else if vendor == "SessionEnd"@ {
        Some("session:stop"@)
    } else if vendor == "AfterAgent"@ {
        Some("agent:stop"@)
    } else if vendor == "Notification"@ {
        Some("notification"@)
    } else {
        None
    }
}

/// Looks an event name up in the table above: its entry in
/// [`gemini_cli_event_names`], and `None` for a name with no entry.
fn normalize_gemini_cli_event(vendor: &str) -> (r: Option<&'static str>)
    ensures
        opt_str_view(r) == gemini_cli_event(vendor@),
        opt_str_view(r) == gemini_cli_event_names().get(vendor@),
{
    proof {
        lemma_gemini_cli_event_names(vendor@);
    }
    if str_eq(vendor, "BeforeTool") {
        Some("tool:before")
    } else if str_eq(vendor, "AfterTool") {
        Some("tool:after")
    } else if str_eq(vendor, "SessionStart") {
        Some("session:start")
    } else if str_eq(vendor, "SessionEnd") {
        Some("session:stop")
    } else if str_eq(vendor, "AfterAgent") {
        Some("agent:stop")
    } else if str_eq(vendor, "Notification") {
        Some("notification")
    } else {
        None
    }
}

/// The canonical name that `caller` gives to the event name `vendor`, if
/// its table has one.
pub open spec fn event_table(caller: CallerKind, vendor: Seq<char>) -> Option<Seq<char>> {
    match caller {
        CallerKind::ClaudeCode => claude_code_event(vendor),
        CallerKind::Cursor => cursor_event(vendor),
        CallerKind::Windsurf => windsurf_event(vendor),
        CallerKind::Cline => cline_event(vendor),
        CallerKind::Amp => amp_event(vendor),
        CallerKind::GeminiCli => gemini_cli_event(vendor),
        CallerKind::Hermes | CallerKind::Unknown => None,
    }
}

/// The canonical event name for `vendor`; the vendor name itself when the
/// caller's table has no entry for it.
pub open spec fn spec_normalize_event(vendor: Seq<char>, caller: CallerKind) -> Seq<char> {
    match event_table(caller, vendor) {
        Some(canonical) => canonical,
        None => vendor,
    }
}

/// Normalize a vendor-specific event name to the canonical polyhook event name.
///
/// If no mapping exists the original name is returned unchanged.
pub fn normalize_event(vendor: &str, caller: &CallerKind) -> (r: String)
    ensures
        r@ == spec_normalize_event(vendor@, *caller),
{
    let canonical = match caller {
        CallerKind::ClaudeCode => normalize_claude_code_event(vendor),
        CallerKind::Cursor => normalize_cursor_event(vendor),
        CallerKind::Windsurf => normalize_windsurf_event(vendor),
        CallerKind::Cline => normalize_cline_event(vendor),
        CallerKind::Amp => normalize_amp_event(vendor),
        CallerKind::GeminiCli => normalize_gemini_cli_event(vendor),
        CallerKind::Hermes | CallerKind::Unknown => None,
    };
    match canonical {
        Some(s) => String::from_str(s),
        None => String::from_str(vendor),
    }
}

/// An event name is either mapped to the name of one of the canonical
/// events or passed through unchanged.
pub proof fn lemma_event_canonical_or_unchanged(vendor: Seq<char>, caller: CallerKind)
    ensures
        event_table(caller, vendor) is Some ==> event_named(spec_normalize_event(vendor, caller)) is Some,
        event_table(caller, vendor) is None ==> spec_normalize_event(vendor, caller) == vendor,
{
}


/// `ClaudeCode`'s event names: each vendor event name that the table knows,
/// with its canonical name.
pub open spec fn claude_code_event_names() -> Map<Seq<char>, Seq<char>> {
    map![
        "Notification"@ => "notification"@,
        "SubagentStop"@ => "agent:stop"@,
        "Stop"@ => "session:stop"@,
        "Startup"@ => "session:start"@,
        "PostToolUse"@ => "tool:after"@,
        "PreToolUse"@ => "tool:before"@,
    ]
}

/// `ClaudeCode`'s table maps exactly the names of [`claude_code_event_names`]
/// (case-sensitively): a known name is normalized to its entry there, and
/// any other name is kept.
pub proof fn lemma_claude_code_event_names(vendor: Seq<char>)
    ensures
        event_table(CallerKind::ClaudeCode, vendor) == claude_code_event_names().get(vendor),
        spec_normalize_event(vendor, CallerKind::ClaudeCode) == match claude_code_event_names().get(vendor) {
            Some(canonical) => canonical,
            None => vendor,
        },
{
}

/// Cursor's event names: each vendor event name that the table knows,
/// with its canonical name.
pub open spec fn cursor_event_names() -> Map<Seq<char>, Seq<char>> {
    map![
        "Notification"@ => "notification"@,
        "SessionEnd"@ => "session:stop"@,
        "SessionStart"@ => "session:start"@,
        "AfterToolCall"@ => "tool:after"@,
        "BeforeToolCall"@ => "tool:before"@,
    ]
}

/// Cursor's table maps exactly the names of [`cursor_event_names`]
/// (case-sensitively): a known name is normalized to its entry there, and
/// any other name is kept.
pub proof fn lemma_cursor_event_names(vendor: Seq<char>)
    ensures
        event_table(CallerKind::Cursor, vendor) == cursor_event_names().get(vendor),
        spec_normalize_event(vendor, CallerKind::Cursor) == match cursor_event_names().get(vendor) {
            Some(canonical) => canonical,
            None => vendor,
        },
{
}

/// Windsurf's event names: each vendor event name that the table knows,
/// with its canonical name.
pub open spec fn windsurf_event_names() -> Map<Seq<char>, Seq<char>> {
    map![
        "notification"@ => "notification"@,
        "session_end"@ => "session:stop"@,
        "session_start"@ => "session:start"@,
        "post_tool"@ => "tool:after"@,
        "pre_tool"@ => "tool:before"@,
    ]
}

/// Windsurf's table maps exactly the names of [`windsurf_event_names`]
/// (case-sensitively): a known name is normalized to its entry there, and
/// any other name is kept.
pub proof fn lemma_windsurf_event_names(vendor: Seq<char>)
    ensures
        event_table(CallerKind::Windsurf, vendor) == windsurf_event_names().get(vendor),
        spec_normalize_event(vendor, CallerKind::Windsurf) == match windsurf_event_names().get(vendor) {
            Some(canonical) => canonical,
            None => vendor,
        },
{
}

/// Cline's event names: each vendor event name that the table knows,
/// with its canonical name.
pub open spec fn cline_event_names() -> Map<Seq<char>, Seq<char>> {
    map![
        "onStop"@ => "session:stop"@,
        "onStart"@ => "session:start"@,
        "afterToolUse"@ => "tool:after"@,
        "beforeToolUse"@ => "tool:before"@,
    ]
}

/// Cline's table maps exactly the names of [`cline_event_names`]
/// (case-sensitively): a known name is normalized to its entry there, and
/// any other name is kept.
pub proof fn lemma_cline_event_names(vendor: Seq<char>)
    ensures
        event_table(CallerKind::Cline, vendor) == cline_event_names().get(vendor),
        spec_normalize_event(vendor, CallerKind::Cline) == match cline_event_names().get(vendor) {
            Some(canonical) => canonical,
            None => vendor,
        },
{
}

/// Amp's event names: each vendor event name that the table knows,
/// with its canonical name.
pub open spec fn amp_event_names() -> Map<Seq<char>, Seq<char>> {
    map![
        "agent.stop"@ => "agent:stop"@,
        "session.stop"@ => "session:stop"@,
        "session.start"@ => "session:start"@,
        "tool.after"@ => "tool:after"@,
        "tool.before"@ => "tool:before"@,
    ]
}

/// Amp's table maps exactly the names of [`amp_event_names`]
/// (case-sensitively): a known name is normalized to its entry there, and
/// any other name is kept.
pub proof fn lemma_amp_event_names(vendor: Seq<char>)
    ensures
        event_table(CallerKind::Amp, vendor) == amp_event_names().get(vendor),
        spec_normalize_event(vendor, CallerKind::Amp) == match amp_event_names().get(vendor) {
            Some(canonical) => canonical,
            None => vendor,
        },
{
}

/// Gemini CLI's event names: each vendor event name that the table knows,
/// with its canonical name.
pub open spec fn gemini_cli_event_names() -> Map<Seq<char>, Seq<char>> {
    map![
        "Notification"@ => "notification"@,
        "AfterAgent"@ => "agent:stop"@,
        "SessionEnd"@ => "session:stop"@,
        "SessionStart"@ => "session:start"@,
        "AfterTool"@ => "tool:after"@,
        "BeforeTool"@ => "tool:before"@,
    ]
}

/// Gemini CLI's table maps exactly the names of [`gemini_cli_event_names`]
/// (case-sensitively): a known name is normalized to its entry there, and
/// any other name is kept.
pub proof fn lemma_gemini_cli_event_names(vendor: Seq<char>)
    ensures
        event_table(CallerKind::GeminiCli, vendor) == gemini_cli_event_names().get(vendor),
        spec_normalize_event(vendor, CallerKind::GeminiCli) == match gemini_cli_event_names().get(vendor) {
            Some(canonical) => canonical,
            None => vendor,
        },
{
}

} // verus!
