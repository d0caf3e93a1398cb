//! Mapping of vendor tool names to the canonical polyhook tool names.
use vstd::prelude::*;

use crate::text::{ascii_lowercase, is_ascii_chars, lowercase_of, opt_str_view, str_eq, to_lowercase};
use crate::types::CallerKind;

verus! {

/// The canonical name of a lowercased `ClaudeCode` tool name.
pub open spec fn claude_code_tool(lower: Seq<char>) -> Option<Seq<char>> {
    if lower == "bash"@ {
        Some("bash"@)
    } else if lower == "read"@ {
        Some("read_file"@)
    } else if lower == "write"@ {
        Some("write_file"@)
    } else if lower == "edit"@ {
        Some("edit_file"@)
    } else if lower == "ls"@ {
        Some("list_dir"@)
    } else if lower == "grep"@ {
        Some("grep"@)
    } else if lower == "glob"@ {
        Some("glob"@)
    } else if lower == "websearch"@ {
        Some("web_search"@)
    } else if lower == "webfetch"@ {
        Some("web_fetch"@)
    } else if lower == "task"@ {
        Some("spawn_agent"@)
    } else if lower == "mcp__ide__getdiagnostics"@ {
        Some("diagnostics"@)
    } else {
        None
    }
}

/// Looks a lowercased tool name up in the table above: its entry in
/// [`claude_code_tool_names`], and `None` for a name with no entry.
fn normalize_claude_code(lower: &str) -> (r: Option<&'static str>)
    ensures
        opt_str_view(r) == claude_code_tool(lower@),
        opt_str_view(r) == claude_code_tool_names().get(lower@),
{
    proof {
        lemma_claude_code_tool_names(lower@, lower@);
    }
    if str_eq(lower, "bash") {
        Some("bash")
    } else if str_eq(lower, "read") {
        Some("read_file")
    } else if str_eq(lower, "write") {
        Some("write_file")
    } else if str_eq(lower, "edit") {
        Some("edit_file")
    } else if str_eq(lower, "ls") {
        Some("list_dir")
    } else if str_eq(lower, "grep") {
        Some("grep")
    } else if str_eq(lower, "glob") {
        Some("glob")
    } else if str_eq(lower, "websearch") {
        Some("web_search")
    } else if str_eq(lower, "webfetch") {
        Some("web_fetch")
    } else if str_eq(lower, "task") {
        Some("spawn_agent")
    } else if str_eq(lower, "mcp__ide__getdiagnostics") {
        Some("diagnostics")
    } else {
        None
    }
}

/// The canonical name of a lowercased `Cursor` tool name.
pub open spec fn cursor_tool(lower: Seq<char>) -> Option<Seq<char>> {
    if lower == "run_terminal_cmd"@ {
        Some("bash"@)
    } else if lower == "read_file"@ {
        Some("read_file"@)
    } else if lower == "edit_file"@ {
        Some("write_file"@)
    } else if lower == "apply_edit"@ {
        Some("edit_file"@)
    } else if lower == "list_dir"@ {
        Some("list_dir"@)
    } else if lower == "grep_search"@ {
        Some("grep"@)
    } else if lower == "file_search"@ {
        Some("glob"@)
    } else if lower == "web_search"@ {
        Some("web_search"@)
    } else if lower == "fetch_url"@ {
        Some("web_fetch"@)
    } else if lower == "spawn_agent"@ {
        Some("spawn_agent"@)
    } else if lower == "get_diagnostics"@ {
        Some("diagnostics"@)
    } else if lower == "move_file"@ {
        Some("move_file"@)
    } else if lower == "delete_file"@ {
        Some("delete_file"@)
    } else if lower == "create_dir"@ {
        Some("create_dir"@)
    } else {
        None
    }
}

/// Looks a lowercased tool name up in the table above: its entry in
/// [`cursor_tool_names`], and `None` for a name with no entry.
fn normalize_cursor(lower: &str) -> (r: Option<&'static str>)
    ensures
        opt_str_view(r) == cursor_tool(lower@),
        opt_str_view(r) == cursor_tool_names().get(lower@),
{
    proof {
        lemma_cursor_tool_names(lower@, lower@);
    }
    if str_eq(lower, "run_terminal_cmd") {
        Some("bash")
    } else if str_eq(lower, "read_file") {
        Some("read_file")
    } else if str_eq(lower, "edit_file") {
        Some("write_file")
    } else if str_eq(lower, "apply_edit") {
        Some("edit_file")
    } else if str_eq(lower, "list_dir") {
        Some("list_dir")
    } else if str_eq(lower, "grep_search") {
        Some("grep")
    } else if str_eq(lower, "file_search") {
        Some("glob")
    } else if str_eq(lower, "web_search") {
        Some("web_search")
    } else if str_eq(lower, "fetch_url") {
        Some("web_fetch")
    } else if str_eq(lower, "spawn_agent") {
        Some("spawn_agent")
    } else if str_eq(lower, "get_diagnostics") {
        Some("diagnostics")
    } else if str_eq(lower, "move_file") {
        Some("move_file")
    } else if str_eq(lower, "delete_file") {
        Some("delete_file")
    } else if str_eq(lower, "create_dir") {
        Some("create_dir")
    } else {
        None
    }
}

/// The canonical name of a lowercased `Windsurf` tool name.
pub open spec fn windsurf_tool(lower: Seq<char>) -> Option<Seq<char>> {
    if lower == "run_command"@ {
        Some("bash"@)
    } else if lower == "read_file"@ {
        Some("read_file"@)
    } else if lower == "write_file"@ {
        Some("write_file"@)
    } else if lower == "edit_file"@ {
        Some("edit_file"@)
    } else if lower == "list_directory"@ {
        Some("list_dir"@)
    } else if lower == "search_files"@ {
        Some("grep"@)
    } else if lower == "find_files"@ {
        Some("glob"@)
    } else if lower == "search_web"@ {
        Some("web_search"@)
    } else if lower == "fetch_page"@ {
        Some("web_fetch"@)
    } else if lower == "spawn_agent"@ {
        Some("spawn_agent"@)
    } else if lower == "get_diagnostics"@ {
        Some("diagnostics"@)
    } else if lower == "move_file"@ {
        Some("move_file"@)
    } else if lower == "delete_file"@ {
        Some("delete_file"@)
    } else if lower == "create_directory"@ {
        Some("create_dir"@)
    } else {
        None
    }
}

/// Looks a lowercased tool name up in the table above: its entry in
/// [`windsurf_tool_names`], and `None` for a name with no entry.
fn normalize_windsurf(lower: &str) -> (r: Option<&'static str>)
    ensures
        opt_str_view(r) == windsurf_tool(lower@),
        opt_str_view(r) == windsurf_tool_names().get(lower@),
{
    proof {
        lemma_windsurf_tool_names(lower@, lower@);
    }
    if str_eq(lower, "run_command") {
        Some("bash")
    } else if str_eq(lower, "read_file") {
        Some("read_file")
    } else if str_eq(lower, "write_file") {
        Some("write_file")
    } else if str_eq(lower, "edit_file") {
        Some("edit_file")
    } else if str_eq(lower, "list_directory") {
        Some("list_dir")
    } else if str_eq(lower, "search_files") {
        Some("grep")
    } else if str_eq(lower, "find_files") {
        Some("glob")
    } else if str_eq(lower, "search_web") {
        Some("web_search")
    } else if str_eq(lower, "fetch_page") {
        Some("web_fetch")
    } else if str_eq(lower, "spawn_agent") {
        Some("spawn_agent")
    } else if str_eq(lower, "get_diagnostics") {
        Some("diagnostics")
    } else if str_eq(lower, "move_file") {
        Some("move_file")
    } else if str_eq(lower, "delete_file") {
        Some("delete_file")
    } else if str_eq(lower, "create_directory") {
        Some("create_dir")
    } else {
        None
    }
}

/// The canonical name of a lowercased `Cline` tool name.
pub open spec fn cline_tool(lower: Seq<char>) -> Option<Seq<char>> {
    if lower == "execute_command"@ {
        Some("bash"@)
    } else if lower == "read_file"@ {
        Some("read_file"@)
    } else if lower == "write_to_file"@ {
        Some("write_file"@)
    } else if lower == "apply_diff"@ {
        Some("edit_file"@)
    } else if lower == "list_files"@ {
        Some("list_dir"@)
    } else if lower == "search_files"@ {
        Some("grep"@)
    } else if lower == "search"@ {
        Some("web_search"@)
    } else if lower == "fetch"@ {
        Some("web_fetch"@)
    } else if lower == "rename_file"@ {
        Some("move_file"@)
    } else if lower == "delete_file"@ {
        Some("delete_file"@)
    } else if lower == "create_directory"@ {
        Some("create_dir"@)
    } else if lower == "get_diagnostics"@ {
        Some("diagnostics"@)
    } else {
        None
    }
}

/// Looks a lowercased tool name up in the table above: its entry in
/// [`cline_tool_names`], and `None` for a name with no entry.
fn normalize_cline(lower: &str) -> (r: Option<&'static str>)
    ensures
        opt_str_view(r) == cline_tool(lower@),
        opt_str_view(r) == cline_tool_names().get(lower@),
{
    proof {
        lemma_cline_tool_names(lower@, lower@);
    }
    if str_eq(lower, "execute_command") {
        Some("bash")
    } else if str_eq(lower, "read_file") {
        Some("read_file")
    } else if str_eq(lower, "write_to_file") {
        Some("write_file")
    } else if str_eq(lower, "apply_diff") {
        Some("edit_file")
    } else if str_eq(lower, "list_files") {
        Some("list_dir")
    } else if str_eq(lower, "search_files") {
        Some("grep")
    } else if str_eq(lower, "search") {
        Some("web_search")
    } else if str_eq(lower, "fetch") {
        Some("web_fetch")
    } else if str_eq(lower, "rename_file") {
        Some("move_file")
    } else if str_eq(lower, "delete_file") {
        Some("delete_file")
    } else if str_eq(lower, "create_directory") {
        Some("create_dir")
    } else if str_eq(lower, "get_diagnostics") {
        Some("diagnostics")
    } else {
        None
    }
}

/// The canonical name of a lowercased `GeminiCli` tool name.
pub open spec fn gemini_cli_tool(lower: Seq<char>) -> Option<Seq<char>> {
    if lower == "run_shell_command"@ {
        Some("bash"@)
    } else if lower == "read_file"@ {
        Some("read_file"@)
    } else if lower == "write_file"@ {
        Some("write_file"@)
    } else if lower == "replace"@ {
        Some("edit_file"@)
    } else if lower == "list_directory"@ {
        Some("list_dir"@)
    } else if lower == "glob"@ {
        Some("glob"@)
    } else if lower == "grep"@ {
        Some("grep"@)
    } else if lower == "google_web_search"@ {
        Some("web_search"@)
    } else if lower == "fetch"@ {
        Some("web_fetch"@)
    } else if lower == "move_file"@ {
        Some("move_file"@)
    } else if lower == "delete_file"@ {
        Some("delete_file"@)
    } else if lower == "make_directory"@ {
        Some("create_dir"@)
    } else {
        None
    }
}

/// Looks a lowercased tool name up in the table above: its entry in
/// [`gemini_cli_tool_names`], and `None` for a name with no entry.
fn normalize_gemini_cli(lower: &str) -> (r: Option<&'static str>)
    ensures
        opt_str_view(r) == gemini_cli_tool(lower@),
        opt_str_view(r) == gemini_cli_tool_names().get(lower@),
{
    proof {
        lemma_gemini_cli_tool_names(lower@, lower@);
    }
    if str_eq(lower, "run_shell_command") {
        Some("bash")
    } else if str_eq(lower, "read_file") {
        Some("read_file")
    } else if str_eq(lower, "write_file") {
        Some("write_file")
    } else if str_eq(lower, "replace") {
        Some("edit_file")
    } else if str_eq(lower, "list_directory") {
        Some("list_dir")
    } else if str_eq(lower, "glob") {
        Some("glob")
    } else if str_eq(lower, "grep") {
        Some("grep")
    } else if str_eq(lower, "google_web_search") {
        Some("web_search")
    } else if str_eq(lower, "fetch") {
        Some("web_fetch")
    } else if str_eq(lower, "move_file") {
        Some("move_file")
    } else if str_eq(lower, "delete_file") {
        Some("delete_file")
    } else if str_eq(lower, "make_directory") {
        Some("create_dir")
    } else {
        None
    }
}

/// The canonical name of a lowercased `Hermes` tool name.
pub open spec fn hermes_tool(lower: Seq<char>) -> Option<Seq<char>> {
    if lower == "terminal"@ {
        Some("bash"@)
    } else if lower == "read_file"@ {
        Some("read_file"@)
    } else if lower == "write_file"@ {
        Some("write_file"@)
    } else if lower == "patch"@ {
        Some("edit_file"@)
    } else if lower == "search_files"@ {
        Some("grep"@)
    } else if lower == "delegate_task"@ {
        Some("spawn_agent"@)
    } else if lower == "browser_navigate"@ {
        Some("browser"@)
    } else {
        None
    }
}

/// Looks a lowercased tool name up in the table above: its entry in
/// [`hermes_tool_names`], and `None` for a name with no entry.
fn normalize_hermes(lower: &str) -> (r: Option<&'static str>)
    ensures
        opt_str_view(r) == hermes_tool(lower@),
        opt_str_view(r) == hermes_tool_names().get(lower@),
{
    proof {
        lemma_hermes_tool_names(lower@, lower@);
    }
    if str_eq(lower, "terminal") {
        Some("bash")
    } else if str_eq(lower, "read_file") {
        Some("read_file")
    } else if str_eq(lower, "write_file") {
        Some("write_file")
    } else if str_eq(lower, "patch") {
        Some("edit_file")
    } else if str_eq(lower, "search_files") {
        Some("grep")
    } else if str_eq(lower, "delegate_task") {
        Some("spawn_agent")
    } else if str_eq(lower, "browser_navigate") {
        Some("browser")
    } else {
        None
    }
}

/// The canonical name of a lowercased `Amp` tool name.
pub open spec fn amp_tool(lower: Seq<char>) -> Option<Seq<char>> {
    if lower == "shell"@ {
        Some("bash"@)
    } else if lower == "file.read"@ {
        Some("read_file"@)
    } else if lower == "file.write"@ {
        Some("write_file"@)
    } else if lower == "file.edit"@ {
        Some("edit_file"@)
    } else if lower == "fs.list"@ {
        Some("list_dir"@)
    } else if lower == "search.grep"@ {
        Some("grep"@)
    } else if lower == "search.glob"@ {
        Some("glob"@)
    } else if lower == "web.search"@ {
        Some("web_search"@)
    } else if lower == "web.fetch"@ {
        Some("web_fetch"@)
    } else if lower == "agent.spawn"@ {
        Some("spawn_agent"@)
    } else if lower == "lsp.diagnostics"@ {
        Some("diagnostics"@)
    } else if lower == "fs.move"@ {
        Some("move_file"@)
    } else if lower == "fs.delete"@ {
        Some("delete_file"@)
    } else if lower == "fs.mkdir"@ {
        Some("create_dir"@)
    } else {
        None
    }
}

/// Looks a lowercased tool name up in the table above: its entry in
/// [`amp_tool_names`], and `None` for a name with no entry.
fn normalize_amp(lower: &str) -> (r: Option<&'static str>)
    ensures
        opt_str_view(r) == amp_tool(lower@),
        opt_str_view(r) == amp_tool_names().get(lower@),
{
    proof {
        lemma_amp_tool_names(lower@, lower@);
    }
    if str_eq(lower, "shell") {
        Some("bash")
    } else if str_eq(lower, "file.read") {
        Some("read_file")
    } else if str_eq(lower, "file.write") {
        Some("write_file")
    } else if str_eq(lower, "file.edit") {
        Some("edit_file")
    } else if str_eq(lower, "fs.list") {
        Some("list_dir")
    } else if str_eq(lower, "search.grep") {
        Some("grep")
    } else if str_eq(lower, "search.glob") {
        Some("glob")
    } else if str_eq(lower, "web.search") {
        Some("web_search")
    } else if str_eq(lower, "web.fetch") {
        Some("web_fetch")
    } else if str_eq(lower, "agent.spawn") {
        Some("spawn_agent")
    } else if str_eq(lower, "lsp.diagnostics") {
        Some("diagnostics")
    } else if str_eq(lower, "fs.move") {
        Some("move_file")
    } else if str_eq(lower, "fs.delete") {
        Some("delete_file")
    } else if str_eq(lower, "fs.mkdir") {
        Some("create_dir")
    } else {
        None
    }
}

/// The canonical name that `caller` gives to the lowercased tool name
/// `lower`, if its table has one.
pub open spec fn tool_table(caller: CallerKind, lower: Seq<char>) -> Option<Seq<char>> {
    match caller {
        CallerKind::ClaudeCode => claude_code_tool(lower),
        CallerKind::Cursor => cursor_tool(lower),
        CallerKind::Windsurf => windsurf_tool(lower),
        CallerKind::Cline => cline_tool(lower),
        CallerKind::Amp => amp_tool(lower),
        CallerKind::GeminiCli => gemini_cli_tool(lower),
        CallerKind::Hermes => hermes_tool(lower),
        CallerKind::Unknown => None,
    }
}

/// The canonical tool name for `vendor`, looked up case-insensitively; the
/// vendor name itself when the caller's table has no entry for it.
pub open spec fn spec_normalize_tool(vendor: Seq<char>, caller: CallerKind) -> Seq<char> {
    match tool_table(caller, lowercase_of(vendor)) {
        Some(canonical) => canonical,
        None => vendor,
    }
}

/// The canonical polyhook tool names.
pub open spec fn is_canonical_tool(s: Seq<char>) -> bool {
    ||| s == "bash"@
    ||| s == "read_file"@
    ||| s == "write_file"@
    ||| s == "edit_file"@
    ||| s == "list_dir"@
    ||| s == "grep"@
    ||| s == "glob"@
    ||| s == "web_search"@
    ||| s == "web_fetch"@
    ||| s == "spawn_agent"@
    ||| s == "diagnostics"@
    ||| s == "move_file"@
    ||| s == "delete_file"@
    ||| s == "create_dir"@
    ||| s == "browser"@
}

/// Normalize a vendor-specific tool name to the canonical polyhook tool name.
///
/// The lookup is case-insensitive. If no mapping exists the original name is
/// returned unchanged.
pub fn normalize_tool(vendor: &str, caller: &CallerKind) -> (r: String)
    ensures
        r@ == spec_normalize_tool(vendor@, *caller),
        is_ascii_chars(vendor@) ==> r@ == match tool_table(*caller, ascii_lowercase(vendor@)) {
            Some(canonical) => canonical,
            None => vendor@,
        },
{
    let lower = to_lowercase(vendor);
    let l = lower.as_str();
    let canonical = match caller {
        CallerKind::ClaudeCode => normalize_claude_code(l),
        CallerKind::Cursor => normalize_cursor(l),
        CallerKind::Windsurf => normalize_windsurf(l),
        CallerKind::Cline => normalize_cline(l),
        CallerKind::Amp => normalize_amp(l),
        CallerKind::GeminiCli => normalize_gemini_cli(l),
        CallerKind::Hermes => normalize_hermes(l),
        CallerKind::Unknown => None,
    };
    match canonical {
        Some(s) => String::from_str(s),
        None => String::from_str(vendor),
    }
}

/// A tool name is either mapped to one of the canonical polyhook tool names
/// or passed through unchanged.
pub proof fn lemma_tool_canonical_or_unchanged(vendor: Seq<char>, caller: CallerKind)
    ensures
        spec_normalize_tool(vendor, caller) == vendor
            || is_canonical_tool(spec_normalize_tool(vendor, caller)),
{
}

/// Tool names are matched case-insensitively: two names with the same
/// lowercase form that the caller's table maps are mapped to the same
/// canonical name.
pub proof fn lemma_tool_case_insensitive(a: Seq<char>, b: Seq<char>, caller: CallerKind)
    requires
        lowercase_of(a) == lowercase_of(b),
        tool_table(caller, lowercase_of(a)) is Some,
    ensures
        spec_normalize_tool(a, caller) == spec_normalize_tool(b, caller),
        is_canonical_tool(spec_normalize_tool(a, caller)),
{
}

/// An unrecognized caller gets every tool name back unchanged.
pub proof fn lemma_tool_passthrough_without_table(vendor: Seq<char>, caller: CallerKind)
    requires
        caller == CallerKind::Unknown,
    ensures
        spec_normalize_tool(vendor, caller) == vendor,
{
}




/// `ClaudeCode`'s tool names: each lowercased vendor name that the table
/// knows, with its canonical name.
pub open spec fn claude_code_tool_names() -> Map<Seq<char>, Seq<char>> {
    map![
        "mcp__ide__getdiagnostics"@ => "diagnostics"@,
        "task"@ => "spawn_agent"@,
        "webfetch"@ => "web_fetch"@,
        "websearch"@ => "web_search"@,
        "glob"@ => "glob"@,
        "grep"@ => "grep"@,
        "ls"@ => "list_dir"@,
        "edit"@ => "edit_file"@,
        "write"@ => "write_file"@,
        "read"@ => "read_file"@,
        "bash"@ => "bash"@,
    ]
}

/// `ClaudeCode`'s table maps exactly the names of [`claude_code_tool_names`]:
/// a lowercased name gets its entry there and no other name gets one, so a
/// vendor name is normalized to the entry of its lowercase form, or kept.
pub proof fn lemma_claude_code_tool_names(lower: Seq<char>, vendor: Seq<char>)
    ensures
        tool_table(CallerKind::ClaudeCode, lower) == claude_code_tool_names().get(lower),
        spec_normalize_tool(vendor, CallerKind::ClaudeCode) == match claude_code_tool_names().get(
            lowercase_of(vendor),
        ) {
            Some(canonical) => canonical,
            None => vendor,
        },
{
}

/// Cursor's tool names: each lowercased vendor name that the table
/// knows, with its canonical name.
pub open spec fn cursor_tool_names() -> Map<Seq<char>, Seq<char>> {
    map![
        "create_dir"@ => "create_dir"@,
        "delete_file"@ => "delete_file"@,
        "move_file"@ => "move_file"@,
        "get_diagnostics"@ => "diagnostics"@,
        "spawn_agent"@ => "spawn_agent"@,
        "fetch_url"@ => "web_fetch"@,
        "web_search"@ => "web_search"@,
        "file_search"@ => "glob"@,
        "grep_search"@ => "grep"@,
        "list_dir"@ => "list_dir"@,
        "apply_edit"@ => "edit_file"@,
        "edit_file"@ => "write_file"@,
        "read_file"@ => "read_file"@,
        "run_terminal_cmd"@ => "bash"@,
    ]
}

/// Cursor's table maps exactly the names of [`cursor_tool_names`]:
/// a lowercased name gets its entry there and no other name gets one, so a
/// vendor name is normalized to the entry of its lowercase form, or kept.
pub proof fn lemma_cursor_tool_names(lower: Seq<char>, vendor: Seq<char>)
    ensures
        tool_table(CallerKind::Cursor, lower) == cursor_tool_names().get(lower),
        spec_normalize_tool(vendor, CallerKind::Cursor) == match cursor_tool_names().get(
            lowercase_of(vendor),
        ) {
            Some(canonical) => canonical,
            None => vendor,
        },
{
}

/// Windsurf's tool names: each lowercased vendor name that the table
/// knows, with its canonical name.
pub open spec fn windsurf_tool_names() -> Map<Seq<char>, Seq<char>> {
    map![
        "create_directory"@ => "create_dir"@,
        "delete_file"@ => "delete_file"@,
        "move_file"@ => "move_file"@,
        "get_diagnostics"@ => "diagnostics"@,
        "spawn_agent"@ => "spawn_agent"@,
        "fetch_page"@ => "web_fetch"@,
        "search_web"@ => "web_search"@,
        "find_files"@ => "glob"@,
        "search_files"@ => "grep"@,
        "list_directory"@ => "list_dir"@,
        "edit_file"@ => "edit_file"@,
        "write_file"@ => "write_file"@,
        "read_file"@ => "read_file"@,
        "run_command"@ => "bash"@,
    ]
}

/// Windsurf's table maps exactly the names of [`windsurf_tool_names`]:
/// a lowercased name gets its entry there and no other name gets one, so a
/// vendor name is normalized to the entry of its lowercase form, or kept.
pub proof fn lemma_windsurf_tool_names(lower: Seq<char>, vendor: Seq<char>)
    ensures
        tool_table(CallerKind::Windsurf, lower) == windsurf_tool_names().get(lower),
        spec_normalize_tool(vendor, CallerKind::Windsurf) == match windsurf_tool_names().get(
            lowercase_of(vendor),
        ) {
            Some(canonical) => canonical,
            None => vendor,
        },
{
}

/// Cline's tool names: each lowercased vendor name that the table
/// knows, with its canonical name.
pub open spec fn cline_tool_names() -> Map<Seq<char>, Seq<char>> {
    map![
        "get_diagnostics"@ => "diagnostics"@,
        "create_directory"@ => "create_dir"@,
        "delete_file"@ => "delete_file"@,
        "rename_file"@ => "move_file"@,
        "fetch"@ => "web_fetch"@,
        "search"@ => "web_search"@,
        "search_files"@ => "grep"@,
        "list_files"@ => "list_dir"@,
        "apply_diff"@ => "edit_file"@,
        "write_to_file"@ => "write_file"@,
        "read_file"@ => "read_file"@,
        "execute_command"@ => "bash"@,
    ]
}

/// Cline's table maps exactly the names of [`cline_tool_names`]:
/// a lowercased name gets its entry there and no other name gets one, so a
/// vendor name is normalized to the entry of its lowercase form, or kept.
pub proof fn lemma_cline_tool_names(lower: Seq<char>, vendor: Seq<char>)
    ensures
        tool_table(CallerKind::Cline, lower) == cline_tool_names().get(lower),
        spec_normalize_tool(vendor, CallerKind::Cline) == match cline_tool_names().get(
            lowercase_of(vendor),
        ) {
            Some(canonical) => canonical,
            None => vendor,
        },
{
}

/// Gemini CLI's tool names: each lowercased vendor name that the table
/// knows, with its canonical name.
pub open spec fn gemini_cli_tool_names() -> Map<Seq<char>, Seq<char>> {
    map![
        "make_directory"@ => "create_dir"@,
        "delete_file"@ => "delete_file"@,
        "move_file"@ => "move_file"@,
        "fetch"@ => "web_fetch"@,
        "google_web_search"@ => "web_search"@,
        "grep"@ => "grep"@,
        "glob"@ => "glob"@,
        "list_directory"@ => "list_dir"@,
        "replace"@ => "edit_file"@,
        "write_file"@ => "write_file"@,
        "read_file"@ => "read_file"@,
        "run_shell_command"@ => "bash"@,
    ]
}

/// Gemini CLI's table maps exactly the names of [`gemini_cli_tool_names`]:
/// a lowercased name gets its entry there and no other name gets one, so a
/// vendor name is normalized to the entry of its lowercase form, or kept.
pub proof fn lemma_gemini_cli_tool_names(lower: Seq<char>, vendor: Seq<char>)
    ensures
        tool_table(CallerKind::GeminiCli, lower) == gemini_cli_tool_names().get(lower),
        spec_normalize_tool(vendor, CallerKind::GeminiCli) == match gemini_cli_tool_names().get(
            lowercase_of(vendor),
        ) {
            Some(canonical) => canonical,
            None => vendor,
        },
{
}

/// Hermes's tool names: each lowercased vendor name that the table
/// knows, with its canonical name.
pub open spec fn hermes_tool_names() -> Map<Seq<char>, Seq<char>> {
    map![
        "browser_navigate"@ => "browser"@,
        "delegate_task"@ => "spawn_agent"@,
        "search_files"@ => "grep"@,
        "patch"@ => "edit_file"@,
        "write_file"@ => "write_file"@,
        "read_file"@ => "read_file"@,
        "terminal"@ => "bash"@,
    ]
}

/// Hermes's table maps exactly the names of [`hermes_tool_names`]:
/// a lowercased name gets its entry there and no other name gets one, so a
/// vendor name is normalized to the entry of its lowercase form, or kept.
pub proof fn lemma_hermes_tool_names(lower: Seq<char>, vendor: Seq<char>)
    ensures
        tool_table(CallerKind::Hermes, lower) == hermes_tool_names().get(lower),
        spec_normalize_tool(vendor, CallerKind::Hermes) == match hermes_tool_names().get(
            lowercase_of(vendor),
        ) {
            Some(canonical) => canonical,
            None => vendor,
        },
{
}

/// Amp's tool names: each lowercased vendor name that the table
/// knows, with its canonical name.
pub open spec fn amp_tool_names() -> Map<Seq<char>, Seq<char>> {
    map![
        "fs.mkdir"@ => "create_dir"@,
        "fs.delete"@ => "delete_file"@,
        "fs.move"@ => "move_file"@,
        "lsp.diagnostics"@ => "diagnostics"@,
        "agent.spawn"@ => "spawn_agent"@,
        "web.fetch"@ => "web_fetch"@,
        "web.search"@ => "web_search"@,
        "search.glob"@ => "glob"@,
        "search.grep"@ => "grep"@,
        "fs.list"@ => "list_dir"@,
        "file.edit"@ => "edit_file"@,
        "file.write"@ => "write_file"@,
        "file.read"@ => "read_file"@,
        "shell"@ => "bash"@,
    ]
}

/// Amp's table maps exactly the names of [`amp_tool_names`]:
/// a lowercased name gets its entry there and no other name gets one, so a
/// vendor name is normalized to the entry of its lowercase form, or kept.
pub proof fn lemma_amp_tool_names(lower: Seq<char>, vendor: Seq<char>)
    ensures
        tool_table(CallerKind::Amp, lower) == amp_tool_names().get(lower),
        spec_normalize_tool(vendor, CallerKind::Amp) == match amp_tool_names().get(
            lowercase_of(vendor),
        ) {
            Some(canonical) => canonical,
            None => vendor,
        },
{
}

} // verus!
