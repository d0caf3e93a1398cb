//! Extraction of a normalized [`HookEvent`] from a caller's stdin document.
use vstd::prelude::*;

use crate::decode::{decode_json, json_decode};
use crate::detect::{detect_caller, spec_detect_caller, CallerEnv};
use crate::events::{normalize_event, spec_normalize_event};
use crate::json::{
    clone_entries, entries_view, model_get, model_object, model_str_field, Json, JsonMap,
    JsonModel,
};
use crate::tools::{normalize_tool, spec_normalize_tool};
use crate::types::{event_named, CallerKind, HookEvent, HookEventEvent};

verus! {

broadcast use vstd::std_specs::vec::group_vec_axioms;

/// The mathematical value of a [`HookEvent`].
pub struct HookEventModel {
    pub event: HookEventEvent,
    pub tool: Option<Seq<char>>,
    pub input: Option<Seq<(Seq<char>, JsonModel)>>,
    pub output: Option<Seq<(Seq<char>, JsonModel)>>,
    pub session_id: Seq<char>,
    pub agent_id: Option<Seq<char>>,
    pub caller: CallerKind,
}

/// The characters of an optional string.
pub open spec fn opt_string_view(o: Option<String>) -> Option<Seq<char>> {
    match o {
        Some(s) => Some(s@),
        None => None,
    }
}

/// The entries of an optional JSON object.
pub open spec fn opt_map_view(o: Option<JsonMap>) -> Option<Seq<(Seq<char>, JsonModel)>> {
    match o {
        Some(m) => Some(entries_view(&m)),
        None => None,
    }
}

impl View for HookEvent {
    type V = HookEventModel;

    open spec fn view(&self) -> HookEventModel {
        HookEventModel {
            event: self.event,
            tool: opt_string_view(self.tool),
            input: opt_map_view(self.input),
            output: opt_map_view(self.output),
            session_id: self.session_id@,
            agent_id: opt_string_view(self.agent_id),
            caller: self.caller,
        }
    }
}

/// The characters of a list of keys.
pub open spec fn key_names(keys: Seq<&str>) -> Seq<Seq<char>> {
    keys.map_values(|k: &str| k@)
}

/// The first of `keys` under which `val` holds a string, and that string.
pub open spec fn first_str(val: JsonModel, keys: Seq<Seq<char>>) -> Option<Seq<char>>
    decreases keys.len(),
{
    if keys.len() == 0 {
        None
    } else {
        match model_str_field(val, keys[0]) {
            Some(s) => Some(s),
            None => first_str(val, keys.drop_first()),
        }
    }
}

/// The value under the first of `keys` that `val` holds, of any type.
pub open spec fn first_present(val: JsonModel, keys: Seq<Seq<char>>) -> Option<JsonModel>
    decreases keys.len(),
{
    if keys.len() == 0 {
        None
    } else {
        match model_get(val, keys[0]) {
            Some(v) => Some(v),
            None => first_present(val, keys.drop_first()),
        }
    }
}

/// The entries of an optional value when it is an object.
pub open spec fn opt_object(v: Option<JsonModel>) -> Option<Seq<(Seq<char>, JsonModel)>> {
    match v {
        Some(x) => model_object(x),
        None => None,
    }
}

/// `val["toolCall"][key]`.
pub open spec fn tool_call_field(val: JsonModel, key: Seq<char>) -> Option<JsonModel> {
    match model_get(val, "toolCall"@) {
        Some(tc) => model_get(tc, key),
        None => None,
    }
}

/// The fields that may name the event, in the order they are tried.  Gemini
/// CLI names it in `hook_event_name`, then as an unrecognized caller would.
pub open spec fn event_keys(caller: CallerKind) -> Seq<Seq<char>> {
    match caller {
        CallerKind::ClaudeCode => seq!["event"@, "hookEvent"@, "hook_event"@, "type"@],
        CallerKind::Cursor => seq!["type"@, "event"@],
        CallerKind::Windsurf => seq!["event"@, "type"@],
        CallerKind::Cline => seq!["type"@, "event"@],
        CallerKind::Amp => seq!["kind"@, "event"@, "type"@],
        CallerKind::GeminiCli => seq!["hook_event_name"@, "event"@, "type"@, "kind"@, "hookEvent"@],
        _ => seq!["event"@, "type"@, "kind"@, "hookEvent"@],
    }
}

/// The fields that may name the tool (all callers but Cursor, which nests
/// it under `toolCall.name`).
pub open spec fn tool_keys(caller: CallerKind) -> Seq<Seq<char>> {
    match caller {
        CallerKind::ClaudeCode => seq!["tool_name"@],
        CallerKind::Windsurf => seq!["tool"@],
        CallerKind::Cline => seq!["toolName"@],
        CallerKind::Amp => seq!["name"@],
        _ => seq!["tool_name"@, "toolName"@, "tool"@, "name"@],
    }
}

/// The fields that may hold the tool input (all callers but Cursor, which
/// nests it under `toolCall.args`).
pub open spec fn input_keys(caller: CallerKind) -> Seq<Seq<char>> {
    match caller {
        CallerKind::ClaudeCode => seq!["tool_input"@],
        CallerKind::Windsurf => seq!["parameters"@],
        CallerKind::Cline | CallerKind::Amp => seq!["args"@, "input"@],
        _ => seq!["tool_input"@, "args"@, "parameters"@, "input"@],
    }
}

/// The fields that may hold the tool output (all callers but Cursor, which
/// nests it under `toolCall.result`).
pub open spec fn output_keys(caller: CallerKind) -> Seq<Seq<char>> {
    match caller {
        CallerKind::ClaudeCode => seq!["tool_output"@],
        CallerKind::Windsurf => seq!["result"@],
        CallerKind::Cline | CallerKind::Amp => seq!["result"@, "output"@],
        _ => seq!["tool_output"@, "result"@, "output"@],
    }
}

/// The fields that may hold the session id.
pub open spec fn session_keys() -> Seq<Seq<char>> {
    seq!["session_id"@, "sessionId"@, "session"@]
}

/// The fields that may hold the agent id.
pub open spec fn agent_keys() -> Seq<Seq<char>> {
    seq!["agent_id"@, "agentId"@, "agent"@]
}

/// The raw event name; empty when no candidate field holds a string.
pub open spec fn spec_event_field(val: JsonModel, caller: CallerKind) -> Seq<char> {
    match first_str(val, event_keys(caller)) {
        Some(s) => s,
        None => Seq::empty(),
    }
}

/// The raw tool name.
pub open spec fn spec_tool_field(val: JsonModel, caller: CallerKind) -> Option<Seq<char>> {
    if caller == CallerKind::Cursor {
        match tool_call_field(val, "name"@) {
            Some(n) => match n {
                JsonModel::Str(s) => Some(s),
                _ => None,
            },
            None => None,
        }
    } else {
        first_str(val, tool_keys(caller))
    }
}

/// The tool input, when the field that holds it is an object.
pub open spec fn spec_input(val: JsonModel, caller: CallerKind) -> Option<
    Seq<(Seq<char>, JsonModel)>,
> {
    if caller == CallerKind::Cursor {
        opt_object(tool_call_field(val, "args"@))
    } else {
        opt_object(first_present(val, input_keys(caller)))
    }
}

/// The tool output, when the field that holds it is an object.
pub open spec fn spec_output(val: JsonModel, caller: CallerKind) -> Option<
    Seq<(Seq<char>, JsonModel)>,
> {
    if caller == CallerKind::Cursor {
        opt_object(tool_call_field(val, "result"@))
    } else {
        opt_object(first_present(val, output_keys(caller)))
    }
}

/// The session id; empty when no candidate field holds a string.
pub open spec fn spec_session_id(val: JsonModel) -> Seq<char> {
    match first_str(val, session_keys()) {
        Some(s) => s,
        None => Seq::empty(),
    }
}

/// The canonical event: the normalized event name when it names one of the
/// canonical events, and `Notification` otherwise.
pub open spec fn spec_event_kind(val: JsonModel, caller: CallerKind) -> HookEventEvent {
    match event_named(spec_normalize_event(spec_event_field(val, caller), caller)) {
        Some(e) => e,
        None => HookEventEvent::Notification,
    }
}

/// The normalized event that a stdin document stands for.
pub open spec fn spec_event_from(val: JsonModel, env: CallerEnv) -> HookEventModel {
    let caller = spec_detect_caller(env, val);
    HookEventModel {
        event: spec_event_kind(val, caller),
        tool: match spec_tool_field(val, caller) {
            Some(t) => Some(spec_normalize_tool(t, caller)),
            None => None,
        },
        input: spec_input(val, caller),
        output: spec_output(val, caller),
        session_id: spec_session_id(val),
        agent_id: first_str(val, agent_keys()),
        caller,
    }
}

/// From an unrecognized caller, the tool name is kept as sent, and the
/// event is the canonical event that the sent name spells out (a
/// notification when it spells out none).
pub proof fn lemma_unknown_caller_keeps_names(val: JsonModel, env: CallerEnv)
    requires
        spec_detect_caller(env, val) == CallerKind::Unknown,
    ensures
        spec_event_from(val, env).tool == first_str(val, tool_keys(CallerKind::Unknown)),
        spec_event_from(val, env).event == match event_named(
            spec_event_field(val, CallerKind::Unknown),
        ) {
            Some(e) => e,
            None => HookEventEvent::Notification,
        },
{
    match first_str(val, tool_keys(CallerKind::Unknown)) {
        Some(t) => crate::tools::lemma_tool_passthrough_without_table(t, CallerKind::Unknown),
        None => {},
    }
}

/// The session and agent ids are read the same way whoever the caller is,
/// and the event records the detected caller.
pub proof fn lemma_ids_independent_of_caller(val: JsonModel, env1: CallerEnv, env2: CallerEnv)
    ensures
        spec_event_from(val, env1).session_id == spec_event_from(val, env2).session_id,
        spec_event_from(val, env1).agent_id == spec_event_from(val, env2).agent_id,
        spec_event_from(val, env1).caller == spec_detect_caller(env1, val),
{
}

/// The string under the first of `keys` that holds a string.
fn first_str_field(val: &Json, keys: &Vec<&str>) -> (r: Option<String>)
    ensures
        opt_string_view(r) == first_str(val@, key_names(keys@)),
{
    let ghost names = key_names(keys@);
    assert(names.subrange(0, names.len() as int) =~= names);
    let mut i: usize = 0;
    while i < keys.len()
        invariant
            i <= keys.len(),
            names == key_names(keys@),
            first_str(val@, names) == first_str(val@, names.subrange(i as int, names.len() as int)),
        decreases keys.len() - i,
    {
        let ghost rest = names.subrange(i as int, names.len() as int);
        assert(rest.drop_first() =~= names.subrange(i + 1, names.len() as int));
        if let Some(s) = val.str_field(keys[i]) {
            return Some(s.clone());
        }
        i = i + 1;
    }
    None
}

/// The value under the first of `keys` that `val` holds.
fn first_present_field<'a>(val: &'a Json, keys: &Vec<&str>) -> (r: Option<&'a Json>)
    ensures
        match r {
            Some(v) => first_present(val@, key_names(keys@)) == Some(v@),
            None => first_present(val@, key_names(keys@)) is None,
        },
{
    let ghost names = key_names(keys@);
    assert(names.subrange(0, names.len() as int) =~= names);
    let mut i: usize = 0;
    while i < keys.len()
        invariant
            i <= keys.len(),
            names == key_names(keys@),
            first_present(val@, names) == first_present(
                val@,
                names.subrange(i as int, names.len() as int),
            ),
        decreases keys.len() - i,
    {
        let ghost rest = names.subrange(i as int, names.len() as int);
        assert(rest.drop_first() =~= names.subrange(i + 1, names.len() as int));
        if let Some(v) = val.get(keys[i]) {
            return Some(v);
        }
        i = i + 1;
    }
    None
}

/// A copy of the entries of `v` when it is an object.
fn object_entries(v: Option<&Json>) -> (r: Option<JsonMap>)
    ensures
        opt_map_view(r) == opt_object(
            match v {
                Some(x) => Some(x@),
                None => None,
            },
        ),
{
    match v {
        Some(Json::Object(entries)) => Some(clone_entries(entries)),
        _ => None,
    }
}

fn event_key_list(caller: &CallerKind) -> (r: Vec<&'static str>)
    ensures
        key_names(r@) == event_keys(*caller),
{
    let r = match caller {
        CallerKind::ClaudeCode => vec!["event", "hookEvent", "hook_event", "type"],
        CallerKind::Cursor => vec!["type", "event"],
        CallerKind::Windsurf => vec!["event", "type"],
        CallerKind::Cline => vec!["type", "event"],
        CallerKind::Amp => vec!["kind", "event", "type"],
        CallerKind::GeminiCli => vec!["hook_event_name", "event", "type", "kind", "hookEvent"],
        _ => vec!["event", "type", "kind", "hookEvent"],
    };
    assert(key_names(r@) =~= event_keys(*caller));
    r
}

fn tool_key_list(caller: &CallerKind) -> (r: Vec<&'static str>)
    ensures
        key_names(r@) == tool_keys(*caller),
{
    let r = match caller {
        CallerKind::ClaudeCode => vec!["tool_name"],
        CallerKind::Windsurf => vec!["tool"],
        CallerKind::Cline => vec!["toolName"],
        CallerKind::Amp => vec!["name"],
        _ => vec!["tool_name", "toolName", "tool", "name"],
    };
    assert(key_names(r@) =~= tool_keys(*caller));
    r
}

fn input_key_list(caller: &CallerKind) -> (r: Vec<&'static str>)
    ensures
        key_names(r@) == input_keys(*caller),
{
    let r = match caller {
        CallerKind::ClaudeCode => vec!["tool_input"],
        CallerKind::Windsurf => vec!["parameters"],
        CallerKind::Cline | CallerKind::Amp => vec!["args", "input"],
        _ => vec!["tool_input", "args", "parameters", "input"],
    };
    assert(key_names(r@) =~= input_keys(*caller));
    r
}

fn output_key_list(caller: &CallerKind) -> (r: Vec<&'static str>)
    ensures
        key_names(r@) == output_keys(*caller),
{
    let r = match caller {
        CallerKind::ClaudeCode => vec!["tool_output"],
        CallerKind::Windsurf => vec!["result"],
        CallerKind::Cline | CallerKind::Amp => vec!["result", "output"],
        _ => vec!["tool_output", "result", "output"],
    };
    assert(key_names(r@) =~= output_keys(*caller));
    r
}

/// The raw event name: the first candidate field of the caller that holds a
/// string, or the empty string.
pub fn extract_event_field(val: &Json, caller: &CallerKind) -> (r: String)
    ensures
        r@ == spec_event_field(val@, *caller),
{
    match first_str_field(val, &event_key_list(caller)) {
        Some(s) => s,
        None => String::new(),
    }
}

/// The raw tool name.
pub fn extract_tool_field(val: &Json, caller: &CallerKind) -> (r: Option<String>)
    ensures
        opt_string_view(r) == spec_tool_field(val@, *caller),
{
    match caller {
        CallerKind::Cursor => match val.get("toolCall") {
            Some(tc) => match tc.str_field("name") {
                Some(n) => Some(n.clone()),
                None => None,
            },
            None => None,
        },
        _ => first_str_field(val, &tool_key_list(caller)),
    }
}

/// The tool input, when the field that holds it is an object.
pub fn extract_input(val: &Json, caller: &CallerKind) -> (r: Option<JsonMap>)
    ensures
        opt_map_view(r) == spec_input(val@, *caller),
{
    match caller {
        CallerKind::Cursor => match val.get("toolCall") {
            Some(tc) => object_entries(tc.get("args")),
            None => None,
        },
        _ => object_entries(first_present_field(val, &input_key_list(caller))),
    }
}

/// The tool output, when the field that holds it is an object.
pub fn extract_output(val: &Json, caller: &CallerKind) -> (r: Option<JsonMap>)
    ensures
        opt_map_view(r) == spec_output(val@, *caller),
{
    match caller {
        CallerKind::Cursor => match val.get("toolCall") {
            Some(tc) => object_entries(tc.get("result")),
            None => None,
        },
        _ => object_entries(first_present_field(val, &output_key_list(caller))),
    }
}

/// The session id: the first of `session_id`, `sessionId`, `session` that
/// holds a string, or the empty string.
pub fn extract_session_id(val: &Json) -> (r: String)
    ensures
        r@ == spec_session_id(val@),
{
    let keys = vec!["session_id", "sessionId", "session"];
    assert(key_names(keys@) =~= session_keys());
    match first_str_field(val, &keys) {
        Some(s) => s,
        None => String::new(),
    }
}

/// The agent id: the first of `agent_id`, `agentId`, `agent` that holds a
/// string.
pub fn extract_agent_id(val: &Json) -> (r: Option<String>)
    ensures
        opt_string_view(r) == first_str(val@, agent_keys()),
{
    let keys = vec!["agent_id", "agentId", "agent"];
    assert(key_names(keys@) =~= agent_keys());
    first_str_field(val, &keys)
}

/// The normalized event that a decoded stdin document stands for.
pub fn event_from_json(val: &Json, env: &CallerEnv) -> (r: HookEvent)
    ensures
        r@ == spec_event_from(val@, *env),
{
    let caller = detect_caller(env, val);

    let raw_event = extract_event_field(val, &caller);
    let event_str = normalize_event(raw_event.as_str(), &caller);
    let event = match HookEventEvent::from_name(event_str.as_str()) {
        Some(e) => e,
        None => HookEventEvent::Notification,
    };

    let tool = match extract_tool_field(val, &caller) {
        Some(t) => Some(normalize_tool(t.as_str(), &caller)),
        None => None,
    };

    let input = extract_input(val, &caller);
    let output = extract_output(val, &caller);
    let session_id = extract_session_id(val);
    let agent_id = extract_agent_id(val);

    HookEvent { event, tool, input, output, session_id, agent_id, caller }
}

/// Parse raw stdin bytes into a normalized [`HookEvent`].
///
/// Fails exactly when the bytes are not a JSON document; every JSON document
/// gives an event (an unrecognized shape gives the `Unknown` caller).
pub fn parse_event(raw: &[u8], env: &CallerEnv) -> (r: Result<HookEvent, String>)
    ensures
        match json_decode(raw@) {
            Ok(doc) => r matches Ok(e) && e@ == spec_event_from(doc, *env),
            Err(msg) => r matches Err(m) && m@ == "JSON parse error: "@ + msg,
        },
{
    match decode_json(raw) {
        Ok(val) => Ok(event_from_json(&val, env)),
        Err(msg) => {
            let mut m = String::from_str("JSON parse error: ");
            m.append(msg.as_str());
            Err(m)
        },
    }
}

} // verus!
