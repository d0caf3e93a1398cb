//! The JSON forms of the library's own values: a normalized event as the
//! language SDKs read it, and a response as a host writes it.
use vstd::prelude::*;

use crate::detect::override_named;
use crate::frame::{request_of, spec_response_of_request};
use crate::json::{clone_entries, entries_view, Json, JsonMap, JsonModel};
use crate::parse::HookEventModel;
use crate::response::{object1, object2};
use crate::text::hyphenated;
use crate::types::{
    event_name, response_well_formed, CallerKind, HookEvent, HookResponse,
};

verus! {

broadcast use vstd::std_specs::vec::group_vec_axioms;

/// The name under which a caller is written in JSON.
pub open spec fn caller_name(c: CallerKind) -> Seq<char> {
    match c {
        CallerKind::ClaudeCode => hyphenated("claudecode"@, 6),
        CallerKind::Cursor => "cursor"@,
        CallerKind::Windsurf => "windsurf"@,
        CallerKind::Cline => "cline"@,
        CallerKind::Amp => "amp"@,
        CallerKind::GeminiCli => "gemini-cli"@,
        CallerKind::Hermes => "hermes"@,
        CallerKind::Unknown => "unknown"@,
    }
}

impl CallerKind {
    /// The name under which the caller is written in JSON, such as `"cursor"`.
    pub fn name(&self) -> (r: String)
        ensures
            r@ == caller_name(*self),
    {
        match self {
            CallerKind::ClaudeCode => {
                let joined = "claudecode";
                proof {
                    reveal_strlit("claudecode");
                }
                let mut r = String::from_str(joined.substring_char(0, 6));
                r.append("-");
                r.append(joined.substring_char(6, 10));
                proof {
                    reveal_strlit("-");
                    assert(r@ =~= hyphenated("claudecode"@, 6));
                }
                r
            },
            CallerKind::Cursor => String::from_str("cursor"),
            CallerKind::Windsurf => String::from_str("windsurf"),
            CallerKind::Cline => String::from_str("cline"),
            CallerKind::Amp => String::from_str("amp"),
            CallerKind::GeminiCli => String::from_str("gemini-cli"),
            CallerKind::Hermes => String::from_str("hermes"),
            CallerKind::Unknown => String::from_str("unknown"),
        }
    }
}

/// The name under which a detectable caller is written selects that caller
/// again when it is given as `POLYHOOK_CALLER` (after lowercasing).
pub proof fn lemma_caller_name_selects_caller(c: CallerKind)
    requires
        c != CallerKind::Hermes,
        c != CallerKind::Unknown,
    ensures
        override_named(caller_name(c)) == Some(c),
{
    reveal_strlit("claudecode");
    reveal_strlit("cursor");
    reveal_strlit("windsurf");
    reveal_strlit("cline");
    reveal_strlit("amp");
    reveal_strlit("geminicli");
    reveal_strlit("gemini-cli");
    let cc = hyphenated("claudecode"@, 6);
    let gc = hyphenated("geminicli"@, 6);
    assert(gc =~= "gemini-cli"@);
    assert(cc.len() == 11 && gc.len() == 10);
    assert(gc[0] != "claudecode"@[0]);
    match c {
        CallerKind::ClaudeCode => {},
        CallerKind::Cursor => {
            assert("cursor"@.len() == 6);
        },
        CallerKind::Windsurf => {
            assert("windsurf"@.len() == 8);
        },
        CallerKind::Cline => {
            assert("cline"@.len() == 5);
        },
        CallerKind::Amp => {
            assert("amp"@.len() == 3);
        },
        CallerKind::GeminiCli => {
            assert("gemini-cli"@ != "claudecode"@);
            assert(override_named(gc) == Some(CallerKind::GeminiCli));
        },
        _ => {},
    }
}

/// A single entry `key: value` when the value is present, and none otherwise.
pub open spec fn opt_entry(key: Seq<char>, value: Option<JsonModel>) -> Seq<(Seq<char>, JsonModel)> {
    match value {
        Some(v) => seq![(key, v)],
        None => seq![],
    }
}

/// An optional string as an optional JSON string.
pub open spec fn opt_str_json(s: Option<Seq<char>>) -> Option<JsonModel> {
    match s {
        Some(t) => Some(JsonModel::Str(t)),
        None => None,
    }
}

/// An optional list of entries as an optional JSON object.
pub open spec fn opt_object_json(m: Option<Seq<(Seq<char>, JsonModel)>>) -> Option<JsonModel> {
    match m {
        Some(entries) => Some(JsonModel::Object(entries)),
        None => None,
    }
}

/// The JSON object that the language SDKs read for an event: `event`,
/// `tool`, `input`, `output`, `sessionId`, `agentId`, `caller`, with the
/// optional fields left out when absent.
pub open spec fn event_json(e: HookEventModel) -> JsonModel {
    JsonModel::Object(
        seq![("event"@, JsonModel::Str(event_name(e.event)))]
            + opt_entry("tool"@, opt_str_json(e.tool))
            + opt_entry("input"@, opt_object_json(e.input))
            + opt_entry("output"@, opt_object_json(e.output))
            + seq![("sessionId"@, JsonModel::Str(e.session_id))]
            + opt_entry("agentId"@, opt_str_json(e.agent_id))
            + seq![("caller"@, JsonModel::Str(caller_name(e.caller)))],
    )
}

fn push_entry(v: &mut JsonMap, key: &str, value: Json)
    ensures
        entries_view(final(v)) == entries_view(old(v)).push((key@, value@)),
{
    v.push((String::from_str(key), value));
    assert(entries_view(v) =~= entries_view(old(v)).push((key@, value@)));
}

/// A normalized event as the JSON object that the language SDKs read.
pub fn event_to_json(e: &HookEvent) -> (r: Json)
    ensures
        r@ == event_json(e@),
{
    let mut v: JsonMap = Vec::new();
    assert(entries_view(&v) =~= seq![]);
    push_entry(&mut v, "event", Json::Str(e.event.to_string()));
    let ghost mut expected = seq![("event"@, JsonModel::Str(event_name(e.event)))];
    assert(entries_view(&v) == expected);

    if let Some(t) = &e.tool {
        push_entry(&mut v, "tool", Json::Str(t.clone()));
    }
    proof {
        expected = expected + opt_entry("tool"@, opt_str_json(e@.tool));
        assert(entries_view(&v) =~= expected);
    }

    if let Some(m) = &e.input {
        push_entry(&mut v, "input", Json::Object(clone_entries(m)));
    }
    proof {
        expected = expected + opt_entry("input"@, opt_object_json(e@.input));
        assert(entries_view(&v) =~= expected);
    }

    if let Some(m) = &e.output {
        push_entry(&mut v, "output", Json::Object(clone_entries(m)));
    }
    proof {
        expected = expected + opt_entry("output"@, opt_object_json(e@.output));
        assert(entries_view(&v) =~= expected);
    }

    push_entry(&mut v, "sessionId", Json::Str(e.session_id.clone()));
    proof {
        expected = expected + seq![("sessionId"@, JsonModel::Str(e@.session_id))];
        assert(entries_view(&v) =~= expected);
    }

    if let Some(a) = &e.agent_id {
        push_entry(&mut v, "agentId", Json::Str(a.clone()));
    }
    proof {
        expected = expected + opt_entry("agentId"@, opt_str_json(e@.agent_id));
        assert(entries_view(&v) =~= expected);
    }

    push_entry(&mut v, "caller", Json::Str(e.caller.name()));
    proof {
        expected = expected + seq![("caller"@, JsonModel::Str(caller_name(e@.caller)))];
        assert(entries_view(&v) =~= expected);
    }
    Json::Object(v)
}

/// The JSON form of a response as its fields hold it: `action`, then
/// `message` for a block or `input` for a modification.
pub open spec fn response_json(r: HookResponse) -> JsonModel {
    match r {
        HookResponse::ApproveResponse(a) => object1("action"@, JsonModel::Str(a.action@)),
        HookResponse::BlockResponse(b) => object2(
            "action"@,
            JsonModel::Str(b.action@),
            "message"@,
            JsonModel::Str(b.message@),
        ),
        HookResponse::ModifyResponse(m) => object2(
            "action"@,
            JsonModel::Str(m.action@),
            "input"@,
            JsonModel::Object(entries_view(&m.input)),
        ),
    }
}

/// A response as the JSON object `{action, message | input}`.  For a
/// response made by [`HookResponse::approve`], [`HookResponse::block`] or
/// [`HookResponse::modify`] this is the host's form of it.
pub fn response_to_json(resp: &HookResponse) -> (r: Json)
    ensures
        r@ == response_json(*resp),
        response_well_formed(*resp) ==> r@ == request_of(resp@),
{
    let mut v: JsonMap = Vec::new();
    assert(entries_view(&v) =~= seq![]);
    match resp {
        HookResponse::ApproveResponse(a) => {
            push_entry(&mut v, "action", Json::Str(a.action.clone()));
            assert(entries_view(&v) =~= seq![("action"@, JsonModel::Str(a.action@))]);
        },
        HookResponse::BlockResponse(b) => {
            push_entry(&mut v, "action", Json::Str(b.action.clone()));
            push_entry(&mut v, "message", Json::Str(b.message.clone()));
            assert(entries_view(&v) =~= seq![
                ("action"@, JsonModel::Str(b.action@)),
                ("message"@, JsonModel::Str(b.message@)),
            ]);
        },
        HookResponse::ModifyResponse(m) => {
            push_entry(&mut v, "action", Json::Str(m.action.clone()));
            push_entry(&mut v, "input", Json::Object(clone_entries(&m.input)));
            assert(entries_view(&v) =~= seq![
                ("action"@, JsonModel::Str(m.action@)),
                ("input"@, JsonModel::Object(entries_view(&m.input))),
            ]);
        },
    }
    Json::Object(v)
}

/// A response made by the constructors is read back from its JSON form as
/// itself.
pub proof fn lemma_response_json_roundtrip(r: HookResponse)
    requires
        response_well_formed(r),
    ensures
        spec_response_of_request(response_json(r)) == r@,
{
    crate::frame::lemma_request_roundtrip(r@);
}

} // verus!
