//! How the library's names and JSON forms read back: canonical event names,
//! caller names, a host's response request, and the event object that the
//! language SDKs read.
use vstd::prelude::*;

use crate::encode::{caller_name, event_json, opt_entry, opt_object_json, opt_str_json};
use crate::field_laws::{object_at, string_at};
use crate::frame::spec_response_of_request;
use crate::json::{lookup, model_get, JsonModel};
use crate::parse::HookEventModel;
use crate::frame::{le32, le32_value};
use crate::text::hyphenated;
use crate::types::{
    event_name, event_named, object_or_empty, CallerKind, HookEventEvent, ResponseModel,
};

verus! {

/// The canonical event names are `tool:before`, `tool:after`,
/// `session:start`, `session:stop`, `agent:stop` and `notification`; each
/// names its event, and reading a name back gives the event again.
pub proof fn lemma_event_names(e: HookEventEvent, s: Seq<char>)
    ensures
        event_named(event_name(e)) == Some(e),
        event_named(s) matches Some(named) ==> event_name(named) == s,
        event_named(s) is Some <==> (s == "tool:before"@ || s == "tool:after"@ || s
            == "session:start"@ || s == "session:stop"@ || s == "agent:stop"@ || s
            == "notification"@),
        event_name(HookEventEvent::ToolBefore) == "tool:before"@,
        event_name(HookEventEvent::ToolAfter) == "tool:after"@,
        event_name(HookEventEvent::SessionStart) == "session:start"@,
        event_name(HookEventEvent::SessionStop) == "session:stop"@,
        event_name(HookEventEvent::AgentStop) == "agent:stop"@,
        event_name(HookEventEvent::Notification) == "notification"@,
{
    reveal_strlit("tool:before");
    reveal_strlit("tool:after");
    reveal_strlit("session:start");
    reveal_strlit("session:stop");
    reveal_strlit("agent:stop");
    reveal_strlit("notification");
    assert("tool:before"@.len() == 11 && "tool:after"@.len() == 10);
    assert("session:start"@.len() == 13 && "session:stop"@.len() == 12);
    assert("agent:stop"@.len() == 10 && "notification"@.len() == 12);
    assert("tool:after"@[0] != "agent:stop"@[0]);
    assert("session:stop"@[0] != "notification"@[0]);
}

/// The callers are written as `cursor`, `windsurf`, `cline`, `amp`,
/// `gemini-cli`, `hermes`, `unknown`, and `ClaudeCode` as its two lowercase
/// words joined by a hyphen; two callers are written under the same name only
/// if they are the same caller.
pub proof fn lemma_caller_names_distinct(a: CallerKind, b: CallerKind)
    ensures
        caller_name(a) == caller_name(b) ==> a == b,
        caller_name(CallerKind::ClaudeCode) == hyphenated("claudecode"@, 6),
        caller_name(CallerKind::Cursor) == "cursor"@,
        caller_name(CallerKind::Windsurf) == "windsurf"@,
        caller_name(CallerKind::Cline) == "cline"@,
        caller_name(CallerKind::Amp) == "amp"@,
        caller_name(CallerKind::GeminiCli) == "gemini-cli"@,
        caller_name(CallerKind::Hermes) == "hermes"@,
        caller_name(CallerKind::Unknown) == "unknown"@,
{
    reveal_strlit("claudecode");
    reveal_strlit("cursor");
    reveal_strlit("windsurf");
    reveal_strlit("cline");
    reveal_strlit("amp");
    reveal_strlit("gemini-cli");
    reveal_strlit("hermes");
    reveal_strlit("unknown");
    assert(caller_name(CallerKind::ClaudeCode).len() == 11);
    assert("cursor"@.len() == 6 && "windsurf"@.len() == 8 && "cline"@.len() == 5);
    assert("amp"@.len() == 3 && "gemini-cli"@.len() == 10 && "hermes"@.len() == 6);
    assert("unknown"@.len() == 7);
    assert("cursor"@[0] != "hermes"@[0]);
}

/// A host's request `{"action": ..., ...}` stands for a block when `action`
/// is the string `"block"` (with the string under `message`, or the empty
/// message), for a modification when it is `"modify"` (with the object under
/// `input`, or no entries), and for an approval otherwise.
pub proof fn lemma_request_meaning(req: JsonModel)
    ensures
        string_at(req, "action"@) == Some("block"@) ==> spec_response_of_request(req)
            == ResponseModel::Block(
            match string_at(req, "message"@) {
                Some(m) => m,
                None => Seq::empty(),
            },
        ),
        string_at(req, "action"@) == Some("modify"@) ==> spec_response_of_request(req)
            == ResponseModel::Modify(
            match object_at(req, "input"@) {
                Some(o) => o,
                None => Seq::empty(),
            },
        ),
        string_at(req, "action"@) != Some("block"@) && string_at(req, "action"@) != Some(
            "modify"@,
        ) ==> spec_response_of_request(req) == ResponseModel::Approve,
{
    reveal_strlit("block");
    reveal_strlit("modify");
    assert("block"@.len() == 5 && "modify"@.len() == 6);
}

/// A modification carries the entries of the object it is given, and no
/// entries when it is given anything other than an object.
pub proof fn lemma_modify_input(input: JsonModel)
    ensures
        input matches JsonModel::Object(o) ==> object_or_empty(input) == o,
        !(input is Object) ==> object_or_empty(input) == Seq::<(Seq<char>, JsonModel)>::empty(),
{
}

/// A length-prefixed payload shorter than 2^32 bytes splits back into its
/// length, read from the four header bytes, and the payload itself.
pub proof fn lemma_length_prefix_splits(payload: Seq<u8>)
    requires
        payload.len() < 4294967296,
    ensures
        (le32(payload.len()) + payload).len() == payload.len() + 4,
        le32_value((le32(payload.len()) + payload).subrange(0, 4)) == payload.len(),
        (le32(payload.len()) + payload).subrange(4, payload.len() + 4int) == payload,
{
    let framed = le32(payload.len()) + payload;
    assert(framed.subrange(0, 4) =~= le32(payload.len()));
    assert(framed.subrange(4, payload.len() + 4int) =~= payload);
    crate::frame::lemma_length_header_roundtrip(payload.len());
}

/// Looking a key up in two lists of entries joined together finds it in the
/// first list when it is there, and in the second otherwise.
pub proof fn lemma_lookup_concat(
    a: Seq<(Seq<char>, JsonModel)>,
    b: Seq<(Seq<char>, JsonModel)>,
    key: Seq<char>,
)
    ensures
        lookup(a + b, key) == (if lookup(a, key) is Some {
            lookup(a, key)
        } else {
            lookup(b, key)
        }),
    decreases a.len(),
{
    if a.len() == 0 {
        assert(a + b =~= b);
    } else {
        assert((a + b).drop_first() =~= a.drop_first() + b);
        lemma_lookup_concat(a.drop_first(), b, key);
    }
}

/// Looking a key up in an entry that may be absent.
proof fn lemma_lookup_opt_entry(k0: Seq<char>, v: Option<JsonModel>, key: Seq<char>)
    ensures
        lookup(opt_entry(k0, v), key) == (if k0 == key {
            v
        } else {
            None
        }),
{
    match v {
        Some(x) => {
            let sq = opt_entry(k0, v);
            assert(sq.len() == 1 && sq[0] == (k0, x));
            assert(sq.drop_first() =~= Seq::<(Seq<char>, JsonModel)>::empty());
            assert(lookup(sq.drop_first(), key) is None);
        },
        None => {},
    }
}

/// The entries of an event's JSON object, as the seven optional entries that
/// make it up.
proof fn lemma_event_json_parts(e: HookEventModel, key: Seq<char>)
    ensures
        model_get(event_json(e), key) == {
            let l1 = lookup(opt_entry("event"@, Some(JsonModel::Str(event_name(e.event)))), key);
            let l2 = lookup(opt_entry("tool"@, opt_str_json(e.tool)), key);
            let l3 = lookup(opt_entry("input"@, opt_object_json(e.input)), key);
            let l4 = lookup(opt_entry("output"@, opt_object_json(e.output)), key);
            let l5 = lookup(opt_entry("sessionId"@, Some(JsonModel::Str(e.session_id))), key);
            let l6 = lookup(opt_entry("agentId"@, opt_str_json(e.agent_id)), key);
            let l7 = lookup(opt_entry("caller"@, Some(JsonModel::Str(caller_name(e.caller)))), key);
            if l1 is Some {
                l1
            } else if l2 is Some {
                l2
            } else if l3 is Some {
                l3
            } else if l4 is Some {
                l4
            } else if l5 is Some {
                l5
            } else if l6 is Some {
                l6
            } else {
                l7
            }
        },
{
    let p1 = opt_entry("event"@, Some(JsonModel::Str(event_name(e.event))));
    let p2 = opt_entry("tool"@, opt_str_json(e.tool));
    let p3 = opt_entry("input"@, opt_object_json(e.input));
    let p4 = opt_entry("output"@, opt_object_json(e.output));
    let p5 = opt_entry("sessionId"@, Some(JsonModel::Str(e.session_id)));
    let p6 = opt_entry("agentId"@, opt_str_json(e.agent_id));
    let p7 = opt_entry("caller"@, Some(JsonModel::Str(caller_name(e.caller))));
    assert(event_json(e) == JsonModel::Object(p1 + p2 + p3 + p4 + p5 + p6 + p7));
    lemma_lookup_concat(p1 + p2 + p3 + p4 + p5 + p6, p7, key);
    lemma_lookup_concat(p1 + p2 + p3 + p4 + p5, p6, key);
    lemma_lookup_concat(p1 + p2 + p3 + p4, p5, key);
    lemma_lookup_concat(p1 + p2 + p3, p4, key);
    lemma_lookup_concat(p1 + p2, p3, key);
    lemma_lookup_concat(p1, p2, key);
}

/// Every field of an event can be read back from its JSON object under its
/// name: `event`, `tool`, `input`, `output`, `sessionId`, `agentId` and
/// `caller`, the optional ones present exactly when the event has them.
pub proof fn lemma_event_json_fields(e: HookEventModel)
    ensures
        model_get(event_json(e), "event"@) == Some(JsonModel::Str(event_name(e.event))),
        model_get(event_json(e), "tool"@) == match e.tool {
            Some(t) => Some(JsonModel::Str(t)),
            None => None::<JsonModel>,
        },
        model_get(event_json(e), "input"@) == match e.input {
            Some(o) => Some(JsonModel::Object(o)),
            None => None::<JsonModel>,
        },
        model_get(event_json(e), "output"@) == match e.output {
            Some(o) => Some(JsonModel::Object(o)),
            None => None::<JsonModel>,
        },
        model_get(event_json(e), "sessionId"@) == Some(JsonModel::Str(e.session_id)),
        model_get(event_json(e), "agentId"@) == match e.agent_id {
            Some(a) => Some(JsonModel::Str(a)),
            None => None::<JsonModel>,
        },
        model_get(event_json(e), "caller"@) == Some(JsonModel::Str(caller_name(e.caller))),
{
    reveal_strlit("event");
    reveal_strlit("tool");
    reveal_strlit("input");
    reveal_strlit("output");
    reveal_strlit("sessionId");
    reveal_strlit("agentId");
    reveal_strlit("caller");
    let keys = seq!["event"@, "tool"@, "input"@, "output"@, "sessionId"@, "agentId"@, "caller"@];
    assert(keys[0].len() == 5 && keys[1].len() == 4 && keys[2].len() == 5 && keys[3].len() == 6);
    assert(keys[4].len() == 9 && keys[5].len() == 7 && keys[6].len() == 6);
    assert(keys[0][0] != keys[2][0] && keys[3][0] != keys[6][0]);
    assert forall|i: int, j: int| 0 <= i < 7 && 0 <= j < 7 && i != j implies keys[i] != keys[j] by {
        if keys[i] == keys[j] {
            assert(keys[i].len() == keys[j].len());
            assert(keys[i][0] == keys[j][0]);
        }
    }
    assert forall|k: int| 0 <= k < 7 implies {
        let key = #[trigger] keys[k];
        &&& event_json_field_at(e, key)
    } by {
        let key = keys[k];
        lemma_event_json_parts(e, key);
        lemma_lookup_opt_entry("event"@, Some(JsonModel::Str(event_name(e.event))), key);
        lemma_lookup_opt_entry("tool"@, opt_str_json(e.tool), key);
        lemma_lookup_opt_entry("input"@, opt_object_json(e.input), key);
        lemma_lookup_opt_entry("output"@, opt_object_json(e.output), key);
        lemma_lookup_opt_entry("sessionId"@, Some(JsonModel::Str(e.session_id)), key);
        lemma_lookup_opt_entry("agentId"@, opt_str_json(e.agent_id), key);
        lemma_lookup_opt_entry("caller"@, Some(JsonModel::Str(caller_name(e.caller))), key);
    }
    assert(event_json_field_at(e, keys[0]));
    assert(event_json_field_at(e, keys[1]));
    assert(event_json_field_at(e, keys[2]));
    assert(event_json_field_at(e, keys[3]));
    assert(event_json_field_at(e, keys[4]));
    assert(event_json_field_at(e, keys[5]));
    assert(event_json_field_at(e, keys[6]));
}

/// The value under `key` in an event's JSON object, field by field.
spec fn event_json_field_at(e: HookEventModel, key: Seq<char>) -> bool {
    model_get(event_json(e), key) == if key == "event"@ {
        Some(JsonModel::Str(event_name(e.event)))
    } else if key == "tool"@ {
        opt_str_json(e.tool)
    } else if key == "input"@ {
        opt_object_json(e.input)
    } else if key == "output"@ {
        opt_object_json(e.output)
    } else if key == "sessionId"@ {
        Some(JsonModel::Str(e.session_id))
    } else if key == "agentId"@ {
        opt_str_json(e.agent_id)
    } else {
        Some(JsonModel::Str(caller_name(e.caller)))
    }
}

} // verus!
