//! The normalized event and response types that every caller is mapped to.
use vstd::prelude::*;

use crate::json::{entries_view, Json, JsonMap, JsonModel};
use crate::text::str_eq;

verus! {

/// The agent that invoked the hook.
#[derive(Debug, Clone, Copy, PartialEq, Eq, Structural)]
pub enum CallerKind {
    ClaudeCode,
    Cursor,
    Windsurf,
    Cline,
    Amp,
    GeminiCli,
    Hermes,
    Unknown,
}

impl Default for CallerKind {
    /// A caller that was not recognized.
    fn default() -> (r: CallerKind)
        ensures
            r == CallerKind::Unknown,
    {
        CallerKind::Unknown
    }
}

/// The canonical hook events.
#[derive(Debug, Clone, Copy, PartialEq, Eq, Structural)]
pub enum HookEventEvent {
    ToolBefore,
    ToolAfter,
    SessionStart,
    SessionStop,
    AgentStop,
    Notification,
}

/// The canonical name of an event.
pub open spec fn event_name(e: HookEventEvent) -> Seq<char> {
    match e {
        HookEventEvent::ToolBefore => "tool:before"@,
        HookEventEvent::ToolAfter => "tool:after"@,
        HookEventEvent::SessionStart => "session:start"@,
        HookEventEvent::SessionStop => "session:stop"@,
        HookEventEvent::AgentStop => "agent:stop"@,
        HookEventEvent::Notification => "notification"@,
    }
}

/// The event whose canonical name is `s`, if any.
pub open spec fn event_named(s: Seq<char>) -> Option<HookEventEvent> {
    if s == "tool:before"@ {
        Some(HookEventEvent::ToolBefore)
    } else if s == "tool:after"@ {
        Some(HookEventEvent::ToolAfter)
    } else if s == "session:start"@ {
        Some(HookEventEvent::SessionStart)
    } else if s == "session:stop"@ {
        Some(HookEventEvent::SessionStop)
    } else if s == "agent:stop"@ {
        Some(HookEventEvent::AgentStop)
    } else if s == "notification"@ {
        Some(HookEventEvent::Notification)
    } else {
        None
    }
}

impl HookEventEvent {
    /// The canonical name of the event, such as `"tool:before"`.
    pub fn to_string(&self) -> (r: String)
        ensures
            r@ == event_name(*self),
    {
        let s = match self {
            HookEventEvent::ToolBefore => "tool:before",
            HookEventEvent::ToolAfter => "tool:after",
            HookEventEvent::SessionStart => "session:start",
            HookEventEvent::SessionStop => "session:stop",
            HookEventEvent::AgentStop => "agent:stop",
            HookEventEvent::Notification => "notification",
        };
        String::from_str(s)
    }

    /// The event with the given canonical name; `None` for any other text.
    pub fn from_name(s: &str) -> (r: Option<HookEventEvent>)
        ensures
            r == event_named(s@),
    {
        if str_eq(s, "tool:before") {
            Some(HookEventEvent::ToolBefore)
        } else if str_eq(s, "tool:after") {
            Some(HookEventEvent::ToolAfter)
        } else if str_eq(s, "session:start") {
            Some(HookEventEvent::SessionStart)
        } else if str_eq(s, "session:stop") {
            Some(HookEventEvent::SessionStop)
        } else if str_eq(s, "agent:stop") {
            Some(HookEventEvent::AgentStop)
        } else if str_eq(s, "notification") {
            Some(HookEventEvent::Notification)
        } else {
            None
        }
    }
}

/// A hook event, normalized across callers.
#[derive(Debug)]
pub struct HookEvent {
    pub event: HookEventEvent,
    pub tool: Option<String>,
    pub input: Option<JsonMap>,
    pub output: Option<JsonMap>,
    pub session_id: String,
    pub agent_id: Option<String>,
    pub caller: CallerKind,
}

/// Let the action go ahead.
#[derive(Debug)]
pub struct ApproveResponse {
    pub action: String,
}

/// Stop the action, with a reason.
#[derive(Debug)]
pub struct BlockResponse {
    pub action: String,
    pub message: String,
}

/// Let the action go ahead with new tool input.
#[derive(Debug)]
pub struct ModifyResponse {
    pub action: String,
    pub input: JsonMap,
}

/// The hook's decision.
#[derive(Debug)]
pub enum HookResponse {
    ApproveResponse(ApproveResponse),
    BlockResponse(BlockResponse),
    ModifyResponse(ModifyResponse),
}

/// The mathematical value of a [`HookResponse`]: the decision and what it
/// carries.
pub enum ResponseModel {
    Approve,
    Block(Seq<char>),
    Modify(Seq<(Seq<char>, JsonModel)>),
}

impl View for HookResponse {
    type V = ResponseModel;

    open spec fn view(&self) -> ResponseModel {
        match self {
            HookResponse::ApproveResponse(_) => ResponseModel::Approve,
            HookResponse::BlockResponse(b) => ResponseModel::Block(b.message@),
            HookResponse::ModifyResponse(m) => ResponseModel::Modify(entries_view(&m.input)),
        }
    }
}

/// Each variant's `action` field names the variant, as the constructors
/// below make it.
pub open spec fn response_well_formed(r: HookResponse) -> bool {
    match r {
        HookResponse::ApproveResponse(a) => a.action@ == "approve"@,
        HookResponse::BlockResponse(b) => b.action@ == "block"@,
        HookResponse::ModifyResponse(m) => m.action@ == "modify"@,
    }
}

/// The entries of `input` when it is an object, and no entries otherwise.
pub open spec fn object_or_empty(input: JsonModel) -> Seq<(Seq<char>, JsonModel)> {
    match input {
        JsonModel::Object(entries) => entries,
        _ => Seq::empty(),
    }
}

impl HookResponse {
    /// `{"action": "approve"}`.
    pub fn approve() -> (r: HookResponse)
        ensures
            r@ == ResponseModel::Approve,
            response_well_formed(r),
    {
        HookResponse::ApproveResponse(ApproveResponse { action: String::from_str("approve") })
    }

    /// `{"action": "block", "message": msg}`.
    pub fn block(msg: &str) -> (r: HookResponse)
        ensures
            r@ == ResponseModel::Block(msg@),
            response_well_formed(r),
    {
        HookResponse::BlockResponse(
            BlockResponse { action: String::from_str("block"), message: String::from_str(msg) },
        )
    }

    /// `{"action": "modify", "input": input}`.  `input` must be a JSON
    /// object; any other value is treated as the empty object.
    pub fn modify(input: Json) -> (r: HookResponse)
        ensures
            r@ == ResponseModel::Modify(object_or_empty(input@)),
            response_well_formed(r),
    {
        let entries = match input {
            Json::Object(entries) => entries,
            _ => {
                let none: JsonMap = Vec::new();
                assert(entries_view(&none) =~= Seq::empty());
                none
            },
        };
        HookResponse::ModifyResponse(ModifyResponse { action: String::from_str("modify"), input: entries })
    }
}

} // verus!
