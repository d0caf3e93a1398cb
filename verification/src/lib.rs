//! Normalization of AI coding-agent hook payloads: caller detection, event and
//! tool name mapping, event extraction and per-caller response encoding.

pub mod text;
pub mod json;
pub mod decode;
pub mod types;
pub mod tools;
pub mod events;
pub mod detect;
pub mod parse;
pub mod response;
pub mod io;
pub mod frame;
pub mod encode;
pub mod field_laws;
pub mod reply_laws;
pub mod detect_laws;
pub mod form_laws;

pub use detect::CallerEnv;
pub use io::event_from_read;
pub use json::{Json, JsonMap};
pub use types::{
    ApproveResponse, BlockResponse, CallerKind, HookEvent, HookEventEvent, HookResponse,
    ModifyResponse,
};
