//! The event for what a read of the hook's input gave.  The read itself is
//! I/O and is made by the caller of [`event_from_read`].
use vstd::prelude::*;

use crate::decode::json_decode;
use crate::detect::CallerEnv;
use crate::parse::{parse_event, spec_event_from};
use crate::types::HookEvent;

verus! {

/// What reading an event gives for the bytes that the reader yielded.
pub open spec fn spec_read_outcome(raw: Seq<u8>, env: CallerEnv, r: Result<HookEvent, String>) -> bool {
    match json_decode(raw) {
        Ok(doc) => r matches Ok(e) && e@ == spec_event_from(doc, env),
        Err(msg) => r matches Err(m) && m@ == "JSON parse error: "@ + msg,
    }
}

/// The event for what a read gave: the bytes parsed as by [`parse_event`],
/// or, for a failed read, `"read error: "` followed by the reader's error.
pub fn event_from_read(read: Result<Vec<u8>, String>, env: &CallerEnv) -> (res: Result<HookEvent, String>)
    ensures
        match read {
            Ok(raw) => spec_read_outcome(raw@, *env, res),
            Err(e) => res matches Err(m) && m@ == "read error: "@ + e@,
        },
{
    match read {
        Ok(buf) => parse_event(buf.as_slice(), env),
        Err(e) => {
            let mut m = String::from_str("read error: ");
            m.append(e.as_str());
            Err(m)
        },
    }
}

} // verus!
