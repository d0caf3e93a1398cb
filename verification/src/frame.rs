//! The byte-level protocol of the WASM exports: length-prefixed payloads,
//! error payloads, and the response that a host hands in as JSON.
use vstd::prelude::*;

use crate::decode::{decode_json, json_decode};
use crate::json::{clone_entries, lookup, model_get, model_str_field, Json, JsonModel};
use crate::response::{object1, object2, serialize_response, spec_reply};
use crate::text::str_eq;
use crate::types::{CallerKind, HookResponse, ResponseModel, response_well_formed};

verus! {

/// The four little-endian bytes of `n` modulo 2^32 (what
/// `(n as i32).to_le_bytes()` gives).
pub open spec fn le32(n: nat) -> Seq<u8> {
    seq![
        (n % 256) as u8,
        ((n / 256) % 256) as u8,
        ((n / 65536) % 256) as u8,
        ((n / 16777216) % 256) as u8,
    ]
}

/// The number that four little-endian bytes stand for.
pub open spec fn le32_value(b: Seq<u8>) -> nat {
    (b[0] + 256 * b[1] + 65536 * b[2] + 16777216 * b[3]) as nat
}

/// `payload` preceded by its length as four little-endian bytes.
pub fn length_prefix(payload: Vec<u8>) -> (r: Vec<u8>)
    ensures
        r@ == le32(payload@.len()) + payload@,
{
    let n: usize = payload.len();
    let mut out: Vec<u8> = Vec::new();
    out.push((n % 256) as u8);
    out.push(((n / 256) % 256) as u8);
    out.push(((n / 65536) % 256) as u8);
    out.push(((n / 16777216) % 256) as u8);
    let mut i: usize = 0;
    while i < payload.len()
        invariant
            i <= payload.len(),
            n == payload.len(),
            out@ == le32(n as nat) + payload@.subrange(0, i as int),
        decreases payload.len() - i,
    {
        out.push(payload[i]);
        i = i + 1;
        assert(out@ =~= le32(n as nat) + payload@.subrange(0, i as int));
    }
    assert(payload@.subrange(0, n as int) =~= payload@);
    out
}

/// A payload shorter than 2^32 bytes can be read back from its header.
pub proof fn lemma_length_header_roundtrip(n: nat)
    requires
        n < 4294967296,
    ensures
        le32_value(le32(n)) == n,
{
    let b0: nat = n % 256;
    let b1: nat = (n / 256) % 256;
    let b2: nat = (n / 65536) % 256;
    let b3: nat = (n / 16777216) % 256;
    assert(n == b0 + 256 * b1 + 65536 * b2 + 16777216 * b3) by (nonlinear_arith)
        requires
            n < 4294967296,
            b0 == n % 256,
            b1 == (n / 256) % 256,
            b2 == (n / 65536) % 256,
            b3 == (n / 16777216) % 256,
    ;
}

/// The JSON text `{"error":"<msg>"}` that stands for a failure, with `msg`
/// inserted as it is.
pub fn error_payload(msg: &str) -> (r: String)
    ensures
        r@ == "{\"error\":\""@ + msg@ + "\"}"@,
{
    let mut r = String::from_str("{\"error\":\"");
    r.append(msg);
    r.append("\"}");
    r
}

/// The response that a host's JSON request stands for: `"action": "block"`
/// blocks with the `message` string (empty when absent), `"action":
/// "modify"` modifies with the `input` object (empty when absent or not an
/// object), and anything else approves.
pub open spec fn spec_response_of_request(req: JsonModel) -> ResponseModel {
    if model_str_field(req, "action"@) == Some("block"@) {
        ResponseModel::Block(
            match model_str_field(req, "message"@) {
                Some(m) => m,
                None => Seq::empty(),
            },
        )
    } else if model_str_field(req, "action"@) == Some("modify"@) {
        ResponseModel::Modify(
            match model_get(req, "input"@) {
                Some(JsonModel::Object(entries)) => entries,
                _ => Seq::empty(),
            },
        )
    } else {
        ResponseModel::Approve
    }
}

/// The JSON form of a response, as a host writes it.
pub open spec fn request_of(resp: ResponseModel) -> JsonModel {
    match resp {
        ResponseModel::Approve => object1("action"@, JsonModel::Str("approve"@)),
        ResponseModel::Block(m) => object2(
            "action"@,
            JsonModel::Str("block"@),
            "message"@,
            JsonModel::Str(m),
        ),
        ResponseModel::Modify(entries) => object2(
            "action"@,
            JsonModel::Str("modify"@),
            "input"@,
            JsonModel::Object(entries),
        ),
    }
}

/// The response that a host's JSON request stands for.
pub fn response_from_request(req: &Json) -> (r: HookResponse)
    ensures
        r@ == spec_response_of_request(req@),
        response_well_formed(r),
{
    let action = req.str_field("action");
    let is_block = match action {
        Some(a) => str_eq(a.as_str(), "block"),
        None => false,
    };
    let is_modify = match action {
        Some(a) => str_eq(a.as_str(), "modify"),
        None => false,
    };
    if is_block {
        match req.str_field("message") {
            Some(m) => HookResponse::block(m.as_str()),
            None => {
                proof {
                    reveal_strlit("");
                    assert(""@ =~= Seq::<char>::empty());
                }
                HookResponse::block("")
            },
        }
    } else if is_modify {
        match req.get("input") {
            Some(Json::Object(entries)) => HookResponse::modify(Json::Object(clone_entries(entries))),
            _ => HookResponse::modify(Json::Null),
        }
    } else {
        HookResponse::approve()
    }
}

/// The reply to a host's response request: the request decoded and
/// re-encoded for `caller`, or `"response parse failed: "` followed by the
/// decoder's error.
pub fn serialize_request(raw: &[u8], caller: &CallerKind) -> (r: Result<Json, String>)
    ensures
        match json_decode(raw@) {
            Ok(req) => r matches Ok(j) && j@ == spec_reply(spec_response_of_request(req), *caller, None),
            Err(msg) => r matches Err(m) && m@ == "response parse failed: "@ + msg,
        },
{
    match decode_json(raw) {
        Ok(req) => {
            let resp = response_from_request(&req);
            let j = serialize_response(&resp, caller);
            Ok(j)
        },
        Err(msg) => {
            let mut m = String::from_str("response parse failed: ");
            m.append(msg.as_str());
            Err(m)
        },
    }
}

/// A well-formed response survives the trip through its JSON form.
pub proof fn lemma_request_roundtrip(resp: ResponseModel)
    ensures
        spec_response_of_request(request_of(resp)) == resp,
{
    reveal_strlit("action");
    reveal_strlit("message");
    reveal_strlit("input");
    reveal_strlit("approve");
    reveal_strlit("block");
    reveal_strlit("modify");
    assert("action"@.len() == 6 && "message"@.len() == 7 && "input"@.len() == 5);
    assert("approve"@.len() == 7 && "block"@.len() == 5 && "modify"@.len() == 6);
    match resp {
        ResponseModel::Approve => {
            let e = seq![("action"@, JsonModel::Str("approve"@))];
            assert(lookup(e, "action"@) == Some(JsonModel::Str("approve"@)));
        },
        ResponseModel::Block(m) => {
            let e = seq![("action"@, JsonModel::Str("block"@)), ("message"@, JsonModel::Str(m))];
            assert(e.drop_first() =~= seq![("message"@, JsonModel::Str(m))]);
            assert(lookup(e, "action"@) == Some(JsonModel::Str("block"@)));
            assert(lookup(e.drop_first(), "message"@) == Some(JsonModel::Str(m)));
            assert(lookup(e, "message"@) == Some(JsonModel::Str(m)));
        },
        ResponseModel::Modify(entries) => {
            let e = seq![("action"@, JsonModel::Str("modify"@)), ("input"@, JsonModel::Object(entries))];
            assert(e.drop_first() =~= seq![("input"@, JsonModel::Object(entries))]);
            assert(lookup(e, "action"@) == Some(JsonModel::Str("modify"@)));
            assert(lookup(e.drop_first(), "input"@) == Some(JsonModel::Object(entries)));
            assert(lookup(e, "input"@) == Some(JsonModel::Object(entries)));
        },
    }
}

} // verus!
