//! The JSON documents that hooks exchange, as a value of the library's own.
//!
//! A document is decoded from bytes by `serde_json`; the library then reads
//! it through the lookups below, each specified over [`JsonModel`].
use vstd::prelude::*;

use crate::text::str_eq;

verus! {

broadcast use vstd::std_specs::vec::group_vec_axioms;

/// The mathematical value of a JSON document.  Numbers are kept as the text
/// that `serde_json` prints for them; objects as their entries in order.
pub enum JsonModel {
    Null,
    Bool(bool),
    Number(Seq<char>),
    Str(Seq<char>),
    Array(Seq<JsonModel>),
    Object(Seq<(Seq<char>, JsonModel)>),
}

/// A JSON value.  An object is the list of its entries, in order.  An
/// object that [`crate::decode`] produces has distinct keys; one built by hand
/// may repeat a key, and then every lookup here sees the first entry with it.
#[derive(Debug, PartialEq)]
pub enum Json {
    Null,
    Bool(bool),
    Number(String),
    Str(String),
    Array(Vec<Json>),
    Object(Vec<(String, Json)>),
}

/// The entries of a JSON object.
pub type JsonMap = Vec<(String, Json)>;

pub open spec fn items_view(items: &Vec<Json>) -> Seq<JsonModel>
    decreases items, 0nat,
{
    Seq::new(
        items.len() as nat,
        |i: int|
            if 0 <= i < items.len() {
                items[i].view()
            } else {
                JsonModel::Null
            },
    )
}

pub open spec fn entries_view(entries: &Vec<(String, Json)>) -> Seq<(Seq<char>, JsonModel)>
    decreases entries, 0nat,
{
    Seq::new(
        entries.len() as nat,
        |i: int|
            if 0 <= i < entries.len() {
                (entries[i].0@, entries[i].1.view())
            } else {
                (Seq::empty(), JsonModel::Null)
            },
    )
}

impl View for Json {
    type V = JsonModel;

    open spec fn view(&self) -> JsonModel
        decreases self, 1nat,
    {
        match self {
            Json::Null => JsonModel::Null,
            Json::Bool(b) => JsonModel::Bool(*b),
            Json::Number(n) => JsonModel::Number(n@),
            Json::Str(s) => JsonModel::Str(s@),
            Json::Array(items) => JsonModel::Array(items_view(items)),
            Json::Object(entries) => JsonModel::Object(entries_view(entries)),
        }
    }
}

/// The value of the first entry with the given key.
pub open spec fn lookup(entries: Seq<(Seq<char>, JsonModel)>, key: Seq<char>) -> Option<JsonModel>
    decreases entries.len(),
{
    if entries.len() == 0 {
        None
    } else if entries[0].0 == key {
        Some(entries[0].1)
    } else {
        lookup(entries.drop_first(), key)
    }
}

/// `value[key]` on a JSON value: the entry's value when `value` is an object
/// holding `key`, and nothing otherwise.
pub open spec fn model_get(value: JsonModel, key: Seq<char>) -> Option<JsonModel> {
    match value {
        JsonModel::Object(entries) => lookup(entries, key),
        _ => None,
    }
}

/// The characters of a JSON string, and nothing for any other value.
pub open spec fn model_str(value: JsonModel) -> Option<Seq<char>> {
    match value {
        JsonModel::Str(s) => Some(s),
        _ => None,
    }
}

/// The entries of a JSON object, and nothing for any other value.
pub open spec fn model_object(value: JsonModel) -> Option<Seq<(Seq<char>, JsonModel)>> {
    match value {
        JsonModel::Object(entries) => Some(entries),
        _ => None,
    }
}

/// `value[key]` read as a string.
pub open spec fn model_str_field(value: JsonModel, key: Seq<char>) -> Option<Seq<char>> {
    match model_get(value, key) {
        Some(v) => model_str(v),
        None => None,
    }
}

/// A deep copy of a JSON value.
pub fn clone_json(j: &Json) -> (r: Json)
    ensures
        r@ == j@,
    decreases j,
{
    match j {
        Json::Null => Json::Null,
        Json::Bool(b) => Json::Bool(*b),
        Json::Number(n) => Json::Number(n.clone()),
        Json::Str(s) => Json::Str(s.clone()),
        Json::Array(items) => {
            let mut out: Vec<Json> = Vec::new();
            let mut i: usize = 0;
            while i < items.len()
                invariant
                    *j == Json::Array(*items),
                    i <= items.len(),
                    out.len() == i,
                    forall|k: int| 0 <= k < i ==> (#[trigger] out[k])@ == items[k]@,
                decreases items.len() - i,
            {
                proof {
                    assert(decreases_to!(*j => (*j)->Array_0));
                    assert(decreases_to!(*items => items[i as int]));
                }
                let c = clone_json(&items[i]);
                out.push(c);
                i = i + 1;
            }
            assert(items_view(&out) =~= items_view(items));
            Json::Array(out)
        },
        Json::Object(entries) => {
            let out = clone_entries(entries);
            Json::Object(out)
        },
    }
}

/// A deep copy of the entries of a JSON object.
pub fn clone_entries(entries: &Vec<(String, Json)>) -> (r: Vec<(String, Json)>)
    ensures
        entries_view(&r) == entries_view(entries),
    decreases entries,
{
    let mut out: Vec<(String, Json)> = Vec::new();
    let mut i: usize = 0;
    while i < entries.len()
        invariant
            i <= entries.len(),
            out.len() == i,
            forall|k: int|
                0 <= k < i ==> (#[trigger] out[k]).0@ == entries[k].0@ && out[k].1@ == entries[k].1@,
        decreases entries.len() - i,
    {
        proof {
            assert(decreases_to!(*entries => entries[i as int]));
            assert(decreases_to!(entries[i as int] => entries[i as int].1));
        }
        let c = clone_json(&entries[i].1);
        out.push((entries[i].0.clone(), c));
        i = i + 1;
    }
    assert(entries_view(&out) =~= entries_view(entries));
    out
}

/// The value of the first entry of `entries` with the given key.
pub fn entries_get<'a>(entries: &'a Vec<(String, Json)>, key: &str) -> (r: Option<&'a Json>)
    ensures
        match r {
            Some(v) => lookup(entries_view(entries), key@) == Some(v@),
            None => lookup(entries_view(entries), key@) is None,
        },
{
    let ghost all = entries_view(entries);
    assert(all.subrange(0, all.len() as int) =~= all);
    let mut i: usize = 0;
    while i < entries.len()
        invariant
            i <= entries.len(),
            all == entries_view(entries),
            lookup(all, key@) == lookup(all.subrange(i as int, all.len() as int), key@),
        decreases entries.len() - i,
    {
        let ghost rest = all.subrange(i as int, all.len() as int);
        assert(rest.drop_first() =~= all.subrange(i + 1, all.len() as int));
        if str_eq(entries[i].0.as_str(), key) {
            return Some(&entries[i].1);
        }
        i = i + 1;
    }
    None
}

impl Json {
    /// `self[key]`: the value under `key` when `self` is an object holding it.
    pub fn get(&self, key: &str) -> (r: Option<&Json>)
        ensures
            match r {
                Some(v) => model_get(self@, key@) == Some(v@),
                None => model_get(self@, key@) is None,
            },
    {
        match self {
            Json::Object(entries) => entries_get(entries, key),
            _ => None,
        }
    }

    /// The characters of a JSON string.
    pub fn as_str(&self) -> (r: Option<&String>)
        ensures
            match r {
                Some(s) => model_str(self@) == Some(s@),
                None => model_str(self@) is None,
            },
    {
        match self {
            Json::Str(s) => Some(s),
            _ => None,
        }
    }

    /// Whether `self` is an object with an entry under `key`.
    pub fn contains_key(&self, key: &str) -> (r: bool)
        ensures
            r == model_get(self@, key@) is Some,
    {
        self.get(key).is_some()
    }

    /// `self[key]` read as a string.
    pub fn str_field(&self, key: &str) -> (r: Option<&String>)
        ensures
            match r {
                Some(s) => model_str_field(self@, key@) == Some(s@),
                None => model_str_field(self@, key@) is None,
            },
    {
        match self.get(key) {
            Some(v) => v.as_str(),
            None => None,
        }
    }
}

} // verus!
