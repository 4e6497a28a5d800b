//! JSON documents as the inventory queries and the forwarding agent's launch
//! parameters carry them.
//!
//! Reading JSON text is serde_json's work. What it returns is held in a tree
//! of the library's own, `Json`, on which every lookup is verified.

use vstd::prelude::*;
use crate::error::AppError;
use crate::text::str_eq;

verus! {

/// A JSON value. A number holds what it is as an unsigned and as a signed
/// 64-bit integer, where it is one.
#[derive(Debug)]
pub enum Json {
    Null,
    Bool(bool),
    Number { unsigned: Option<u64>, signed: Option<i64> },
    Text(String),
    Array(Vec<Json>),
    Object(Vec<(String, Json)>),
}

/// `serde_json::Error`: carried from the reader to where its message is
/// taken; nothing is known of what it holds.
#[verifier::external_type_specification]
#[verifier::external_body]
pub struct ExJsonError(serde_json::Error);

/// `serde_json::Value`: what the reader returns, before it is copied into a
/// `Json`; nothing is known of what it holds.
#[verifier::external_type_specification]
#[verifier::external_body]
pub struct ExJsonValue(serde_json::Value);

/// The document that a JSON text denotes, if it is well-formed JSON.
pub uninterp spec fn parsed_json(text: Seq<char>) -> Option<Json>;

/// Copies what `serde_json::Value` holds into a `Json`, variant by variant.
/// A number is asked for its `as_u64` and `as_i64`; an object's members come
/// in the order in which its map hands them out.
#[verifier::external_body]
fn json_of(value: &serde_json::Value) -> Json {
    match value {
        serde_json::Value::Null => Json::Null,
        serde_json::Value::Bool(b) => Json::Bool(*b),
        serde_json::Value::Number(n) => Json::Number { unsigned: n.as_u64(), signed: n.as_i64() },
        serde_json::Value::String(s) => Json::Text(s.clone()),
        serde_json::Value::Array(a) => Json::Array(a.iter().map(json_of).collect()),
        serde_json::Value::Object(o) => Json::Object(
            o.iter().map(|(k, v)| (k.clone(), json_of(v))).collect(),
        ),
    }
}

/// `serde_json::from_str` into a `serde_json::Value`: the result depends on
/// the text alone. A well-formed text gives the document named
/// `parsed_json`; any other text gives serde_json's error.
#[verifier::external_body]
fn read_json(text: &str) -> (r: Result<Json, serde_json::Error>)
    ensures
        match r {
            Ok(doc) => parsed_json(text@) == Some(doc),
            Err(_) => parsed_json(text@) is None,
        },
{
    match serde_json::from_str::<serde_json::Value>(text) {
        Ok(value) => Ok(json_of(&value)),
        Err(e) => Err(e),
    }
}

/// The message of a serde_json error, as its `Display` writes it.
#[verifier::external_body]
fn json_error_text(e: &serde_json::Error) -> String {
    e.to_string()
}

// ── Lookups ──────────────────────────────────────────────────────────────

/// The value of the first member named `key` among `members[from..]`.
pub open spec fn lookup(members: Seq<(String, Json)>, key: Seq<char>, from: int) -> Option<Json>
    decreases members.len() - from,
{
    if from < 0 || from >= members.len() {
        None
    } else if members[from].0@ == key {
        Some(members[from].1)
    } else {
        lookup(members, key, from + 1)
    }
}

/// The member `key` of an object; nothing for any other value.
pub open spec fn member(doc: Json, key: Seq<char>) -> Option<Json> {
    match doc {
        Json::Object(members) => lookup(members@, key, 0),
        _ => None,
    }
}

/// The text of a JSON string; nothing for any other value.
pub open spec fn text_of(doc: Option<Json>) -> Option<Seq<char>> {
    match doc {
        Some(Json::Text(s)) => Some(s@),
        _ => None,
    }
}

/// The items of a JSON array; none for any other value.
pub open spec fn items_of(doc: Option<Json>) -> Seq<Json> {
    match doc {
        Some(Json::Array(items)) => items@,
        _ => Seq::empty(),
    }
}

/// A JSON number as an unsigned integer, where it is one.
pub open spec fn unsigned_of(doc: Option<Json>) -> Option<u64> {
    match doc {
        Some(Json::Number { unsigned, signed }) => unsigned,
        _ => None,
    }
}

/// A JSON number as a signed integer, where it is one.
pub open spec fn signed_of(doc: Option<Json>) -> Option<i64> {
    match doc {
        Some(Json::Number { unsigned, signed }) => signed,
        _ => None,
    }
}

/// The text of the string member `key`.
pub open spec fn text_at(doc: Json, key: Seq<char>) -> Option<Seq<char>> {
    text_of(member(doc, key))
}

/// The items of the array member `key`; none if there is no such array.
pub open spec fn items_at(doc: Json, key: Seq<char>) -> Seq<Json> {
    items_of(member(doc, key))
}

/// The member `key` of a document that may be missing.
pub open spec fn member_in(doc: Option<Json>, key: Seq<char>) -> Option<Json> {
    match doc {
        Some(d) => member(d, key),
        None => None,
    }
}

/// A text, or the empty text where there is none.
pub open spec fn text_or_empty(t: Option<Seq<char>>) -> Seq<char> {
    match t {
        Some(s) => s,
        None => Seq::empty(),
    }
}

/// The low 16 bits of an integer, as a cast to `u16` keeps them.
pub open spec fn low16(n: int) -> u16 {
    (n % 65536) as u16
}

impl Json {
    /// Reads a JSON text. A text that is not well-formed JSON gives
    /// `AppError::Json` with the reader's message.
    pub fn parse(text: &str) -> (r: Result<Json, AppError>)
        ensures
            match r {
                Ok(doc) => parsed_json(text@) == Some(doc),
                Err(e) => parsed_json(text@) is None && e is Json,
            },
    {
        match read_json(text) {
            Ok(doc) => Ok(doc),
            Err(e) => Err(AppError::Json(json_error_text(&e))),
        }
    }

    /// The items of the array member `key`, if the document has such an array.
    pub fn array_member(&self, key: &str) -> (r: Option<&Vec<Json>>)
        ensures
            match r {
                Some(items) => items_at(*self, key@) == items@,
                None => items_at(*self, key@) == Seq::<Json>::empty(),
            },
    {
        match self.get(key) {
            Some(v) => match v {
                Json::Array(items) => Some(items),
                _ => None,
            },
            None => None,
        }
    }

    pub fn get(&self, key: &str) -> (r: Option<&Json>)
        ensures
            match r {
                Some(v) => member(*self, key@) == Some(*v),
                None => member(*self, key@) is None,
            },
    {
        match self {
            Json::Object(members) => {
                let mut i: usize = 0;
                while i < members.len()
                    invariant
                        i <= members.len(),
                        member(*self, key@) == lookup(members@, key@, 0),
                        lookup(members@, key@, 0) == lookup(members@, key@, i as int),
                    decreases members.len() - i,
                {
                    if str_eq(members[i].0.as_str(), key) {
                        return Some(&members[i].1);
                    }
                    i += 1;
                }
                None
            },
            _ => None,
        }
    }

    pub fn as_str(&self) -> (r: Option<&str>)
        ensures
            match r {
                Some(s) => text_of(Some(*self)) == Some(s@),
                None => text_of(Some(*self)) is None,
            },
    {
        match self {
            Json::Text(s) => Some(s.as_str()),
            _ => None,
        }
    }

    pub fn as_array(&self) -> (r: Option<&Vec<Json>>)
        ensures
            match r {
                Some(items) => *self == Json::Array(*items),
                None => !(*self is Array),
            },
    {
        match self {
            Json::Array(items) => Some(items),
            _ => None,
        }
    }

    pub fn as_u64(&self) -> (r: Option<u64>)
        ensures
            r == unsigned_of(Some(*self)),
    {
        match self {
            Json::Number { unsigned, signed } => *unsigned,
            _ => None,
        }
    }

    pub fn as_i64(&self) -> (r: Option<i64>)
        ensures
            r == signed_of(Some(*self)),
    {
        match self {
            Json::Number { unsigned, signed } => *signed,
            _ => None,
        }
    }

    /// The text of the string member `key`.
    pub fn text_member(&self, key: &str) -> (r: Option<&str>)
        ensures
            match r {
                Some(s) => text_at(*self, key@) == Some(s@),
                None => text_at(*self, key@) is None,
            },
    {
        match self.get(key) {
            Some(v) => v.as_str(),
            None => None,
        }
    }
}

/// The low 16 bits of an unsigned integer.
pub fn low16_of_u64(n: u64) -> (r: u16)
    ensures
        r == low16(n as int),
{
    (n % 65536) as u16
}

/// The low 16 bits of a signed integer in two's complement.
pub fn low16_of_i64(n: i64) -> (r: u16)
    ensures
        r == low16(n as int),
{
    if n >= 0 {
        ((n as u64) % 65536) as u16
    } else {
        let k: u64 = (-(n + 1)) as u64;
        let m: u64 = k % 65536;
        assert((n as int) % 65536 == 65535 - (k as int) % 65536) by {
            let q = (k as int) / 65536;
            assert(k as int == q * 65536 + (k as int) % 65536) by (nonlinear_arith)
                requires
                    q == (k as int) / 65536,
            ;
            assert(n as int == (-q - 1) * 65536 + (65535 - (k as int) % 65536)) by (nonlinear_arith)
                requires
                    n as int == -(k as int) - 1,
                    k as int == q * 65536 + (k as int) % 65536,
            ;
            vstd::arithmetic::div_mod::lemma_fundamental_div_mod_converse(
                n as int,
                65536,
                -q - 1,
                65535 - (k as int) % 65536,
            );
        }
        (65535 - m) as u16
    }
}

} // verus!
