//! The JSON texts this service reads and writes, through `serde_json`.

use vstd::prelude::*;
use crate::error::ServiceError;
use crate::text::{join, str_eq};

verus! {

/// The error `serde_json` reports when a text is not the JSON that was asked for.
#[verifier::external_type_specification]
#[verifier::external_body]
pub struct ExJsonError(serde_json::Error);

// ---------------------------------------------------------------------------
// Lists of strings (the stored media id lists).
// ---------------------------------------------------------------------------

/// What `serde_json::from_str::<Vec<String>>` reads from a text: the list of strings when
/// the text is a JSON array of strings, nothing otherwise.
pub uninterp spec fn json_string_list_parse(text: Seq<char>) -> Option<Seq<Seq<char>>>;

/// A lowercase hexadecimal digit.
pub open spec fn hex_digit(d: int) -> char {
    if d < 10 {
        (48 + d) as char
    } else {
        (87 + d) as char
    }
}

/// How `serde_json` writes one character inside a JSON string: `"` and `\` and the
/// control characters below U+0020 are escaped (`\b`, `\t`, `\n`, `\f`, `\r`, or `\u00XX`
/// in lowercase hex); every other character is written as it is.
pub open spec fn json_escaped_char(c: char) -> Seq<char> {
    let v = c as u32;
    if c == '"' {
        seq!['\\', '"']
    } else if c == '\\' {
        seq!['\\', '\\']
    } else if v == 0x08 {
        seq!['\\', 'b']
    } else if v == 0x09 {
        seq!['\\', 't']
    } else if v == 0x0a {
        seq!['\\', 'n']
    } else if v == 0x0c {
        seq!['\\', 'f']
    } else if v == 0x0d {
        seq!['\\', 'r']
    } else if v < 0x20 {
        seq!['\\', 'u', '0', '0', hex_digit(v as int / 16), hex_digit(v as int % 16)]
    } else {
        seq![c]
    }
}

/// The escaped characters of a string.
pub open spec fn json_escaped(s: Seq<char>) -> Seq<char>
    decreases s.len(),
{
    if s.len() == 0 {
        Seq::empty()
    } else {
        json_escaped(s.drop_last()) + json_escaped_char(s.last())
    }
}

/// A JSON string literal.
pub open spec fn json_quoted(s: Seq<char>) -> Seq<char> {
    seq!['"'] + json_escaped(s) + seq!['"']
}

/// The compact JSON text that `serde_json::to_string` writes for a list of strings:
/// the quoted strings between brackets, separated by commas, without spaces.
pub open spec fn json_string_list_text(items: Seq<Seq<char>>) -> Seq<char> {
    seq!['['] + join(items.map_values(|s: Seq<char>| json_quoted(s)), seq![',']) + seq![']']
}

/// Calls `serde_json::from_str::<Vec<String>>`; `Ok` carries the parsed list, and the
/// outcome is the one named by `json_string_list_parse`. A text that `serde_json` wrote
/// for a list of strings reads back as that list.
#[verifier::external_body]
pub(crate) fn parse_string_list(text: &str) -> (r: Result<Vec<String>, serde_json::Error>)
    ensures
        match r {
            Ok(v) => json_string_list_parse(text@) == Some(v.deep_view()),
            Err(_) => json_string_list_parse(text@) is None,
        },
        r is Err ==> forall|v: Seq<Seq<char>>| #[trigger] json_string_list_text(v) != text@,
        r matches Ok(w) ==> forall|v: Seq<Seq<char>>| #[trigger] json_string_list_text(v) == text@
            ==> w.deep_view() == v,
{
    serde_json::from_str::<Vec<String>>(text)
}

/// Calls `serde_json::to_string` on a list of strings; the text is the compact JSON array
/// of the quoted strings. It succeeds: every error of that serializer comes from the
/// writer, and here the writer is a `Vec<u8>`, to which writing does not fail.
#[verifier::external_body]
pub(crate) fn string_list_to_json(items: &Vec<String>) -> (r: Result<String, serde_json::Error>)
    ensures
        r is Ok,
        r matches Ok(t) ==> t@ == json_string_list_text(items.deep_view()),
{
    serde_json::to_string(items)
}

/// A list of media ids stored as a JSON array; anything unreadable counts as no ids
/// (what `Job::inputs` does with `unwrap_or_default`).
pub open spec fn id_list_or_empty(text: Seq<char>) -> Seq<Seq<char>> {
    match json_string_list_parse(text) {
        Some(v) => v,
        None => Seq::empty(),
    }
}

/// Reads a JSON array of media ids, falling back to the empty list. What
/// `encode_media_ids` wrote for a list reads back as the same list.
pub fn media_ids_from_json(text: &str) -> (r: Vec<String>)
    ensures
        r.deep_view() == id_list_or_empty(text@),
        forall|v: Seq<Seq<char>>| #[trigger] json_string_list_text(v) == text@ ==> r.deep_view() == v,
{
    match parse_string_list(text) {
        Ok(v) => v,
        Err(_) => Vec::new(),
    }
}

/// Writes a list of media ids as JSON (with the empty text as the fallback that
/// `unwrap_or_default` gives, which a list of strings never needs).
pub fn media_ids_to_json(ids: &Vec<String>) -> (r: String)
    ensures
        r@ == json_string_list_text(ids.deep_view()),
{
    match string_list_to_json(ids) {
        Ok(t) => t,
        Err(_) => String::new(),
    }
}

/// Writes a list of media ids as JSON for storage. Writing a list of strings succeeds;
/// the error arm stands for the encoder's error type and is never taken.
pub fn encode_media_ids(ids: &Vec<String>) -> (r: Result<String, ServiceError>)
    ensures
        r matches Ok(t) && t@ == json_string_list_text(ids.deep_view()),
{
    match string_list_to_json(ids) {
        Ok(t) => Ok(t),
        Err(_) => Err(ServiceError::EncodingFailed),
    }
}

// ---------------------------------------------------------------------------
// JSON objects read member by member (job params, the LLM's prompt pair).
// ---------------------------------------------------------------------------

/// A member value of a JSON object, as far as this service reads it.
#[derive(Debug, Clone, PartialEq, Eq)]
pub enum JsonScalar {
    /// A JSON string.
    Text(String),
    /// A JSON integer.
    Int(i128),
    /// `true` or `false`.
    Bool(bool),
    /// Anything else: null, a fractional number, an array or an object.
    Other,
}

/// The mathematical value of a member value.
pub enum ScalarView {
    Text(Seq<char>),
    Int(int),
    Bool(bool),
    Other,
}

impl DeepView for JsonScalar {
    type V = ScalarView;

    open spec fn deep_view(&self) -> ScalarView {
        match self {
            JsonScalar::Text(s) => ScalarView::Text(s@),
            JsonScalar::Int(i) => ScalarView::Int(*i as int),
            JsonScalar::Bool(b) => ScalarView::Bool(*b),
            JsonScalar::Other => ScalarView::Other,
        }
    }
}

/// What `serde_json::from_str::<serde_json::Value>` reads from a text, seen through the
/// members of an object: nothing when the text is not JSON; `Some(None)` when it is JSON
/// but not an object; otherwise the object's members (each key once) with their values.
pub uninterp spec fn json_object_members(text: Seq<char>) -> Option<Option<Seq<(Seq<char>, ScalarView)>>>;

/// Calls `serde_json::from_str::<serde_json::Value>` and hands the parsed value over as
/// the list of an object's members, each value told apart by its kind (an integer by
/// `Number::as_i128`); the outcome is the one named by `json_object_members`.
#[verifier::external_body]
pub(crate) fn parse_json_object(text: &str) -> (r: Option<Option<Vec<(String, JsonScalar)>>>)
    ensures
        r.deep_view() == json_object_members(text@),
{
    match serde_json::from_str::<serde_json::Value>(text) {
        Ok(serde_json::Value::Object(m)) => Some(Some(m.into_iter().map(|(k, v)| match v {
            serde_json::Value::String(s) => (k, JsonScalar::Text(s)),
            serde_json::Value::Bool(b) => (k, JsonScalar::Bool(b)),
            serde_json::Value::Number(n) => (k, n.as_i128().map_or(JsonScalar::Other, JsonScalar::Int)),
            _ => (k, JsonScalar::Other),
        }).collect())),
        Ok(_) => Some(None),
        Err(_) => None,
    }
}

/// The value of the member `key` of an object's members, if there is one.
pub open spec fn member_value(members: Seq<(Seq<char>, ScalarView)>, key: Seq<char>) -> Option<ScalarView>
    decreases members.len(),
{
    if members.len() == 0 {
        None
    } else if members[0].0 == key {
        Some(members[0].1)
    } else {
        member_value(members.drop_first(), key)
    }
}

/// The value of member `key` of a parsed JSON value: nothing when the value is not an
/// object or has no such member (what indexing a `serde_json::Value` by `key` reads as
/// null).
pub open spec fn json_member(parsed: Option<Seq<(Seq<char>, ScalarView)>>, key: Seq<char>) -> Option<ScalarView> {
    match parsed {
        Some(members) => member_value(members, key),
        None => None,
    }
}

/// The member's value when it is a string (what `as_str` gives).
pub open spec fn as_text(v: Option<ScalarView>) -> Option<Seq<char>> {
    match v {
        Some(ScalarView::Text(s)) => Some(s),
        _ => None,
    }
}

/// The member's value when it is an integer in `u64` range (what `as_u64` gives).
pub open spec fn as_u64_value(v: Option<ScalarView>) -> Option<int> {
    match v {
        Some(ScalarView::Int(i)) => if 0 <= i <= u64::MAX {
            Some(i)
        } else {
            None
        },
        _ => None,
    }
}

/// The member's value when it is an integer in `i64` range (what `as_i64` gives).
pub open spec fn as_i64_value(v: Option<ScalarView>) -> Option<int> {
    match v {
        Some(ScalarView::Int(i)) => if i64::MIN <= i <= i64::MAX {
            Some(i)
        } else {
            None
        },
        _ => None,
    }
}

/// The member's value when it is a boolean (what `as_bool` gives).
pub open spec fn as_bool_value(v: Option<ScalarView>) -> Option<bool> {
    match v {
        Some(ScalarView::Bool(b)) => Some(b),
        _ => None,
    }
}

/// The members of the JSON object a text holds; nothing when it holds no object (a text
/// that is not JSON reads as null, which has no members).
pub open spec fn object_of(text: Seq<char>) -> Option<Seq<(Seq<char>, ScalarView)>> {
    match json_object_members(text) {
        Some(Some(m)) => Some(m),
        _ => None,
    }
}

proof fn lemma_member_value_skip(members: Seq<(Seq<char>, ScalarView)>, key: Seq<char>, i: int)
    requires
        0 <= i <= members.len(),
        forall|j: int| 0 <= j < i ==> (#[trigger] members[j]).0 != key,
    ensures
        member_value(members, key) == member_value(members.skip(i), key),
    decreases i,
{
    if i > 0 {
        let t = members.drop_first();
        assert forall|j: int| 0 <= j < i - 1 implies (#[trigger] t[j]).0 != key by {
            assert(t[j] == members[j + 1]);
        }
        lemma_member_value_skip(t, key, i - 1);
        assert(t.skip(i - 1) =~= members.skip(i));
    } else {
        assert(members.skip(0) =~= members);
    }
}

fn copy_scalar(v: &JsonScalar) -> (r: JsonScalar)
    ensures
        r.deep_view() == v.deep_view(),
{
    match v {
        JsonScalar::Text(s) => JsonScalar::Text(s.clone()),
        JsonScalar::Int(i) => JsonScalar::Int(*i),
        JsonScalar::Bool(b) => JsonScalar::Bool(*b),
        JsonScalar::Other => JsonScalar::Other,
    }
}

/// Reads the value of member `key` of a parsed JSON value.
pub fn member_of(parsed: &Option<Vec<(String, JsonScalar)>>, key: &str) -> (r: Option<JsonScalar>)
    ensures
        r.deep_view() == json_member(parsed.deep_view(), key@),
{
    match parsed {
        None => None,
        Some(members) => {
            let ghost v = members.deep_view();
            let n = members.len();
            let mut i: usize = 0;
            while i < n
                invariant
                    n == members@.len(),
                    v == members.deep_view(),
                    parsed.deep_view() == Some(v),
                    v.len() == n,
                    i <= n,
                    forall|j: int| 0 <= j < i ==> (#[trigger] v[j]).0 != key@,
                decreases n - i,
            {
                assert(v[i as int] == members@[i as int].deep_view());
                if str_eq(members[i].0.as_str(), key) {
                    proof {
                        lemma_member_value_skip(v, key@, i as int);
                        assert(v.skip(i as int)[0] == v[i as int]);
                    }
                    return Some(copy_scalar(&members[i].1));
                }
                i = i + 1;
            }
            proof {
                lemma_member_value_skip(v, key@, n as int);
            }
            None
        },
    }
}

/// Reads member `key` of a parsed JSON value as a string.
pub fn member_text(parsed: &Option<Vec<(String, JsonScalar)>>, key: &str) -> (r: Option<String>)
    ensures
        r.deep_view() == as_text(json_member(parsed.deep_view(), key@)),
{
    match member_of(parsed, key) {
        Some(JsonScalar::Text(s)) => Some(s),
        _ => None,
    }
}

/// Reads member `key` of a parsed JSON value as an unsigned 64-bit integer.
pub fn member_u64(parsed: &Option<Vec<(String, JsonScalar)>>, key: &str) -> (r: Option<u64>)
    ensures
        match r {
            Some(x) => as_u64_value(json_member(parsed.deep_view(), key@)) == Some(x as int),
            None => as_u64_value(json_member(parsed.deep_view(), key@)) is None,
        },
{
    match member_of(parsed, key) {
        Some(JsonScalar::Int(i)) => if 0 <= i && i <= u64::MAX as i128 {
            Some(i as u64)
        } else {
            None
        },
        _ => None,
    }
}

/// Reads member `key` of a parsed JSON value as a signed 64-bit integer.
pub fn member_i64(parsed: &Option<Vec<(String, JsonScalar)>>, key: &str) -> (r: Option<i64>)
    ensures
        match r {
            Some(x) => as_i64_value(json_member(parsed.deep_view(), key@)) == Some(x as int),
            None => as_i64_value(json_member(parsed.deep_view(), key@)) is None,
        },
{
    match member_of(parsed, key) {
        Some(JsonScalar::Int(i)) => if i64::MIN as i128 <= i && i <= i64::MAX as i128 {
            Some(i as i64)
        } else {
            None
        },
        _ => None,
    }
}

/// Reads member `key` of a parsed JSON value as a boolean.
pub fn member_bool(parsed: &Option<Vec<(String, JsonScalar)>>, key: &str) -> (r: Option<bool>)
    ensures
        r == as_bool_value(json_member(parsed.deep_view(), key@)),
{
    match member_of(parsed, key) {
        Some(JsonScalar::Bool(b)) => Some(b),
        _ => None,
    }
}

/// The object a JSON text holds, as its members; nothing when it holds no object.
pub fn parse_object(text: &str) -> (r: Option<Vec<(String, JsonScalar)>>)
    ensures
        r.deep_view() == object_of(text@),
{
    match parse_json_object(text) {
        Some(Some(m)) => Some(m),
        _ => None,
    }
}

} // verus!
