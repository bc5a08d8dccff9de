//! JSON documents as the realtime protocol reads them.
//!
//! Text is parsed by `serde_json`; the parsed value is held in [`Json`], a
//! plain model of what the protocol code reads: objects by key, strings,
//! non-negative integers, booleans and arrays.
use vstd::prelude::*;

verus! {

#[verifier::external_type_specification]
#[verifier::external_body]
pub struct ExSerdeJsonValue(serde_json::Value);

/// A JSON value.
pub enum Json {
    Null,
    Bool(bool),
    /// A number: the non-negative integer it denotes, when it denotes one that
    /// fits in 64 bits; `None` for negative, fractional or larger numbers.
    Number(Option<u64>),
    Str(String),
    Array(Vec<Json>),
    /// The members of an object, in the order serde_json hands them out.
    Object(Vec<(String, Json)>),
}

/// The value of the first member named `key`.
pub open spec fn member_lookup(members: Seq<(String, Json)>, key: Seq<char>) -> Option<Json>
    decreases members.len(),
{
    if members.len() == 0 {
        None
    } else if members[0].0@ == key {
        Some(members[0].1)
    } else {
        member_lookup(members.drop_first(), key)
    }
}

/// `v[key]` when `v` is an object that has such a member.
pub open spec fn json_get(v: Json, key: Seq<char>) -> Option<Json> {
    match v {
        Json::Object(members) => member_lookup(members@, key),
        _ => None,
    }
}

/// `get` lifted to an optional value, as `Option::and_then` does.
pub open spec fn opt_get(v: Option<Json>, key: Seq<char>) -> Option<Json> {
    match v {
        Some(x) => json_get(x, key),
        None => None,
    }
}

/// The text of a string value.
pub open spec fn as_str_of(v: Option<Json>) -> Option<Seq<char>> {
    match v {
        Some(Json::Str(s)) => Some(s@),
        _ => None,
    }
}

/// The non-negative integer of a number value.
pub open spec fn as_u64_of(v: Option<Json>) -> Option<u64> {
    match v {
        Some(Json::Number(n)) => n,
        _ => None,
    }
}

/// The boolean of a boolean value.
pub open spec fn as_bool_of(v: Option<Json>) -> Option<bool> {
    match v {
        Some(Json::Bool(b)) => Some(b),
        _ => None,
    }
}

/// `v[key]` read as a string.
pub open spec fn str_at(v: Json, key: Seq<char>) -> Option<Seq<char>> {
    as_str_of(json_get(v, key))
}

/// `v[key]` read as a non-negative integer.
pub open spec fn u64_at(v: Json, key: Seq<char>) -> Option<u64> {
    as_u64_of(json_get(v, key))
}

/// What serde_json's `from_str::<Value>` gives for a text, held as a [`Json`];
/// `None` where the text is not a JSON document.
pub uninterp spec fn parsed_json(text: Seq<char>) -> Option<Json>;

/// A lower-case hexadecimal digit.
pub open spec fn hex_digit(d: int) -> char {
    if d < 10 {
        (48 + d) as char
    } else {
        (87 + d) as char
    }
}

/// How serde_json writes one character inside a string literal: `"` and `\`
/// and the controls with a short escape are escaped with a backslash, the
/// other characters below U+0020 as `\u00XX`, every other character as is.
pub open spec fn escaped_char(c: char) -> Seq<char> {
    if c == '"' {
        seq!['\\', '"']
    } else if c == '\\' {
        seq!['\\', '\\']
    } else if c == '\u{8}' {
        seq!['\\', 'b']
    } else if c == '\t' {
        seq!['\\', 't']
    } else if c == '\n' {
        seq!['\\', 'n']
    } else if c == '\u{c}' {
        seq!['\\', 'f']
    } else if c == '\r' {
        seq!['\\', 'r']
    } else if (c as int) < 0x20 {
        seq!['\\', 'u', '0', '0', hex_digit((c as int) / 16), hex_digit((c as int) % 16)]
    } else {
        seq![c]
    }
}

/// The characters of a text, each written as `escaped_char` writes it.
pub open spec fn escaped_text(s: Seq<char>) -> Seq<char>
    decreases s.len(),
{
    if s.len() == 0 {
        Seq::empty()
    } else {
        escaped_text(s.drop_last()) + escaped_char(s.last())
    }
}

/// The JSON string literal that serde_json writes for a text: the escaped
/// text between double quotes.
pub open spec fn json_string_literal(text: Seq<char>) -> Seq<char> {
    seq!['"'] + escaped_text(text) + seq!['"']
}

/// Parses a JSON document with `serde_json::from_str::<serde_json::Value>`.
/// Claimed: the result is a function of the text alone, named `parsed_json`.
#[verifier::external_body]
pub fn parse_json(text: &str) -> (r: Option<Json>)
    ensures
        r == parsed_json(text@),
{
    match serde_json::from_str::<serde_json::Value>(text) {
        Ok(v) => Some(json_from_value(v)),
        Err(_) => None,
    }
}

/// Moves a `serde_json::Value` into a [`Json`], variant by variant; a number
/// keeps what `serde_json::Number::as_u64` gives for it.
#[verifier::external_body]
fn json_from_value(v: serde_json::Value) -> Json {
    match v {
        serde_json::Value::Null => Json::Null,
        serde_json::Value::Bool(b) => Json::Bool(b),
        serde_json::Value::Number(n) => Json::Number(n.as_u64()),
        serde_json::Value::String(s) => Json::Str(s),
        serde_json::Value::Array(a) => Json::Array(a.into_iter().map(json_from_value).collect()),
        serde_json::Value::Object(m) => Json::Object(
            m.into_iter().map(|(k, x)| (k, json_from_value(x))).collect(),
        ),
    }
}

/// Writes a text as a JSON string literal with `serde_json::to_string::<str>`.
/// Claimed, as serde_json's `format_escaped_str` and its escape table show:
/// the result is `json_string_literal` of the text.
/// (Serialising a `str` does not fail; the error arm is never taken.)
#[verifier::external_body]
pub fn json_quote(text: &str) -> (r: String)
    ensures
        r@ == json_string_literal(text@),
{
    match serde_json::to_string(text) {
        Ok(s) => s,
        Err(_) => String::new(),
    }
}

proof fn lemma_lookup_skip(members: Seq<(String, Json)>, key: Seq<char>, i: int)
    requires
        0 <= i < members.len(),
        members[i].0@ != key,
    ensures
        member_lookup(members.skip(i), key) == member_lookup(members.skip(i + 1), key),
{
    assert(members.skip(i).drop_first() =~= members.skip(i + 1));
}

impl Json {
    /// `self[key]` when `self` is an object with a member named `key`
    /// (serde_json's `Value::get` with a string index).
    pub fn get(&self, key: &str) -> (r: Option<&Json>)
        ensures
            match r {
                Some(x) => json_get(*self, key@) == Some(*x),
                None => json_get(*self, key@) is None,
            },
    {
        match self {
            Json::Object(members) => {
                let k = String::from_str(key);
                let mut i: usize = 0;
                assert(members@.skip(0) =~= members@);
                while i < members.len()
                    invariant
                        i <= members@.len(),
                        k@ == key@,
                        json_get(*self, key@) == member_lookup(members@, key@),
                        member_lookup(members@, key@) == member_lookup(members@.skip(i as int), key@),
                    decreases members@.len() - i,
                {
                    if members[i].0 == k {
                        assert(members@.skip(i as int)[0] == members@[i as int]);
                        return Some(&members[i].1);
                    }
                    proof {
                        lemma_lookup_skip(members@, key@, i as int);
                    }
                    i = i + 1;
                }
                None
            },
            _ => None,
        }
    }

    /// The text of a string value.
    pub fn as_str(&self) -> (r: Option<&String>)
        ensures
            match r {
                Some(s) => as_str_of(Some(*self)) == Some(s@),
                None => as_str_of(Some(*self)) is None,
            },
    {
        match self {
            Json::Str(s) => Some(s),
            _ => None,
        }
    }

    /// The non-negative integer of a number value.
    pub fn as_u64(&self) -> (r: Option<u64>)
        ensures
            r == as_u64_of(Some(*self)),
    {
        match self {
            Json::Number(n) => *n,
            _ => None,
        }
    }

    /// The boolean of a boolean value.
    pub fn as_bool(&self) -> (r: Option<bool>)
        ensures
            r == as_bool_of(Some(*self)),
    {
        match self {
            Json::Bool(b) => Some(*b),
            _ => None,
        }
    }

    /// Whether the value is an object.
    pub fn is_object(&self) -> (r: bool)
        ensures
            r == (*self is Object),
    {
        match self {
            Json::Object(_) => true,
            _ => false,
        }
    }
}

/// An optional borrowed value, as a value.
pub open spec fn opt_json(v: Option<&Json>) -> Option<Json> {
    match v {
        Some(x) => Some(*x),
        None => None,
    }
}

/// `get` on an optional value (`Option::and_then` over `Value::get`).
pub fn get_in<'a>(v: Option<&'a Json>, key: &str) -> (r: Option<&'a Json>)
    ensures
        opt_json(r) == opt_get(opt_json(v), key@),
{
    match v {
        Some(x) => x.get(key),
        None => None,
    }
}

/// An optional value read as a string, copied out.
pub fn str_of(v: Option<&Json>) -> (r: Option<String>)
    ensures
        r.deep_view() == as_str_of(opt_json(v)),
{
    match v {
        Some(x) => match x.as_str() {
            Some(s) => Some(s.clone()),
            None => None,
        },
        None => None,
    }
}

/// An optional value read as a non-negative integer.
pub fn u64_of(v: Option<&Json>) -> (r: Option<u64>)
    ensures
        r == as_u64_of(opt_json(v)),
{
    match v {
        Some(x) => x.as_u64(),
        None => None,
    }
}

/// An optional value read as a boolean.
pub fn bool_of(v: Option<&Json>) -> (r: Option<bool>)
    ensures
        r == as_bool_of(opt_json(v)),
{
    match v {
        Some(x) => x.as_bool(),
        None => None,
    }
}

/// Whether an optional text is present and equal to `lit`.
pub fn text_is(s: &Option<String>, lit: &str) -> (r: bool)
    ensures
        r == (s.deep_view() == Some(lit@)),
{
    match s {
        Some(t) => *t == String::from_str(lit),
        None => false,
    }
}

/// `v[key]` read as a string, copied out.
pub fn str_field(v: &Json, key: &str) -> (r: Option<String>)
    ensures
        r.deep_view() == str_at(*v, key@),
{
    match v.get(key) {
        Some(x) => match x.as_str() {
            Some(s) => Some(s.clone()),
            None => None,
        },
        None => None,
    }
}

/// `v[key]` read as a non-negative integer.
pub fn u64_field(v: &Json, key: &str) -> (r: Option<u64>)
    ensures
        r == u64_at(*v, key@),
{
    match v.get(key) {
        Some(x) => x.as_u64(),
        None => None,
    }
}

} // verus!
