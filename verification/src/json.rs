//! A plain model of JSON values, as carried in agent payloads, intent
//! parameters and memory entries. A number keeps serde_json's three kinds:
//! a non-negative integer, a negative integer, or a float written as text.

use vstd::prelude::*;
use crate::text::{str_eq, texts};

verus! {

#[derive(Debug, PartialEq)]
pub enum JsonNumber {
    PosInt(u64),
    NegInt(i64),
    Float(String),
}

#[derive(Debug, PartialEq)]
pub enum JsonValue {
    Null,
    Bool(bool),
    Number(JsonNumber),
    Str(String),
    Array(Vec<JsonValue>),
    Object(Vec<JsonField>),
}

#[derive(Debug, PartialEq)]
pub struct JsonField {
    pub key: String,
    pub value: JsonValue,
}

/// The value of the first field named `key`, looking from index `i` on.
pub open spec fn lookup_from(fields: Seq<JsonField>, key: Seq<char>, i: int) -> Option<JsonValue>
    decreases fields.len() - i,
{
    if i < 0 || i >= fields.len() {
        None
    } else if fields[i].key@ == key {
        Some(fields[i].value)
    } else {
        lookup_from(fields, key, i + 1)
    }
}

/// No two fields of `fs` share a key.
pub open spec fn distinct_keys(fs: Seq<JsonField>) -> bool {
    forall|i: int, j: int| 0 <= i < j < fs.len() ==> #[trigger] fs[i].key@ != #[trigger] fs[j].key@
}

/// Looking a key up from index `i` finds the field at `j >= i` that holds
/// it, where no two fields share a key.
proof fn lemma_lookup_finds(fs: Seq<JsonField>, i: int, j: int)
    requires
        distinct_keys(fs),
        0 <= i <= j < fs.len(),
    ensures
        lookup_from(fs, fs[j].key@, i) == Some(fs[j].value),
    decreases j - i,
{
    if i < j {
        assert(fs[i].key@ != fs[j].key@);
        lemma_lookup_finds(fs, i + 1, j);
    }
}

/// In an object whose keys are distinct, as in serde_json's map, each
/// field is found by its key, wherever it stands.
pub proof fn lemma_member_by_key(fs: Seq<JsonField>, j: int)
    requires
        distinct_keys(fs),
        0 <= j < fs.len(),
    ensures
        lookup_from(fs, fs[j].key@, 0) == Some(fs[j].value),
{
    lemma_lookup_finds(fs, 0, j);
}

impl JsonValue {
    /// Every object in `self` has distinct keys, as serde_json's map keeps
    /// them.
    pub open spec fn well_formed(self) -> bool
        decreases self,
    {
        match self {
            JsonValue::Object(fs) => distinct_keys(fs@) && forall|i: int|
                0 <= i < fs@.len() ==> (#[trigger] fs@[i]).value.well_formed(),
            JsonValue::Array(a) => forall|i: int| 0 <= i < a@.len() ==> (#[trigger] a@[i]).well_formed(),
            _ => true,
        }
    }

    /// What `get(key)` returns: the member `key` of an object, nothing for
    /// any other value.
    pub open spec fn member(self, key: Seq<char>) -> Option<JsonValue> {
        match self {
            JsonValue::Object(fields) => lookup_from(fields@, key, 0),
            _ => None,
        }
    }

    /// The text of a string value.
    pub open spec fn str_text(self) -> Option<Seq<char>> {
        match self {
            JsonValue::Str(s) => Some(s@),
            _ => None,
        }
    }

    /// The value of a non-negative integer.
    pub open spec fn u64_value(self) -> Option<u64> {
        match self {
            JsonValue::Number(JsonNumber::PosInt(n)) => Some(n),
            _ => None,
        }
    }

    /// The member `key` of an object.
    pub fn get(&self, key: &str) -> (r: Option<&JsonValue>)
        ensures
            match r {
                Some(v) => self.member(key@) == Some(*v),
                None => self.member(key@) is None,
            },
    {
        match self {
            JsonValue::Object(fields) => {
                let mut i: usize = 0;
                let n = fields.len();
                while i < n
                    invariant
                        n == fields@.len(),
                        i <= n,
                        self.member(key@) == lookup_from(fields@, key@, 0),
                        lookup_from(fields@, key@, 0) == lookup_from(fields@, key@, i as int),
                    decreases n - i,
                {
                    if str_eq(fields[i].key.as_str(), key) {
                        return Some(&fields[i].value);
                    }
                    i = i + 1;
                }
                None
            },
            _ => None,
        }
    }

    /// The text of a string value.
    pub fn as_str(&self) -> (r: Option<&String>)
        ensures
            match r {
                Some(s) => self.str_text() == Some(s@),
                None => self.str_text() is None,
            },
    {
        match self {
            JsonValue::Str(s) => Some(s),
            _ => None,
        }
    }

    /// The value of a non-negative integer.
    pub fn as_u64(&self) -> (r: Option<u64>)
        ensures
            r == self.u64_value(),
    {
        match self {
            JsonValue::Number(JsonNumber::PosInt(n)) => Some(*n),
            _ => None,
        }
    }
}

impl JsonNumber {
    /// A copy of the number.
    pub fn copy(&self) -> (r: JsonNumber)
        ensures
            r == *self,
    {
        match self {
            JsonNumber::PosInt(n) => JsonNumber::PosInt(*n),
            JsonNumber::NegInt(n) => JsonNumber::NegInt(*n),
            JsonNumber::Float(t) => JsonNumber::Float(t.clone()),
        }
    }
}

/// The text of the string member `key` of `v`, if `v` has one.
pub open spec fn member_text(v: JsonValue, key: Seq<char>) -> Option<Seq<char>> {
    match v.member(key) {
        Some(m) => m.str_text(),
        None => None,
    }
}

/// `v.get(key).and_then(|x| x.as_str())`, as an owned string.
pub fn member_str(v: &JsonValue, key: &str) -> (r: Option<String>)
    ensures
        match r {
            Some(s) => member_text(*v, key@) == Some(s@),
            None => member_text(*v, key@) is None,
        },
{
    match v.get(key) {
        Some(m) => match m.as_str() {
            Some(s) => Some(s.clone()),
            None => None,
        },
        None => None,
    }
}

/// A field whose value is a string.
pub fn str_field(key: &str, value: String) -> (f: JsonField)
    ensures
        f.key@ == key@,
        f.value == JsonValue::Str(value),
{
    JsonField { key: key.to_string(), value: JsonValue::Str(value) }
}

/// A field with any value.
pub fn field(key: &str, value: JsonValue) -> (f: JsonField)
    ensures
        f.key@ == key@,
        f.value == value,
{
    JsonField { key: key.to_string(), value }
}

/// The number of fields of an object (-1 for any other value).
pub open spec fn field_count(v: JsonValue) -> int {
    match v {
        JsonValue::Object(fs) => fs@.len() as int,
        _ => -1,
    }
}

/// The key of the `i`-th field of an object.
pub open spec fn key_of(v: JsonValue, i: int) -> Seq<char> {
    match v {
        JsonValue::Object(fs) => fs@[i].key@,
        _ => Seq::empty(),
    }
}

/// The value of the `i`-th field of an object.
pub open spec fn value_of(v: JsonValue, i: int) -> JsonValue {
    match v {
        JsonValue::Object(fs) => fs@[i].value,
        _ => JsonValue::Null,
    }
}

/// The `i`-th field of `v` is `key` with the value `value`.
pub open spec fn entry_is(v: JsonValue, i: int, key: Seq<char>, value: JsonValue) -> bool {
    key_of(v, i) == key && value_of(v, i) == value
}

/// The `i`-th field of `v` is `key` with the string `text`.
pub open spec fn text_entry_is(v: JsonValue, i: int, key: Seq<char>, text: Seq<char>) -> bool {
    key_of(v, i) == key && value_of(v, i).str_text() == Some(text)
}

/// The `i`-th field of `v` is `key` with the non-negative integer `n`.
pub open spec fn count_entry_is(v: JsonValue, i: int, key: Seq<char>, n: nat) -> bool {
    key_of(v, i) == key && value_of(v, i) == JsonValue::Number(JsonNumber::PosInt(n as u64))
        && n <= u64::MAX
}

/// The `i`-th field of `v` is `key` with a float written as `text`.
pub open spec fn float_entry_is(v: JsonValue, i: int, key: Seq<char>, text: Seq<char>) -> bool {
    key_of(v, i) == key && (value_of(v, i) matches JsonValue::Number(JsonNumber::Float(t)) && t@ == text)
}

/// `v` is an array of the strings `s`, in order.
pub open spec fn text_array_is(v: JsonValue, s: Seq<Seq<char>>) -> bool {
    v matches JsonValue::Array(a) && a@.len() == s.len() && forall|i: int|
        0 <= i < s.len() ==> #[trigger] a@[i].str_text() == Some(s[i])
}

/// The array of the strings in `v`, in order.
pub fn text_array(v: &Vec<String>) -> (r: JsonValue)
    ensures
        text_array_is(r, texts(v@)),
        r.well_formed(),
{
    let mut a: Vec<JsonValue> = Vec::new();
    let mut i: usize = 0;
    while i < v.len()
        invariant
            i <= v@.len(),
            a@.len() == i,
            forall|k: int| 0 <= k < i ==> #[trigger] a@[k].str_text() == Some(v@[k]@),
            forall|k: int| 0 <= k < i ==> #[trigger] a@[k] == JsonValue::Str(v@[k]),
        decreases v@.len() - i,
    {
        a.push(JsonValue::Str(v[i].clone()));
        i = i + 1;
    }
    let r = JsonValue::Array(a);
    assert forall|k: int| 0 <= k < a@.len() implies (#[trigger] a@[k]).well_formed() by {
        assert(a@[k] == JsonValue::Str(v@[k]));
    }
    r
}

/// An empty object, `{}`.
pub fn empty_object() -> (v: JsonValue)
    ensures
        v matches JsonValue::Object(fs) && fs@.len() == 0,
        v.well_formed(),
{
    JsonValue::Object(Vec::new())
}

} // verus!
