//! A JSON document model: payloads the library builds and documents it reads. serde_json
//! reads and writes the text.
use vstd::prelude::*;
use vstd::string::*;

use crate::text::own;

verus! {

/// A JSON value. The payloads the library builds hold their integers as `Int`; a number read
/// from a text is kept as `Number`, in the notation serde_json writes for it.
#[derive(Debug)]
pub enum JsonValue {
    Null,
    Bool(bool),
    Int(i64),
    Number(String),
    Str(String),
    Array(Vec<JsonValue>),
    Object(Vec<JsonMember>),
}

/// One member of a JSON object.
#[derive(Debug)]
pub struct JsonMember {
    pub key: String,
    pub value: JsonValue,
}

/// The mathematical view of a JSON value.
pub enum Js {
    Null,
    Bool(bool),
    Int(int),
    Number(Seq<char>),
    Str(Seq<char>),
    Array(Seq<Js>),
    Object(Seq<(Seq<char>, Js)>),
}

/// The view of a JSON value.
pub open spec fn json_view(v: JsonValue) -> Js
    decreases v,
{
    match v {
        JsonValue::Null => Js::Null,
        JsonValue::Bool(b) => Js::Bool(b),
        JsonValue::Int(n) => Js::Int(n as int),
        JsonValue::Number(t) => Js::Number(t@),
        JsonValue::Str(s) => Js::Str(s@),
        JsonValue::Array(items) => Js::Array(
            Seq::new(
                items@.len(),
                |i: int|
                    if 0 <= i < items@.len() {
                        json_view(items@[i])
                    } else {
                        Js::Null
                    },
            ),
        ),
        JsonValue::Object(members) => Js::Object(
            Seq::new(
                members@.len(),
                |i: int|
                    if 0 <= i < members@.len() {
                        member_view(members@[i])
                    } else {
                        (Seq::empty(), Js::Null)
                    },
            ),
        ),
    }
}

/// The view of an object member: its key and the view of its value.
pub open spec fn member_view(m: JsonMember) -> (Seq<char>, Js)
    decreases m,
{
    (m.key@, json_view(m.value))
}

impl View for JsonValue {
    type V = Js;

    open spec fn view(&self) -> Js {
        json_view(*self)
    }
}

impl View for JsonMember {
    type V = (Seq<char>, Js);

    open spec fn view(&self) -> (Seq<char>, Js) {
        member_view(*self)
    }
}

/// The views of a sequence of values.
pub open spec fn views(v: Seq<JsonValue>) -> Seq<Js> {
    v.map_values(|x: JsonValue| x@)
}

/// The views of a sequence of members.
pub open spec fn member_views(v: Seq<JsonMember>) -> Seq<(Seq<char>, Js)> {
    v.map_values(|x: JsonMember| x@)
}

/// The value of the first member named `key`, if any.
pub open spec fn js_get(members: Seq<(Seq<char>, Js)>, key: Seq<char>) -> Option<Js>
    decreases members.len(),
{
    if members.len() == 0 {
        None
    } else if members[0].0 == key {
        Some(members[0].1)
    } else {
        js_get(members.drop_first(), key)
    }
}

// ---------------------------------------------------------------------------
// Reading and writing JSON text with serde_json
// ---------------------------------------------------------------------------

/// `serde_json::Value`, which the conversions below take and give.
#[verifier::external_type_specification]
#[verifier::external_body]
pub struct ExSerdeJsonValue(serde_json::Value);

/// The document that `serde_json::from_str::<serde_json::Value>` reads from a text, in this
/// library's model: each number in the notation serde_json writes for it, object members in the
/// order of serde_json's map (sorted by key); `None` when the text is not JSON.
pub uninterp spec fn json_document(text: Seq<char>) -> Option<Js>;

/// The compact text that serde_json writes (`Value::to_string`) for the `serde_json::Value`
/// that a document stands for.
pub uninterp spec fn json_compact(j: Js) -> Seq<char>;

/// Converts a `serde_json::Value` into the model, variant for variant; a number becomes the
/// text serde_json writes for it. Used only by `parse_json_document`.
#[verifier::external_body]
fn model_of_value(v: serde_json::Value) -> JsonValue {
    match v {
        serde_json::Value::Null => JsonValue::Null,
        serde_json::Value::Bool(b) => JsonValue::Bool(b),
        serde_json::Value::Number(n) => JsonValue::Number(n.to_string()),
        serde_json::Value::String(s) => JsonValue::Str(s),
        serde_json::Value::Array(a) => JsonValue::Array(a.into_iter().map(model_of_value).collect()),
        serde_json::Value::Object(m) => JsonValue::Object(
            m.into_iter().map(|(key, v)| JsonMember { key, value: model_of_value(v) }).collect(),
        ),
    }
}

/// Converts the model into a `serde_json::Value`, variant for variant; a number text is read
/// with `serde_json::Number`'s `FromStr`, and one it does not read becomes `null`. Used only by
/// `compact_json_text`.
#[verifier::external_body]
fn value_of_model(v: &JsonValue) -> serde_json::Value {
    match v {
        JsonValue::Null => serde_json::Value::Null,
        JsonValue::Bool(b) => serde_json::Value::Bool(*b),
        JsonValue::Int(n) => serde_json::Value::Number((*n).into()),
        JsonValue::Number(t) => match t.parse::<serde_json::Number>() {
            Ok(n) => serde_json::Value::Number(n),
            Err(_) => serde_json::Value::Null,
        },
        JsonValue::Str(s) => serde_json::Value::String(s.clone()),
        JsonValue::Array(a) => serde_json::Value::Array(a.iter().map(value_of_model).collect()),
        JsonValue::Object(ms) => serde_json::Value::Object(
            ms.iter().map(|m| (m.key.clone(), value_of_model(&m.value))).collect(),
        ),
    }
}

/// Calls `serde_json::from_str::<serde_json::Value>` on `text` and converts what it reads into
/// the model; `None` when serde_json reports an error.
#[verifier::external_body]
pub(crate) fn parse_json_document(text: &str) -> (res: Option<JsonValue>)
    ensures
        match res {
            Some(v) => json_document(text@) == Some(v@),
            None => json_document(text@) is None,
        },
{
    match serde_json::from_str::<serde_json::Value>(text) {
        Ok(v) => Some(model_of_value(v)),
        Err(_) => None,
    }
}

/// Converts a document into a `serde_json::Value` and calls its `to_string`: the compact text
/// serde_json writes for it.
#[verifier::external_body]
pub(crate) fn compact_json_text(v: &JsonValue) -> (res: String)
    ensures
        res@ == json_compact(v@),
{
    value_of_model(v).to_string()
}

// ---------------------------------------------------------------------------
// Construction and lookup
// ---------------------------------------------------------------------------

/// A JSON string.
pub fn jstr(s: String) -> (r: JsonValue)
    ensures
        r@ == Js::Str(s@),
{
    JsonValue::Str(s)
}

/// A JSON string copied from `s`.
pub fn jstr_of(s: &str) -> (r: JsonValue)
    ensures
        r@ == Js::Str(s@),
{
    JsonValue::Str(own(s))
}

/// A JSON integer.
pub fn jint(n: i64) -> (r: JsonValue)
    ensures
        r@ == Js::Int(n as int),
{
    JsonValue::Int(n)
}

/// A JSON boolean.
pub fn jbool(b: bool) -> (r: JsonValue)
    ensures
        r@ == Js::Bool(b),
{
    JsonValue::Bool(b)
}

/// A JSON array of `items`.
pub fn jarr(items: Vec<JsonValue>) -> (r: JsonValue)
    ensures
        r@ == Js::Array(views(items@)),
{
    let r = JsonValue::Array(items);
    assert(r@ is Array);
    assert(r@->Array_0.len() == items@.len());
    assert forall|i: int| 0 <= i < items@.len() implies r@->Array_0[i] == views(items@)[i] by {}
    assert(r@->Array_0 =~= views(items@));
    r
}

/// A JSON object of `members`, in that order.
pub fn jobj(members: Vec<JsonMember>) -> (r: JsonValue)
    ensures
        r@ == Js::Object(member_views(members@)),
{
    let r = JsonValue::Object(members);
    assert(r@ is Object);
    assert(r@->Object_0.len() == members@.len());
    assert forall|i: int| 0 <= i < members@.len() implies r@->Object_0[i] == member_views(
        members@,
    )[i] by {
        assert(member_view(members@[i]) == (members@[i].key@, members@[i].value@));
    }
    assert(r@->Object_0 =~= member_views(members@));
    r
}

/// An object member.
pub fn member(key: &str, value: JsonValue) -> (m: JsonMember)
    ensures
        m@ == (key@, value@),
{
    JsonMember { key: own(key), value }
}

/// The view of an array value is built from the views of its items.
pub proof fn lemma_array_view(items: Vec<JsonValue>)
    ensures
        JsonValue::Array(items)@ == Js::Array(views(items@)),
{
    let r = JsonValue::Array(items);
    assert(r@->Array_0 =~= views(items@));
}

/// The view of an object value is built from the views of its members.
pub proof fn lemma_object_view(members: Vec<JsonMember>)
    ensures
        JsonValue::Object(members)@ == Js::Object(member_views(members@)),
{
    let r = JsonValue::Object(members);
    assert forall|i: int| 0 <= i < members@.len() implies r@->Object_0[i] == member_views(
        members@,
    )[i] by {
        assert(member_view(members@[i]) == (members@[i].key@, members@[i].value@));
    }
    assert(r@->Object_0 =~= member_views(members@));
}

/// The value of the first member named `key`.
pub fn get<'a>(members: &'a Vec<JsonMember>, key: &str) -> (r: Option<&'a JsonValue>)
    ensures
        match r {
            Some(v) => js_get(member_views(members@), key@) == Some(v@),
            None => js_get(member_views(members@), key@) is None,
        },
{
    let mut i: usize = 0;
    assert(member_views(members@).subrange(0, members@.len() as int) == member_views(members@));
    while i < members.len()
        invariant
            0 <= i <= members.len(),
            js_get(member_views(members@), key@) == js_get(
                member_views(members@).subrange(i as int, members@.len() as int),
                key@,
            ),
        decreases members.len() - i,
    {
        let ghost rest = member_views(members@).subrange(i as int, members@.len() as int);
        assert(rest[0] == members@[i as int]@);
        assert(rest.drop_first() == member_views(members@).subrange(i + 1, members@.len() as int));
        if crate::text::str_eq(members[i].key.as_str(), key) {
            return Some(&members[i].value);
        }
        i += 1;
    }
    None
}

} // verus!
