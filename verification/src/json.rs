//! The library's JSON model. A decoded document is held as a `JsonValue` of
//! plain values, abstracted by the ghost `JsonSpecValue`; the one trusted
//! boundary is `parse_json`, which lets the JSON decoder of serde_json turn a
//! string into a `JsonValue`. Everything that reads a decoded document —
//! field lookup and the typed field accessors — is verified.
use vstd::prelude::*;

use crate::errors::JsonError;
use crate::registry::tag_lookup;

verus! {

broadcast use vstd::std_specs::vec::axiom_vec_index_decreases, vstd::seq::axiom_seq_index_decreases, vstd::seq::axiom_seq_subrange_decreases, vstd::std_specs::vec::axiom_vec_decreases_to_view;

/// The mathematical shape of a JSON document. A number is carried as its
/// decimal rendering, an object as its fields in decoder order.
pub enum JsonSpecValue {
    Null,
    Bool(bool),
    Num(Seq<char>),
    Str(Seq<char>),
    Arr(Seq<JsonSpecValue>),
    Obj(Seq<(Seq<char>, JsonSpecValue)>),
}

/// A decoded JSON document, held entirely as plain values.
pub enum JsonValue {
    Null,
    Bool(bool),
    Number(String),
    Str(String),
    Array(Vec<JsonValue>),
    Object(Vec<(String, JsonValue)>),
}

impl JsonValue {
    /// The abstraction of a decoded document.
    pub open spec fn deep_view(self) -> JsonSpecValue
        decreases self,
    {
        match self {
            JsonValue::Null => JsonSpecValue::Null,
            JsonValue::Bool(b) => JsonSpecValue::Bool(b),
            JsonValue::Number(s) => JsonSpecValue::Num(s@),
            JsonValue::Str(s) => JsonSpecValue::Str(s@),
            JsonValue::Array(v) => JsonSpecValue::Arr(deep_view_arr(v@)),
            JsonValue::Object(v) => JsonSpecValue::Obj(deep_view_obj(v@)),
        }
    }
}

pub open spec fn deep_view_arr(s: Seq<JsonValue>) -> Seq<JsonSpecValue>
    decreases s, s.len(),
{
    if s.len() == 0 {
        Seq::empty()
    } else {
        seq![s[0].deep_view()] + deep_view_arr(s.drop_first())
    }
}

pub open spec fn deep_view_obj(s: Seq<(String, JsonValue)>) -> Seq<(Seq<char>, JsonSpecValue)>
    decreases s, s.len(),
{
    if s.len() == 0 {
        Seq::empty()
    } else {
        seq![(s[0].0@, s[0].1.deep_view())] + deep_view_obj(s.drop_first())
    }
}

pub proof fn lemma_deep_view_arr(s: Seq<JsonValue>)
    ensures
        deep_view_arr(s).len() == s.len(),
        forall|k: int|
            0 <= k < s.len() ==> #[trigger] deep_view_arr(s)[k] == s[k].deep_view(),
    decreases s.len(),
{
    if s.len() > 0 {
        lemma_deep_view_arr(s.drop_first());
        assert forall|k: int|
            0 <= k < s.len() implies #[trigger] deep_view_arr(s)[k] == s[k].deep_view() by {
            if k > 0 {
                assert(deep_view_arr(s)[k] == deep_view_arr(s.drop_first())[k - 1]);
                assert(s.drop_first()[k - 1] == s[k]);
            }
        }
    }
}

pub proof fn lemma_deep_view_obj(s: Seq<(String, JsonValue)>)
    ensures
        deep_view_obj(s).len() == s.len(),
        forall|k: int|
            0 <= k < s.len() ==> #[trigger] deep_view_obj(s)[k] == (
            s[k].0@,
            s[k].1.deep_view(),
            ),
    decreases s.len(),
{
    if s.len() > 0 {
        lemma_deep_view_obj(s.drop_first());
        assert forall|k: int|
            0 <= k < s.len() implies #[trigger] deep_view_obj(s)[k] == (
            s[k].0@,
            s[k].1.deep_view(),
        ) by {
            if k > 0 {
                assert(deep_view_obj(s)[k] == deep_view_obj(s.drop_first())[k - 1]);
                assert(s.drop_first()[k - 1] == s[k]);
            }
        }
    }
}

/// The value at `key` among an object's fields: the first match, as with the
/// registry tables.
pub open spec fn obj_get(fields: Seq<(Seq<char>, JsonSpecValue)>, key: Seq<char>) -> Option<
    JsonSpecValue,
> {
    tag_lookup(fields, key)
}

/// The string at `key`, when the field is present and is a string.
pub open spec fn str_field(fields: Seq<(Seq<char>, JsonSpecValue)>, key: Seq<char>) -> Option<
    Seq<char>,
> {
    match obj_get(fields, key) {
        Some(JsonSpecValue::Str(s)) => Some(s),
        _ => None,
    }
}

/// The number rendering at `key`, when the field is present and is a number.
pub open spec fn num_field(fields: Seq<(Seq<char>, JsonSpecValue)>, key: Seq<char>) -> Option<
    Seq<char>,
> {
    match obj_get(fields, key) {
        Some(JsonSpecValue::Num(s)) => Some(s),
        _ => None,
    }
}

/// The object at `key`, when the field is present and is an object.
pub open spec fn obj_field(fields: Seq<(Seq<char>, JsonSpecValue)>, key: Seq<char>) -> Option<
    Seq<(Seq<char>, JsonSpecValue)>,
> {
    match obj_get(fields, key) {
        Some(JsonSpecValue::Obj(g)) => Some(g),
        _ => None,
    }
}

/// The array at `key`, when the field is present and is an array.
pub open spec fn arr_field(fields: Seq<(Seq<char>, JsonSpecValue)>, key: Seq<char>) -> Option<
    Seq<JsonSpecValue>,
> {
    match obj_get(fields, key) {
        Some(JsonSpecValue::Arr(a)) => Some(a),
        _ => None,
    }
}

/// Finds the field named `key` in a decoded object.
pub fn get_field<'a>(fields: &'a Vec<(String, JsonValue)>, key: &str) -> (r: Option<
    &'a JsonValue,
>)
    ensures
        match r {
            Some(v) => obj_get(deep_view_obj(fields@), key@) == Some(v.deep_view()),
            None => obj_get(deep_view_obj(fields@), key@) is None,
        },
{
    let key_string = String::from_str(key);
    let ghost m = deep_view_obj(fields@);
    proof {
        lemma_deep_view_obj(fields@);
        assert(m.skip(0) =~= m);
    }
    let mut i: usize = 0;
    while i < fields.len()
        invariant
            i <= fields@.len(),
            m == deep_view_obj(fields@),
            m.len() == fields@.len(),
            forall|k: int|
                0 <= k < fields@.len() ==> #[trigger] m[k] == (
                fields@[k].0@,
                fields@[k].1.deep_view(),
                ),
            key_string@ == key@,
            tag_lookup(m, key@) == tag_lookup(m.skip(i as int), key@),
        decreases fields@.len() - i,
    {
        proof {
            assert(m.skip(i as int)[0] == m[i as int]);
        }
        if fields[i].0 == key_string {
            return Some(&fields[i].1);
        }
        proof {
            assert(m.skip(i as int).drop_first() =~= m.skip(i as int + 1));
        }
        i += 1;
    }
    proof {
        assert(m.skip(fields@.len() as int) =~= Seq::<(Seq<char>, JsonSpecValue)>::empty());
    }
    None
}

/// Reads the required string field `key`, diagnosing an absent field and a
/// field of the wrong type separately.
pub fn get_string_field(fields: &Vec<(String, JsonValue)>, key: &str) -> (r: Result<
    String,
    JsonError,
>)
    ensures
        match r {
            Ok(s) => str_field(deep_view_obj(fields@), key@) == Some(s@),
            Err(e) => {
                &&& str_field(deep_view_obj(fields@), key@) is None
                &&& e.path matches Some(p) && p@ == key@
                &&& e.message@ == (if obj_get(deep_view_obj(fields@), key@) is None {
                    "missing field"@
                } else {
                    "expected a string"@
                })
            },
        },
{
    match get_field(fields, key) {
        Some(v) => match v {
            JsonValue::Str(s) => Ok(s.clone()),
            _ => Err(
                JsonError {
                    message: String::from_str("expected a string"),
                    path: Some(String::from_str(key)),
                },
            ),
        },
        None => Err(
            JsonError {
                message: String::from_str("missing field"),
                path: Some(String::from_str(key)),
            },
        ),
    }
}

/// Reads the required number field `key`, yielding its decimal rendering.
pub fn get_number_field(fields: &Vec<(String, JsonValue)>, key: &str) -> (r: Result<
    String,
    JsonError,
>)
    ensures
        match r {
            Ok(s) => num_field(deep_view_obj(fields@), key@) == Some(s@),
            Err(e) => {
                &&& num_field(deep_view_obj(fields@), key@) is None
                &&& e.path matches Some(p) && p@ == key@
                &&& e.message@ == (if obj_get(deep_view_obj(fields@), key@) is None {
                    "missing field"@
                } else {
                    "expected a number"@
                })
            },
        },
{
    match get_field(fields, key) {
        Some(v) => match v {
            JsonValue::Number(s) => Ok(s.clone()),
            _ => Err(
                JsonError {
                    message: String::from_str("expected a number"),
                    path: Some(String::from_str(key)),
                },
            ),
        },
        None => Err(
            JsonError {
                message: String::from_str("missing field"),
                path: Some(String::from_str(key)),
            },
        ),
    }
}

/// Reads the required object field `key`.
pub fn get_object_field<'a>(fields: &'a Vec<(String, JsonValue)>, key: &str) -> (r: Result<
    &'a Vec<(String, JsonValue)>,
    JsonError,
>)
    ensures
        match r {
            Ok(g) => obj_field(deep_view_obj(fields@), key@) == Some(deep_view_obj(g@)),
            Err(e) => {
                &&& obj_field(deep_view_obj(fields@), key@) is None
                &&& e.path matches Some(p) && p@ == key@
                &&& e.message@ == (if obj_get(deep_view_obj(fields@), key@) is None {
                    "missing field"@
                } else {
                    "expected an object"@
                })
            },
        },
{
    match get_field(fields, key) {
        Some(v) => match v {
            JsonValue::Object(g) => Ok(g),
            _ => Err(
                JsonError {
                    message: String::from_str("expected an object"),
                    path: Some(String::from_str(key)),
                },
            ),
        },
        None => Err(
            JsonError {
                message: String::from_str("missing field"),
                path: Some(String::from_str(key)),
            },
        ),
    }
}

/// Reads the required array field `key`.
pub fn get_array_field<'a>(fields: &'a Vec<(String, JsonValue)>, key: &str) -> (r: Result<
    &'a Vec<JsonValue>,
    JsonError,
>)
    ensures
        match r {
            Ok(a) => arr_field(deep_view_obj(fields@), key@) == Some(deep_view_arr(a@)),
            Err(e) => {
                &&& arr_field(deep_view_obj(fields@), key@) is None
                &&& e.path matches Some(p) && p@ == key@
                &&& e.message@ == (if obj_get(deep_view_obj(fields@), key@) is None {
                    "missing field"@
                } else {
                    "expected an array"@
                })
            },
        },
{
    match get_field(fields, key) {
        Some(v) => match v {
            JsonValue::Array(a) => Ok(a),
            _ => Err(
                JsonError {
                    message: String::from_str("expected an array"),
                    path: Some(String::from_str(key)),
                },
            ),
        },
        None => Err(
            JsonError {
                message: String::from_str("missing field"),
                path: Some(String::from_str(key)),
            },
        ),
    }
}

/// The JSON value denoted by a string, when the JSON decoder accepts it.
/// Known only through the contract of `parse_json`.
pub uninterp spec fn json_of(s: Seq<char>) -> Option<JsonSpecValue>;

#[verifier::external_type_specification]
#[verifier::external_body]
pub struct ExSerdeValue(serde_json::Value);

/// Relies on the variants of serde_json::Value: each arm moves one variant's
/// contents into the library's representation; a number becomes its decimal
/// rendering.
#[verifier::external_body]
fn from_serde_value(v: serde_json::Value) -> JsonValue {
    match v {
        serde_json::Value::Null => JsonValue::Null,
        serde_json::Value::Bool(b) => JsonValue::Bool(b),
        serde_json::Value::Number(n) => JsonValue::Number(n.to_string()),
        serde_json::Value::String(s) => JsonValue::Str(s),
        serde_json::Value::Array(a) => JsonValue::Array(
            a.into_iter().map(from_serde_value).collect(),
        ),
        serde_json::Value::Object(m) => JsonValue::Object(
            m.into_iter().map(|(k, x)| (k, from_serde_value(x))).collect(),
        ),
    }
}

/// Relies on serde_json::from_str::<serde_json::Value>: whether a string is
/// accepted as JSON, and the value it denotes, depend on the string alone.
/// On rejection the decoder's own message is handed back verbatim.
#[verifier::external_body]
pub fn parse_json(s: &str) -> (r: Result<JsonValue, String>)
    ensures
        (r is Ok) == (json_of(s@) is Some),
        r matches Ok(v) ==> json_of(s@) == Some(v.deep_view()),
{
    match serde_json::from_str::<serde_json::Value>(s) {
        Ok(v) => Ok(from_serde_value(v)),
        Err(e) => Err(e.to_string()),
    }
}

} // verus!
