//! An untyped JSON value: a tree of null, boolean, integer, string, array and
//! object nodes.
//!
//! The remote API speaks JSON, and the opaque "blocks" and "view" payloads
//! that callers pass through are JSON trees whose shape this client does not
//! validate.  [`JsonValue`] is the executable tree; [`JsonSpec`] is its
//! mathematical model, used by every contract in the crate.

use vstd::prelude::*;

verus! {

/// The mathematical model of a JSON value.
///
/// Strings are sequences of characters, integers are unbounded, arrays are
/// sequences of values, and an object is the sequence of its key/value pairs
/// in order.
#[verifier::ext_equal]
pub enum JsonSpec {
    Null,
    Bool(bool),
    Int(int),
    Str(Seq<char>),
    Array(Seq<JsonSpec>),
    Object(Seq<(Seq<char>, JsonSpec)>),
}

/// An untyped JSON value.
///
/// Numbers are restricted to signed 64-bit integers: the fields this client
/// reads from responses are strings and booleans, and integer-valued numbers
/// are all the request bodies it builds ever need.
#[derive(Debug, PartialEq)]
pub enum JsonValue {
    Null,
    Bool(bool),
    Int(i64),
    Str(String),
    Array(Vec<JsonValue>),
    Object(Vec<(String, JsonValue)>),
}

/// The model of a [`JsonValue`]: the tree with every string taken to its
/// character sequence and every integer to its mathematical value.
pub open spec fn json_view(v: JsonValue) -> JsonSpec
    decreases v,
{
    match v {
        JsonValue::Null => JsonSpec::Null,
        JsonValue::Bool(b) => JsonSpec::Bool(b),
        JsonValue::Int(i) => JsonSpec::Int(i as int),
        JsonValue::Str(s) => JsonSpec::Str(s@),
        JsonValue::Array(items) => JsonSpec::Array(
            Seq::new(
                items@.len(),
                |i: int|
                    if 0 <= i < items@.len() {
                        json_view(items@[i])
                    } else {
                        JsonSpec::Null
                    },
            ),
        ),
        JsonValue::Object(fields) => JsonSpec::Object(fields_view(fields@)),
    }
}

/// The model of an object's field list: each key taken to its character
/// sequence and each value to its model, in order.
pub open spec fn fields_view(fields: Seq<(String, JsonValue)>) -> Seq<(Seq<char>, JsonSpec)>
    decreases fields,
{
    Seq::new(
        fields.len(),
        |i: int|
            if 0 <= i < fields.len() {
                (fields[i].0@, json_view(fields[i].1))
            } else {
                (Seq::empty(), JsonSpec::Null)
            },
    )
}

/// The value under `key` in an object's field sequence: the value of the
/// first pair whose key is `key`, `None` when no pair has it.
pub open spec fn lookup_field(fields: Seq<(Seq<char>, JsonSpec)>, key: Seq<char>) -> Option<
    JsonSpec,
>
    decreases fields.len(),
{
    if fields.len() == 0 {
        None
    } else if fields[0].0 == key {
        Some(fields[0].1)
    } else {
        lookup_field(fields.drop_first(), key)
    }
}

/// Look up `key` among an object's fields: a reference to the value of the
/// first field whose key is `key`, `None` when no field has it.
pub fn get_field<'a>(fields: &'a Vec<(String, JsonValue)>, key: &String) -> (r: Option<
    &'a JsonValue,
>)
    ensures
        match r {
            Some(v) => lookup_field(fields_view(fields@), key@) == Some(json_view(*v)),
            None => lookup_field(fields_view(fields@), key@) is None,
        },
{
    let ghost fv = fields_view(fields@);
    proof {
        assert(fv.skip(0) =~= fv);
    }
    let mut i: usize = 0;
    while i < fields.len()
        invariant
            0 <= i <= fields.len(),
            fv == fields_view(fields@),
            lookup_field(fv, key@) == lookup_field(fv.skip(i as int), key@),
        decreases fields.len() - i,
    {
        proof {
            assert(fv.skip(i as int)[0] == fv[i as int]);
            assert(fv[i as int] == (fields@[i as int].0@, json_view(fields@[i as int].1)));
        }
        if fields[i].0 == *key {
            return Some(&fields[i].1);
        }
        proof {
            assert(fv.skip(i as int).drop_first() =~= fv.skip(i as int + 1));
        }
        i += 1;
    }
    proof {
        assert(fv.skip(fields@.len() as int) =~= Seq::<(Seq<char>, JsonSpec)>::empty());
    }
    None
}

impl View for JsonValue {
    type V = JsonSpec;

    open spec fn view(&self) -> JsonSpec {
        json_view(*self)
    }
}

impl DeepView for JsonValue {
    type V = JsonSpec;

    open spec fn deep_view(&self) -> JsonSpec {
        json_view(*self)
    }
}

/// The JSON tree that a text parses to: `None` when the text is not valid
/// JSON, or when it holds a number outside `i64`, which this client's model
/// leaves out.  What a given text parses to depends on the text alone.
pub uninterp spec fn json_parse(s: Seq<char>) -> Option<JsonSpec>;

#[verifier::external_type_specification]
#[verifier::external_body]
pub struct ExValue(serde_json::Value);

impl JsonValue {
    /// Relies on `serde_json::Value`'s public variants: rebuilds a parsed
    /// tree as a [`JsonValue`], refusing any number outside `i64`.  Support
    /// for [`parse_json`], whose contract states what the parse and this
    /// rebuild return together.
    #[verifier::external_body]
    fn from_serde(v: &serde_json::Value) -> Option<JsonValue> {
        match v {
            serde_json::Value::Null => Some(JsonValue::Null),
            serde_json::Value::Bool(b) => Some(JsonValue::Bool(*b)),
            serde_json::Value::Number(n) => n.as_i64().map(JsonValue::Int),
            serde_json::Value::String(s) => Some(JsonValue::Str(s.clone())),
            serde_json::Value::Array(a) => Some(JsonValue::Array(
                a.iter().map(Self::from_serde).collect::<Option<Vec<_>>>()?,
            )),
            serde_json::Value::Object(o) => Some(JsonValue::Object(
                o.iter().map(|(k, x)| Some((k.clone(), Self::from_serde(x)?))).collect::<Option<Vec<_>>>()?,
            )),
        }
    }
}

/// Relies on `serde_json::from_str::<serde_json::Value>`: whether a text is
/// valid JSON, and the tree it parses to, depend on the text alone.  The
/// parsed tree is rebuilt as a [`JsonValue`] by [`JsonValue::from_serde`];
/// `json_parse` names what the two steps return together.
#[verifier::external_body]
pub(crate) fn parse_json(body: &str) -> (r: Option<JsonValue>)
    ensures
        r is Some <==> json_parse(body@) is Some,
        r is Some ==> r.unwrap()@ == json_parse(body@).unwrap(),
{
    match serde_json::from_str::<serde_json::Value>(body) {
        Ok(v) => JsonValue::from_serde(&v),
        Err(_) => None,
    }
}

} // verus!
