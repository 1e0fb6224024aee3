use vstd::prelude::*;

verus! {

/// A JSON value as the request handling sees it.
///
/// Numbers are kept as their JSON text, so that any number survives unchanged.
#[derive(Debug)]
pub enum JsonValue {
    Null,
    Bool(bool),
    Number(String),
    String(String),
    Array(Vec<JsonValue>),
    Object(Vec<(String, JsonValue)>),
}

impl JsonValue {
    /// Whether the value is a JSON array.
    pub fn is_array(&self) -> (r: bool)
        ensures
            r == (self is Array),
    {
        match self {
            JsonValue::Array(_) => true,
            _ => false,
        }
    }

    /// Whether the value is an object with no members.
    pub fn is_empty_object(&self) -> (r: bool)
        ensures
            r == is_empty_object(*self),
    {
        match self {
            JsonValue::Object(members) => members.len() == 0,
            _ => false,
        }
    }
}

/// `v` is `{}`.
pub open spec fn is_empty_object(v: JsonValue) -> bool {
    match v {
        JsonValue::Object(members) => members@.len() == 0,
        _ => false,
    }
}

/// The requests a message holds: the elements of an array, or the message itself.
pub open spec fn batch_of(v: JsonValue) -> Seq<JsonValue> {
    match v {
        JsonValue::Array(items) => items@,
        _ => seq![v],
    }
}

/// Splits a message into the requests it holds: an array is a batch of requests,
/// any other value is a single request.
pub fn split_batch(v: JsonValue) -> (r: Vec<JsonValue>)
    ensures
        r@ == batch_of(v),
{
    match v {
        JsonValue::Array(items) => items,
        other => {
            let ghost g = other;
            let mut r = Vec::new();
            r.push(other);
            assert(r@ =~= seq![g]);
            r
        },
    }
}

/// A message that is an array is a batch of exactly its elements, whatever their
/// number (one included); any other message is a batch of itself alone.
pub proof fn law_batch_is_the_array_elements(v: JsonValue)
    ensures
        v matches JsonValue::Array(items) ==> batch_of(v) == items@,
        v matches JsonValue::Array(items) ==> batch_of(v).len() == items@.len(),
        !(v is Array) ==> batch_of(v) == seq![v],
{
}

} // verus!
