//! A plain model of a JSON document, and the call that parses one.

use vstd::prelude::*;
use vstd::string::*;

verus! {

/// A JSON value, held as plain data.
#[derive(Debug)]
pub enum Json {
    Null,
    Bool(bool),
    /// A number: its value as a signed 64-bit integer, where it is an integer
    /// in that range, and the bit pattern of its value as an IEEE-754 double.
    Number(Option<i64>, Option<u64>),
    Text(String),
    Array(Vec<Json>),
    /// The members of an object, as pairs of key and value.
    Object(Vec<(String, Json)>),
}

/// The value that `key` has among `members`: that of the last member with this
/// key, as in a JSON text a later member replaces an earlier one.
pub open spec fn member_of(members: Seq<(String, Json)>, key: Seq<char>) -> Option<Json>
    decreases members.len(),
{
    if members.len() == 0 {
        None
    } else if members.last().0@ == key {
        Some(members.last().1)
    } else {
        member_of(members.drop_last(), key)
    }
}

/// Looks up `key` among the members of an object.
pub fn member<'a>(members: &'a Vec<(String, Json)>, key: &str) -> (found: Option<&'a Json>)
    ensures
        match found {
            Some(value) => member_of(members@, key@) == Some(*value),
            None => member_of(members@, key@) is None,
        },
{
    let wanted = String::from_str(key);
    let mut i: usize = members.len();
    assert(members@.take(i as int) =~= members@);
    while i > 0
        invariant
            i <= members.len(),
            wanted@ == key@,
            member_of(members@, key@) == member_of(members@.take(i as int), key@),
        decreases i,
    {
        i = i - 1;
        if members[i].0 == wanted {
            return Some(&members[i].1);
        }
        assert(members@.take(i + 1).drop_last() =~= members@.take(i as int));
    }
    None
}

/// `serde_json::Value`, of which nothing is assumed: it only passes from the
/// parser to the copy below.
#[verifier::external_type_specification]
#[verifier::external_body]
pub struct ExValue(serde_json::Value);

/// What `serde_json::from_slice` makes of `text` when asked for a
/// `serde_json::Value`: the document, or `None` where `text` is not one.
pub uninterp spec fn parsed_json(text: Seq<u8>) -> Option<Json>;

/// Copies a `serde_json::Value` into the model, variant by variant, members and
/// items in the order in which `serde_json` hands them out. A number carries
/// what `Number::as_i64` and `Number::as_f64` return for it. Nothing is
/// claimed of the copy here; `parse_json` names the result of both steps.
#[verifier::external_body]
fn json_of(value: &serde_json::Value) -> Json {
    match value {
        serde_json::Value::Null => Json::Null,
        serde_json::Value::Bool(b) => Json::Bool(*b),
        serde_json::Value::Number(n) => Json::Number(n.as_i64(), n.as_f64().map(|x| x.to_bits())),
        serde_json::Value::String(s) => Json::Text(s.clone()),
        serde_json::Value::Array(items) => Json::Array(items.iter().map(json_of).collect()),
        serde_json::Value::Object(map) => Json::Object(
            map.iter().map(|(k, v)| (k.clone(), json_of(v))).collect(),
        ),
    }
}

/// Calls `serde_json::from_slice` for a `serde_json::Value`. The result is a
/// function of the bytes alone; `None` stands for every parse error.
#[verifier::external_body]
pub(crate) fn parse_json(text: &[u8]) -> (parsed: Option<Json>)
    ensures
        parsed == parsed_json(text@),
{
    serde_json::from_slice::<serde_json::Value>(text).ok().map(|value| json_of(&value))
}

} // verus!
