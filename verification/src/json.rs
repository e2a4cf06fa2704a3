//! A structural model of the JSON values the wire envelopes carry.
//!
//! `serde_json` does the parsing behind one trusted wrapper; the parsed
//! tree is handed over as a `Json` value of the library's own, so that
//! everything that reads an envelope — which fields are required, what
//! an absent field means — is verified logic over a transparent type.

use vstd::prelude::*;

verus! {

/// A parsed JSON value. Numbers the envelopes care about are small
/// integers; any number that does not fit `i64` is kept only as
/// `OtherNumber`, which no envelope accepts. Parsed objects carry each
/// key once (a repeated key in the text keeps its last value).
pub enum Json {
    Null,
    Bool(bool),
    Int(i64),
    OtherNumber,
    Str(String),
    Arr(Vec<Json>),
    Obj(Vec<(String, Json)>),
}

/// What `serde_json` parses the text to, carried over into the library's
/// own tree: a function of the text alone. `None` when the text is not
/// valid JSON.
pub uninterp spec fn json_parse_of(s: Seq<char>) -> Option<Json>;

#[verifier::external_type_specification]
#[verifier::external_body]
pub struct ExValue(serde_json::Value);

/// Relies on `serde_json::Value`'s variants and `Number::as_i64`: carries
/// a parsed value over into the library's own tree, variant by variant.
#[verifier::external_body]
fn json_of_value(v: serde_json::Value) -> Json {
    match v {
        serde_json::Value::Null => Json::Null,
        serde_json::Value::Bool(b) => Json::Bool(b),
        serde_json::Value::Number(n) => match n.as_i64() {
            Some(i) => Json::Int(i),
            None => Json::OtherNumber,
        },
        serde_json::Value::String(s) => Json::Str(s),
        serde_json::Value::Array(items) => Json::Arr(
            items.into_iter().map(json_of_value).collect(),
        ),
        serde_json::Value::Object(fields) => Json::Obj(
            fields.into_iter().map(|(k, w)| (k, json_of_value(w))).collect(),
        ),
    }
}

/// Relies on `serde_json::from_str::<Value>`: parses JSON text, `None` on
/// text that is not valid JSON.
#[verifier::external_body]
pub(crate) fn parse_json(s: &str) -> (r: Option<Json>)
    ensures
        r matches Some(j) ==> json_parse_of(s@) == Some(j),
        r is None ==> json_parse_of(s@) is None,
{
    serde_json::from_str::<serde_json::Value>(s).ok().map(json_of_value)
}

/// First binding whose name reads as `key` among an object's fields.
/// Parsed objects carry each key once, so this is the binding.
pub open spec fn assoc(fields: Seq<(String, Json)>, key: Seq<char>) -> Option<Json>
    decreases fields.len(),
{
    if fields.len() == 0 {
        None
    } else if fields[0].0@ == key {
        Some(fields[0].1)
    } else {
        assoc(fields.drop_first(), key)
    }
}

/// The member named `key` of an object value; `None` on a missing member
/// or on any non-object.
pub open spec fn json_member(j: Json, key: Seq<char>) -> Option<Json> {
    match j {
        Json::Obj(fields) => assoc(fields@, key),
        _ => None,
    }
}

/// Looks a member up in an object value.
pub fn get_member<'a>(j: &'a Json, key: &str) -> (r: Option<&'a Json>)
    ensures
        match r {
            Some(v) => json_member(*j, key@) == Some(*v),
            None => json_member(*j, key@) is None,
        },
{
    let k: String = key.to_owned();
    match j {
        Json::Obj(fields) => {
            proof {
                assert(fields@.skip(0) =~= fields@);
                assert(json_member(*j, key@) == assoc(fields@, key@));
            }
            let mut i: usize = 0;
            while i < fields.len()
                invariant
                    i <= fields.len(),
                    k@ == key@,
                    json_member(*j, key@) == assoc(fields@, key@),
                    assoc(fields@, key@) == assoc(fields@.skip(i as int), key@),
                decreases fields.len() - i,
            {
                proof {
                    assert(fields@.skip(i as int)[0] == fields@[i as int]);
                    assert(fields@.skip(i as int).drop_first() =~= fields@.skip(i + 1 as int));
                }
                if fields[i].0 == k {
                    return Some(&fields[i].1);
                }
                i = i + 1;
            }
            proof {
                assert(fields@.skip(fields@.len() as int) =~= Seq::<(String, Json)>::empty());
            }
            None
        },
        _ => None,
    }
}

} // verus!
