//! Reading a request body: parsing bytes into a JSON document and reading
//! its two fields, delegated to serde_json behind one trusted wrapper.
//! What the document holds under each key is a function of the bytes
//! alone, so the parse outcome and both fields carry names that the
//! contracts downstream speak of exactly.

use vstd::prelude::*;

verus! {

/// Whether serde_json accepts these bytes as a JSON document: a function
/// of the bytes alone.
pub uninterp spec fn json_parses(bytes: Seq<u8>) -> bool;

/// The text these bytes hold under the key `name`: Some exactly when they
/// parse to an object with a string under that key.
pub uninterp spec fn doc_name(bytes: Seq<u8>) -> Option<Seq<char>>;

/// The number these bytes hold under the key `age`: Some exactly when they
/// parse to an object with a non-negative integer fitting 64 bits under
/// that key.
pub uninterp spec fn doc_age(bytes: Seq<u8>) -> Option<u64>;

/// Relies on serde_json::from_slice for a document value and on
/// Value::get, Value::as_str and Value::as_u64: whether the bytes parse,
/// which string stands under `name` and which unsigned integer under
/// `age` are each determined by the bytes alone, and none of the calls
/// can panic.
#[verifier::external_body]
pub(crate) fn read_person_fields(bytes: &[u8]) -> (r: Option<(Option<String>, Option<u64>)>)
    ensures
        r is Some <==> json_parses(bytes@),
        r matches Some((name, age)) ==> {
            &&& (name matches Some(n) ==> doc_name(bytes@) == Some(n@))
            &&& (name is None ==> doc_name(bytes@) is None)
            &&& age == doc_age(bytes@)
        },
{
    match serde_json::from_slice::<serde_json::Value>(bytes) {
        Ok(v) => {
            let name = match v.get("name") {
                Some(f) => f.as_str().map(str::to_owned),
                None => None,
            };
            let age = match v.get("age") {
                Some(f) => f.as_u64(),
                None => None,
            };
            Some((name, age))
        },
        Err(_) => None,
    }
}

} // verus!
