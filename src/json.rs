//! The JSON values that frames are made of, as serde_json provides them.
//!
//! A `serde_json::Value` is opaque here: what the library needs to know of
//! one is given by the names below, each the result of one serde_json call.
use vstd::prelude::*;

verus! {

#[verifier::external_type_specification]
#[verifier::external_body]
pub struct ExValue(serde_json::Value);

#[verifier::external_type_specification]
#[verifier::external_body]
pub struct ExError(serde_json::Error);

/// The bytes that `serde_json::to_vec` writes for a value, or `None` where
/// it reports an error.
pub uninterp spec fn json_encoding(v: serde_json::Value) -> Option<Seq<u8>>;

/// The value that `serde_json::from_str` decodes from a text, or `None` where
/// the text is not a JSON document.
pub uninterp spec fn json_decoding(s: Seq<char>) -> Option<serde_json::Value>;

/// What `Value::get` finds under a key: the field of an object, or `None`
/// where the value is no object or has no such field.
pub uninterp spec fn json_field(v: serde_json::Value, key: Seq<char>) -> Option<serde_json::Value>;

/// Whether a value is a JSON object.
pub uninterp spec fn json_is_object(v: serde_json::Value) -> bool;

/// Whether a value is JSON `null`.
pub uninterp spec fn json_is_null(v: serde_json::Value) -> bool;

/// The JSON number that `Value::from` makes of an unsigned integer.
pub uninterp spec fn json_of_u64(n: u64) -> serde_json::Value;

/// The value that assigning `field` under `key` makes of `v`.
pub uninterp spec fn json_with_field(v: serde_json::Value, key: Seq<char>, field: serde_json::Value) -> serde_json::Value;

/// Relies on serde_json::to_vec: the compact JSON text of the value, as
/// bytes, or the serializer's error.
#[verifier::external_body]
pub(crate) fn encode_value(v: &serde_json::Value) -> (r: Result<Vec<u8>, serde_json::Error>)
    ensures
        match r {
            Ok(bytes) => json_encoding(*v) == Some(bytes@),
            Err(_) => json_encoding(*v) is None,
        },
{
    serde_json::to_vec(v)
}

/// Relies on serde_json::from_str, at `Value`: the document that the text
/// holds, or the parser's error.
#[verifier::external_body]
pub(crate) fn decode_value(s: &str) -> (r: Result<serde_json::Value, serde_json::Error>)
    ensures
        match r {
            Ok(v) => json_decoding(s@) == Some(v),
            Err(_) => json_decoding(s@) is None,
        },
{
    serde_json::from_str::<serde_json::Value>(s)
}

/// Relies on serde_json::Value::get with a string key: whether the value is
/// an object that holds the key.
#[verifier::external_body]
pub(crate) fn has_field(v: &serde_json::Value, key: &str) -> (r: bool)
    ensures
        r == json_field(*v, key@) is Some,
{
    v.get(key).is_some()
}

/// Relies on serde_json::Value::is_object.
pub assume_specification[ serde_json::Value::is_object ](v: &serde_json::Value) -> (r: bool)
    ensures
        r == json_is_object(*v),
;

/// Relies on serde_json::Value::is_null.
pub assume_specification[ serde_json::Value::is_null ](v: &serde_json::Value) -> (r: bool)
    ensures
        r == json_is_null(*v),
;

/// Relies on `From<u64> for serde_json::Value`: a JSON number.
#[verifier::external_body]
pub(crate) fn number_value(n: u64) -> (r: serde_json::Value)
    ensures
        r == json_of_u64(n),
{
    serde_json::Value::from(n)
}

/// Relies on `IndexMut<&str> for serde_json::Value`, assigning to the
/// result: `null` first becomes an empty object, and an object then holds
/// `field` under `key`, in place of any earlier field of that key. It panics
/// on any other value, which `requires` leaves out.
#[verifier::external_body]
pub(crate) fn set_field(v: &mut serde_json::Value, key: &str, field: serde_json::Value)
    requires
        json_is_object(*old(v)) || json_is_null(*old(v)),
    ensures
        *final(v) == json_with_field(*old(v), key@, field),
        json_is_object(*final(v)),
        json_field(*final(v), key@) == Some(field),
{
    v[key] = field;
}

} // verus!
