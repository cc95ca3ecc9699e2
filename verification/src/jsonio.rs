use vstd::prelude::*;

use crate::jmodel::Json;

verus! {

#[verifier::external_type_specification]
#[verifier::external_body]
pub struct ExValue(serde_json::Value);

#[verifier::external_type_specification]
#[verifier::external_body]
pub struct ExNumber(serde_json::Number);

/// The JSON value that a `serde_json::Value` holds.
pub uninterp spec fn json_model(v: serde_json::Value) -> Json;

/// The canonical decimal rendering of a `serde_json::Number`.
pub uninterp spec fn num_repr(n: serde_json::Number) -> Seq<char>;

/// What `serde_json::from_str::<serde_json::Value>` returns on a given
/// text: the parsed value for text it accepts as one JSON document, nothing
/// otherwise.
pub uninterp spec fn parse_result(s: Seq<char>) -> Option<Json>;

/// What `serde_json::Value::as_i64` returns on a number value with the
/// given rendering: its value when the number is an integer that fits in
/// `i64`.
pub uninterp spec fn int_value(num: Seq<char>) -> Option<int>;

/// What `String::from_utf8_lossy` returns on the given bytes.
pub uninterp spec fn lossy_text(bytes: Seq<u8>) -> Seq<char>;

/// Relies on `serde_json::from_str::<serde_json::Value>`: the outcome is a
/// function of the input text alone; text that serde_json accepts as one
/// JSON document parses to its value, any other text (the empty text among
/// it) gives an error.
#[verifier::external_body]
pub(crate) fn parse_json(s: &str) -> (r: Result<serde_json::Value, String>)
    ensures
        r is Ok <==> parse_result(s@) is Some,
        r matches Ok(v) ==> parse_result(s@) == Some(json_model(v)),
        s@.len() == 0 ==> r is Err,
{
    serde_json::from_str::<serde_json::Value>(s).map_err(|e| e.to_string())
}

/// Relies on `String::from_utf8_lossy`: a pure function of the bytes that
/// leaves valid UTF-8 (in particular, ASCII) intact and substitutes
/// replacement characters for invalid sequences; it never fails.
#[verifier::external_body]
pub(crate) fn bytes_to_text(bytes: &Vec<u8>) -> (r: String)
    ensures
        r@ == lossy_text(bytes@),
        (forall|i: int| 0 <= i < bytes@.len() ==> bytes@[i] < 128) ==> (r@.len()
            == bytes@.len() && forall|i: int|
            0 <= i < bytes@.len() ==> r@[i] == bytes@[i] as char),
{
    String::from_utf8_lossy(bytes.as_slice()).into_owned()
}

/// Relies on `str` equality comparing character content.
#[verifier::external_body]
pub(crate) fn str_eq(a: &str, b: &str) -> (r: bool)
    ensures
        r == (a@ == b@),
{
    a == b
}

/// Relies on `serde_json::Value::get` with a string index: the value at that
/// key of an object, `None` for a missing key or a non-object.
#[verifier::external_body]
pub(crate) fn get_field<'a>(v: &'a serde_json::Value, key: &str) -> (r: Option<
    &'a serde_json::Value,
>)
    ensures
        json_model(*v) matches Json::Obj(m) ==> (match r {
            Some(f) => m.dom().contains(key@) && json_model(*f) == m[key@],
            None => !m.dom().contains(key@),
        }),
        !(json_model(*v) is Obj) ==> r is None,
{
    v.get(key)
}

/// Relies on `serde_json::Value::is_object`.
pub assume_specification[ serde_json::Value::is_object ](v: &serde_json::Value) -> (r: bool)
    ensures
        r == (json_model(*v) is Obj),
;

/// Relies on `serde_json::Value::is_null`.
pub assume_specification[ serde_json::Value::is_null ](v: &serde_json::Value) -> (r: bool)
    ensures
        r == (json_model(*v) is Null),
;

/// Relies on `serde_json::Value::as_bool`: the payload of a boolean value.
pub assume_specification[ serde_json::Value::as_bool ](v: &serde_json::Value) -> (r: Option<bool>)
    ensures
        r matches Some(b) ==> json_model(*v) == Json::Bool(b),
        r is None ==> !(json_model(*v) is Bool),
;

/// Relies on `serde_json::Value::as_str`: the content of a string value.
pub assume_specification<'a>[ serde_json::Value::as_str ](v: &'a serde_json::Value) -> (r: Option<
    &'a str,
>)
    ensures
        r matches Some(s) ==> json_model(*v) == Json::Str(s@),
        r is None ==> !(json_model(*v) is Str),
;

/// Relies on `serde_json::Value::as_number`: the payload of a numeric value.
pub assume_specification<'a>[ serde_json::Value::as_number ](v: &'a serde_json::Value) -> (r:
    Option<&'a serde_json::Number>)
    ensures
        r matches Some(n) ==> json_model(*v) == Json::Num(num_repr(*n)),
        r is None ==> !(json_model(*v) is Num),
;

/// Relies on `serde_json::Value::as_i64`: the value of an integer that is
/// representable as `i64`, `None` for any other value.
pub assume_specification[ serde_json::Value::as_i64 ](v: &serde_json::Value) -> (r: Option<i64>)
    ensures
        json_model(*v) matches Json::Num(t) ==> (match r {
            Some(x) => int_value(t) == Some(x as int),
            None => int_value(t) is None,
        }),
        !(json_model(*v) is Num) ==> r is None,
;

/// Relies on `serde_json::Value::as_array`: the elements of an array value.
pub assume_specification<'a>[ serde_json::Value::as_array ](v: &'a serde_json::Value) -> (r:
    Option<&'a Vec<serde_json::Value>>)
    ensures
        r matches Some(a) ==> json_model(*v) matches Json::Arr(elts) && a@.len() == elts.len()
            && (forall|i: int| 0 <= i < a@.len() ==> json_model(#[trigger] a@[i]) == elts[i]),
        r is None ==> !(json_model(*v) is Arr),
;

/// Relies on `serde_json::Number` being plain data: a clone is the same
/// number.
pub assume_specification[ <serde_json::Number as Clone>::clone ](n: &serde_json::Number) -> (r:
    serde_json::Number)
    ensures
        r == *n,
;

} // verus!
