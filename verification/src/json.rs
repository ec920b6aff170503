//! JSON values carried as workflow arguments.
//!
//! The codec never looks inside an argument; a value is only carried along and,
//! for a query, rendered as text.

use vstd::prelude::*;

verus! {

/// `serde_json::Value`, treated as opaque.
#[verifier::external_type_specification]
#[verifier::external_body]
pub struct ExJsonValue(serde_json::Value);

/// The compact JSON text of a value, as `serde_json` prints it.
pub uninterp spec fn json_text(value: serde_json::Value) -> Seq<char>;

/// Renders `value` through the `Display` impl of `serde_json::Value`, which
/// serialises it in the compact form. The text depends on the value alone and
/// is named by [`json_text`]; nothing else is claimed about it.
#[verifier::external_body]
pub(crate) fn render_json(value: &serde_json::Value) -> (r: String)
    ensures
        r@ == json_text(*value),
{
    value.to_string()
}

/// `serde_json::Error`, treated as opaque.
#[verifier::external_type_specification]
#[verifier::external_body]
pub struct ExJsonError(serde_json::Error);

/// The JSON value that `serde_json` makes of a list of bytes, `None` where it
/// makes none.
pub uninterp spec fn json_of_bytes(data: Seq<u8>) -> Option<serde_json::Value>;

/// Turns a list of bytes into a JSON value with `serde_json::to_value`. Whether
/// it succeeds and what it gives depend on the bytes alone and are named by
/// [`json_of_bytes`]; nothing else is claimed.
#[verifier::external_body]
pub(crate) fn bytes_to_json(data: &Vec<u8>) -> (r: Result<serde_json::Value, serde_json::Error>)
    ensures
        match r {
            Ok(value) => json_of_bytes(data@) == Some(value),
            Err(_) => json_of_bytes(data@) is None,
        },
{
    serde_json::to_value(data)
}

} // verus!
