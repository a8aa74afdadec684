//! What the library sees of the host boundary: the host's values and the
//! errors of the serialization layer, both opaque, and the text of a host
//! failure.

use vstd::prelude::*;

verus! {

#[verifier::external_type_specification]
#[verifier::external_body]
pub struct ExJsValue(wasm_bindgen::JsValue);

#[verifier::external_type_specification]
#[verifier::external_body]
pub struct ExSerdeError(serde_wasm_bindgen::Error);

/// Relies on `wasm_bindgen::JsValue::as_string`: the host value's text when it
/// is a string, `None` otherwise. What the host handed over decides which.
#[verifier::external_body]
pub(crate) fn js_string(v: &wasm_bindgen::JsValue) -> (r: Option<String>) {
    v.as_string()
}

/// Relies on the `Display` impl of `serde_wasm_bindgen::Error`: the error's
/// message, as the host renders it.
#[verifier::external_body]
pub(crate) fn serde_error_text(e: &serde_wasm_bindgen::Error) -> (r: String) {
    e.to_string()
}

/// The text reported for a host failure: its own text when it has one.
pub open spec fn failure_text(text: Option<String>) -> Seq<char> {
    match text {
        Some(s) => s@,
        None => "Unknown error"@,
    }
}

/// The text reported for a host failure whose value carried `text`, or no
/// text at all.
pub fn host_error_text(text: Option<String>) -> (r: String)
    ensures
        r@ == failure_text(text),
{
    match text {
        Some(s) => s,
        None => String::from_str("Unknown error"),
    }
}

} // verus!
