//! Host commands: how the outcome of one call is reported.

use vstd::prelude::*;
use crate::host::{failure_text, host_error_text, js_string, serde_error_text};

verus! {

/// Why a command call failed.
#[derive(Debug, Clone)]
pub enum UseTauriError {
    /// The host rejected the named command.
    Command(&'static str, String),
    Serialize(String),
    Deserialize(String),
}

impl UseTauriError {
    /// The text shown for this error.
    pub open spec fn spec_message(self) -> Seq<char> {
        match self {
            UseTauriError::Command(place, err) => "Command error in "@ + place@ + ": "@ + err@,
            UseTauriError::Serialize(err) => "Error serializing value: "@ + err@,
            UseTauriError::Deserialize(err) => "Error deserializing value: "@ + err@,
        }
    }

    /// Describes the error in words.
    pub fn message(&self) -> (r: String)
        ensures
            r@ == self.spec_message(),
    {
        match self {
            UseTauriError::Command(place, err) => {
                String::from_str("Command error in ").concat(place).concat(": ").concat(err.as_str())
            },
            UseTauriError::Serialize(err) => {
                String::from_str("Error serializing value: ").concat(err.as_str())
            },
            UseTauriError::Deserialize(err) => {
                String::from_str("Error deserializing value: ").concat(err.as_str())
            },
        }
    }

    /// The error for command `cmd` rejected by the host with a failure that
    /// carried `text`, or no text.
    pub fn command_failed(cmd: &'static str, text: Option<String>) -> (r: Self)
        ensures
            r matches UseTauriError::Command(place, err) && place == cmd && err@ == failure_text(
                text,
            ),
    {
        UseTauriError::Command(cmd, host_error_text(text))
    }

    /// The error for command `cmd` rejected by the host with the value `err`.
    pub fn command(cmd: &'static str, err: &wasm_bindgen::JsValue) -> (r: Self)
        ensures
            r matches UseTauriError::Command(place, _) && place == cmd,
    {
        Self::command_failed(cmd, js_string(err))
    }

    /// The error for arguments or options that could not be serialized.
    pub fn serialize(err: &serde_wasm_bindgen::Error) -> (r: Self)
        ensures
            r is Serialize,
    {
        UseTauriError::Serialize(serde_error_text(err))
    }

    /// The error for a response that could not be deserialized.
    pub fn deserialize(err: &serde_wasm_bindgen::Error) -> (r: Self)
        ensures
            r is Deserialize,
    {
        UseTauriError::Deserialize(serde_error_text(err))
    }
}

} // verus!
