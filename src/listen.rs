//! Host events: their names, the scope a subscription targets, the lifecycle of
//! one listener, and the errors a subscription reports.

use vstd::prelude::*;
use crate::host::{failure_text, host_error_text, js_string, serde_error_text};

verus! {

/// Whether `c` is a letter or a digit in Unicode's sense, as
/// `char::is_alphanumeric` decides it.
pub uninterp spec fn alphanumeric(c: char) -> bool;

/// Relies on `char::is_alphanumeric`: whether the character has the Unicode
/// `Alphabetic` property or a numeric general category, which depends on the
/// character alone.
#[verifier::external_body]
fn is_alphanumeric(c: char) -> (r: bool)
    ensures
        r == alphanumeric(c),
{
    c.is_alphanumeric()
}

/// A character that may appear in a custom event name.
pub open spec fn is_name_char(c: char) -> bool {
    alphanumeric(c) || c == '-' || c == '/' || c == ':' || c == '_'
}

/// A custom event name is made of letters, digits, `-`, `/`, `:` and `_` only.
pub open spec fn is_event_name(s: Seq<char>) -> bool {
    forall|i: int| 0 <= i < s.len() ==> is_name_char(#[trigger] s[i])
}

/// Tells whether `name` may be used as a custom event name.
pub fn is_valid_event_name(name: &str) -> (r: bool)
    ensures
        r == is_event_name(name@),
{
    let n = name.unicode_len();
    let mut i: usize = 0;
    while i < n
        invariant
            n == name@.len(),
            i <= n,
            forall|j: int| 0 <= j < i ==> is_name_char(#[trigger] name@[j]),
        decreases n - i,
    {
        let c = name.get_char(i);
        if !(is_alphanumeric(c) || c == '-' || c == '/' || c == ':' || c == '_') {
            return false;
        }
        i += 1;
    }
    true
}

/// The events a front-end can subscribe to: the host's built-in window,
/// webview and drag-and-drop events, or one of the application's own.
#[derive(Debug, Clone, Copy, PartialEq, Eq)]
pub enum EventType {
    WindowResized,
    WindowMoved,
    WindowCloseRequested,
    WindowDestroyed,
    WindowFocus,
    WindowBlur,
    WindowScaleFactorChanged,
    WindowThemeChanged,
    WindowCreated,
    WebViewCreated,
    DragEnter,
    DragOver,
    DragDrop,
    DragLeave,
    Custom(&'static str),
}

impl EventType {
    /// The name under which the host emits this event.
    pub open spec fn spec_name(self) -> Seq<char> {
        match self {
            EventType::WindowResized => "tauri://resize"@,
            EventType::WindowMoved => "tauri://move"@,
            EventType::WindowCloseRequested => "tauri://close-requested"@,
            EventType::WindowDestroyed => "tauri://destroyed"@,
            EventType::WindowFocus => "tauri://focus"@,
            EventType::WindowBlur => "tauri://blur"@,
            EventType::WindowScaleFactorChanged => "tauri://scale-change"@,
            EventType::WindowThemeChanged => "tauri://theme-changed"@,
            EventType::WindowCreated => "tauri://window-created"@,
            EventType::WebViewCreated => "tauri://webview-created"@,
            EventType::DragEnter => "tauri://drag-enter"@,
            EventType::DragOver => "tauri://drag-over"@,
            EventType::DragDrop => "tauri://drag-drop"@,
            EventType::DragLeave => "tauri://drag-leave"@,
            EventType::Custom(s) => s@,
        }
    }

    /// Built-in events always have a name; a custom one only when it is
    /// made of the characters an event name allows.
    pub open spec fn is_valid(self) -> bool {
        match self {
            EventType::Custom(s) => is_event_name(s@),
            _ => true,
        }
    }

    /// The event's name, for an event whose name is valid.
    pub fn as_str(&self) -> (r: &'static str)
        requires
            self.is_valid(),
        ensures
            r@ == self.spec_name(),
    {
        match self {
            EventType::WindowResized => "tauri://resize",
            EventType::WindowMoved => "tauri://move",
            EventType::WindowCloseRequested => "tauri://close-requested",
            EventType::WindowDestroyed => "tauri://destroyed",
            EventType::WindowFocus => "tauri://focus",
            EventType::WindowBlur => "tauri://blur",
            EventType::WindowScaleFactorChanged => "tauri://scale-change",
            EventType::WindowThemeChanged => "tauri://theme-changed",
            EventType::WindowCreated => "tauri://window-created",
            EventType::WebViewCreated => "tauri://webview-created",
            EventType::DragEnter => "tauri://drag-enter",
            EventType::DragOver => "tauri://drag-over",
            EventType::DragDrop => "tauri://drag-drop",
            EventType::DragLeave => "tauri://drag-leave",
            EventType::Custom(s) => *s,
        }
    }

    /// The event's name, or `None` for a custom event whose name holds a
    /// character that event names do not allow.
    pub fn checked_name(&self) -> (r: Option<&'static str>)
        ensures
            self.is_valid() ==> r is Some && r->0@ == self.spec_name(),
            !self.is_valid() ==> r is None,
    {
        let valid = match self {
            EventType::Custom(s) => is_valid_event_name(s),
            _ => true,
        };
        if valid {
            Some(self.as_str())
        } else {
            None
        }
    }
}

/// The scope of windows and webviews whose events a subscription receives.
#[derive(Debug, Clone, Copy, PartialEq, Eq)]
#[non_exhaustive]
pub enum EventTarget {
    Any,
    AnyLabel(&'static str),
    App,
    Window(&'static str),
    Webview(&'static str),
    WebviewWindow(&'static str),
}

impl Default for EventTarget {
    /// A subscription listens to events from any target unless told otherwise.
    fn default() -> (r: Self)
        ensures
            r == EventTarget::Any,
    {
        EventTarget::Any
    }
}

/// The lifecycle of one event listener.
///
/// `unlisten` holds the host's handle that ends the subscription while one is
/// active. `closed` records that the listener was closed: a start that is
/// still pending is then abandoned, and a subscription that the host starts
/// afterwards is ended at once, until the listener is opened again.
pub struct Listener<H> {
    pub unlisten: Option<H>,
    pub closed: bool,
}

impl<H> Listener<H> {
    /// A listener that has not subscribed yet and was never closed.
    pub fn new() -> (r: Self)
        ensures
            r.unlisten is None,
            !r.closed,
    {
        Listener { unlisten: None, closed: false }
    }

    /// Whether a subscription is active.
    pub fn is_listening(&self) -> (r: bool)
        ensures
            r == self.unlisten is Some,
    {
        self.unlisten.is_some()
    }

    /// Whether starting a subscription should go ahead: not after an explicit
    /// close.
    pub fn should_subscribe(&self) -> (r: bool)
        ensures
            r == !self.closed,
    {
        !self.closed
    }

    /// Closes the listener. Hands back the active subscription's handle, if
    /// any, which the caller must call to end it. The listener counts as closed
    /// either way, so that a subscription still starting is ended when the host
    /// answers.
    pub fn close(&mut self) -> (released: Option<H>)
        ensures
            released == old(self).unlisten,
            final(self).unlisten is None,
            final(self).closed,
    {
        let released = self.unlisten.take();
        self.closed = true;
        released
    }

    /// Opens the listener again: closes what is active, handing back its
    /// handle, and clears the explicit close so that a new subscription goes
    /// ahead.
    pub fn open(&mut self) -> (released: Option<H>)
        ensures
            released == old(self).unlisten,
            final(self).unlisten is None,
            !final(self).closed,
    {
        let released = self.close();
        self.closed = false;
        released
    }

    /// Takes the handle of a subscription that the host has started, and hands
    /// back the handle the caller must call to end a subscription that is no
    /// longer wanted: the new one when the listener was closed meanwhile,
    /// else the one it replaces, if any.
    pub fn subscribed(&mut self, handle: H) -> (release: Option<H>)
        ensures
            old(self).closed ==> release == Some(handle) && final(self).unlisten == old(
                self,
            ).unlisten,
            !old(self).closed ==> release == old(self).unlisten && final(self).unlisten == Some(
                handle,
            ),
            final(self).closed == old(self).closed,
    {
        if self.closed {
            Some(handle)
        } else {
            let replaced = self.unlisten.take();
            self.unlisten = Some(handle);
            replaced
        }
    }
}

/// Why a subscription failed or an event could not be read.
#[derive(Debug, Clone)]
pub enum UseListenError {
    /// The host refused to subscribe to the named event.
    Event(&'static str, String),
    Serialize(String),
    Deserialize(String),
}

impl UseListenError {
    /// The text shown for this error.
    pub open spec fn spec_message(self) -> Seq<char> {
        match self {
            UseListenError::Event(place, err) => "Event error in "@ + place@ + ": "@ + err@,
            UseListenError::Serialize(err) => "Error serializing value: "@ + err@,
            UseListenError::Deserialize(err) => "Error deserializing value: "@ + err@,
        }
    }

    /// Describes the error in words.
    pub fn message(&self) -> (r: String)
        ensures
            r@ == self.spec_message(),
    {
        match self {
            UseListenError::Event(place, err) => {
                String::from_str("Event error in ").concat(place).concat(": ").concat(err.as_str())
            },
            UseListenError::Serialize(err) => {
                String::from_str("Error serializing value: ").concat(err.as_str())
            },
            UseListenError::Deserialize(err) => {
                String::from_str("Error deserializing value: ").concat(err.as_str())
            },
        }
    }

    /// The error for a subscription to `event` refused by the host with a
    /// failure that carried `text`, or no text.
    pub fn event_failed(event: &'static str, text: Option<String>) -> (r: Self)
        ensures
            r matches UseListenError::Event(place, err) && place == event && err@ == failure_text(
                text,
            ),
    {
        UseListenError::Event(event, host_error_text(text))
    }

    /// The error for a subscription to `event` refused by the host with the
    /// value `err`.
    pub fn event(event: &'static str, err: &wasm_bindgen::JsValue) -> (r: Self)
        ensures
            r matches UseListenError::Event(place, _) && place == event,
    {
        Self::event_failed(event, js_string(err))
    }

    /// The error for a target that could not be serialized.
    pub fn serialize(err: &serde_wasm_bindgen::Error) -> (r: Self)
        ensures
            r is Serialize,
    {
        UseListenError::Serialize(serde_error_text(err))
    }

    /// The error for an event whose payload could not be deserialized.
    pub fn deserialize(err: &serde_wasm_bindgen::Error) -> (r: Self)
        ensures
            r is Deserialize,
    {
        UseListenError::Deserialize(serde_error_text(err))
    }
}

} // verus!
