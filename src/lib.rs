//! Signal-friendly bindings for invoking host commands and listening to host
//! events from a WebView front-end.
//!
//! The decisions that the bindings take (which event name a subscription uses,
//! how a listener is opened and closed, what a dialog hands back, how host
//! failures are reported) are stated and proved here; the reactive plumbing
//! that drives them lives with the application.

pub mod dialog;
pub mod fs;
pub mod host;
pub mod invoke;
pub mod listen;

pub use dialog::{
    ConfirmDialogOpions, DialogFilter, DialogState, MessageDialogKind, MessageDialogOpions,
    OpenDialogOptions, OpenDialogReturn, SaveDialogOptions,
};
pub use fs::ExistsOptions;
pub use host::host_error_text;
pub use invoke::UseTauriError;
pub use listen::{is_valid_event_name, EventTarget, EventType, Listener, UseListenError};
