//! Host dialogs: their options, what they return, and the bookkeeping that
//! hands a caller's value back once a dialog is answered.

use vstd::prelude::*;

verus! {

/// What an open dialog returns: several paths when it allows picking many,
/// else one.
#[derive(Clone)]
pub enum OpenDialogReturn {
    Files(Vec<String>),
    File(String),
}

/// The icon and tone of a message dialog.
#[derive(Clone, Copy, Debug, PartialEq, Eq)]
pub enum MessageDialogKind {
    Info,
    Warning,
    Error,
}

impl Default for MessageDialogKind {
    /// A message dialog is informative unless told otherwise.
    fn default() -> (r: Self)
        ensures
            r == MessageDialogKind::Info,
    {
        MessageDialogKind::Info
    }
}

/// Options of a dialog that asks the user to confirm or cancel.
#[derive(Clone)]
pub struct ConfirmDialogOpions {
    pub message: String,
    pub title: Option<&'static str>,
    pub kind: Option<MessageDialogKind>,
    pub ok_label: Option<&'static str>,
    pub cancel_label: Option<&'static str>,
}

impl ConfirmDialogOpions {
    /// Options that show `msg` and leave everything else to the host.
    pub fn new(msg: &str) -> (r: Self)
        ensures
            r.message@ == msg@,
            r.title is None,
            r.kind is None,
            r.ok_label is None,
            r.cancel_label is None,
    {
        ConfirmDialogOpions {
            message: String::from_str(msg),
            title: None,
            kind: None,
            ok_label: None,
            cancel_label: None,
        }
    }
}

impl Default for ConfirmDialogOpions {
    /// Options with an empty message that leave everything else to the host.
    fn default() -> (r: Self)
        ensures
            r.message@ == Seq::<char>::empty(),
            r.title is None,
            r.kind is None,
            r.ok_label is None,
            r.cancel_label is None,
    {
        proof {
            reveal_strlit("");
        }
        ConfirmDialogOpions::new("")
    }
}

/// Options of a dialog that shows a message with a single button.
#[derive(Clone)]
pub struct MessageDialogOpions {
    pub message: String,
    pub title: Option<&'static str>,
    pub kind: Option<MessageDialogKind>,
    pub ok_label: Option<&'static str>,
}

impl MessageDialogOpions {
    /// Options that show `msg` and leave everything else to the host.
    pub fn new(msg: &str) -> (r: Self)
        ensures
            r.message@ == msg@,
            r.title is None,
            r.kind is None,
            r.ok_label is None,
    {
        MessageDialogOpions { message: String::from_str(msg), title: None, kind: None, ok_label: None }
    }
}

impl Default for MessageDialogOpions {
    /// Options with an empty message that leave everything else to the host.
    fn default() -> (r: Self)
        ensures
            r.message@ == Seq::<char>::empty(),
            r.title is None,
            r.kind is None,
            r.ok_label is None,
    {
        proof {
            reveal_strlit("");
        }
        MessageDialogOpions::new("")
    }
}

/// A named group of file extensions that a file dialog offers.
#[derive(Clone, Default)]
pub struct DialogFilter {
    pub name: String,
    pub extensions: Vec<String>,
}

/// Options of a dialog that picks files or directories to open.
#[derive(Clone, Default)]
pub struct OpenDialogOptions {
    pub title: Option<String>,
    pub filters: Vec<DialogFilter>,
    pub multiple: bool,
    pub directory: bool,
    pub default_path: Option<std::path::PathBuf>,
    pub recursive: bool,
    pub can_create_directories: bool,
}

/// Options of a dialog that picks a path to save to.
#[derive(Clone, Default)]
pub struct SaveDialogOptions {
    pub title: Option<String>,
    pub filters: Vec<DialogFilter>,
    pub default_path: Option<std::path::PathBuf>,
    pub can_create_directories: bool,
}

/// The caller's value that waits on an open question dialog.
///
/// A caller asks with a value of its own; when the user confirms, the value is
/// handed back, and when the user declines or the dialog fails, it is dropped.
/// Either way the dialog is then settled.
pub struct DialogState<T> {
    pub pending: Option<T>,
}

impl<T> DialogState<T> {
    /// No question is waiting.
    pub fn new() -> (r: Self)
        ensures
            r.pending is None,
    {
        DialogState { pending: None }
    }

    /// A question is asked on behalf of `value`; it replaces any question that
    /// was still waiting.
    pub fn request(&mut self, value: T)
        ensures
            final(self).pending == Some(value),
    {
        self.pending = Some(value);
    }

    /// Whether a question is waiting for its answer.
    pub fn is_pending(&self) -> (r: bool)
        ensures
            r == self.pending is Some,
    {
        self.pending.is_some()
    }

    /// The user answered: the waiting value is handed back when `confirmed`,
    /// and nothing when not. The question is settled.
    pub fn answered(&mut self, confirmed: bool) -> (r: Option<T>)
        ensures
            final(self).pending is None,
            r == (if confirmed {
                old(self).pending
            } else {
                None
            }),
    {
        let waiting = self.pending.take();
        if confirmed {
            waiting
        } else {
            None
        }
    }

    /// The dialog failed: the waiting value is dropped and the question is
    /// settled.
    pub fn failed(&mut self)
        ensures
            final(self).pending is None,
    {
        self.pending = None;
    }
}

} // verus!
