use tauri_signals::{
    host_error_text, ConfirmDialogOpions, DialogState, MessageDialogKind, MessageDialogOpions,
    UseTauriError,
};

#[test]
fn command_error_messages() {
    let e = UseTauriError::Command("plugin:fs|size", "missing".to_string());
    assert_eq!(e.message(), "Command error in plugin:fs|size: missing");
    let e = UseTauriError::Serialize("cycle".to_string());
    assert_eq!(e.message(), "Error serializing value: cycle");
    let e = UseTauriError::Deserialize("not a number".to_string());
    assert_eq!(e.message(), "Error deserializing value: not a number");
}

#[test]
fn command_error_from_host_failure() {
    match UseTauriError::command_failed("plugin:dialog|ask", Some("closed".to_string())) {
        UseTauriError::Command(place, text) => {
            assert_eq!(place, "plugin:dialog|ask");
            assert_eq!(text, "closed");
        }
        other => panic!("unexpected {:?}", other),
    }
    match UseTauriError::command_failed("plugin:dialog|ask", None) {
        UseTauriError::Command(place, text) => {
            assert_eq!(place, "plugin:dialog|ask");
            assert_eq!(text, "Unknown error");
        }
        other => panic!("unexpected {:?}", other),
    }
}

#[test]
fn host_error_text_falls_back() {
    assert_eq!(host_error_text(None), "Unknown error");
    assert_eq!(host_error_text(Some("boom".to_string())), "boom");
    assert_eq!(host_error_text(Some(String::new())), "");
}

#[test]
fn confirm_options_from_message() {
    let o = ConfirmDialogOpions::new("Delete the file?");
    assert_eq!(o.message, "Delete the file?");
    assert!(o.title.is_none());
    assert!(o.kind.is_none());
    assert!(o.ok_label.is_none());
    assert!(o.cancel_label.is_none());
    let d = ConfirmDialogOpions::default();
    assert_eq!(d.message, "");
    assert!(d.title.is_none() && d.kind.is_none() && d.ok_label.is_none() && d.cancel_label.is_none());
}

#[test]
fn message_options_from_message() {
    let o = MessageDialogOpions::new("Saved");
    assert_eq!(o.message, "Saved");
    assert!(o.title.is_none());
    assert!(o.kind.is_none());
    assert!(o.ok_label.is_none());
    let d = MessageDialogOpions::default();
    assert_eq!(d.message, "");
    assert!(d.title.is_none() && d.kind.is_none() && d.ok_label.is_none());
}

#[test]
fn message_kind_defaults_to_info() {
    assert_eq!(MessageDialogKind::default(), MessageDialogKind::Info);
}

#[test]
fn confirmed_dialog_hands_value_back() {
    let mut state: DialogState<&str> = DialogState::new();
    assert!(!state.is_pending());
    state.request("row 4");
    assert!(state.is_pending());
    assert_eq!(state.answered(true), Some("row 4"));
    assert!(!state.is_pending());
}

#[test]
fn declined_dialog_drops_value() {
    let mut state: DialogState<u8> = DialogState::new();
    state.request(9);
    assert_eq!(state.answered(false), None);
    assert!(!state.is_pending());
}

#[test]
fn answer_without_question_hands_nothing() {
    let mut state: DialogState<u8> = DialogState::new();
    assert_eq!(state.answered(true), None);
}

#[test]
fn later_request_replaces_waiting_one() {
    let mut state: DialogState<u8> = DialogState::new();
    state.request(1);
    state.request(2);
    assert_eq!(state.answered(true), Some(2));
}

#[test]
fn failed_dialog_drops_value() {
    let mut state: DialogState<u8> = DialogState::new();
    state.request(5);
    state.failed();
    assert!(!state.is_pending());
    assert_eq!(state.answered(true), None);
}
