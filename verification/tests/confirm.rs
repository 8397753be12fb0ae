use wezterm_core::confirm::{
    confirm_close, question_arguments, result_confirms_close, AskOutcome, CloseConfirmation,
    DialogResult, CANCEL_BUTTON, CLOSE_BUTTON, CLOSE_PANE_TITLE, CLOSE_TAB_DESCRIPTION,
    CLOSE_WINDOW_TITLE, QUIT_BUTTON, ZENITY_CANCEL_EXIT_CODE,
};

#[test]
fn close_scopes_have_specific_copy() {
    assert_eq!(CloseConfirmation::Pane.title(), CLOSE_PANE_TITLE);
    assert_eq!(CloseConfirmation::Tab.description(), CLOSE_TAB_DESCRIPTION);
    assert_eq!(CloseConfirmation::Window.title(), CLOSE_WINDOW_TITLE);
    assert_eq!(CloseConfirmation::Application.accept_button(), QUIT_BUTTON);
}

#[test]
fn only_the_accept_button_confirms_close() {
    assert!(result_confirms_close(
        CloseConfirmation::Window,
        DialogResult::Custom(CLOSE_BUTTON.to_string())
    ));
    assert!(result_confirms_close(
        CloseConfirmation::Application,
        DialogResult::Accept
    ));
    assert!(!result_confirms_close(
        CloseConfirmation::Window,
        DialogResult::Custom(CANCEL_BUTTON.to_string())
    ));
    assert!(!result_confirms_close(
        CloseConfirmation::Window,
        DialogResult::Cancel
    ));
}

#[test]
fn close_copy_is_spelled_out() {
    assert_eq!(CloseConfirmation::Pane.title(), "Close this terminal pane?");
    assert_eq!(
        CloseConfirmation::Pane.description(),
        "A process is still running in this pane. Closing the pane will terminate the process."
    );
    assert_eq!(CloseConfirmation::Tab.title(), "Close this terminal tab?");
    assert_eq!(
        CloseConfirmation::Window.description(),
        "One or more processes are still running in this terminal. Closing the terminal will terminate them."
    );
    assert_eq!(CloseConfirmation::Application.title(), "Quit WezTerm?");
    assert_eq!(
        CloseConfirmation::Application.description(),
        "One or more terminal processes may still be running. Quitting WezTerm will terminate them."
    );
    assert_eq!(CloseConfirmation::Pane.accept_button(), "Close Terminal");
    assert_eq!(CloseConfirmation::Tab.accept_button(), "Close Terminal");
    assert_eq!(CloseConfirmation::Window.accept_button(), "Close Terminal");
}

#[test]
fn other_buttons_do_not_close() {
    for scope in [
        CloseConfirmation::Pane,
        CloseConfirmation::Tab,
        CloseConfirmation::Window,
        CloseConfirmation::Application,
    ] {
        assert!(!result_confirms_close(scope, DialogResult::Yes));
        assert!(!result_confirms_close(scope, DialogResult::No));
        assert!(!result_confirms_close(scope, DialogResult::Cancel));
        assert!(!result_confirms_close(scope, DialogResult::Custom(String::new())));
        assert!(result_confirms_close(
            scope,
            DialogResult::Custom(scope.accept_button().to_string())
        ));
    }
    assert!(!result_confirms_close(
        CloseConfirmation::Application,
        DialogResult::Custom(CLOSE_BUTTON.to_string())
    ));
}

#[test]
fn questions_are_asked_in_their_own_words() {
    let all = [
        CloseConfirmation::Pane,
        CloseConfirmation::Tab,
        CloseConfirmation::Window,
        CloseConfirmation::Application,
    ];
    for (i, a) in all.iter().enumerate() {
        for b in all.iter().skip(i + 1) {
            assert_ne!(a.title(), b.title());
            assert_ne!(a.description(), b.description());
        }
    }
}

#[test]
fn the_question_is_put_as_arguments() {
    assert_eq!(
        question_arguments(CloseConfirmation::Tab),
        vec![
            "--no-markup",
            "--question",
            "--title",
            "Close this terminal tab?",
            "--text",
            "One or more processes are still running in this tab. Closing the tab will terminate them.",
            "--ok-label",
            "Close Terminal",
            "--cancel-label",
            "Cancel",
        ]
    );
}

#[test]
fn only_success_is_a_yes() {
    let yes = confirm_close(AskOutcome::Exited(0));
    assert!(yes.confirmed && !yes.faulty);
    let no = confirm_close(AskOutcome::Exited(ZENITY_CANCEL_EXIT_CODE));
    assert!(!no.confirmed && !no.faulty);
    for outcome in [
        AskOutcome::NotStarted,
        AskOutcome::NotAwaited,
        AskOutcome::NoCode,
        AskOutcome::Exited(2),
        AskOutcome::Exited(-1),
    ] {
        let fault = confirm_close(outcome);
        assert!(!fault.confirmed && fault.faulty);
    }
}
