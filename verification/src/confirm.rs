//! Asking before something is closed: what the question says, and which answers
//! mean yes.

use vstd::prelude::*;
use crate::text;
use crate::text::same_text;

verus! {

pub const CLOSE_PANE_TITLE: &'static str = "Close this terminal pane?";

pub const CLOSE_PANE_DESCRIPTION: &'static str =
    "A process is still running in this pane. Closing the pane will terminate the process.";

pub const CLOSE_TAB_TITLE: &'static str = "Close this terminal tab?";

pub const CLOSE_TAB_DESCRIPTION: &'static str =
    "One or more processes are still running in this tab. Closing the tab will terminate them.";

pub const CLOSE_WINDOW_TITLE: &'static str = "Close this terminal?";

pub const CLOSE_WINDOW_DESCRIPTION: &'static str =
    "One or more processes are still running in this terminal. Closing the terminal will terminate them.";

pub const QUIT_TITLE: &'static str = "Quit WezTerm?";

pub const QUIT_DESCRIPTION: &'static str =
    "One or more terminal processes may still be running. Quitting WezTerm will terminate them.";

pub const CLOSE_BUTTON: &'static str = "Close Terminal";

pub const QUIT_BUTTON: &'static str = "Quit WezTerm";

pub const CANCEL_BUTTON: &'static str = "Cancel";

/// The program that asks the question where the desktop has no dialog of its
/// own.
pub const ZENITY_PROGRAM: &'static str = "zenity";

/// The exit code of that program for a question that was answered with no.
pub const ZENITY_CANCEL_EXIT_CODE: i32 = 1;

/// What is about to be closed.
#[derive(Clone, Copy, Debug, PartialEq, Eq, Structural)]
pub enum CloseConfirmation {
    Pane,
    Tab,
    Window,
    Application,
}

/// How a dialog was left.
pub enum DialogResult {
    Yes,
    No,
    /// By the plain accepting button.
    Accept,
    Cancel,
    /// By the button with this label.
    Custom(String),
}

/// How the program that asks the question ended.
#[derive(Clone, Copy, Debug, PartialEq, Eq, Structural)]
pub enum AskOutcome {
    /// It could not be started.
    NotStarted,
    /// Waiting for it failed.
    NotAwaited,
    /// It was killed, or ended in another way without a code.
    NoCode,
    Exited(i32),
}

/// What the answer is, and whether something went wrong on the way to it.
#[derive(Clone, Copy, Debug, PartialEq, Eq, Structural)]
pub struct Answer {
    pub confirmed: bool,
    pub faulty: bool,
}

impl CloseConfirmation {
    /// The title of the question.
    pub open spec fn title_text(self) -> Seq<char> {
        match self {
            CloseConfirmation::Pane => CLOSE_PANE_TITLE@,
            CloseConfirmation::Tab => CLOSE_TAB_TITLE@,
            CloseConfirmation::Window => CLOSE_WINDOW_TITLE@,
            CloseConfirmation::Application => QUIT_TITLE@,
        }
    }

    /// What closing would do.
    pub open spec fn description_text(self) -> Seq<char> {
        match self {
            CloseConfirmation::Pane => CLOSE_PANE_DESCRIPTION@,
            CloseConfirmation::Tab => CLOSE_TAB_DESCRIPTION@,
            CloseConfirmation::Window => CLOSE_WINDOW_DESCRIPTION@,
            CloseConfirmation::Application => QUIT_DESCRIPTION@,
        }
    }

    /// The label of the button that closes.
    pub open spec fn accept_text(self) -> Seq<char> {
        if self is Application {
            QUIT_BUTTON@
        } else {
            CLOSE_BUTTON@
        }
    }

    /// The title of the question.
    pub fn title(self) -> (r: &'static str)
        ensures
            r@ == self.title_text(),
    {
        match self {
            CloseConfirmation::Pane => CLOSE_PANE_TITLE,
            CloseConfirmation::Tab => CLOSE_TAB_TITLE,
            CloseConfirmation::Window => CLOSE_WINDOW_TITLE,
            CloseConfirmation::Application => QUIT_TITLE,
        }
    }

    /// What closing would do.
    pub fn description(self) -> (r: &'static str)
        ensures
            r@ == self.description_text(),
    {
        match self {
            CloseConfirmation::Pane => CLOSE_PANE_DESCRIPTION,
            CloseConfirmation::Tab => CLOSE_TAB_DESCRIPTION,
            CloseConfirmation::Window => CLOSE_WINDOW_DESCRIPTION,
            CloseConfirmation::Application => QUIT_DESCRIPTION,
        }
    }

    /// The label of the button that closes.
    pub fn accept_button(self) -> (r: &'static str)
        ensures
            r@ == self.accept_text(),
    {
        match self {
            CloseConfirmation::Application => QUIT_BUTTON,
            CloseConfirmation::Pane | CloseConfirmation::Tab | CloseConfirmation::Window => {
                CLOSE_BUTTON
            },
        }
    }
}

/// Whether a dialog was left with a yes: by the plain accepting button, or by a
/// button that carries the label of the accepting one.
pub open spec fn confirms(scope: CloseConfirmation, result: DialogResult) -> bool {
    match result {
        DialogResult::Accept => true,
        DialogResult::Custom(button) => button@ == scope.accept_text(),
        _ => false,
    }
}

/// Whether a dialog was left with a yes.
pub fn result_confirms_close(scope: CloseConfirmation, result: DialogResult) -> (r: bool)
    ensures
        r == confirms(scope, result),
{
    match result {
        DialogResult::Accept => true,
        DialogResult::Custom(button) => same_text(button.as_str(), scope.accept_button()),
        DialogResult::Yes | DialogResult::No | DialogResult::Cancel => false,
    }
}

/// The arguments with which the program asks the question.
pub fn question_arguments(scope: CloseConfirmation) -> (r: Vec<String>)
    ensures
        text::texts(r@) == seq![
            "--no-markup"@,
            "--question"@,
            "--title"@,
            scope.title_text(),
            "--text"@,
            scope.description_text(),
            "--ok-label"@,
            scope.accept_text(),
            "--cancel-label"@,
            CANCEL_BUTTON@,
        ],
{
    let arguments = vec![
        "--no-markup".to_owned(),
        "--question".to_owned(),
        "--title".to_owned(),
        scope.title().to_owned(),
        "--text".to_owned(),
        scope.description().to_owned(),
        "--ok-label".to_owned(),
        scope.accept_button().to_owned(),
        "--cancel-label".to_owned(),
        CANCEL_BUTTON.to_owned(),
    ];
    assert(text::texts(arguments@) =~= seq![
        "--no-markup"@,
        "--question"@,
        "--title"@,
        scope.title_text(),
        "--text"@,
        scope.description_text(),
        "--ok-label"@,
        scope.accept_text(),
        "--cancel-label"@,
        CANCEL_BUTTON@,
    ]);
    arguments
}

/// The answer that the end of the program stands for. Only success is a yes;
/// anything but a yes or a plain no is a fault.
pub fn confirm_close(outcome: AskOutcome) -> (r: Answer)
    ensures
        r.confirmed == (outcome == AskOutcome::Exited(0)),
        r.faulty == !(outcome == AskOutcome::Exited(0) || outcome == AskOutcome::Exited(
            ZENITY_CANCEL_EXIT_CODE,
        )),
{
    match outcome {
        AskOutcome::Exited(code) => if code == 0 {
            Answer { confirmed: true, faulty: false }
        } else if code == ZENITY_CANCEL_EXIT_CODE {
            Answer { confirmed: false, faulty: false }
        } else {
            Answer { confirmed: false, faulty: true }
        },
        AskOutcome::NotStarted | AskOutcome::NotAwaited | AskOutcome::NoCode => {
            Answer { confirmed: false, faulty: true }
        },
    }
}

/// Nothing but the accepting button closes: neither leaving the dialog nor a
/// button with any other label, the cancelling one among them.
pub proof fn only_the_accepting_button_closes(scope: CloseConfirmation, button: String)
    ensures
        !confirms(scope, DialogResult::Cancel),
        !confirms(scope, DialogResult::No),
        !confirms(scope, DialogResult::Yes),
        confirms(scope, DialogResult::Custom(button)) <==> button@ == scope.accept_text(),
        scope.accept_text() != CANCEL_BUTTON@,
{
    reveal_strlit("Close Terminal");
    reveal_strlit("Quit WezTerm");
    reveal_strlit("Cancel");
    assert(CLOSE_BUTTON@.len() == 14);
    assert(QUIT_BUTTON@.len() == 12);
    assert(CANCEL_BUTTON@.len() == 6);
}

/// Each thing that can be closed is asked about in its own words.
pub proof fn questions_differ(a: CloseConfirmation, b: CloseConfirmation)
    requires
        a != b,
    ensures
        a.title_text() != b.title_text(),
        a.description_text() != b.description_text(),
{
    reveal_strlit("Close this terminal pane?");
    reveal_strlit("Close this terminal tab?");
    reveal_strlit("Close this terminal?");
    reveal_strlit("Quit WezTerm?");
    reveal_strlit(
        "A process is still running in this pane. Closing the pane will terminate the process.",
    );
    reveal_strlit(
        "One or more processes are still running in this tab. Closing the tab will terminate them.",
    );
    reveal_strlit(
        "One or more processes are still running in this terminal. Closing the terminal will terminate them.",
    );
    reveal_strlit(
        "One or more terminal processes may still be running. Quitting WezTerm will terminate them.",
    );
    assert(CLOSE_PANE_TITLE@.len() == 25);
    assert(CLOSE_TAB_TITLE@.len() == 24);
    assert(CLOSE_WINDOW_TITLE@.len() == 20);
    assert(QUIT_TITLE@.len() == 13);
    assert(CLOSE_PANE_DESCRIPTION@.len() == 85);
    assert(CLOSE_TAB_DESCRIPTION@.len() == 89);
    assert(CLOSE_WINDOW_DESCRIPTION@.len() == 99);
    assert(QUIT_DESCRIPTION@.len() == 90);
}

/// The questions are worded as shown.
pub proof fn questions_are_worded()
    ensures
        CloseConfirmation::Pane.title_text() == "Close this terminal pane?"@,
        CloseConfirmation::Tab.title_text() == "Close this terminal tab?"@,
        CloseConfirmation::Window.title_text() == "Close this terminal?"@,
        CloseConfirmation::Application.title_text() == "Quit WezTerm?"@,
        CloseConfirmation::Pane.description_text()
            == "A process is still running in this pane. Closing the pane will terminate the process."@,
        CloseConfirmation::Tab.description_text()
            == "One or more processes are still running in this tab. Closing the tab will terminate them."@,
        CloseConfirmation::Window.description_text()
            == "One or more processes are still running in this terminal. Closing the terminal will terminate them."@,
        CloseConfirmation::Application.description_text()
            == "One or more terminal processes may still be running. Quitting WezTerm will terminate them."@,
{
}

/// The button that closes says so, and the one that quits says that; the plain accepting
/// button closes whatever is asked about, and a labelled one only what it is the button of.
pub proof fn buttons_say_what_they_do(scope: CloseConfirmation, other: CloseConfirmation, label: String)
    ensures
        confirms(scope, DialogResult::Accept),
        scope is Application ==> scope.accept_text() == "Quit WezTerm"@,
        !(scope is Application) ==> scope.accept_text() == "Close Terminal"@,
        confirms(scope, DialogResult::Custom(label)) && confirms(other, DialogResult::Custom(label))
            ==> (scope is Application <==> other is Application),
{
    reveal_strlit("Close Terminal");
    reveal_strlit("Quit WezTerm");
    assert(CLOSE_BUTTON@.len() == 14);
    assert(QUIT_BUTTON@.len() == 12);
}

} // verus!
