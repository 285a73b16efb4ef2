//! Conditions that end the process instead of leaving the shell half
//! configured.

use vstd::prelude::*;
use vstd::string::*;

verus! {

/// The label under which the single primary window is registered.
pub const PRIMARY_WINDOW_LABEL: &'static str = "pake";

/// The exit code of a process that ends on a [`Fatal`] condition.
pub const EXIT_FAILURE: i32 = 1;

/// A condition the controller does not recover from.
#[derive(Debug, PartialEq, Eq)]
pub enum Fatal {
    /// The global hotkey could not be registered for this accelerator.
    HotkeyRegistration { accelerator: String },
    /// No window is registered under the reserved label.
    WindowMissing,
}

/// The mathematical content of a [`Fatal`].
pub enum FatalView {
    HotkeyRegistration { accelerator: Seq<char> },
    WindowMissing,
}

impl View for Fatal {
    type V = FatalView;

    open spec fn view(&self) -> FatalView {
        match self {
            Fatal::HotkeyRegistration { accelerator } => FatalView::HotkeyRegistration {
                accelerator: accelerator@,
            },
            Fatal::WindowMissing => FatalView::WindowMissing,
        }
    }
}

/// `needle` occurs in `hay` as a contiguous run of characters.
pub open spec fn occurs_in(needle: Seq<char>, hay: Seq<char>) -> bool {
    exists|at: int|
        0 <= at && at + needle.len() <= hay.len() && #[trigger] hay.subrange(
            at,
            at + needle.len(),
        ) == needle
}

impl FatalView {
    /// The text shown to the user: a fixed lead-in followed by what failed.
    pub open spec fn message(self) -> Seq<char> {
        match self {
            FatalView::HotkeyRegistration { accelerator } => "Error registering global shortcut: "@
                + accelerator,
            FatalView::WindowMissing => "Primary window not found: "@ + PRIMARY_WINDOW_LABEL@,
        }
    }
}

/// The message for a failed hotkey registration names the accelerator that
/// failed, character for character.
pub proof fn law_message_names_accelerator(accelerator: Seq<char>)
    ensures
        occurs_in(accelerator, (FatalView::HotkeyRegistration { accelerator }).message()),
{
    let text = (FatalView::HotkeyRegistration { accelerator }).message();
    let at = text.len() - accelerator.len();
    assert(text.subrange(at, at + accelerator.len()) =~= accelerator);
}

impl Fatal {
    /// The human-readable message for this condition. For a failed hotkey
    /// registration it contains the accelerator, character for character.
    pub fn message(&self) -> (text: String)
        ensures
            text@ == self@.message(),
            self@ matches FatalView::HotkeyRegistration { accelerator } ==> occurs_in(
                accelerator,
                text@,
            ),
    {
        match self {
            Fatal::HotkeyRegistration { accelerator } => {
                let lead = "Error registering global shortcut: ";
                let mut text = String::from_str(lead);
                text.append(accelerator.as_str());
                proof {
                    law_message_names_accelerator(accelerator@);
                }
                text
            },
            Fatal::WindowMissing => {
                let mut text = String::from_str("Primary window not found: ");
                text.append(PRIMARY_WINDOW_LABEL);
                text
            },
        }
    }

    /// The process exit code for this condition; never the success code.
    pub fn exit_code(&self) -> (code: i32)
        ensures
            code == EXIT_FAILURE,
            code != 0,
    {
        EXIT_FAILURE
    }
}

} // verus!
