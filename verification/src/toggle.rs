//! The visibility toggle: one trigger hides a window that is on screen and
//! brings back, with focus, one that is not.

use crate::fatal::{Fatal, FatalView};
use crate::window::{Visibility, WindowCommand, WindowModel, WindowProbe};
use vstd::prelude::*;

verus! {

/// The commands that flip a live window out of the given visibility.
///
/// A visible window is hidden and nothing else. A hidden window is shown and
/// then given input focus, since showing alone does not promise focus.
pub open spec fn toggle_commands(current: Visibility) -> Seq<WindowCommand> {
    match current {
        Visibility::Visible => seq![WindowCommand::Hide],
        Visibility::Hidden => seq![WindowCommand::Show, WindowCommand::SetFocus],
    }
}

/// The commands a trigger leads to, given what the window lookup found. A
/// window that is gone is left alone.
pub open spec fn toggle_response(probe: WindowProbe) -> Seq<WindowCommand> {
    match probe {
        WindowProbe::Live(current) => toggle_commands(current),
        _ => Seq::empty(),
    }
}

/// The window after one trigger of the toggle.
pub open spec fn toggled(window: WindowModel) -> WindowModel {
    window.after_all(toggle_response(window.probe_spec()))
}

/// Decides what one trigger of the toggle does.
///
/// The decision rests on `probe` alone, which the caller reads from the
/// window when the trigger fires; nothing is remembered between triggers.
/// A lookup that finds no window under the reserved label is fatal.
pub fn toggle_visibility(probe: WindowProbe) -> (outcome: Result<Vec<WindowCommand>, Fatal>)
    ensures
        outcome is Err <==> probe is Missing,
        outcome matches Err(fatal) ==> fatal@ == FatalView::WindowMissing,
        outcome matches Ok(commands) ==> commands@ == toggle_response(probe),
{
    match probe {
        WindowProbe::Missing => Err(Fatal::WindowMissing),
        WindowProbe::Destroyed => Ok(Vec::new()),
        WindowProbe::Live(Visibility::Visible) => {
            let mut commands: Vec<WindowCommand> = Vec::new();
            commands.push(WindowCommand::Hide);
            assert(commands@ =~= seq![WindowCommand::Hide]);
            Ok(commands)
        },
        WindowProbe::Live(Visibility::Hidden) => {
            let mut commands: Vec<WindowCommand> = Vec::new();
            commands.push(WindowCommand::Show);
            commands.push(WindowCommand::SetFocus);
            assert(commands@ =~= seq![WindowCommand::Show, WindowCommand::SetFocus]);
            Ok(commands)
        },
    }
}

/// One trigger flips the visibility of a live window and leaves a window
/// that is absent or destroyed as it was.
pub proof fn law_toggle_flips(window: WindowModel)
    ensures
        window.probe_spec() == WindowProbe::Live(Visibility::Visible) ==> toggled(
            window,
        ).probe_spec() == WindowProbe::Live(Visibility::Hidden),
        window.probe_spec() == WindowProbe::Live(Visibility::Hidden) ==> toggled(
            window,
        ).probe_spec() == WindowProbe::Live(Visibility::Visible),
        !window.is_live() ==> toggled(window) == window,
        window.wf() ==> toggled(window).wf(),
{
    window.lemma_after_one(WindowCommand::Hide);
    window.lemma_after_two(WindowCommand::Show, WindowCommand::SetFocus);
    window.lemma_after_none();
}

/// Two triggers in a row bring the window back to the visibility it started
/// from: visible stays visible, hidden stays hidden.
pub proof fn law_toggle_twice_restores(window: WindowModel)
    ensures
        toggled(toggled(window)).probe_spec() == window.probe_spec(),
{
    law_toggle_flips(window);
    law_toggle_flips(toggled(window));
}

/// After a trigger found the window hidden, the window is on screen and
/// holds input focus.
pub proof fn law_focus_on_show(window: WindowModel)
    requires
        window.probe_spec() == WindowProbe::Live(Visibility::Hidden),
    ensures
        toggled(window).is_visible(),
        toggled(window).is_focused(),
{
    window.lemma_after_two(WindowCommand::Show, WindowCommand::SetFocus);
}

} // verus!
