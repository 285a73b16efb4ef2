//! What happens when the platform or the user asks the primary window to
//! close.

use crate::action::{action_views, window_actions, wrap_commands, Action, ActionView};
use crate::window::{WindowCommand, WindowModel};
use vstd::prelude::*;

verus! {

/// The platform the shell runs on.
#[derive(Clone, Copy, Debug, PartialEq, Eq, Structural)]
pub enum Platform {
    MacOs,
    Windows,
    Linux,
    Other,
}

/// What a close request amounts to once the platform's own reaction has
/// been stopped.
#[derive(Clone, Copy, Debug, PartialEq, Eq, Structural)]
pub enum ClosePolicy {
    /// The window goes out of sight and the process stays, so that the tray
    /// or the hotkey can bring the window back.
    KeepInBackground,
    /// The window is closed; being the only one, that ends the application.
    Quit,
}

impl ClosePolicy {
    /// The policy table: applications stay in the background where that is
    /// the platform's convention, and quit with their window elsewhere.
    pub open spec fn of(platform: Platform) -> ClosePolicy {
        match platform {
            Platform::MacOs => ClosePolicy::KeepInBackground,
            _ => ClosePolicy::Quit,
        }
    }

    /// The window commands the policy stands for, in order.
    pub open spec fn commands(self) -> Seq<WindowCommand> {
        match self {
            ClosePolicy::KeepInBackground => seq![WindowCommand::Minimize, WindowCommand::Hide],
            ClosePolicy::Quit => seq![WindowCommand::Close],
        }
    }

    /// The full answer to a close request: the veto, then the policy's
    /// commands.
    pub open spec fn response(self) -> Seq<ActionView> {
        seq![ActionView::PreventClose] + window_actions(self.commands())
    }

    /// Whether the process outlives a close request under this policy.
    pub open spec fn keeps_process(self) -> bool {
        self is KeepInBackground
    }

    /// Picks the policy for a platform. The choice is made once, at startup.
    pub fn for_platform(platform: Platform) -> (policy: ClosePolicy)
        ensures
            policy == ClosePolicy::of(platform),
    {
        match platform {
            Platform::MacOs => ClosePolicy::KeepInBackground,
            _ => ClosePolicy::Quit,
        }
    }

    /// Whether the process outlives a close request under this policy.
    pub fn survives_close(&self) -> (stays: bool)
        ensures
            stays == self.keeps_process(),
    {
        match self {
            ClosePolicy::KeepInBackground => true,
            ClosePolicy::Quit => false,
        }
    }
}

/// Answers a close request for the primary window.
///
/// The first action always stops the platform's own close, whatever the
/// policy; only window commands follow it.
pub fn on_close_requested(policy: ClosePolicy) -> (actions: Vec<Action>)
    ensures
        action_views(actions@) == policy.response(),
        actions@.len() >= 2,
        actions@[0]@ == ActionView::PreventClose,
        forall|i: int| 1 <= i < actions@.len() ==> (#[trigger] actions@[i])@ is Window,
{
    let mut commands: Vec<WindowCommand> = Vec::new();
    match policy {
        ClosePolicy::KeepInBackground => {
            commands.push(WindowCommand::Minimize);
            commands.push(WindowCommand::Hide);
            assert(commands@ =~= policy.commands());
        },
        ClosePolicy::Quit => {
            commands.push(WindowCommand::Close);
            assert(commands@ =~= policy.commands());
        },
    }
    let mut tail = wrap_commands(&commands);
    let ghost wrapped = tail@;
    let mut actions: Vec<Action> = Vec::new();
    actions.push(Action::PreventClose);
    actions.append(&mut tail);
    proof {
        assert(actions@ =~= seq![Action::PreventClose] + wrapped);
        assert(action_views(actions@) =~= policy.response());
        assert forall|i: int| 1 <= i < actions@.len() implies (#[trigger] actions@[i])@ is Window by {
            assert(actions@[i]@ == action_views(actions@)[i]);
        }
    }
    actions
}

/// Every answer to a close request starts with the veto, and the veto is
/// the only action in it that is not a window command.
pub proof fn law_close_veto_first(policy: ClosePolicy)
    ensures
        policy.response().len() >= 2,
        policy.response()[0] == ActionView::PreventClose,
        forall|i: int| 1 <= i < policy.response().len() ==> (#[trigger] policy.response()[i]) is Window,
{
}

/// Where applications stay in the background, a close request leaves a
/// live window alive, off screen and without focus; everywhere else it
/// destroys the window.
pub proof fn law_close_policy(policy: ClosePolicy, window: WindowModel)
    requires
        window.is_live(),
    ensures
        policy.keeps_process() ==> {
            let after = window.after_actions(policy.response());
            after.is_live() && !after.is_visible() && !after.is_focused()
        },
        !policy.keeps_process() ==> window.after_actions(policy.response()) is Destroyed,
        window.wf() ==> window.after_actions(policy.response()).wf(),
{
    lemma_close_response(policy, window);
    window.lemma_after_two(WindowCommand::Minimize, WindowCommand::Hide);
    window.lemma_after_one(WindowCommand::Close);
}

/// A second close request, with the window already out of sight, changes
/// nothing.
pub proof fn law_close_twice_is_close_once(policy: ClosePolicy, window: WindowModel)
    ensures
        window.after_actions(policy.response()).after_actions(policy.response())
            == window.after_actions(policy.response()),
{
    let once = window.after_actions(policy.response());
    lemma_close_response(policy, window);
    lemma_close_response(policy, once);
    window.lemma_after_two(WindowCommand::Minimize, WindowCommand::Hide);
    window.lemma_after_one(WindowCommand::Close);
    once.lemma_after_two(WindowCommand::Minimize, WindowCommand::Hide);
    once.lemma_after_one(WindowCommand::Close);
}

/// The veto does not touch the window, so the answer to a close request
/// acts on it as the policy's commands do.
pub proof fn lemma_close_response(policy: ClosePolicy, window: WindowModel)
    ensures
        window.after_actions(policy.response()) == window.after_all(policy.commands()),
{
    let veto = seq![ActionView::PreventClose];
    window.lemma_after_actions_concat(veto, window_actions(policy.commands()));
    assert(veto.drop_last() =~= Seq::<ActionView>::empty());
    assert(window.after_actions(veto) == window) by {
        reveal_with_fuel(WindowModel::after_actions, 2);
    }
    window.lemma_after_window_actions(policy.commands());
}

} // verus!
