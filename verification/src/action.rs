//! What the controller asks the runtime to do, and the effect of each such
//! request on the in-memory window.

use crate::bridge::BridgeCommand;
use crate::config::{WindowSpec, WindowSpecView};
use crate::fatal::{Fatal, FatalView};
use crate::window::{WindowCommand, WindowModel};
use vstd::prelude::*;

verus! {

/// One request from the controller to the runtime.
#[derive(Debug, PartialEq, Eq)]
pub enum Action {
    /// Put the tray icon in place together with its event handler.
    AttachTray,
    /// Make these bridge operations, and no others, reachable from the web
    /// content.
    RegisterBridge { commands: Vec<BridgeCommand> },
    /// Route close requests for the primary window to the controller.
    InstallCloseInterceptor,
    /// Have the window factory build the primary window, off screen, with
    /// its state persisted under `data_dir`.
    BuildWindow { window: WindowSpec, data_dir: String },
    /// Register the global hotkey for exactly this accelerator.
    RegisterHotkey { accelerator: String },
    /// Stop the platform from closing the window on its own.
    PreventClose,
    /// Change the primary window.
    Window(WindowCommand),
    /// End the process with the success code.
    Exit,
    /// Report the condition and end the process with its failure code.
    Abort(Fatal),
}

/// The mathematical content of an [`Action`].
pub enum ActionView {
    AttachTray,
    RegisterBridge { commands: Seq<BridgeCommand> },
    InstallCloseInterceptor,
    BuildWindow { window: WindowSpecView, data_dir: Seq<char> },
    RegisterHotkey { accelerator: Seq<char> },
    PreventClose,
    Window(WindowCommand),
    Exit,
    Abort(FatalView),
}

impl View for Action {
    type V = ActionView;

    open spec fn view(&self) -> ActionView {
        match self {
            Action::AttachTray => ActionView::AttachTray,
            Action::RegisterBridge { commands } => ActionView::RegisterBridge { commands: commands@ },
            Action::InstallCloseInterceptor => ActionView::InstallCloseInterceptor,
            Action::BuildWindow { window, data_dir } => ActionView::BuildWindow {
                window: window@,
                data_dir: data_dir@,
            },
            Action::RegisterHotkey { accelerator } => ActionView::RegisterHotkey {
                accelerator: accelerator@,
            },
            Action::PreventClose => ActionView::PreventClose,
            Action::Window(command) => ActionView::Window(*command),
            Action::Exit => ActionView::Exit,
            Action::Abort(fatal) => ActionView::Abort(fatal@),
        }
    }
}

impl ActionView {
    /// Whether carrying out this action ends the process.
    pub open spec fn ends_process(self) -> bool {
        self is Exit || self is Abort
    }
}

/// The views of a run of actions, in order.
pub open spec fn action_views(actions: Seq<Action>) -> Seq<ActionView> {
    actions.map_values(|a: Action| a@)
}

/// A run of window commands, each as an action.
pub open spec fn window_actions(commands: Seq<WindowCommand>) -> Seq<ActionView> {
    commands.map_values(|c: WindowCommand| ActionView::Window(c))
}

/// Wraps each window command as an action, keeping the order.
pub fn wrap_commands(commands: &Vec<WindowCommand>) -> (actions: Vec<Action>)
    ensures
        action_views(actions@) == window_actions(commands@),
{
    let mut actions: Vec<Action> = Vec::new();
    let mut i: usize = 0;
    while i < commands.len()
        invariant
            i <= commands.len(),
            actions@.len() == i,
            forall|k: int| 0 <= k < i ==> (#[trigger] actions@[k])@ == ActionView::Window(commands@[k]),
        decreases commands.len() - i,
    {
        actions.push(Action::Window(commands[i]));
        i = i + 1;
    }
    assert(action_views(actions@) =~= window_actions(commands@));
    actions
}

impl WindowModel {
    /// The window after the runtime carried out one action.
    ///
    /// Building creates the window, off screen, unless one was built before:
    /// there is never a second one. A window command has its own effect.
    /// Ending the process takes a live window with it. No other action
    /// touches the window.
    pub open spec fn after_action(self, action: ActionView) -> WindowModel {
        match action {
            ActionView::BuildWindow { .. } => if self is Absent {
                WindowModel::created()
            } else {
                self
            },
            ActionView::Window(command) => self.after(command),
            ActionView::Exit | ActionView::Abort(_) => if self is Live {
                WindowModel::Destroyed
            } else {
                self
            },
            _ => self,
        }
    }

    /// The window after a run of actions, carried out front to back.
    pub open spec fn after_actions(self, actions: Seq<ActionView>) -> WindowModel
        decreases actions.len(),
    {
        if actions.len() == 0 {
            self
        } else {
            self.after_actions(actions.drop_last()).after_action(actions.last())
        }
    }

    /// Window commands wrapped as actions act as the commands themselves.
    pub proof fn lemma_after_window_actions(self, commands: Seq<WindowCommand>)
        ensures
            self.after_actions(window_actions(commands)) == self.after_all(commands),
        decreases commands.len(),
    {
        if commands.len() > 0 {
            self.lemma_after_window_actions(commands.drop_last());
            assert(window_actions(commands).drop_last() =~= window_actions(commands.drop_last()));
        }
    }

    /// A run of no actions changes nothing.
    pub proof fn lemma_after_none_action(self)
        ensures
            self.after_actions(Seq::empty()) == self,
    {
    }

    /// A run of one action is that action.
    pub proof fn lemma_after_one_action(self, action: ActionView)
        ensures
            self.after_actions(seq![action]) == self.after_action(action),
    {
        assert(seq![action].drop_last() =~= Seq::<ActionView>::empty());
        reveal_with_fuel(WindowModel::after_actions, 2);
    }

    /// Running two runs of actions one after the other is running their
    /// concatenation.
    pub proof fn lemma_after_actions_concat(self, first: Seq<ActionView>, second: Seq<ActionView>)
        ensures
            self.after_actions(first + second) == self.after_actions(first).after_actions(second),
        decreases second.len(),
    {
        if second.len() == 0 {
            assert(first + second =~= first);
        } else {
            self.lemma_after_actions_concat(first, second.drop_last());
            assert((first + second).drop_last() =~= first + second.drop_last());
        }
    }

    /// Carries out one action on the window.
    pub fn apply_action(&mut self, action: &Action)
        ensures
            *final(self) == old(self).after_action(action@),
            old(self).wf() ==> final(self).wf(),
    {
        match action {
            Action::BuildWindow { .. } => {
                match *self {
                    WindowModel::Absent => {
                        *self = WindowModel::new();
                    },
                    _ => {},
                }
            },
            Action::Window(command) => {
                self.apply(*command);
            },
            Action::Exit | Action::Abort(_) => {
                match *self {
                    WindowModel::Live { .. } => {
                        *self = WindowModel::Destroyed;
                    },
                    _ => {},
                }
            },
            _ => {},
        }
    }

    /// Carries out a run of actions on the window, front to back.
    pub fn apply_actions(&mut self, actions: &Vec<Action>)
        ensures
            *final(self) == old(self).after_actions(action_views(actions@)),
            old(self).wf() ==> final(self).wf(),
    {
        let ghost views = action_views(actions@);
        let mut i: usize = 0;
        assert(views.take(0) =~= Seq::<ActionView>::empty());
        while i < actions.len()
            invariant
                i <= actions.len(),
                views == action_views(actions@),
                *self == old(self).after_actions(views.take(i as int)),
                old(self).wf() ==> self.wf(),
            decreases actions.len() - i,
        {
            proof {
                let next = views.take(i + 1);
                assert(next.drop_last() =~= views.take(i as int));
                assert(next.last() == actions@[i as int]@);
            }
            self.apply_action(&actions[i]);
            i = i + 1;
        }
        assert(views.take(i as int) =~= views);
    }
}

} // verus!
