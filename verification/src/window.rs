//! The primary window as the controller sees it: what a query reports, which
//! commands can be sent to it, and an in-memory window on which those
//! commands have a defined effect.

use vstd::prelude::*;

verus! {

/// Whether the primary window is on screen.
#[derive(Clone, Copy, Debug, PartialEq, Eq, Structural)]
pub enum Visibility {
    Visible,
    Hidden,
}

/// A single request to the runtime that changes the primary window.
#[derive(Clone, Copy, Debug, PartialEq, Eq, Structural)]
pub enum WindowCommand {
    Show,
    Hide,
    SetFocus,
    Minimize,
    Close,
}

/// What looking up the primary window found at the moment an event fired.
#[derive(Clone, Copy, Debug, PartialEq, Eq, Structural)]
pub enum WindowProbe {
    /// No window is registered under the reserved label.
    Missing,
    /// The window was found but has already been torn down.
    Destroyed,
    /// The window is alive and reported this visibility.
    Live(Visibility),
}

/// An in-memory window. It gives every [`WindowCommand`] a defined effect, so
/// that handlers can be exercised without a native window.
#[derive(Clone, Copy, Debug, PartialEq, Eq, Structural)]
pub enum WindowModel {
    /// No window has been built yet.
    Absent,
    /// The window exists.
    Live { visible: bool, focused: bool, minimized: bool },
    /// The window has been closed; it never comes back.
    Destroyed,
}

impl WindowModel {
    /// A window fresh from the factory: it exists but is not yet on screen.
    pub open spec fn created() -> WindowModel {
        WindowModel::Live { visible: false, focused: false, minimized: false }
    }

    /// Input focus only ever rests on a window that is on screen and not
    /// minimized.
    pub open spec fn wf(self) -> bool {
        match self {
            WindowModel::Live { visible, focused, minimized } => focused ==> visible && !minimized,
            _ => true,
        }
    }

    pub open spec fn is_live(self) -> bool {
        self is Live
    }

    pub open spec fn is_visible(self) -> bool {
        self matches WindowModel::Live { visible, .. } && visible
    }

    pub open spec fn is_focused(self) -> bool {
        self matches WindowModel::Live { focused, .. } && focused
    }

    pub open spec fn is_minimized(self) -> bool {
        self matches WindowModel::Live { minimized, .. } && minimized
    }

    /// What a lookup of this window reports.
    pub open spec fn probe_spec(self) -> WindowProbe {
        match self {
            WindowModel::Absent => WindowProbe::Missing,
            WindowModel::Destroyed => WindowProbe::Destroyed,
            WindowModel::Live { visible, .. } => WindowProbe::Live(
                if visible {
                    Visibility::Visible
                } else {
                    Visibility::Hidden
                },
            ),
        }
    }

    /// The window after one command.
    ///
    /// Showing puts the window on screen and restores it from the minimized
    /// state. Hiding takes it off screen and drops focus. Focus is granted
    /// only to a window that is on screen and not minimized. Minimizing drops
    /// focus. Closing destroys the window. A window that is absent or
    /// destroyed is not changed by any command.
    pub open spec fn after(self, cmd: WindowCommand) -> WindowModel {
        match self {
            WindowModel::Live { visible, focused, minimized } => match cmd {
                WindowCommand::Show => WindowModel::Live { visible: true, focused, minimized: false },
                WindowCommand::Hide => WindowModel::Live { visible: false, focused: false, minimized },
                WindowCommand::SetFocus => WindowModel::Live {
                    visible,
                    focused: visible && !minimized,
                    minimized,
                },
                WindowCommand::Minimize => WindowModel::Live { visible, focused: false, minimized: true },
                WindowCommand::Close => WindowModel::Destroyed,
            },
            _ => self,
        }
    }

    /// The window after a run of commands, carried out front to back.
    pub open spec fn after_all(self, cmds: Seq<WindowCommand>) -> WindowModel
        decreases cmds.len(),
    {
        if cmds.len() == 0 {
            self
        } else {
            self.after_all(cmds.drop_last()).after(cmds.last())
        }
    }

    /// A run of no commands changes nothing.
    pub proof fn lemma_after_none(self)
        ensures
            self.after_all(Seq::empty()) == self,
    {
    }

    /// A run of one command is that command.
    pub proof fn lemma_after_one(self, a: WindowCommand)
        ensures
            self.after_all(seq![a]) == self.after(a),
    {
        assert(seq![a].drop_last() =~= Seq::<WindowCommand>::empty());
        reveal_with_fuel(WindowModel::after_all, 2);
    }

    /// A run of two commands is the first, then the second.
    pub proof fn lemma_after_two(self, a: WindowCommand, b: WindowCommand)
        ensures
            self.after_all(seq![a, b]) == self.after(a).after(b),
    {
        assert(seq![a, b].drop_last() =~= seq![a]);
        self.lemma_after_one(a);
    }

    /// No run of commands breaks a well-formed window, creates a window
    /// where there is none, or brings a destroyed window back.
    pub proof fn law_commands_never_revive(self, cmds: Seq<WindowCommand>)
        ensures
            self.wf() ==> self.after_all(cmds).wf(),
            self is Absent ==> self.after_all(cmds) is Absent,
            self is Destroyed ==> self.after_all(cmds) is Destroyed,
        decreases cmds.len(),
    {
        if cmds.len() > 0 {
            self.law_commands_never_revive(cmds.drop_last());
        }
    }

    /// Builds the window as the factory hands it over: alive, off screen.
    pub fn new() -> (w: WindowModel)
        ensures
            w == WindowModel::created(),
            w.wf(),
    {
        WindowModel::Live { visible: false, focused: false, minimized: false }
    }

    /// Reports what a lookup of this window finds.
    pub fn probe(&self) -> (p: WindowProbe)
        ensures
            p == self.probe_spec(),
    {
        match self {
            WindowModel::Absent => WindowProbe::Missing,
            WindowModel::Destroyed => WindowProbe::Destroyed,
            WindowModel::Live { visible, .. } => {
                if *visible {
                    WindowProbe::Live(Visibility::Visible)
                } else {
                    WindowProbe::Live(Visibility::Hidden)
                }
            },
        }
    }

    /// Carries out one command on the window.
    pub fn apply(&mut self, cmd: WindowCommand)
        ensures
            *final(self) == old(self).after(cmd),
            old(self).wf() ==> final(self).wf(),
    {
        let next = match *self {
            WindowModel::Live { visible, focused, minimized } => match cmd {
                WindowCommand::Show => WindowModel::Live { visible: true, focused, minimized: false },
                WindowCommand::Hide => WindowModel::Live { visible: false, focused: false, minimized },
                WindowCommand::SetFocus => WindowModel::Live {
                    visible,
                    focused: visible && !minimized,
                    minimized,
                },
                WindowCommand::Minimize => WindowModel::Live { visible, focused: false, minimized: true },
                WindowCommand::Close => WindowModel::Destroyed,
            },
            other => other,
        };
        *self = next;
    }

    /// Carries out a run of commands on the window, front to back.
    pub fn apply_all(&mut self, cmds: &Vec<WindowCommand>)
        ensures
            *final(self) == old(self).after_all(cmds@),
            old(self).wf() ==> final(self).wf(),
    {
        let mut i: usize = 0;
        assert(cmds@.take(0) =~= Seq::<WindowCommand>::empty());
        while i < cmds.len()
            invariant
                i <= cmds.len(),
                *self == old(self).after_all(cmds@.take(i as int)),
                old(self).wf() ==> self.wf(),
            decreases cmds.len() - i,
        {
            proof {
                let next = cmds@.take(i + 1);
                assert(next.drop_last() =~= cmds@.take(i as int));
                assert(next.last() == cmds@[i as int]);
            }
            self.apply(cmds[i]);
            i = i + 1;
        }
        assert(cmds@.take(i as int) =~= cmds@);
    }
}

} // verus!
