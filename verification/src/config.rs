//! The resolved configuration the controller is started with.

use vstd::prelude::*;

verus! {

/// One window as the configuration describes it: where it points and how
/// large it opens.
#[derive(Debug, PartialEq, Eq)]
pub struct WindowSpec {
    pub url: String,
    pub width: u32,
    pub height: u32,
}

/// The mathematical content of a [`WindowSpec`].
pub struct WindowSpecView {
    pub url: Seq<char>,
    pub width: u32,
    pub height: u32,
}

impl View for WindowSpec {
    type V = WindowSpecView;

    open spec fn view(&self) -> WindowSpecView {
        WindowSpecView { url: self.url@, width: self.width, height: self.height }
    }
}

impl Clone for WindowSpec {
    fn clone(&self) -> (copy: WindowSpec)
        ensures
            copy@ == self@,
    {
        WindowSpec { url: self.url.clone(), width: self.width, height: self.height }
    }
}

/// The views of a run of window specs, in order.
pub open spec fn window_views(windows: Seq<WindowSpec>) -> Seq<WindowSpecView> {
    windows.map_values(|w: WindowSpec| w@)
}

/// The configuration, resolved once at startup and never changed afterwards.
#[derive(Debug, PartialEq, Eq)]
pub struct ShellConfig {
    windows: Vec<WindowSpec>,
    show_system_tray: bool,
    activation_shortcut: String,
}

/// The mathematical content of a [`ShellConfig`].
pub struct ShellConfigView {
    /// The window specs in order; only the first one is ever built.
    pub windows: Seq<WindowSpecView>,
    /// Whether a tray icon is shown.
    pub show_system_tray: bool,
    /// The accelerator of the global hotkey; empty when there is none.
    pub activation_shortcut: Seq<char>,
}

impl ShellConfigView {
    /// A configuration names at least one window.
    pub open spec fn wf(self) -> bool {
        self.windows.len() > 0
    }

    /// The window the shell is built around.
    pub open spec fn primary_window(self) -> WindowSpecView
        recommends
            self.wf(),
    {
        self.windows[0]
    }

    /// Whether a global hotkey is asked for.
    pub open spec fn hotkey_enabled(self) -> bool {
        self.activation_shortcut.len() > 0
    }
}

impl View for ShellConfig {
    type V = ShellConfigView;

    closed spec fn view(&self) -> ShellConfigView {
        ShellConfigView {
            windows: window_views(self.windows@),
            show_system_tray: self.show_system_tray,
            activation_shortcut: self.activation_shortcut@,
        }
    }
}

impl ShellConfig {
    /// Holds of every configuration there is: it names at least one window.
    #[verifier::type_invariant]
    pub open spec fn well_formed(self) -> bool {
        self@.wf()
    }

    /// Assembles a configuration. There is none without a window.
    pub fn new(windows: Vec<WindowSpec>, show_system_tray: bool, activation_shortcut: String) -> (config:
        Option<ShellConfig>)
        ensures
            config is Some <==> windows@.len() > 0,
            config matches Some(c) ==> c@ == (ShellConfigView {
                windows: window_views(windows@),
                show_system_tray,
                activation_shortcut: activation_shortcut@,
            }),
    {
        if windows.len() == 0 {
            None
        } else {
            Some(ShellConfig { windows, show_system_tray, activation_shortcut })
        }
    }

    /// Whether a tray icon is shown.
    pub fn show_system_tray(&self) -> (shown: bool)
        ensures
            shown == self@.show_system_tray,
    {
        self.show_system_tray
    }

    /// The accelerator of the global hotkey; empty when there is none.
    pub fn activation_shortcut(&self) -> (accelerator: &String)
        ensures
            accelerator@ == self@.activation_shortcut,
    {
        &self.activation_shortcut
    }

    /// Whether a global hotkey is asked for.
    pub fn hotkey_enabled(&self) -> (enabled: bool)
        ensures
            enabled == self@.hotkey_enabled(),
    {
        !self.activation_shortcut.as_str().is_empty()
    }

    /// The number of windows the configuration lists; never zero.
    pub fn window_count(&self) -> (count: usize)
        ensures
            count == self@.windows.len(),
            count > 0,
    {
        proof {
            use_type_invariant(self);
        }
        self.windows.len()
    }

    /// The window the shell is built around: the first one listed.
    pub fn primary_window(&self) -> (window: &WindowSpec)
        ensures
            self@.wf(),
            window@ == self@.primary_window(),
    {
        proof {
            use_type_invariant(self);
        }
        &self.windows[0]
    }
}

impl Clone for ShellConfig {
    fn clone(&self) -> (copy: ShellConfig)
        ensures
            copy@ == self@,
    {
        proof {
            use_type_invariant(self);
        }
        let mut windows: Vec<WindowSpec> = Vec::new();
        let mut i: usize = 0;
        while i < self.windows.len()
            invariant
                i <= self.windows.len(),
                windows@.len() == i,
                forall|k: int| 0 <= k < i ==> (#[trigger] windows@[k])@ == self.windows@[k]@,
            decreases self.windows.len() - i,
        {
            windows.push(self.windows[i].clone());
            i = i + 1;
        }
        assert(window_views(windows@) =~= window_views(self.windows@));
        ShellConfig {
            windows,
            show_system_tray: self.show_system_tray,
            activation_shortcut: self.activation_shortcut.clone(),
        }
    }
}

} // verus!
