//! The lifecycle controller: one state machine that takes the shell from a
//! resolved configuration to a running application and on to its end.
//!
//! The runtime reports what happened as an [`Event`]; the controller answers
//! with the [`Action`]s to carry out, in order, and moves to its next
//! [`Stage`]. The controller keeps no record of the window: whatever it needs
//! to know about it arrives with the event.

use crate::action::{action_views, window_actions, wrap_commands, Action, ActionView};
use crate::bridge::BridgeCommand;
use crate::close::{on_close_requested, ClosePolicy};
use crate::config::{ShellConfig, ShellConfigView};
use crate::fatal::{Fatal, FatalView};
use crate::toggle::{toggle_response, toggle_visibility};
use crate::tray::{bound_action, TrayAction, TrayBindingView, TrayEvent, TrayMenu};
use crate::window::{WindowCommand, WindowProbe};
use vstd::prelude::*;

verus! {

/// Where the shell is in its life.
#[derive(Clone, Copy, Debug, PartialEq, Eq, Structural)]
pub enum Stage {
    /// Configured; nothing is wired yet.
    Created,
    /// Wired and on screen; the outcome of the hotkey registration is
    /// outstanding.
    AwaitingHotkey,
    /// Startup is complete; events are being handled.
    Running,
    /// Ended on a fatal condition.
    Aborted,
    /// Ended in the ordinary way.
    Exited,
}

/// Something the runtime reports to the controller.
#[derive(Debug, PartialEq, Eq)]
pub enum Event {
    /// The process has started.
    Launch,
    /// The hotkey registration that was asked for succeeded.
    HotkeyRegistered,
    /// The hotkey registration that was asked for failed.
    HotkeyRejected,
    /// The global hotkey was pressed; with it, what the window lookup found
    /// at that moment.
    HotkeyPressed(WindowProbe),
    /// The tray reported an event; with it, what the window lookup found at
    /// that moment.
    Tray(TrayEvent, WindowProbe),
    /// The platform or the user asked the primary window to close.
    CloseRequested,
}

/// The mathematical content of an [`Event`].
pub enum EventView {
    Launch,
    HotkeyRegistered,
    HotkeyRejected,
    HotkeyPressed(WindowProbe),
    Tray(Seq<char>, WindowProbe),
    CloseRequested,
}

impl View for Event {
    type V = EventView;

    open spec fn view(&self) -> EventView {
        match self {
            Event::Launch => EventView::Launch,
            Event::HotkeyRegistered => EventView::HotkeyRegistered,
            Event::HotkeyRejected => EventView::HotkeyRejected,
            Event::HotkeyPressed(probe) => EventView::HotkeyPressed(*probe),
            Event::Tray(event, probe) => EventView::Tray(event@, *probe),
            Event::CloseRequested => EventView::CloseRequested,
        }
    }
}

/// The views of a run of events, in order.
pub open spec fn event_views(events: Seq<Event>) -> Seq<EventView> {
    events.map_values(|e: Event| e@)
}

/// The controller's answer to one event.
pub struct Reaction {
    /// The stage the controller moves to.
    pub stage: Stage,
    /// What the runtime has to carry out, in order.
    pub actions: Seq<ActionView>,
}

/// The answer to a trigger of the visibility toggle in the given stage: the
/// toggle's commands, or the end of the process where no window is found.
pub open spec fn toggle_reaction(stage: Stage, probe: WindowProbe) -> Reaction {
    if probe is Missing {
        Reaction { stage: Stage::Aborted, actions: seq![ActionView::Abort(FatalView::WindowMissing)] }
    } else {
        Reaction { stage, actions: window_actions(toggle_response(probe)) }
    }
}

/// The mathematical content of a [`Controller`].
pub struct ControllerView {
    pub config: ShellConfigView,
    /// Where the window's state is persisted.
    pub data_dir: Seq<char>,
    pub policy: ClosePolicy,
    pub tray_menu: Seq<TrayBindingView>,
    pub stage: Stage,
}

impl ControllerView {
    /// The configuration is well formed, and a hotkey registration is only
    /// ever outstanding where a hotkey is asked for.
    pub open spec fn wf(self) -> bool {
        &&& self.config.wf()
        &&& (self.stage is AwaitingHotkey ==> self.config.hotkey_enabled())
    }

    /// The controller as it is before anything has happened.
    pub open spec fn initial(
        config: ShellConfigView,
        data_dir: Seq<char>,
        policy: ClosePolicy,
        tray_menu: Seq<TrayBindingView>,
    ) -> ControllerView {
        ControllerView { config, data_dir, policy, tray_menu, stage: Stage::Created }
    }

    /// Whether the process is still there.
    pub open spec fn alive(self) -> bool {
        !(self.stage is Aborted) && !(self.stage is Exited)
    }

    /// Whether the startup wiring has been handed to the runtime.
    pub open spec fn launched(self) -> bool {
        !(self.stage is Created)
    }

    /// Whether the shell is wired and has not ended: the only time at which
    /// events reach a handler.
    pub open spec fn handling(self) -> bool {
        self.stage is AwaitingHotkey || self.stage is Running
    }

    /// Whether a tray icon and its event handler are in place.
    pub open spec fn tray_attached(self) -> bool {
        self.launched() && self.config.show_system_tray
    }

    /// Whether the bridge operations are reachable from the web content.
    pub open spec fn bridge_registered(self) -> bool {
        self.launched()
    }

    /// Whether close requests for the primary window are routed to the
    /// controller.
    pub open spec fn close_intercepted(self) -> bool {
        self.launched()
    }

    /// Whether the global hotkey is registered and bound to the toggle.
    pub open spec fn hotkey_registered(self) -> bool {
        self.stage is Running && self.config.hotkey_enabled()
    }

    /// The tray part of the wiring: present exactly where a tray is asked
    /// for.
    pub open spec fn tray_steps(self) -> Seq<ActionView> {
        if self.config.show_system_tray {
            seq![ActionView::AttachTray]
        } else {
            Seq::empty()
        }
    }

    /// The part of the wiring every configuration gets: the whole bridge,
    /// the close interceptor, then the primary window, built from the first
    /// window spec and put on screen last.
    pub open spec fn core_steps(self) -> Seq<ActionView> {
        seq![
            ActionView::RegisterBridge { commands: BridgeCommand::all_spec() },
            ActionView::InstallCloseInterceptor,
            ActionView::BuildWindow { window: self.config.primary_window(), data_dir: self.data_dir },
            ActionView::Window(WindowCommand::Show),
        ]
    }

    /// The hotkey part of the wiring: present exactly where the accelerator
    /// is not empty, and then for that very accelerator.
    pub open spec fn hotkey_steps(self) -> Seq<ActionView> {
        if self.config.hotkey_enabled() {
            seq![ActionView::RegisterHotkey { accelerator: self.config.activation_shortcut }]
        } else {
            Seq::empty()
        }
    }

    /// Everything the runtime does at launch, in order.
    pub open spec fn launch_plan(self) -> Seq<ActionView> {
        self.tray_steps() + self.core_steps() + self.hotkey_steps()
    }

    /// The answer to a tray event. Without a tray there is no handler, and
    /// the event is dropped unseen; so is one that arrives before the wiring
    /// or after the end.
    pub open spec fn tray_reaction(self, id: Seq<char>, probe: WindowProbe) -> Reaction {
        if !(self.handling() && self.tray_attached()) {
            Reaction { stage: self.stage, actions: Seq::empty() }
        } else {
            match bound_action(self.tray_menu, id) {
                Some(TrayAction::ToggleVisibility) => toggle_reaction(self.stage, probe),
                Some(TrayAction::Quit) => Reaction { stage: Stage::Exited, actions: seq![ActionView::Exit] },
                None => Reaction { stage: self.stage, actions: Seq::empty() },
            }
        }
    }

    /// The answer to a press of the global hotkey. Only a registered hotkey
    /// has a handler.
    pub open spec fn hotkey_reaction(self, probe: WindowProbe) -> Reaction {
        if self.hotkey_registered() {
            toggle_reaction(self.stage, probe)
        } else {
            Reaction { stage: self.stage, actions: Seq::empty() }
        }
    }

    /// The answer to a close request. From the moment the interceptor is
    /// installed until the process ends, the platform's own close is
    /// stopped first and the policy applied after.
    pub open spec fn close_reaction(self) -> Reaction {
        if self.handling() {
            Reaction {
                stage: if self.policy.keeps_process() {
                    self.stage
                } else {
                    Stage::Exited
                },
                actions: self.policy.response(),
            }
        } else {
            Reaction { stage: self.stage, actions: Seq::empty() }
        }
    }

    /// The answer to the outcome of the hotkey registration. A failure is
    /// fatal and names the accelerator that failed.
    pub open spec fn registration_reaction(self, registered: bool) -> Reaction {
        if !(self.stage is AwaitingHotkey) {
            Reaction { stage: self.stage, actions: Seq::empty() }
        } else if registered {
            Reaction { stage: Stage::Running, actions: Seq::empty() }
        } else {
            Reaction {
                stage: Stage::Aborted,
                actions: seq![
                    ActionView::Abort(
                        FatalView::HotkeyRegistration { accelerator: self.config.activation_shortcut },
                    ),
                ],
            }
        }
    }

    /// The answer to the start of the process: the whole wiring, once.
    pub open spec fn launch_reaction(self) -> Reaction {
        if self.stage is Created {
            Reaction {
                stage: if self.config.hotkey_enabled() {
                    Stage::AwaitingHotkey
                } else {
                    Stage::Running
                },
                actions: self.launch_plan(),
            }
        } else {
            Reaction { stage: self.stage, actions: Seq::empty() }
        }
    }

    /// The answer to an event: the next stage and the actions to carry out.
    /// An event that has no handler in the current stage changes nothing
    /// and asks for nothing.
    pub open spec fn react(self, event: EventView) -> Reaction {
        match event {
            EventView::Launch => self.launch_reaction(),
            EventView::HotkeyRegistered => self.registration_reaction(true),
            EventView::HotkeyRejected => self.registration_reaction(false),
            EventView::HotkeyPressed(probe) => self.hotkey_reaction(probe),
            EventView::Tray(id, probe) => self.tray_reaction(id, probe),
            EventView::CloseRequested => self.close_reaction(),
        }
    }

    /// The controller after an event.
    pub open spec fn step(self, event: EventView) -> ControllerView {
        ControllerView { stage: self.react(event).stage, ..self }
    }

    /// The controller after a run of events, taken front to back.
    pub open spec fn run(self, events: Seq<EventView>) -> ControllerView
        decreases events.len(),
    {
        if events.len() == 0 {
            self
        } else {
            self.run(events.drop_last()).step(events.last())
        }
    }

    /// Every action asked for over a run of events, in order.
    pub open spec fn trace(self, events: Seq<EventView>) -> Seq<ActionView>
        decreases events.len(),
    {
        if events.len() == 0 {
            Seq::empty()
        } else {
            self.trace(events.drop_last()) + self.run(events.drop_last()).react(events.last()).actions
        }
    }
}

/// The lifecycle controller of one shell process.
#[derive(Debug)]
pub struct Controller {
    config: ShellConfig,
    data_dir: String,
    policy: ClosePolicy,
    tray_menu: TrayMenu,
    stage: Stage,
}

impl View for Controller {
    type V = ControllerView;

    closed spec fn view(&self) -> ControllerView {
        ControllerView {
            config: self.config@,
            data_dir: self.data_dir@,
            policy: self.policy,
            tray_menu: self.tray_menu@,
            stage: self.stage,
        }
    }
}

impl Controller {
    /// Holds of every controller there is.
    #[verifier::type_invariant]
    pub open spec fn well_formed(self) -> bool {
        self@.wf()
    }

    /// A controller for the given configuration, with nothing wired yet.
    ///
    /// `data_dir` is where the window's state is persisted, `policy` is the
    /// answer to close requests, chosen once, and `tray_menu` says what the
    /// tray's identifiers mean.
    pub fn new(config: ShellConfig, data_dir: String, policy: ClosePolicy, tray_menu: TrayMenu) -> (controller:
        Controller)
        ensures
            controller@ == ControllerView::initial(config@, data_dir@, policy, tray_menu@),
            controller@.wf(),
    {
        proof {
            use_type_invariant(&config);
        }
        Controller { config, data_dir, policy, tray_menu, stage: Stage::Created }
    }

    /// The stage the controller is in.
    pub fn stage(&self) -> (stage: Stage)
        ensures
            stage == self@.stage,
    {
        self.stage
    }

    /// Whether the process is still there.
    pub fn is_alive(&self) -> (alive: bool)
        ensures
            alive == self@.alive(),
    {
        match self.stage {
            Stage::Aborted | Stage::Exited => false,
            _ => true,
        }
    }

    /// Whether a tray icon and its event handler are in place.
    pub fn tray_attached(&self) -> (attached: bool)
        ensures
            attached == self@.tray_attached(),
    {
        match self.stage {
            Stage::Created => false,
            _ => self.config.show_system_tray(),
        }
    }

    /// Whether the bridge operations are reachable from the web content.
    pub fn bridge_registered(&self) -> (registered: bool)
        ensures
            registered == self@.bridge_registered(),
    {
        match self.stage {
            Stage::Created => false,
            _ => true,
        }
    }

    /// Whether the global hotkey is registered and bound to the toggle.
    pub fn hotkey_registered(&self) -> (registered: bool)
        ensures
            registered == self@.hotkey_registered(),
    {
        match self.stage {
            Stage::Running => self.config.hotkey_enabled(),
            _ => false,
        }
    }

    /// Everything the runtime does at launch, in order.
    fn launch_plan(&self) -> (plan: Vec<Action>)
        ensures
            action_views(plan@) == self@.launch_plan(),
    {
        let mut plan: Vec<Action> = Vec::new();
        if self.config.show_system_tray() {
            plan.push(Action::AttachTray);
        }
        plan.push(Action::RegisterBridge { commands: BridgeCommand::all() });
        plan.push(Action::InstallCloseInterceptor);
        plan.push(
            Action::BuildWindow {
                window: self.config.primary_window().clone(),
                data_dir: self.data_dir.clone(),
            },
        );
        plan.push(Action::Window(WindowCommand::Show));
        if self.config.hotkey_enabled() {
            plan.push(Action::RegisterHotkey { accelerator: self.config.activation_shortcut().clone() });
        }
        assert(action_views(plan@) =~= self@.launch_plan());
        plan
    }

    /// Whether the shell is wired and has not ended.
    fn handling(&self) -> (handling: bool)
        ensures
            handling == self@.handling(),
    {
        match self.stage {
            Stage::AwaitingHotkey | Stage::Running => true,
            _ => false,
        }
    }

    /// Takes in one event, moves to the next stage and returns what the
    /// runtime has to carry out, in order.
    pub fn step(&mut self, event: &Event) -> (actions: Vec<Action>)
        ensures
            final(self)@ == old(self)@.step(event@),
            action_views(actions@) == old(self)@.react(event@).actions,
            old(self)@.wf(),
            final(self)@.wf(),
    {
        proof {
            use_type_invariant(&*self);
        }
        match event {
            Event::Launch => {
                match self.stage {
                    Stage::Created => {
                        let plan = self.launch_plan();
                        self.stage = if self.config.hotkey_enabled() {
                            Stage::AwaitingHotkey
                        } else {
                            Stage::Running
                        };
                        plan
                    },
                    _ => no_actions(),
                }
            },
            Event::HotkeyRegistered => {
                match self.stage {
                    Stage::AwaitingHotkey => {
                        self.stage = Stage::Running;
                        no_actions()
                    },
                    _ => no_actions(),
                }
            },
            Event::HotkeyRejected => {
                match self.stage {
                    Stage::AwaitingHotkey => {
                        self.stage = Stage::Aborted;
                        abort(
                            Fatal::HotkeyRegistration {
                                accelerator: self.config.activation_shortcut().clone(),
                            },
                        )
                    },
                    _ => no_actions(),
                }
            },
            Event::HotkeyPressed(probe) => {
                if self.hotkey_registered() {
                    let (stage, actions) = toggle(self.stage, *probe);
                    self.stage = stage;
                    actions
                } else {
                    no_actions()
                }
            },
            Event::Tray(tray_event, probe) => {
                if !(self.handling() && self.tray_attached()) {
                    no_actions()
                } else {
                    match self.tray_menu.resolve(tray_event) {
                        Some(TrayAction::ToggleVisibility) => {
                            let (stage, actions) = toggle(self.stage, *probe);
                            self.stage = stage;
                            actions
                        },
                        Some(TrayAction::Quit) => {
                            self.stage = Stage::Exited;
                            let mut actions: Vec<Action> = Vec::new();
                            actions.push(Action::Exit);
                            assert(action_views(actions@) =~= seq![ActionView::Exit]);
                            actions
                        },
                        None => no_actions(),
                    }
                }
            },
            Event::CloseRequested => {
                if self.handling() {
                    if !self.policy.survives_close() {
                        self.stage = Stage::Exited;
                    }
                    on_close_requested(self.policy)
                } else {
                    no_actions()
                }
            },
        }
    }

    /// Takes in a run of events, front to back, and returns everything the
    /// runtime has to carry out over the whole run, in order.
    pub fn step_all(&mut self, events: &Vec<Event>) -> (actions: Vec<Action>)
        ensures
            final(self)@ == old(self)@.run(event_views(events@)),
            action_views(actions@) == old(self)@.trace(event_views(events@)),
            final(self)@.wf(),
    {
        proof {
            use_type_invariant(&*self);
        }
        let ghost start = self@;
        let ghost views = event_views(events@);
        let mut actions: Vec<Action> = Vec::new();
        let mut i: usize = 0;
        proof {
            assert(views.take(0) =~= Seq::<EventView>::empty());
            assert(action_views(actions@) =~= Seq::<ActionView>::empty());
        }
        while i < events.len()
            invariant
                i <= events.len(),
                views == event_views(events@),
                self@ == start.run(views.take(i as int)),
                action_views(actions@) == start.trace(views.take(i as int)),
                self@.wf(),
            decreases events.len() - i,
        {
            let ghost so_far = action_views(actions@);
            let mut answer = self.step(&events[i]);
            let ghost answer_views = action_views(answer@);
            proof {
                let next = views.take(i + 1);
                assert(next.drop_last() =~= views.take(i as int));
                assert(next.last() == events@[i as int]@);
            }
            let ghost before = actions@;
            let ghost added = answer@;
            actions.append(&mut answer);
            proof {
                assert(actions@ == before + added);
                assert(action_views(actions@) =~= so_far + answer_views);
            }
            i = i + 1;
        }
        proof {
            assert(views.take(i as int) =~= views);
        }
        actions
    }
}

/// Nothing to carry out.
fn no_actions() -> (actions: Vec<Action>)
    ensures
        action_views(actions@) == Seq::<ActionView>::empty(),
{
    let actions: Vec<Action> = Vec::new();
    assert(action_views(actions@) =~= Seq::<ActionView>::empty());
    actions
}

/// The single action that ends the process on a fatal condition.
fn abort(fatal: Fatal) -> (actions: Vec<Action>)
    ensures
        action_views(actions@) == seq![ActionView::Abort(fatal@)],
{
    let mut actions: Vec<Action> = Vec::new();
    actions.push(Action::Abort(fatal));
    assert(action_views(actions@) =~= seq![ActionView::Abort(fatal@)]);
    actions
}

/// One trigger of the visibility toggle in the given stage.
fn toggle(stage: Stage, probe: WindowProbe) -> (reaction: (Stage, Vec<Action>))
    ensures
        reaction.0 == toggle_reaction(stage, probe).stage,
        action_views(reaction.1@) == toggle_reaction(stage, probe).actions,
{
    match toggle_visibility(probe) {
        Ok(commands) => (stage, wrap_commands(&commands)),
        Err(fatal) => (Stage::Aborted, abort(fatal)),
    }
}

} // verus!
