//! What holds of the controller in every stage and over every run of events.
//!
//! Each law is a theorem about [`ControllerView`], the mathematical content
//! of a controller, and so about every controller the library can build.

use crate::action::ActionView;
use crate::bridge::BridgeCommand;
use crate::close::{law_close_policy, law_close_veto_first, lemma_close_response, ClosePolicy, Platform};
use crate::controller::{ControllerView, EventView, Stage};
use crate::fatal::FatalView;
use crate::toggle::{toggle_response, toggled};
use crate::window::{WindowCommand, WindowModel, WindowProbe};
use vstd::prelude::*;

verus! {

/// Whether an action is part of the startup wiring.
pub open spec fn is_wiring(action: ActionView) -> bool {
    action is AttachTray || action is RegisterBridge || action is InstallCloseInterceptor
        || action is BuildWindow || action is RegisterHotkey
}

/// Whether an action reports a failed hotkey registration.
pub open spec fn is_registration_failure(action: ActionView) -> bool {
    action matches ActionView::Abort(fatal) && fatal is HotkeyRegistration
}

/// The launch plan, position by position: the tray first where there is
/// one, then the bridge, the close interceptor, the window built from the
/// first window spec, the window shown, and the hotkey last where there is
/// one.
pub proof fn lemma_launch_plan(c: ControllerView)
    ensures
        ({
            let plan = c.launch_plan();
            let t = c.tray_steps().len() as int;
            let h = c.hotkey_steps().len() as int;
            &&& t == if c.config.show_system_tray { 1int } else { 0int }
            &&& h == if c.config.hotkey_enabled() { 1int } else { 0int }
            &&& plan.len() == t + 4 + h
            &&& (t == 1 ==> plan[0] == ActionView::AttachTray)
            &&& plan[t] == ActionView::RegisterBridge { commands: BridgeCommand::all_spec() }
            &&& plan[t + 1] == ActionView::InstallCloseInterceptor
            &&& plan[t + 2] == ActionView::BuildWindow {
                window: c.config.primary_window(),
                data_dir: c.data_dir,
            }
            &&& plan[t + 3] == ActionView::Window(WindowCommand::Show)
            &&& (h == 1 ==> plan[t + 4] == ActionView::RegisterHotkey {
                accelerator: c.config.activation_shortcut,
            })
        }),
{
}

/// The order of the wiring. The tray is attached exactly where the
/// configuration asks for one, the bridge is registered whatever the
/// configuration says, and exactly one window is built. All of that, and
/// the close interceptor, is in place before the window is put on screen.
/// The hotkey is registered exactly where the accelerator is not empty,
/// for that accelerator and no other, and only once the window is shown.
pub proof fn law_launch_order(c: ControllerView)
    ensures
        ({
            let plan = c.launch_plan();
            &&& (exists|i: int| 0 <= i < plan.len() && #[trigger] plan[i] is AttachTray)
                <==> c.config.show_system_tray
            &&& exists|i: int|
                0 <= i < plan.len() && #[trigger] plan[i] == ActionView::RegisterBridge {
                    commands: BridgeCommand::all_spec(),
                }
            &&& exists|i: int| 0 <= i < plan.len() && #[trigger] plan[i] is InstallCloseInterceptor
            &&& exists|i: int| 0 <= i < plan.len() && #[trigger] plan[i] is BuildWindow
            &&& forall|i: int, j: int|
                0 <= i < plan.len() && 0 <= j < plan.len() && #[trigger] plan[i] is BuildWindow
                    && #[trigger] plan[j] is BuildWindow ==> i == j
            &&& forall|i: int|
                0 <= i < plan.len() && #[trigger] plan[i] is BuildWindow ==> plan[i]
                    == ActionView::BuildWindow { window: c.config.windows[0], data_dir: c.data_dir }
            &&& forall|i: int, j: int|
                0 <= i < plan.len() && 0 <= j < plan.len() && (#[trigger] plan[i] is AttachTray
                    || plan[i] is RegisterBridge || plan[i] is InstallCloseInterceptor
                    || plan[i] is BuildWindow) && #[trigger] plan[j] == ActionView::Window(
                    WindowCommand::Show,
                ) ==> i < j
            &&& (exists|i: int| 0 <= i < plan.len() && #[trigger] plan[i] is RegisterHotkey)
                <==> c.config.activation_shortcut.len() > 0
            &&& forall|i: int|
                0 <= i < plan.len() && #[trigger] plan[i] is RegisterHotkey ==> plan[i]
                    == ActionView::RegisterHotkey { accelerator: c.config.activation_shortcut }
            &&& forall|i: int, j: int|
                0 <= i < plan.len() && 0 <= j < plan.len() && #[trigger] plan[i] is RegisterHotkey
                    && #[trigger] plan[j] == ActionView::Window(WindowCommand::Show) ==> j < i
        }),
{
    lemma_launch_plan(c);
    let plan = c.launch_plan();
    let t = c.tray_steps().len() as int;
    assert(plan[t] == ActionView::RegisterBridge { commands: BridgeCommand::all_spec() });
    assert(plan[t + 1] is InstallCloseInterceptor);
    assert(plan[t + 2] is BuildWindow);
    if c.config.show_system_tray {
        assert(plan[0] is AttachTray);
    }
    if c.config.hotkey_enabled() {
        assert(plan[t + 4] is RegisterHotkey);
    }
}

/// The launch builds the one window and leaves it on screen: what was no
/// window before is, once the launch plan is carried out, a live window
/// that is visible.
pub proof fn law_launch_shows_window(c: ControllerView)
    ensures
        WindowModel::Absent.after_actions(c.launch_plan()) == (WindowModel::Live {
            visible: true,
            focused: false,
            minimized: false,
        }),
{
    let absent = WindowModel::Absent;
    let bridge = ActionView::RegisterBridge { commands: BridgeCommand::all_spec() };
    let intercept = ActionView::InstallCloseInterceptor;
    let build = ActionView::BuildWindow { window: c.config.primary_window(), data_dir: c.data_dir };
    let show = ActionView::Window(WindowCommand::Show);
    let core = c.core_steps();
    assert(core =~= seq![bridge] + seq![intercept] + seq![build] + seq![show]);
    absent.lemma_after_one_action(ActionView::AttachTray);
    absent.lemma_after_none_action();
    assert(absent.after_actions(c.tray_steps()) == absent);
    absent.lemma_after_actions_concat(c.tray_steps(), core);
    absent.lemma_after_one_action(bridge);
    absent.lemma_after_one_action(intercept);
    absent.lemma_after_one_action(build);
    WindowModel::created().lemma_after_one_action(show);
    absent.lemma_after_actions_concat(seq![bridge], seq![intercept]);
    absent.lemma_after_actions_concat(seq![bridge] + seq![intercept], seq![build]);
    absent.lemma_after_actions_concat(seq![bridge] + seq![intercept] + seq![build], seq![show]);
    let shown = absent.after_actions(core);
    assert(shown == WindowModel::created().after(WindowCommand::Show));
    shown.lemma_after_one_action(ActionView::RegisterHotkey { accelerator: c.config.activation_shortcut });
    shown.lemma_after_none_action();
    assert(shown.after_actions(c.hotkey_steps()) == shown);
    absent.lemma_after_actions_concat(c.tray_steps() + core, c.hotkey_steps());
}

/// Once the launch is behind it, a controller never asks for any wiring
/// again: nothing is attached, registered, installed or built later.
pub proof fn law_wiring_happens_at_launch_only(c: ControllerView, events: Seq<EventView>)
    requires
        c.launched(),
    ensures
        c.run(events).launched(),
        forall|i: int| 0 <= i < c.trace(events).len() ==> !is_wiring(#[trigger] c.trace(events)[i]),
    decreases events.len(),
{
    if events.len() > 0 {
        let before = c.run(events.drop_last());
        law_wiring_happens_at_launch_only(c, events.drop_last());
        lemma_wiring_only_at_launch(before, events.last());
        let earlier = c.trace(events.drop_last());
        let now = before.react(events.last()).actions;
        assert forall|i: int| 0 <= i < c.trace(events).len() implies !is_wiring(
            #[trigger] c.trace(events)[i],
        ) by {
            if i >= earlier.len() {
                assert(c.trace(events)[i] == now[i - earlier.len()]);
            } else {
                assert(c.trace(events)[i] == earlier[i]);
            }
        }
    }
}

/// An event changes the stage and nothing else, and it keeps the controller
/// well formed.
pub proof fn law_step_keeps_configuration(c: ControllerView, event: EventView)
    requires
        c.wf(),
    ensures
        c.step(event).wf(),
        c.step(event) == (ControllerView { stage: c.step(event).stage, ..c }),
{
}

/// No run of events changes what the controller was configured with, and
/// every stage it passes through is well formed.
pub proof fn law_run_keeps_configuration(c: ControllerView, events: Seq<EventView>)
    requires
        c.wf(),
    ensures
        c.run(events).wf(),
        c.run(events) == (ControllerView { stage: c.run(events).stage, ..c }),
    decreases events.len(),
{
    if events.len() > 0 {
        law_run_keeps_configuration(c, events.drop_last());
        law_step_keeps_configuration(c.run(events.drop_last()), events.last());
    }
}

/// Once the process has ended, no event changes anything or asks for
/// anything.
pub proof fn law_ended_is_final(c: ControllerView, event: EventView)
    requires
        !c.alive(),
    ensures
        c.react(event).stage == c.stage,
        c.react(event).actions == Seq::<ActionView>::empty(),
{
}

/// A controller never returns to the stage it was created in, and the
/// wiring is handed out in answer to the launch from that stage only.
pub proof fn lemma_wiring_only_at_launch(c: ControllerView, event: EventView)
    ensures
        c.react(event).stage is Created ==> c.stage is Created && c.react(event).actions
            == Seq::<ActionView>::empty(),
        c.stage is Created && event is Launch ==> c.react(event).actions == c.launch_plan(),
        !(c.stage is Created && event is Launch) ==> forall|i: int|
            0 <= i < c.react(event).actions.len() ==> !is_wiring(#[trigger] c.react(event).actions[i]),
{
    law_close_veto_first(c.policy);
}

/// Without a tray in the configuration, a tray event reaches no handler: it
/// changes nothing and asks for nothing, whatever its identifier and
/// whatever the stage.
pub proof fn law_tray_event_without_tray(c: ControllerView, id: Seq<char>, probe: WindowProbe)
    requires
        !c.config.show_system_tray,
    ensures
        !c.tray_attached(),
        c.react(EventView::Tray(id, probe)).stage == c.stage,
        c.react(EventView::Tray(id, probe)).actions == Seq::<ActionView>::empty(),
{
}

/// Without a tray in the configuration, no run of events ever attaches one.
pub proof fn law_tray_gating(c: ControllerView, events: Seq<EventView>)
    requires
        c.wf(),
        !c.config.show_system_tray,
    ensures
        !c.run(events).tray_attached(),
        forall|i: int| 0 <= i < c.trace(events).len() ==> !(#[trigger] c.trace(events)[i] is AttachTray),
    decreases events.len(),
{
    law_run_keeps_configuration(c, events);
    if events.len() > 0 {
        let before = c.run(events.drop_last());
        law_tray_gating(c, events.drop_last());
        law_run_keeps_configuration(c, events.drop_last());
        lemma_wiring_only_at_launch(before, events.last());
        lemma_launch_plan(before);
        let earlier = c.trace(events.drop_last());
        let now = before.react(events.last()).actions;
        assert forall|i: int| 0 <= i < c.trace(events).len() implies !(#[trigger] c.trace(
            events,
        )[i] is AttachTray) by {
            if i >= earlier.len() {
                assert(c.trace(events)[i] == now[i - earlier.len()]);
                if !(before.stage is Created && events.last() is Launch) {
                    assert(!is_wiring(now[i - earlier.len()]));
                }
            } else {
                assert(c.trace(events)[i] == earlier[i]);
            }
        }
    }
}

/// With an empty accelerator, a press of the hotkey reaches no handler: it
/// changes nothing and asks for nothing.
pub proof fn law_hotkey_press_without_hotkey(c: ControllerView, probe: WindowProbe)
    requires
        !c.config.hotkey_enabled(),
    ensures
        !c.hotkey_registered(),
        c.react(EventView::HotkeyPressed(probe)).stage == c.stage,
        c.react(EventView::HotkeyPressed(probe)).actions == Seq::<ActionView>::empty(),
{
}

/// With an empty accelerator, no run of events ever attempts a hotkey
/// registration: none is asked for, none is ever outstanding, and none is
/// ever reported as failed.
pub proof fn law_hotkey_gating(c: ControllerView, events: Seq<EventView>)
    requires
        c.wf(),
        !c.config.hotkey_enabled(),
    ensures
        !(c.run(events).stage is AwaitingHotkey),
        !c.run(events).hotkey_registered(),
        forall|i: int|
            0 <= i < c.trace(events).len() ==> !(#[trigger] c.trace(events)[i] is RegisterHotkey),
        forall|i: int|
            0 <= i < c.trace(events).len() ==> !is_registration_failure(#[trigger] c.trace(events)[i]),
    decreases events.len(),
{
    law_run_keeps_configuration(c, events);
    if events.len() > 0 {
        let before = c.run(events.drop_last());
        law_hotkey_gating(c, events.drop_last());
        law_run_keeps_configuration(c, events.drop_last());
        lemma_wiring_only_at_launch(before, events.last());
        lemma_launch_plan(before);
        law_close_veto_first(before.policy);
        let earlier = c.trace(events.drop_last());
        let now = before.react(events.last()).actions;
        assert forall|i: int| 0 <= i < now.len() implies !(#[trigger] now[i] is RegisterHotkey)
            && !is_registration_failure(now[i]) by {
            if !(before.stage is Created && events.last() is Launch) {
                assert(!is_wiring(now[i]));
            }
        }
        assert forall|i: int| 0 <= i < c.trace(events).len() implies !(#[trigger] c.trace(
            events,
        )[i] is RegisterHotkey) && !is_registration_failure(c.trace(events)[i]) by {
            if i >= earlier.len() {
                assert(c.trace(events)[i] == now[i - earlier.len()]);
            } else {
                assert(c.trace(events)[i] == earlier[i]);
            }
        }
    }
}

/// Over any run of events the window factory is asked for a window at most
/// once, and never before the launch.
pub proof fn law_single_window(c: ControllerView, events: Seq<EventView>)
    requires
        c.wf(),
    ensures
        forall|i: int, j: int|
            0 <= i < c.trace(events).len() && 0 <= j < c.trace(events).len() && #[trigger] c.trace(
                events,
            )[i] is BuildWindow && #[trigger] c.trace(events)[j] is BuildWindow ==> i == j,
        c.run(events).stage is Created ==> forall|i: int|
            0 <= i < c.trace(events).len() ==> !(#[trigger] c.trace(events)[i] is BuildWindow),
    decreases events.len(),
{
    if events.len() > 0 {
        let before = c.run(events.drop_last());
        law_single_window(c, events.drop_last());
        lemma_wiring_only_at_launch(before, events.last());
        lemma_launch_plan(before);
        let earlier = c.trace(events.drop_last());
        let now = before.react(events.last()).actions;
        let all = c.trace(events);
        assert(all == earlier + now);
        assert forall|i: int| 0 <= i < now.len() && !(before.stage is Created && events.last() is Launch)
            implies !(#[trigger] now[i] is BuildWindow) by {
            assert(!is_wiring(now[i]));
        }
        assert forall|i: int, j: int|
            0 <= i < all.len() && 0 <= j < all.len() && #[trigger] all[i] is BuildWindow
                && #[trigger] all[j] is BuildWindow implies i == j by {
            if i < earlier.len() {
                assert(all[i] == earlier[i]);
            } else {
                assert(all[i] == now[i - earlier.len()]);
            }
            if j < earlier.len() {
                assert(all[j] == earlier[j]);
            } else {
                assert(all[j] == now[j - earlier.len()]);
            }
        }
        if c.run(events).stage is Created {
            assert forall|i: int| 0 <= i < all.len() implies !(#[trigger] all[i] is BuildWindow) by {
                assert(all[i] == earlier[i]);
            }
        }
    }
}

/// From the moment the close interceptor is installed until the process
/// ends, every close request is answered, under every policy, by stopping
/// the platform's own close first; whatever the policy then asks for comes
/// after, and is a window command.
pub proof fn law_close_veto(c: ControllerView)
    requires
        c.handling(),
    ensures
        c.close_intercepted(),
        c.react(EventView::CloseRequested).actions.len() >= 2,
        c.react(EventView::CloseRequested).actions[0] == ActionView::PreventClose,
        forall|i: int|
            1 <= i < c.react(EventView::CloseRequested).actions.len() ==> (#[trigger] c.react(
                EventView::CloseRequested,
            ).actions[i]) is Window,
{
    law_close_veto_first(c.policy);
}

/// The platform decides what a close request leads to. Where applications
/// stay in the background, the process lives on in the stage it was in and
/// the window is alive but off screen. Everywhere else the window is
/// destroyed and the process has ended.
pub proof fn law_platform_close_policy(c: ControllerView, platform: Platform, window: WindowModel)
    requires
        c.handling(),
        c.policy == ClosePolicy::of(platform),
        window.is_live(),
    ensures
        ({
            let reaction = c.react(EventView::CloseRequested);
            let after = window.after_actions(reaction.actions);
            &&& platform is MacOs ==> c.step(EventView::CloseRequested).alive() && reaction.stage
                == c.stage && after.is_live() && !after.is_visible()
            &&& !(platform is MacOs) ==> !c.step(EventView::CloseRequested).alive() && reaction.stage
                == Stage::Exited && after is Destroyed
        }),
{
    law_close_policy(c.policy, window);
}

/// A press of the registered hotkey acts on the window exactly as one
/// trigger of the toggle, and leaves the controller running. Only a lookup
/// that finds no window ends the process instead.
pub proof fn law_hotkey_press_toggles(c: ControllerView, window: WindowModel)
    requires
        c.hotkey_registered(),
    ensures
        ({
            let reaction = c.react(EventView::HotkeyPressed(window.probe_spec()));
            &&& !(window is Absent) ==> reaction.stage == Stage::Running && window.after_actions(
                reaction.actions,
            ) == toggled(window)
            &&& window is Absent ==> reaction.stage == Stage::Aborted && reaction.actions
                == seq![ActionView::Abort(FatalView::WindowMissing)]
        }),
{
    window.lemma_after_window_actions(toggle_response(window.probe_spec()));
}

} // verus!
