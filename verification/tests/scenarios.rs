use shell_lifecycle::action::Action;
use shell_lifecycle::bridge::BridgeCommand;
use shell_lifecycle::close::{ClosePolicy, Platform};
use shell_lifecycle::config::{ShellConfig, WindowSpec};
use shell_lifecycle::controller::{Controller, Event, Stage};
use shell_lifecycle::fatal::Fatal;
use shell_lifecycle::tray::{TrayAction, TrayBinding, TrayEvent, TrayMenu};
use shell_lifecycle::window::{Visibility, WindowCommand, WindowModel, WindowProbe};

fn example_window() -> WindowSpec {
    WindowSpec { url: "https://example.com".to_string(), width: 1200, height: 780 }
}

fn example_menu() -> TrayMenu {
    TrayMenu::new(vec![
        TrayBinding { id: "toggle".to_string(), action: TrayAction::ToggleVisibility },
        TrayBinding { id: "quit".to_string(), action: TrayAction::Quit },
    ])
}

fn controller(tray: bool, shortcut: &str, platform: Platform) -> Controller {
    let config = ShellConfig::new(vec![example_window()], tray, shortcut.to_string())
        .expect("one window is configured");
    Controller::new(config, "/data/shell".to_string(), ClosePolicy::for_platform(platform), example_menu())
}

fn build_window() -> Action {
    Action::BuildWindow { window: example_window(), data_dir: "/data/shell".to_string() }
}

fn register_bridge() -> Action {
    Action::RegisterBridge {
        commands: vec![BridgeCommand::DownloadFile, BridgeCommand::DownloadFileByBinary, BridgeCommand::Open],
    }
}

fn tray(id: &str, probe: WindowProbe) -> Event {
    Event::Tray(TrayEvent { id: id.to_string() }, probe)
}

#[test]
fn startup_with_tray_and_hotkey_then_toggle_twice() {
    let mut shell = controller(true, "CmdOrCtrl+Shift+P", Platform::Linux);
    let mut window = WindowModel::Absent;
    assert_eq!(shell.stage(), Stage::Created);
    assert!(!shell.tray_attached());
    assert!(!shell.bridge_registered());

    let plan = shell.step(&Event::Launch);
    assert_eq!(
        plan,
        vec![
            Action::AttachTray,
            register_bridge(),
            Action::InstallCloseInterceptor,
            build_window(),
            Action::Window(WindowCommand::Show),
            Action::RegisterHotkey { accelerator: "CmdOrCtrl+Shift+P".to_string() },
        ]
    );
    assert_eq!(shell.stage(), Stage::AwaitingHotkey);
    window.apply_actions(&plan);
    assert_eq!(window, WindowModel::Live { visible: true, focused: false, minimized: false });

    assert_eq!(shell.step(&Event::HotkeyRegistered), vec![]);
    assert_eq!(shell.stage(), Stage::Running);
    assert!(shell.tray_attached());
    assert!(shell.bridge_registered());
    assert!(shell.hotkey_registered());

    let first = shell.step(&Event::HotkeyPressed(window.probe()));
    assert_eq!(first, vec![Action::Window(WindowCommand::Hide)]);
    window.apply_actions(&first);
    assert_eq!(window.probe(), WindowProbe::Live(Visibility::Hidden));

    let second = shell.step(&Event::HotkeyPressed(window.probe()));
    assert_eq!(second, vec![Action::Window(WindowCommand::Show), Action::Window(WindowCommand::SetFocus)]);
    window.apply_actions(&second);
    assert_eq!(window, WindowModel::Live { visible: true, focused: true, minimized: false });
    assert_eq!(shell.stage(), Stage::Running);
    assert!(shell.is_alive());
}

#[test]
fn startup_without_tray_and_hotkey() {
    let mut shell = controller(false, "", Platform::Linux);
    let plan = shell.step(&Event::Launch);
    assert_eq!(
        plan,
        vec![
            register_bridge(),
            Action::InstallCloseInterceptor,
            build_window(),
            Action::Window(WindowCommand::Show),
        ]
    );
    assert_eq!(shell.stage(), Stage::Running);
    assert!(!shell.tray_attached());
    assert!(!shell.hotkey_registered());
    assert!(shell.bridge_registered());
    assert!(shell.is_alive());
}

#[test]
fn unregistrable_shortcut_aborts_startup() {
    let mut shell = controller(false, "Invalid++Combo", Platform::Linux);
    let plan = shell.step(&Event::Launch);
    assert_eq!(plan.last(), Some(&Action::RegisterHotkey { accelerator: "Invalid++Combo".to_string() }));
    assert_eq!(shell.stage(), Stage::AwaitingHotkey);

    let end = shell.step(&Event::HotkeyRejected);
    assert_eq!(end, vec![Action::Abort(Fatal::HotkeyRegistration { accelerator: "Invalid++Combo".to_string() })]);
    assert_eq!(shell.stage(), Stage::Aborted);
    assert!(!shell.is_alive());
    match &end[0] {
        Action::Abort(fatal) => {
            assert!(fatal.message().contains("Invalid++Combo"));
            assert_ne!(fatal.exit_code(), 0);
        }
        other => panic!("expected an abort, got {:?}", other),
    }
}

#[test]
fn tray_events_reach_nothing_without_a_tray() {
    let mut shell = controller(false, "", Platform::Linux);
    let plan = shell.step(&Event::Launch);
    assert!(!plan.contains(&Action::AttachTray));
    let visible = WindowProbe::Live(Visibility::Visible);
    assert_eq!(shell.step(&tray("toggle", visible)), vec![]);
    assert_eq!(shell.step(&tray("quit", visible)), vec![]);
    assert_eq!(shell.step(&tray("quit", WindowProbe::Missing)), vec![]);
    assert_eq!(shell.stage(), Stage::Running);
    assert!(!shell.tray_attached());
}

#[test]
fn hotkey_is_inert_for_an_empty_accelerator() {
    let mut shell = controller(true, "", Platform::Linux);
    let plan = shell.step(&Event::Launch);
    assert!(plan.iter().all(|action| !matches!(action, Action::RegisterHotkey { .. })));
    assert_eq!(shell.stage(), Stage::Running);
    assert_eq!(shell.step(&Event::HotkeyRejected), vec![]);
    assert_eq!(shell.step(&Event::HotkeyRegistered), vec![]);
    assert_eq!(shell.step(&Event::HotkeyPressed(WindowProbe::Live(Visibility::Visible))), vec![]);
    assert_eq!(shell.step(&Event::HotkeyPressed(WindowProbe::Missing)), vec![]);
    assert_eq!(shell.stage(), Stage::Running);
    assert!(!shell.hotkey_registered());
}

#[test]
fn hotkey_press_before_registration_completes_is_ignored() {
    let mut shell = controller(false, "Alt+Space", Platform::Linux);
    shell.step(&Event::Launch);
    assert_eq!(shell.step(&Event::HotkeyPressed(WindowProbe::Live(Visibility::Visible))), vec![]);
    assert_eq!(shell.stage(), Stage::AwaitingHotkey);
    assert!(!shell.hotkey_registered());
}

#[test]
fn launch_happens_once() {
    let mut shell = controller(true, "", Platform::Linux);
    assert_eq!(shell.step(&Event::Launch).len(), 5);
    assert_eq!(shell.step(&Event::Launch), vec![]);
    assert_eq!(shell.stage(), Stage::Running);
}

#[test]
fn nothing_is_handled_before_launch() {
    let mut shell = controller(true, "Alt+Space", Platform::Linux);
    let visible = WindowProbe::Live(Visibility::Visible);
    assert_eq!(shell.step(&Event::CloseRequested), vec![]);
    assert_eq!(shell.step(&tray("quit", visible)), vec![]);
    assert_eq!(shell.step(&Event::HotkeyPressed(visible)), vec![]);
    assert_eq!(shell.step(&Event::HotkeyRejected), vec![]);
    assert_eq!(shell.stage(), Stage::Created);
}

#[test]
fn close_request_keeps_the_process_on_macos() {
    let mut shell = controller(false, "", Platform::MacOs);
    let mut window = WindowModel::Absent;
    window.apply_actions(&shell.step(&Event::Launch));
    let answer = shell.step(&Event::CloseRequested);
    assert_eq!(
        answer,
        vec![
            Action::PreventClose,
            Action::Window(WindowCommand::Minimize),
            Action::Window(WindowCommand::Hide),
        ]
    );
    window.apply_actions(&answer);
    assert_eq!(window, WindowModel::Live { visible: false, focused: false, minimized: true });
    assert_eq!(shell.stage(), Stage::Running);
    assert!(shell.is_alive());

    let again = shell.step(&Event::CloseRequested);
    let before = window;
    window.apply_actions(&again);
    assert_eq!(window, before);
}

#[test]
fn close_request_ends_the_process_elsewhere() {
    for platform in [Platform::Windows, Platform::Linux, Platform::Other] {
        let mut shell = controller(true, "", platform);
        let mut window = WindowModel::Absent;
        window.apply_actions(&shell.step(&Event::Launch));
        let answer = shell.step(&Event::CloseRequested);
        assert_eq!(answer, vec![Action::PreventClose, Action::Window(WindowCommand::Close)]);
        window.apply_actions(&answer);
        assert_eq!(window, WindowModel::Destroyed);
        assert_eq!(shell.stage(), Stage::Exited);
        assert!(!shell.is_alive());
    }
}

#[test]
fn close_request_is_vetoed_while_registration_is_outstanding() {
    let mut shell = controller(false, "Alt+Space", Platform::MacOs);
    shell.step(&Event::Launch);
    let answer = shell.step(&Event::CloseRequested);
    assert_eq!(answer[0], Action::PreventClose);
    assert_eq!(shell.stage(), Stage::AwaitingHotkey);
}

#[test]
fn hidden_window_comes_back_after_close_on_macos() {
    let mut shell = controller(false, "Alt+Space", Platform::MacOs);
    let mut window = WindowModel::Absent;
    window.apply_actions(&shell.step(&Event::Launch));
    shell.step(&Event::HotkeyRegistered);
    window.apply_actions(&shell.step(&Event::CloseRequested));
    assert_eq!(window.probe(), WindowProbe::Live(Visibility::Hidden));
    window.apply_actions(&shell.step(&Event::HotkeyPressed(window.probe())));
    assert_eq!(window, WindowModel::Live { visible: true, focused: true, minimized: false });
}

#[test]
fn tray_toggle_acts_as_the_hotkey_does() {
    let mut shell = controller(true, "", Platform::Linux);
    let mut window = WindowModel::Absent;
    window.apply_actions(&shell.step(&Event::Launch));
    let hide = shell.step(&tray("toggle", window.probe()));
    assert_eq!(hide, vec![Action::Window(WindowCommand::Hide)]);
    window.apply_actions(&hide);
    let show = shell.step(&tray("toggle", window.probe()));
    assert_eq!(show, vec![Action::Window(WindowCommand::Show), Action::Window(WindowCommand::SetFocus)]);
    window.apply_actions(&show);
    assert_eq!(window, WindowModel::Live { visible: true, focused: true, minimized: false });
    assert_eq!(shell.stage(), Stage::Running);
}

#[test]
fn tray_quit_ends_the_process() {
    let mut shell = controller(true, "", Platform::MacOs);
    let mut window = WindowModel::Absent;
    window.apply_actions(&shell.step(&Event::Launch));
    let end = shell.step(&tray("quit", window.probe()));
    assert_eq!(end, vec![Action::Exit]);
    window.apply_actions(&end);
    assert_eq!(window, WindowModel::Destroyed);
    assert_eq!(shell.stage(), Stage::Exited);
}

#[test]
fn unknown_tray_identifier_is_ignored() {
    let mut shell = controller(true, "", Platform::Linux);
    shell.step(&Event::Launch);
    assert_eq!(shell.step(&tray("about", WindowProbe::Live(Visibility::Visible))), vec![]);
    assert_eq!(shell.step(&tray("", WindowProbe::Missing)), vec![]);
    assert_eq!(shell.stage(), Stage::Running);
}

#[test]
fn missing_window_is_fatal_for_the_toggle() {
    let mut shell = controller(true, "Alt+Space", Platform::Linux);
    shell.step(&Event::Launch);
    shell.step(&Event::HotkeyRegistered);
    let end = shell.step(&Event::HotkeyPressed(WindowProbe::Missing));
    assert_eq!(end, vec![Action::Abort(Fatal::WindowMissing)]);
    assert_eq!(shell.stage(), Stage::Aborted);

    let mut other = controller(true, "", Platform::Linux);
    other.step(&Event::Launch);
    assert_eq!(other.step(&tray("toggle", WindowProbe::Missing)), vec![Action::Abort(Fatal::WindowMissing)]);
    assert_eq!(other.stage(), Stage::Aborted);
}

#[test]
fn destroyed_window_makes_the_toggle_a_no_op() {
    let mut shell = controller(true, "Alt+Space", Platform::Linux);
    shell.step(&Event::Launch);
    shell.step(&Event::HotkeyRegistered);
    assert_eq!(shell.step(&Event::HotkeyPressed(WindowProbe::Destroyed)), vec![]);
    assert_eq!(shell.step(&tray("toggle", WindowProbe::Destroyed)), vec![]);
    assert_eq!(shell.stage(), Stage::Running);
}

#[test]
fn nothing_happens_after_the_end() {
    let mut shell = controller(true, "Alt+Space", Platform::Linux);
    shell.step(&Event::Launch);
    shell.step(&Event::HotkeyRejected);
    let visible = WindowProbe::Live(Visibility::Visible);
    assert_eq!(shell.step(&Event::Launch), vec![]);
    assert_eq!(shell.step(&Event::HotkeyRegistered), vec![]);
    assert_eq!(shell.step(&Event::HotkeyPressed(visible)), vec![]);
    assert_eq!(shell.step(&tray("quit", visible)), vec![]);
    assert_eq!(shell.step(&Event::CloseRequested), vec![]);
    assert_eq!(shell.stage(), Stage::Aborted);
}

#[test]
fn a_run_of_events_is_its_steps_in_order() {
    let events = vec![
        Event::Launch,
        Event::HotkeyRegistered,
        Event::HotkeyPressed(WindowProbe::Live(Visibility::Visible)),
        tray("about", WindowProbe::Live(Visibility::Hidden)),
        Event::CloseRequested,
        Event::HotkeyPressed(WindowProbe::Live(Visibility::Hidden)),
    ];
    let mut whole = controller(true, "Alt+Space", Platform::Windows);
    let all = whole.step_all(&events);

    let mut single = controller(true, "Alt+Space", Platform::Windows);
    let mut one_by_one: Vec<Action> = Vec::new();
    for event in &events {
        one_by_one.extend(single.step(event));
    }
    assert_eq!(all, one_by_one);
    assert_eq!(
        all,
        vec![
            Action::AttachTray,
            register_bridge(),
            Action::InstallCloseInterceptor,
            build_window(),
            Action::Window(WindowCommand::Show),
            Action::RegisterHotkey { accelerator: "Alt+Space".to_string() },
            Action::Window(WindowCommand::Hide),
            Action::PreventClose,
            Action::Window(WindowCommand::Close),
        ]
    );
    assert_eq!(whole.stage(), Stage::Exited);
    assert_eq!(single.stage(), Stage::Exited);
    assert_eq!(all.iter().filter(|action| matches!(action, Action::BuildWindow { .. })).count(), 1);

    let mut idle = controller(true, "Alt+Space", Platform::Windows);
    assert_eq!(idle.step_all(&vec![]), vec![]);
    assert_eq!(idle.stage(), Stage::Created);
}
