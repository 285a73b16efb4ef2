use shell_lifecycle::action::{wrap_commands, Action};
use shell_lifecycle::bridge::BridgeCommand;
use shell_lifecycle::close::{on_close_requested, ClosePolicy, Platform};
use shell_lifecycle::config::{ShellConfig, WindowSpec};
use shell_lifecycle::fatal::{Fatal, EXIT_FAILURE, PRIMARY_WINDOW_LABEL};
use shell_lifecycle::toggle::toggle_visibility;
use shell_lifecycle::tray::{TrayAction, TrayBinding, TrayEvent, TrayMenu};
use shell_lifecycle::window::{Visibility, WindowCommand, WindowModel, WindowProbe};

fn press(window: &mut WindowModel) {
    let commands = toggle_visibility(window.probe()).expect("the window exists");
    window.apply_all(&commands);
}

#[test]
fn toggle_hides_a_visible_window() {
    assert_eq!(toggle_visibility(WindowProbe::Live(Visibility::Visible)), Ok(vec![WindowCommand::Hide]));
}

#[test]
fn toggle_shows_and_focuses_a_hidden_window() {
    assert_eq!(
        toggle_visibility(WindowProbe::Live(Visibility::Hidden)),
        Ok(vec![WindowCommand::Show, WindowCommand::SetFocus])
    );
}

#[test]
fn toggle_leaves_a_destroyed_window_alone() {
    assert_eq!(toggle_visibility(WindowProbe::Destroyed), Ok(vec![]));
}

#[test]
fn toggle_fails_without_a_window() {
    assert_eq!(toggle_visibility(WindowProbe::Missing), Err(Fatal::WindowMissing));
}

#[test]
fn toggle_twice_from_visible_returns_to_visible() {
    let mut window = WindowModel::Live { visible: true, focused: true, minimized: false };
    press(&mut window);
    assert_eq!(window.probe(), WindowProbe::Live(Visibility::Hidden));
    press(&mut window);
    assert_eq!(window.probe(), WindowProbe::Live(Visibility::Visible));
}

#[test]
fn toggle_twice_from_hidden_returns_to_hidden() {
    let mut window = WindowModel::new();
    assert_eq!(window.probe(), WindowProbe::Live(Visibility::Hidden));
    press(&mut window);
    assert_eq!(window.probe(), WindowProbe::Live(Visibility::Visible));
    press(&mut window);
    assert_eq!(window.probe(), WindowProbe::Live(Visibility::Hidden));
}

#[test]
fn toggle_from_hidden_gives_focus() {
    for minimized in [false, true] {
        let mut window = WindowModel::Live { visible: false, focused: false, minimized };
        press(&mut window);
        assert_eq!(window, WindowModel::Live { visible: true, focused: true, minimized: false });
    }
}

#[test]
fn close_policy_by_platform() {
    assert_eq!(ClosePolicy::for_platform(Platform::MacOs), ClosePolicy::KeepInBackground);
    assert_eq!(ClosePolicy::for_platform(Platform::Windows), ClosePolicy::Quit);
    assert_eq!(ClosePolicy::for_platform(Platform::Linux), ClosePolicy::Quit);
    assert_eq!(ClosePolicy::for_platform(Platform::Other), ClosePolicy::Quit);
    assert!(ClosePolicy::KeepInBackground.survives_close());
    assert!(!ClosePolicy::Quit.survives_close());
}

#[test]
fn close_request_is_vetoed_first_under_every_policy() {
    for policy in [ClosePolicy::KeepInBackground, ClosePolicy::Quit] {
        let answer = on_close_requested(policy);
        assert_eq!(answer[0], Action::PreventClose);
        assert!(answer[1..].iter().all(|action| matches!(action, Action::Window(_))));
    }
}

#[test]
fn close_request_answers_are_exact() {
    assert_eq!(
        on_close_requested(ClosePolicy::KeepInBackground),
        vec![
            Action::PreventClose,
            Action::Window(WindowCommand::Minimize),
            Action::Window(WindowCommand::Hide),
        ]
    );
    assert_eq!(
        on_close_requested(ClosePolicy::Quit),
        vec![Action::PreventClose, Action::Window(WindowCommand::Close)]
    );
}

#[test]
fn wrapped_commands_keep_their_order() {
    let commands = vec![WindowCommand::Minimize, WindowCommand::Hide, WindowCommand::Show];
    assert_eq!(
        wrap_commands(&commands),
        vec![
            Action::Window(WindowCommand::Minimize),
            Action::Window(WindowCommand::Hide),
            Action::Window(WindowCommand::Show),
        ]
    );
    assert_eq!(wrap_commands(&vec![]), vec![]);
}

#[test]
fn tray_menu_resolves_the_first_binding() {
    let menu = TrayMenu::new(vec![
        TrayBinding { id: "main".to_string(), action: TrayAction::ToggleVisibility },
        TrayBinding { id: "quit".to_string(), action: TrayAction::Quit },
        TrayBinding { id: "main".to_string(), action: TrayAction::Quit },
    ]);
    assert_eq!(menu.resolve(&TrayEvent { id: "main".to_string() }), Some(TrayAction::ToggleVisibility));
    assert_eq!(menu.resolve(&TrayEvent { id: "quit".to_string() }), Some(TrayAction::Quit));
    assert_eq!(menu.resolve(&TrayEvent { id: "Quit".to_string() }), None);
    assert_eq!(menu.resolve(&TrayEvent { id: "".to_string() }), None);
    assert_eq!(TrayMenu::new(vec![]).resolve(&TrayEvent { id: "quit".to_string() }), None);
}

#[test]
fn bridge_names_are_fixed() {
    assert_eq!(BridgeCommand::DownloadFile.name(), "download_file");
    assert_eq!(BridgeCommand::DownloadFileByBinary.name(), "download_file_by_binary");
    assert_eq!(BridgeCommand::Open.name(), "open");
    assert_eq!(
        BridgeCommand::all(),
        vec![BridgeCommand::DownloadFile, BridgeCommand::DownloadFileByBinary, BridgeCommand::Open]
    );
}

#[test]
fn fatal_messages_are_exact() {
    let failed = Fatal::HotkeyRegistration { accelerator: "Invalid++Combo".to_string() };
    assert_eq!(failed.message(), "Error registering global shortcut: Invalid++Combo");
    assert_eq!(failed.exit_code(), 1);
    assert_eq!(Fatal::WindowMissing.message(), "Primary window not found: pake");
    assert_eq!(Fatal::WindowMissing.exit_code(), EXIT_FAILURE);
    assert_ne!(EXIT_FAILURE, 0);
    assert_eq!(PRIMARY_WINDOW_LABEL, "pake");
}

#[test]
fn configuration_needs_a_window() {
    assert_eq!(ShellConfig::new(vec![], true, "Alt+Space".to_string()), None);
}

#[test]
fn configuration_hands_back_what_it_was_given() {
    let first = WindowSpec { url: "https://example.com".to_string(), width: 1200, height: 780 };
    let second = WindowSpec { url: "https://example.org".to_string(), width: 640, height: 480 };
    let config = ShellConfig::new(vec![first.clone(), second], true, "CmdOrCtrl+Shift+P".to_string())
        .expect("two windows are configured");
    assert_eq!(config.primary_window(), &first);
    assert_eq!(config.window_count(), 2);
    assert!(config.show_system_tray());
    assert_eq!(config.activation_shortcut(), "CmdOrCtrl+Shift+P");
    assert!(config.hotkey_enabled());
    assert_eq!(config.clone(), config);

    let quiet = ShellConfig::new(vec![first], false, String::new()).expect("one window is configured");
    assert!(!quiet.show_system_tray());
    assert!(!quiet.hotkey_enabled());
    assert_eq!(quiet.activation_shortcut(), "");
}
