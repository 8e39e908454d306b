use nmrs_tui::action::{Action, Command, ConnectRequest, NetworkScanResult, ToastRequest};
use nmrs_tui::app::{App, Focus, Popups, SCAN_INTERVAL, Selected, Tabs};
use nmrs_tui::network::{Credentials, DeviceEntry, NetworkDetails, NetworkEntry};
use nmrs_tui::ui::area::{Border, Position};
use nmrs_tui::ui::input::InputMode;
use nmrs_tui::ui::margin::Margin;
use nmrs_tui::ui::style_config::StyleConfig;
use nmrs_tui::ui::toast::{ToastConfig, Urgency, UrgencyConfig};
use ratatui::widgets::BorderType;

const SEC: u128 = 1_000_000_000;

fn urgency(title: &str, secs: u128) -> UrgencyConfig {
    UrgencyConfig {
        default_title: title.to_string(),
        title_style: StyleConfig::default(),
        border: Border {
            style_normal: StyleConfig::default(),
            style_active: StyleConfig::default(),
            type_normal: BorderType::Plain,
            type_active: BorderType::Thick,
        },
        default_duration: secs * SEC,
    }
}

fn toast_config() -> ToastConfig {
    ToastConfig {
        normal: urgency("Info", 3),
        success: urgency("Success", 3),
        warning: urgency("Warning", 4),
        critical: urgency("Error", 5),
        position: Position::RightTop,
        margin: Margin { top: 1, bottom: 0, left: 0, right: 1 },
    }
}

fn net(ssid: &str, is_psk: bool, known: bool) -> NetworkEntry {
    NetworkEntry { ssid: ssid.to_string(), strength: Some(70), secured: is_psk, is_psk, is_eap: false, known }
}

fn dev(name: &str) -> DeviceEntry {
    DeviceEntry {
        interface: name.to_string(),
        hw_address: "00:11:22:33:44:55".to_string(),
        state: "Activated".to_string(),
        powered: true,
        active_frequency_mhz: Some(2412),
    }
}

fn app() -> App {
    App::new(
        toast_config(),
        vec![net("home", true, true), net("office", true, true)],
        vec![net("cafe", true, false), net("library", false, false)],
        vec![dev("wlan0")],
        None,
        None,
    )
}

fn toast(msg: &str, urgency: Urgency) -> Action {
    Action::ShowToast(Box::new(ToastRequest { title: None, msg: msg.to_string(), urgency, duration: None }))
}

#[test]
fn new_app_starts_on_known_networks() {
    let a = app();
    assert!(!a.should_quit);
    assert_eq!(a.focus, Focus::Tab(Tabs::KnownNetworks));
    assert_eq!(a.last_focus, Focus::Tab(Tabs::KnownNetworks));
    assert!(a.toasts.is_empty());
    assert_eq!(a.scan.duration, SCAN_INTERVAL);
    assert_eq!(a.scan.remaining, 3 * SEC);
    assert!(a.scan.enabled);
    assert!(matches!(a.scan.on_finish, Action::Refresh));
    assert_eq!(a.known_networks.selected, Some(0));
}

#[test]
fn selected_follows_the_focus() {
    let mut a = app();
    assert!(matches!(a.selected(), Some(Selected::Network(n)) if n.ssid == "home"));
    a.focus = Focus::Tab(Tabs::AvailableNetworks);
    a.available_networks.selected = Some(1);
    assert!(matches!(a.selected(), Some(Selected::Network(n)) if n.ssid == "library"));
    a.focus = Focus::Tab(Tabs::Devices);
    assert!(matches!(a.selected(), Some(Selected::Device(()))));
    // a popup reads the selection of the panel focused before it
    a.focus = Focus::Popup(Popups::Password);
    a.last_focus = Focus::Tab(Tabs::KnownNetworks);
    assert!(matches!(a.selected(), Some(Selected::Network(n)) if n.ssid == "home"));
    a.last_focus = Focus::Popup(Popups::Password);
    assert!(a.selected().is_none());
    a.last_focus = Focus::Tab(Tabs::KnownNetworks);
    a.known_networks.selected = Some(7);
    assert!(a.selected().is_none());
}

#[test]
fn quit_action_stops() {
    let mut a = app();
    let cmds = a.handle_action(Action::Quit);
    assert!(cmds.is_empty());
    assert!(a.should_quit);
}

#[test]
fn tick_expires_toasts() {
    let mut a = app();
    a.handle_action(toast("one", Urgency::Normal)); // 3 s
    a.handle_action(toast("two", Urgency::Critical)); // 5 s
    assert_eq!(a.toasts.len(), 2);
    a.handle_action(Action::Tick(2 * SEC));
    assert_eq!(a.toasts.len(), 2);
    assert_eq!(a.toasts[0].duration, SEC);
    a.handle_action(Action::Tick(SEC));
    assert_eq!(a.toasts.len(), 1);
    assert_eq!(a.toasts[0].msg, "two");
    assert_eq!(a.toasts[0].duration, 2 * SEC);
}

#[test]
fn tick_fires_the_scan_timer() {
    let mut a = app();
    let cmds = a.handle_action(Action::Tick(SEC));
    assert!(cmds.is_empty());
    assert_eq!(a.scan.remaining, 2 * SEC);
    let cmds = a.handle_action(Action::Tick(2 * SEC));
    assert_eq!(cmds.len(), 1);
    assert!(matches!(&cmds[0], Command::Send(Action::Refresh)));
    assert_eq!(a.scan.remaining, 3 * SEC);
}

#[test]
fn disabled_timer_does_not_tick() {
    let mut a = app();
    a.scan.disable();
    let cmds = a.handle_action(Action::Tick(10 * SEC));
    assert!(cmds.is_empty());
    assert_eq!(a.scan.remaining, 3 * SEC);
}

#[test]
fn refresh_only_when_scanning() {
    let mut a = app();
    let cmds = a.handle_action(Action::Refresh);
    assert!(matches!(cmds.as_slice(), [Command::Refresh]));
    a.scan.enabled = false;
    let cmds = a.handle_action(Action::Refresh);
    assert!(cmds.is_empty());
}

#[test]
fn password_popup_pauses_scanning() {
    let mut a = app();
    a.scan.tick(SEC);
    a.handle_action(Action::SetFocus(Focus::Popup(Popups::Password)));
    assert_eq!(a.focus, Focus::Popup(Popups::Password));
    assert_eq!(a.last_focus, Focus::Tab(Tabs::KnownNetworks));
    assert!(!a.scan.enabled);
    assert_eq!(a.scan.remaining, 2 * SEC);
    let back = a.last_focus;
    a.handle_action(Action::SetFocus(back));
    assert_eq!(a.focus, Focus::Tab(Tabs::KnownNetworks));
    assert!(a.scan.enabled);
    assert_eq!(a.scan.remaining, 3 * SEC);
}

#[test]
fn input_mode_change_clears_the_field() {
    let mut a = app();
    a.input.enter_char('x');
    a.input.enter_char('y');
    a.handle_action(Action::SetInputMode(InputMode::Editing));
    assert_eq!(a.input.mode, InputMode::Editing);
    assert_eq!(a.input.value, "");
    assert_eq!(a.input.cx, 0);
}

#[test]
fn scan_result_replaces_lists_and_reads_current_network() {
    let mut a = app();
    a.known_networks.selected = Some(1);
    a.devices.selected = None;
    let cmds = a.handle_action(Action::NetworkScanResult(Box::new(NetworkScanResult {
        known: vec![net("x", true, true)],
        available: vec![net("y", true, false), net("z", true, false)],
        devices: vec![dev("wlan1"), dev("wlan2")],
    })));
    assert!(matches!(cmds.as_slice(), [Command::UpdateCurrentNetwork]));
    assert_eq!(a.known_networks.items.len(), 1);
    assert_eq!(a.known_networks.selected, Some(0));
    assert_eq!(a.available_networks.items[1].ssid, "z");
    assert_eq!(a.devices.selected, Some(0));
    assert_eq!(a.devices.items[0].interface, "wlan1");
}

#[test]
fn connect_notifies_then_connects() {
    let mut a = app();
    let cmds = a.handle_action(Action::Connect(Box::new(ConnectRequest {
        ssid: "cafe".to_string(),
        interface: None,
        credentials: Credentials::WpaPsk { psk: "secret".to_string() },
    })));
    assert_eq!(cmds.len(), 2);
    match &cmds[0] {
        Command::Send(Action::ShowToast(t)) => {
            assert_eq!(t.msg, "Connecting to cafe...");
            assert_eq!(t.urgency, Urgency::Normal);
            assert!(t.title.is_none());
        }
        _ => panic!("expected a notice"),
    }
    match &cmds[1] {
        Command::Connect(req) => {
            assert_eq!(req.ssid, "cafe");
            assert!(matches!(&req.credentials, Credentials::WpaPsk { psk } if psk == "secret"));
        }
        _ => panic!("expected a connection attempt"),
    }
}

#[test]
fn network_commands_pass_through() {
    let mut a = app();
    let cmds = a.handle_action(Action::Forget { ssid: "home".to_string() });
    assert!(matches!(cmds.as_slice(), [Command::Forget(s)] if s == "home"));
    assert!(matches!(a.handle_action(Action::ToggleAirplaneMode).as_slice(), [Command::ToggleAirplaneMode]));
    assert!(matches!(a.handle_action(Action::TogglePower).as_slice(), [Command::TogglePower]));
    assert!(matches!(a.handle_action(Action::Disconnect).as_slice(), [Command::Disconnect]));
}

#[test]
fn next_and_previous_items_move_the_right_list() {
    let mut a = app();
    a.handle_action(Action::NextItem(Tabs::KnownNetworks));
    assert_eq!(a.known_networks.selected, Some(1));
    a.handle_action(Action::NextItem(Tabs::KnownNetworks));
    assert_eq!(a.known_networks.selected, Some(0));
    a.handle_action(Action::PreviousItem(Tabs::AvailableNetworks));
    assert_eq!(a.available_networks.selected, Some(1));
    a.handle_action(Action::NextItem(Tabs::Devices));
    assert_eq!(a.devices.selected, Some(0));
}

#[test]
fn show_toast_uses_defaults_of_its_urgency() {
    let mut a = app();
    a.handle_action(toast("Refresh failed!", Urgency::Critical));
    assert_eq!(a.toasts[0].title, "Error");
    assert_eq!(a.toasts[0].duration, 5 * SEC);
    a.handle_action(Action::ShowToast(Box::new(ToastRequest {
        title: Some("Custom".to_string()),
        msg: "m".to_string(),
        urgency: Urgency::Warning,
        duration: Some(7),
    })));
    assert_eq!(a.toasts[1].title, "Custom");
    assert_eq!(a.toasts[1].duration, 7);
    assert_eq!(a.toasts[1].urgency, Urgency::Warning);
}

#[test]
fn current_network_is_recorded() {
    let mut a = app();
    let notices = a.apply_current_network(
        Some(net("home", true, true)),
        Some(NetworkDetails { security: "WPA2".to_string() }),
    );
    assert!(notices.is_empty());
    assert_eq!(a.current_network.as_ref().unwrap().ssid, "home");
    assert_eq!(a.current_network_info.as_ref().unwrap().security, "WPA2");
    let notices = a.apply_current_network(Some(net("home", true, true)), None);
    assert_eq!(notices.len(), 1);
    assert!(matches!(&notices[0], Action::ShowToast(t) if t.msg == "Failed to get current network info!" && t.urgency == Urgency::Critical));
    assert!(a.current_network_info.is_none());
    let notices = a.apply_current_network(None, Some(NetworkDetails { security: "x".to_string() }));
    assert!(notices.is_empty());
    assert!(a.current_network.is_none());
    assert!(a.current_network_info.is_none());
}

#[test]
fn quit_method_sets_flag() {
    let mut a = app();
    a.quit();
    assert!(a.should_quit);
    let _ = toast("unused", Urgency::Success);
}
