use nmrs_tui::action::{Action, ToastRequest};
use nmrs_tui::app::{App, Focus, Popups, Tabs};
use nmrs_tui::events::{Key, Reaction, handle_events, toggle_connection};
use nmrs_tui::network::{Credentials, DeviceEntry, NetworkEntry};
use nmrs_tui::ui::area::{Border, Position};
use nmrs_tui::ui::input::InputMode;
use nmrs_tui::ui::margin::Margin;
use nmrs_tui::ui::style_config::StyleConfig;
use nmrs_tui::ui::toast::{ToastConfig, Urgency, UrgencyConfig};
use ratatui::widgets::BorderType;

fn urgency(title: &str) -> UrgencyConfig {
    UrgencyConfig {
        default_title: title.to_string(),
        title_style: StyleConfig::default(),
        border: Border {
            style_normal: StyleConfig::default(),
            style_active: StyleConfig::default(),
            type_normal: BorderType::Plain,
            type_active: BorderType::Plain,
        },
        default_duration: 1,
    }
}

fn net(ssid: &str, is_psk: bool, known: bool) -> NetworkEntry {
    NetworkEntry { ssid: ssid.to_string(), strength: None, secured: is_psk, is_psk, is_eap: false, known }
}

fn app() -> App {
    App::new(
        ToastConfig {
            normal: urgency("Info"),
            success: urgency("Success"),
            warning: urgency("Warning"),
            critical: urgency("Error"),
            position: Position::Center,
            margin: Margin::default(),
        },
        vec![net("home", true, true)],
        vec![net("cafe", true, false), net("library", false, false)],
        vec![DeviceEntry {
            interface: "wlan0".to_string(),
            hw_address: "aa".to_string(),
            state: "Disconnected".to_string(),
            powered: true,
            active_frequency_mhz: None,
        }],
        None,
        None,
    )
}

fn sent(r: Reaction) -> Vec<Action> {
    match r {
        Reaction::Send(v) => v,
        Reaction::AskCurrentNetwork(_) => panic!("expected actions"),
    }
}

#[test]
fn q_quits() {
    let mut a = app();
    assert!(matches!(sent(handle_events(&mut a, Key::Char('q'))).as_slice(), [Action::Quit]));
}

#[test]
fn tab_keys_cycle_panels() {
    let mut a = app();
    assert!(sent(handle_events(&mut a, Key::Tab)).is_empty());
    assert_eq!(a.focus, Focus::Tab(Tabs::AvailableNetworks));
    handle_events(&mut a, Key::Char('l'));
    assert_eq!(a.focus, Focus::Tab(Tabs::Devices));
    handle_events(&mut a, Key::Right);
    assert_eq!(a.focus, Focus::Tab(Tabs::KnownNetworks));
    handle_events(&mut a, Key::BackTab);
    assert_eq!(a.focus, Focus::Tab(Tabs::Devices));
    handle_events(&mut a, Key::Char('h'));
    assert_eq!(a.focus, Focus::Tab(Tabs::AvailableNetworks));
    handle_events(&mut a, Key::Left);
    assert_eq!(a.focus, Focus::Tab(Tabs::KnownNetworks));
}

#[test]
fn tab_then_backtab_returns() {
    let mut a = app();
    for _ in 0..3 {
        let before = a.focus;
        handle_events(&mut a, Key::Tab);
        handle_events(&mut a, Key::BackTab);
        assert_eq!(a.focus, before);
        handle_events(&mut a, Key::Tab);
    }
}

#[test]
fn vim_keys_move_selection() {
    let mut a = app();
    assert!(matches!(sent(handle_events(&mut a, Key::Char('j'))).as_slice(), [Action::NextItem(Tabs::KnownNetworks)]));
    assert!(matches!(sent(handle_events(&mut a, Key::Down)).as_slice(), [Action::NextItem(Tabs::KnownNetworks)]));
    assert!(matches!(sent(handle_events(&mut a, Key::Char('k'))).as_slice(), [Action::PreviousItem(Tabs::KnownNetworks)]));
    assert!(matches!(sent(handle_events(&mut a, Key::Up)).as_slice(), [Action::PreviousItem(Tabs::KnownNetworks)]));
}

#[test]
fn o_toggles_power_only_on_devices() {
    let mut a = app();
    assert!(sent(handle_events(&mut a, Key::Char('o'))).is_empty());
    a.focus = Focus::Tab(Tabs::Devices);
    assert!(matches!(sent(handle_events(&mut a, Key::Char('o'))).as_slice(), [Action::TogglePower]));
}

#[test]
fn r_refreshes_network_panels() {
    let mut a = app();
    assert!(matches!(sent(handle_events(&mut a, Key::Char('r'))).as_slice(), [Action::Refresh]));
    a.focus = Focus::Tab(Tabs::AvailableNetworks);
    assert!(matches!(sent(handle_events(&mut a, Key::Char('r'))).as_slice(), [Action::Refresh]));
    a.focus = Focus::Tab(Tabs::Devices);
    assert!(sent(handle_events(&mut a, Key::Char('r'))).is_empty());
}

#[test]
fn enter_on_known_asks_for_current_network() {
    let mut a = app();
    match handle_events(&mut a, Key::Enter) {
        Reaction::AskCurrentNetwork(ssid) => assert_eq!(ssid, "home"),
        _ => panic!("expected a lookup"),
    }
    match handle_events(&mut a, Key::Char(' ')) {
        Reaction::AskCurrentNetwork(ssid) => assert_eq!(ssid, "home"),
        _ => panic!("expected a lookup"),
    }
}

#[test]
fn enter_on_protected_network_opens_password_popup() {
    let mut a = app();
    a.focus = Focus::Tab(Tabs::AvailableNetworks);
    let acts = sent(handle_events(&mut a, Key::Enter));
    assert!(matches!(
        acts.as_slice(),
        [Action::SetFocus(Focus::Popup(Popups::Password)), Action::SetInputMode(InputMode::Editing)]
    ));
    // an open network asks for nothing
    a.available_networks.selected = Some(1);
    assert!(sent(handle_events(&mut a, Key::Enter)).is_empty());
    a.focus = Focus::Tab(Tabs::Devices);
    assert!(sent(handle_events(&mut a, Key::Enter)).is_empty());
}

#[test]
fn d_forgets_known_network() {
    let mut a = app();
    assert!(matches!(sent(handle_events(&mut a, Key::Char('d'))).as_slice(), [Action::Forget { ssid }] if ssid == "home"));
    a.focus = Focus::Tab(Tabs::AvailableNetworks);
    assert!(sent(handle_events(&mut a, Key::Char('d'))).is_empty());
}

#[test]
fn c_is_work_in_progress() {
    let mut a = app();
    let acts = sent(handle_events(&mut a, Key::Char('c')));
    assert!(matches!(acts.as_slice(), [Action::ShowToast(t)] if t.msg == "WIP" && t.urgency == Urgency::Critical && t.title.is_none() && t.duration.is_none()));
}

#[test]
fn other_keys_do_nothing_and_editing_mode_ignores_panels() {
    let mut a = app();
    assert!(sent(handle_events(&mut a, Key::Char('z'))).is_empty());
    assert!(sent(handle_events(&mut a, Key::Other)).is_empty());
    a.input.mode = InputMode::Editing;
    assert!(sent(handle_events(&mut a, Key::Char('q'))).is_empty());
    assert_eq!(a.focus, Focus::Tab(Tabs::KnownNetworks));
}

fn popup_app() -> App {
    let mut a = app();
    a.focus = Focus::Popup(Popups::Password);
    a.last_focus = Focus::Tab(Tabs::AvailableNetworks);
    a.input.mode = InputMode::Editing;
    a.scan.enabled = false;
    a
}

#[test]
fn popup_edits_the_password() {
    let mut a = popup_app();
    for c in "pa5s".chars() {
        assert!(sent(handle_events(&mut a, Key::Char(c))).is_empty());
    }
    assert_eq!(a.input.value, "pa5s");
    handle_events(&mut a, Key::Left);
    handle_events(&mut a, Key::Backspace);
    assert_eq!(a.input.value, "pas");
    handle_events(&mut a, Key::Right);
    assert_eq!(a.input.cx, 3);
    assert!(a.input.hidden_password);
    handle_events(&mut a, Key::Tab);
    assert!(!a.input.hidden_password);
}

#[test]
fn popup_enter_connects_with_password() {
    let mut a = popup_app();
    handle_events(&mut a, Key::Char('x'));
    let acts = sent(handle_events(&mut a, Key::Enter));
    assert_eq!(acts.len(), 3);
    match &acts[0] {
        Action::Connect(req) => {
            assert_eq!(req.ssid, "cafe");
            assert!(req.interface.is_none());
            assert!(matches!(&req.credentials, Credentials::WpaPsk { psk } if psk == "x"));
        }
        _ => panic!("expected connect"),
    }
    assert!(matches!(acts[1], Action::SetInputMode(InputMode::Normal)));
    assert!(matches!(acts[2], Action::SetFocus(Focus::Tab(Tabs::AvailableNetworks))));
    assert!(a.scan.enabled);
}

#[test]
fn popup_escape_closes() {
    let mut a = popup_app();
    let acts = sent(handle_events(&mut a, Key::Esc));
    assert!(matches!(
        acts.as_slice(),
        [Action::SetInputMode(InputMode::Normal), Action::SetFocus(Focus::Tab(Tabs::AvailableNetworks))]
    ));
    assert!(!a.scan.enabled);
    // in normal mode a popup ignores keys
    a.input.mode = InputMode::Normal;
    assert!(sent(handle_events(&mut a, Key::Char('a'))).is_empty());
    assert_eq!(a.input.value, "");
}

#[test]
fn toggling_the_connection() {
    let a = toggle_connection("home".to_string(), Some("home".to_string()));
    assert!(matches!(a, Action::Disconnect));
    let a = toggle_connection("home".to_string(), Some("cafe".to_string()));
    assert!(matches!(a, Action::Connect(r) if r.ssid == "home" && matches!(r.credentials, Credentials::Open) && r.interface.is_none()));
    let a = toggle_connection("home".to_string(), None);
    assert!(matches!(a, Action::Connect(r) if r.ssid == "home"));
    let _unused: Option<ToastRequest> = None;
}
