use nmrs_tui::app::{App, Focus, Popups, Tabs, panel_active};
use nmrs_tui::network::{DeviceEntry, NetworkDetails, NetworkEntry};
use nmrs_tui::tui::popup_check;
use nmrs_tui::action::Action;
use nmrs_tui::ui::area::{Border, Position, Rect};
use nmrs_tui::ui::help::help_message;
use nmrs_tui::ui::input::Input;
use nmrs_tui::ui::margin::Margin;
use nmrs_tui::ui::popup::{Options, password_display};
use nmrs_tui::ui::style_config::{ColorValue, StyleConfig, TextStyle};
use nmrs_tui::ui::table::{
    AvailableNetworkColumnKind, Column, DeviceColumnKind, Header, KnownNetworkColumnKind,
    TableConfig, available_network_row, column_kinds, device_row, known_network_row,
    network_info, table_look,
};
use nmrs_tui::ui::toast::{Toast, ToastConfig, Urgency, UrgencyConfig, toast_options};
use ratatui::layout::Constraint;
use ratatui::widgets::BorderType;

fn net(ssid: &str, strength: Option<u8>, psk: bool, eap: bool, secured: bool) -> NetworkEntry {
    NetworkEntry { ssid: ssid.to_string(), strength, secured, is_psk: psk, is_eap: eap, known: true }
}

fn style(fg: Option<&str>, bold: bool) -> StyleConfig {
    StyleConfig { fg: fg.map(|s| s.to_string()), bg: None, bold, italic: false }
}

fn border() -> Border {
    Border {
        style_normal: style(Some("gray"), false),
        style_active: style(Some("green"), true),
        type_normal: BorderType::Plain,
        type_active: BorderType::Thick,
    }
}

fn urgency(title: &str) -> UrgencyConfig {
    UrgencyConfig { default_title: title.to_string(), title_style: StyleConfig::default(), border: border(), default_duration: 10 }
}

fn toast_config() -> ToastConfig {
    ToastConfig {
        normal: urgency("Info"),
        success: urgency("Success"),
        warning: urgency("Warning"),
        critical: urgency("Error"),
        position: Position::RightTop,
        margin: Margin { top: 1, bottom: 0, left: 0, right: 1 },
    }
}

#[test]
fn security_labels() {
    assert_eq!(network_info(&net("a", None, true, false, true)).0, "Psk");
    assert_eq!(network_info(&net("a", None, false, true, true)).0, "Enterprise");
    assert_eq!(network_info(&net("a", None, false, false, true)).0, "Other");
    assert_eq!(network_info(&net("a", None, false, false, false)).0, "Open");
}

#[test]
fn strength_and_bars() {
    let cases = [
        (Some(100u8), "100", "\u{f0928}"),
        (Some(81), "81", "\u{f0928}"),
        (Some(80), "80", "\u{f0925}"),
        (Some(61), "61", "\u{f0925}"),
        (Some(60), "60", "\u{f0922}"),
        (Some(41), "41", "\u{f0922}"),
        (Some(40), "40", "\u{f091f}"),
        (Some(21), "21", "\u{f091f}"),
        (Some(20), "20", "\u{f092f}"),
        (Some(0), "0", "\u{f092f}"),
        (None, "Unknown", "\u{f092f}"),
    ];
    for (s, text, bars) in cases {
        let (_, strength, b) = network_info(&net("n", s, false, false, false));
        assert_eq!(strength, text);
        assert_eq!(b, bars);
    }
}

#[test]
fn known_row_cells() {
    let n = net("home", Some(72), true, false, true);
    let cols = vec![
        KnownNetworkColumnKind::Name,
        KnownNetworkColumnKind::Security,
        KnownNetworkColumnKind::State,
        KnownNetworkColumnKind::Signal,
    ];
    assert_eq!(known_network_row(&n, &cols, true), vec!["home", "Psk", "Connected", "72% \u{f0925}"]);
    assert_eq!(known_network_row(&n, &cols, false)[2], "-");
    assert!(known_network_row(&n, &Vec::new(), false).is_empty());
}

#[test]
fn available_row_cells() {
    let n = net("cafe", None, false, false, false);
    let cols = vec![AvailableNetworkColumnKind::Signal, AvailableNetworkColumnKind::Name, AvailableNetworkColumnKind::Security];
    assert_eq!(available_network_row(&n, &cols), vec!["Unknown% \u{f092f}", "cafe", "Open"]);
}

#[test]
fn device_row_cells() {
    let d = DeviceEntry {
        interface: "wlan0".to_string(),
        hw_address: "AA:BB".to_string(),
        state: "Activated".to_string(),
        powered: true,
        active_frequency_mhz: Some(5180),
    };
    let cols = vec![
        DeviceColumnKind::Name,
        DeviceColumnKind::Powered,
        DeviceColumnKind::State,
        DeviceColumnKind::Frequency,
        DeviceColumnKind::Address,
        DeviceColumnKind::Security,
    ];
    assert_eq!(device_row(&d, &cols, &"WPA2".to_string()), vec!["wlan0", "On", "Activated", "5180 MHz", "AA:BB", "WPA2"]);
    let off = DeviceEntry { powered: false, active_frequency_mhz: None, ..d };
    assert_eq!(device_row(&off, &vec![DeviceColumnKind::Powered, DeviceColumnKind::Frequency], &"-".to_string()), vec!["Off", "0 MHz"]);
}

fn app() -> App {
    App::new(
        toast_config(),
        vec![net("home", Some(90), true, false, true), net("office", Some(30), true, false, true)],
        vec![net("cafe", Some(50), false, false, false)],
        vec![DeviceEntry {
            interface: "wlan0".to_string(),
            hw_address: "AA".to_string(),
            state: "Activated".to_string(),
            powered: true,
            active_frequency_mhz: Some(2412),
        }],
        Some(net("home", Some(90), true, false, true)),
        Some(NetworkDetails { security: "WPA2".to_string() }),
    )
}

#[test]
fn rows_of_the_app() {
    let a = app();
    let rows = a.known_network_rows(&vec![KnownNetworkColumnKind::Name, KnownNetworkColumnKind::State]);
    assert_eq!(rows, vec![vec!["home", "Connected"], vec!["office", "-"]]);
    let rows = a.available_network_rows(&vec![AvailableNetworkColumnKind::Name]);
    assert_eq!(rows, vec![vec!["cafe"]]);
    let rows = a.device_rows(&vec![DeviceColumnKind::Security, DeviceColumnKind::Frequency]);
    assert_eq!(rows, vec![vec!["WPA2", "2412 MHz"]]);
    let mut b = app();
    b.current_network_info = None;
    assert_eq!(b.device_rows(&vec![DeviceColumnKind::Security]), vec![vec!["-"]]);
}

fn table() -> TableConfig<KnownNetworkColumnKind> {
    TableConfig {
        title: " Known ".to_string(),
        header: Header {
            columns: vec![
                Column { title: "Name".to_string(), value: KnownNetworkColumnKind::Name, constraint: Constraint::Percentage(50) },
                Column { title: "Signal".to_string(), value: KnownNetworkColumnKind::Signal, constraint: Constraint::Percentage(50) },
            ],
            style_normal: style(None, false),
            style_active: style(Some("no-such-color"), true),
        },
        border: border(),
        margin: Margin { top: 1, bottom: 1, left: 2, right: 2 },
    }
}

#[test]
fn table_columns_and_look() {
    let t = table();
    assert_eq!(column_kinds(&t), vec![KnownNetworkColumnKind::Name, KnownNetworkColumnKind::Signal]);
    let area = Rect { x: 0, y: 0, width: 40, height: 10 };
    let look = table_look(&t, area, true);
    assert_eq!(look.area, Rect { x: 2, y: 1, width: 36, height: 8 });
    assert_eq!(look.border_type, BorderType::Thick);
    assert_eq!(look.border_style, TextStyle { fg: Some(ColorValue::Green), bg: None, bold: true, italic: false });
    // an unreadable color falls back to the plain style
    assert_eq!(look.header_style, TextStyle::default());
    assert!(look.highlight_selected);
    let look = table_look(&t, area, false);
    assert_eq!(look.border_type, BorderType::Plain);
    assert_eq!(look.border_style, TextStyle { fg: Some(ColorValue::Gray), bg: None, bold: false, italic: false });
    assert_eq!(look.header_style, TextStyle::default());
    assert!(!look.highlight_selected);
}

#[test]
fn only_the_focused_panel_is_active() {
    assert!(panel_active(Focus::Tab(Tabs::KnownNetworks), Tabs::KnownNetworks));
    assert!(!panel_active(Focus::Tab(Tabs::KnownNetworks), Tabs::Devices));
    assert!(panel_active(Focus::Tab(Tabs::Devices), Tabs::Devices));
    assert!(!panel_active(Focus::Tab(Tabs::Devices), Tabs::AvailableNetworks));
    assert!(!panel_active(Focus::Popup(Popups::Password), Tabs::KnownNetworks));
}

#[test]
fn help_messages() {
    assert_eq!(help_message(Focus::Tab(Tabs::Devices)), "s Scan | i Infos | o Toggle Power | \u{21c4} Nav");
    assert_eq!(help_message(Focus::Popup(Popups::Password)), "dsa");
    assert!(help_message(Focus::Tab(Tabs::KnownNetworks)).contains("Dis/connect"));
    assert!(help_message(Focus::Tab(Tabs::AvailableNetworks)).contains("Connect | s Scan"));
}

#[test]
fn password_is_masked_when_hidden() {
    let mut i = Input::new();
    for c in "sécret".chars() {
        i.enter_char(c);
    }
    let (shown, icon) = password_display(&i);
    assert_eq!(shown, "******");
    assert_eq!(icon, " \u{f0209}  ");
    i.hidden_password = false;
    let (shown, icon) = password_display(&i);
    assert_eq!(shown, "sécret");
    assert_eq!(icon, " \u{f0208}   ");
}

#[test]
fn toasts_stack_down() {
    let cfg = toast_config();
    let t = Toast::new(&cfg, None, "Connected!".to_string(), Urgency::Success, None);
    assert_eq!(t.title, "Success");
    assert_eq!(t.duration, 10);
    let o = toast_options(&cfg, 2, &t);
    assert_eq!(o, Options { width: 14, height: 4, position: Position::RightTop, margin: Margin { top: 9, bottom: 0, left: 0, right: 1 } });
}

#[test]
fn password_popup_without_selection_closes() {
    let mut a = app();
    a.focus = Focus::Popup(Popups::Password);
    a.last_focus = Focus::Tab(Tabs::KnownNetworks);
    assert!(popup_check(&a).is_empty());
    a.known_networks.selected = Some(9);
    let acts = popup_check(&a);
    assert_eq!(acts.len(), 2);
    assert!(matches!(&acts[0], Action::ShowToast(t) if t.msg == "Can't find selected network" && t.urgency == Urgency::Critical));
    assert!(matches!(acts[1], Action::SetFocus(Focus::Tab(Tabs::KnownNetworks))));
    a.focus = Focus::Tab(Tabs::KnownNetworks);
    assert!(popup_check(&a).is_empty());
}
