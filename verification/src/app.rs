//! The interface's state: focus, lists, the text field, notifications and the scan timer.
use vstd::prelude::*;
use crate::action::Action;
use crate::network::{DeviceEntry, NetworkDetails, NetworkEntry};
use crate::timer::Timer;
use crate::ui::input::{Input, InputView};
use crate::ui::list::{ListView, StatefulList};
use crate::ui::toast::{Toast, ToastConfig, ToastView};

verus! {

/// The three panels that can have the focus.
#[derive(Clone, Copy, Debug, PartialEq, Eq, Structural)]
pub enum Tabs {
    KnownNetworks,
    AvailableNetworks,
    Devices,
}

/// The popups.
#[derive(Clone, Copy, Debug, PartialEq, Eq, Structural)]
pub enum Popups {
    Password,
}

/// What receives the keys: a panel or a popup.
#[derive(Clone, Copy, Debug, PartialEq, Eq, Structural)]
pub enum Focus {
    Tab(Tabs),
    Popup(Popups),
}

/// Whether the panel `tab` is drawn active: exactly when it has the focus.
pub fn panel_active(focus: Focus, tab: Tabs) -> (b: bool)
    ensures
        b == (focus == Focus::Tab(tab)),
{
    match focus {
        Focus::Tab(t) => t == tab,
        Focus::Popup(_) => false,
    }
}

/// The item selected in the panel that has (or last had) the focus.
pub enum Selected {
    Network(NetworkEntry),
    Device(()),
}

/// How often the networks are scanned again, in nanoseconds (three seconds).
pub const SCAN_INTERVAL: u128 = 3_000_000_000;

/// The interface's state.
pub struct App {
    pub should_quit: bool,
    pub input: Input,
    pub focus: Focus,
    pub last_focus: Focus,
    pub toasts: Vec<Toast>,
    /// Timer of the periodic rescan.
    pub scan: Timer,
    pub known_networks: StatefulList<NetworkEntry>,
    pub available_networks: StatefulList<NetworkEntry>,
    pub devices: StatefulList<DeviceEntry>,
    /// How notifications look and how long they stay.
    pub toast_config: ToastConfig,
    /// The network the machine is connected to, if any.
    pub current_network: Option<NetworkEntry>,
    /// Details of that network, when they could be read.
    pub current_network_info: Option<NetworkDetails>,
}

/// The content of the interface's state.
pub struct AppView {
    pub should_quit: bool,
    pub input: InputView,
    pub focus: Focus,
    pub last_focus: Focus,
    pub toasts: Seq<ToastView>,
    pub scan: Timer,
    pub known_networks: ListView<NetworkEntry>,
    pub available_networks: ListView<NetworkEntry>,
    pub devices: ListView<DeviceEntry>,
    pub toast_config: ToastConfig,
    pub current_network: Option<NetworkEntry>,
    pub current_network_info: Option<NetworkDetails>,
}

impl View for App {
    type V = AppView;

    open spec fn view(&self) -> AppView {
        AppView {
            should_quit: self.should_quit,
            input: self.input@,
            focus: self.focus,
            last_focus: self.last_focus,
            toasts: self.toasts@.map_values(|t: Toast| t@),
            scan: self.scan,
            known_networks: self.known_networks@,
            available_networks: self.available_networks@,
            devices: self.devices@,
            toast_config: self.toast_config,
            current_network: self.current_network,
            current_network_info: self.current_network_info,
        }
    }
}

/// The focus that selection is read from: a popup reads it from the panel focused before it.
pub open spec fn selection_focus(focus: Focus, last_focus: Focus) -> Focus {
    match focus {
        Focus::Popup(_) => last_focus,
        f => f,
    }
}

/// The selected item of a list, when the selection names one of its items.
pub open spec fn selected_item<T>(l: ListView<T>) -> Option<T> {
    match l.selected {
        Some(i) => if i < l.items.len() { Some(l.items[i as int]) } else { None },
        None => None,
    }
}

/// What is selected, as `App::selected` reports it.
pub open spec fn spec_selected(s: AppView) -> Option<Selected> {
    match selection_focus(s.focus, s.last_focus) {
        Focus::Tab(Tabs::KnownNetworks) => match selected_item(s.known_networks) {
            Some(n) => Some(Selected::Network(n)),
            None => None,
        },
        Focus::Tab(Tabs::AvailableNetworks) => match selected_item(s.available_networks) {
            Some(n) => Some(Selected::Network(n)),
            None => None,
        },
        Focus::Tab(Tabs::Devices) => match selected_item(s.devices) {
            Some(_) => Some(Selected::Device(())),
            None => None,
        },
        Focus::Popup(_) => None,
    }
}

/// The selected network of a list, copied.
fn selected_network(l: &StatefulList<NetworkEntry>) -> (r: Option<Selected>)
    ensures
        r == match selected_item(l@) {
            Some(n) => Some(Selected::Network(n)),
            None => None,
        },
{
    match l.selected {
        Some(i) => if i < l.items.len() {
            Some(Selected::Network(l.items[i].clone()))
        } else {
            None
        },
        None => None,
    }
}

impl App {
    /// The state at start: focus on the known networks, no notifications, the rescan timer
    /// running every three seconds, and the first row of each list selected.
    pub fn new(
        toast_config: ToastConfig,
        known_networks: Vec<NetworkEntry>,
        available_networks: Vec<NetworkEntry>,
        devices: Vec<DeviceEntry>,
        current_network: Option<NetworkEntry>,
        current_network_info: Option<NetworkDetails>,
    ) -> (app: Self)
        ensures
            !app.should_quit,
            app.input@ == (InputView { mode: crate::ui::input::InputMode::Normal, value: Seq::empty(), cx: 0, hidden_password: true }),
            app.focus == Focus::Tab(Tabs::KnownNetworks),
            app.last_focus == Focus::Tab(Tabs::KnownNetworks),
            app.toasts@.len() == 0,
            app.scan == (Timer { duration: SCAN_INTERVAL, remaining: SCAN_INTERVAL, on_finish: Action::Refresh, enabled: true }),
            app.known_networks@ == (ListView { selected: Some(0usize), items: known_networks@ }),
            app.available_networks@ == (ListView { selected: Some(0usize), items: available_networks@ }),
            app.devices@ == (ListView { selected: Some(0usize), items: devices@ }),
            app.toast_config == toast_config,
            app.current_network == current_network,
            app.current_network_info == current_network_info,
    {
        Self {
            should_quit: false,
            input: Input::new(),
            focus: Focus::Tab(Tabs::KnownNetworks),
            last_focus: Focus::Tab(Tabs::KnownNetworks),
            toasts: Vec::new(),
            scan: Timer::new(SCAN_INTERVAL, Action::Refresh, true),
            known_networks: StatefulList::new(known_networks),
            available_networks: StatefulList::new(available_networks),
            devices: StatefulList::new(devices),
            toast_config,
            current_network,
            current_network_info,
        }
    }

    /// What is selected in the focused panel; under a popup, in the panel focused before it.
    pub fn selected(&self) -> (r: Option<Selected>)
        ensures
            r == spec_selected(self@),
    {
        let focus = match self.focus {
            // If focus is popup we fallback to last_focus so we can get selected
            Focus::Popup(_) => self.last_focus,
            f => f,
        };
        match focus {
            Focus::Tab(tab) => match tab {
                Tabs::KnownNetworks => selected_network(&self.known_networks),
                Tabs::AvailableNetworks => selected_network(&self.available_networks),
                Tabs::Devices => match self.devices.selected {
                    Some(i) => if i < self.devices.items.len() {
                        Some(Selected::Device(()))
                    } else {
                        None
                    },
                    None => None,
                },
            },
            Focus::Popup(_) => None,
        }
    }

    /// Asks the interface to stop.
    pub fn quit(&mut self)
        ensures
            final(self)@ == (AppView { should_quit: true, ..old(self)@ }),
    {
        self.should_quit = true;
    }
}

} // verus!
