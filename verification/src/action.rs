//! Actions: the messages that drive the interface, and what handling one does.
use vstd::prelude::*;
use crate::app::{App, AppView, Focus, Popups, Tabs};
use crate::timer::Timer;
use crate::ui::input::InputView;
use crate::ui::list::{ListView, kept_selection, next_selection, previous_selection};
use crate::ui::toast::{Toast, ToastView};
use vstd::string::*;
use crate::network::{Credentials, CredentialsView, DeviceEntry, NetworkEntry, clone_devices, clone_networks};
use crate::ui::input::InputMode;
use crate::ui::style_config::clone_opt_string;
use crate::ui::toast::Urgency;

verus! {

/// Networks and devices found by a scan.
pub struct NetworkScanResult {
    pub known: Vec<NetworkEntry>,
    pub available: Vec<NetworkEntry>,
    pub devices: Vec<DeviceEntry>,
}

/// A request to connect to a network.
pub struct ConnectRequest {
    pub ssid: String,
    pub interface: Option<String>,
    pub credentials: Credentials,
}

impl Clone for ConnectRequest {
    fn clone(&self) -> (r: Self)
        ensures
            r == *self,
    {
        ConnectRequest {
            ssid: self.ssid.clone(),
            interface: clone_opt_string(&self.interface),
            credentials: self.credentials.clone(),
        }
    }
}

/// The content of a connection request.
pub struct ConnectRequestView {
    pub ssid: Seq<char>,
    pub interface: Option<Seq<char>>,
    pub credentials: CredentialsView,
}

impl View for ConnectRequest {
    type V = ConnectRequestView;

    open spec fn view(&self) -> ConnectRequestView {
        ConnectRequestView {
            ssid: self.ssid@,
            interface: match self.interface {
                Some(i) => Some(i@),
                None => None,
            },
            credentials: self.credentials@,
        }
    }
}

/// A request to show a notification; what it leaves open comes from the configuration.
pub struct ToastRequest {
    pub title: Option<String>,
    pub msg: String,
    pub urgency: Urgency,
    /// How long to show it, in nanoseconds.
    pub duration: Option<u128>,
}

/// The content of a notification request.
pub struct ToastRequestView {
    pub title: Option<Seq<char>>,
    pub msg: Seq<char>,
    pub urgency: Urgency,
    pub duration: Option<u128>,
}

impl View for ToastRequest {
    type V = ToastRequestView;

    open spec fn view(&self) -> ToastRequestView {
        ToastRequestView {
            title: match self.title {
                Some(t) => Some(t@),
                None => None,
            },
            msg: self.msg@,
            urgency: self.urgency,
            duration: self.duration,
        }
    }
}

impl Clone for ToastRequest {
    fn clone(&self) -> (r: Self)
        ensures
            r == *self,
    {
        ToastRequest {
            title: clone_opt_string(&self.title),
            msg: self.msg.clone(),
            urgency: self.urgency,
            duration: self.duration,
        }
    }
}

/// What drives the interface.
pub enum Action {
    Quit,
    /// Time has passed, in nanoseconds.
    Tick(u128),
    Refresh,
    SetFocus(Focus),
    SetInputMode(InputMode),
    // Network commands
    NetworkScanResult(Box<NetworkScanResult>),
    Connect(Box<ConnectRequest>),
    Forget { ssid: String },
    ToggleAirplaneMode,
    TogglePower,
    Disconnect,
    // UI
    NextItem(Tabs),
    PreviousItem(Tabs),
    ShowToast(Box<ToastRequest>),
}

/// The content of an action: lists as sequences, notification text as characters.
pub enum ActionView {
    Quit,
    Tick(u128),
    Refresh,
    SetFocus(Focus),
    SetInputMode(InputMode),
    NetworkScanResult { known: Seq<NetworkEntry>, available: Seq<NetworkEntry>, devices: Seq<DeviceEntry> },
    Connect(ConnectRequestView),
    Forget { ssid: String },
    ToggleAirplaneMode,
    TogglePower,
    Disconnect,
    NextItem(Tabs),
    PreviousItem(Tabs),
    ShowToast(ToastRequestView),
}

impl View for Action {
    type V = ActionView;

    open spec fn view(&self) -> ActionView {
        match self {
            Action::Quit => ActionView::Quit,
            Action::Tick(d) => ActionView::Tick(*d),
            Action::Refresh => ActionView::Refresh,
            Action::SetFocus(f) => ActionView::SetFocus(*f),
            Action::SetInputMode(m) => ActionView::SetInputMode(*m),
            Action::NetworkScanResult(r) => ActionView::NetworkScanResult {
                known: r.known@,
                available: r.available@,
                devices: r.devices@,
            },
            Action::Connect(c) => ActionView::Connect(c@),
            Action::Forget { ssid } => ActionView::Forget { ssid: *ssid },
            Action::ToggleAirplaneMode => ActionView::ToggleAirplaneMode,
            Action::TogglePower => ActionView::TogglePower,
            Action::Disconnect => ActionView::Disconnect,
            Action::NextItem(t) => ActionView::NextItem(*t),
            Action::PreviousItem(t) => ActionView::PreviousItem(*t),
            Action::ShowToast(t) => ActionView::ShowToast(t@),
        }
    }
}

impl Clone for Action {
    fn clone(&self) -> (r: Self)
        ensures
            r@ == self@,
    {
        match self {
            Action::Quit => Action::Quit,
            Action::Tick(d) => Action::Tick(*d),
            Action::Refresh => Action::Refresh,
            Action::SetFocus(f) => Action::SetFocus(*f),
            Action::SetInputMode(m) => Action::SetInputMode(*m),
            Action::NetworkScanResult(r) => Action::NetworkScanResult(
                Box::new(
                    NetworkScanResult {
                        known: clone_networks(&r.known),
                        available: clone_networks(&r.available),
                        devices: clone_devices(&r.devices),
                    },
                ),
            ),
            Action::Connect(c) => Action::Connect(Box::new((**c).clone())),
            Action::Forget { ssid } => Action::Forget { ssid: ssid.clone() },
            Action::ToggleAirplaneMode => Action::ToggleAirplaneMode,
            Action::TogglePower => Action::TogglePower,
            Action::Disconnect => Action::Disconnect,
            Action::NextItem(t) => Action::NextItem(*t),
            Action::PreviousItem(t) => Action::PreviousItem(*t),
            Action::ShowToast(t) => Action::ShowToast(Box::new((**t).clone())),
        }
    }
}

/// Outside work that handling an action asks for; the runtime performs it and reports back
/// through the outcome functions below.
pub enum Command {
    /// Queue this action.
    Send(Action),
    /// Scan for networks and devices, then report with `refresh_outcome`.
    Refresh,
    /// Read the current network and its details, then report with
    /// `App::apply_current_network`.
    UpdateCurrentNetwork,
    /// Try to connect, then report with `connect_outcome`.
    Connect(ConnectRequest),
    /// Delete the saved profile of the network, then report with `forget_outcome`.
    Forget(String),
    /// Flip airplane mode: read the state, report with `airplane_decision`, set it, report
    /// with `airplane_outcome`.
    ToggleAirplaneMode,
    /// Flip the Wi-Fi radio: read the state, report with `power_decision`, set it, report with
    /// `power_outcome`.
    TogglePower,
    /// Disconnect, then report with `disconnect_outcome`.
    Disconnect,
}

/// The content of a command.
pub enum CommandView {
    Send(ActionView),
    Refresh,
    UpdateCurrentNetwork,
    Connect(ConnectRequestView),
    Forget(String),
    ToggleAirplaneMode,
    TogglePower,
    Disconnect,
}

impl View for Command {
    type V = CommandView;

    open spec fn view(&self) -> CommandView {
        match self {
            Command::Send(a) => CommandView::Send(a@),
            Command::Refresh => CommandView::Refresh,
            Command::UpdateCurrentNetwork => CommandView::UpdateCurrentNetwork,
            Command::Connect(c) => CommandView::Connect(c@),
            Command::Forget(s) => CommandView::Forget(*s),
            Command::ToggleAirplaneMode => CommandView::ToggleAirplaneMode,
            Command::TogglePower => CommandView::TogglePower,
            Command::Disconnect => CommandView::Disconnect,
        }
    }
}

/// The contents of a list of commands.
pub open spec fn commands_view(cmds: Seq<Command>) -> Seq<CommandView> {
    cmds.map_values(|c: Command| c@)
}

/// The contents of a list of actions.
pub open spec fn actions_view(actions: Seq<Action>) -> Seq<ActionView> {
    actions.map_values(|a: Action| a@)
}

/// Notifications after `delta` nanoseconds: each one's time left goes down (stopping at
/// zero) and those whose time ran out are dropped; the others keep their order.
pub open spec fn tick_toasts(s: Seq<ToastView>, delta: u128) -> Seq<ToastView>
    decreases s.len(),
{
    if s.len() == 0 {
        s
    } else {
        let rest = tick_toasts(s.drop_last(), delta);
        let t = s.last();
        let left = t.duration.saturating_sub(delta);
        if left == 0 {
            rest
        } else {
            rest.push(ToastView { duration: left, ..t })
        }
    }
}

/// The notification request of a plain message of the given urgency.
pub open spec fn toast_view(msg: Seq<char>, urgency: Urgency) -> ActionView {
    ActionView::ShowToast(ToastRequestView { title: None, msg, urgency, duration: None })
}

/// The scan timer and what it fires after `delta` nanoseconds: an enabled timer counts down,
/// and when it runs out it starts over and its action is sent.
pub open spec fn tick_scan(scan: Timer, delta: u128) -> (Timer, Seq<CommandView>) {
    if scan.enabled {
        let left = scan.remaining.saturating_sub(delta);
        if left == 0 {
            (Timer { remaining: scan.duration, ..scan }, seq![CommandView::Send(scan.on_finish@)])
        } else {
            (Timer { remaining: left, ..scan }, Seq::empty())
        }
    } else {
        (scan, Seq::empty())
    }
}

/// A list whose items are replaced.
pub open spec fn replaced<T>(l: ListView<T>, items: Seq<T>) -> ListView<T> {
    ListView { selected: kept_selection(l.selected, items.len()), items }
}

/// A list after moving down one row.
pub open spec fn moved_next<T>(l: ListView<T>) -> ListView<T> {
    ListView { selected: next_selection(l.selected, l.items.len()), ..l }
}

/// A list after moving up one row.
pub open spec fn moved_previous<T>(l: ListView<T>) -> ListView<T> {
    ListView { selected: previous_selection(l.selected, l.items.len()), ..l }
}

/// The state after handling `action`, and the outside work it asks for.
pub open spec fn spec_step(s: AppView, action: ActionView) -> (AppView, Seq<CommandView>) {
    match action {
        ActionView::Quit => (AppView { should_quit: true, ..s }, Seq::empty()),
        ActionView::Tick(delta) => {
            let (scan, cmds) = tick_scan(s.scan, delta);
            (AppView { toasts: tick_toasts(s.toasts, delta), scan, ..s }, cmds)
        },
        ActionView::Refresh => (s, if s.scan.enabled { seq![CommandView::Refresh] } else { Seq::empty() }),
        ActionView::SetFocus(new_focus) => {
            let scan = match new_focus {
                Focus::Popup(Popups::Password) => Timer { enabled: false, ..s.scan },
                Focus::Tab(_) => Timer { enabled: true, remaining: s.scan.duration, ..s.scan },
            };
            (AppView { last_focus: s.focus, focus: new_focus, scan, ..s }, Seq::empty())
        },
        ActionView::SetInputMode(mode) => (
            AppView { input: InputView { mode, value: Seq::empty(), cx: 0, ..s.input }, ..s },
            Seq::empty(),
        ),
        ActionView::NetworkScanResult { known, available, devices } => (
            AppView {
                known_networks: replaced(s.known_networks, known),
                available_networks: replaced(s.available_networks, available),
                devices: replaced(s.devices, devices),
                ..s
            },
            seq![CommandView::UpdateCurrentNetwork],
        ),
        ActionView::Connect(req) => (
            s,
            seq![
                CommandView::Send(toast_view("Connecting to "@ + req.ssid + "..."@, Urgency::Normal)),
                CommandView::Connect(req),
            ],
        ),
        ActionView::Forget { ssid } => (s, seq![CommandView::Forget(ssid)]),
        ActionView::ToggleAirplaneMode => (s, seq![CommandView::ToggleAirplaneMode]),
        ActionView::TogglePower => (s, seq![CommandView::TogglePower]),
        ActionView::Disconnect => (s, seq![CommandView::Disconnect]),
        ActionView::NextItem(tab) => (
            match tab {
                Tabs::KnownNetworks => AppView { known_networks: moved_next(s.known_networks), ..s },
                Tabs::AvailableNetworks => AppView { available_networks: moved_next(s.available_networks), ..s },
                Tabs::Devices => AppView { devices: moved_next(s.devices), ..s },
            },
            Seq::empty(),
        ),
        ActionView::PreviousItem(tab) => (
            match tab {
                Tabs::KnownNetworks => AppView { known_networks: moved_previous(s.known_networks), ..s },
                Tabs::AvailableNetworks => AppView { available_networks: moved_previous(s.available_networks), ..s },
                Tabs::Devices => AppView { devices: moved_previous(s.devices), ..s },
            },
            Seq::empty(),
        ),
        ActionView::ShowToast(req) => (
            AppView {
                toasts: s.toasts.push(Toast::spec_new(s.toast_config, req.title, req.msg, req.urgency, req.duration)),
                ..s
            },
            Seq::empty(),
        ),
    }
}

/// The action that shows the message `msg` with the given urgency.
pub fn toast_text_action(msg: String, urgency: Urgency) -> (a: Action)
    ensures
        a@ == toast_view(msg@, urgency),
{
    Action::ShowToast(Box::new(ToastRequest { title: None, msg, urgency, duration: None }))
}

/// The action that shows a plain message of the given urgency.
pub fn toast_action(msg: &str, urgency: Urgency) -> (a: Action)
    ensures
        a@ == toast_view(msg@, urgency),
{
    Action::ShowToast(Box::new(ToastRequest { title: None, msg: String::from_str(msg), urgency, duration: None }))
}

impl App {
    /// Counts the notifications down by `delta` nanoseconds and drops those that ran out.
    fn tick_toasts(&mut self, delta: u128)
        ensures
            final(self)@ == (AppView { toasts: tick_toasts(old(self)@.toasts, delta), ..old(self)@ }),
    {
        let ghost before = self.toasts@.map_values(|t: Toast| t@);
        let mut kept: Vec<Toast> = Vec::new();
        let n = self.toasts.len();
        for i in 0..n
            invariant
                n == self.toasts@.len(),
                before == self.toasts@.map_values(|t: Toast| t@),
                kept@.map_values(|t: Toast| t@) == tick_toasts(before.take(i as int), delta),
        {
            let toast = &self.toasts[i];
            let left = toast.duration.saturating_sub(delta);
            proof {
                assert(before.take(i + 1).drop_last() =~= before.take(i as int));
                assert(before.take(i + 1).last() == toast@);
            }
            if left != 0 {
                let t = Toast { title: toast.title.clone(), msg: toast.msg.clone(), urgency: toast.urgency, duration: left };
                let ghost prev = kept@;
                kept.push(t);
                assert(kept@.map_values(|t: Toast| t@) =~= prev.map_values(|t: Toast| t@).push(t@));
            }
        }
        assert(before.take(n as int) =~= before);
        self.toasts = kept;
    }

    fn handle_tick(&mut self, delta: u128) -> (cmds: Vec<Command>)
        ensures
            (final(self)@, commands_view(cmds@)) == spec_step(old(self)@, ActionView::Tick(delta)),
    {
        let mut cmds: Vec<Command> = Vec::new();
        // Toast duration timer
        self.tick_toasts(delta);
        // Timers
        if self.scan.enabled {
            self.scan.tick(delta);
            if self.scan.is_finished() {
                self.scan.reset();
                cmds.push(Command::Send(self.scan.on_finish.clone()));
            }
        }
        assert(commands_view(cmds@) =~= spec_step(old(self)@, ActionView::Tick(delta)).1);
        cmds
    }

    fn handle_set_focus(&mut self, new_focus: Focus)
        ensures
            (final(self)@, Seq::<CommandView>::empty()) == spec_step(old(self)@, ActionView::SetFocus(new_focus)),
    {
        self.last_focus = self.focus;
        self.focus = new_focus;
        match new_focus {
            Focus::Popup(popup) => match popup {
                Popups::Password => self.scan.disable(),
            },
            Focus::Tab(_) => self.scan.enable(),
        }
    }

    fn handle_set_input_mode(&mut self, new_inputmode: crate::ui::input::InputMode)
        ensures
            (final(self)@, Seq::<CommandView>::empty()) == spec_step(old(self)@, ActionView::SetInputMode(new_inputmode)),
    {
        self.input.mode = new_inputmode;
        self.input.value = String::new();
        self.input.reset_cursor();
    }

    fn handle_scan_result(&mut self, scan_result: NetworkScanResult) -> (cmds: Vec<Command>)
        ensures
            (final(self)@, commands_view(cmds@)) == spec_step(
                old(self)@,
                ActionView::NetworkScanResult {
                    known: scan_result.known@,
                    available: scan_result.available@,
                    devices: scan_result.devices@,
                },
            ),
    {
        let mut cmds: Vec<Command> = Vec::new();
        cmds.push(Command::UpdateCurrentNetwork);
        self.known_networks.set_items(scan_result.known);
        self.available_networks.set_items(scan_result.available);
        self.devices.set_items(scan_result.devices);
        assert(commands_view(cmds@) =~= seq![CommandView::UpdateCurrentNetwork]);
        cmds
    }

    fn handle_connect(&self, conn_req: ConnectRequest) -> (cmds: Vec<Command>)
        ensures
            (self@, commands_view(cmds@)) == spec_step(self@, ActionView::Connect(conn_req@)),
    {
        let mut cmds: Vec<Command> = Vec::new();
        let mut msg = String::from_str("Connecting to ");
        msg.append(conn_req.ssid.as_str());
        msg.append("...");
        cmds.push(Command::Send(toast_text_action(msg, Urgency::Normal)));
        cmds.push(Command::Connect(conn_req));
        assert(commands_view(cmds@) =~= spec_step(self@, ActionView::Connect(conn_req@)).1);
        cmds
    }

    fn handle_show_toast(&mut self, toast_req: ToastRequest)
        ensures
            (final(self)@, Seq::<CommandView>::empty()) == spec_step(old(self)@, ActionView::ShowToast(toast_req@)),
    {
        let toast = Toast::new(
            &self.toast_config,
            toast_req.title,
            toast_req.msg,
            toast_req.urgency,
            toast_req.duration,
        );
        let ghost before = self.toasts@;
        self.toasts.push(toast);
        assert(self.toasts@.map_values(|t: Toast| t@) =~= before.map_values(|t: Toast| t@).push(toast@));
    }

    fn handle_move(&mut self, tab: Tabs, forward: bool)
        ensures
            (final(self)@, Seq::<CommandView>::empty()) == spec_step(
                old(self)@,
                if forward { ActionView::NextItem(tab) } else { ActionView::PreviousItem(tab) },
            ),
    {
        if forward {
            match tab {
                Tabs::KnownNetworks => self.known_networks.next(),
                Tabs::AvailableNetworks => self.available_networks.next(),
                Tabs::Devices => self.devices.next(),
            }
        } else {
            match tab {
                Tabs::KnownNetworks => self.known_networks.previous(),
                Tabs::AvailableNetworks => self.available_networks.previous(),
                Tabs::Devices => self.devices.previous(),
            }
        }
    }

    /// Handles one action: updates the state and returns the outside work to do, in order.
    pub fn handle_action(&mut self, action: Action) -> (cmds: Vec<Command>)
        ensures
            (final(self)@, commands_view(cmds@)) == spec_step(old(self)@, action@),
    {
        let mut cmds: Vec<Command> = Vec::new();
        match action {
            Action::Quit => self.quit(),
            Action::Tick(delta) => {
                cmds = self.handle_tick(delta);
            },
            Action::Refresh => {
                if self.scan.enabled {
                    cmds.push(Command::Refresh);
                }
                assert(commands_view(cmds@) =~= spec_step(old(self)@, ActionView::Refresh).1);
            },
            Action::SetFocus(new_focus) => self.handle_set_focus(new_focus),
            Action::SetInputMode(new_inputmode) => self.handle_set_input_mode(new_inputmode),
            Action::NetworkScanResult(box_data) => {
                cmds = self.handle_scan_result(*box_data);
            },
            Action::Connect(box_data) => {
                cmds = self.handle_connect(*box_data);
            },
            Action::Forget { ssid } => {
                cmds.push(Command::Forget(ssid));
                assert(commands_view(cmds@) =~= spec_step(old(self)@, action@).1);
            },
            Action::ToggleAirplaneMode => {
                cmds.push(Command::ToggleAirplaneMode);
                assert(commands_view(cmds@) =~= spec_step(old(self)@, action@).1);
            },
            Action::TogglePower => {
                cmds.push(Command::TogglePower);
                assert(commands_view(cmds@) =~= spec_step(old(self)@, action@).1);
            },
            Action::Disconnect => {
                cmds.push(Command::Disconnect);
                assert(commands_view(cmds@) =~= spec_step(old(self)@, action@).1);
            },
            Action::NextItem(tab) => self.handle_move(tab, true),
            Action::PreviousItem(tab) => self.handle_move(tab, false),
            Action::ShowToast(box_data) => self.handle_show_toast(*box_data),
        }
        assert(commands_view(Seq::<Command>::empty()) =~= Seq::<CommandView>::empty());
        cmds
    }
}

/// How a connection attempt ended.
#[derive(Clone, Copy, Debug, PartialEq, Eq, Structural)]
pub enum ConnectOutcome {
    Connected,
    /// The network was not found in the scan.
    NotFound,
    /// The password was refused.
    AuthFailed,
    /// The attempt timed out inside NetworkManager.
    Timeout,
    /// No IP address could be obtained.
    DhcpFailed,
    /// Any other failure.
    Failed,
    /// The attempt did not finish within the interface's own time limit.
    TimedOut,
}

/// What to do after a connection attempt: report it, and forget a network whose password was
/// refused.
pub open spec fn spec_connect_outcome(ssid: String, outcome: ConnectOutcome) -> Seq<ActionView> {
    match outcome {
        ConnectOutcome::Connected => seq![toast_view("Connected!"@, Urgency::Success)],
        ConnectOutcome::NotFound => seq![toast_view("Network not visible \u{2014} is it in range?"@, Urgency::Critical)],
        ConnectOutcome::AuthFailed => seq![
            ActionView::Forget { ssid },
            toast_view("Wrong password!"@, Urgency::Critical),
        ],
        ConnectOutcome::Timeout => seq![toast_view("Connection timed out \u{2014} try increasing the timeout"@, Urgency::Critical)],
        ConnectOutcome::DhcpFailed => seq![toast_view("Failed to get an IP address"@, Urgency::Critical)],
        ConnectOutcome::Failed => seq![toast_view("Connection failed!"@, Urgency::Critical)],
        ConnectOutcome::TimedOut => seq![toast_view("Operation timed out!"@, Urgency::Critical)],
    }
}

/// The actions to queue after a connection attempt to `ssid` ended with `outcome`.
pub fn connect_outcome(ssid: &String, outcome: ConnectOutcome) -> (r: Vec<Action>)
    ensures
        actions_view(r@) == spec_connect_outcome(*ssid, outcome),
{
    let mut r: Vec<Action> = Vec::new();
    match outcome {
        ConnectOutcome::Connected => r.push(toast_action("Connected!", Urgency::Success)),
        ConnectOutcome::NotFound => r.push(toast_action("Network not visible \u{2014} is it in range?", Urgency::Critical)),
        ConnectOutcome::AuthFailed => {
            r.push(Action::Forget { ssid: ssid.clone() });
            r.push(toast_action("Wrong password!", Urgency::Critical));
        },
        ConnectOutcome::Timeout => r.push(toast_action("Connection timed out \u{2014} try increasing the timeout", Urgency::Critical)),
        ConnectOutcome::DhcpFailed => r.push(toast_action("Failed to get an IP address", Urgency::Critical)),
        ConnectOutcome::Failed => r.push(toast_action("Connection failed!", Urgency::Critical)),
        ConnectOutcome::TimedOut => r.push(toast_action("Operation timed out!", Urgency::Critical)),
    }
    assert(actions_view(r@) =~= spec_connect_outcome(*ssid, outcome));
    r
}

/// The action after a rescan: the results, or a notice that it failed.
pub fn refresh_outcome(result: Option<NetworkScanResult>) -> (a: Action)
    ensures
        a@ == match result {
            Some(r) => ActionView::NetworkScanResult { known: r.known@, available: r.available@, devices: r.devices@ },
            None => toast_view("Refresh failed!"@, Urgency::Critical),
        },
{
    match result {
        Some(r) => Action::NetworkScanResult(Box::new(r)),
        None => toast_action("Refresh failed!", Urgency::Critical),
    }
}

/// A notice, then a rescan.
pub open spec fn notice_then_refresh(ok: bool, ok_msg: Seq<char>, err_msg: Seq<char>) -> Seq<ActionView> {
    seq![
        if ok { toast_view(ok_msg, Urgency::Success) } else { toast_view(err_msg, Urgency::Critical) },
        ActionView::Refresh,
    ]
}

fn notice_then_refresh_exec(ok: bool, ok_msg: &str, err_msg: &str) -> (r: Vec<Action>)
    ensures
        actions_view(r@) == notice_then_refresh(ok, ok_msg@, err_msg@),
{
    let mut r: Vec<Action> = Vec::new();
    if ok {
        r.push(toast_action(ok_msg, Urgency::Success));
    } else {
        r.push(toast_action(err_msg, Urgency::Critical));
    }
    r.push(Action::Refresh);
    assert(actions_view(r@) =~= notice_then_refresh(ok, ok_msg@, err_msg@));
    r
}

/// The actions after forgetting a network succeeded (`ok`) or failed.
pub fn forget_outcome(ok: bool) -> (r: Vec<Action>)
    ensures
        actions_view(r@) == notice_then_refresh(ok, "Forgotten!"@, "Forget failed!"@),
{
    notice_then_refresh_exec(ok, "Forgotten!", "Forget failed!")
}

/// The actions after disconnecting succeeded (`ok`) or failed.
pub fn disconnect_outcome(ok: bool) -> (r: Vec<Action>)
    ensures
        actions_view(r@) == notice_then_refresh(ok, "Disconnected!"@, "Disconnect failed!"@),
{
    notice_then_refresh_exec(ok, "Disconnected!", "Disconnect failed!")
}

/// The state to set when flipping a switch that reads `state`, or the notice that it could
/// not be read.
pub open spec fn spec_toggle_decision(state: Option<bool>, read_failed: Seq<char>) -> Result<bool, ActionView> {
    match state {
        Some(enabled) => Ok(!enabled),
        None => Err(toast_view(read_failed, Urgency::Critical)),
    }
}

fn toggle_decision(state: Option<bool>, read_failed: &str) -> (r: Result<bool, Action>)
    ensures
        match (r, spec_toggle_decision(state, read_failed@)) {
            (Ok(t), Ok(u)) => t == u,
            (Err(a), Err(v)) => a@ == v,
            _ => false,
        },
{
    match state {
        Some(enabled) => Ok(!enabled),
        None => Err(toast_action(read_failed, Urgency::Critical)),
    }
}

/// Flipping airplane mode: the mode to set, given the mode read (`None` when it could not be
/// read); or the notice to show.
pub fn airplane_decision(state: Option<bool>) -> (r: Result<bool, Action>)
    ensures
        match (r, spec_toggle_decision(state, "Failed to get airplane mode state!"@)) {
            (Ok(t), Ok(u)) => t == u,
            (Err(a), Err(v)) => a@ == v,
            _ => false,
        },
{
    toggle_decision(state, "Failed to get airplane mode state!")
}

/// Flipping the Wi-Fi radio: the state to set, given the state read (`None` when it could not
/// be read); or the notice to show.
pub fn power_decision(state: Option<bool>) -> (r: Result<bool, Action>)
    ensures
        match (r, spec_toggle_decision(state, "Failed to get wifi state!"@)) {
            (Ok(t), Ok(u)) => t == u,
            (Err(a), Err(v)) => a@ == v,
            _ => false,
        },
{
    toggle_decision(state, "Failed to get wifi state!")
}

/// The actions after setting airplane mode to `target` succeeded (`ok`) or failed.
pub fn airplane_outcome(target: bool, ok: bool) -> (r: Vec<Action>)
    ensures
        actions_view(r@) == notice_then_refresh(
            ok,
            if target { "Airplane mode On"@ } else { "Airplane mode Off"@ },
            "Toggle airplane mode failed!"@,
        ),
{
    let msg = if target { "Airplane mode On" } else { "Airplane mode Off" };
    notice_then_refresh_exec(ok, msg, "Toggle airplane mode failed!")
}

/// The actions after setting the Wi-Fi radio to `target` succeeded (`ok`) or failed.
pub fn power_outcome(target: bool, ok: bool) -> (r: Vec<Action>)
    ensures
        actions_view(r@) == notice_then_refresh(
            ok,
            if target { "Wifi On"@ } else { "Wifi Off"@ },
            "Toggle power failed!"@,
        ),
{
    let msg = if target { "Wifi On" } else { "Wifi Off" };
    notice_then_refresh_exec(ok, msg, "Toggle power failed!")
}

impl App {
    /// Records the current network and its details. `details` is `None` when they could not be
    /// read; for a current network that gives a notice.
    pub fn apply_current_network(&mut self, network: Option<NetworkEntry>, details: Option<crate::network::NetworkDetails>) -> (r: Vec<Action>)
        ensures
            final(self)@ == (AppView {
                current_network: network,
                current_network_info: if network is Some { details } else { None },
                ..old(self)@
            }),
            actions_view(r@) == if network is Some && details is None {
                seq![toast_view("Failed to get current network info!"@, Urgency::Critical)]
            } else {
                Seq::<ActionView>::empty()
            },
    {
        let mut r: Vec<Action> = Vec::new();
        let info = if network.is_some() {
            match details {
                Some(d) => Some(d),
                None => {
                    r.push(toast_action("Failed to get current network info!", Urgency::Critical));
                    None
                },
            }
        } else {
            None
        };
        self.current_network = network;
        self.current_network_info = info;
        assert(actions_view(r@) =~= if network is Some && details is None {
            seq![toast_view("Failed to get current network info!"@, Urgency::Critical)]
        } else {
            Seq::<ActionView>::empty()
        });
        r
    }
}

/// After time passes, every notice left on screen still has time left, and none was added.
pub proof fn lemma_tick_keeps_live_toasts(s: Seq<ToastView>, delta: u128)
    ensures
        tick_toasts(s, delta).len() <= s.len(),
        forall|i: int| 0 <= i < tick_toasts(s, delta).len() ==> #[trigger] tick_toasts(s, delta)[i].duration > 0,
    decreases s.len(),
{
    if s.len() > 0 {
        lemma_tick_keeps_live_toasts(s.drop_last(), delta);
    }
}

/// Opening the password popup stops the periodic rescan; closing it again (focusing what had
/// the focus before, as the popup does) gives the focus back to that panel and restarts the
/// rescan countdown.
pub proof fn lemma_password_popup_round_trip(s: AppView, tab: Tabs)
    requires
        s.focus == Focus::Tab(tab),
    ensures
        ({
            let opened = spec_step(s, ActionView::SetFocus(Focus::Popup(Popups::Password))).0;
            let closed = spec_step(opened, ActionView::SetFocus(opened.last_focus)).0;
            &&& opened.focus == Focus::Popup(Popups::Password)
            &&& !opened.scan.enabled
            &&& closed.focus == s.focus
            &&& closed.scan.enabled
            &&& closed.scan.remaining == closed.scan.duration
        }),
{
}

/// A scan timer that runs out fires its action once and starts counting again from its full
/// length; until then it fires nothing.
pub proof fn lemma_scan_timer_fires_on_expiry(s: AppView, delta: u128)
    requires
        s.scan.enabled,
    ensures
        ({
            let (scan, cmds) = tick_scan(s.scan, delta);
            if s.scan.remaining <= delta {
                &&& cmds == seq![CommandView::Send(s.scan.on_finish@)]
                &&& scan.remaining == s.scan.duration
            } else {
                &&& cmds.len() == 0
                &&& scan.remaining == s.scan.remaining - delta
            }
        }),
{
}

/// A notification with the time `delta` taken off its time left.
pub open spec fn counted_down(t: ToastView, delta: u128) -> ToastView {
    ToastView { duration: (t.duration - delta) as u128, ..t }
}

proof fn lemma_tick_toasts_filters(q: Seq<ToastView>, delta: u128)
    ensures
        tick_toasts(q, delta) == q.filter(|t: ToastView| t.duration > delta).map_values(
            |t: ToastView| counted_down(t, delta),
        ),
    decreases q.len(),
{
    reveal_with_fuel(Seq::filter, 1);
    if q.len() > 0 {
        lemma_tick_toasts_filters(q.drop_last(), delta);
        let f = q.drop_last().filter(|t: ToastView| t.duration > delta);
        if q.last().duration > delta {
            assert(f.push(q.last()).map_values(|t: ToastView| counted_down(t, delta)) =~= f.map_values(
                |t: ToastView| counted_down(t, delta),
            ).push(counted_down(q.last(), delta)));
        }
    }
}

/// Letting `delta` nanoseconds pass keeps exactly the notifications that had more time left
/// than that, in their order, each with `delta` taken off its time left; every notification
/// with at most `delta` left is dropped. Nothing else on the screen's list changes.
pub proof fn lemma_tick_counts_toasts_down(s: AppView, delta: u128)
    ensures
        spec_step(s, ActionView::Tick(delta)).0.toasts == s.toasts.filter(|t: ToastView| t.duration > delta).map_values(
            |t: ToastView| counted_down(t, delta),
        ),
        forall|i: int|
            0 <= i < spec_step(s, ActionView::Tick(delta)).0.toasts.len() ==> {
                let t = #[trigger] spec_step(s, ActionView::Tick(delta)).0.toasts[i];
                &&& t.duration > 0
                &&& exists|j: int| 0 <= j < s.toasts.len() && s.toasts[j].duration > delta
                    && t == (ToastView { duration: (s.toasts[j].duration - delta) as u128, ..s.toasts[j] })
            },
{
    lemma_tick_toasts_filters(s.toasts, delta);
    let p = |t: ToastView| t.duration > delta;
    let f = s.toasts.filter(p);
    let r = spec_step(s, ActionView::Tick(delta)).0.toasts;
    assert forall|i: int| 0 <= i < r.len() implies {
        let t = #[trigger] r[i];
        &&& t.duration > 0
        &&& exists|j: int| 0 <= j < s.toasts.len() && s.toasts[j].duration > delta
            && t == (ToastView { duration: (s.toasts[j].duration - delta) as u128, ..s.toasts[j] })
    } by {
        s.toasts.lemma_filter_pred(p, i);
        s.toasts.lemma_filter_contains_rev(p, f[i]);
        let j = choose|j: int| 0 <= j < s.toasts.len() && s.toasts[j] == f[i];
        assert(r[i] == counted_down(f[i], delta));
    }
}

/// A list after one row down, as the keys `j` and Down move it: the row after the selected
/// one, or the first row after the last one (or after no selection); an empty list keeps its
/// selection; the rows stay the same.
pub open spec fn one_row_down<T>(before: ListView<T>, after: ListView<T>) -> bool {
    &&& after.items == before.items
    &&& before.items.len() == 0 ==> after.selected == before.selected
    &&& before.items.len() > 0 ==> match before.selected {
        Some(i) => if i + 1 < before.items.len() {
            after.selected == Some((i + 1) as usize)
        } else {
            after.selected == Some(0usize)
        },
        None => after.selected == Some(0usize),
    }
}

/// A list after one row up, as the keys `k` and Up move it: the row before the selected one,
/// or the last row before the first one; no selection becomes the first row; an empty list
/// keeps its selection; the rows stay the same.
pub open spec fn one_row_up<T>(before: ListView<T>, after: ListView<T>) -> bool {
    &&& after.items == before.items
    &&& before.items.len() == 0 ==> after.selected == before.selected
    &&& before.items.len() > 0 ==> match before.selected {
        Some(i) => if i == 0 {
            after.selected == Some((before.items.len() - 1) as usize)
        } else {
            after.selected == Some((i - 1) as usize)
        },
        None => after.selected == Some(0usize),
    }
}

/// Moving down in a panel moves that panel's list one row down and changes nothing else;
/// nothing is sent.
pub proof fn lemma_next_item_moves_that_panel_down(s: AppView, tab: Tabs)
    ensures
        spec_step(s, ActionView::NextItem(tab)).1 == Seq::<CommandView>::empty(),
        ({
            let t = spec_step(s, ActionView::NextItem(tab)).0;
            match tab {
                Tabs::KnownNetworks => one_row_down(s.known_networks, t.known_networks)
                    && t == (AppView { known_networks: t.known_networks, ..s }),
                Tabs::AvailableNetworks => one_row_down(s.available_networks, t.available_networks)
                    && t == (AppView { available_networks: t.available_networks, ..s }),
                Tabs::Devices => one_row_down(s.devices, t.devices) && t == (AppView { devices: t.devices, ..s }),
            }
        }),
{
}

/// Moving up in a panel moves that panel's list one row up and changes nothing else; nothing
/// is sent.
pub proof fn lemma_previous_item_moves_that_panel_up(s: AppView, tab: Tabs)
    ensures
        spec_step(s, ActionView::PreviousItem(tab)).1 == Seq::<CommandView>::empty(),
        ({
            let t = spec_step(s, ActionView::PreviousItem(tab)).0;
            match tab {
                Tabs::KnownNetworks => one_row_up(s.known_networks, t.known_networks)
                    && t == (AppView { known_networks: t.known_networks, ..s }),
                Tabs::AvailableNetworks => one_row_up(s.available_networks, t.available_networks)
                    && t == (AppView { available_networks: t.available_networks, ..s }),
                Tabs::Devices => one_row_up(s.devices, t.devices) && t == (AppView { devices: t.devices, ..s }),
            }
        }),
{
}

} // verus!
