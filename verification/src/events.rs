//! Keys: what a key press does, depending on what has the focus.
use vstd::prelude::*;
use crate::action::{Action, ActionView, ConnectRequest, ConnectRequestView, ToastRequestView, actions_view, toast_action};
use crate::app::{App, AppView, Focus, Popups, Selected, Tabs, spec_selected};
use crate::network::{Credentials, CredentialsView};
use crate::timer::Timer;
use crate::ui::input::{InputMode, InputView, spec_delete_char, spec_enter_char, spec_move_left, spec_move_right};
use crate::ui::toast::Urgency;

verus! {

/// A key press.
#[derive(Clone, Copy, Debug, PartialEq, Eq, Structural)]
pub enum Key {
    Char(char),
    Tab,
    BackTab,
    Left,
    Right,
    Up,
    Down,
    Enter,
    Backspace,
    Esc,
    /// Any other key.
    Other,
}

/// What the runtime does after a key press.
pub enum Reaction {
    /// Queue these actions, in order.
    Send(Vec<Action>),
    /// Read the network the machine is connected to, then queue what `toggle_connection`
    /// decides for the selected network named here.
    AskCurrentNetwork(String),
}

/// The content of a reaction.
pub enum ReactionView {
    Send(Seq<ActionView>),
    AskCurrentNetwork(String),
}

impl View for Reaction {
    type V = ReactionView;

    open spec fn view(&self) -> ReactionView {
        match self {
            Reaction::Send(a) => ReactionView::Send(actions_view(a@)),
            Reaction::AskCurrentNetwork(s) => ReactionView::AskCurrentNetwork(*s),
        }
    }
}

/// The panel to the right (wrapping around).
pub open spec fn next_tab(tab: Tabs) -> Tabs {
    match tab {
        Tabs::KnownNetworks => Tabs::AvailableNetworks,
        Tabs::AvailableNetworks => Tabs::Devices,
        Tabs::Devices => Tabs::KnownNetworks,
    }
}

/// The panel to the left (wrapping around).
pub open spec fn previous_tab(tab: Tabs) -> Tabs {
    match tab {
        Tabs::KnownNetworks => Tabs::Devices,
        Tabs::AvailableNetworks => Tabs::KnownNetworks,
        Tabs::Devices => Tabs::AvailableNetworks,
    }
}

/// Nothing to queue.
pub open spec fn nothing() -> ReactionView {
    ReactionView::Send(Seq::empty())
}

/// What a key does in a panel, in normal mode.
pub open spec fn spec_tab_key(s: AppView, tab: Tabs, key: Key) -> (AppView, ReactionView) {
    match key {
        Key::Char('q') => (s, ReactionView::Send(seq![ActionView::Quit])),
        // Navigation
        Key::Tab | Key::Char('l') | Key::Right => (AppView { focus: Focus::Tab(next_tab(tab)), ..s }, nothing()),
        Key::BackTab | Key::Char('h') | Key::Left => (AppView { focus: Focus::Tab(previous_tab(tab)), ..s }, nothing()),
        Key::Char('j') | Key::Down => (s, ReactionView::Send(seq![ActionView::NextItem(tab)])),
        Key::Char('k') | Key::Up => (s, ReactionView::Send(seq![ActionView::PreviousItem(tab)])),
        Key::Char('o') => (s, if tab == Tabs::Devices { ReactionView::Send(seq![ActionView::TogglePower]) } else { nothing() }),
        Key::Char('r') => (s, if tab != Tabs::Devices { ReactionView::Send(seq![ActionView::Refresh]) } else { nothing() }),
        Key::Enter | Key::Char(' ') => (s, match tab {
            Tabs::KnownNetworks => match spec_selected(s) {
                Some(Selected::Network(net)) => ReactionView::AskCurrentNetwork(net.ssid),
                _ => nothing(),
            },
            Tabs::AvailableNetworks => match spec_selected(s) {
                Some(Selected::Network(net)) => if net.is_psk {
                    ReactionView::Send(seq![
                        ActionView::SetFocus(Focus::Popup(Popups::Password)),
                        ActionView::SetInputMode(InputMode::Editing),
                    ])
                } else {
                    nothing()
                },
                _ => nothing(),
            },
            Tabs::Devices => nothing(),
        }),
        Key::Char('d') => (s, if tab == Tabs::KnownNetworks {
            match spec_selected(s) {
                Some(Selected::Network(net)) => ReactionView::Send(seq![ActionView::Forget { ssid: net.ssid }]),
                _ => nothing(),
            }
        } else {
            nothing()
        }),
        Key::Char('c') => (s, ReactionView::Send(seq![
            ActionView::ShowToast(ToastRequestView { title: None, msg: "WIP"@, urgency: Urgency::Critical, duration: None }),
        ])),
        _ => (s, nothing()),
    }
}

/// What a key does in a popup, in editing mode.
pub open spec fn spec_popup_key(s: AppView, popup: Popups, key: Key) -> (AppView, ReactionView) {
    match key {
        Key::Enter => match spec_selected(s) {
            Some(Selected::Network(net)) => (
                AppView { scan: Timer { enabled: true, ..s.scan }, ..s },
                ReactionView::Send(seq![
                    ActionView::Connect(ConnectRequestView {
                        ssid: net.ssid@,
                        interface: None,
                        credentials: CredentialsView::WpaPsk { psk: s.input.value },
                    }),
                    ActionView::SetInputMode(InputMode::Normal),
                    ActionView::SetFocus(s.last_focus),
                ]),
            ),
            _ => (s, nothing()),
        },
        Key::Tab => (
            match popup {
                Popups::Password => AppView { input: InputView { hidden_password: !s.input.hidden_password, ..s.input }, ..s },
            },
            nothing(),
        ),
        Key::Char(c) => (AppView { input: spec_enter_char(s.input, c), ..s }, nothing()),
        Key::Backspace => (AppView { input: spec_delete_char(s.input), ..s }, nothing()),
        Key::Left => (AppView { input: spec_move_left(s.input), ..s }, nothing()),
        Key::Right => (AppView { input: spec_move_right(s.input), ..s }, nothing()),
        Key::Esc => (s, ReactionView::Send(seq![
            ActionView::SetInputMode(InputMode::Normal),
            ActionView::SetFocus(s.last_focus),
        ])),
        _ => (s, nothing()),
    }
}

/// What a key press does: panels take keys in normal mode, popups in editing mode.
pub open spec fn spec_handle_key(s: AppView, key: Key) -> (AppView, ReactionView) {
    match s.focus {
        Focus::Tab(tab) => if s.input.mode == InputMode::Normal { spec_tab_key(s, tab, key) } else { (s, nothing()) },
        Focus::Popup(popup) => if s.input.mode == InputMode::Editing { spec_popup_key(s, popup, key) } else { (s, nothing()) },
    }
}

/// Handles a key press.
pub fn handle_events(app: &mut App, key: Key) -> (r: Reaction)
    ensures
        (final(app)@, r@) == spec_handle_key(old(app)@, key),
{
    match app.focus {
        Focus::Tab(tab) => handle_tabs(app, key, tab),
        Focus::Popup(popup) => handle_popups(app, key, popup),
    }
}

fn send_one(a: Action) -> (r: Reaction)
    ensures
        r@ == ReactionView::Send(seq![a@]),
{
    let mut v: Vec<Action> = Vec::new();
    v.push(a);
    assert(actions_view(v@) =~= seq![a@]);
    Reaction::Send(v)
}

fn send_two(a: Action, b: Action) -> (r: Reaction)
    ensures
        r@ == ReactionView::Send(seq![a@, b@]),
{
    let mut v: Vec<Action> = Vec::new();
    v.push(a);
    v.push(b);
    assert(actions_view(v@) =~= seq![a@, b@]);
    Reaction::Send(v)
}

fn send_none() -> (r: Reaction)
    ensures
        r@ == nothing(),
{
    let v: Vec<Action> = Vec::new();
    assert(actions_view(v@) =~= Seq::<ActionView>::empty());
    Reaction::Send(v)
}

fn handle_tabs(app: &mut App, key: Key, tab: Tabs) -> (r: Reaction)
    requires
        old(app).focus == Focus::Tab(tab),
    ensures
        (final(app)@, r@) == spec_handle_key(old(app)@, key),
{
    match app.input.mode {
        InputMode::Normal => match key {
            Key::Char('q') => send_one(Action::Quit),
            // Navigation
            Key::Tab | Key::Char('l') | Key::Right => {
                app.focus = match tab {
                    Tabs::KnownNetworks => Focus::Tab(Tabs::AvailableNetworks),
                    Tabs::AvailableNetworks => Focus::Tab(Tabs::Devices),
                    Tabs::Devices => Focus::Tab(Tabs::KnownNetworks),
                };
                send_none()
            },
            Key::BackTab | Key::Char('h') | Key::Left => {
                app.focus = match tab {
                    Tabs::KnownNetworks => Focus::Tab(Tabs::Devices),
                    Tabs::AvailableNetworks => Focus::Tab(Tabs::KnownNetworks),
                    Tabs::Devices => Focus::Tab(Tabs::AvailableNetworks),
                };
                send_none()
            },
            Key::Char('j') | Key::Down => send_one(Action::NextItem(tab)),
            Key::Char('k') | Key::Up => send_one(Action::PreviousItem(tab)),
            Key::Char('o') => {
                if tab == Tabs::Devices {
                    send_one(Action::TogglePower)
                } else {
                    send_none()
                }
            },
            Key::Char('r') => match tab {
                Tabs::AvailableNetworks | Tabs::KnownNetworks => send_one(Action::Refresh),
                _ => send_none(),
            },
            Key::Enter | Key::Char(' ') => match tab {
                Tabs::KnownNetworks => match app.selected() {
                    Some(Selected::Network(net)) => Reaction::AskCurrentNetwork(net.ssid),
                    _ => send_none(),
                },
                Tabs::AvailableNetworks => match app.selected() {
                    Some(Selected::Network(net)) => {
                        if net.is_psk {
                            send_two(
                                Action::SetFocus(Focus::Popup(Popups::Password)),
                                Action::SetInputMode(InputMode::Editing),
                            )
                        } else {
                            send_none()
                        }
                    },
                    _ => send_none(),
                },
                Tabs::Devices => send_none(),
            },
            Key::Char('d') => {
                if tab == Tabs::KnownNetworks {
                    match app.selected() {
                        Some(Selected::Network(net)) => send_one(Action::Forget { ssid: net.ssid }),
                        _ => send_none(),
                    }
                } else {
                    send_none()
                }
            },
            Key::Char('c') => send_one(toast_action("WIP", Urgency::Critical)),
            _ => send_none(),
        },
        InputMode::Editing => send_none(),
    }
}

fn handle_popups(app: &mut App, key: Key, popup: Popups) -> (r: Reaction)
    requires
        old(app).focus == Focus::Popup(popup),
    ensures
        (final(app)@, r@) == spec_handle_key(old(app)@, key),
{
    match app.input.mode {
        InputMode::Normal => send_none(),
        InputMode::Editing => match key {
            Key::Enter => {
                match app.selected() {
                    Some(Selected::Network(net)) => {
                        let req = ConnectRequest {
                            ssid: net.ssid,
                            interface: None,
                            credentials: Credentials::WpaPsk { psk: app.input.value.clone() },
                        };
                        let mut v: Vec<Action> = Vec::new();
                        v.push(Action::Connect(Box::new(req)));
                        v.push(Action::SetInputMode(InputMode::Normal));
                        v.push(Action::SetFocus(app.last_focus));
                        app.scan.enabled = true;
                        assert(actions_view(v@) =~= seq![v@[0]@, v@[1]@, v@[2]@]);
                        Reaction::Send(v)
                    },
                    _ => send_none(),
                }
            },
            Key::Tab => {
                match popup {
                    Popups::Password => {
                        app.input.hidden_password = !app.input.hidden_password;
                    },
                }
                send_none()
            },
            Key::Char(to_insert) => {
                app.input.enter_char(to_insert);
                send_none()
            },
            Key::Backspace => {
                app.input.delete_char();
                send_none()
            },
            Key::Left => {
                app.input.move_cursor_left();
                send_none()
            },
            Key::Right => {
                app.input.move_cursor_right();
                send_none()
            },
            Key::Esc => send_two(Action::SetInputMode(InputMode::Normal), Action::SetFocus(app.last_focus)),
            _ => send_none(),
        },
    }
}

/// What pressing Enter on a known network does, given the network the machine is connected
/// to: disconnect from it when it is the selected one, connect to the selected one otherwise.
pub open spec fn spec_toggle_connection(selected_ssid: String, current_ssid: Option<String>) -> ActionView {
    let connect = ActionView::Connect(ConnectRequestView { ssid: selected_ssid@, interface: None, credentials: CredentialsView::Open });
    match current_ssid {
        None => connect,
        Some(current) => if current@ == selected_ssid@ { ActionView::Disconnect } else { connect },
    }
}

/// Connects to or disconnects from the selected known network.
pub fn toggle_connection(selected_ssid: String, current_ssid: Option<String>) -> (a: Action)
    ensures
        a@ == spec_toggle_connection(selected_ssid, current_ssid),
{
    match &current_ssid {
        None => Action::Connect(Box::new(ConnectRequest { ssid: selected_ssid, interface: None, credentials: Credentials::Open })),
        Some(current) => {
            if *current == selected_ssid {
                Action::Disconnect
            } else {
                Action::Connect(Box::new(ConnectRequest { ssid: selected_ssid, interface: None, credentials: Credentials::Open }))
            }
        },
    }
}

/// Moving one panel right and then one panel left returns to the same panel, and the other
/// way round.
pub proof fn lemma_tab_navigation_inverse(tab: Tabs)
    ensures
        previous_tab(next_tab(tab)) == tab,
        next_tab(previous_tab(tab)) == tab,
        next_tab(next_tab(next_tab(tab))) == tab,
{
}

/// In normal mode, Tab and then Shift-Tab give the focus back to the panel that had it.
pub proof fn lemma_tab_then_backtab(s: AppView, tab: Tabs)
    requires
        s.focus == Focus::Tab(tab),
        s.input.mode == InputMode::Normal,
    ensures
        spec_handle_key(spec_handle_key(s, Key::Tab).0, Key::BackTab).0 == s,
{
    assert(spec_handle_key(spec_handle_key(s, Key::Tab).0, Key::BackTab).0 =~= s);
}

/// Enter on the connected network disconnects; on any other known network it connects
/// without credentials.
pub proof fn lemma_enter_toggles_connection(selected: String, current: Option<String>)
    ensures
        (current matches Some(c) && c@ == selected@) ==> spec_toggle_connection(selected, current)
            == ActionView::Disconnect,
        !(current matches Some(c) && c@ == selected@) ==> spec_toggle_connection(selected, current)
            == ActionView::Connect(ConnectRequestView { ssid: selected@, interface: None, credentials: CredentialsView::Open }),
{
}

/// In normal mode on a panel, the space bar does what Enter does.
pub proof fn lemma_space_acts_as_enter(s: AppView, tab: Tabs)
    requires
        s.focus == Focus::Tab(tab),
        s.input.mode == InputMode::Normal,
    ensures
        spec_handle_key(s, Key::Char(' ')) == spec_handle_key(s, Key::Enter),
{
}

/// Enter or space on a password-protected network of the available-networks panel opens the
/// password popup and starts editing, and changes nothing yet; on an open network it does
/// nothing.
pub proof fn lemma_confirm_on_available_network(s: AppView, key: Key, net: crate::network::NetworkEntry)
    requires
        s.focus == Focus::Tab(Tabs::AvailableNetworks),
        s.input.mode == InputMode::Normal,
        key == Key::Enter || key == Key::Char(' '),
        spec_selected(s) == Some(Selected::Network(net)),
    ensures
        spec_handle_key(s, key).0 == s,
        net.is_psk ==> spec_handle_key(s, key).1 == ReactionView::Send(
            seq![ActionView::SetFocus(Focus::Popup(Popups::Password)), ActionView::SetInputMode(InputMode::Editing)],
        ),
        !net.is_psk ==> spec_handle_key(s, key).1 == ReactionView::Send(Seq::empty()),
{
}

/// Enter or space on a network of the known-networks panel reads the current network to
/// decide between connecting and disconnecting that network; the state does not change.
pub proof fn lemma_confirm_on_known_network(s: AppView, key: Key, net: crate::network::NetworkEntry)
    requires
        s.focus == Focus::Tab(Tabs::KnownNetworks),
        s.input.mode == InputMode::Normal,
        key == Key::Enter || key == Key::Char(' '),
        spec_selected(s) == Some(Selected::Network(net)),
    ensures
        spec_handle_key(s, key) == (s, ReactionView::AskCurrentNetwork(net.ssid)),
{
}

/// In normal mode on a panel: `j` and Down ask to move the panel's list one row down, `k` and
/// Up one row up, without changing the state; `l`, Right and Tab give the focus to the panel
/// on the right, `h`, Left and Shift-Tab to the panel on the left, and queue nothing; `q` asks
/// to quit.
pub proof fn lemma_panel_keys(s: AppView, tab: Tabs)
    requires
        s.focus == Focus::Tab(tab),
        s.input.mode == InputMode::Normal,
    ensures
        spec_handle_key(s, Key::Char('j')) == (s, ReactionView::Send(seq![ActionView::NextItem(tab)])),
        spec_handle_key(s, Key::Down) == (s, ReactionView::Send(seq![ActionView::NextItem(tab)])),
        spec_handle_key(s, Key::Char('k')) == (s, ReactionView::Send(seq![ActionView::PreviousItem(tab)])),
        spec_handle_key(s, Key::Up) == (s, ReactionView::Send(seq![ActionView::PreviousItem(tab)])),
        spec_handle_key(s, Key::Char('q')) == (s, ReactionView::Send(seq![ActionView::Quit])),
        ({
            let right = match tab {
                Tabs::KnownNetworks => Tabs::AvailableNetworks,
                Tabs::AvailableNetworks => Tabs::Devices,
                Tabs::Devices => Tabs::KnownNetworks,
            };
            &&& spec_handle_key(s, Key::Char('l')) == (AppView { focus: Focus::Tab(right), ..s }, ReactionView::Send(Seq::empty()))
            &&& spec_handle_key(s, Key::Right) == spec_handle_key(s, Key::Char('l'))
            &&& spec_handle_key(s, Key::Tab) == spec_handle_key(s, Key::Char('l'))
        }),
        ({
            let left = match tab {
                Tabs::KnownNetworks => Tabs::Devices,
                Tabs::AvailableNetworks => Tabs::KnownNetworks,
                Tabs::Devices => Tabs::AvailableNetworks,
            };
            &&& spec_handle_key(s, Key::Char('h')) == (AppView { focus: Focus::Tab(left), ..s }, ReactionView::Send(Seq::empty()))
            &&& spec_handle_key(s, Key::Left) == spec_handle_key(s, Key::Char('h'))
            &&& spec_handle_key(s, Key::BackTab) == spec_handle_key(s, Key::Char('h'))
        }),
{
}

} // verus!
