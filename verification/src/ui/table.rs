//! The three tables: which cells each row shows, and how a table is framed.
use vstd::prelude::*;
use vstd::string::*;
use crate::app::App;
use crate::network::{DeviceEntry, NetworkEntry};
use crate::text::{decimal, decimal_text};
use crate::ui::area::{self, Border, Rect};
use crate::ui::margin::Margin;
use crate::ui::style_config::{StyleConfig, TextStyle, resolved_or_plain};

verus! {

/// ratatui's layout constraints; carried through unchanged.
#[verifier::external_type_specification]
#[verifier::external_body]
pub struct ExConstraint(ratatui::layout::Constraint);

/// Columns of the known-networks table.
#[derive(Clone, Copy, Debug, PartialEq, Eq, Hash, Structural)]
pub enum KnownNetworkColumnKind {
    Name,
    Security,
    State,
    Signal,
}

/// Columns of the available-networks table.
#[derive(Clone, Copy, Debug, PartialEq, Eq, Hash, Structural)]
pub enum AvailableNetworkColumnKind {
    Name,
    Security,
    Signal,
}

/// Columns of the devices table.
#[derive(Clone, Copy, Debug, PartialEq, Eq, Hash, Structural)]
pub enum DeviceColumnKind {
    Name,
    Powered,
    State,
    Frequency,
    Address,
    Security,
}

/// One column: its heading, what it shows, and how wide it is.
pub struct Column<K> {
    pub title: String,
    pub value: K,
    pub constraint: ratatui::layout::Constraint,
}

/// The heading row of a table.
pub struct Header<K> {
    pub columns: Vec<Column<K>>,
    pub style_normal: StyleConfig,
    pub style_active: StyleConfig,
}

/// How a table looks.
pub struct TableConfig<K> {
    pub title: String,
    pub header: Header<K>,
    pub border: Border,
    pub margin: Margin,
}

/// The security of a network, in words.
pub open spec fn security_label(net: NetworkEntry) -> Seq<char> {
    if net.is_psk {
        "Psk"@
    } else if net.is_eap {
        "Enterprise"@
    } else if net.secured {
        "Other"@
    } else {
        "Open"@
    }
}

/// The signal strength of a network as text: the percentage, or "Unknown".
pub open spec fn strength_label(net: NetworkEntry) -> Seq<char> {
    match net.strength {
        Some(s) => decimal(s as nat),
        None => "Unknown"@,
    }
}

/// The signal bars icon: five steps of twenty percent; an unknown strength shows no bars.
pub open spec fn bars_icon(net: NetworkEntry) -> Seq<char> {
    match net.strength {
        Some(s) => if s > 80 {
            "\u{f0928}"@
        } else if s > 60 {
            "\u{f0925}"@
        } else if s > 40 {
            "\u{f0922}"@
        } else if s > 20 {
            "\u{f091f}"@
        } else {
            "\u{f092f}"@
        },
        None => "\u{f092f}"@,
    }
}

/// The security label, the strength text and the bars icon of a network.
pub fn network_info(net: &NetworkEntry) -> (r: (&'static str, String, &'static str))
    ensures
        r.0@ == security_label(*net),
        r.1@ == strength_label(*net),
        r.2@ == bars_icon(*net),
{
    let security = if net.is_psk {
        "Psk"
    } else if net.is_eap {
        "Enterprise"
    } else if net.secured {
        "Other"
    } else {
        "Open"
    };

    let (strength, bars) = if let Some(strength) = net.strength {
        let bars = if strength > 80 {
            "\u{f0928}"
        } else if strength > 60 {
            "\u{f0925}"
        } else if strength > 40 {
            "\u{f0922}"
        } else if strength > 20 {
            "\u{f091f}"
        } else {
            "\u{f092f}"
        };
        (decimal_text(strength as u32), bars)
    } else {
        (String::from_str("Unknown"), "\u{f092f}")
    };

    (security, strength, bars)
}

/// The signal cell: strength, a percent sign, a space and the bars.
pub open spec fn signal_cell(net: NetworkEntry) -> Seq<char> {
    strength_label(net) + "% "@ + bars_icon(net)
}

fn signal_text(net: &NetworkEntry) -> (s: String)
    ensures
        s@ == signal_cell(*net),
{
    let (_, strength, bars) = network_info(net);
    let mut s = strength;
    s.append("% ");
    s.append(bars);
    s
}

/// One cell of a known network's row.
pub open spec fn known_cell(net: NetworkEntry, kind: KnownNetworkColumnKind, connected: bool) -> Seq<char> {
    match kind {
        KnownNetworkColumnKind::Name => net.ssid@,
        KnownNetworkColumnKind::Security => security_label(net),
        KnownNetworkColumnKind::State => if connected { "Connected"@ } else { "-"@ },
        KnownNetworkColumnKind::Signal => signal_cell(net),
    }
}

/// One cell of an available network's row.
pub open spec fn available_cell(net: NetworkEntry, kind: AvailableNetworkColumnKind) -> Seq<char> {
    match kind {
        AvailableNetworkColumnKind::Name => net.ssid@,
        AvailableNetworkColumnKind::Security => security_label(net),
        AvailableNetworkColumnKind::Signal => signal_cell(net),
    }
}

/// One cell of a device's row; `security` is the security of the current connection.
pub open spec fn device_cell(dev: DeviceEntry, kind: DeviceColumnKind, security: Seq<char>) -> Seq<char> {
    match kind {
        DeviceColumnKind::Name => dev.interface@,
        DeviceColumnKind::Powered => if dev.powered { "On"@ } else { "Off"@ },
        DeviceColumnKind::State => dev.state@,
        DeviceColumnKind::Frequency => decimal(
            match dev.active_frequency_mhz {
                Some(f) => f as nat,
                None => 0,
            },
        ) + " MHz"@,
        DeviceColumnKind::Address => dev.hw_address@,
        DeviceColumnKind::Security => security,
    }
}

/// The texts of a row.
pub open spec fn texts(row: Seq<String>) -> Seq<Seq<char>> {
    row.map_values(|s: String| s@)
}

/// The cells of a known network's row, one per column.
pub fn known_network_row(net: &NetworkEntry, columns: &Vec<KnownNetworkColumnKind>, connected: bool) -> (row: Vec<String>)
    ensures
        texts(row@) == columns@.map_values(|k: KnownNetworkColumnKind| known_cell(*net, k, connected)),
{
    let mut row: Vec<String> = Vec::new();
    for i in 0..columns.len()
        invariant
            texts(row@) == columns@.take(i as int).map_values(|k: KnownNetworkColumnKind| known_cell(*net, k, connected)),
    {
        let cell = match columns[i] {
            KnownNetworkColumnKind::Name => net.ssid.clone(),
            KnownNetworkColumnKind::Security => String::from_str(network_info(net).0),
            KnownNetworkColumnKind::State => String::from_str(if connected { "Connected" } else { "-" }),
            KnownNetworkColumnKind::Signal => signal_text(net),
        };
        let ghost before = row@;
        row.push(cell);
        assert(texts(row@) =~= texts(before).push(cell@));
        assert(columns@.take(i + 1) =~= columns@.take(i as int).push(columns@[i as int]));
    }
    assert(columns@.take(columns.len() as int) =~= columns@);
    row
}

/// The cells of an available network's row, one per column.
pub fn available_network_row(net: &NetworkEntry, columns: &Vec<AvailableNetworkColumnKind>) -> (row: Vec<String>)
    ensures
        texts(row@) == columns@.map_values(|k: AvailableNetworkColumnKind| available_cell(*net, k)),
{
    let mut row: Vec<String> = Vec::new();
    for i in 0..columns.len()
        invariant
            texts(row@) == columns@.take(i as int).map_values(|k: AvailableNetworkColumnKind| available_cell(*net, k)),
    {
        let cell = match columns[i] {
            AvailableNetworkColumnKind::Name => net.ssid.clone(),
            AvailableNetworkColumnKind::Security => String::from_str(network_info(net).0),
            AvailableNetworkColumnKind::Signal => signal_text(net),
        };
        let ghost before = row@;
        row.push(cell);
        assert(texts(row@) =~= texts(before).push(cell@));
        assert(columns@.take(i + 1) =~= columns@.take(i as int).push(columns@[i as int]));
    }
    assert(columns@.take(columns.len() as int) =~= columns@);
    row
}

/// The cells of a device's row, one per column.
pub fn device_row(dev: &DeviceEntry, columns: &Vec<DeviceColumnKind>, security: &String) -> (row: Vec<String>)
    ensures
        texts(row@) == columns@.map_values(|k: DeviceColumnKind| device_cell(*dev, k, security@)),
{
    let mut row: Vec<String> = Vec::new();
    for i in 0..columns.len()
        invariant
            texts(row@) == columns@.take(i as int).map_values(|k: DeviceColumnKind| device_cell(*dev, k, security@)),
    {
        let cell = match columns[i] {
            DeviceColumnKind::Name => dev.interface.clone(),
            DeviceColumnKind::Powered => String::from_str(if dev.powered { "On" } else { "Off" }),
            DeviceColumnKind::State => dev.state.clone(),
            DeviceColumnKind::Frequency => {
                let freq = match dev.active_frequency_mhz {
                    Some(f) => f,
                    None => 0,
                };
                let mut s = decimal_text(freq);
                s.append(" MHz");
                s
            },
            DeviceColumnKind::Address => dev.hw_address.clone(),
            DeviceColumnKind::Security => security.clone(),
        };
        let ghost before = row@;
        row.push(cell);
        assert(texts(row@) =~= texts(before).push(cell@));
        assert(columns@.take(i + 1) =~= columns@.take(i as int).push(columns@[i as int]));
    }
    assert(columns@.take(columns.len() as int) =~= columns@);
    row
}

/// The column kinds of a table, in order.
pub fn column_kinds<K: Copy>(config: &TableConfig<K>) -> (kinds: Vec<K>)
    ensures
        kinds@ == config.header.columns@.map_values(|c: Column<K>| c.value),
{
    let mut kinds: Vec<K> = Vec::new();
    let cols = &config.header.columns;
    for i in 0..cols.len()
        invariant
            cols == config.header.columns,
            kinds@ == cols@.take(i as int).map_values(|c: Column<K>| c.value),
    {
        kinds.push(cols[i].value);
        assert(cols@.take(i + 1) =~= cols@.take(i as int).push(cols@[i as int]));
        assert(kinds@ =~= cols@.take(i + 1).map_values(|c: Column<K>| c.value));
    }
    assert(cols@.take(cols.len() as int) =~= cols@);
    kinds
}

/// How a table is framed: the area it fills, the styles of its border and header, its
/// border line, and whether the selected row is highlighted.
pub struct TableLook {
    pub area: Rect,
    pub border_style: TextStyle,
    pub border_type: ratatui::widgets::BorderType,
    pub header_style: TextStyle,
    /// Whether the selected row gets the highlight background.
    pub highlight_selected: bool,
}

/// Frames a table in `area`: the area shrinks by the table's margin, and the active table
/// uses the active border and header styles and highlights its selected row. A style with a
/// color name that cannot be read is drawn plain.
pub fn table_look<K>(config: &TableConfig<K>, area: Rect, is_active: bool) -> (look: TableLook)
    ensures
        look.area == area::spec_fill_rect(area, config.margin),
        look.border_type == config.border.line_spec(is_active),
        look.border_style == resolved_or_plain(config.border.style_spec(is_active)),
        look.header_style == resolved_or_plain(config.header.style_spec(is_active)),
        look.highlight_selected == is_active,
{
    let area = area::fill_rect(area, config.margin);
    let border_style = config.border.style(is_active).format_or_default();
    let border_type = config.border.line(is_active);
    let header_style = config.header.style(is_active).format_or_default();
    TableLook { area, border_style, border_type, header_style, highlight_selected: is_active }
}

impl<K> Header<K> {
    /// The header style for an active or an inactive table.
    pub open spec fn style_spec(self, active: bool) -> StyleConfig {
        if active { self.style_active } else { self.style_normal }
    }

    /// The header style for an active or an inactive table.
    pub fn style(&self, active: bool) -> (r: &StyleConfig)
        ensures
            *r == self.style_spec(active),
    {
        if active { &self.style_active } else { &self.style_normal }
    }
}

/// Whether `net` is the network the machine is connected to (same name).
pub open spec fn is_current(current: Option<NetworkEntry>, net: NetworkEntry) -> bool {
    match current {
        Some(c) => c.ssid@ == net.ssid@,
        None => false,
    }
}

/// The security shown for the devices: that of the current connection, or "-".
pub open spec fn current_security(info: Option<crate::network::NetworkDetails>) -> Seq<char> {
    match info {
        Some(i) => i.security@,
        None => "-"@,
    }
}

impl App {
    /// The rows of the known-networks table, one per network in list order.
    pub fn known_network_rows(&self, columns: &Vec<KnownNetworkColumnKind>) -> (rows: Vec<Vec<String>>)
        ensures
            rows@.len() == self.known_networks.items@.len(),
            forall|i: int| 0 <= i < rows@.len() ==> texts(#[trigger] rows@[i]@) == columns@.map_values(
                |k: KnownNetworkColumnKind| known_cell(
                    self.known_networks.items@[i],
                    k,
                    is_current(self.current_network, self.known_networks.items@[i]),
                ),
            ),
    {
        let items = &self.known_networks.items;
        let mut rows: Vec<Vec<String>> = Vec::new();
        for i in 0..items.len()
            invariant
                items == self.known_networks.items,
                rows@.len() == i,
                forall|j: int| 0 <= j < i ==> texts(#[trigger] rows@[j]@) == columns@.map_values(
                    |k: KnownNetworkColumnKind| known_cell(items@[j], k, is_current(self.current_network, items@[j])),
                ),
        {
            let net = &items[i];
            let connected = crate::network::is_connected_to(&self.current_network, &net.ssid);
            rows.push(known_network_row(net, columns, connected));
        }
        rows
    }

    /// The rows of the available-networks table, one per network in list order.
    pub fn available_network_rows(&self, columns: &Vec<AvailableNetworkColumnKind>) -> (rows: Vec<Vec<String>>)
        ensures
            rows@.len() == self.available_networks.items@.len(),
            forall|i: int| 0 <= i < rows@.len() ==> texts(#[trigger] rows@[i]@) == columns@.map_values(
                |k: AvailableNetworkColumnKind| available_cell(self.available_networks.items@[i], k),
            ),
    {
        let items = &self.available_networks.items;
        let mut rows: Vec<Vec<String>> = Vec::new();
        for i in 0..items.len()
            invariant
                items == self.available_networks.items,
                rows@.len() == i,
                forall|j: int| 0 <= j < i ==> texts(#[trigger] rows@[j]@) == columns@.map_values(
                    |k: AvailableNetworkColumnKind| available_cell(items@[j], k),
                ),
        {
            rows.push(available_network_row(&items[i], columns));
        }
        rows
    }

    /// The rows of the devices table, one per device in list order.
    pub fn device_rows(&self, columns: &Vec<DeviceColumnKind>) -> (rows: Vec<Vec<String>>)
        ensures
            rows@.len() == self.devices.items@.len(),
            forall|i: int| 0 <= i < rows@.len() ==> texts(#[trigger] rows@[i]@) == columns@.map_values(
                |k: DeviceColumnKind| device_cell(self.devices.items@[i], k, current_security(self.current_network_info)),
            ),
    {
        let security = match &self.current_network_info {
            Some(info) => info.security.clone(),
            None => String::from_str("-"),
        };
        let items = &self.devices.items;
        let mut rows: Vec<Vec<String>> = Vec::new();
        for i in 0..items.len()
            invariant
                items == self.devices.items,
                security@ == current_security(self.current_network_info),
                rows@.len() == i,
                forall|j: int| 0 <= j < i ==> texts(#[trigger] rows@[j]@) == columns@.map_values(
                    |k: DeviceColumnKind| device_cell(items@[j], k, security@),
                ),
        {
            rows.push(device_row(&items[i], columns, &security));
        }
        rows
    }
}

} // verus!
