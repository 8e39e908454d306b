//! The help line: the keys of the focused panel.
use vstd::prelude::*;
use crate::app::{Focus, Tabs};

verus! {

/// The help text for what has the focus.
pub open spec fn spec_help_message(focus: Focus) -> Seq<char> {
    match focus {
        Focus::Tab(Tabs::KnownNetworks) => "k,\u{f062}  Up | j,\u{f063}  Down | \u{f1050}  or \u{21b5}  Dis/connect | a Show All | d Remove | t Autoconnect | s Scan | p Share | \u{21c4} Nav"@,
        Focus::Tab(Tabs::AvailableNetworks) => "k,\u{f062}  Up | j,\u{f063}  Down | \u{f1050}  or \u{21b5}  Connect | s Scan | \u{21c4} Nav"@,
        Focus::Tab(Tabs::Devices) => "s Scan | i Infos | o Toggle Power | \u{21c4} Nav"@,
        Focus::Popup(_) => "dsa"@,
    }
}

/// The help text for what has the focus.
pub fn help_message(focus: Focus) -> (msg: &'static str)
    ensures
        msg@ == spec_help_message(focus),
{
    match focus {
        Focus::Tab(tab) => match tab {
            Tabs::KnownNetworks => "k,\u{f062}  Up | j,\u{f063}  Down | \u{f1050}  or \u{21b5}  Dis/connect | a Show All | d Remove | t Autoconnect | s Scan | p Share | \u{21c4} Nav",
            Tabs::AvailableNetworks => "k,\u{f062}  Up | j,\u{f063}  Down | \u{f1050}  or \u{21b5}  Connect | s Scan | \u{21c4} Nav",
            Tabs::Devices => "s Scan | i Infos | o Toggle Power | \u{21c4} Nav",
        },
        Focus::Popup(_) => "dsa",
    }
}

} // verus!
