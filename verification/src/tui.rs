//! Decisions taken while drawing a frame.
use vstd::prelude::*;
use crate::action::{Action, ActionView, actions_view, toast_action, toast_view};
use crate::app::{App, AppView, Focus, Popups, Selected, spec_selected};
use crate::ui::toast::Urgency;

verus! {

/// What drawing queues: a password popup with no network selected behind it closes itself
/// with a notice; otherwise nothing.
pub open spec fn spec_popup_check(s: AppView) -> Seq<ActionView> {
    match s.focus {
        Focus::Popup(Popups::Password) => match spec_selected(s) {
            Some(Selected::Network(_)) => Seq::empty(),
            _ => seq![
                toast_view("Can't find selected network"@, Urgency::Critical),
                ActionView::SetFocus(s.last_focus),
            ],
        },
        _ => Seq::empty(),
    }
}

/// The actions to queue while drawing `app`.
pub fn popup_check(app: &App) -> (r: Vec<Action>)
    ensures
        actions_view(r@) == spec_popup_check(app@),
{
    let mut r: Vec<Action> = Vec::new();
    if let Focus::Popup(popup) = app.focus {
        match popup {
            Popups::Password => {
                match app.selected() {
                    Some(Selected::Network(_)) => {},
                    _ => {
                        r.push(toast_action("Can't find selected network", Urgency::Critical));
                        r.push(Action::SetFocus(app.last_focus));
                    },
                }
            },
        }
    }
    assert(actions_view(r@) =~= spec_popup_check(app@));
    r
}

} // verus!
