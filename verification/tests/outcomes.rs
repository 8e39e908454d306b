use nmrs_tui::action::{
    Action, ConnectOutcome, NetworkScanResult, airplane_decision, airplane_outcome,
    connect_outcome, disconnect_outcome, forget_outcome, power_decision, power_outcome,
    refresh_outcome, toast_action,
};
use nmrs_tui::app::Focus;
use nmrs_tui::ui::toast::Urgency;

fn notice(a: &Action) -> (String, Urgency) {
    match a {
        Action::ShowToast(t) => (t.msg.clone(), t.urgency),
        _ => panic!("expected a notice"),
    }
}

#[test]
fn connection_outcomes_are_reported() {
    let ssid = "home".to_string();
    let cases = [
        (ConnectOutcome::Connected, "Connected!", Urgency::Success),
        (ConnectOutcome::NotFound, "Network not visible — is it in range?", Urgency::Critical),
        (ConnectOutcome::Timeout, "Connection timed out — try increasing the timeout", Urgency::Critical),
        (ConnectOutcome::DhcpFailed, "Failed to get an IP address", Urgency::Critical),
        (ConnectOutcome::Failed, "Connection failed!", Urgency::Critical),
        (ConnectOutcome::TimedOut, "Operation timed out!", Urgency::Critical),
    ];
    for (outcome, msg, urgency) in cases {
        let acts = connect_outcome(&ssid, outcome);
        assert_eq!(acts.len(), 1);
        assert_eq!(notice(&acts[0]), (msg.to_string(), urgency));
    }
}

#[test]
fn wrong_password_forgets_the_network() {
    let acts = connect_outcome(&"cafe".to_string(), ConnectOutcome::AuthFailed);
    assert_eq!(acts.len(), 2);
    assert!(matches!(&acts[0], Action::Forget { ssid } if ssid == "cafe"));
    assert_eq!(notice(&acts[1]), ("Wrong password!".to_string(), Urgency::Critical));
}

#[test]
fn refresh_outcome_reports_results_or_failure() {
    let a = refresh_outcome(Some(NetworkScanResult { known: vec![], available: vec![], devices: vec![] }));
    assert!(matches!(a, Action::NetworkScanResult(_)));
    let a = refresh_outcome(None);
    assert_eq!(notice(&a), ("Refresh failed!".to_string(), Urgency::Critical));
}

#[test]
fn forget_and_disconnect_report_then_refresh() {
    let acts = forget_outcome(true);
    assert_eq!(notice(&acts[0]), ("Forgotten!".to_string(), Urgency::Success));
    assert!(matches!(acts[1], Action::Refresh));
    let acts = forget_outcome(false);
    assert_eq!(notice(&acts[0]), ("Forget failed!".to_string(), Urgency::Critical));
    let acts = disconnect_outcome(true);
    assert_eq!(notice(&acts[0]), ("Disconnected!".to_string(), Urgency::Success));
    assert!(matches!(acts[1], Action::Refresh));
    let acts = disconnect_outcome(false);
    assert_eq!(notice(&acts[0]), ("Disconnect failed!".to_string(), Urgency::Critical));
    assert_eq!(acts.len(), 2);
}

#[test]
fn airplane_mode_flips() {
    assert!(matches!(airplane_decision(Some(true)), Ok(false)));
    assert!(matches!(airplane_decision(Some(false)), Ok(true)));
    match airplane_decision(None) {
        Err(a) => assert_eq!(notice(&a), ("Failed to get airplane mode state!".to_string(), Urgency::Critical)),
        Ok(_) => panic!("expected a notice"),
    }
    let acts = airplane_outcome(true, true);
    assert_eq!(notice(&acts[0]), ("Airplane mode On".to_string(), Urgency::Success));
    assert!(matches!(acts[1], Action::Refresh));
    let acts = airplane_outcome(false, true);
    assert_eq!(notice(&acts[0]), ("Airplane mode Off".to_string(), Urgency::Success));
    let acts = airplane_outcome(false, false);
    assert_eq!(notice(&acts[0]), ("Toggle airplane mode failed!".to_string(), Urgency::Critical));
    assert!(matches!(acts[1], Action::Refresh));
}

#[test]
fn wifi_power_flips() {
    assert!(matches!(power_decision(Some(true)), Ok(false)));
    assert!(matches!(power_decision(Some(false)), Ok(true)));
    match power_decision(None) {
        Err(a) => assert_eq!(notice(&a), ("Failed to get wifi state!".to_string(), Urgency::Critical)),
        Ok(_) => panic!("expected a notice"),
    }
    assert_eq!(notice(&power_outcome(true, true)[0]), ("Wifi On".to_string(), Urgency::Success));
    assert_eq!(notice(&power_outcome(false, true)[0]), ("Wifi Off".to_string(), Urgency::Success));
    assert_eq!(notice(&power_outcome(true, false)[0]), ("Toggle power failed!".to_string(), Urgency::Critical));
}

#[test]
fn toast_action_builds_a_plain_notice() {
    let a = toast_action("hi", Urgency::Warning);
    assert!(matches!(&a, Action::ShowToast(t) if t.title.is_none() && t.duration.is_none()));
    assert_eq!(notice(&a), ("hi".to_string(), Urgency::Warning));
    let _ = Focus::Tab(nmrs_tui::app::Tabs::Devices);
}
