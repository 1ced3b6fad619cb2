use rustymode::alerting::{motion_alert_text, AlertAction, AlertGate, ALERT_COOLDOWN_MS};
use rustymode::slack::{new, ErrorKind};

#[test]
fn burst_within_cooldown_notifies_exactly_once() {
    let mut gate = AlertGate::new();
    let burst = vec![6000u64, 6001, 7500, 9000, 10_500];
    let n = gate.run_events(&burst);
    assert_eq!(n, 1);
    assert_eq!(gate.last_sent_ms, 6000);
}

#[test]
fn event_after_cooldown_notifies_once_more() {
    let mut gate = AlertGate::new();
    let events = vec![6000u64, 6001, 7500, 9000, 10_500, 11_001];
    let n = gate.run_events(&events);
    assert_eq!(n, 2);
    assert_eq!(gate.last_sent_ms, 11_001);
}

#[test]
fn gate_decision_per_event() {
    let mut gate = AlertGate::new();
    assert!(gate.on_event(true, 100_000) == AlertAction::Stop);
    assert_eq!(gate.last_sent_ms, 0);
    assert!(gate.on_event(false, 4000) == AlertAction::Suppress);
    assert!(gate.on_event(false, ALERT_COOLDOWN_MS + 1) == AlertAction::Notify);
    assert_eq!(gate.last_sent_ms, ALERT_COOLDOWN_MS + 1);
    assert!(gate.on_event(false, 2 * ALERT_COOLDOWN_MS + 1) == AlertAction::Suppress);
    assert!(gate.on_event(false, 2 * ALERT_COOLDOWN_MS + 2) == AlertAction::Notify);
}

#[test]
fn alert_text_appends_the_motion_suffix() {
    let text = motion_alert_text("2024-05-01_10-30-00");
    assert_eq!(text, "2024-05-01_10-30-00 Motion Detected");
}

#[test]
fn built_message_ends_with_the_motion_suffix() {
    let text = rustymode::alerting::build_motion_message();
    assert!(text.ends_with(" Motion Detected"));
    assert!(text.len() >= " Motion Detected".len() + 19);
}

#[test]
fn messenger_rejects_an_invalid_webhook_url() {
    match new("not a url", "#cam", "detector") {
        Err(ErrorKind::CreateSlackClientErr(msg)) => assert!(!msg.is_empty()),
        _ => panic!("an unparsable URL must be rejected"),
    }
}

#[test]
fn messenger_keeps_channel_and_user_and_builds_payloads() {
    let m = new("https://hooks.example.com/services/T000/B000/XXX", "#cam", "detector")
        .expect("a well-formed URL must be accepted");
    assert_eq!(m.channel, "#cam");
    assert_eq!(m.username, "detector");
    assert!(m.payload(String::from("motion")).is_ok());
}
