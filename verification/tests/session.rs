use turntouch::protocol::{ButtonEvent, Direction, BATTERY_LEVEL, BUTTON_STATUS_V2};
use turntouch::session::{retry_plan, DisconnectReason, RetryPlan, Session, SessionAction, SessionEvent, SetupFailure};

fn events(a: SessionAction) -> Vec<ButtonEvent> {
    match a {
        SessionAction::Continue(es) => es,
        _ => panic!("expected to keep listening"),
    }
}

fn reason(a: SessionAction) -> DisconnectReason {
    match a {
        SessionAction::Reconnect(r) => r,
        _ => panic!("expected a reconnect"),
    }
}

#[test]
fn button_notifications_reach_the_detector() {
    let mut s = Session::new(BUTTON_STATUS_V2);
    let a = s.handle(SessionEvent::Notification { uuid: BUTTON_STATUS_V2, value: vec![0xFB, 0x00] });
    assert_eq!(events(a), vec![]);
    let b = s.handle(SessionEvent::Notification { uuid: BUTTON_STATUS_V2, value: vec![0xFF, 0x00] });
    assert_eq!(events(b), vec![ButtonEvent::Press(Direction::West)]);
}

#[test]
fn other_notifications_are_ignored() {
    let mut s = Session::new(BUTTON_STATUS_V2);
    s.handle(SessionEvent::Notification { uuid: BUTTON_STATUS_V2, value: vec![0xFB, 0x00] });
    let a = s.handle(SessionEvent::Notification { uuid: BATTERY_LEVEL, value: vec![0xFF] });
    assert_eq!(events(a), vec![]);
    let b = s.handle(SessionEvent::Notification { uuid: BUTTON_STATUS_V2, value: vec![0xFF, 0x00] });
    assert_eq!(events(b), vec![ButtonEvent::Press(Direction::West)]);
}

#[test]
fn end_of_notifications_reconnects() {
    let mut s = Session::new(BUTTON_STATUS_V2);
    let r = reason(s.handle(SessionEvent::NotificationsEnded));
    assert_eq!(r, DisconnectReason::StreamEnded);
    assert_eq!(r.describe(), "notification stream ended");
}

#[test]
fn remote_disconnect_reconnects() {
    let mut s = Session::new(BUTTON_STATUS_V2);
    let r = reason(s.handle(SessionEvent::DeviceDisconnected { name: Some("Turn Touch".to_string()) }));
    assert_eq!(r, DisconnectReason::DisconnectEvent);
    assert_eq!(r.describe(), "disconnect event received");
    let a = s.handle(SessionEvent::DeviceDisconnected { name: Some("Keyboard".to_string()) });
    assert_eq!(events(a), vec![]);
    let b = s.handle(SessionEvent::DeviceDisconnected { name: None });
    assert_eq!(events(b), vec![]);
}

#[test]
fn failed_check_reconnects() {
    let mut s = Session::new(BUTTON_STATUS_V2);
    assert_eq!(events(s.handle(SessionEvent::ConnectivityChecked { connected: true })), vec![]);
    let r = reason(s.handle(SessionEvent::ConnectivityChecked { connected: false }));
    assert_eq!(r, DisconnectReason::ConnectivityLost);
    assert_eq!(r.describe(), "connectivity check failed");
}

#[test]
fn interrupt_shuts_down() {
    let mut s = Session::new(BUTTON_STATUS_V2);
    assert!(matches!(s.handle(SessionEvent::Interrupted), SessionAction::Shutdown));
}

#[test]
fn retry_plans() {
    assert_eq!(retry_plan(SetupFailure::ConnectFailed), RetryPlan { disconnect: false, pause_secs: 2 });
    assert_eq!(retry_plan(SetupFailure::DiscoveryFailed), RetryPlan { disconnect: true, pause_secs: 2 });
    assert_eq!(retry_plan(SetupFailure::ButtonCharacteristicMissing), RetryPlan { disconnect: true, pause_secs: 2 });
    assert_eq!(retry_plan(SetupFailure::SubscribeFailed), RetryPlan { disconnect: true, pause_secs: 2 });
    assert_eq!(retry_plan(SetupFailure::ConnectionLost), RetryPlan { disconnect: true, pause_secs: 3 });
}
