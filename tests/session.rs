use ble_remote::command::{Action, Dispatch};
use ble_remote::config::{CHARACTERISTIC_UUID, RETRY_DELAY_SECS, SERVICE_UUID};
use ble_remote::session::{Event, ServiceInfo, Session, SessionError, Step};

fn remote_services() -> Vec<ServiceInfo> {
    vec![
        ServiceInfo { uuid: 0x1800, characteristics: vec![0x2a00] },
        ServiceInfo { uuid: SERVICE_UUID, characteristics: vec![0x2a01, CHARACTERISTIC_UUID] },
    ]
}

fn listening_session() -> Session {
    let mut s = Session::new();
    assert_eq!(s.current(), Step::FindAdapter);
    s.advance(Event::Adapters(2));
    assert_eq!(s.current(), Step::StartScan);
    s.advance(Event::ScanStarted);
    assert_eq!(s.current(), Step::Settle);
    s.advance(Event::Settled);
    assert_eq!(s.current(), Step::ListPeripherals);
    s.advance(Event::Peripherals(vec![
        None,
        Some("Speaker".to_string()),
        Some("ESP32_Remote".to_string()),
    ]));
    assert_eq!(s.current(), Step::CheckLink(2));
    s.advance(Event::LinkStatus(false));
    assert_eq!(s.current(), Step::Connect);
    s.advance(Event::Connected);
    assert_eq!(s.current(), Step::DiscoverServices);
    s.advance(Event::Services(remote_services()));
    assert_eq!(s.current(), Step::Subscribe(1, 1));
    s.advance(Event::Subscribed);
    assert_eq!(s.current(), Step::OpenFeed);
    s.advance(Event::FeedOpened);
    assert_eq!(s.current(), Step::Listen);
    assert!(!s.is_finished());
    s
}

#[test]
fn play_pause_payload_is_delivered_once() {
    let mut s = listening_session();
    s.advance(Event::Notification(CHARACTERISTIC_UUID, b"300\n".to_vec()));
    assert_eq!(s.current(), Step::Deliver(300, Dispatch::Invoke(Action::PlayPause)));
    s.advance(Event::Delivered);
    assert_eq!(s.current(), Step::Listen);
}

#[test]
fn unknown_code_payload_is_reported() {
    let mut s = listening_session();
    s.advance(Event::Notification(CHARACTERISTIC_UUID, b"999".to_vec()));
    assert_eq!(s.current(), Step::Deliver(999, Dispatch::UnknownCode(999)));
}

#[test]
fn malformed_and_foreign_notifications_keep_listening() {
    let mut s = listening_session();
    s.advance(Event::Notification(CHARACTERISTIC_UUID, vec![0xff, 0xfe]));
    assert_eq!(s.current(), Step::Listen);
    s.advance(Event::Notification(CHARACTERISTIC_UUID, b"play".to_vec()));
    assert_eq!(s.current(), Step::Listen);
    s.advance(Event::Notification(SERVICE_UUID, b"300".to_vec()));
    assert_eq!(s.current(), Step::Listen);
}

#[test]
fn already_connected_peripheral_skips_connect() {
    let mut s = Session::new();
    s.advance(Event::Adapters(1));
    s.advance(Event::ScanStarted);
    s.advance(Event::Settled);
    s.advance(Event::Peripherals(vec![Some("ESP32_Remote".to_string())]));
    assert_eq!(s.current(), Step::CheckLink(0));
    s.advance(Event::LinkStatus(true));
    assert_eq!(s.current(), Step::DiscoverServices);
}

#[test]
fn no_adapter_fails_at_once() {
    let mut s = Session::new();
    s.advance(Event::Adapters(0));
    assert_eq!(s.current(), Step::Failed(SessionError::NoAdapter));
    assert!(s.is_finished());
}

#[test]
fn missing_peripheral_fails() {
    let mut s = Session::new();
    s.advance(Event::Adapters(1));
    s.advance(Event::ScanStarted);
    s.advance(Event::Settled);
    s.advance(Event::Peripherals(vec![
        None,
        Some("ESP32_Remote ".to_string()),
        Some("esp32_remote".to_string()),
    ]));
    assert_eq!(s.current(), Step::Failed(SessionError::PeripheralNotFound));
}

#[test]
fn empty_peripheral_list_fails() {
    let mut s = Session::new();
    s.advance(Event::Adapters(1));
    s.advance(Event::ScanStarted);
    s.advance(Event::Settled);
    s.advance(Event::Peripherals(Vec::new()));
    assert_eq!(s.current(), Step::Failed(SessionError::PeripheralNotFound));
}

fn discovering_session() -> Session {
    let mut s = Session::new();
    s.advance(Event::Adapters(1));
    s.advance(Event::ScanStarted);
    s.advance(Event::Settled);
    s.advance(Event::Peripherals(vec![Some("ESP32_Remote".to_string())]));
    s.advance(Event::LinkStatus(true));
    assert_eq!(s.current(), Step::DiscoverServices);
    s
}

#[test]
fn missing_service_fails() {
    let mut s = discovering_session();
    s.advance(Event::Services(vec![ServiceInfo { uuid: 0x1800, characteristics: vec![CHARACTERISTIC_UUID] }]));
    assert_eq!(s.current(), Step::Failed(SessionError::ServiceNotFound));
}

#[test]
fn missing_characteristic_fails() {
    let mut s = discovering_session();
    s.advance(Event::Services(vec![ServiceInfo { uuid: SERVICE_UUID, characteristics: vec![0x2a00] }]));
    assert_eq!(s.current(), Step::Failed(SessionError::CharacteristicNotFound));
}

#[test]
fn failed_calls_end_with_their_error() {
    let mut s = Session::new();
    s.advance(Event::CallFailed);
    assert_eq!(s.current(), Step::Failed(SessionError::NoAdapter));

    let mut s = discovering_session();
    s.advance(Event::CallFailed);
    assert_eq!(s.current(), Step::Failed(SessionError::Connection));

    let mut s = discovering_session();
    s.advance(Event::Services(remote_services()));
    s.advance(Event::CallFailed);
    assert_eq!(s.current(), Step::Failed(SessionError::Subscription));
}

#[test]
fn unexpected_events_change_nothing() {
    let mut s = Session::new();
    s.advance(Event::Settled);
    assert_eq!(s.current(), Step::FindAdapter);
    let mut s = listening_session();
    s.advance(Event::Settled);
    s.advance(Event::CallFailed);
    assert_eq!(s.current(), Step::Listen);
}

#[test]
fn disconnect_closes_normally_and_restarts() {
    let mut s = listening_session();
    s.advance(Event::TimerElapsed);
    assert_eq!(s.current(), Step::QueryStatus);
    s.advance(Event::LinkStatus(true));
    assert_eq!(s.current(), Step::Listen);
    s.advance(Event::TimerElapsed);
    s.advance(Event::LinkStatus(false));
    assert_eq!(s.current(), Step::Closed);
    assert!(s.is_finished());
    s.advance(Event::Adapters(1));
    assert_eq!(s.current(), Step::Closed);
    assert_eq!(s.restart(), 5);
    assert_eq!(s.current(), Step::FindAdapter);
}

#[test]
fn vanished_peripheral_ends_session_and_restarts() {
    let mut s = listening_session();
    s.advance(Event::TimerElapsed);
    assert_eq!(s.current(), Step::QueryStatus);
    s.advance(Event::CallFailed);
    assert_eq!(s.current(), Step::Failed(SessionError::StatusQuery));
    assert!(s.is_finished());
    assert_eq!(s.restart(), RETRY_DELAY_SECS);
    assert_eq!(RETRY_DELAY_SECS, 5);
    assert_eq!(s.current(), Step::FindAdapter);
}

#[test]
fn errors_have_messages() {
    assert_eq!(SessionError::NoAdapter.message(), "No Bluetooth adapters found");
    assert_eq!(SessionError::PeripheralNotFound.message(), "ESP32_Remote not found");
    assert_eq!(SessionError::StatusQuery.message(), "Connection status query failed");
}
