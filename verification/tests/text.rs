use ssh_service::text::{address, decimal, join3};
use ssh_service::types::{Notification, SessionStatus};

#[test]
fn decimal_writes_numbers_without_leading_zeros() {
    assert_eq!(decimal(0), "0");
    assert_eq!(decimal(7), "7");
    assert_eq!(decimal(10), "10");
    assert_eq!(decimal(22), "22");
    assert_eq!(decimal(8080), "8080");
    assert_eq!(decimal(65535), "65535");
}

#[test]
fn address_joins_host_and_port() {
    assert_eq!(address("localhost", 22), "localhost:22");
    assert_eq!(address("::1", 2222), "::1:2222");
    assert_eq!(address("", 0), ":0");
}

#[test]
fn join3_concatenates() {
    assert_eq!(join3("a", "b", "c"), "abc");
    assert_eq!(join3("", "", ""), "");
}

#[test]
fn status_words_are_lower_case() {
    assert_eq!(SessionStatus::Connecting.as_str(), "connecting");
    assert_eq!(SessionStatus::Connected.as_str(), "connected");
    assert_eq!(SessionStatus::Disconnected.as_str(), "disconnected");
    assert_eq!(SessionStatus::Error.as_str(), "error");
}

#[test]
fn notifications_have_event_names() {
    let status = Notification::Status {
        server_id: "s".to_string(),
        status: SessionStatus::Connected,
        message: None,
    };
    let data = Notification::Data { server_id: "s".to_string(), text: "t".to_string() };
    let error = Notification::Error { server_id: "s".to_string(), message: "m".to_string() };
    assert_eq!(status.event(), "ssh-status");
    assert_eq!(data.event(), "ssh-data");
    assert_eq!(error.event(), "ssh-error");
}
