use energy_panel::connection::convert_connect_error;
use energy_panel::connection::ConnectError;
use energy_panel::connection::ConnectionManager;
use energy_panel::connection::ConnectionState;
use energy_panel::connection::Request;
use energy_panel::connection::Signal;

fn connecting(max_retries: u32) -> ConnectionManager {
    let mut manager = ConnectionManager::new(max_retries);
    manager.signal(Signal::Start);
    manager
}

fn connected(max_retries: u32) -> ConnectionManager {
    let mut manager = connecting(max_retries);
    manager.signal(Signal::HandshakeSucceeded);
    manager
}

#[test]
fn manager_starts_disconnected() {
    let manager = ConnectionManager::new(5);
    assert_eq!(manager.state(), ConnectionState::Disconnected);
    assert_eq!(manager.max_retries(), 5);
    assert_eq!(manager.handshake_retries(), 0);
    assert_eq!(manager.retries(), 0);
    assert!(!manager.streamed());
    assert_eq!(manager.request(), Request::Begin);
}

#[test]
fn request_follows_the_state() {
    let mut manager = ConnectionManager::new(0);
    assert_eq!(manager.request(), Request::Begin);
    manager.signal(Signal::Start);
    assert_eq!(manager.request(), Request::Connect);
    manager.signal(Signal::HandshakeSucceeded);
    assert_eq!(manager.request(), Request::Read);
    manager.signal(Signal::StreamLost);
    assert_eq!(manager.request(), Request::Begin);
    manager.signal(Signal::Start);
    manager.signal(Signal::HandshakeFailed);
    assert_eq!(manager.request(), Request::Halt);
}

#[test]
fn start_begins_an_attempt() {
    let manager = connecting(5);
    assert_eq!(manager.state(), ConnectionState::Connecting);
    assert_eq!(manager.retries(), 0);
}

#[test]
fn successful_handshake_connects() {
    let manager = connected(5);
    assert_eq!(manager.state(), ConnectionState::Connected);
    assert_eq!(manager.handshake_retries(), 0);
    assert!(!manager.streamed());
}

#[test]
fn failed_handshake_counts_one() {
    let mut manager = connecting(5);
    for failures in 1..=5 {
        manager.signal(Signal::HandshakeFailed);
        assert_eq!(manager.handshake_retries(), failures);
        assert_eq!(manager.retries(), failures);
        assert_eq!(manager.state(), ConnectionState::Connecting);
    }
}

#[test]
fn one_failure_more_than_the_maximum_gives_up() {
    for max in [0u32, 1, 5, 17] {
        let mut manager = connecting(max);
        for _ in 0..max {
            manager.signal(Signal::HandshakeFailed);
            assert_eq!(manager.state(), ConnectionState::Connecting);
        }
        manager.signal(Signal::HandshakeFailed);
        assert_eq!(manager.state(), ConnectionState::GaveUp);
        assert_eq!(manager.handshake_retries(), max as u64 + 1);
        assert_eq!(manager.request(), Request::Halt);
    }
}

#[test]
fn giving_up_is_final() {
    let mut manager = connecting(0);
    manager.signal(Signal::HandshakeFailed);
    assert_eq!(manager.state(), ConnectionState::GaveUp);
    for signal in [
        Signal::Start,
        Signal::HandshakeSucceeded,
        Signal::HandshakeFailed,
        Signal::MessageRead,
        Signal::StreamLost,
    ] {
        manager.signal(signal);
        assert_eq!(manager.state(), ConnectionState::GaveUp);
        assert_eq!(manager.handshake_retries(), 1);
        assert_eq!(manager.retries(), 1);
        assert_eq!(manager.request(), Request::Halt);
    }
}

#[test]
fn lost_stream_disconnects_and_counts_as_a_retry() {
    let mut manager = connected(5);
    manager.signal(Signal::StreamLost);
    assert_eq!(manager.state(), ConnectionState::Disconnected);
    assert_eq!(manager.retries(), 1);
    assert_eq!(manager.handshake_retries(), 0);
}

#[test]
fn lost_streams_never_give_up() {
    let mut manager = ConnectionManager::new(2);
    for round in 1..=50 {
        manager.signal(Signal::Start);
        manager.signal(Signal::HandshakeSucceeded);
        manager.signal(Signal::StreamLost);
        assert_eq!(manager.state(), ConnectionState::Disconnected);
        assert_eq!(manager.retries(), round);
        assert_eq!(manager.handshake_retries(), 0);
    }
}

#[test]
fn stream_lost_before_a_message_keeps_the_count() {
    let mut manager = connecting(5);
    manager.signal(Signal::HandshakeFailed);
    manager.signal(Signal::HandshakeFailed);
    manager.signal(Signal::HandshakeSucceeded);
    assert_eq!(manager.handshake_retries(), 2);
    manager.signal(Signal::StreamLost);
    assert_eq!(manager.handshake_retries(), 2);
    assert_eq!(manager.retries(), 3);
    manager.signal(Signal::Start);
    for _ in 0..3 {
        manager.signal(Signal::HandshakeFailed);
        assert_eq!(manager.state(), ConnectionState::Connecting);
    }
    manager.signal(Signal::HandshakeFailed);
    assert_eq!(manager.state(), ConnectionState::GaveUp);
    assert_eq!(manager.retries(), 7);
}

#[test]
fn stream_lost_after_a_message_resets_the_count() {
    let mut manager = connecting(5);
    manager.signal(Signal::HandshakeFailed);
    manager.signal(Signal::HandshakeFailed);
    manager.signal(Signal::HandshakeSucceeded);
    manager.signal(Signal::MessageRead);
    assert!(manager.streamed());
    assert_eq!(manager.handshake_retries(), 2);
    manager.signal(Signal::StreamLost);
    assert_eq!(manager.handshake_retries(), 0);
    assert_eq!(manager.retries(), 3);
    assert!(!manager.streamed());
    manager.signal(Signal::Start);
    for _ in 0..5 {
        manager.signal(Signal::HandshakeFailed);
        assert_eq!(manager.state(), ConnectionState::Connecting);
    }
    manager.signal(Signal::HandshakeFailed);
    assert_eq!(manager.state(), ConnectionState::GaveUp);
}

#[test]
fn message_keeps_the_state() {
    let mut manager = connected(5);
    for _ in 0..10 {
        manager.signal(Signal::MessageRead);
        assert_eq!(manager.state(), ConnectionState::Connected);
        assert_eq!(manager.retries(), 0);
    }
}

#[test]
fn unexpected_signal_is_ignored() {
    let mut manager = ConnectionManager::new(5);
    for signal in [
        Signal::HandshakeSucceeded,
        Signal::HandshakeFailed,
        Signal::MessageRead,
        Signal::StreamLost,
    ] {
        manager.signal(signal);
        assert_eq!(manager.state(), ConnectionState::Disconnected);
        assert_eq!(manager.retries(), 0);
        assert_eq!(manager.handshake_retries(), 0);
    }
    let mut manager = connecting(5);
    for signal in [Signal::Start, Signal::MessageRead, Signal::StreamLost] {
        manager.signal(signal);
        assert_eq!(manager.state(), ConnectionState::Connecting);
        assert_eq!(manager.retries(), 0);
    }
    let mut manager = connected(5);
    for signal in [Signal::Start, Signal::HandshakeSucceeded, Signal::HandshakeFailed] {
        manager.signal(signal);
        assert_eq!(manager.state(), ConnectionState::Connected);
        assert_eq!(manager.retries(), 0);
        assert_eq!(manager.handshake_retries(), 0);
    }
}

#[test]
fn convert_connect_error_reports_the_detail() {
    assert_eq!(
        convert_connect_error(ConnectError::Io("Os { code: 111 }".to_string())),
        "Os { code: 111 }"
    );
    assert_eq!(
        convert_connect_error(ConnectError::Utf8("invalid utf-8 sequence".to_string())),
        "invalid utf-8 sequence"
    );
    assert_eq!(
        convert_connect_error(ConnectError::HttpHeader("Token".to_string())),
        "Token"
    );
    assert_eq!(
        convert_connect_error(ConnectError::WebSocket("HttpResponseCodeInvalid(Some(404))".to_string())),
        "HttpResponseCodeInvalid(Some(404))"
    );
}

#[test]
fn convert_connect_error_reports_the_size_of_a_large_frame() {
    assert_eq!(convert_connect_error(ConnectError::FrameTooLarge(2001)), "Frame to large: 2001");
    assert_eq!(convert_connect_error(ConnectError::FrameTooLarge(0)), "Frame to large: 0");
}
