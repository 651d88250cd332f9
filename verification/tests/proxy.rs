use quadbench::proxy::{
    after_accept_error, after_sitl_read, after_websocket_flush, after_websocket_read,
    begin_session, count_bytes_from_configurator, count_bytes_from_sitl, end_session,
    record_error, set_connection_state, ProxyTelemetry, RelayStep, StreamReadOutcome,
    WsFlushOutcome, WsReadOutcome,
};
use quadbench::transport::{is_retryable_io, IoErrorKind};

#[test]
fn retryable_io_kinds() {
    assert!(is_retryable_io(IoErrorKind::WouldBlock));
    assert!(is_retryable_io(IoErrorKind::TimedOut));
    assert!(!is_retryable_io(IoErrorKind::Other));
}

#[test]
fn proxy_session_lifecycle() {
    let mut telemetry = ProxyTelemetry::new();
    assert!(!telemetry.connected());

    set_connection_state(&mut telemetry, true, false);
    assert!(telemetry.client_connected);
    assert!(!telemetry.connected());

    record_error(&mut telemetry, "old".to_owned());
    begin_session(&mut telemetry);
    assert!(telemetry.connected());
    assert_eq!(telemetry.sessions, 1);
    assert_eq!(telemetry.last_error, None);

    count_bytes_from_configurator(&mut telemetry, 12);
    count_bytes_from_sitl(&mut telemetry, 30);
    count_bytes_from_sitl(&mut telemetry, 2);
    assert_eq!(telemetry.bytes_from_configurator, 12);
    assert_eq!(telemetry.bytes_from_sitl, 32);

    end_session(&mut telemetry, Err("SITL -> Configurator read failed".to_owned()));
    assert!(!telemetry.client_connected);
    assert!(!telemetry.sitl_connected);
    assert_eq!(telemetry.sessions, 1);
    assert_eq!(telemetry.last_error.as_deref(), Some("SITL -> Configurator read failed"));

    begin_session(&mut telemetry);
    end_session(&mut telemetry, Ok(()));
    assert_eq!(telemetry.sessions, 2);
    assert_eq!(telemetry.last_error, None);
    assert!(!telemetry.connected());
}

#[test]
fn accept_errors() {
    let mut telemetry = ProxyTelemetry::new();
    assert_eq!(after_accept_error(&mut telemetry, IoErrorKind::WouldBlock, "a".to_owned()), 10);
    assert_eq!(telemetry.last_error, None);
    assert_eq!(after_accept_error(&mut telemetry, IoErrorKind::Other, "b".to_owned()), 100);
    assert_eq!(telemetry.last_error.as_deref(), Some("b"));
}

fn is_relay_of(step: &RelayStep, expected: &[u8]) -> bool {
    matches!(step, RelayStep::Relay(bytes) if bytes.as_slice() == expected)
}

#[test]
fn websocket_reads() {
    assert!(is_relay_of(&after_websocket_read(WsReadOutcome::Payload(vec![1, 2, 3])), &[1, 2, 3]));
    assert!(matches!(after_websocket_read(WsReadOutcome::Payload(vec![])), RelayStep::Proceed));
    assert!(matches!(after_websocket_read(WsReadOutcome::CloseFrame), RelayStep::Finish));
    assert!(matches!(after_websocket_read(WsReadOutcome::Control), RelayStep::Proceed));
    assert!(matches!(after_websocket_read(WsReadOutcome::ConnectionClosed), RelayStep::Finish));
    assert!(matches!(
        after_websocket_read(WsReadOutcome::Io(IoErrorKind::TimedOut)),
        RelayStep::Proceed
    ));
    assert!(matches!(after_websocket_read(WsReadOutcome::Io(IoErrorKind::Other)), RelayStep::Fail));
    assert!(matches!(after_websocket_read(WsReadOutcome::Failed), RelayStep::Fail));
}

#[test]
fn sitl_reads() {
    let buffer = [9_u8, 8, 7, 6, 5];
    assert!(matches!(after_sitl_read(StreamReadOutcome::Read(0), &buffer), RelayStep::Finish));
    assert!(is_relay_of(&after_sitl_read(StreamReadOutcome::Read(3), &buffer), &[9, 8, 7]));
    assert!(is_relay_of(&after_sitl_read(StreamReadOutcome::Read(5), &buffer), &buffer));
    assert!(matches!(
        after_sitl_read(StreamReadOutcome::Io(IoErrorKind::WouldBlock), &buffer),
        RelayStep::Proceed
    ));
    assert!(matches!(
        after_sitl_read(StreamReadOutcome::Io(IoErrorKind::Other), &buffer),
        RelayStep::Fail
    ));
}

#[test]
fn websocket_flushes() {
    assert!(matches!(after_websocket_flush(WsFlushOutcome::Flushed), RelayStep::Proceed));
    assert!(matches!(after_websocket_flush(WsFlushOutcome::ConnectionClosed), RelayStep::Finish));
    assert!(matches!(
        after_websocket_flush(WsFlushOutcome::Io(IoErrorKind::WouldBlock)),
        RelayStep::Proceed
    ));
    assert!(matches!(after_websocket_flush(WsFlushOutcome::Io(IoErrorKind::Other)), RelayStep::Fail));
    assert!(matches!(after_websocket_flush(WsFlushOutcome::Failed), RelayStep::Fail));
}
