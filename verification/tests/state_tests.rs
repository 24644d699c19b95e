//! Tests for the shared state record, the error taxonomy and the host
//! record.

use wsmux::errors::{AppErrors, SessionError};
use wsmux::host::{effective_address, get_current_host, set_current_url, HostCell};
use wsmux::status::{Mode, VolatileStatus};

#[test]
fn default_status_is_clean() {
    let s = VolatileStatus::default();
    assert!(!s.connected);
    assert!(!s.cancel_pending);
    assert_eq!(s.mode, Mode::Console);
    assert_eq!(s.edit_ctx_name, String::new());
    assert!(!s.pause_server_yields);
    assert!(s.context_names.is_empty());
    assert!(s.current_context_name.is_none());
}

#[test]
fn is_connected_reads_the_flag() {
    let mut s = VolatileStatus::new();
    assert!(!s.is_connected());
    s.connected = true;
    assert!(s.is_connected());
}

#[test]
fn disconnect_request_only_lands_while_connected() {
    let mut s = VolatileStatus::new();
    s.request_disconnect();
    assert!(!s.cancel_pending);
    s.connected = true;
    s.request_disconnect();
    assert!(s.cancel_pending);
}

#[test]
fn mode_text_names_the_modes() {
    assert_eq!(Mode::Monitor.text(), "Monitor");
    assert_eq!(Mode::Console.text(), "Console");
}

#[test]
fn session_error_texts_are_distinct() {
    let all = [
        SessionError::ConnectionError,
        SessionError::HandshakeError,
        SessionError::DecodeError,
        SessionError::SendError,
        SessionError::QueueClosed,
    ];
    assert_eq!(SessionError::ConnectionError.text(), "connection failed");
    assert_eq!(SessionError::QueueClosed.text(), "outbound queue closed");
    for (i, a) in all.iter().enumerate() {
        for (j, b) in all.iter().enumerate() {
            if i != j {
                assert_ne!(a.text(), b.text());
            }
        }
    }
}

#[test]
fn app_error_carries_its_message() {
    let e = AppErrors::from("failed to bind to 0.0.0.0:8081".to_string());
    assert_eq!(e.message(), "failed to bind to 0.0.0.0:8081");
}

#[test]
fn app_error_from_borrowed_text() {
    let e = AppErrors::of_text("no msg found");
    assert_eq!(e.message(), "no msg found");
}

#[test]
fn host_record_round_trips() {
    let mut cell = HostCell::new();
    assert_eq!(get_current_host(&cell), "");
    set_current_url(&mut cell, "10.0.0.7:8081".to_string());
    assert_eq!(get_current_host(&cell), "10.0.0.7:8081");
}

#[test]
fn effective_address_prefers_typed_text() {
    assert_eq!(
        effective_address("typed:1".to_string(), "fallback:2".to_string()),
        "typed:1"
    );
    assert_eq!(
        effective_address(String::new(), "fallback:2".to_string()),
        "fallback:2"
    );
}
