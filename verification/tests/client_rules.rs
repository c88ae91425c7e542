use dyt::capture::{dropped_warning, ring_buffer_len};
use dyt::transport::{is_success, read_reply, transcribe_url, TransportError};

#[test]
fn url_appends_endpoint() {
    assert_eq!(transcribe_url("http://127.0.0.1:3030"), "http://127.0.0.1:3030/transcribe");
    assert_eq!(transcribe_url(""), "/transcribe");
}

#[test]
fn success_range() {
    assert!(is_success(200));
    assert!(is_success(299));
    assert!(!is_success(199));
    assert!(!is_success(300));
    assert!(!is_success(400));
    assert!(!is_success(500));
}

#[test]
fn success_returns_body() {
    assert_eq!(read_reply(200, Some("hello".to_string())), Ok("hello".to_string()));
    assert_eq!(read_reply(204, Some(String::new())), Ok(String::new()));
    assert_eq!(read_reply(200, None), Err(TransportError::UnreadableBody));
}

#[test]
fn failure_carries_status_and_body() {
    assert_eq!(
        read_reply(400, Some("bad".to_string())),
        Err(TransportError::Status { status: 400, body: "bad".to_string() })
    );
    assert_eq!(
        read_reply(500, None),
        Err(TransportError::Status { status: 500, body: String::new() })
    );
}

#[test]
fn ring_buffer_holds_sixty_seconds() {
    assert_eq!(ring_buffer_len(48000, 2), 5_760_000);
    assert_eq!(ring_buffer_len(16000, 1), 960_000);
    assert_eq!(ring_buffer_len(0, 2), 0);
}

#[test]
fn dropped_samples_are_reported() {
    assert_eq!(dropped_warning(0), None);
    assert_eq!(
        dropped_warning(5).unwrap(),
        "Warning: 5 audio samples were dropped due to ring buffer overrun"
    );
    assert_eq!(
        dropped_warning(1234567).unwrap(),
        "Warning: 1234567 audio samples were dropped due to ring buffer overrun"
    );
}
