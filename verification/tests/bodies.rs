use std::time::Duration;

use puprs::browser::effective_launch_timeout;
use puprs::error::Error;
use puprs::http::{capture_bytes, response_body_bytes, BodyLatch};

#[test]
fn captures_decode_standard_base64() {
    assert_eq!(capture_bytes("aGk=").unwrap(), b"hi".to_vec());
    assert_eq!(capture_bytes("").unwrap(), Vec::<u8>::new());
    match capture_bytes("not base64!") {
        Err(Error::Other(m)) => assert!(m.starts_with("base64 decode failed: ")),
        other => panic!("unexpected {:?}", other),
    }
}

#[test]
fn response_bodies_are_text_or_base64() {
    assert_eq!(response_body_bytes("héllo".to_string(), false).unwrap(), "héllo".as_bytes().to_vec());
    assert_eq!(response_body_bytes("AAEC".to_string(), true).unwrap(), vec![0u8, 1, 2]);
    assert!(matches!(response_body_bytes("%%%".to_string(), true), Err(Error::Other(_))));
}

#[test]
fn launch_waits_thirty_seconds_by_default() {
    assert_eq!(effective_launch_timeout(None), Duration::from_secs(30));
    assert_eq!(effective_launch_timeout(Some(Duration::from_millis(1500))), Duration::from_millis(1500));
}

#[test]
fn body_latch_tells_its_outcome() {
    let mut l = BodyLatch::new();
    assert!(l.outcome().is_none());
    l.resolve();
    assert!(matches!(l.outcome(), Some(Ok(()))));
    let mut l = BodyLatch::new();
    l.reject("net::ERR_FAILED".to_string());
    l.resolve();
    match l.outcome() {
        Some(Err(Error::NetworkError(m))) => assert_eq!(m, "net::ERR_FAILED"),
        other => panic!("unexpected {:?}", other),
    }
    assert_eq!(puprs::screenshot::ImageFormat::Jpeg.as_protocol(), "jpeg");
}

#[test]
fn tracing_starts_and_stops_once() {
    let mut t = puprs::tracing::TracingState::new();
    assert!(matches!(t.stop(), Err(Error::InvalidState(_))));
    t.start(Some("trace.json".to_string())).unwrap();
    match t.start(None) {
        Err(Error::InvalidState(m)) => assert_eq!(m, "tracing already started"),
        other => panic!("unexpected {:?}", other),
    }
    assert_eq!(t.stop().unwrap(), Some("trace.json".to_string()));
    assert!(!t.started);
}
