use puprs::json::{JsonNumber, JsonObject, JsonValue};
use puprs::network::{BodySignal, NetworkEvent, NetworkManager};

fn s(x: &str) -> JsonValue {
    JsonValue::String(x.to_string())
}

fn n(x: i64) -> JsonValue {
    JsonValue::Number(JsonNumber { text: x.to_string(), int: Some(x), truncated: x })
}

fn obj(members: Vec<(&str, JsonValue)>) -> JsonValue {
    JsonValue::Object(JsonObject {
        members: members.into_iter().map(|(k, v)| (k.to_string(), v)).collect(),
        text: String::new(),
    })
}

fn sent(id: &str) -> JsonValue {
    obj(vec![
        ("requestId", s(id)),
        ("type", s("XHR")),
        ("request", obj(vec![("url", s("https://example.com/api")), ("method", s("POST")), ("postData", s("a=1"))])),
    ])
}

#[test]
fn request_is_in_flight_until_it_finishes() {
    let mut m = NetworkManager::new("S1".to_string());
    let step = m.handle_event(Some("S1"), "Network.requestWillBeSent", &sent("R1"));
    match step.event {
        Some(NetworkEvent::Request(r)) => {
            assert_eq!(r.method, "POST");
            assert_eq!(r.post_data.as_deref(), Some("a=1"));
            assert_eq!(r.resource_type, "xhr");
        },
        other => panic!("unexpected {:?}", other),
    }
    assert!(m.is_inflight("R1"));
    assert!(m.get_request("R1").is_some());
    let done = m.handle_event(Some("S1"), "Network.loadingFinished", &obj(vec![("requestId", s("R1"))]));
    assert!(!m.is_inflight("R1"));
    match done.event {
        Some(NetworkEvent::RequestFinished { request_id }) => assert_eq!(request_id, "R1"),
        other => panic!("unexpected {:?}", other),
    }
    // No response yet: no latch to tell.
    assert!(done.body.is_none());
}

#[test]
fn events_of_other_sessions_are_ignored() {
    let mut m = NetworkManager::new("S1".to_string());
    let step = m.handle_event(Some("S2"), "Network.requestWillBeSent", &sent("R1"));
    assert!(step.event.is_none());
    assert!(!m.is_inflight("R1"));
    let step = m.handle_event(None, "Network.requestWillBeSent", &sent("R1"));
    assert!(step.event.is_none());
}

#[test]
fn response_links_both_ways_and_failure_rejects_the_body() {
    let mut m = NetworkManager::new("S1".to_string());
    m.handle_event(Some("S1"), "Network.requestWillBeSent", &sent("R1"));
    let resp = obj(vec![
        ("requestId", s("R1")),
        ("response", obj(vec![("url", s("https://example.com/api")), ("status", n(201)), ("statusText", s("Created"))])),
    ]);
    let step = m.handle_event(Some("S1"), "Network.responseReceived", &resp);
    match step.event {
        Some(NetworkEvent::Response(r)) => {
            assert_eq!(r.status, 201);
            assert!(r.ok());
            assert_eq!(r.request().map(|q| q.method.clone()), Some("POST".to_string()));
        },
        other => panic!("unexpected {:?}", other),
    }
    let stored = m.get_request("R1").unwrap();
    assert_eq!(stored.response().map(|r| r.status), Some(201));
    let failed = m.handle_event(Some("S1"), "Network.loadingFailed", &obj(vec![("requestId", s("R1"))]));
    match failed.event {
        Some(NetworkEvent::RequestFailed { request_id, error_text }) => {
            assert_eq!(request_id, "R1");
            assert_eq!(error_text, "unknown error");
        },
        other => panic!("unexpected {:?}", other),
    }
    assert_eq!(
        failed.body,
        Some(BodySignal::Reject { request_id: "R1".to_string(), error_text: "unknown error".to_string() })
    );
    assert!(!m.is_inflight("R1"));
}
