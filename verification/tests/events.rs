use puprs::dialog::DialogType;
use puprs::events::{convert_cdp_to_page_event, ConsoleMessageType, PageEvent};
use puprs::json::{JsonArray, JsonNumber, JsonObject, JsonValue};

fn s(x: &str) -> JsonValue {
    JsonValue::String(x.to_string())
}

fn n(x: i64) -> JsonValue {
    JsonValue::Number(JsonNumber { text: x.to_string(), int: Some(x), truncated: x })
}

fn obj(members: Vec<(&str, JsonValue)>) -> JsonValue {
    JsonValue::Object(JsonObject {
        members: members.into_iter().map(|(k, v)| (k.to_string(), v)).collect(),
        text: String::new(),
    })
}

fn arr(items: Vec<JsonValue>) -> JsonValue {
    JsonValue::Array(JsonArray { items, text: String::new() })
}

#[test]
fn console_call_joins_values_with_spaces() {
    let params = obj(vec![
        ("type", s("warning")),
        ("args", arr(vec![obj(vec![("value", s("hello"))]), obj(vec![("type", s("object"))]), obj(vec![("value", n(7))])])),
        (
            "stackTrace",
            obj(vec![("callFrames", arr(vec![obj(vec![("url", s("https://a/x.js")), ("lineNumber", n(3)), ("columnNumber", n(9))])]))]),
        ),
    ]);
    match convert_cdp_to_page_event("Runtime.consoleAPICalled", &params) {
        Some(PageEvent::Console(m)) => {
            assert_eq!(m.message_type, ConsoleMessageType::Warning);
            assert_eq!(m.text, "hello 7");
            assert_eq!(m.url.as_deref(), Some("https://a/x.js"));
            assert_eq!(m.line_number, Some(3));
            assert_eq!(m.column_number, Some(9));
        },
        other => panic!("unexpected {:?}", other),
    }
}

#[test]
fn console_call_with_unknown_type_keeps_its_name() {
    let params = obj(vec![("type", s("table")), ("args", arr(vec![]))]);
    match convert_cdp_to_page_event("Runtime.consoleAPICalled", &params) {
        Some(PageEvent::Console(m)) => {
            assert_eq!(m.message_type, ConsoleMessageType::Other("table".to_string()));
            assert_eq!(m.text, "");
            assert_eq!(m.url, None);
        },
        other => panic!("unexpected {:?}", other),
    }
}

#[test]
fn console_call_without_args_gives_nothing() {
    let params = obj(vec![("type", s("log"))]);
    assert!(convert_cdp_to_page_event("Runtime.consoleAPICalled", &params).is_none());
}

#[test]
fn exception_falls_back_to_unknown_error() {
    let p = obj(vec![("exceptionDetails", obj(vec![("exception", obj(vec![("value", s("boom"))]))]))]);
    match convert_cdp_to_page_event("Runtime.exceptionThrown", &p) {
        Some(PageEvent::PageError(e)) => assert_eq!(e, "boom"),
        other => panic!("unexpected {:?}", other),
    }
    match convert_cdp_to_page_event("Runtime.exceptionThrown", &obj(vec![])) {
        Some(PageEvent::PageError(e)) => assert_eq!(e, "unknown error"),
        other => panic!("unexpected {:?}", other),
    }
}

#[test]
fn dialog_of_known_and_unknown_type() {
    let p = obj(vec![("type", s("prompt")), ("message", s("name?"))]);
    match convert_cdp_to_page_event("Page.javascriptDialogOpening", &p) {
        Some(PageEvent::Dialog { dialog_type, message }) => {
            assert_eq!(dialog_type, DialogType::Prompt);
            assert_eq!(message, "name?");
        },
        other => panic!("unexpected {:?}", other),
    }
    let q = obj(vec![("type", s("toast")), ("message", s("x"))]);
    assert!(convert_cdp_to_page_event("Page.javascriptDialogOpening", &q).is_none());
    assert_eq!(DialogType::from_cdp("toast"), DialogType::Alert);
    assert_eq!(DialogType::from_cdp("beforeunload"), DialogType::BeforeUnload);
}

#[test]
fn lifecycle_navigation_and_crash() {
    match convert_cdp_to_page_event("Page.lifecycleEvent", &obj(vec![("name", s("load"))])) {
        Some(PageEvent::Load) => {},
        other => panic!("unexpected {:?}", other),
    }
    match convert_cdp_to_page_event("Page.lifecycleEvent", &obj(vec![("name", s("DOMContentLoaded"))])) {
        Some(PageEvent::DomContentLoaded) => {},
        other => panic!("unexpected {:?}", other),
    }
    assert!(convert_cdp_to_page_event("Page.lifecycleEvent", &obj(vec![("name", s("networkIdle"))])).is_none());
    let nav = obj(vec![("frame", obj(vec![("id", s("F1")), ("url", s("https://example.com/"))]))]);
    match convert_cdp_to_page_event("Page.frameNavigated", &nav) {
        Some(PageEvent::FrameNavigated { frame_id, url }) => {
            assert_eq!(frame_id, "F1");
            assert_eq!(url, "https://example.com/");
        },
        other => panic!("unexpected {:?}", other),
    }
    match convert_cdp_to_page_event("Inspector.targetCrashed", &obj(vec![])) {
        Some(PageEvent::Close) => {},
        other => panic!("unexpected {:?}", other),
    }
    assert!(convert_cdp_to_page_event("Network.dataReceived", &obj(vec![])).is_none());
}

#[test]
fn request_event_lowercases_the_resource_type() {
    let p = obj(vec![
        ("requestId", s("R1")),
        ("type", s("Document")),
        ("frameId", s("F1")),
        (
            "request",
            obj(vec![
                ("url", s("https://example.com/")),
                ("method", s("GET")),
                ("headers", obj(vec![("Accept", s("*/*")), ("X-Num", n(1))])),
            ]),
        ),
    ]);
    match convert_cdp_to_page_event("Network.requestWillBeSent", &p) {
        Some(PageEvent::Request(r)) => {
            assert_eq!(r.request_id, "R1");
            assert_eq!(r.resource_type, "document");
            assert!(r.is_navigation_request);
            assert_eq!(r.headers, vec![("Accept".to_string(), "*/*".to_string())]);
            assert_eq!(r.frame_id.as_deref(), Some("F1"));
            assert!(r.interception_id.is_none());
        },
        other => panic!("unexpected {:?}", other),
    }
}

#[test]
fn response_event_reads_status_and_flags() {
    let p = obj(vec![
        ("requestId", s("R1")),
        ("response", obj(vec![("url", s("https://example.com/")), ("status", n(404)), ("fromDiskCache", JsonValue::Bool(true))])),
    ]);
    match convert_cdp_to_page_event("Network.responseReceived", &p) {
        Some(PageEvent::Response(r)) => {
            assert_eq!(r.status, 404);
            assert!(!r.ok());
            assert!(r.from_disk_cache);
            assert!(!r.from_service_worker);
            assert_eq!(r.status_text, "");
        },
        other => panic!("unexpected {:?}", other),
    }
    let missing = obj(vec![("requestId", s("R1")), ("response", obj(vec![("url", s("u"))]))]);
    assert!(convert_cdp_to_page_event("Network.responseReceived", &missing).is_none());
}

#[test]
fn child_frame_navigation_is_not_a_page_event() {
    let child = obj(vec![(
        "frame",
        obj(vec![("id", s("CHILD")), ("parentId", s("MAIN")), ("url", s("https://ads.example/"))]),
    )]);
    assert!(convert_cdp_to_page_event("Page.frameNavigated", &child).is_none());
}
