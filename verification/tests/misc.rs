use puprs::cookie::DeleteCookieParams;
use puprs::coverage::{js_coverage_entry, CoverageRange, ScriptCoverage};
use puprs::dialog::{Dialog, DialogType};
use puprs::error::{is_retryable, Error};
use puprs::file_chooser::FileChooserState;
use puprs::http::{ContinueRequestOverrides, HTTPRequest, ResponseOverride};
use puprs::json::{JsonObject, JsonValue};
use puprs::locator::{fill_plan, text_to_type, FillOptions, FillPlan, Visibility};
use puprs::screenshot::ImageFormat;
use puprs::text::{decimal_text, signed_decimal_text, trim};
use puprs::tracing::trace_categories;
use puprs::types::{EvaluationResult, NavigateOptions};
use puprs::wait::{is_context_destroyed_error, poller_constructor, wait_task_function, WaitTaskPolling};
use puprs::worker::{page_worker_type, WorkerType};

fn paused(id: &str) -> HTTPRequest {
    let s = |x: &str| JsonValue::String(x.to_string());
    let obj = |m: Vec<(&str, JsonValue)>| {
        JsonValue::Object(JsonObject { members: m.into_iter().map(|(k, v)| (k.to_string(), v)).collect(), text: String::new() })
    };
    let p = obj(vec![
        ("requestId", s(id)),
        ("resourceType", s("Image")),
        ("request", obj(vec![("url", s("https://a/i.png")), ("method", s("GET"))])),
    ]);
    HTTPRequest::from_fetch_paused(&p).unwrap()
}

#[test]
fn decimal_and_trim() {
    assert_eq!(decimal_text(0), "0");
    assert_eq!(decimal_text(18446744073709551615), "18446744073709551615");
    assert_eq!(signed_decimal_text(-42), "-42");
    assert_eq!(signed_decimal_text(i64::MIN), "-9223372036854775808");
    assert_eq!(trim(" \t a b \u{a0}\n"), "a b");
    assert_eq!(trim("   "), "");
}

#[test]
fn intercepted_request_commands() {
    let r = paused("I1");
    assert_eq!(r.interception_id.as_deref(), Some("I1"));
    assert_eq!(r.resource_type, "image");
    assert!(!r.is_navigation_request);
    let c = r.continue_command(true, Some(ContinueRequestOverrides {
        url: None,
        method: Some("POST".to_string()),
        headers: None,
        post_data: Some("a=1".to_string()),
    }))
    .unwrap();
    assert_eq!(c.interception_id, "I1");
    assert_eq!(c.method.as_deref(), Some("POST"));
    assert_eq!(c.post_data.as_deref(), Some("YT0x"));
    let plain = r.continue_command(true, None).unwrap();
    assert!(plain.post_data.is_none());
    let f = r
        .fulfill_command(true, ResponseOverride { status: 200, headers: vec![], body: Some(b"hello".to_vec()) })
        .unwrap();
    assert_eq!(f.body.as_deref(), Some("aGVsbG8="));
    assert!(f.headers.is_none());
    assert_eq!(r.abort_command(true).unwrap(), "I1");
    assert_eq!(r.abort_command(false).unwrap_err().message(), "invalid state: request has no target");
    let mut not_paused = paused("I2");
    not_paused.interception_id = None;
    assert_eq!(not_paused.abort_command(true).unwrap_err().message(), "invalid state: request is not intercepted");
    assert!(ContinueRequestOverrides::none().url.is_none());
}

#[test]
fn coverage_ranges_are_flattened_in_order() {
    let r = |a: i64, b: i64, c: i64| CoverageRange { start_offset: a, end_offset: b, count: c };
    let e = js_coverage_entry(ScriptCoverage {
        url: "https://a/x.js".to_string(),
        functions: vec![vec![r(0, 10, 1)], vec![], vec![r(2, 3, 0), r(4, 5, 2)]],
    });
    assert_eq!(e.url, "https://a/x.js");
    assert_eq!(e.ranges, vec![r(0, 10, 1), r(2, 3, 0), r(4, 5, 2)]);
}

#[test]
fn trace_categories_and_workers() {
    assert_eq!(trace_categories(vec![], false), None);
    assert_eq!(
        trace_categories(vec!["a".to_string()], true),
        Some(vec!["a".to_string(), "disabled-by-default-devtools.screenshot".to_string()])
    );
    assert_eq!(page_worker_type("service_worker", Some("P"), "P"), Some(WorkerType::ServiceWorker));
    assert_eq!(page_worker_type("worker", Some("P"), "P"), Some(WorkerType::WebWorker));
    assert_eq!(page_worker_type("worker", Some("Q"), "P"), None);
    assert_eq!(page_worker_type("page", Some("P"), "P"), None);
}

#[test]
fn dialogs_and_file_choosers_are_answered_once() {
    let mut d = Dialog::new(DialogType::Prompt, "name?".to_string(), Some("x".to_string()));
    assert_eq!(d.message(), "name?");
    let a = d.accept(Some("bob".to_string())).unwrap();
    assert!(a.accept);
    assert_eq!(a.prompt_text.as_deref(), Some("bob"));
    match d.dismiss() {
        Err(Error::InvalidState(m)) => assert_eq!(m, "dialog already handled"),
        other => panic!("unexpected {:?}", other),
    }
    assert!(matches!(d.accept(None), Err(Error::InvalidState(_))));
    let mut f = FileChooserState::new(true);
    assert!(f.is_multiple());
    assert!(f.take_answer().is_ok());
    assert_eq!(f.take_answer().unwrap_err().message(), "FileChooser already handled");
}

#[test]
fn fill_plans_by_kind() {
    let opts = FillOptions::default();
    match fill_plan(Some("typeable-input"), "hi", &opts).unwrap() {
        FillPlan::TypeRest(s) => assert!(s.contains("const newValue = \"hi\";")),
        other => panic!("unexpected {:?}", other),
    }
    let at_threshold = "x".repeat(100);
    assert!(matches!(fill_plan(Some("contenteditable"), &at_threshold, &opts).unwrap(), FillPlan::TypeRest(_)));
    let long = "x".repeat(101);
    assert!(matches!(fill_plan(Some("contenteditable"), &long, &opts).unwrap(), FillPlan::Assign(_)));
    match fill_plan(Some("select"), "v", &opts).unwrap() {
        FillPlan::Assign(s) => assert!(s.contains("el.value = \"v\";")),
        other => panic!("unexpected {:?}", other),
    }
    assert_eq!(fill_plan(None, "v", &opts).unwrap_err().message(), "Element cannot be filled out");
    assert_eq!(text_to_type(None, "abc"), "abc");
    assert_eq!(text_to_type(Some("c".to_string()), "abc"), "c");
    assert_eq!(Visibility::default(), Visibility::Any);
}

#[test]
fn wait_scripts_and_context_errors() {
    assert_eq!(
        poller_constructor(WaitTaskPolling::Interval(250)),
        "new util.IntervalPoller(() => predicateFn(util, ...args), 250)"
    );
    let js = wait_task_function("UTIL", &poller_constructor(WaitTaskPolling::Raf));
    assert!(js.contains("globalThis.__puprs_util__ = UTIL;"));
    assert!(js.contains("const poller = new util.RAFPoller(() => predicateFn(util, ...args));"));
    assert!(is_context_destroyed_error(&Error::JavaScript("Execution context was destroyed.".to_string())));
    assert!(!is_context_destroyed_error(&Error::Timeout("wait task timed out".to_string())));
    assert!(!is_retryable(&Error::Timeout("t".to_string())));
    assert!(is_retryable(&Error::ElementNotFound("e".to_string())));
}

#[test]
fn small_types() {
    let d = DeleteCookieParams::new("sid".to_string());
    assert_eq!(d.name, "sid");
    assert!(d.url.is_none() && d.domain.is_none() && d.path.is_none());
    assert_eq!(ImageFormat::default(), ImageFormat::Png);
    let n = NavigateOptions::new("https://a/".to_string());
    assert_eq!(n.url, "https://a/");
    let e = EvaluationResult::from_value(JsonValue::Bool(true));
    assert!(matches!(e.value(), Some(JsonValue::Bool(true))));
    assert!(EvaluationResult::from_remote_object(None).value().is_none());
}

#[test]
fn io_and_json_errors_carry_their_text() {
    let io = Error::Io(std::io::Error::new(std::io::ErrorKind::Other, "disk full"));
    assert_eq!(io.message(), "io error: disk full");
    let bad: Result<serde_json::Value, serde_json::Error> = serde_json::from_str("{");
    let text = bad.as_ref().unwrap_err().to_string();
    let e = Error::Serde(bad.unwrap_err());
    assert_eq!(e.message(), format!("serde error: {}", text));
    assert!(text.starts_with("EOF"));
}
