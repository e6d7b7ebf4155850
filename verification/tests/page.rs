use puprs::page::{
    auth_action, binding_name, binding_settle_script, expose_function_init_script, full_selector, is_index_name,
    is_likely_js_function, item_script_text, query_not_found, query_script_text, script_error, selector_predicate_text,
    selector_wait_polling, visibility_wanted, AuthAction,
};
use puprs::error::Error;
use puprs::json::{JsonObject, JsonValue};
use puprs::page::{described_elements, parse_index, query_all_items};
use puprs::query::{PollingMode, QueryHandlerRegistry};

#[test]
fn js_function_heuristic() {
    assert!(is_likely_js_function("  function f() {}"));
    assert!(is_likely_js_function("() => 1"));
    assert!(is_likely_js_function("async function() {}"));
    assert!(is_likely_js_function("async  (a) => a"));
    assert!(!is_likely_js_function("async (a)"));
    assert!(!is_likely_js_function("document.title"));
    assert!(!is_likely_js_function("(1 + 2)"));
    assert!(is_likely_js_function("\u{3000}(x) => x\n"));
}

#[test]
fn expose_script_names_function_and_binding() {
    let b = binding_name("add");
    assert_eq!(b, "__puprs_binding_add");
    let js = expose_function_init_script("add", &b);
    assert!(js.starts_with("(function() {\n    if (window['add']) return;"));
    assert!(js.contains("window['__puprs_binding_add'](JSON.stringify({ name: 'add', seq: mySeq, args }));"));
    assert!(js.contains("window['__puprs_binding_cb_add'] = function(seq, result, error) {"));
    assert!(js.ends_with("})()"));
    assert_eq!(binding_settle_script("add", 3, Some("5")), "window['__puprs_binding_cb_add'](3, 5, null)");
    assert_eq!(
        binding_settle_script("add", -1, None),
        "window['__puprs_binding_cb_add'](-1, null, \"callback panicked\")"
    );
}

#[test]
fn query_script_quotes_the_selector_as_json() {
    assert_eq!(
        query_script_text(false, "return 1", "a\"b\\c\n"),
        "() => { const queryOne = function(element, selector) { return 1 }; return queryOne(document, \"a\\\"b\\\\c\\n\"); }"
    );
    assert_eq!(
        query_script_text(true, "x", "\u{1}é"),
        "() => { const queryAll = function(element, selector) { x }; return queryAll(document, \"\\u0001é\"); }"
    );
    assert_eq!(query_not_found("#a").message(), "element not found: query handler returned no element for: #a");
    assert_eq!(script_error(None, "Uncaught".to_string()).message(), "javascript error: Uncaught");
    assert_eq!(
        script_error(Some("TypeError: x".to_string()), "Uncaught".to_string()).message(),
        "javascript error: TypeError: x"
    );
    assert_eq!(item_script_text(12), "function() { return this[12]; }");
}

#[test]
fn index_names_are_what_usize_parses() {
    assert!(is_index_name("0"));
    assert!(is_index_name("+17"));
    assert!(!is_index_name("length"));
    assert!(!is_index_name(""));
    assert!(!is_index_name("+"));
    assert!(!is_index_name("-1"));
    assert!(!is_index_name("1a"));
    assert!(is_index_name("18446744073709551615"));
    assert!(!is_index_name("18446744073709551616"));
}

#[test]
fn selector_waits() {
    assert_eq!(selector_wait_polling(true, false, PollingMode::Mutation), PollingMode::Raf);
    assert_eq!(selector_wait_polling(false, false, PollingMode::Mutation), PollingMode::Mutation);
    assert_eq!(visibility_wanted(true, true), Some(true));
    assert_eq!(visibility_wanted(false, true), Some(false));
    assert_eq!(visibility_wanted(false, false), None);
    let reg = QueryHandlerRegistry::with_builtins();
    assert_eq!(full_selector(&reg.resolve_selector("text=a")), "text=a");
    assert_eq!(full_selector(&reg.resolve_selector("xpath/a")), "xpath=a");
    assert_eq!(full_selector(&reg.resolve_selector("#id")), "#id");
    let p = selector_predicate_text("return 1");
    assert!(p.starts_with("function(util, selector, visible) {"));
    assert!(p.contains("const queryOne = function(element, selector) { return 1 };"));
}

#[test]
fn authentication_answers_its_own_session() {
    let params = JsonValue::Object(JsonObject {
        members: vec![("requestId".to_string(), JsonValue::String("I1".to_string()))],
        text: String::new(),
    });
    assert_eq!(
        auth_action(Some("S"), "S", "Fetch.authRequired", &params),
        Some(AuthAction::ProvideCredentials { request_id: "I1".to_string() })
    );
    assert_eq!(
        auth_action(Some("S"), "S", "Fetch.requestPaused", &params),
        Some(AuthAction::ContinueRequest { request_id: "I1".to_string() })
    );
    assert_eq!(auth_action(Some("T"), "S", "Fetch.authRequired", &params), None);
    assert_eq!(auth_action(Some("S"), "S", "Network.loadingFinished", &params), None);
}

#[test]
fn query_all_items_keep_indexed_objects() {
    let props = vec![
        ("0".to_string(), Some("obj-0".to_string())),
        ("length".to_string(), None),
        ("1".to_string(), None),
        ("+2".to_string(), Some("obj-2".to_string())),
        ("__proto__".to_string(), Some("proto".to_string())),
    ];
    let items = query_all_items(None, Some("arr".to_string()), &props).unwrap();
    assert_eq!(items, vec![(0, "obj-0".to_string()), (2, "obj-2".to_string())]);
    assert!(query_all_items(None, None, &props).unwrap().is_empty());
    match query_all_items(Some("boom".to_string()), Some("arr".to_string()), &props) {
        Err(Error::JavaScript(m)) => assert_eq!(m, "boom"),
        other => panic!("unexpected {:?}", other),
    }
    assert_eq!(described_elements(&items, &vec![false, true]), vec!["obj-2".to_string()]);
    assert_eq!(parse_index("17"), Some(17));
    assert_eq!(parse_index("x"), None);
}

#[test]
fn functions_called_at_once_are_expressions() {
    assert!(!is_likely_js_function("(() => 1 + 1)()"));
    assert!(!is_likely_js_function("  (async () => { return 2; }) ()"));
    assert!(is_likely_js_function("(a) => f(a)"));
    assert!(is_likely_js_function("(x) => (y)"));
    assert!(is_likely_js_function("async (x) => x"));
}

#[test]
fn items_read_by_index_keep_objects_in_order() {
    use_items_by_index();
}

fn use_items_by_index() {
    let ids = vec![Some("o0".to_string()), None, Some("o2".to_string())];
    assert_eq!(
        puprs::page::items_by_index(&ids),
        vec![(0, "o0".to_string()), (2, "o2".to_string())]
    );
    assert!(puprs::page::items_by_index(&Vec::new()).is_empty());
}

#[test]
fn history_steps_back_and_forward() {
    use_history();
}

fn use_history() {
    let ids = vec![10, 11, 12];
    assert_eq!(puprs::page::back_entry(0, &ids), None);
    assert_eq!(puprs::page::back_entry(2, &ids), Some(11));
    assert_eq!(puprs::page::forward_entry(2, &ids), None);
    assert_eq!(puprs::page::forward_entry(0, &ids), Some(11));
    assert_eq!(puprs::page::forward_entry(-1, &ids), None);
}
