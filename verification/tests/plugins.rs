use puprs::browser::LaunchOptions;
use puprs::plugin::{combine_decision, hook_order, combine_decisions, validate_dependencies, FulfillResponse, InterceptedRequest, RequestDecision};
use puprs::plugins::block_resources::BlockResourcesPlugin;
use puprs::plugins::init_script::InitScriptPlugin;
use puprs::plugins::stealth::{EvasionScripts, StealthEvasion, StealthPlugin};

fn request(kind: Option<&str>) -> InterceptedRequest {
    InterceptedRequest { url: "https://a/".to_string(), method: "GET".to_string(), resource_type: kind.map(|k| k.to_string()) }
}

#[test]
fn fulfill_response_builders() {
    let r = FulfillResponse::new(200)
        .with_header("A".to_string(), "1".to_string())
        .with_header("B".to_string(), "2".to_string())
        .with_body(b"hi".to_vec())
        .with_response_phrase("OK".to_string());
    assert_eq!(r.status_code, 200);
    assert_eq!(r.headers, vec![("A".to_string(), "1".to_string()), ("B".to_string(), "2".to_string())]);
    assert_eq!(r.body, Some(b"hi".to_vec()));
    assert_eq!(r.response_phrase.as_deref(), Some("OK"));
}

#[test]
fn last_decision_that_is_not_continue_wins() {
    let ds = vec![RequestDecision::Abort, RequestDecision::Continue, RequestDecision::Fulfill(FulfillResponse::new(204)), RequestDecision::Continue];
    assert_eq!(combine_decisions(ds), RequestDecision::Fulfill(FulfillResponse::new(204)));
    assert_eq!(combine_decisions(vec![]), RequestDecision::Continue);
    assert_eq!(combine_decision(RequestDecision::Abort, RequestDecision::Continue), RequestDecision::Abort);
}

#[test]
fn missing_dependency_is_named() {
    let registered = vec!["stealth".to_string()];
    assert!(validate_dependencies("p", &vec!["stealth".to_string()], &registered).is_ok());
    let e = validate_dependencies("p", &vec!["stealth".to_string(), "x".to_string(), "y".to_string()], &registered).unwrap_err();
    assert_eq!(e.message(), "plugin 'p' missing dependency 'x'");
}

#[test]
fn block_resources_aborts_blocked_types_only() {
    let p = BlockResourcesPlugin::new().block_type("image".to_string()).block_type("image".to_string());
    assert_eq!(p.request_decision(&request(Some("image"))), RequestDecision::Abort);
    assert_eq!(p.request_decision(&request(Some("script"))), RequestDecision::Continue);
    assert_eq!(p.request_decision(&request(None)), RequestDecision::Continue);
    assert_eq!(p.name(), "block-resources");
    assert_eq!(p.priority(), 10);
}

#[test]
fn init_scripts_keep_their_order() {
    let p = InitScriptPlugin::new().with_script("a()".to_string()).with_script("b()".to_string());
    assert_eq!(p.scripts(), &vec!["a()".to_string(), "b()".to_string()]);
    assert_eq!(p.name(), "init-script");
    assert_eq!(p.priority(), 50);
}

#[test]
fn stealth_evasions_and_launch_flag() {
    let all = StealthEvasion::all();
    assert_eq!(all.len(), 12);
    let files: Vec<String> = all.iter().map(|e| format!("// {}", e.script_file())).collect();
    let scripts = EvasionScripts::new("// utils".to_string(), files.clone()).unwrap();
    assert!(EvasionScripts::new("u".to_string(), vec![]).is_none());
    let p = StealthPlugin::new();
    let page = p.page_scripts(&scripts);
    assert_eq!(page.len(), 13);
    assert_eq!(page[0], "// utils");
    assert_eq!(page[1..].to_vec(), files);
    let p = p.disable_evasion(StealthEvasion::ChromeApp).disable_evasion(StealthEvasion::NavigatorLanguages);
    assert_eq!(p.page_scripts(&scripts).len(), 11);
    assert_eq!(p.page_scripts(&scripts)[2], "// navigator_hardware_concurrency.js");
    let p = p.enable_evasion(StealthEvasion::NavigatorWebdriver).enable_evasion(StealthEvasion::ChromeApp);
    assert_eq!(p.page_scripts(&scripts).len(), 12);
    assert_eq!(p.page_scripts(&scripts)[11], "// chrome_app.js");
    assert_eq!(StealthEvasion::SourceUrl.position(), 11);
    assert_eq!(p.name(), "stealth");

    let mut o = LaunchOptions { executable: None, args: vec![("--x".to_string(), None)], launch_timeout: None };
    p.before_launch(&mut o);
    assert_eq!(o.args[1], ("--disable-blink-features".to_string(), Some("AutomationControlled".to_string())));
    p.before_launch(&mut o);
    assert_eq!(o.args.len(), 2);

    let mut o = LaunchOptions {
        executable: None,
        args: vec![("--disable-blink-features".to_string(), Some("Foo".to_string()))],
        launch_timeout: None,
    };
    p.before_launch(&mut o);
    assert_eq!(o.args[0].1.as_deref(), Some("Foo,AutomationControlled"));

    let off = StealthPlugin::new().set_automation_controlled_flag(false).with_user_agent("UA".to_string());
    let mut o = LaunchOptions { executable: None, args: vec![], launch_timeout: None };
    off.before_launch(&mut o);
    assert!(o.args.is_empty());
    assert_eq!(off.user_agent().map(|s| s.as_str()), Some("UA"));
}

#[test]
fn hooks_run_by_priority_then_registration() {
    assert_eq!(hook_order(&vec![10, 0, 10, -1]), vec![3, 1, 0, 2]);
    assert_eq!(hook_order(&vec![0, 0, 0]), vec![0, 1, 2]);
    assert!(hook_order(&vec![]).is_empty());
}
