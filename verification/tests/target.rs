use puprs::json::{JsonObject, JsonValue};
use puprs::target::{is_target_exposed, parse_target_info, InitStatus, TargetAction, TargetRegistry, TargetType};

fn s(x: &str) -> JsonValue {
    JsonValue::String(x.to_string())
}

fn obj(members: Vec<(&str, JsonValue)>) -> JsonValue {
    JsonValue::Object(JsonObject {
        members: members.into_iter().map(|(k, v)| (k.to_string(), v)).collect(),
        text: String::new(),
    })
}

fn info(id: &str, kind: &str, url: &str) -> JsonValue {
    obj(vec![("targetId", s(id)), ("type", s(kind)), ("url", s(url))])
}

#[test]
fn target_type_names_round_trip() {
    let all = [
        TargetType::Page,
        TargetType::BackgroundPage,
        TargetType::ServiceWorker,
        TargetType::SharedWorker,
        TargetType::Browser,
        TargetType::Webview,
        TargetType::Tab,
        TargetType::IFrame,
        TargetType::Other,
    ];
    for t in all {
        assert_eq!(TargetType::from_cdp(t.as_str()), t);
    }
    assert_eq!(TargetType::from_cdp("worker"), TargetType::Other);
    assert_eq!(TargetType::IFrame.as_str(), "iframe");
}

#[test]
fn target_info_reads_nested_or_flat_metadata() {
    let nested = obj(vec![("targetInfo", info("T1", "page", "https://a/"))]);
    let i = parse_target_info(&nested).unwrap();
    assert_eq!(i.target_id, "T1");
    assert_eq!(i.target_type, TargetType::Page);
    assert_eq!(i.title, "");
    assert!(!i.attached);
    let flat = parse_target_info(&info("T2", "tab", "")).unwrap();
    assert_eq!(flat.target_type, TargetType::Tab);
    assert!(!is_target_exposed(&flat));
    assert!(parse_target_info(&obj(vec![("type", s("page"))])).is_none());
}

#[test]
fn attach_change_detach_and_destroy() {
    let mut reg = TargetRegistry::new();
    let created = reg.handle_event(None, "Target.targetCreated", &obj(vec![("targetInfo", info("T1", "page", ""))]));
    assert!(matches!(created.as_slice(), [TargetAction::Discovered(_)]));
    assert!(!reg.initial_targets_done());

    let attached = reg.handle_event(
        None,
        "Target.attachedToTarget",
        &obj(vec![("sessionId", s("S1")), ("targetInfo", info("T1", "page", ""))]),
    );
    assert!(matches!(attached[0], TargetAction::InitDone));
    assert!(matches!(&attached[1], TargetAction::Available { target_id } if target_id == "T1"));
    assert!(matches!(&attached[3], TargetAction::AutoAttachAndResume { session_id } if session_id == "S1"));
    assert!(reg.initial_targets_done());
    // A page without a URL is not initialised yet.
    assert_eq!(reg.get_attached("T1").unwrap().status, InitStatus::Pending);
    assert!(reg.exposed_targets().is_empty());
    assert_eq!(reg.page_ids(), vec!["T1".to_string()]);

    let changed = reg.handle_event(None, "Target.targetInfoChanged", &obj(vec![("targetInfo", info("T1", "page", "https://a/"))]));
    assert_eq!(reg.get_attached("T1").unwrap().status, InitStatus::Success);
    assert!(matches!(&changed[0], TargetAction::Changed { target_id, previous_url } if target_id == "T1" && previous_url.is_empty()));
    assert_eq!(reg.exposed_targets(), vec!["T1".to_string()]);

    let frame = reg.handle_event(
        Some("S1"),
        "Target.attachedToTarget",
        &obj(vec![("sessionId", s("S2")), ("targetInfo", info("F1", "iframe", "https://b/"))]),
    );
    assert_eq!(frame.len(), 3);
    assert_eq!(reg.get_attached("T1").unwrap().children, vec!["F1".to_string()]);

    let detached = reg.handle_event(Some("S1"), "Target.detachedFromTarget", &obj(vec![("sessionId", s("S2"))]));
    assert!(matches!(&detached[0], TargetAction::Gone { target_id } if target_id == "F1"));
    assert!(reg.get_attached("T1").unwrap().children.is_empty());
    assert!(reg.get_attached("F1").is_none());

    let destroyed = reg.handle_event(None, "Target.targetDestroyed", &obj(vec![("targetId", s("T1"))]));
    assert!(matches!(&destroyed[0], TargetAction::Gone { target_id } if target_id == "T1"));
    assert!(matches!(&destroyed[1], TargetAction::PluginTargetDestroyed { target_id } if target_id == "T1"));
    assert!(reg.get_attached("T1").is_none());
    assert!(reg.discovered_targets().is_empty());
}

#[test]
fn service_workers_are_resumed_and_detached() {
    let mut reg = TargetRegistry::new();
    let actions = reg.handle_event(
        None,
        "Target.attachedToTarget",
        &obj(vec![("sessionId", s("W1")), ("targetInfo", info("SW", "service_worker", "https://a/sw.js"))]),
    );
    assert!(matches!(&actions[1], TargetAction::PluginTargetCreated { url, .. } if url == "https://a/sw.js"));
    assert!(matches!(&actions[2], TargetAction::ResumeAndDetach { session_id } if session_id == "W1"));
    assert_eq!(reg.get_attached("SW").unwrap().status, InitStatus::Success);
}
