use puprs::frame::{FrameEvent, FrameInfo, FrameState, FrameTree};
use puprs::lifecycle::{wait_until_to_protocol, LifecycleWatchOptions, LifecycleWatcher, WatchEvent};
use puprs::types::WaitUntil;

fn info(id: &str, parent: Option<&str>, url: &str) -> FrameInfo {
    FrameInfo { id: id.to_string(), parent_id: parent.map(|p| p.to_string()), url: url.to_string(), name: None }
}

fn ids(s: &FrameState) -> Vec<String> {
    let mut v: Vec<String> = s.frames.iter().map(|f| f.id.clone()).collect();
    v.sort();
    v
}

#[test]
fn navigation_attach_and_detach() {
    let mut s = FrameState::new();
    s.handle_event(FrameEvent::FrameNavigated { frame: info("main", None, "https://a/") });
    assert_eq!(s.main_frame.as_deref(), Some("main"));
    s.handle_event(FrameEvent::FrameAttached { frame_id: "c1".to_string(), parent_frame_id: "main".to_string() });
    s.handle_event(FrameEvent::FrameAttached { frame_id: "c2".to_string(), parent_frame_id: "c1".to_string() });
    assert_eq!(ids(&s), vec!["c1".to_string(), "c2".to_string(), "main".to_string()]);
    // Detaching a frame removes everything below it.
    s.handle_event(FrameEvent::FrameDetached { frame_id: "c1".to_string() });
    assert_eq!(ids(&s), vec!["main".to_string()]);
    let main = s.frames.iter().find(|f| f.id == "main").unwrap();
    assert!(main.child_frames.is_empty());
}

#[test]
fn lifecycle_events_are_recorded_and_cleared() {
    let mut s = FrameState::new();
    s.handle_event(FrameEvent::FrameNavigated { frame: info("main", None, "https://a/") });
    s.handle_event(FrameEvent::LifecycleEvent { frame_id: "main".to_string(), name: "load".to_string() });
    assert!(s.check_lifecycle_recursive(&"main".to_string(), "load"));
    assert!(!s.check_lifecycle_recursive(&"main".to_string(), "networkIdle"));
    s.handle_event(FrameEvent::FrameStartedLoading { frame_id: "main".to_string() });
    assert!(!s.check_lifecycle_recursive(&"main".to_string(), "load"));
    s.handle_event(FrameEvent::FrameStoppedLoading { frame_id: "main".to_string() });
    assert!(s.check_lifecycle_recursive(&"main".to_string(), "DOMContentLoaded"));
}

#[test]
fn execution_contexts_come_and_go() {
    let mut s = FrameState::new();
    s.handle_event(FrameEvent::FrameNavigated { frame: info("main", None, "https://a/") });
    s.handle_event(FrameEvent::ExecutionContextCreated {
        id: 7,
        name: String::new(),
        unique_id: "u7".to_string(),
        frame_id: Some("main".to_string()),
        is_default: true,
    });
    assert_eq!(s.frames[0].execution_context_id, Some(7));
    s.handle_event(FrameEvent::ExecutionContextDestroyed { unique_id: "u7".to_string() });
    assert_eq!(s.frames[0].execution_context_id, None);
    assert!(s.context_to_frame.is_empty());
}

#[test]
fn populate_tree_adds_every_frame() {
    let tree = FrameTree {
        frame: info("main", None, "https://a/"),
        child_frames: Some(vec![FrameTree { frame: info("c", Some("main"), "https://b/"), child_frames: None }]),
    };
    let mut s = FrameState::new();
    s.populate_tree(&tree, None);
    assert_eq!(ids(&s), vec!["c".to_string(), "main".to_string()]);
    let mut s2 = FrameState::new();
    s2.handle_event(FrameEvent::FrameNavigated { frame: info("main", None, "https://a/") });
    s2.handle_event(FrameEvent::FrameAttached { frame_id: "x".to_string(), parent_frame_id: "main".to_string() });
    s2.remove_frame_recursive(&"main".to_string());
    assert!(s2.frames.is_empty());
}

#[test]
fn wait_until_names() {
    assert_eq!(wait_until_to_protocol(&WaitUntil::Load), "load");
    assert_eq!(wait_until_to_protocol(&WaitUntil::DomContentLoaded), "DOMContentLoaded");
    assert_eq!(wait_until_to_protocol(&WaitUntil::NetworkIdle0), "networkIdle");
    assert_eq!(wait_until_to_protocol(&WaitUntil::NetworkIdle2), "networkAlmostIdle");
}

#[test]
fn watcher_completes_after_load_of_a_new_document() {
    let mut s = FrameState::new();
    s.handle_event(FrameEvent::FrameNavigated { frame: info("main", None, "https://a/") });
    let opts = LifecycleWatchOptions {
        wait_until: vec![WaitUntil::Load],
        timeout: std::time::Duration::from_secs(30),
        expect_new_document: None,
    };
    let mut w = LifecycleWatcher::new("main".to_string(), opts);
    w.seed_from_frames(&s);
    assert!(!w.check_complete());
    w.handle_event(WatchEvent::FrameStartedLoading { frame_id: Some("main".to_string()) });
    w.handle_event(WatchEvent::FrameNavigated { frame_id: Some("main".to_string()) });
    w.handle_event(WatchEvent::LifecycleEvent { frame_id: Some("main".to_string()), name: Some("load".to_string()) });
    assert!(w.lifecycle_conditions_met());
    let r = w.navigation_result();
    assert!(r.is_new_document);
}

#[test]
fn frame_links_stay_consistent_through_events() {
    let mut s = FrameState::new();
    s.handle_event(FrameEvent::FrameNavigated { frame: info("main", None, "https://a/") });
    s.handle_event(FrameEvent::FrameAttached { frame_id: "c1".to_string(), parent_frame_id: "main".to_string() });
    s.handle_event(FrameEvent::FrameAttached { frame_id: "c2".to_string(), parent_frame_id: "c1".to_string() });
    s.handle_event(FrameEvent::FrameDetached { frame_id: "c2".to_string() });
    for f in &s.frames {
        for c in &f.child_frames {
            let child = s.frames.iter().find(|x| &x.id == c).expect("listed child is a frame");
            assert_eq!(child.parent_id.as_deref(), Some(f.id.as_str()));
        }
    }
    assert_eq!(ids(&s), vec!["c1".to_string(), "main".to_string()]);
}
