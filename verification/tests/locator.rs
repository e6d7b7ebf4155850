use std::time::Duration;

use puprs::error::Error;
use puprs::locator::{
    action_steps, checks_enabled, filter_script_text, retry_attempt, step_timeout, wait_steps, LocatorAction,
    LocatorOptions, LocatorStep, Visibility,
};

#[test]
fn click_runs_every_precondition_in_order() {
    let mut o = LocatorOptions::with_timeout(Duration::from_secs(5));
    o.visibility = Visibility::Visible;
    let steps = action_steps(&o, 2, LocatorAction::Click);
    assert_eq!(
        steps,
        vec![
            LocatorStep::FindElement,
            LocatorStep::WaitVisibility(true),
            LocatorStep::Filter(0),
            LocatorStep::Filter(1),
            LocatorStep::ScrollIntoViewport,
            LocatorStep::StableBoundingBox,
            LocatorStep::WaitEnabled,
        ]
    );
}

#[test]
fn hover_does_not_wait_for_enabled() {
    let o = LocatorOptions::with_timeout(Duration::from_secs(5));
    let steps = action_steps(&o, 0, LocatorAction::Hover);
    assert_eq!(
        steps,
        vec![LocatorStep::FindElement, LocatorStep::ScrollIntoViewport, LocatorStep::StableBoundingBox]
    );
    assert!(checks_enabled(LocatorAction::Fill));
    assert!(!checks_enabled(LocatorAction::Scroll));
}

#[test]
fn switched_off_preconditions_are_skipped() {
    let mut o = LocatorOptions::with_timeout(Duration::from_secs(1));
    o.visibility = Visibility::Hidden;
    o.ensure_element_is_in_the_viewport = false;
    o.wait_for_stable_bounding_box = false;
    let steps = action_steps(&o, 0, LocatorAction::Fill);
    assert_eq!(
        steps,
        vec![LocatorStep::FindElement, LocatorStep::WaitVisibility(false), LocatorStep::WaitEnabled]
    );
    assert_eq!(wait_steps(&o, 1), vec![LocatorStep::FindElement, LocatorStep::WaitVisibility(false), LocatorStep::Filter(0)]);
}

#[test]
fn step_timeouts_and_retries() {
    match step_timeout(LocatorStep::StableBoundingBox) {
        Some(Error::Timeout(m)) => assert_eq!(m, "Element bounding box is not stable"),
        other => panic!("unexpected: {:?}", other),
    }
    match step_timeout(LocatorStep::WaitVisibility(false)) {
        Some(Error::Timeout(m)) => assert_eq!(m, "Element is not hidden"),
        other => panic!("unexpected: {:?}", other),
    }
    assert!(step_timeout(LocatorStep::FindElement).is_none());
    assert!(retry_attempt(&Error::ElementNotFound("x".into()), true));
    assert!(!retry_attempt(&Error::ElementNotFound("x".into()), false));
    assert!(!retry_attempt(&Error::Timeout("t".into()), true));
    assert_eq!(filter_script_text("e => e.checked"), "(el) => (e => e.checked)(el)");
}
