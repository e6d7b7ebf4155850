//! Locators: how long and for what they wait, and how a value is filled
//! into an element, by its kind.
use std::time::Duration;
use vstd::prelude::*;

use crate::error::{other_error, Error};
use crate::keyed::str_eq;
use crate::page::json_quoted;

verus! {

/// What a locator waits for of the element's visibility.
#[derive(Debug, Clone, Copy, PartialEq, Eq, Structural)]
pub enum Visibility {
    Any,
    Visible,
    Hidden,
}

impl Default for Visibility {
    fn default() -> (r: Visibility)
        ensures
            r == Visibility::Any,
    {
        Visibility::Any
    }
}

/// What a locator waits for before it acts.
#[derive(Debug)]
pub struct LocatorOptions {
    pub visibility: Visibility,
    pub timeout: Duration,
    pub ensure_element_is_in_the_viewport: bool,
    pub wait_for_enabled: bool,
    pub wait_for_stable_bounding_box: bool,
}

impl LocatorOptions {
    /// Any visibility, every check on, and the given wait.
    pub fn with_timeout(timeout: Duration) -> (r: LocatorOptions)
        ensures
            r.visibility == Visibility::Any,
            r.timeout == timeout,
            r.ensure_element_is_in_the_viewport,
            r.wait_for_enabled,
            r.wait_for_stable_bounding_box,
    {
        LocatorOptions {
            visibility: Visibility::Any,
            timeout,
            ensure_element_is_in_the_viewport: true,
            wait_for_enabled: true,
            wait_for_stable_bounding_box: true,
        }
    }
}

/// How a value is filled in: up to the threshold (in bytes) a text value is
/// typed, above it assigned.
#[derive(Debug, Clone, Copy, PartialEq, Eq, Structural)]
pub struct FillOptions {
    pub typing_threshold: usize,
}

impl Default for FillOptions {
    fn default() -> (r: FillOptions)
        ensures
            r.typing_threshold == 100,
    {
        FillOptions { typing_threshold: 100 }
    }
}

/// The script that tells what kind of element is being filled.
pub const FILL_KIND_SCRIPT: &'static str = "(el) => {\n                if (el instanceof HTMLSelectElement) return 'select';\n                if (el instanceof HTMLTextAreaElement) return 'typeable-input';\n                if (el instanceof HTMLInputElement) {\n                    if (new Set(['textarea','text','url','tel','search','password','number','email']).has(el.type)) return 'typeable-input';\n                    return 'other-input';\n                }\n                if (el.isContentEditable) return 'contenteditable';\n                return 'unknown';\n            }";

/// The script setting a select element's value, up to the value.
pub const SELECT_OPEN: &'static str = "(el) => {\n                            el.value = ";

/// The script setting a select element's value, after the value.
pub const SELECT_CLOSE: &'static str = ";\n                            el.dispatchEvent(new Event('input', {bubbles: true}));\n                            el.dispatchEvent(new Event('change', {bubbles: true}));\n                        }";

/// The script typing only what follows the current value, up to the value.
pub const PREFIX_OPEN: &'static str = "(el) => {\n                                const newValue = ";

/// The script typing only what follows the current value, after the value.
pub const PREFIX_CLOSE: &'static str = ";\n                                const currentValue = el.isContentEditable\n                                    ? el.innerText\n                                    : el.value;\n                                if (newValue.length <= currentValue.length\n                                    || !newValue.startsWith(currentValue)) {\n                                    if (el.isContentEditable) { el.innerText = ''; }\n                                    else { el.value = ''; }\n                                    return newValue;\n                                }\n                                if (el.isContentEditable) {\n                                    el.innerText = '';\n                                    el.innerText = currentValue;\n                                } else {\n                                    el.value = '';\n                                    el.value = currentValue;\n                                }\n                                return newValue.substring(currentValue.length);\n                            }";

/// The script assigning a long value to a text field, up to the value.
pub const ASSIGN_TYPEABLE_OPEN: &'static str = "(el) => {\n                                const newValue = ";

/// The script assigning a long value to a text field, after the value.
pub const ASSIGN_TYPEABLE_CLOSE: &'static str = ";\n                                el.focus();\n                                const currentValue = el.isContentEditable\n                                    ? el.innerText : el.value;\n                                if (currentValue === newValue) return;\n                                if (el.isContentEditable) { el.innerText = newValue; }\n                                else { el.value = newValue; }\n                                el.dispatchEvent(new Event('input', {bubbles: true}));\n                                el.dispatchEvent(new Event('change', {bubbles: true}));\n                            }";

/// The script assigning a value to another input, up to the value.
pub const ASSIGN_OTHER_OPEN: &'static str = "(el) => {\n                            el.focus();\n                            const newValue = ";

/// The script assigning a value to another input, after the value.
pub const ASSIGN_OTHER_CLOSE: &'static str = ";\n                            if (el.value === newValue) return;\n                            el.value = newValue;\n                            el.dispatchEvent(new Event('input', {bubbles: true}));\n                            el.dispatchEvent(new Event('change', {bubbles: true}));\n                        }";

/// How a value goes into an element: by a script that sets it, or by a
/// script that keeps what the field already holds of it and gives back the
/// rest, which is then typed.
#[derive(Debug)]
pub enum FillPlan {
    Assign(String),
    TypeRest(String),
}

/// A fill script with the value, as a JSON string literal, in its place.
pub open spec fn fill_script(open: Seq<char>, value: Seq<char>, close: Seq<char>) -> Seq<char> {
    open + json_quoted(value) + close
}

/// The plan for filling `value` into an element of the kind the kind script
/// reported (`None` when it could not tell): a select gets its value set;
/// a text field or an editable element has a short value typed after what
/// it already holds, a long one assigned; another input gets its value
/// set; any other element cannot be filled.
pub open spec fn fill_plan_of(kind: Option<Seq<char>>, value: Seq<char>, value_bytes: nat, threshold: nat) -> Option<(bool, Seq<char>)> {
    let k = match kind {
        Some(k) => k,
        None => "unknown"@,
    };
    if k == "select"@ {
        Some((false, fill_script(SELECT_OPEN@, value, SELECT_CLOSE@)))
    } else if k == "typeable-input"@ || k == "contenteditable"@ {
        if value_bytes <= threshold {
            Some((true, fill_script(PREFIX_OPEN@, value, PREFIX_CLOSE@)))
        } else {
            Some((false, fill_script(ASSIGN_TYPEABLE_OPEN@, value, ASSIGN_TYPEABLE_CLOSE@)))
        }
    } else if k == "other-input"@ {
        Some((false, fill_script(ASSIGN_OTHER_OPEN@, value, ASSIGN_OTHER_CLOSE@)))
    } else {
        None
    }
}

/// A fill script with the value in its place.
fn fill_script_text(open: &str, value: &str, close: &str) -> (r: String)
    ensures
        r@ == fill_script(open@, value@, close@),
{
    open.to_owned().concat(crate::page::json_quote_text(value).as_str()).concat(close)
}

/// The plan for filling `value` into an element of the reported kind; the
/// error when such an element cannot be filled.
pub fn fill_plan(kind: Option<&str>, value: &str, options: &FillOptions) -> (r: Result<FillPlan, Error>)
    ensures
        match r {
            Ok(FillPlan::Assign(s)) => fill_plan_of(
                match kind {
                    Some(k) => Some(k@),
                    None => None,
                },
                value@,
                (vstd::utf8::encode_utf8(value@).len() as usize) as nat,
                options.typing_threshold as nat,
            ) == Some((false, s@)),
            Ok(FillPlan::TypeRest(s)) => fill_plan_of(
                match kind {
                    Some(k) => Some(k@),
                    None => None,
                },
                value@,
                (vstd::utf8::encode_utf8(value@).len() as usize) as nat,
                options.typing_threshold as nat,
            ) == Some((true, s@)),
            Err(e) => fill_plan_of(
                match kind {
                    Some(k) => Some(k@),
                    None => None,
                },
                value@,
                (vstd::utf8::encode_utf8(value@).len() as usize) as nat,
                options.typing_threshold as nat,
            ) is None && other_error(e, "Element cannot be filled out"@),
        },
{
    let k = match kind {
        Some(k) => k,
        None => "unknown",
    };
    proof {
        reveal_strlit("unknown");
        reveal_strlit("select");
        reveal_strlit("typeable-input");
        reveal_strlit("contenteditable");
        reveal_strlit("other-input");
    }
    if str_eq(k, "select") {
        Ok(FillPlan::Assign(fill_script_text(SELECT_OPEN, value, SELECT_CLOSE)))
    } else if str_eq(k, "typeable-input") || str_eq(k, "contenteditable") {
        if value.len() <= options.typing_threshold {
            Ok(FillPlan::TypeRest(fill_script_text(PREFIX_OPEN, value, PREFIX_CLOSE)))
        } else {
            Ok(FillPlan::Assign(fill_script_text(ASSIGN_TYPEABLE_OPEN, value, ASSIGN_TYPEABLE_CLOSE)))
        }
    } else if str_eq(k, "other-input") {
        Ok(FillPlan::Assign(fill_script_text(ASSIGN_OTHER_OPEN, value, ASSIGN_OTHER_CLOSE)))
    } else {
        proof {
            reveal_strlit("Element cannot be filled out");
        }
        Err(Error::Other("Element cannot be filled out".to_owned()))
    }
}

/// What is typed after the prefix script: the rest it gave back, or the
/// whole value when it gave nothing back.
pub fn text_to_type(rest: Option<String>, value: &str) -> (r: String)
    ensures
        r@ == match rest {
            Some(t) => t@,
            None => value@,
        },
{
    match rest {
        Some(t) => t,
        None => value.to_owned(),
    }
}

/// One step of a locator's work on an element, in the order it is taken.
#[derive(Debug, Clone, Copy, PartialEq, Eq, Structural)]
pub enum LocatorStep {
    /// Find the element (its presence in the document only).
    FindElement,
    /// Wait until the element is visible (`true`) or hidden (`false`).
    WaitVisibility(bool),
    /// Wait until the filter predicate at this index accepts the element.
    Filter(usize),
    /// Scroll the element into the viewport.
    ScrollIntoViewport,
    /// Wait until the element's bounding box stays still.
    StableBoundingBox,
    /// Wait until the element is enabled.
    WaitEnabled,
}

/// What a locator does with the element it found.
#[derive(Debug, Clone, Copy, PartialEq, Eq, Structural)]
pub enum LocatorAction {
    Click,
    Fill,
    Hover,
    Scroll,
}

/// Whether the action waits for the element to be enabled: clicks and
/// fills do, hovering and scrolling do not.
pub open spec fn action_checks_enabled(a: LocatorAction) -> bool {
    a == LocatorAction::Click || a == LocatorAction::Fill
}

/// The steps that yield the element: find it, wait for the visibility the
/// options ask for, then pass each filter in turn.
pub open spec fn find_steps(visibility: Visibility, filters: nat) -> Seq<LocatorStep> {
    let v = match visibility {
        Visibility::Any => Seq::<LocatorStep>::empty(),
        Visibility::Visible => seq![LocatorStep::WaitVisibility(true)],
        Visibility::Hidden => seq![LocatorStep::WaitVisibility(false)],
    };
    seq![LocatorStep::FindElement] + v + Seq::new(filters, |i: int| LocatorStep::Filter(i as usize))
}

/// The preconditions of an action, in order: into the viewport, a stable
/// bounding box, enabled; each only when the options ask for it, and the
/// last only for an action that checks it.
pub open spec fn precondition_steps(
    in_viewport: bool,
    stable_box: bool,
    enabled: bool,
    checks_enabled: bool,
) -> Seq<LocatorStep> {
    (if in_viewport {
        seq![LocatorStep::ScrollIntoViewport]
    } else {
        Seq::empty()
    }) + (if stable_box {
        seq![LocatorStep::StableBoundingBox]
    } else {
        Seq::empty()
    }) + (if enabled && checks_enabled {
        seq![LocatorStep::WaitEnabled]
    } else {
        Seq::empty()
    })
}

/// The steps of one attempt of an action, before the action itself.
pub open spec fn action_steps_of(
    visibility: Visibility,
    filters: nat,
    in_viewport: bool,
    stable_box: bool,
    enabled: bool,
    action: LocatorAction,
) -> Seq<LocatorStep> {
    find_steps(visibility, filters) + precondition_steps(
        in_viewport,
        stable_box,
        enabled,
        action_checks_enabled(action),
    )
}

/// Whether the action waits for the element to be enabled.
pub fn checks_enabled(action: LocatorAction) -> (r: bool)
    ensures
        r == action_checks_enabled(action),
{
    match action {
        LocatorAction::Click | LocatorAction::Fill => true,
        LocatorAction::Hover | LocatorAction::Scroll => false,
    }
}

/// The steps that yield the element of a locator with these options and
/// this many filters.
pub fn wait_steps(options: &LocatorOptions, filters: usize) -> (r: Vec<LocatorStep>)
    ensures
        r@ == find_steps(options.visibility, filters as nat),
{
    let mut r: Vec<LocatorStep> = Vec::new();
    r.push(LocatorStep::FindElement);
    match options.visibility {
        Visibility::Any => {},
        Visibility::Visible => r.push(LocatorStep::WaitVisibility(true)),
        Visibility::Hidden => r.push(LocatorStep::WaitVisibility(false)),
    }
    let ghost head = r@;
    let mut i: usize = 0;
    while i < filters
        invariant
            i <= filters,
            r@ == head + Seq::new(i as nat, |k: int| LocatorStep::Filter(k as usize)),
        decreases filters - i,
    {
        r.push(LocatorStep::Filter(i));
        proof {
            assert(head + Seq::new((i + 1) as nat, |k: int| LocatorStep::Filter(k as usize)) =~= (head
                + Seq::new(i as nat, |k: int| LocatorStep::Filter(k as usize))).push(LocatorStep::Filter(i)));
        }
        i = i + 1;
    }
    proof {
        let v = match options.visibility {
            Visibility::Any => Seq::<LocatorStep>::empty(),
            Visibility::Visible => seq![LocatorStep::WaitVisibility(true)],
            Visibility::Hidden => seq![LocatorStep::WaitVisibility(false)],
        };
        assert(head =~= seq![LocatorStep::FindElement] + v);
    }
    r
}

/// The steps of one attempt of an action: those that yield the element,
/// then the preconditions the options ask for.
pub fn action_steps(options: &LocatorOptions, filters: usize, action: LocatorAction) -> (r: Vec<LocatorStep>)
    ensures
        r@ == action_steps_of(
            options.visibility,
            filters as nat,
            options.ensure_element_is_in_the_viewport,
            options.wait_for_stable_bounding_box,
            options.wait_for_enabled,
            action,
        ),
{
    let mut r = wait_steps(options, filters);
    let ghost found = r@;
    if options.ensure_element_is_in_the_viewport {
        r.push(LocatorStep::ScrollIntoViewport);
    }
    let ghost after_viewport = r@;
    if options.wait_for_stable_bounding_box {
        r.push(LocatorStep::StableBoundingBox);
    }
    let ghost after_box = r@;
    if options.wait_for_enabled && checks_enabled(action) {
        r.push(LocatorStep::WaitEnabled);
    }
    proof {
        let a = if options.ensure_element_is_in_the_viewport {
            seq![LocatorStep::ScrollIntoViewport]
        } else {
            Seq::<LocatorStep>::empty()
        };
        let b = if options.wait_for_stable_bounding_box {
            seq![LocatorStep::StableBoundingBox]
        } else {
            Seq::<LocatorStep>::empty()
        };
        let c = if options.wait_for_enabled && action_checks_enabled(action) {
            seq![LocatorStep::WaitEnabled]
        } else {
            Seq::<LocatorStep>::empty()
        };
        assert(after_viewport =~= found + a);
        assert(after_box =~= found + a + b);
        assert(r@ =~= found + a + b + c);
        assert(found + (a + b + c) =~= found + a + b + c);
    }
    r
}

/// The timeout message of a waiting step that ran out of time; finding the
/// element reports its own error.
pub open spec fn step_timeout_message(step: LocatorStep) -> Option<Seq<char>> {
    match step {
        LocatorStep::FindElement => None,
        LocatorStep::WaitVisibility(true) => Some("Element is not visible"@),
        LocatorStep::WaitVisibility(false) => Some("Element is not hidden"@),
        LocatorStep::Filter(_) => Some("filter predicate timed out for locator"@),
        LocatorStep::ScrollIntoViewport => Some("Element could not be scrolled into the viewport"@),
        LocatorStep::StableBoundingBox => Some("Element bounding box is not stable"@),
        LocatorStep::WaitEnabled => Some("Element is disabled"@),
    }
}

/// The error of a waiting step that ran out of time: a timeout with the
/// step's message.
pub fn step_timeout(step: LocatorStep) -> (r: Option<Error>)
    ensures
        match step_timeout_message(step) {
            Some(m) => r is Some && r->0 is Timeout && crate::error::message_detail(&r->0) == Some(m),
            None => r is None,
        },
{
    let m: &str = match step {
        LocatorStep::FindElement => {
            return None;
        },
        LocatorStep::WaitVisibility(true) => "Element is not visible",
        LocatorStep::WaitVisibility(false) => "Element is not hidden",
        LocatorStep::Filter(_) => "filter predicate timed out for locator",
        LocatorStep::ScrollIntoViewport => "Element could not be scrolled into the viewport",
        LocatorStep::StableBoundingBox => "Element bounding box is not stable",
        LocatorStep::WaitEnabled => "Element is disabled",
    };
    Some(Error::Timeout(m.to_owned()))
}

/// Whether an attempt that failed with `err` is tried again: the error is
/// one that can pass, and the deadline has not come.
pub fn retry_attempt(err: &Error, before_deadline: bool) -> (r: bool)
    ensures
        r == (crate::error::retryable(err) && before_deadline),
{
    crate::error::is_retryable(err) && before_deadline
}

/// The script that applies a filter predicate to the element.
pub open spec fn filter_script(predicate: Seq<char>) -> Seq<char> {
    "(el) => ("@ + predicate + ")(el)"@
}

/// The script that applies a filter predicate to the element.
pub fn filter_script_text(predicate: &str) -> (r: String)
    ensures
        r@ == filter_script(predicate@),
{
    "(el) => (".to_owned().concat(predicate).concat(")(el)")
}

} // verus!
