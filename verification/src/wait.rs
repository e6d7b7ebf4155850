//! Waiting in the page: how a condition is polled, the script that polls
//! it, and which errors mean that the page's context went away (so that the
//! wait starts again).
use std::time::Duration;
use vstd::prelude::*;

use crate::error::{message_detail, message_prefix, Error};
use crate::text::{contains_text, decimal, decimal_text, has_text};

verus! {

/// How a condition of the caller's is polled: on DOM mutations, on every
/// animation frame, or at an interval.
#[derive(Debug)]
pub enum PollingStrategy {
    Mutation,
    Raf,
    Interval(Duration),
}

impl Default for PollingStrategy {
    fn default() -> (r: PollingStrategy)
        ensures
            r is Raf,
    {
        PollingStrategy::Raf
    }
}

/// What a wait for a selector waits for: the element visible, or hidden,
/// within an optional time.
#[derive(Debug)]
pub struct WaitForSelectorOptions {
    pub visible: bool,
    pub hidden: bool,
    pub timeout: Option<Duration>,
}

impl Default for WaitForSelectorOptions {
    fn default() -> (r: WaitForSelectorOptions)
        ensures
            !r.visible,
            !r.hidden,
            r.timeout is None,
    {
        WaitForSelectorOptions { visible: false, hidden: false, timeout: None }
    }
}

/// How the page polls a condition: on DOM mutations, on every animation
/// frame, or every so many milliseconds.
#[derive(Debug, Clone, Copy, PartialEq, Eq, Structural)]
pub enum WaitTaskPolling {
    Mutation,
    Raf,
    Interval(u64),
}

/// How the page polls a condition, and for how long.
#[derive(Debug)]
pub struct WaitTaskOptions {
    pub polling: WaitTaskPolling,
    pub timeout: Duration,
}

/// The expression that makes the poller.
pub open spec fn poller_of(polling: WaitTaskPolling) -> Seq<char> {
    match polling {
        WaitTaskPolling::Mutation => "new util.MutationPoller(() => predicateFn(util, ...args), document)"@,
        WaitTaskPolling::Raf => "new util.RAFPoller(() => predicateFn(util, ...args))"@,
        WaitTaskPolling::Interval(ms) => "new util.IntervalPoller(() => predicateFn(util, ...args), "@
            + decimal(ms as nat) + ")"@,
    }
}

/// The expression that makes the poller.
pub fn poller_constructor(polling: WaitTaskPolling) -> (r: String)
    ensures
        r@ == poller_of(polling),
{
    match polling {
        WaitTaskPolling::Mutation => "new util.MutationPoller(() => predicateFn(util, ...args), document)".to_owned(),
        WaitTaskPolling::Raf => "new util.RAFPoller(() => predicateFn(util, ...args))".to_owned(),
        WaitTaskPolling::Interval(ms) => "new util.IntervalPoller(() => predicateFn(util, ...args), ".to_owned().concat(
            decimal_text(ms).as_str(),
        ).concat(")"),
    }
}

/// The polling function, up to the utility source.
pub const WAIT_TASK_OPEN: &'static str = "async function(predicateStr, ...args) {\n            if (!globalThis.__puprs_util__) {\n                globalThis.__puprs_util__ = ";

/// The polling function, from the utility source to the poller.
pub const WAIT_TASK_MIDDLE: &'static str = ";\n            }\n            const util = globalThis.__puprs_util__;\n            const predicateFn = util.createFunction(predicateStr);\n            const poller = ";

/// The polling function, after the poller.
pub const WAIT_TASK_CLOSE: &'static str = ";\n            await poller.start();\n            try {\n                return await poller.result();\n            } finally {\n                await poller.stop();\n            }\n        }";

/// The function that installs the page utilities (once), makes the
/// predicate and a poller, and resolves with the poller's result.
pub open spec fn wait_task_script(utility_source: Seq<char>, poller: Seq<char>) -> Seq<char> {
    WAIT_TASK_OPEN@ + utility_source + WAIT_TASK_MIDDLE@ + poller + WAIT_TASK_CLOSE@
}

/// The polling function, with the page utilities' source and the poller.
pub fn wait_task_function(utility_source: &str, poller: &str) -> (r: String)
    ensures
        r@ == wait_task_script(utility_source@, poller@),
{
    WAIT_TASK_OPEN.to_owned().concat(utility_source).concat(WAIT_TASK_MIDDLE).concat(poller).concat(WAIT_TASK_CLOSE)
}

/// An error message that says the page's context went away.
pub open spec fn context_gone(msg: Seq<char>) -> bool {
    has_text(msg, "Execution context was destroyed"@) || has_text(msg, "Cannot find context with specified id"@)
        || has_text(msg, "Inspected target navigated or closed"@)
}

/// Whether an error says that the page's context went away (by its
/// message, when the error carries its own text).
pub fn is_context_destroyed_error(err: &Error) -> (r: bool)
    ensures
        message_detail(err) is Some ==> r == context_gone(message_prefix(err) + message_detail(err)->0),
{
    let msg = err.message();
    contains_text(msg.as_str(), "Execution context was destroyed") || contains_text(msg.as_str(), "Cannot find context with specified id")
        || contains_text(msg.as_str(), "Inspected target navigated or closed")
}

} // verus!
