//! Tracing: the options of a trace and the categories it records.
use vstd::prelude::*;

use crate::error::{invalid_state, Error};

verus! {

/// The options of a trace: the categories to record, where to write the
/// trace, and whether to record screenshots.
#[derive(Debug)]
pub struct TracingOptions {
    pub categories: Vec<String>,
    pub path: Option<String>,
    pub screenshots: bool,
}

impl Default for TracingOptions {
    fn default() -> (r: TracingOptions)
        ensures
            r.categories@.len() == 0,
            r.path is None,
            !r.screenshots,
    {
        TracingOptions { categories: Vec::new(), path: None, screenshots: false }
    }
}

/// The category that records screenshots.
pub open spec fn screenshot_category() -> Seq<char> {
    "disabled-by-default-devtools.screenshot"@
}

/// The categories a trace records: those asked for, then the screenshot
/// category when screenshots are asked for; none (the browser's default)
/// when that leaves the list empty.
pub fn trace_categories(categories: Vec<String>, screenshots: bool) -> (r: Option<Vec<String>>)
    ensures
        match r {
            Some(c) => c@.len() > 0 && c@.map_values(|s: String| s@) == if screenshots {
                categories@.map_values(|s: String| s@).push(screenshot_category())
            } else {
                categories@.map_values(|s: String| s@)
            },
            None => categories@.len() == 0 && !screenshots,
        },
{
    let mut c = categories;
    let ghost before = c@;
    if screenshots {
        c.push("disabled-by-default-devtools.screenshot".to_owned());
        proof {
            assert(c@.map_values(|s: String| s@) =~= before.map_values(|s: String| s@).push(
                screenshot_category(),
            ));
        }
    }
    if c.len() == 0 {
        None
    } else {
        Some(c)
    }
}

/// The message of a start while a trace runs.
pub const TRACING_STARTED: &'static str = "tracing already started";

/// The message of a stop with no trace running.
pub const TRACING_NOT_STARTED: &'static str = "tracing not started";

/// Whether a page is being traced, and where its trace goes.
#[derive(Debug)]
pub struct TracingState {
    pub started: bool,
    pub path: Option<String>,
}

impl TracingState {
    /// No trace running.
    pub fn new() -> (r: TracingState)
        ensures
            !r.started,
            r.path is None,
    {
        TracingState { started: false, path: None }
    }

    /// Start a trace that goes to `path`, if given; a trace already running
    /// is an invalid-state error, and nothing changes.
    pub fn start(&mut self, path: Option<String>) -> (r: Result<(), Error>)
        ensures
            old(self).started ==> r is Err && invalid_state(r->Err_0, TRACING_STARTED@) && *final(self)
                == *old(self),
            !old(self).started ==> r is Ok && final(self).started && final(self).path == path,
    {
        if self.started {
            return Err(Error::InvalidState(TRACING_STARTED.to_owned()));
        }
        self.started = true;
        self.path = path;
        Ok(())
    }

    /// Stop the trace: where it goes, if anywhere; with no trace running,
    /// an invalid-state error, and nothing changes.
    pub fn stop(&mut self) -> (r: Result<Option<String>, Error>)
        ensures
            !old(self).started ==> r is Err && invalid_state(r->Err_0, TRACING_NOT_STARTED@) && *final(self)
                == *old(self),
            old(self).started ==> r is Ok && r->Ok_0 == old(self).path && !final(self).started
                && final(self).path is None,
    {
        if !self.started {
            return Err(Error::InvalidState(TRACING_NOT_STARTED.to_owned()));
        }
        self.started = false;
        let mut p: Option<String> = None;
        std::mem::swap(&mut p, &mut self.path);
        Ok(p)
    }
}

} // verus!
