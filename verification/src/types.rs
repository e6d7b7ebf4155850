//! Plain data types shared across the crate.
use vstd::prelude::*;

use crate::json::JsonValue;


verus! {

/// Lifecycle condition used by navigation waits.
#[derive(Debug, Clone, Copy, PartialEq, Eq, Structural)]
pub enum WaitUntil {
    Load,
    DomContentLoaded,
    NetworkIdle0,
    NetworkIdle2,
}

/// Credentials for HTTP authentication.
#[derive(Debug)]
pub struct Credentials {
    pub username: String,
    pub password: String,
}

/// Referrer policy of a navigation request.
#[derive(Debug, Clone, Copy, PartialEq, Eq, Structural)]
pub enum ReferrerPolicy {
    NoReferrer,
    NoReferrerWhenDowngrade,
    Origin,
    OriginWhenCrossOrigin,
    SameOrigin,
    StrictOrigin,
    StrictOriginWhenCrossOrigin,
    UnsafeUrl,
}

/// Options for navigation.
#[derive(Debug)]
pub struct NavigateOptions {
    pub url: String,
    pub referrer: Option<String>,
    pub referrer_policy: Option<ReferrerPolicy>,
    pub timeout: Option<std::time::Duration>,
    pub wait_until: Vec<WaitUntil>,
}

impl NavigateOptions {
    /// Options for navigating to `url`, waiting for `load`.
    pub fn new(url: String) -> (r: NavigateOptions)
        ensures
            r.url@ == url@,
            r.referrer is None,
            r.referrer_policy is None,
            r.timeout is None,
            r.wait_until@ == seq![WaitUntil::Load],
    {
        let mut wait_until: Vec<WaitUntil> = Vec::new();
        wait_until.push(WaitUntil::Load);
        NavigateOptions { url, referrer: None, referrer_policy: None, timeout: None, wait_until }
    }
}

/// Options for waiting on the next navigation.
#[derive(Debug)]
pub struct WaitForNavigationOptions {
    pub timeout: Option<std::time::Duration>,
    pub wait_until: Vec<WaitUntil>,
}

impl WaitForNavigationOptions {
    /// No timeout of its own, waiting for `load`.
    pub fn default_options() -> (r: WaitForNavigationOptions)
        ensures
            r.timeout is None,
            r.wait_until@ == seq![WaitUntil::Load],
    {
        let mut wait_until: Vec<WaitUntil> = Vec::new();
        wait_until.push(WaitUntil::Load);
        WaitForNavigationOptions { timeout: None, wait_until }
    }
}

/// Response metadata for the main-document navigation request.
#[derive(Debug)]
pub struct NavigationResponse {
    pub request_id: String,
    pub url: String,
    pub status: Option<u16>,
    pub from_disk_cache: bool,
    pub from_service_worker: bool,
}

/// What a [`NavigationResponse`] stands for.
pub struct NavigationResponseView {
    pub request_id: Seq<char>,
    pub url: Seq<char>,
    pub status: Option<u16>,
    pub from_disk_cache: bool,
    pub from_service_worker: bool,
}

impl View for NavigationResponse {
    type V = NavigationResponseView;

    open spec fn view(&self) -> NavigationResponseView {
        NavigationResponseView {
            request_id: self.request_id@,
            url: self.url@,
            status: self.status,
            from_disk_cache: self.from_disk_cache,
            from_service_worker: self.from_service_worker,
        }
    }
}

impl NavigationResponse {
    pub fn clone_response(&self) -> (r: NavigationResponse)
        ensures
            r@ == self@,
    {
        NavigationResponse {
            request_id: self.request_id.clone(),
            url: self.url.clone(),
            status: self.status,
            from_disk_cache: self.from_disk_cache,
            from_service_worker: self.from_service_worker,
        }
    }
}

/// The view of an optional navigation response.
pub open spec fn opt_response(o: Option<NavigationResponse>) -> Option<NavigationResponseView> {
    match o {
        Some(r) => Some(r@),
        None => None,
    }
}

/// Result metadata produced by a completed navigation wait.
#[derive(Debug)]
pub struct NavigationResult {
    pub is_same_document: bool,
    pub is_new_document: bool,
    pub response: Option<NavigationResponse>,
}

/// Idle state override.
#[derive(Debug, Clone, Copy)]
pub struct IdleOverride {
    pub is_user_active: bool,
    pub is_screen_unlocked: bool,
}

/// Vision deficiency types for emulation.
#[derive(Debug, Clone, Copy, PartialEq, Eq, Structural)]
pub enum VisionDeficiency {
    /// No deficiency emulated.
    NoDeficiency,
    Achromatopsia,
    BlurredVision,
    Deuteranopia,
    Protanopia,
    ReducedContrast,
}

/// What an evaluation in the page gave back: its JSON value, if it has one.
#[derive(Debug)]
pub struct EvaluationResult {
    value: Option<JsonValue>,
}

impl EvaluationResult {
    /// The value of the evaluation, when it gave one back.
    pub closed spec fn spec_value(&self) -> Option<JsonValue> {
        self.value
    }

    /// A result holding this value.
    pub fn from_value(value: JsonValue) -> (r: EvaluationResult)
        ensures
            r.spec_value() == Some(value),
    {
        EvaluationResult { value: Some(value) }
    }

    /// The result of an evaluation whose remote object holds `value`.
    pub fn from_remote_object(value: Option<JsonValue>) -> (r: EvaluationResult)
        ensures
            r.spec_value() == value,
    {
        EvaluationResult { value }
    }

    /// The value, if the evaluation gave one back.
    pub fn value(&self) -> (r: Option<&JsonValue>)
        ensures
            match r {
                Some(v) => self.spec_value() == Some(*v),
                None => self.spec_value() is None,
            },
    {
        match &self.value {
            Some(v) => Some(v),
            None => None,
        }
    }
}

} // verus!
