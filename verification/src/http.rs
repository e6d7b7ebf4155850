//! HTTP requests and responses as the network events report them, and the
//! commands that continue, fulfil or fail an intercepted request.
use base64::Engine;
use vstd::prelude::*;

use crate::error::{invalid_state, Error};
use crate::frame::{clone_opt_string, opt_str};
use crate::json::{
    as_bool, as_str, as_u16, bool_of, field, field_of, get, get_opt, opt_val, str_of, string_of,
    u16_of, JsonValue,
};
use crate::text::{eq_ascii_ci, is_prefix, eq_ignore_ascii_case, to_lowercase, unicode_lowercase};

verus! {

/// An HTTP request made by the page.
#[derive(Debug)]
pub struct HTTPRequest {
    pub request_id: String,
    pub url: String,
    pub method: String,
    /// Request headers, in the order the browser lists them.
    pub headers: Vec<(String, String)>,
    pub post_data: Option<String>,
    /// Resource type (document, stylesheet, image, ...), lower case.
    pub resource_type: String,
    pub frame_id: Option<String>,
    pub is_navigation_request: bool,
    /// The response, once one was received.
    pub response: Option<Box<HTTPResponse>>,
    /// The interception id, for a request that interception paused.
    pub interception_id: Option<String>,
}

/// An HTTP response received by the page.
#[derive(Debug)]
pub struct HTTPResponse {
    pub request_id: String,
    pub url: String,
    pub status: u16,
    pub status_text: String,
    pub headers: Vec<(String, String)>,
    pub from_disk_cache: bool,
    pub from_service_worker: bool,
    pub mime_type: Option<String>,
    pub remote_ip_address: Option<String>,
    pub remote_port: Option<u16>,
    /// The request this response answers, when it was known.
    pub request: Option<Box<HTTPRequest>>,
}

/// What an [`HTTPRequest`] stands for.
pub struct RequestView {
    pub request_id: Seq<char>,
    pub url: Seq<char>,
    pub method: Seq<char>,
    pub headers: Seq<(Seq<char>, Seq<char>)>,
    pub post_data: Option<Seq<char>>,
    pub resource_type: Seq<char>,
    pub frame_id: Option<Seq<char>>,
    pub is_navigation_request: bool,
    pub response: Option<Box<ResponseView>>,
    pub interception_id: Option<Seq<char>>,
}

/// What an [`HTTPResponse`] stands for.
pub struct ResponseView {
    pub request_id: Seq<char>,
    pub url: Seq<char>,
    pub status: u16,
    pub status_text: Seq<char>,
    pub headers: Seq<(Seq<char>, Seq<char>)>,
    pub from_disk_cache: bool,
    pub from_service_worker: bool,
    pub mime_type: Option<Seq<char>>,
    pub remote_ip_address: Option<Seq<char>>,
    pub remote_port: Option<u16>,
    pub request: Option<Box<RequestView>>,
}

/// A list of string pairs by their characters.
pub open spec fn pairs_view(v: Seq<(String, String)>) -> Seq<(Seq<char>, Seq<char>)> {
    v.map_values(|p: (String, String)| (p.0@, p.1@))
}

/// The view of a request.
pub open spec fn request_view(r: HTTPRequest) -> RequestView
    decreases r,
{
    RequestView {
        request_id: r.request_id@,
        url: r.url@,
        method: r.method@,
        headers: pairs_view(r.headers@),
        post_data: opt_str(r.post_data),
        resource_type: r.resource_type@,
        frame_id: opt_str(r.frame_id),
        is_navigation_request: r.is_navigation_request,
        response: match r.response {
            Some(b) => Some(Box::new(response_view(*b))),
            None => None,
        },
        interception_id: opt_str(r.interception_id),
    }
}

/// The view of a response.
pub open spec fn response_view(r: HTTPResponse) -> ResponseView
    decreases r,
{
    ResponseView {
        request_id: r.request_id@,
        url: r.url@,
        status: r.status,
        status_text: r.status_text@,
        headers: pairs_view(r.headers@),
        from_disk_cache: r.from_disk_cache,
        from_service_worker: r.from_service_worker,
        mime_type: opt_str(r.mime_type),
        remote_ip_address: opt_str(r.remote_ip_address),
        remote_port: r.remote_port,
        request: match r.request {
            Some(b) => Some(Box::new(request_view(*b))),
            None => None,
        },
    }
}

/// A copy of a list of string pairs.
pub fn clone_pairs(v: &Vec<(String, String)>) -> (r: Vec<(String, String)>)
    ensures
        pairs_view(r@) == pairs_view(v@),
{
    let mut r: Vec<(String, String)> = Vec::new();
    let mut i: usize = 0;
    while i < v.len()
        invariant
            i <= v.len(),
            pairs_view(r@) == pairs_view(v@.take(i as int)),
        decreases v.len() - i,
    {
        let ghost before = r@;
        let a = v[i].0.clone();
        let b = v[i].1.clone();
        r.push((a, b));
        proof {
            assert(v@.take(i + 1) =~= v@.take(i as int).push(v@[i as int]));
            assert(pairs_view(r@) =~= pairs_view(before).push((a@, b@)));
            assert(pairs_view(v@.take(i + 1)) =~= pairs_view(v@.take(i as int)).push(
                (v@[i as int].0@, v@[i as int].1@),
            ));
        }
        i = i + 1;
    }
    proof {
        assert(v@.take(i as int) =~= v@);
    }
    r
}

impl HTTPRequest {
    /// A copy of the request, with the response it holds.
    pub fn clone_request(&self) -> (r: HTTPRequest)
        ensures
            request_view(r) == request_view(*self),
        decreases *self,
    {
        HTTPRequest {
            request_id: self.request_id.clone(),
            url: self.url.clone(),
            method: self.method.clone(),
            headers: clone_pairs(&self.headers),
            post_data: clone_opt_string(&self.post_data),
            resource_type: self.resource_type.clone(),
            frame_id: clone_opt_string(&self.frame_id),
            is_navigation_request: self.is_navigation_request,
            response: match &self.response {
                Some(b) => Some(Box::new((&**b).clone_response())),
                None => None,
            },
            interception_id: clone_opt_string(&self.interception_id),
        }
    }

    /// The response, once one was received.
    pub fn response(&self) -> (r: Option<&HTTPResponse>)
        ensures
            match r {
                Some(x) => self.response == Some(Box::new(*x)),
                None => self.response is None,
            },
    {
        match &self.response {
            Some(b) => Some(&**b),
            None => None,
        }
    }
}

impl HTTPResponse {
    /// A copy of the response, with the request it holds.
    pub fn clone_response(&self) -> (r: HTTPResponse)
        ensures
            response_view(r) == response_view(*self),
        decreases *self,
    {
        HTTPResponse {
            request_id: self.request_id.clone(),
            url: self.url.clone(),
            status: self.status,
            status_text: self.status_text.clone(),
            headers: clone_pairs(&self.headers),
            from_disk_cache: self.from_disk_cache,
            from_service_worker: self.from_service_worker,
            mime_type: clone_opt_string(&self.mime_type),
            remote_ip_address: clone_opt_string(&self.remote_ip_address),
            remote_port: self.remote_port,
            request: match &self.request {
                Some(b) => Some(Box::new((&**b).clone_request())),
                None => None,
            },
        }
    }

    /// The request this response answers, when it was known.
    pub fn request(&self) -> (r: Option<&HTTPRequest>)
        ensures
            match r {
                Some(x) => self.request == Some(Box::new(*x)),
                None => self.request is None,
            },
    {
        match &self.request {
            Some(b) => Some(&**b),
            None => None,
        }
    }

    /// Whether the status is a success (200 to 299).
    pub fn ok(&self) -> (r: bool)
        ensures
            r == (200 <= self.status && self.status < 300),
    {
        200 <= self.status && self.status < 300
    }
}

/// The string-valued members of an object, in order, as header pairs.
pub open spec fn string_members(ms: Seq<(String, JsonValue)>) -> Seq<(Seq<char>, Seq<char>)>
    decreases ms.len(),
{
    if ms.len() == 0 {
        Seq::empty()
    } else {
        let rest = string_members(ms.drop_first());
        match ms[0].1 {
            JsonValue::String(s) => seq![(ms[0].0@, s@)] + rest,
            _ => rest,
        }
    }
}

/// The headers an event lists: the string-valued members of the headers
/// object; none when it is missing or not an object.
pub open spec fn headers_of(v: Option<JsonValue>) -> Seq<(Seq<char>, Seq<char>)> {
    match v {
        Some(JsonValue::Object(o)) => string_members(o.members@),
        _ => Seq::empty(),
    }
}

/// The headers an event lists.
pub fn extract_headers(v: Option<&JsonValue>) -> (r: Vec<(String, String)>)
    ensures
        pairs_view(r@) == headers_of(opt_val(v)),
{
    let mut out: Vec<(String, String)> = Vec::new();
    match v {
        Some(JsonValue::Object(o)) => {
            let ms = &o.members;
            let mut i: usize = 0;
            proof {
                assert(ms@.skip(0) =~= ms@);
                assert(pairs_view(out@) + string_members(ms@) =~= string_members(ms@));
            }
            while i < ms.len()
                invariant
                    i <= ms.len(),
                    headers_of(opt_val(v)) == string_members(ms@),
                    pairs_view(out@) + string_members(ms@.skip(i as int)) == string_members(ms@),
                decreases ms.len() - i,
            {
                let ghost rest = ms@.skip(i as int);
                proof {
                    assert(rest.drop_first() =~= ms@.skip(i + 1));
                    assert(rest[0] == ms@[i as int]);
                }
                match &ms[i].1 {
                    JsonValue::String(s) => {
                        let ghost before = out@;
                        out.push((ms[i].0.clone(), s.clone()));
                        proof {
                            assert(pairs_view(out@) =~= pairs_view(before) + seq![(ms@[i as int].0@, s@)]);
                            assert(pairs_view(out@) + string_members(ms@.skip(i + 1)) =~= pairs_view(
                                before,
                            ) + string_members(rest));
                        }
                    },
                    _ => {},
                }
                i = i + 1;
            }
            proof {
                assert(ms@.skip(i as int) =~= Seq::<(String, JsonValue)>::empty());
                assert(pairs_view(out@) + Seq::<(Seq<char>, Seq<char>)>::empty() =~= pairs_view(
                    out@,
                ));
            }
            out
        },
        _ => {
            proof {
                assert(pairs_view(out@) =~= Seq::<(Seq<char>, Seq<char>)>::empty());
            }
            out
        },
    }
}

/// A string value, or `default` when it is missing or not a string.
pub open spec fn str_or(v: Option<JsonValue>, default: Seq<char>) -> Seq<char> {
    match str_of(v) {
        Some(s) => s,
        None => default,
    }
}

/// A request as an event's parameters describe it, with the resource type
/// read from the member `type_key`; none when the request id, the request
/// object, its url or its method is missing.
pub open spec fn request_of(params: JsonValue, type_key: Seq<char>, intercepted: bool) -> Option<RequestView> {
    let request = field(params, "request"@);
    let id = str_of(field(params, "requestId"@));
    let url = str_of(field_of(request, "url"@));
    let method = str_of(field_of(request, "method"@));
    let kind = str_of(field(params, type_key));
    if request is Some && id is Some && url is Some && method is Some {
        Some(
            RequestView {
                request_id: id->0,
                url: url->0,
                method: method->0,
                headers: headers_of(field_of(request, "headers"@)),
                post_data: str_of(field_of(request, "postData"@)),
                resource_type: unicode_lowercase(str_or(field(params, type_key), "other"@)),
                frame_id: str_of(field(params, "frameId"@)),
                is_navigation_request: match kind {
                    Some(t) => eq_ascii_ci(t, "document"@),
                    None => false,
                },
                response: None,
                interception_id: if intercepted {
                    id
                } else {
                    None
                },
            },
        )
    } else {
        None
    }
}

/// Build a request from an event's parameters.
fn request_from(params: &JsonValue, type_key: &str, intercepted: bool) -> (r: Option<HTTPRequest>)
    ensures
        match r {
            Some(x) => request_of(*params, type_key@, intercepted) == Some(request_view(x)),
            None => request_of(*params, type_key@, intercepted) is None,
        },
{
    let request = get(params, "request");
    let id = string_of(get(params, "requestId"));
    let url = string_of(get_opt(request, "url"));
    let method = string_of(get_opt(request, "method"));
    if request.is_none() || id.is_none() || url.is_none() || method.is_none() {
        return None;
    }
    let request_id = id.unwrap();
    let kind = as_str(get(params, type_key));
    let resource_type = match kind {
        Some(t) => to_lowercase(t.as_str()),
        None => to_lowercase("other"),
    };
    let is_navigation_request = match kind {
        Some(t) => eq_ignore_ascii_case(t.as_str(), "document"),
        None => false,
    };
    let interception_id = if intercepted {
        Some(request_id.clone())
    } else {
        None
    };
    let r = HTTPRequest {
        request_id,
        url: url.unwrap(),
        method: method.unwrap(),
        headers: extract_headers(get_opt(request, "headers")),
        post_data: string_of(get_opt(request, "postData")),
        resource_type,
        frame_id: string_of(get(params, "frameId")),
        is_navigation_request,
        response: None,
        interception_id,
    };
    proof {
        reveal_strlit("document");
        reveal_strlit("other");
    }
    Some(r)
}

impl HTTPRequest {
    /// The request that a "request will be sent" event describes.
    pub fn from_cdp_event(params: &JsonValue) -> (r: Option<HTTPRequest>)
        ensures
            match r {
                Some(x) => request_of(*params, "type"@, false) == Some(request_view(x)),
                None => request_of(*params, "type"@, false) is None,
            },
    {
        request_from(params, "type", false)
    }

    /// The request that a "request paused" interception event describes;
    /// its interception id is its request id.
    pub fn from_fetch_paused(params: &JsonValue) -> (r: Option<HTTPRequest>)
        ensures
            match r {
                Some(x) => request_of(*params, "resourceType"@, true) == Some(request_view(x)),
                None => request_of(*params, "resourceType"@, true) is None,
            },
    {
        request_from(params, "resourceType", true)
    }
}

/// A response as a "response received" event's parameters describe it;
/// none when the request id, the response object, its url or its status
/// is missing.
pub open spec fn response_of(params: JsonValue) -> Option<ResponseView> {
    let response = field(params, "response"@);
    let id = str_of(field(params, "requestId"@));
    let url = str_of(field_of(response, "url"@));
    let status = u16_of(field_of(response, "status"@));
    if response is Some && id is Some && url is Some && status is Some {
        Some(
            ResponseView {
                request_id: id->0,
                url: url->0,
                status: status->0,
                status_text: str_or(field_of(response, "statusText"@), Seq::empty()),
                headers: headers_of(field_of(response, "headers"@)),
                from_disk_cache: bool_of(field_of(response, "fromDiskCache"@)) == Some(true),
                from_service_worker: bool_of(field_of(response, "fromServiceWorker"@)) == Some(true),
                mime_type: str_of(field_of(response, "mimeType"@)),
                remote_ip_address: str_of(field_of(response, "remoteIPAddress"@)),
                remote_port: u16_of(field_of(response, "remotePort"@)),
                request: None,
            },
        )
    } else {
        None
    }
}

impl HTTPResponse {
    /// The response that a "response received" event describes.
    pub fn from_cdp_event(params: &JsonValue) -> (r: Option<HTTPResponse>)
        ensures
            match r {
                Some(x) => response_of(*params) == Some(response_view(x)),
                None => response_of(*params) is None,
            },
    {
        let response = get(params, "response");
        let id = string_of(get(params, "requestId"));
        let url = string_of(get_opt(response, "url"));
        let status = as_u16(get_opt(response, "status"));
        if response.is_none() || id.is_none() || url.is_none() || status.is_none() {
            return None;
        }
        let status_text = match as_str(get_opt(response, "statusText")) {
            Some(s) => s.clone(),
            None => String::new(),
        };
        let r = HTTPResponse {
            request_id: id.unwrap(),
            url: url.unwrap(),
            status: status.unwrap(),
            status_text,
            headers: extract_headers(get_opt(response, "headers")),
            from_disk_cache: as_bool(get_opt(response, "fromDiskCache")) == Some(true),
            from_service_worker: as_bool(get_opt(response, "fromServiceWorker")) == Some(true),
            mime_type: string_of(get_opt(response, "mimeType")),
            remote_ip_address: string_of(get_opt(response, "remoteIPAddress")),
            remote_port: as_u16(get_opt(response, "remotePort")),
            request: None,
        };
        proof {
            assert(r.status_text@ == str_or(field_of(opt_val(response), "statusText"@), Seq::empty()));
        }
        Some(r)
    }
}

/// What may be changed of an intercepted request that is let through.
#[derive(Debug)]
pub struct ContinueRequestOverrides {
    pub url: Option<String>,
    pub method: Option<String>,
    pub headers: Option<Vec<(String, String)>>,
    pub post_data: Option<String>,
}

impl ContinueRequestOverrides {
    /// No change.
    pub fn none() -> (r: ContinueRequestOverrides)
        ensures
            r.url is None,
            r.method is None,
            r.headers is None,
            r.post_data is None,
    {
        ContinueRequestOverrides { url: None, method: None, headers: None, post_data: None }
    }
}

/// A response made up for an intercepted request.
#[derive(Debug)]
pub struct ResponseOverride {
    pub status: u16,
    pub headers: Vec<(String, String)>,
    /// The body, sent base64-encoded.
    pub body: Option<Vec<u8>>,
}

/// What standard base64 (with padding) makes of some bytes.
pub uninterp spec fn base64_standard(bytes: Seq<u8>) -> Seq<char>;

/// `base64::engine::general_purpose::STANDARD.encode`: the bytes in
/// standard base64 with padding; the text depends on the bytes alone.
#[verifier::external_body]
fn base64_encode(bytes: &[u8]) -> (r: String)
    ensures
        r@ == base64_standard(bytes@),
{
    base64::engine::general_purpose::STANDARD.encode(bytes)
}

/// What standard base64 (with padding) text decodes to, if it is valid.
pub uninterp spec fn base64_standard_decoded(text: Seq<char>) -> Option<Seq<u8>>;

/// `base64::engine::general_purpose::STANDARD.decode`: the bytes the text
/// stands for, or the decode error's text when it is no valid standard
/// base64; the outcome depends on the text alone, and text that encoding
/// some bytes gave decodes to those bytes.  The error's text is not stated.
#[verifier::external_body]
fn base64_decode(text: &str) -> (r: Result<Vec<u8>, String>)
    ensures
        match r {
            Ok(b) => base64_standard_decoded(text@) == Some(b@),
            Err(_) => base64_standard_decoded(text@) is None,
        },
        forall|b: Seq<u8>| #[trigger] base64_standard(b) == text@ ==> r is Ok && r->Ok_0@ == b,
{
    match base64::engine::general_purpose::STANDARD.decode(text) {
        Ok(b) => Ok(b),
        Err(e) => Err(e.to_string()),
    }
}

/// Whether a response's body can be fetched: not yet known, there, or
/// failed with a text.  A failure, once told, stays.
#[derive(Debug)]
pub struct BodyLatch {
    pub resolved: bool,
    pub error: Option<String>,
}

impl BodyLatch {
    /// A latch not told anything yet.
    pub fn new() -> (r: BodyLatch)
        ensures
            !r.resolved,
            r.error is None,
    {
        BodyLatch { resolved: false, error: None }
    }

    /// The body is there.
    pub fn resolve(&mut self)
        ensures
            final(self).resolved,
            final(self).error == old(self).error,
    {
        self.resolved = true;
    }

    /// Loading the body failed with this text.
    pub fn reject(&mut self, error: String)
        ensures
            final(self).resolved,
            final(self).error == Some(error),
    {
        self.error = Some(error);
        self.resolved = true;
    }

    /// What a wait on the latch gives: nothing while it is not told; a
    /// network error with the failure's text; else success.
    pub fn outcome(&self) -> (r: Option<Result<(), Error>>)
        ensures
            !self.resolved ==> r is None,
            self.resolved && self.error is None ==> r == Some(Ok::<(), Error>(())),
            self.resolved && self.error is Some ==> r is Some && r->0 is Err && r->0->Err_0 is NetworkError
                && r->0->Err_0->NetworkError_0@ == self.error->0@,
    {
        if !self.resolved {
            return None;
        }
        match &self.error {
            Some(e) => Some(Err(Error::NetworkError(e.clone()))),
            None => Some(Ok(())),
        }
    }
}

/// The bytes of a screenshot or a PDF as the browser sends them, in
/// standard base64; text that is no valid base64 is an error.
pub fn capture_bytes(data: &str) -> (r: Result<Vec<u8>, Error>)
    ensures
        match base64_standard_decoded(data@) {
            Some(b) => r is Ok && r->Ok_0@ == b,
            None => r is Err && r->Err_0 is Other && is_prefix(
                "base64 decode failed: "@,
                r->Err_0->Other_0@,
            ),
        },
{
    match base64_decode(data) {
        Ok(b) => Ok(b),
        Err(m) => {
            let msg = "base64 decode failed: ".to_owned().concat(m.as_str());
            proof {
                reveal_strlit("base64 decode failed: ");
                assert(msg@.subrange(0, 22) =~= "base64 decode failed: "@);
            }
            Err(Error::Other(msg))
        },
    }
}

/// The body of a response as the browser sends it: its UTF-8 bytes, or,
/// when it says the body is base64-encoded, the bytes that decodes to; text
/// that is no valid base64 is an error.
pub fn response_body_bytes(body: String, base64_encoded: bool) -> (r: Result<Vec<u8>, Error>)
    ensures
        !base64_encoded ==> r is Ok && r->Ok_0@ == vstd::utf8::encode_utf8(body@),
        base64_encoded ==> match base64_standard_decoded(body@) {
            Some(b) => r is Ok && r->Ok_0@ == b,
            None => r is Err && r->Err_0 is Other,
        },
{
    if base64_encoded {
        match base64_decode(body.as_str()) {
            Ok(b) => Ok(b),
            Err(m) => Err(Error::Other(m)),
        }
    } else {
        Ok(body.as_str().as_bytes_vec())
    }
}

/// The command that lets an intercepted request through.
#[derive(Debug)]
pub struct ContinueCommand {
    pub interception_id: String,
    pub url: Option<String>,
    pub method: Option<String>,
    pub headers: Option<Vec<(String, String)>>,
    /// The post data, base64-encoded.
    pub post_data: Option<String>,
}

/// The command that answers an intercepted request.
#[derive(Debug)]
pub struct FulfillCommand {
    pub interception_id: String,
    pub status: u16,
    /// The headers; none when the response has none.
    pub headers: Option<Vec<(String, String)>>,
    /// The body, base64-encoded.
    pub body: Option<String>,
}

/// `r` failed because the request has no target to send a command to.
pub open spec fn no_target<T>(r: Result<T, Error>) -> bool {
    r is Err && invalid_state(r->Err_0, "request has no target"@)
}

/// `r` failed because interception did not pause the request.
pub open spec fn not_intercepted<T>(r: Result<T, Error>) -> bool {
    r is Err && invalid_state(r->Err_0, "request is not intercepted"@)
}

/// The interception id that a command on a request needs, or the error.
fn interception_of(request: &HTTPRequest, has_target: bool) -> (r: Result<String, Error>)
    ensures
        !has_target ==> no_target(r),
        has_target && request.interception_id is None ==> not_intercepted(r),
        has_target && request.interception_id is Some ==> r is Ok && r->Ok_0@
            == request.interception_id->0@,
{
    if !has_target {
        proof {
            reveal_strlit("request has no target");
        }
        return Err(Error::InvalidState("request has no target".to_owned()));
    }
    match &request.interception_id {
        Some(id) => Ok(id.clone()),
        None => {
            proof {
                reveal_strlit("request is not intercepted");
            }
            Err(Error::InvalidState("request is not intercepted".to_owned()))
        },
    }
}

impl HTTPRequest {
    /// The command that lets this intercepted request through, with the
    /// changes asked for; an error when there is no target to send it to,
    /// or when interception did not pause the request.
    pub fn continue_command(&self, has_target: bool, overrides: Option<ContinueRequestOverrides>) -> (r:
        Result<ContinueCommand, Error>)
        ensures
            !has_target ==> no_target(r),
            has_target && self.interception_id is None ==> not_intercepted(r),
            has_target && self.interception_id is Some ==> r is Ok && {
                let c = r->Ok_0;
                &&& c.interception_id@ == self.interception_id->0@
                &&& match overrides {
                    None => c.url is None && c.method is None && c.headers is None && c.post_data is None,
                    Some(o) => {
                        &&& c.url == o.url
                        &&& c.method == o.method
                        &&& c.headers == o.headers
                        &&& opt_str(c.post_data) == match o.post_data {
                            Some(p) => Some(base64_standard(vstd::utf8::encode_utf8(p@))),
                            None => None,
                        }
                    },
                }
            },
    {
        let id = match interception_of(self, has_target) {
            Ok(id) => id,
            Err(e) => return Err(e),
        };
        match overrides {
            None => Ok(ContinueCommand { interception_id: id, url: None, method: None, headers: None, post_data: None }),
            Some(o) => {
                let post_data = match &o.post_data {
                    Some(p) => Some(base64_encode(p.as_str().as_bytes())),
                    None => None,
                };
                Ok(ContinueCommand { interception_id: id, url: o.url, method: o.method, headers: o.headers, post_data })
            },
        }
    }

    /// The command that answers this intercepted request with `response`;
    /// an error when there is no target to send it to, or when interception
    /// did not pause the request.
    pub fn fulfill_command(&self, has_target: bool, response: ResponseOverride) -> (r: Result<
        FulfillCommand,
        Error,
    >)
        ensures
            !has_target ==> no_target(r),
            has_target && self.interception_id is None ==> not_intercepted(r),
            has_target && self.interception_id is Some ==> r is Ok && {
                let c = r->Ok_0;
                &&& c.interception_id@ == self.interception_id->0@
                &&& c.status == response.status
                &&& c.headers == if response.headers@.len() == 0 {
                    None
                } else {
                    Some(response.headers)
                }
                &&& opt_str(c.body) == match response.body {
                    Some(b) => Some(base64_standard(b@)),
                    None => None,
                }
            },
    {
        let id = match interception_of(self, has_target) {
            Ok(id) => id,
            Err(e) => return Err(e),
        };
        let body = match &response.body {
            Some(b) => Some(base64_encode(b.as_slice())),
            None => None,
        };
        let headers = if response.headers.len() == 0 {
            None
        } else {
            Some(response.headers)
        };
        Ok(FulfillCommand { interception_id: id, status: response.status, headers, body })
    }

    /// The interception id of the command that fails this intercepted
    /// request; an error when there is no target to send it to, or when
    /// interception did not pause the request.
    pub fn abort_command(&self, has_target: bool) -> (r: Result<String, Error>)
        ensures
            !has_target ==> no_target(r),
            has_target && self.interception_id is None ==> not_intercepted(r),
            has_target && self.interception_id is Some ==> r is Ok && r->Ok_0@
                == self.interception_id->0@,
    {
        interception_of(self, has_target)
    }
}

} // verus!
