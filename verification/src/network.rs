//! The network tracker of a session: which requests are in flight, the
//! requests seen so far with their responses, and the network events that
//! each raw protocol event gives.
use vstd::prelude::*;

use crate::http::{request_of, request_view, response_of, response_view, HTTPRequest, HTTPResponse, RequestView, ResponseView};
use crate::json::{as_str, field, get, str_of, JsonValue};
use crate::keyed::{
    as_map, find, insert_entry, key_set, keys_distinct, lemma_empty, lemma_lookup, remove_key, str_eq, KeyedEntry,
};

verus! {

/// A network event.
#[derive(Debug)]
pub enum NetworkEvent {
    /// A request was sent.
    Request(HTTPRequest),
    /// A response was received, with the request it answers when known.
    Response(HTTPResponse),
    /// A request finished loading.
    RequestFinished { request_id: String },
    /// A request failed to load.
    RequestFailed { request_id: String, error_text: String },
}

/// What a [`NetworkEvent`] stands for.
pub enum NetworkEventView {
    Request(RequestView),
    Response(ResponseView),
    RequestFinished { request_id: Seq<char> },
    RequestFailed { request_id: Seq<char>, error_text: Seq<char> },
}

/// The view of a network event.
pub open spec fn network_event_view(e: NetworkEvent) -> NetworkEventView {
    match e {
        NetworkEvent::Request(r) => NetworkEventView::Request(request_view(r)),
        NetworkEvent::Response(r) => NetworkEventView::Response(response_view(r)),
        NetworkEvent::RequestFinished { request_id } => NetworkEventView::RequestFinished {
            request_id: request_id@,
        },
        NetworkEvent::RequestFailed { request_id, error_text } => NetworkEventView::RequestFailed {
            request_id: request_id@,
            error_text: error_text@,
        },
    }
}

/// What the body latch of a stored response is told: the body is there,
/// or it failed with a text.
#[derive(Debug, PartialEq, Eq)]
pub enum BodySignal {
    Resolve { request_id: String },
    Reject { request_id: String, error_text: String },
}

/// What one raw event gives: a network event to send, and a signal for the
/// body latch of a stored response.
#[derive(Debug)]
pub struct NetworkStep {
    pub event: Option<NetworkEvent>,
    pub body: Option<BodySignal>,
}

/// What a [`NetworkStep`] stands for.
pub struct StepView {
    pub event: Option<NetworkEventView>,
    /// The request whose response's latch is told, and the failure text
    /// (none when the body is there).
    pub body: Option<(Seq<char>, Option<Seq<char>>)>,
}

/// The view of a step.
pub open spec fn step_view(s: NetworkStep) -> StepView {
    StepView {
        event: match s.event {
            Some(e) => Some(network_event_view(e)),
            None => None,
        },
        body: match s.body {
            Some(BodySignal::Resolve { request_id }) => Some((request_id@, None)),
            Some(BodySignal::Reject { request_id, error_text }) => Some(
                (request_id@, Some(error_text@)),
            ),
            None => None,
        },
    }
}

/// A stored request, keyed by its request id.
#[derive(Debug)]
pub struct StoredRequest {
    pub id: String,
    pub request: HTTPRequest,
}

impl KeyedEntry for StoredRequest {
    type Val = RequestView;

    open spec fn entry_key(&self) -> Seq<char> {
        self.id@
    }

    open spec fn entry_val(&self) -> RequestView {
        request_view(self.request)
    }

    fn key_str(&self) -> (r: &str) {
        self.id.as_str()
    }
}

/// The network tracker of one session.
#[derive(Debug)]
pub struct NetworkManager {
    session_id: String,
    inflight: Vec<String>,
    requests: Vec<StoredRequest>,
}

/// What a [`NetworkManager`] stands for.
pub struct NetworkView {
    pub session_id: Seq<char>,
    /// The ids of the requests in flight.
    pub inflight: Set<Seq<char>>,
    /// The requests seen so far, by id.
    pub requests: Map<Seq<char>, RequestView>,
}

/// No step.
pub open spec fn quiet() -> StepView {
    StepView { event: None, body: None }
}

/// A response with the request it answers (the stored one, when there is one).
pub open spec fn linked(r: ResponseView, requests: Map<Seq<char>, RequestView>) -> ResponseView {
    ResponseView {
        request: if requests.contains_key(r.request_id) {
            Some(Box::new(requests[r.request_id]))
        } else {
            None
        },
        ..r
    }
}

/// The signal for the latch of the response of the stored request `id`,
/// when there is one.
pub open spec fn latch_signal(
    requests: Map<Seq<char>, RequestView>,
    id: Seq<char>,
    failure: Option<Seq<char>>,
) -> Option<(Seq<char>, Option<Seq<char>>)> {
    if requests.contains_key(id) && requests[id].response is Some {
        Some((id, failure))
    } else {
        None
    }
}

/// What a raw event (its session, method and parameters) does to the
/// tracker, and what it gives.  Events of other sessions do nothing.
pub open spec fn network_step(
    s: NetworkView,
    session: Option<Seq<char>>,
    method: Seq<char>,
    params: JsonValue,
) -> (NetworkView, StepView) {
    let id = str_of(field(params, "requestId"@));
    if session != Some(s.session_id) {
        (s, quiet())
    } else if method == "Network.requestWillBeSent"@ {
        match id {
            Some(i) => {
                let s1 = NetworkView { inflight: s.inflight.insert(i), ..s };
                match request_of(params, "type"@, false) {
                    Some(r) => (
                        NetworkView { requests: s.requests.insert(i, r), ..s1 },
                        StepView { event: Some(NetworkEventView::Request(r)), body: None },
                    ),
                    None => (s1, quiet()),
                }
            },
            None => (s, quiet()),
        }
    } else if method == "Network.responseReceived"@ {
        match response_of(params) {
            Some(r) => {
                let resp = linked(r, s.requests);
                let requests = if s.requests.contains_key(r.request_id) {
                    s.requests.insert(
                        r.request_id,
                        RequestView { response: Some(Box::new(resp)), ..s.requests[r.request_id] },
                    )
                } else {
                    s.requests
                };
                (
                    NetworkView { requests, ..s },
                    StepView { event: Some(NetworkEventView::Response(resp)), body: None },
                )
            },
            None => (s, quiet()),
        }
    } else if method == "Network.loadingFinished"@ {
        match id {
            Some(i) => (
                NetworkView { inflight: s.inflight.remove(i), ..s },
                StepView {
                    event: Some(NetworkEventView::RequestFinished { request_id: i }),
                    body: latch_signal(s.requests, i, None),
                },
            ),
            None => (s, quiet()),
        }
    } else if method == "Network.loadingFailed"@ {
        match id {
            Some(i) => {
                let text = match str_of(field(params, "errorText"@)) {
                    Some(t) => t,
                    None => "unknown error"@,
                };
                (
                    NetworkView { inflight: s.inflight.remove(i), ..s },
                    StepView {
                        event: Some(NetworkEventView::RequestFailed { request_id: i, error_text: text }),
                        body: latch_signal(s.requests, i, Some(text)),
                    },
                )
            },
            None => (s, quiet()),
        }
    } else {
        (s, quiet())
    }
}

impl NetworkManager {
    pub closed spec fn view(&self) -> NetworkView {
        NetworkView {
            session_id: self.session_id@,
            inflight: key_set(self.inflight@),
            requests: as_map(self.requests@),
        }
    }

    /// The tracker is consistent: no id is listed twice.
    pub closed spec fn wf(&self) -> bool {
        keys_distinct(self.inflight@) && keys_distinct(self.requests@)
    }

    /// A tracker for a session, with nothing in flight and no request seen.
    pub fn new(session_id: String) -> (r: NetworkManager)
        ensures
            r.wf(),
            r.view().session_id == session_id@,
            r.view().inflight == Set::<Seq<char>>::empty(),
            r.view().requests == Map::<Seq<char>, RequestView>::empty(),
    {
        let r = NetworkManager { session_id, inflight: Vec::new(), requests: Vec::new() };
        proof {
            lemma_empty(r.inflight@);
            lemma_empty(r.requests@);
        }
        r
    }

    /// Whether a request is in flight.
    pub fn is_inflight(&self, request_id: &str) -> (r: bool)
        requires
            self.wf(),
        ensures
            r == self.view().inflight.contains(request_id@),
    {
        match find(&self.inflight, request_id) {
            Some(i) => {
                proof {
                    lemma_lookup(self.inflight@, i as int);
                }
                true
            },
            None => false,
        }
    }

    /// The stored request with this id.
    pub fn get_request(&self, request_id: &str) -> (r: Option<&HTTPRequest>)
        requires
            self.wf(),
        ensures
            match r {
                Some(q) => self.view().requests.contains_key(request_id@)
                    && self.view().requests[request_id@] == request_view(*q),
                None => !self.view().requests.contains_key(request_id@),
            },
    {
        match find(&self.requests, request_id) {
            Some(i) => {
                proof {
                    lemma_lookup(self.requests@, i as int);
                }
                Some(&self.requests[i].request)
            },
            None => None,
        }
    }

    /// Handle a raw protocol event of some session: track the request it
    /// concerns and say what to send and what the body latch is told.
    pub fn handle_event(&mut self, session_id: Option<&str>, method: &str, params: &JsonValue) -> (r:
        NetworkStep)
        requires
            old(self).wf(),
        ensures
            final(self).wf(),
            (final(self).view(), step_view(r)) == network_step(
                old(self).view(),
                match session_id {
                    Some(s) => Some(s@),
                    None => None,
                },
                method@,
                *params,
            ),
    {
        let same = match session_id {
            Some(s) => str_eq(s, self.session_id.as_str()),
            None => false,
        };
        let none = NetworkStep { event: None, body: None };
        if !same {
            return none;
        }
        let id = as_str(get(params, "requestId"));
        if str_eq(method, "Network.requestWillBeSent") {
            match id {
                Some(i) => {
                    insert_entry(&mut self.inflight, i.clone());
                    match HTTPRequest::from_cdp_event(params) {
                        Some(req) => {
                            let stored = StoredRequest { id: i.clone(), request: req.clone_request() };
                            insert_entry(&mut self.requests, stored);
                            NetworkStep { event: Some(NetworkEvent::Request(req)), body: None }
                        },
                        None => none,
                    }
                },
                None => none,
            }
        } else if str_eq(method, "Network.responseReceived") {
            match HTTPResponse::from_cdp_event(params) {
                Some(mut resp) => {
                    match find(&self.requests, resp.request_id.as_str()) {
                        Some(k) => {
                            proof {
                                lemma_lookup(self.requests@, k as int);
                            }
                            resp.request = Some(Box::new(self.requests[k].request.clone_request()));
                            let mut req = self.requests[k].request.clone_request();
                            req.response = Some(Box::new(resp.clone_response()));
                            let stored = StoredRequest { id: self.requests[k].id.clone(), request: req };
                            insert_entry(&mut self.requests, stored);
                        },
                        None => {},
                    }
                    NetworkStep { event: Some(NetworkEvent::Response(resp)), body: None }
                },
                None => none,
            }
        } else if str_eq(method, "Network.loadingFinished") {
            match id {
                Some(i) => {
                    let body = self.latch(i.as_str(), None);
                    remove_key(&mut self.inflight, i.as_str());
                    NetworkStep { event: Some(NetworkEvent::RequestFinished { request_id: i.clone() }), body }
                },
                None => none,
            }
        } else if str_eq(method, "Network.loadingFailed") {
            match id {
                Some(i) => {
                    let text = match as_str(get(params, "errorText")) {
                        Some(t) => t.clone(),
                        None => {
                            proof {
                                reveal_strlit("unknown error");
                            }
                            "unknown error".to_owned()
                        },
                    };
                    let body = self.latch(i.as_str(), Some(text.clone()));
                    remove_key(&mut self.inflight, i.as_str());
                    NetworkStep {
                        event: Some(NetworkEvent::RequestFailed { request_id: i.clone(), error_text: text }),
                        body,
                    }
                },
                None => none,
            }
        } else {
            none
        }
    }

    /// The signal for the latch of the response of the stored request `id`.
    fn latch(&self, id: &str, failure: Option<String>) -> (r: Option<BodySignal>)
        requires
            self.wf(),
        ensures
            step_view(NetworkStep { event: None, body: r }).body == latch_signal(
                self.view().requests,
                id@,
                match failure {
                    Some(f) => Some(f@),
                    None => None,
                },
            ),
    {
        match self.get_request(id) {
            Some(q) => if q.response.is_some() {
                match failure {
                    Some(f) => Some(BodySignal::Reject { request_id: id.to_owned(), error_text: f }),
                    None => Some(BodySignal::Resolve { request_id: id.to_owned() }),
                }
            } else {
                None
            },
            None => None,
        }
    }
}

} // verus!
