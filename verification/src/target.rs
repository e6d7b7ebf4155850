//! Browser targets (pages, workers, ...): their kinds, their metadata as
//! the protocol reports it, their initialisation, and the registry of
//! discovered and attached targets that the discovery events keep.
use vstd::prelude::*;

use crate::frame::{clone_opt_string, clone_strings, opt_str};
use crate::json::{as_bool, as_str, bool_of, field, get, str_of, string_of, JsonValue};
use crate::keyed::{
    as_map, find, has_key, insert_entry, key_index, key_set, keys_distinct, lemma_empty,
    lemma_lookup, remove_key, str_eq, KeyedEntry,
};

verus! {

/// The kind of a browser target.
#[derive(Debug, Clone, Copy, PartialEq, Eq, Hash, Structural)]
pub enum TargetType {
    Page,
    BackgroundPage,
    ServiceWorker,
    SharedWorker,
    Browser,
    Webview,
    Tab,
    IFrame,
    Other,
}

/// The protocol's name of a target kind.
pub open spec fn target_type_name(t: TargetType) -> Seq<char> {
    match t {
        TargetType::Page => "page"@,
        TargetType::BackgroundPage => "background_page"@,
        TargetType::ServiceWorker => "service_worker"@,
        TargetType::SharedWorker => "shared_worker"@,
        TargetType::Browser => "browser"@,
        TargetType::Webview => "webview"@,
        TargetType::Tab => "tab"@,
        TargetType::IFrame => "iframe"@,
        TargetType::Other => "other"@,
    }
}

/// The target kind that a protocol name stands for; `Other` for a name it
/// does not know.
pub open spec fn target_type_of(s: Seq<char>) -> TargetType {
    if s == "page"@ {
        TargetType::Page
    } else if s == "background_page"@ {
        TargetType::BackgroundPage
    } else if s == "service_worker"@ {
        TargetType::ServiceWorker
    } else if s == "shared_worker"@ {
        TargetType::SharedWorker
    } else if s == "browser"@ {
        TargetType::Browser
    } else if s == "webview"@ {
        TargetType::Webview
    } else if s == "tab"@ {
        TargetType::Tab
    } else if s == "iframe"@ {
        TargetType::IFrame
    } else {
        TargetType::Other
    }
}

impl TargetType {
    /// The target kind for a protocol name.
    pub fn from_cdp(s: &str) -> (r: TargetType)
        ensures
            r == target_type_of(s@),
    {
        if str_eq(s, "page") {
            TargetType::Page
        } else if str_eq(s, "background_page") {
            TargetType::BackgroundPage
        } else if str_eq(s, "service_worker") {
            TargetType::ServiceWorker
        } else if str_eq(s, "shared_worker") {
            TargetType::SharedWorker
        } else if str_eq(s, "browser") {
            TargetType::Browser
        } else if str_eq(s, "webview") {
            TargetType::Webview
        } else if str_eq(s, "tab") {
            TargetType::Tab
        } else if str_eq(s, "iframe") {
            TargetType::IFrame
        } else {
            TargetType::Other
        }
    }

    /// The protocol's name of the kind.
    pub fn as_str(&self) -> (r: &'static str)
        ensures
            r@ == target_type_name(*self),
    {
        match self {
            TargetType::Page => "page",
            TargetType::BackgroundPage => "background_page",
            TargetType::ServiceWorker => "service_worker",
            TargetType::SharedWorker => "shared_worker",
            TargetType::Browser => "browser",
            TargetType::Webview => "webview",
            TargetType::Tab => "tab",
            TargetType::IFrame => "iframe",
            TargetType::Other => "other",
        }
    }
}

/// A kind's name reads back as the same kind.
pub proof fn target_type_round_trip(t: TargetType)
    ensures
        target_type_of(target_type_name(t)) == t,
{
    reveal_strlit("page");
    reveal_strlit("background_page");
    reveal_strlit("service_worker");
    reveal_strlit("shared_worker");
    reveal_strlit("browser");
    reveal_strlit("webview");
    reveal_strlit("tab");
    reveal_strlit("iframe");
    reveal_strlit("other");
    let n = target_type_name(t);
    assert(n.len() > 0);
    if t != TargetType::Page {
        assert(n != "page"@ ) by {
            if n.len() == 4 {
                assert(n[0] != "page"@[0] || n[1] != "page"@[1]);
            }
        }
    }
    if t != TargetType::Tab {
        assert(n != "tab"@) by {
            if n.len() == 3 {
                assert(n[0] != "tab"@[0]);
            }
        }
    }
    if t != TargetType::Browser {
        assert(n != "browser"@) by {
            if n.len() == 7 {
                assert(n[0] != "browser"@[0]);
            }
        }
    }
    if t != TargetType::Webview {
        assert(n != "webview"@) by {
            if n.len() == 7 {
                assert(n[0] != "webview"@[0]);
            }
        }
    }
    if t != TargetType::IFrame {
        assert(n != "iframe"@) by {
            if n.len() == 6 {
                assert(n[0] != "iframe"@[0]);
            }
        }
    }
    if t != TargetType::ServiceWorker {
        assert(n != "service_worker"@) by {
            if n.len() == 14 {
                assert(n[0] != "service_worker"@[0] || n[1] != "service_worker"@[1]);
            }
        }
    }
    if t != TargetType::SharedWorker {
        assert(n != "shared_worker"@) by {
            if n.len() == 13 {
                assert(n[0] != "shared_worker"@[0] || n[1] != "shared_worker"@[1]);
            }
        }
    }
    if t != TargetType::BackgroundPage {
        assert(n != "background_page"@) by {
            if n.len() == 15 {
                assert(n[0] != "background_page"@[0]);
            }
        }
    }
}

/// Where a target is in its initialisation.
#[derive(Debug, Clone, Copy, PartialEq, Eq, Structural)]
pub enum InitStatus {
    Pending,
    Success,
    Aborted,
}

/// A target's metadata, as the protocol reports it.
#[derive(Debug)]
pub struct TargetInfo {
    pub target_id: String,
    pub target_type: TargetType,
    pub url: String,
    pub title: String,
    pub attached: bool,
    pub opener_id: Option<String>,
    pub browser_context_id: Option<String>,
    pub subtype: Option<String>,
}

/// What a [`TargetInfo`] stands for.
pub struct TargetInfoView {
    pub target_id: Seq<char>,
    pub target_type: TargetType,
    pub url: Seq<char>,
    pub title: Seq<char>,
    pub attached: bool,
    pub opener_id: Option<Seq<char>>,
    pub browser_context_id: Option<Seq<char>>,
    pub subtype: Option<Seq<char>>,
}

/// The view of target metadata.
pub open spec fn info_view(i: TargetInfo) -> TargetInfoView {
    TargetInfoView {
        target_id: i.target_id@,
        target_type: i.target_type,
        url: i.url@,
        title: i.title@,
        attached: i.attached,
        opener_id: opt_str(i.opener_id),
        browser_context_id: opt_str(i.browser_context_id),
        subtype: opt_str(i.subtype),
    }
}

impl TargetInfo {
    pub fn clone_info(&self) -> (r: TargetInfo)
        ensures
            info_view(r) == info_view(*self),
    {
        TargetInfo {
            target_id: self.target_id.clone(),
            target_type: self.target_type,
            url: self.url.clone(),
            title: self.title.clone(),
            attached: self.attached,
            opener_id: clone_opt_string(&self.opener_id),
            browser_context_id: clone_opt_string(&self.browser_context_id),
            subtype: clone_opt_string(&self.subtype),
        }
    }
}

/// The metadata an event carries: in its `targetInfo` member, else in the
/// event itself; none when the target id or the type is missing.
pub open spec fn target_info_of(params: JsonValue) -> Option<TargetInfoView> {
    let info = match field(params, "targetInfo"@) {
        Some(i) => i,
        None => params,
    };
    let id = str_of(field(info, "targetId"@));
    let kind = str_of(field(info, "type"@));
    if id is Some && kind is Some {
        Some(
            TargetInfoView {
                target_id: id->0,
                target_type: target_type_of(kind->0),
                url: match str_of(field(info, "url"@)) {
                    Some(u) => u,
                    None => Seq::empty(),
                },
                title: match str_of(field(info, "title"@)) {
                    Some(t) => t,
                    None => Seq::empty(),
                },
                attached: bool_of(field(info, "attached"@)) == Some(true),
                opener_id: str_of(field(info, "openerId"@)),
                browser_context_id: str_of(field(info, "browserContextId"@)),
                subtype: str_of(field(info, "subtype"@)),
            },
        )
    } else {
        None
    }
}

/// A string member, or the empty string.
fn string_or_empty(v: Option<&JsonValue>) -> (r: String)
    ensures
        r@ == match str_of(crate::json::opt_val(v)) {
            Some(s) => s,
            None => Seq::empty(),
        },
{
    match as_str(v) {
        Some(s) => s.clone(),
        None => String::new(),
    }
}

/// The metadata an event carries.
pub fn parse_target_info(params: &JsonValue) -> (r: Option<TargetInfo>)
    ensures
        match r {
            Some(i) => target_info_of(*params) == Some(info_view(i)),
            None => target_info_of(*params) is None,
        },
{
    let info = match get(params, "targetInfo") {
        Some(i) => i,
        None => params,
    };
    let id = string_of(get(info, "targetId"));
    let kind = as_str(get(info, "type"));
    match (id, kind) {
        (Some(target_id), Some(k)) => Some(
            TargetInfo {
                target_id,
                target_type: TargetType::from_cdp(k.as_str()),
                url: string_or_empty(get(info, "url")),
                title: string_or_empty(get(info, "title")),
                attached: as_bool(get(info, "attached")) == Some(true),
                opener_id: string_of(get(info, "openerId")),
                browser_context_id: string_of(get(info, "browserContextId")),
                subtype: string_of(get(info, "subtype")),
            },
        ),
        _ => None,
    }
}

/// Whether a target is shown to users: not a tab, and no subtype.
pub open spec fn exposed(i: TargetInfoView) -> bool {
    i.target_type != TargetType::Tab && i.subtype is None
}

/// Whether a target is shown to users: not a tab, and no subtype.
pub fn is_target_exposed(info: &TargetInfo) -> (r: bool)
    ensures
        r == exposed(info_view(*info)),
{
    info.target_type != TargetType::Tab && info.subtype.is_none()
}

/// A target is ready once attached, except a page, which is ready once it
/// has a URL.
pub open spec fn ready(i: TargetInfoView) -> bool {
    match i.target_type {
        TargetType::Page => i.url.len() > 0,
        _ => true,
    }
}

/// The status after a readiness check: a pending target that is ready
/// succeeds; any other status stays.
pub open spec fn checked_status(status: InitStatus, i: TargetInfoView) -> InitStatus {
    if status == InitStatus::Pending && ready(i) {
        InitStatus::Success
    } else {
        status
    }
}

/// The readiness check.
pub fn check_if_initialized(status: InitStatus, info: &TargetInfo) -> (r: InitStatus)
    ensures
        r == checked_status(status, info_view(*info)),
{
    let ready = match info.target_type {
        TargetType::Page => info.url.unicode_len() > 0,
        _ => true,
    };
    if status == InitStatus::Pending && ready {
        InitStatus::Success
    } else {
        status
    }
}

/// An attached target: its session, its metadata, its initialisation, and
/// the ids of its child targets (out-of-process frames).
#[derive(Debug)]
pub struct AttachedTarget {
    pub target_id: String,
    pub session_id: String,
    pub info: TargetInfo,
    pub status: InitStatus,
    pub children: Vec<String>,
}

/// What an [`AttachedTarget`] stands for.
pub struct AttachedView {
    pub target_id: Seq<char>,
    pub session_id: Seq<char>,
    pub info: TargetInfoView,
    pub status: InitStatus,
    pub children: Seq<Seq<char>>,
}

/// The view of an attached target.
pub open spec fn attached_view(a: AttachedTarget) -> AttachedView {
    AttachedView {
        target_id: a.target_id@,
        session_id: a.session_id@,
        info: info_view(a.info),
        status: a.status,
        children: ids_view(a.children@),
    }
}

/// The views of the attached targets, in order.
pub open spec fn attached_views(s: Seq<AttachedTarget>) -> Seq<AttachedView> {
    s.map_values(|a: AttachedTarget| attached_view(a))
}

impl KeyedEntry for AttachedTarget {
    type Val = AttachedView;

    open spec fn entry_key(&self) -> Seq<char> {
        self.target_id@
    }

    open spec fn entry_val(&self) -> AttachedView {
        attached_view(*self)
    }

    fn key_str(&self) -> (r: &str) {
        self.target_id.as_str()
    }
}

/// Discovered metadata, keyed by target id.
#[derive(Debug)]
pub struct DiscoveredTarget {
    pub info: TargetInfo,
}

impl KeyedEntry for DiscoveredTarget {
    type Val = TargetInfoView;

    open spec fn entry_key(&self) -> Seq<char> {
        self.info.target_id@
    }

    open spec fn entry_val(&self) -> TargetInfoView {
        info_view(self.info)
    }

    fn key_str(&self) -> (r: &str) {
        self.info.target_id.as_str()
    }
}

/// The target that a session belongs to, keyed by session id.
#[derive(Debug)]
pub struct SessionTarget {
    pub session_id: String,
    pub target_id: String,
}

impl KeyedEntry for SessionTarget {
    type Val = Seq<char>;

    open spec fn entry_key(&self) -> Seq<char> {
        self.session_id@
    }

    open spec fn entry_val(&self) -> Seq<char> {
        self.target_id@
    }

    fn key_str(&self) -> (r: &str) {
        self.session_id.as_str()
    }
}

/// The position of the attached target `id`, if it is attached.
pub open spec fn av_find(v: Seq<AttachedView>, id: Seq<char>) -> Option<int> {
    if exists|i: int| 0 <= i < v.len() && #[trigger] v[i].target_id == id {
        Some(choose|i: int| 0 <= i < v.len() && #[trigger] v[i].target_id == id)
    } else {
        None
    }
}

/// Attach `a`: in place of the target with the same id, which keeps its
/// position, or last.
pub open spec fn av_put(v: Seq<AttachedView>, a: AttachedView) -> Seq<AttachedView> {
    match av_find(v, a.target_id) {
        Some(i) => v.update(i, a),
        None => v.push(a),
    }
}

/// Detach `id`: the others keep their order.
pub open spec fn av_remove(v: Seq<AttachedView>, id: Seq<char>) -> Seq<AttachedView> {
    match av_find(v, id) {
        Some(i) => v.remove(i),
        None => v,
    }
}

/// What the registry holds: the metadata of the targets discovered, the
/// targets attached (in the order they were attached), the target of each
/// session, and the pages and tabs whose first attachment is awaited.
pub struct RegistryView {
    pub discovered: Map<Seq<char>, TargetInfoView>,
    pub attached: Seq<AttachedView>,
    pub sessions: Map<Seq<char>, Seq<char>>,
    pub init_pending: Set<Seq<char>>,
}

/// What the registry asks to be done after an event.
#[derive(Debug)]
pub enum TargetAction {
    /// Announce a discovered target.
    Discovered(TargetInfo),
    /// Announce that an initialised target navigated away from `previous_url`.
    Changed { target_id: String, previous_url: String },
    /// Announce an attached target.
    Available { target_id: String },
    /// Announce a target that went away; its initialisation, if pending, is aborted.
    Gone { target_id: String },
    /// Wake whoever waits for the initial targets.
    InitDone,
    /// Tell the plugins of a new target.
    PluginTargetCreated { target_id: String, url: String },
    /// Tell the plugins of a destroyed target.
    PluginTargetDestroyed { target_id: String },
    /// Let a service worker run, then detach from it.
    ResumeAndDetach { session_id: String },
    /// Attach to the target's own children, then let it run.
    AutoAttachAndResume { session_id: String },
}

/// What a [`TargetAction`] stands for.
pub enum ActionView {
    Discovered(TargetInfoView),
    Changed { target_id: Seq<char>, previous_url: Seq<char> },
    Available(Seq<char>),
    Gone(Seq<char>),
    InitDone,
    PluginTargetCreated { target_id: Seq<char>, url: Seq<char> },
    PluginTargetDestroyed(Seq<char>),
    ResumeAndDetach(Seq<char>),
    AutoAttachAndResume(Seq<char>),
}

/// The view of an action.
pub open spec fn action_view(a: TargetAction) -> ActionView {
    match a {
        TargetAction::Discovered(i) => ActionView::Discovered(info_view(i)),
        TargetAction::Changed { target_id, previous_url } => ActionView::Changed {
            target_id: target_id@,
            previous_url: previous_url@,
        },
        TargetAction::Available { target_id } => ActionView::Available(target_id@),
        TargetAction::Gone { target_id } => ActionView::Gone(target_id@),
        TargetAction::InitDone => ActionView::InitDone,
        TargetAction::PluginTargetCreated { target_id, url } => ActionView::PluginTargetCreated {
            target_id: target_id@,
            url: url@,
        },
        TargetAction::PluginTargetDestroyed { target_id } => ActionView::PluginTargetDestroyed(
            target_id@,
        ),
        TargetAction::ResumeAndDetach { session_id } => ActionView::ResumeAndDetach(session_id@),
        TargetAction::AutoAttachAndResume { session_id } => ActionView::AutoAttachAndResume(
            session_id@,
        ),
    }
}

/// The views of a list of actions.
pub open spec fn action_views(s: Seq<TargetAction>) -> Seq<ActionView> {
    s.map_values(|a: TargetAction| action_view(a))
}

/// `InitDone` when the target was awaited.
pub open spec fn init_done_if(awaited: bool) -> Seq<ActionView> {
    if awaited {
        seq![ActionView::InitDone]
    } else {
        Seq::empty()
    }
}

/// A target was created: pages and tabs become awaited; its metadata is
/// recorded and announced.
pub open spec fn on_created(s: RegistryView, params: JsonValue) -> (RegistryView, Seq<ActionView>) {
    match target_info_of(params) {
        Some(i) => {
            let init = if i.target_type == TargetType::Page || i.target_type == TargetType::Tab {
                s.init_pending.insert(i.target_id)
            } else {
                s.init_pending
            };
            (
                RegistryView {
                    discovered: s.discovered.insert(i.target_id, i),
                    init_pending: init,
                    ..s
                },
                seq![ActionView::Discovered(i)],
            )
        },
        None => (s, Seq::empty()),
    }
}

/// A target's metadata changed: it is recorded; an attached target takes it
/// and is checked for readiness, and an initialised one whose URL changed
/// is announced with its previous URL.
pub open spec fn on_info_changed(s: RegistryView, params: JsonValue) -> (RegistryView, Seq<ActionView>) {
    match target_info_of(params) {
        Some(n) => {
            let id = n.target_id;
            let previous = if s.discovered.contains_key(id) {
                s.discovered[id].url
            } else {
                Seq::empty()
            };
            let s1 = RegistryView { discovered: s.discovered.insert(id, n), ..s };
            match av_find(s.attached, id) {
                Some(k) => {
                    let status = checked_status(s.attached[k].status, n);
                    let a = AttachedView { info: n, status, ..s.attached[k] };
                    (
                        RegistryView { attached: s.attached.update(k, a), ..s1 },
                        if status == InitStatus::Success && previous != n.url {
                            seq![ActionView::Changed { target_id: id, previous_url: previous }]
                        } else {
                            Seq::empty()
                        },
                    )
                },
                None => (s1, Seq::empty()),
            }
        },
        None => (s, Seq::empty()),
    }
}

/// A target was destroyed: it is forgotten, no longer awaited, detached
/// with its session, and the plugins are told.
pub open spec fn on_destroyed(s: RegistryView, params: JsonValue) -> (RegistryView, Seq<ActionView>) {
    match str_of(field(params, "targetId"@)) {
        Some(id) => {
            let awaited = s.init_pending.contains(id);
            let found = av_find(s.attached, id);
            let sessions = match found {
                Some(k) => s.sessions.remove(s.attached[k].session_id),
                None => s.sessions,
            };
            (
                RegistryView {
                    discovered: s.discovered.remove(id),
                    attached: av_remove(s.attached, id),
                    sessions,
                    init_pending: s.init_pending.remove(id),
                },
                init_done_if(awaited) + (if found is Some {
                    seq![ActionView::Gone(id)]
                } else {
                    Seq::empty()
                }) + seq![ActionView::PluginTargetDestroyed(id)],
            )
        },
        None => (s, Seq::empty()),
    }
}

/// Add `child` to the children of the target of session `parent`, if that
/// target is attached.
pub open spec fn add_child(
    v: Seq<AttachedView>,
    sessions: Map<Seq<char>, Seq<char>>,
    parent: Option<Seq<char>>,
    child: Seq<char>,
) -> Seq<AttachedView> {
    match parent {
        Some(p) => if sessions.contains_key(p) && av_find(v, sessions[p]) is Some {
            let k = av_find(v, sessions[p])->0;
            v.update(k, AttachedView { children: v[k].children.push(child), ..v[k] })
        } else {
            v
        },
        None => v,
    }
}

/// Remove `child` from the children of the target of session `parent`, if
/// that target is attached.
pub open spec fn drop_child(
    v: Seq<AttachedView>,
    sessions: Map<Seq<char>, Seq<char>>,
    parent: Option<Seq<char>>,
    child: Seq<char>,
) -> Seq<AttachedView> {
    match parent {
        Some(p) => if sessions.contains_key(p) && av_find(v, sessions[p]) is Some {
            let k = av_find(v, sessions[p])->0;
            v.update(
                k,
                AttachedView { children: v[k].children.filter(|c: Seq<char>| c != child), ..v[k] },
            )
        } else {
            v
        },
        None => v,
    }
}

/// A target was attached in a session (from within the session `parent`,
/// when given): it is recorded with its session, no longer awaited, made a
/// child of the parent's target, checked for readiness, announced, told to
/// the plugins, and then resumed (a service worker is detached from).
pub open spec fn on_attached(s: RegistryView, parent: Option<Seq<char>>, params: JsonValue) -> (
    RegistryView,
    Seq<ActionView>,
) {
    let sid = str_of(field(params, "sessionId"@));
    match (sid, target_info_of(params)) {
        (Some(sid), Some(i)) => {
            let id = i.target_id;
            let fresh = AttachedView {
                target_id: id,
                session_id: sid,
                info: i,
                status: InitStatus::Pending,
                children: Seq::empty(),
            };
            let a1 = av_put(s.attached, fresh);
            let sessions = s.sessions.insert(sid, id);
            let a2 = add_child(a1, sessions, parent, id);
            let k = av_find(a2, id)->0;
            let a3 = a2.update(
                k,
                AttachedView { status: checked_status(a2[k].status, a2[k].info), ..a2[k] },
            );
            (
                RegistryView {
                    attached: a3,
                    sessions,
                    init_pending: s.init_pending.remove(id),
                    ..s
                },
                init_done_if(s.init_pending.contains(id)) + seq![
                    ActionView::Available(id),
                    ActionView::PluginTargetCreated { target_id: id, url: i.url },
                    if i.target_type == TargetType::ServiceWorker {
                        ActionView::ResumeAndDetach(sid)
                    } else {
                        ActionView::AutoAttachAndResume(sid)
                    },
                ],
            )
        },
        _ => (s, Seq::empty()),
    }
}

/// A session was detached (from within the session `parent`, when given):
/// its target leaves the parent's children and is detached and announced.
pub open spec fn on_detached(s: RegistryView, parent: Option<Seq<char>>, params: JsonValue) -> (
    RegistryView,
    Seq<ActionView>,
) {
    match str_of(field(params, "sessionId"@)) {
        Some(sid) => if s.sessions.contains_key(sid) {
            let id = s.sessions[sid];
            let sessions = s.sessions.remove(sid);
            let a1 = drop_child(s.attached, sessions, parent, id);
            (
                RegistryView { attached: av_remove(a1, id), sessions, ..s },
                if av_find(a1, id) is Some {
                    seq![ActionView::Gone(id)]
                } else {
                    Seq::empty()
                },
            )
        } else {
            (s, Seq::empty())
        },
        None => (s, Seq::empty()),
    }
}

/// What a discovery event (its method and parameters, and the session it
/// came in, if any) does to the registry, and what it asks to be done.
pub open spec fn registry_step(
    s: RegistryView,
    parent: Option<Seq<char>>,
    method: Seq<char>,
    params: JsonValue,
) -> (RegistryView, Seq<ActionView>) {
    if method == "Target.targetCreated"@ {
        on_created(s, params)
    } else if method == "Target.targetInfoChanged"@ {
        on_info_changed(s, params)
    } else if method == "Target.targetDestroyed"@ {
        on_destroyed(s, params)
    } else if method == "Target.attachedToTarget"@ {
        on_attached(s, parent, params)
    } else if method == "Target.detachedFromTarget"@ {
        on_detached(s, parent, params)
    } else {
        (s, Seq::empty())
    }
}

/// The attached target `id` is found where the keyed vector has it.
proof fn lemma_av_find(s: Seq<AttachedTarget>, id: Seq<char>)
    requires
        keys_distinct(s),
    ensures
        has_key(s, id) ==> av_find(attached_views(s), id) == Some(key_index(s, id)),
        has_key(s, id) ==> 0 <= key_index(s, id) < s.len() && s[key_index(s, id)].target_id@ == id,
        !has_key(s, id) ==> av_find(attached_views(s), id) is None,
{
    let v = attached_views(s);
    if has_key(s, id) {
        let k = key_index(s, id);
        assert(v[k].target_id == id);
        let j = choose|j: int| 0 <= j < v.len() && #[trigger] v[j].target_id == id;
        assert(s[j].entry_key() == s[k].entry_key());
    } else {
        if exists|j: int| 0 <= j < v.len() && #[trigger] v[j].target_id == id {
            let j = choose|j: int| 0 <= j < v.len() && #[trigger] v[j].target_id == id;
            assert(s[j].entry_key() == id);
        }
    }
}

/// The position of the attached target `id`.
fn find_attached(v: &Vec<AttachedTarget>, id: &str) -> (r: Option<usize>)
    requires
        keys_distinct(v@),
    ensures
        match r {
            Some(k) => av_find(attached_views(v@), id@) == Some(k as int) && k < v@.len(),
            None => av_find(attached_views(v@), id@) is None,
        },
{
    let r = find(v, id);
    proof {
        lemma_av_find(v@, id@);
        if let Some(k) = r {
            lemma_lookup(v@, k as int);
        }
    }
    r
}

/// Replace the attached target at `k` by one with the same id.
fn replace_attached(v: &mut Vec<AttachedTarget>, k: usize, a: AttachedTarget)
    requires
        keys_distinct(old(v)@),
        k < old(v)@.len(),
        old(v)@[k as int].target_id@ == a.target_id@,
    ensures
        keys_distinct(final(v)@),
        attached_views(final(v)@) == attached_views(old(v)@).update(k as int, attached_view(a)),
{
    proof {
        crate::keyed::lemma_update(v@, k as int, a);
    }
    v.set(k, a);
    proof {
        assert(attached_views(v@) =~= attached_views(old(v)@).update(k as int, attached_view(a)));
    }
}

/// Attach `a` in place of the target with its id, or last.
fn put_attached(v: &mut Vec<AttachedTarget>, a: AttachedTarget)
    requires
        keys_distinct(old(v)@),
    ensures
        keys_distinct(final(v)@),
        attached_views(final(v)@) == av_put(attached_views(old(v)@), attached_view(a)),
{
    match find_attached(v, a.target_id.as_str()) {
        Some(k) => {
            proof {
                lemma_av_find(v@, a.target_id@);
            }
            replace_attached(v, k, a);
        },
        None => {
            proof {
                lemma_av_find(v@, a.target_id@);
                crate::keyed::lemma_push(v@, a);
            }
            v.push(a);
            proof {
                assert(attached_views(v@) =~= attached_views(old(v)@).push(attached_view(a)));
            }
        },
    }
}

/// Detach `id`, and give back its record.
fn remove_attached(v: &mut Vec<AttachedTarget>, id: &str) -> (r: Option<AttachedTarget>)
    requires
        keys_distinct(old(v)@),
    ensures
        keys_distinct(final(v)@),
        attached_views(final(v)@) == av_remove(attached_views(old(v)@), id@),
        match r {
            Some(a) => av_find(attached_views(old(v)@), id@) is Some && attached_view(a)
                == attached_views(old(v)@)[av_find(attached_views(old(v)@), id@)->0],
            None => av_find(attached_views(old(v)@), id@) is None,
        },
{
    match find_attached(v, id) {
        Some(k) => {
            proof {
                crate::keyed::lemma_remove(v@, k as int);
            }
            let a = v.remove(k);
            proof {
                assert(attached_views(v@) =~= attached_views(old(v)@).remove(k as int));
            }
            Some(a)
        },
        None => None,
    }
}

/// The ids of the attached targets that satisfy `p`, in order.
pub open spec fn ids_where(v: Seq<AttachedView>, p: spec_fn(AttachedView) -> bool) -> Seq<Seq<char>>
    decreases v.len(),
{
    if v.len() == 0 {
        Seq::empty()
    } else if p(v.last()) {
        ids_where(v.drop_last(), p).push(v.last().target_id)
    } else {
        ids_where(v.drop_last(), p)
    }
}

/// Shown to users, and initialised.
pub open spec fn usable(a: AttachedView) -> bool {
    exposed(a.info) && a.status == InitStatus::Success
}

/// A page.
pub open spec fn is_page(a: AttachedView) -> bool {
    a.info.target_type == TargetType::Page
}

/// The ids of a list of strings.
pub open spec fn ids_view(v: Seq<String>) -> Seq<Seq<char>> {
    v.map_values(|c: String| c@)
}

/// The strings other than `x`, in order.
fn without(v: &Vec<String>, x: &str) -> (r: Vec<String>)
    ensures
        ids_view(r@) == ids_view(v@).filter(|c: Seq<char>| c != x@),
{
    let mut r: Vec<String> = Vec::new();
    let mut i: usize = 0;
    proof {
        assert(ids_view(v@.take(0)).filter(|c: Seq<char>| c != x@) =~= Seq::<Seq<char>>::empty());
        assert(ids_view(r@) =~= Seq::<Seq<char>>::empty());
    }
    while i < v.len()
        invariant
            i <= v.len(),
            ids_view(r@) == ids_view(v@.take(i as int)).filter(|c: Seq<char>| c != x@),
        decreases v.len() - i,
    {
        let ghost before = r@;
        proof {
            assert(ids_view(v@.take(i + 1)) =~= ids_view(v@.take(i as int)).push(v@[i as int]@));
            vstd::seq_lib::lemma_seq_skip_nothing::<Seq<char>>(Seq::empty(), 0);
            ids_view(v@.take(i as int)).lemma_filter_push(v@[i as int]@, |c: Seq<char>| c != x@);
        }
        if !str_eq(v[i].as_str(), x) {
            r.push(v[i].clone());
            proof {
                assert(ids_view(r@) =~= ids_view(before).push(v@[i as int]@));
            }
        }
        i = i + 1;
    }
    proof {
        assert(v@.take(i as int) =~= v@);
    }
    r
}

/// The registry of targets that the discovery events keep.
#[derive(Debug)]
pub struct TargetRegistry {
    discovered: Vec<DiscoveredTarget>,
    attached: Vec<AttachedTarget>,
    sessions: Vec<SessionTarget>,
    init_pending: Vec<String>,
}

impl TargetRegistry {
    pub closed spec fn view(&self) -> RegistryView {
        RegistryView {
            discovered: as_map(self.discovered@),
            attached: attached_views(self.attached@),
            sessions: as_map(self.sessions@),
            init_pending: key_set(self.init_pending@),
        }
    }

    /// No id is listed twice.
    pub closed spec fn wf(&self) -> bool {
        &&& keys_distinct(self.discovered@)
        &&& keys_distinct(self.attached@)
        &&& keys_distinct(self.sessions@)
        &&& keys_distinct(self.init_pending@)
    }

    /// An empty registry.
    pub fn new() -> (r: TargetRegistry)
        ensures
            r.wf(),
            r.view().discovered == Map::<Seq<char>, TargetInfoView>::empty(),
            r.view().attached == Seq::<AttachedView>::empty(),
            r.view().sessions == Map::<Seq<char>, Seq<char>>::empty(),
            r.view().init_pending == Set::<Seq<char>>::empty(),
    {
        let r = TargetRegistry {
            discovered: Vec::new(),
            attached: Vec::new(),
            sessions: Vec::new(),
            init_pending: Vec::new(),
        };
        proof {
            lemma_empty(r.discovered@);
            lemma_empty(r.sessions@);
            lemma_empty(r.init_pending@);
            assert(attached_views(r.attached@) =~= Seq::<AttachedView>::empty());
        }
        r
    }

    /// Whether no page or tab is awaited any more.
    pub fn initial_targets_done(&self) -> (r: bool)
        requires
            self.wf(),
        ensures
            r == (self.view().init_pending.len() == 0),
    {
        proof {
            lemma_strings_len(self.init_pending@);
        }
        self.init_pending.len() == 0
    }

    /// The attached target with this id.
    pub fn get_attached(&self, target_id: &str) -> (r: Option<&AttachedTarget>)
        requires
            self.wf(),
        ensures
            match r {
                Some(a) => av_find(self.view().attached, target_id@) is Some && attached_view(*a)
                    == self.view().attached[av_find(self.view().attached, target_id@)->0],
                None => av_find(self.view().attached, target_id@) is None,
            },
    {
        match find_attached(&self.attached, target_id) {
            Some(k) => Some(&self.attached[k]),
            None => None,
        }
    }

    /// The ids of the attached targets that are shown to users and have
    /// initialised, in the order they were attached.
    pub fn exposed_targets(&self) -> (r: Vec<String>)
        ensures
            ids_view(r@) == ids_where(self.view().attached, |a: AttachedView| usable(a)),
    {
        let ghost p = |a: AttachedView| usable(a);
        let mut r: Vec<String> = Vec::new();
        let mut i: usize = 0;
        proof {
            assert(ids_view(r@) =~= Seq::<Seq<char>>::empty());
            assert(attached_views(self.attached@.take(0)) =~= Seq::<AttachedView>::empty());
        }
        while i < self.attached.len()
            invariant
                i <= self.attached.len(),
                ids_view(r@) == ids_where(attached_views(self.attached@.take(i as int)), p),
                p == (|a: AttachedView| usable(a)),
            decreases self.attached.len() - i,
        {
            let ghost before = r@;
            let a = &self.attached[i];
            proof {
                let next = attached_views(self.attached@.take(i + 1));
                assert(next.drop_last() =~= attached_views(self.attached@.take(i as int)));
                assert(next.last() == attached_view(*a));
                assert(ids_where(next, p) == if p(attached_view(*a)) {
                    ids_where(attached_views(self.attached@.take(i as int)), p).push(a.target_id@)
                } else {
                    ids_where(attached_views(self.attached@.take(i as int)), p)
                });
            }
            if is_target_exposed(&a.info) && a.status == InitStatus::Success {
                r.push(a.target_id.clone());
                proof {
                    assert(ids_view(r@) =~= ids_view(before).push(a.target_id@));
                }
            }
            i = i + 1;
        }
        proof {
            assert(self.attached@.take(i as int) =~= self.attached@);
        }
        r
    }

    /// The ids of the attached pages, in the order they were attached.
    pub fn page_ids(&self) -> (r: Vec<String>)
        ensures
            ids_view(r@) == ids_where(self.view().attached, |a: AttachedView| is_page(a)),
    {
        let ghost p = |a: AttachedView| is_page(a);
        let mut r: Vec<String> = Vec::new();
        let mut i: usize = 0;
        proof {
            assert(ids_view(r@) =~= Seq::<Seq<char>>::empty());
            assert(attached_views(self.attached@.take(0)) =~= Seq::<AttachedView>::empty());
        }
        while i < self.attached.len()
            invariant
                i <= self.attached.len(),
                ids_view(r@) == ids_where(attached_views(self.attached@.take(i as int)), p),
                p == (|a: AttachedView| is_page(a)),
            decreases self.attached.len() - i,
        {
            let ghost before = r@;
            let a = &self.attached[i];
            proof {
                let next = attached_views(self.attached@.take(i + 1));
                assert(next.drop_last() =~= attached_views(self.attached@.take(i as int)));
                assert(next.last() == attached_view(*a));
                assert(ids_where(next, p) == if p(attached_view(*a)) {
                    ids_where(attached_views(self.attached@.take(i as int)), p).push(a.target_id@)
                } else {
                    ids_where(attached_views(self.attached@.take(i as int)), p)
                });
            }
            if a.info.target_type == TargetType::Page {
                r.push(a.target_id.clone());
                proof {
                    assert(ids_view(r@) =~= ids_view(before).push(a.target_id@));
                }
            }
            i = i + 1;
        }
        proof {
            assert(self.attached@.take(i as int) =~= self.attached@);
        }
        r
    }

    /// The metadata of the discovered targets: each one once.
    pub fn discovered_targets(&self) -> (r: Vec<TargetInfo>)
        requires
            self.wf(),
        ensures
            forall|i: int| 0 <= i < r@.len() ==> #[trigger] self.view().discovered.contains_key(
                info_view(r@[i]).target_id,
            ) && self.view().discovered[info_view(r@[i]).target_id] == info_view(r@[i]),
            forall|id: Seq<char>| #[trigger] self.view().discovered.contains_key(id) ==> exists|i: int|
                0 <= i < r@.len() && #[trigger] r@[i].target_id@ == id,
            forall|i: int, j: int| 0 <= i < r@.len() && 0 <= j < r@.len() && i != j ==> #[trigger] r@[i].target_id@
                != #[trigger] r@[j].target_id@,
    {
        let mut r: Vec<TargetInfo> = Vec::new();
        let mut i: usize = 0;
        while i < self.discovered.len()
            invariant
                i <= self.discovered.len(),
                r@.len() == i,
                self.wf(),
                forall|j: int| 0 <= j < i ==> info_view(#[trigger] r@[j]) == info_view(self.discovered@[j].info),
                forall|j: int| 0 <= j < i ==> #[trigger] r@[j].target_id@ == self.discovered@[j].info.target_id@,
            decreases self.discovered.len() - i,
        {
            r.push(self.discovered[i].info.clone_info());
            i = i + 1;
        }
        proof {
            let d = self.discovered@;
            assert forall|j: int| 0 <= j < r@.len() implies #[trigger] self.view().discovered.contains_key(
                info_view(r@[j]).target_id,
            ) && self.view().discovered[info_view(r@[j]).target_id] == info_view(r@[j]) by {
                lemma_lookup(d, j);
                assert(d[j].entry_key() == info_view(r@[j]).target_id);
            }
            assert forall|id: Seq<char>| #[trigger] self.view().discovered.contains_key(id) implies exists|
                i: int,
            | 0 <= i < r@.len() && #[trigger] r@[i].target_id@ == id by {
                let k = key_index(d, id);
                assert(d[k].entry_key() == id);
                assert(r@[k].target_id@ == id);
            }
            assert forall|i: int, j: int|
                0 <= i < r@.len() && 0 <= j < r@.len() && i != j implies #[trigger] r@[i].target_id@
                != #[trigger] r@[j].target_id@ by {
                assert(d[i].entry_key() != d[j].entry_key());
            }
        }
        r
    }
}

/// A copy of an attached target with other children.
fn with_children(a: &AttachedTarget, children: Vec<String>) -> (r: AttachedTarget)
    ensures
        attached_view(r) == (AttachedView { children: ids_view(children@), ..attached_view(*a) }),
{
    AttachedTarget {
        target_id: a.target_id.clone(),
        session_id: a.session_id.clone(),
        info: a.info.clone_info(),
        status: a.status,
        children,
    }
}

/// A copy of an attached target with another status.
fn with_status(a: &AttachedTarget, status: InitStatus) -> (r: AttachedTarget)
    ensures
        attached_view(r) == (AttachedView { status, ..attached_view(*a) }),
{
    AttachedTarget {
        target_id: a.target_id.clone(),
        session_id: a.session_id.clone(),
        info: a.info.clone_info(),
        status,
        children: clone_strings(&a.children),
    }
}

/// The list of actions with one more.
fn push_action(v: &mut Vec<TargetAction>, a: TargetAction)
    ensures
        action_views(final(v)@) == action_views(old(v)@).push(action_view(a)),
{
    v.push(a);
    proof {
        assert(action_views(v@) =~= action_views(old(v)@).push(action_view(a)));
    }
}

impl TargetRegistry {
    fn on_created(&mut self, params: &JsonValue) -> (r: Vec<TargetAction>)
        requires
            old(self).wf(),
        ensures
            final(self).wf(),
            (final(self).view(), action_views(r@)) == on_created(old(self).view(), *params),
    {
        let mut r: Vec<TargetAction> = Vec::new();
        proof {
            assert(action_views(r@) =~= Seq::<ActionView>::empty());
        }
        match parse_target_info(params) {
            Some(info) => {
                if info.target_type == TargetType::Page || info.target_type == TargetType::Tab {
                    insert_entry(&mut self.init_pending, info.target_id.clone());
                }
                let announced = info.clone_info();
                insert_entry(&mut self.discovered, DiscoveredTarget { info });
                push_action(&mut r, TargetAction::Discovered(announced));
                proof {
                    assert(action_views(r@) =~= seq![ActionView::Discovered(info_view(announced))]);
                }
                r
            },
            None => r,
        }
    }

    fn on_info_changed(&mut self, params: &JsonValue) -> (r: Vec<TargetAction>)
        requires
            old(self).wf(),
        ensures
            final(self).wf(),
            (final(self).view(), action_views(r@)) == on_info_changed(old(self).view(), *params),
    {
        let mut r: Vec<TargetAction> = Vec::new();
        proof {
            assert(action_views(r@) =~= Seq::<ActionView>::empty());
        }
        match parse_target_info(params) {
            Some(n) => {
                let id = n.target_id.clone();
                let new_url = n.url.clone();
                let previous = match find(&self.discovered, id.as_str()) {
                    Some(k) => {
                        proof {
                            lemma_lookup(self.discovered@, k as int);
                        }
                        self.discovered[k].info.url.clone()
                    },
                    None => String::new(),
                };
                insert_entry(&mut self.discovered, DiscoveredTarget { info: n.clone_info() });
                match find_attached(&self.attached, id.as_str()) {
                    Some(k) => {
                        let status = check_if_initialized(self.attached[k].status, &n);
                        let rec = AttachedTarget {
                            target_id: self.attached[k].target_id.clone(),
                            session_id: self.attached[k].session_id.clone(),
                            info: n,
                            status,
                            children: clone_strings(&self.attached[k].children),
                        };
                        proof {
                            assert(self.attached@[k as int].target_id@ == id@);
                        }
                        replace_attached(&mut self.attached, k, rec);
                        if status == InitStatus::Success && !str_eq(previous.as_str(), new_url.as_str()) {
                            push_action(&mut r, TargetAction::Changed { target_id: id, previous_url: previous });
                        }
                        r
                    },
                    None => r,
                }
            },
            None => r,
        }
    }

    fn on_destroyed(&mut self, params: &JsonValue) -> (r: Vec<TargetAction>)
        requires
            old(self).wf(),
        ensures
            final(self).wf(),
            (final(self).view(), action_views(r@)) == on_destroyed(old(self).view(), *params),
    {
        let mut r: Vec<TargetAction> = Vec::new();
        proof {
            assert(action_views(r@) =~= Seq::<ActionView>::empty());
        }
        match string_of(get(params, "targetId")) {
            Some(id) => {
                remove_key(&mut self.discovered, id.as_str());
                let awaited = remove_key(&mut self.init_pending, id.as_str()).is_some();
                let gone = remove_attached(&mut self.attached, id.as_str());
                match &gone {
                    Some(a) => {
                        remove_key(&mut self.sessions, a.session_id.as_str());
                    },
                    None => {},
                }
                let ghost first = action_views(r@);
                if awaited {
                    push_action(&mut r, TargetAction::InitDone);
                }
                proof {
                    assert(action_views(r@) =~= init_done_if(awaited));
                }
                if gone.is_some() {
                    push_action(&mut r, TargetAction::Gone { target_id: id.clone() });
                }
                let ghost second = action_views(r@);
                push_action(&mut r, TargetAction::PluginTargetDestroyed { target_id: id });
                proof {
                    assert(action_views(r@) =~= init_done_if(awaited) + (if gone is Some {
                        seq![ActionView::Gone(id@)]
                    } else {
                        Seq::empty()
                    }) + seq![ActionView::PluginTargetDestroyed(id@)]);
                }
                r
            },
            None => r,
        }
    }

    fn on_attached(&mut self, parent: Option<&str>, params: &JsonValue) -> (r: Vec<TargetAction>)
        requires
            old(self).wf(),
        ensures
            final(self).wf(),
            (final(self).view(), action_views(r@)) == on_attached(
                old(self).view(),
                match parent {
                    Some(p) => Some(p@),
                    None => None,
                },
                *params,
            ),
    {
        let mut r: Vec<TargetAction> = Vec::new();
        proof {
            assert(action_views(r@) =~= Seq::<ActionView>::empty());
        }
        let sid = string_of(get(params, "sessionId"));
        let info = parse_target_info(params);
        match (sid, info) {
            (Some(sid), Some(i)) => {
                let ghost s0 = self.view();
                let id = i.target_id.clone();
                let url = i.url.clone();
                let kind = i.target_type;
                let fresh = AttachedTarget {
                    target_id: id.clone(),
                    session_id: sid.clone(),
                    info: i,
                    status: InitStatus::Pending,
                    children: Vec::new(),
                };
                proof {
                    assert(ids_view(fresh.children@) =~= Seq::<Seq<char>>::empty());
                }
                put_attached(&mut self.attached, fresh);
                let ghost a1 = attached_views(self.attached@);
                proof {
                    let v = s0.attached;
                    match av_find(v, id@) {
                        Some(w) => {
                            assert(a1[w].target_id == id@);
                        },
                        None => {
                            assert(a1[v.len() as int].target_id == id@);
                        },
                    }
                }
                insert_entry(&mut self.sessions, SessionTarget { session_id: sid.clone(), target_id: id.clone() });
                let awaited = remove_key(&mut self.init_pending, id.as_str()).is_some();
                match parent {
                    Some(p) => match find(&self.sessions, p) {
                        Some(j) => {
                            proof {
                                lemma_lookup(self.sessions@, j as int);
                            }
                            match find_attached(&self.attached, self.sessions[j].target_id.as_str()) {
                                Some(k) => {
                                    let mut children = clone_strings(&self.attached[k].children);
                                    children.push(id.clone());
                                    let rec = with_children(&self.attached[k], children);
                                    proof {
                                        assert(ids_view(rec.children@) =~= ids_view(self.attached@[k as int].children@).push(id@));
                                    }
                                    replace_attached(&mut self.attached, k, rec);
                                },
                                None => {},
                            }
                        },
                        None => {},
                    },
                    None => {},
                }
                let ghost a2 = attached_views(self.attached@);
                proof {
                    let w = choose|w: int| 0 <= w < a1.len() && #[trigger] a1[w].target_id == id@;
                    assert(a2[w].target_id == id@);
                }
                match find_attached(&self.attached, id.as_str()) {
                    Some(k) => {
                        let status = check_if_initialized(self.attached[k].status, &self.attached[k].info);
                        let rec = with_status(&self.attached[k], status);
                        replace_attached(&mut self.attached, k, rec);
                    },
                    None => {},
                }
                if awaited {
                    push_action(&mut r, TargetAction::InitDone);
                }
                let ghost first = action_views(r@);
                push_action(&mut r, TargetAction::Available { target_id: id.clone() });
                push_action(&mut r, TargetAction::PluginTargetCreated { target_id: id.clone(), url });
                if kind == TargetType::ServiceWorker {
                    push_action(&mut r, TargetAction::ResumeAndDetach { session_id: sid });
                } else {
                    push_action(&mut r, TargetAction::AutoAttachAndResume { session_id: sid });
                }
                proof {
                    assert(first =~= init_done_if(s0.init_pending.contains(id@)));
                }
                r
            },
            _ => r,
        }
    }

    fn on_detached(&mut self, parent: Option<&str>, params: &JsonValue) -> (r: Vec<TargetAction>)
        requires
            old(self).wf(),
        ensures
            final(self).wf(),
            (final(self).view(), action_views(r@)) == on_detached(
                old(self).view(),
                match parent {
                    Some(p) => Some(p@),
                    None => None,
                },
                *params,
            ),
    {
        let mut r: Vec<TargetAction> = Vec::new();
        proof {
            assert(action_views(r@) =~= Seq::<ActionView>::empty());
        }
        match string_of(get(params, "sessionId")) {
            Some(sid) => match remove_key(&mut self.sessions, sid.as_str()) {
                Some(st) => {
                    let id = st.target_id;
                    match parent {
                        Some(p) => match find(&self.sessions, p) {
                            Some(j) => {
                                proof {
                                    lemma_lookup(self.sessions@, j as int);
                                }
                                match find_attached(&self.attached, self.sessions[j].target_id.as_str()) {
                                    Some(k) => {
                                        let children = without(&self.attached[k].children, id.as_str());
                                        let rec = with_children(&self.attached[k], children);
                                        replace_attached(&mut self.attached, k, rec);
                                    },
                                    None => {},
                                }
                            },
                            None => {},
                        },
                        None => {},
                    }
                    let ghost a1 = attached_views(self.attached@);
                    proof {
                        let pv = match parent {
                            Some(p) => Some(p@),
                            None => None,
                        };
                        assert(as_map(self.sessions@) == as_map(old(self).sessions@).remove(sid@));
                        assert(id@ == as_map(old(self).sessions@)[sid@]);
                        assert(a1 == drop_child(attached_views(old(self).attached@), as_map(self.sessions@), pv, id@));
                    }
                    let gone = remove_attached(&mut self.attached, id.as_str());
                    let ghost gid = id@;
                    if gone.is_some() {
                        push_action(&mut r, TargetAction::Gone { target_id: id });
                        proof {
                            assert(action_views(r@) =~= seq![ActionView::Gone(gid)]);
                        }
                    }
                    proof {
                        assert(attached_views(self.attached@) == av_remove(a1, gid));
                    }
                    r
                },
                None => {
                    proof {
                        assert(as_map(self.sessions@) =~= as_map(old(self).sessions@));
                    }
                    r
                },
            },
            None => r,
        }
    }

    /// Handle a discovery event (its method and parameters, and the session
    /// it came in, if any): update the registry and say what to do.
    pub fn handle_event(&mut self, parent: Option<&str>, method: &str, params: &JsonValue) -> (r: Vec<
        TargetAction,
    >)
        requires
            old(self).wf(),
        ensures
            final(self).wf(),
            (final(self).view(), action_views(r@)) == registry_step(
                old(self).view(),
                match parent {
                    Some(p) => Some(p@),
                    None => None,
                },
                method@,
                *params,
            ),
    {
        if str_eq(method, "Target.targetCreated") {
            self.on_created(params)
        } else if str_eq(method, "Target.targetInfoChanged") {
            self.on_info_changed(params)
        } else if str_eq(method, "Target.targetDestroyed") {
            self.on_destroyed(params)
        } else if str_eq(method, "Target.attachedToTarget") {
            self.on_attached(parent, params)
        } else if str_eq(method, "Target.detachedFromTarget") {
            self.on_detached(parent, params)
        } else {
            let r: Vec<TargetAction> = Vec::new();
            proof {
                assert(action_views(r@) =~= Seq::<ActionView>::empty());
            }
            r
        }
    }
}

/// A keyed vector of strings has as many keys as entries.
proof fn lemma_strings_len(s: Seq<String>)
    requires
        keys_distinct(s),
    ensures
        key_set(s).finite(),
        key_set(s).len() == s.len(),
    decreases s.len(),
{
    if s.len() == 0 {
        lemma_empty(s);
    } else {
        let t = s.drop_last();
        let k = s.last().entry_key();
        assert(keys_distinct(t)) by {
            assert forall|i: int, j: int|
                0 <= i < t.len() && 0 <= j < t.len() && i != j implies #[trigger] t[i].entry_key()
                != #[trigger] t[j].entry_key() by {
                assert(t[i] == s[i] && t[j] == s[j]);
            }
        }
        lemma_strings_len(t);
        assert(!key_set(t).contains(k)) by {
            if has_key(t, k) {
                let i = choose|i: int| 0 <= i < t.len() && #[trigger] t[i].entry_key() == k;
                assert(s[i].entry_key() == s[s.len() - 1].entry_key());
            }
        }
        assert(key_set(s) =~= key_set(t).insert(k)) by {
            assert forall|x: Seq<char>| key_set(s).contains(x) implies #[trigger] key_set(t).insert(
                k,
            ).contains(x) by {
                let i = choose|i: int| 0 <= i < s.len() && #[trigger] s[i].entry_key() == x;
                if i < s.len() - 1 {
                    assert(t[i].entry_key() == x);
                }
            }
            assert forall|x: Seq<char>| key_set(t).insert(k).contains(x) implies #[trigger] key_set(
                s,
            ).contains(x) by {
                if x == k {
                    assert(s[s.len() - 1].entry_key() == x);
                } else {
                    let i = choose|i: int| 0 <= i < t.len() && #[trigger] t[i].entry_key() == x;
                    assert(s[i].entry_key() == x);
                }
            }
        }
    }
}

} // verus!
