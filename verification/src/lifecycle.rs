//! The decisions of a navigation wait: which lifecycle events each frame
//! has seen, whether the navigation committed and whether its main
//! document response arrived.  The waiting loop itself (events, timeouts)
//! runs outside; it feeds each event to [`LifecycleWatcher::handle_event`]
//! and asks [`LifecycleWatcher::check_complete`].
use vstd::prelude::*;

use crate::json::{as_bool, as_u16, bool_of, field, field_of, get, get_opt, str_of, string_of, u16_of, JsonValue};

use crate::frame::{opt_str, single_key, FrameState};
use crate::graph::{reach, reachable, GraphNode};
use crate::keyed::{
    as_map, find, has_key, insert_entry, key_set, keys_distinct, lemma_empty, lemma_lookup,
    lemma_push, lemma_update, str_eq, KeyedEntry,
};
use crate::text::{eq_ascii_ci, eq_ignore_ascii_case};
use crate::types::{opt_response, NavigationResponse, NavigationResponseView, NavigationResult, WaitUntil};

verus! {

/// The protocol's lifecycle event name for a wait condition.
pub open spec fn protocol_name(w: WaitUntil) -> Seq<char> {
    match w {
        WaitUntil::Load => "load"@,
        WaitUntil::DomContentLoaded => "DOMContentLoaded"@,
        WaitUntil::NetworkIdle0 => "networkIdle"@,
        WaitUntil::NetworkIdle2 => "networkAlmostIdle"@,
    }
}

/// Maps each expected `WaitUntil` to the lifecycle event name of the protocol.
pub fn wait_until_to_protocol(w: &WaitUntil) -> (r: &'static str)
    ensures
        r@ == protocol_name(*w),
{
    match w {
        WaitUntil::Load => "load",
        WaitUntil::DomContentLoaded => "DOMContentLoaded",
        WaitUntil::NetworkIdle0 => "networkIdle",
        WaitUntil::NetworkIdle2 => "networkAlmostIdle",
    }
}

/// Options of one navigation wait.
#[derive(Debug)]
pub struct LifecycleWatchOptions {
    pub wait_until: Vec<WaitUntil>,
    pub timeout: std::time::Duration,
    pub expect_new_document: Option<bool>,
}

/// Per-frame lifecycle tracking of a watcher.
#[derive(Debug)]
pub struct FrameLifecycle {
    pub id: String,
    pub lifecycle_events: Vec<String>,
    pub has_started_loading: bool,
    pub children: Vec<String>,
}

/// What a [`FrameLifecycle`] stands for.
pub struct FrameLifecycleView {
    pub lifecycle_events: Set<Seq<char>>,
    pub has_started_loading: bool,
    pub children: Set<Seq<char>>,
}

impl KeyedEntry for FrameLifecycle {
    type Val = FrameLifecycleView;

    open spec fn entry_key(&self) -> Seq<char> {
        self.id@
    }

    open spec fn entry_val(&self) -> FrameLifecycleView {
        FrameLifecycleView {
            lifecycle_events: key_set(self.lifecycle_events@),
            has_started_loading: self.has_started_loading,
            children: key_set(self.children@),
        }
    }

    fn key_str(&self) -> (r: &str) {
        self.id.as_str()
    }
}

impl GraphNode for FrameLifecycle {
    open spec fn val_children(v: FrameLifecycleView) -> Set<Seq<char>> {
        v.children
    }

    open spec fn val_started(v: FrameLifecycleView) -> bool {
        v.has_started_loading
    }

    fn child_ids(&self) -> (r: &Vec<String>) {
        &self.children
    }

    fn started(&self) -> (b: bool) {
        self.has_started_loading
    }
}

impl FrameLifecycle {
    pub open spec fn wf(&self) -> bool {
        keys_distinct(self.lifecycle_events@) && keys_distinct(self.children@)
    }

    fn empty(id: String) -> (r: FrameLifecycle)
        ensures
            r.wf(),
            r.id@ == id@,
            r.entry_val() == empty_lifecycle(),
    {
        let r = FrameLifecycle {
            id,
            lifecycle_events: Vec::new(),
            has_started_loading: false,
            children: Vec::new(),
        };
        proof {
            lemma_empty(r.lifecycle_events@);
            lemma_empty(r.children@);
        }
        r
    }

    fn copy(&self) -> (r: FrameLifecycle)
        ensures
            r.id@ == self.id@,
            r.lifecycle_events@ == self.lifecycle_events@,
            r.children@ == self.children@,
            r.has_started_loading == self.has_started_loading,
    {
        FrameLifecycle {
            id: self.id.clone(),
            lifecycle_events: crate::frame::clone_strings(&self.lifecycle_events),
            has_started_loading: self.has_started_loading,
            children: crate::frame::clone_strings(&self.children),
        }
    }
}

/// A frame the watcher knows nothing about yet.
pub open spec fn empty_lifecycle() -> FrameLifecycleView {
    FrameLifecycleView {
        lifecycle_events: Set::empty(),
        has_started_loading: false,
        children: Set::empty(),
    }
}

/// Protocol events a watcher reads, with the fields it reads.  A field the
/// event did not carry is `None`.
#[derive(Debug)]
pub enum WatchEvent {
    /// `Page.frameAttached`.
    FrameAttached { frame_id: Option<String>, parent_frame_id: Option<String> },
    /// `Page.frameDetached`.
    FrameDetached { frame_id: Option<String> },
    /// `Page.frameNavigated`; `frame_id` is the navigated frame's id.
    FrameNavigated { frame_id: Option<String> },
    /// `Page.navigatedWithinDocument`.
    NavigatedWithinDocument { frame_id: Option<String> },
    /// `Page.frameStartedLoading`.
    FrameStartedLoading { frame_id: Option<String> },
    /// `Page.frameStoppedLoading`.
    FrameStoppedLoading,
    /// `Page.lifecycleEvent`.
    LifecycleEvent { frame_id: Option<String>, name: Option<String> },
    /// `Network.requestWillBeSent`; `resource_type` is the `type` field.
    RequestWillBeSent {
        resource_type: Option<String>,
        frame_id: Option<String>,
        request_id: Option<String>,
    },
    /// `Network.responseReceived`.
    ResponseReceived {
        request_id: Option<String>,
        response_url: Option<String>,
        document_url: Option<String>,
        status: Option<u16>,
        from_disk_cache: Option<bool>,
        from_service_worker: Option<bool>,
    },
    /// `Network.loadingFinished` or `Network.loadingFailed`.
    LoadingFinished { request_id: Option<String> },
    /// Any other event.
    Other,
}

/// The state of one navigation wait.
#[derive(Debug)]
pub struct LifecycleWatcher {
    pub main_frame_id: String,
    pub options: LifecycleWatchOptions,
    pub saw_same_document_navigation: bool,
    pub saw_new_document_navigation: bool,
    pub navigating_frame_detached: bool,
    pub navigation_request_id: Option<String>,
    pub navigation_response: Option<NavigationResponse>,
    pub navigation_response_received: bool,
    /// Per-frame lifecycle state, no frame twice.
    pub frame_lifecycles: Vec<FrameLifecycle>,
}

/// What a [`LifecycleWatcher`] stands for.
pub struct WatcherView {
    pub main_frame_id: Seq<char>,
    pub wait_until: Seq<WaitUntil>,
    pub expect_new_document: Option<bool>,
    pub saw_same_document_navigation: bool,
    pub saw_new_document_navigation: bool,
    pub navigating_frame_detached: bool,
    pub navigation_request_id: Option<Seq<char>>,
    pub navigation_response: Option<NavigationResponseView>,
    pub navigation_response_received: bool,
    pub frames: Map<Seq<char>, FrameLifecycleView>,
}

impl View for LifecycleWatcher {
    type V = WatcherView;

    open spec fn view(&self) -> WatcherView {
        WatcherView {
            main_frame_id: self.main_frame_id@,
            wait_until: self.options.wait_until@,
            expect_new_document: self.options.expect_new_document,
            saw_same_document_navigation: self.saw_same_document_navigation,
            saw_new_document_navigation: self.saw_new_document_navigation,
            navigating_frame_detached: self.navigating_frame_detached,
            navigation_request_id: opt_str(self.navigation_request_id),
            navigation_response: opt_response(self.navigation_response),
            navigation_response_received: self.navigation_response_received,
            frames: as_map(self.frame_lifecycles@),
        }
    }
}

/// The frame map with an empty entry for `f` if it had none.
pub open spec fn or_default(
    frames: Map<Seq<char>, FrameLifecycleView>,
    f: Seq<char>,
) -> Map<Seq<char>, FrameLifecycleView> {
    if frames.contains_key(f) {
        frames
    } else {
        frames.insert(f, empty_lifecycle())
    }
}

/// The frames reached from `roots` through child links of present frames.
pub open spec fn watched_subtree(
    frames: Map<Seq<char>, FrameLifecycleView>,
    roots: Set<Seq<char>>,
) -> Set<Seq<char>> {
    reach::<FrameLifecycle>(frames, roots, false)
}

/// `frames` without the frames in `removal`, which every remaining frame
/// also drops from its children.
pub open spec fn without_watched(
    frames: Map<Seq<char>, FrameLifecycleView>,
    removal: Set<Seq<char>>,
) -> Map<Seq<char>, FrameLifecycleView> {
    Map::new(
        |k: Seq<char>| frames.contains_key(k) && !removal.contains(k),
        |k: Seq<char>|
            FrameLifecycleView { children: frames[k].children.difference(removal), ..frames[k] },
    )
}

/// Whether `request_id` is the navigation request being tracked.
pub open spec fn matches_navigation(v: WatcherView, request_id: Option<String>) -> bool {
    request_id is Some && opt_str(request_id) == v.navigation_request_id
}

/// The characters of `o`, or the empty string.
pub open spec fn str_or_empty(o: Option<Seq<char>>) -> Seq<char> {
    match o {
        Some(s) => s,
        None => Seq::empty(),
    }
}

/// The watcher after one event.
pub open spec fn apply_watch(v: WatcherView, e: WatchEvent) -> WatcherView {
    match e {
        WatchEvent::FrameAttached { frame_id, parent_frame_id } => match (frame_id, parent_frame_id) {
            (Some(f), Some(p)) => {
                let frames1 = or_default(v.frames, f@);
                let frames2 = if frames1.contains_key(p@) {
                    frames1.insert(
                        p@,
                        FrameLifecycleView { children: frames1[p@].children.insert(f@), ..frames1[p@] },
                    )
                } else {
                    frames1
                };
                WatcherView { frames: frames2, ..v }
            },
            _ => v,
        },
        WatchEvent::FrameDetached { frame_id } => {
            let detached = opt_str(frame_id) == Some(v.main_frame_id);
            let frames = match frame_id {
                Some(f) => without_watched(v.frames, watched_subtree(v.frames, set![f@])),
                None => v.frames,
            };
            WatcherView {
                navigating_frame_detached: v.navigating_frame_detached || detached,
                frames: frames,
                ..v
            }
        },
        WatchEvent::FrameNavigated { frame_id } => match frame_id {
            Some(f) => {
                let is_main = f@ == v.main_frame_id;
                let frames1 = if is_main && v.frames.contains_key(f@) {
                    without_watched(v.frames, watched_subtree(v.frames, v.frames[f@].children))
                } else {
                    v.frames
                };
                WatcherView {
                    saw_new_document_navigation: v.saw_new_document_navigation || is_main,
                    frames: or_default(frames1, f@),
                    ..v
                }
            },
            None => v,
        },
        WatchEvent::NavigatedWithinDocument { frame_id } => WatcherView {
            saw_same_document_navigation: v.saw_same_document_navigation || opt_str(frame_id)
                == Some(v.main_frame_id),
            ..v
        },
        WatchEvent::FrameStartedLoading { frame_id } => match frame_id {
            Some(f) => {
                let frames1 = or_default(v.frames, f@);
                WatcherView {
                    frames: frames1.insert(
                        f@,
                        FrameLifecycleView { has_started_loading: true, ..frames1[f@] },
                    ),
                    ..v
                }
            },
            None => v,
        },
        WatchEvent::FrameStoppedLoading => v,
        WatchEvent::LifecycleEvent { frame_id, name } => match (frame_id, name) {
            (Some(f), Some(n)) => {
                let frames1 = or_default(v.frames, f@);
                let before = if n@ == "init"@ {
                    Set::empty()
                } else {
                    frames1[f@].lifecycle_events
                };
                WatcherView {
                    frames: frames1.insert(
                        f@,
                        FrameLifecycleView { lifecycle_events: before.insert(n@), ..frames1[f@] },
                    ),
                    ..v
                }
            },
            _ => v,
        },
        WatchEvent::RequestWillBeSent { resource_type, frame_id, request_id } => {
            let is_main_document = match resource_type {
                Some(t) => eq_ascii_ci(t@, "document"@),
                None => false,
            } && opt_str(frame_id) == Some(v.main_frame_id);
            if is_main_document && request_id is Some {
                WatcherView {
                    navigation_request_id: opt_str(request_id),
                    navigation_response: None,
                    navigation_response_received: false,
                    ..v
                }
            } else {
                v
            }
        },
        WatchEvent::ResponseReceived {
            request_id,
            response_url,
            document_url,
            status,
            from_disk_cache,
            from_service_worker,
        } => {
            if matches_navigation(v, request_id) {
                WatcherView {
                    navigation_response: Some(
                        NavigationResponseView {
                            request_id: str_or_empty(v.navigation_request_id),
                            url: if response_url is Some {
                                str_or_empty(opt_str(response_url))
                            } else {
                                str_or_empty(opt_str(document_url))
                            },
                            status: status,
                            from_disk_cache: from_disk_cache == Some(true),
                            from_service_worker: from_service_worker == Some(true),
                        },
                    ),
                    ..v
                }
            } else {
                v
            }
        },
        WatchEvent::LoadingFinished { request_id } => {
            if matches_navigation(v, request_id) {
                WatcherView { navigation_response_received: true, ..v }
            } else {
                v
            }
        },
        WatchEvent::Other => v,
    }
}

/// The lifecycle event names a watcher waits for.
pub open spec fn expected_names(wait_until: Seq<WaitUntil>) -> Set<Seq<char>> {
    Set::new(|n: Seq<char>| exists|i: int| 0 <= i < wait_until.len() && #[trigger] protocol_name(wait_until[i]) == n)
}

/// Whether every name of `names` fired on `fid` and on every frame below it
/// that has started loading.
pub open spec fn watched_complete(
    frames: Map<Seq<char>, FrameLifecycleView>,
    fid: Seq<char>,
    names: Set<Seq<char>>,
) -> bool {
    &&& frames.contains_key(fid)
    &&& forall|x: Seq<char>|
        #[trigger] reach::<FrameLifecycle>(frames, set![fid], true).contains(x) ==> names.subset_of(
            frames[x].lifecycle_events,
        )
}

/// The navigation committed in the way the wait expects.
pub open spec fn navigation_committed(v: WatcherView) -> bool {
    match v.expect_new_document {
        Some(true) => v.saw_new_document_navigation,
        Some(false) => v.saw_same_document_navigation,
        None => v.saw_same_document_navigation || v.saw_new_document_navigation,
    }
}

/// Every awaited lifecycle event fired on the main frame and below it.
pub open spec fn lifecycle_conditions_met(v: WatcherView) -> bool {
    v.wait_until.len() == 0 || watched_complete(v.frames, v.main_frame_id, expected_names(v.wait_until))
}

/// The main document's response finished loading, when there is one.
pub open spec fn navigation_response_ready(v: WatcherView) -> bool {
    v.navigation_request_id is Some ==> v.navigation_response_received
}

/// The wait is over.
pub open spec fn watch_complete(v: WatcherView) -> bool {
    navigation_committed(v) && lifecycle_conditions_met(v) && navigation_response_ready(v)
}

impl LifecycleWatcher {
    pub open spec fn wf(&self) -> bool {
        &&& keys_distinct(self.frame_lifecycles@)
        &&& forall|i: int| 0 <= i < self.frame_lifecycles@.len() ==> (#[trigger] self.frame_lifecycles@[i]).wf()
    }

    /// A watcher for a navigation of `main_frame_id`, knowing no frame yet.
    pub fn new(main_frame_id: String, options: LifecycleWatchOptions) -> (r: LifecycleWatcher)
        ensures
            r.wf(),
            r@.main_frame_id == main_frame_id@,
            r@.wait_until == options.wait_until@,
            r@.expect_new_document == options.expect_new_document,
            r.options.timeout == options.timeout,
            !r@.saw_same_document_navigation,
            !r@.saw_new_document_navigation,
            !r@.navigating_frame_detached,
            r@.navigation_request_id is None,
            r@.navigation_response is None,
            !r@.navigation_response_received,
            r@.frames == Map::<Seq<char>, FrameLifecycleView>::empty(),
    {
        let r = LifecycleWatcher {
            main_frame_id,
            options,
            saw_same_document_navigation: false,
            saw_new_document_navigation: false,
            navigating_frame_detached: false,
            navigation_request_id: None,
            navigation_response: None,
            navigation_response_received: false,
            frame_lifecycles: Vec::new(),
        };
        proof {
            lemma_empty(r.frame_lifecycles@);
        }
        r
    }

    /// Change what the wait expects of the navigation.
    pub fn set_expect_new_document(&mut self, expect_new_document: Option<bool>)
        ensures
            final(self)@ == (WatcherView { expect_new_document: expect_new_document, ..old(self)@ }),
            final(self).frame_lifecycles == old(self).frame_lifecycles,
            final(self).options.timeout == old(self).options.timeout,
    {
        self.options.expect_new_document = expect_new_document;
    }

    /// Replace the per-frame state by what the frame tree knows now.
    pub fn seed_from_frames(&mut self, frames: &FrameState)
        requires
            frames.wf(),
        ensures
            final(self).wf(),
            final(self).options.timeout == old(self).options.timeout,
            final(self)@ == (WatcherView {
                frames: Map::new(
                    |k: Seq<char>| frames@.frames.contains_key(k),
                    |k: Seq<char>|
                        FrameLifecycleView {
                            lifecycle_events: frames@.frames[k].lifecycle_events,
                            has_started_loading: frames@.frames[k].has_started_loading,
                            children: frames@.frames[k].child_frames,
                        },
                ),
                ..old(self)@
            }),
    {
        let mut v: Vec<FrameLifecycle> = Vec::new();
        let ghost target = Map::new(
            |k: Seq<char>| frames@.frames.contains_key(k),
            |k: Seq<char>|
                FrameLifecycleView {
                    lifecycle_events: frames@.frames[k].lifecycle_events,
                    has_started_loading: frames@.frames[k].has_started_loading,
                    children: frames@.frames[k].child_frames,
                },
        );
        let mut i: usize = 0;
        proof {
            lemma_empty(v@);
        }
        while i < frames.frames.len()
            invariant
                i <= frames.frames@.len(),
                frames.wf(),
                keys_distinct(v@),
                v@.len() == i,
                target == Map::new(
                    |k: Seq<char>| frames@.frames.contains_key(k),
                    |k: Seq<char>|
                        FrameLifecycleView {
                            lifecycle_events: frames@.frames[k].lifecycle_events,
                            has_started_loading: frames@.frames[k].has_started_loading,
                            children: frames@.frames[k].child_frames,
                        },
                ),
                forall|j: int| 0 <= j < v@.len() ==> (#[trigger] v@[j]).wf(),
                forall|j: int| 0 <= j < i ==> #[trigger] v@[j].id@ == frames.frames@[j].id@,
                forall|j: int|
                    0 <= j < i ==> #[trigger] v@[j].entry_val() == target[frames.frames@[j].id@],
            decreases frames.frames@.len() - i,
        {
            let f = &frames.frames[i];
            let fl = FrameLifecycle {
                id: f.id.clone(),
                lifecycle_events: crate::frame::clone_strings(&f.lifecycle_events),
                has_started_loading: f.has_started_loading,
                children: crate::frame::clone_strings(&f.child_frames),
            };
            proof {
                lemma_lookup(frames.frames@, i as int);
                assert(frames.frames@[i as int].wf());
                assert(fl.entry_val() == target[frames.frames@[i as int].id@]);
                assert(!has_key(v@, fl.id@)) by {
                    if has_key(v@, fl.id@) {
                        let j = choose|j: int| 0 <= j < v@.len() && #[trigger] v@[j].entry_key() == fl.id@;
                        assert(frames.frames@[j].entry_key() == frames.frames@[i as int].entry_key());
                    }
                }
                lemma_push(v@, fl);
            }
            let ghost v0 = v@;
            v.push(fl);
            proof {
                assert forall|j: int| 0 <= j < v@.len() implies (#[trigger] v@[j]).wf() by {
                    if j < v0.len() {
                        assert(v@[j] == v0[j]);
                    }
                }
                assert forall|j: int| 0 <= j < i + 1 implies #[trigger] v@[j].id@ == frames.frames@[j].id@ by {
                    if j < v0.len() {
                        assert(v@[j] == v0[j]);
                    }
                }
                assert forall|j: int| 0 <= j < i + 1 implies #[trigger] v@[j].entry_val() == target[frames.frames@[j].id@] by {
                    if j < v0.len() {
                        assert(v@[j] == v0[j]);
                    }
                }
            }
            i = i + 1;
        }
        proof {
            assert forall|k: Seq<char>| #[trigger] as_map(v@).contains_key(k) <==> target.contains_key(k) by {
                if as_map(v@).contains_key(k) {
                    let j = choose|j: int| 0 <= j < v@.len() && #[trigger] v@[j].entry_key() == k;
                    assert(frames.frames@[j].entry_key() == k);
                }
                if target.contains_key(k) {
                    let j = choose|j: int| 0 <= j < frames.frames@.len() && #[trigger] frames.frames@[j].entry_key() == k;
                    assert(v@[j].entry_key() == k);
                }
            }
            assert forall|k: Seq<char>| #[trigger] as_map(v@).contains_key(k) implies as_map(v@)[k] == target[k] by {
                let j = choose|j: int| 0 <= j < v@.len() && #[trigger] v@[j].entry_key() == k;
                lemma_lookup(v@, j);
            }
            assert(as_map(v@) =~= target);
        }
        self.frame_lifecycles = v;
    }

    /// Replace the entry at `i` by `f`, which has the same id.
    fn replace_at(&mut self, i: usize, f: FrameLifecycle)
        requires
            old(self).wf(),
            f.wf(),
            i < old(self).frame_lifecycles@.len(),
            old(self).frame_lifecycles@[i as int].id@ == f.id@,
        ensures
            final(self).options.timeout == old(self).options.timeout,
            final(self).wf(),
            final(self)@ == (WatcherView {
                frames: old(self)@.frames.insert(f.id@, f.entry_val()),
                ..old(self)@
            }),
    {
        proof {
            lemma_update(self.frame_lifecycles@, i as int, f);
        }
        self.frame_lifecycles.set(i, f);
        assert forall|j: int| 0 <= j < self.frame_lifecycles@.len() implies (#[trigger] self.frame_lifecycles@[j]).wf() by {
            if j != i {
                assert(self.frame_lifecycles@[j] == old(self).frame_lifecycles@[j]);
            }
        }
    }

    /// The position of `fid`, after adding an empty entry for it if it had none.
    fn entry_or_default(&mut self, fid: &String) -> (r: usize)
        requires
            old(self).wf(),
        ensures
            final(self).options.timeout == old(self).options.timeout,
            final(self).wf(),
            r < final(self).frame_lifecycles@.len(),
            final(self).frame_lifecycles@[r as int].id@ == fid@,
            final(self)@ == (WatcherView { frames: or_default(old(self)@.frames, fid@), ..old(self)@ }),
    {
        match find(&self.frame_lifecycles, fid.as_str()) {
            Some(i) => {
                proof {
                    lemma_lookup(self.frame_lifecycles@, i as int);
                }
                i
            },
            None => {
                let f = FrameLifecycle::empty(fid.clone());
                proof {
                    lemma_push(self.frame_lifecycles@, f);
                }
                let ghost v0 = self.frame_lifecycles@;
                self.frame_lifecycles.push(f);
                assert forall|j: int| 0 <= j < self.frame_lifecycles@.len() implies (#[trigger] self.frame_lifecycles@[j]).wf() by {
                    if j < v0.len() {
                        assert(self.frame_lifecycles@[j] == v0[j]);
                    }
                }
                self.frame_lifecycles.len() - 1
            },
        }
    }

    /// Remove the frames reached from `roots` through child links; the
    /// frames that stay drop them from their children.
    fn remove_reached(&mut self, roots: &Vec<String>)
        requires
            old(self).wf(),
        ensures
            final(self).options.timeout == old(self).options.timeout,
            final(self).wf(),
            final(self)@ == (WatcherView {
                frames: without_watched(
                    old(self)@.frames,
                    watched_subtree(old(self)@.frames, key_set(roots@)),
                ),
                ..old(self)@
            }),
    {
        let marks = reachable(&self.frame_lifecycles, roots, false);
        let ghost m = as_map(self.frame_lifecycles@);
        let ghost removal = watched_subtree(m, key_set(roots@));
        let n = self.frame_lifecycles.len();
        let mut kept: Vec<FrameLifecycle> = Vec::new();
        let mut i: usize = 0;
        proof {
            lemma_empty(kept@);
        }
        while i < n
            invariant
                n == self.frame_lifecycles@.len(),
                i <= n,
                self.wf(),
                m == as_map(self.frame_lifecycles@),
                removal == watched_subtree(m, key_set(roots@)),
                marks@.len() == n,
                forall|j: int| 0 <= j < n ==> #[trigger] marks@[j] == removal.contains(self.frame_lifecycles@[j].id@),
                keys_distinct(kept@),
                forall|j: int| 0 <= j < kept@.len() ==> (#[trigger] kept@[j]).wf(),
                forall|k: Seq<char>|
                    #[trigger] as_map(kept@).contains_key(k) <==> (exists|j: int|
                        0 <= j < i && !marks@[j] && #[trigger] self.frame_lifecycles@[j].id@ == k),
                forall|k: Seq<char>|
                    #[trigger] as_map(kept@).contains_key(k) ==> as_map(kept@)[k] == without_watched(
                        m,
                        removal,
                    )[k],
            decreases n - i,
        {
            if !marks[i] {
                let f = &self.frame_lifecycles[i];
                let mut children: Vec<String> = Vec::new();
                let mut c: usize = 0;
                proof {
                    lemma_lookup(self.frame_lifecycles@, i as int);
                    lemma_empty(children@);
                }
                while c < f.children.len()
                    invariant
                        n == self.frame_lifecycles@.len(),
                        i < n,
                        f == self.frame_lifecycles@[i as int],
                        f.wf(),
                        self.wf(),
                        m == as_map(self.frame_lifecycles@),
                        removal == watched_subtree(m, key_set(roots@)),
                        marks@.len() == n,
                        forall|j: int| 0 <= j < n ==> #[trigger] marks@[j] == removal.contains(self.frame_lifecycles@[j].id@),
                        c <= f.children@.len(),
                        keys_distinct(children@),
                        forall|x: Seq<char>|
                            #[trigger] key_set(children@).contains(x) <==> (exists|j: int|
                                0 <= j < c && #[trigger] f.children@[j]@ == x) && !removal.contains(x),
                    decreases f.children@.len() - c,
                {
                    let cid = &f.children[c];
                    let drop = match find(&self.frame_lifecycles, cid.as_str()) {
                        Some(j) => {
                            proof {
                                lemma_lookup(self.frame_lifecycles@, j as int);
                            }
                            marks[j]
                        },
                        None => {
                            proof {
                                if removal.contains(cid@) {
                                    crate::graph::lemma_reach_present::<FrameLifecycle>(
                                        m,
                                        key_set(roots@),
                                        false,
                                        cid@,
                                    );
                                }
                            }
                            false
                        },
                    };
                    assert(drop == removal.contains(cid@));
                    if !drop {
                        let cc = cid.clone();
                        proof {
                            assert(!has_key(children@, cid@)) by {
                                if has_key(children@, cid@) {
                                    assert(key_set(children@).contains(cid@));
                                    let j = choose|j: int| 0 <= j < c && #[trigger] f.children@[j]@ == cid@;
                                    assert(f.children@[j].entry_key() == f.children@[c as int].entry_key());
                                }
                            }
                            lemma_push(children@, cc);
                        }
                        children.push(cc);
                    }
                    proof {
                        assert forall|x: Seq<char>|
                            #[trigger] key_set(children@).contains(x) <==> (exists|j: int|
                                0 <= j < c + 1 && #[trigger] f.children@[j]@ == x) && !removal.contains(x) by {
                            if exists|j: int| 0 <= j < c + 1 && #[trigger] f.children@[j]@ == x {
                                let j = choose|j: int| 0 <= j < c + 1 && #[trigger] f.children@[j]@ == x;
                                if j < c {
                                    assert(exists|j: int| 0 <= j < c && #[trigger] f.children@[j]@ == x);
                                }
                            }
                        }
                    }
                    c = c + 1;
                }
                let mut nf = f.copy();
                nf.children = children;
                proof {
                    assert(key_set(nf.children@) =~= m[f.id@].children.difference(removal)) by {
                        assert forall|x: Seq<char>| key_set(f.children@).contains(x) <==> (exists|j: int|
                            0 <= j < f.children@.len() && #[trigger] f.children@[j]@ == x) by {
                            if key_set(f.children@).contains(x) {
                                let j = choose|j: int| 0 <= j < f.children@.len() && #[trigger] f.children@[j].entry_key() == x;
                                assert(f.children@[j]@ == x);
                            }
                            if exists|j: int| 0 <= j < f.children@.len() && #[trigger] f.children@[j]@ == x {
                                let j = choose|j: int| 0 <= j < f.children@.len() && #[trigger] f.children@[j]@ == x;
                                assert(f.children@[j].entry_key() == x);
                            }
                        }
                    }
                    assert(nf.entry_val() == without_watched(m, removal)[f.id@]);
                    assert(!has_key(kept@, nf.id@)) by {
                        if has_key(kept@, nf.id@) {
                            let jj = choose|jj: int| 0 <= jj < kept@.len() && #[trigger] kept@[jj].entry_key() == nf.id@;
                            lemma_lookup(kept@, jj);
                            let j = choose|j: int| 0 <= j < i && !marks@[j] && #[trigger] self.frame_lifecycles@[j].id@ == nf.id@;
                            assert(self.frame_lifecycles@[j].entry_key() == self.frame_lifecycles@[i as int].entry_key());
                        }
                    }
                    lemma_push(kept@, nf);
                }
                let ghost kept_before = kept@;
                kept.push(nf);
                proof {
                    assert forall|k: Seq<char>|
                        #[trigger] as_map(kept@).contains_key(k) <==> (exists|j: int|
                            0 <= j < i + 1 && !marks@[j] && #[trigger] self.frame_lifecycles@[j].id@ == k) by {
                        if exists|j: int| 0 <= j < i + 1 && !marks@[j] && #[trigger] self.frame_lifecycles@[j].id@ == k {
                            let j = choose|j: int| 0 <= j < i + 1 && !marks@[j] && #[trigger] self.frame_lifecycles@[j].id@ == k;
                            if j < i {
                                assert(as_map(kept_before).contains_key(k));
                            }
                        }
                        if as_map(kept@).contains_key(k) && k != nf.id@ {
                            assert(as_map(kept_before).contains_key(k));
                        }
                    }
                    assert forall|j: int| 0 <= j < kept@.len() implies (#[trigger] kept@[j]).wf() by {
                        if j < kept_before.len() {
                            assert(kept@[j] == kept_before[j]);
                        }
                    }
                }
            } else {
                proof {
                    assert forall|k: Seq<char>|
                        #[trigger] as_map(kept@).contains_key(k) <==> (exists|j: int|
                            0 <= j < i + 1 && !marks@[j] && #[trigger] self.frame_lifecycles@[j].id@ == k) by {
                        if exists|j: int| 0 <= j < i + 1 && !marks@[j] && #[trigger] self.frame_lifecycles@[j].id@ == k {
                            let j = choose|j: int| 0 <= j < i + 1 && !marks@[j] && #[trigger] self.frame_lifecycles@[j].id@ == k;
                            assert(j != i);
                        }
                    }
                }
            }
            i = i + 1;
        }
        proof {
            assert forall|k: Seq<char>| #[trigger] as_map(kept@).contains_key(k) <==> without_watched(
                m,
                removal,
            ).contains_key(k) by {
                if m.contains_key(k) && !removal.contains(k) {
                    let j = choose|j: int| 0 <= j < n && #[trigger] self.frame_lifecycles@[j].entry_key() == k;
                    assert(self.frame_lifecycles@[j].id@ == k);
                }
                if as_map(kept@).contains_key(k) {
                    let j = choose|j: int| 0 <= j < n && !marks@[j] && #[trigger] self.frame_lifecycles@[j].id@ == k;
                    lemma_lookup(self.frame_lifecycles@, j);
                }
            }
            assert(as_map(kept@) =~= without_watched(m, removal));
        }
        self.frame_lifecycles = kept;
    }

    /// Remove a frame and the frames below it; every remaining frame drops
    /// them from its children.
    pub fn remove_frame(&mut self, fid: &String)
        requires
            old(self).wf(),
        ensures
            final(self).wf(),
            final(self).options.timeout == old(self).options.timeout,
            final(self)@ == (WatcherView {
                frames: without_watched(old(self)@.frames, watched_subtree(old(self)@.frames, set![fid@])),
                ..old(self)@
            }),
    {
        let roots = single_key(fid);
        self.remove_reached(&roots);
    }

    /// Whether `request_id` is the navigation request being tracked.
    pub fn request_matches_navigation(&self, request_id: &Option<String>) -> (r: bool)
        ensures
            r == matches_navigation(self@, *request_id),
    {
        match (request_id, &self.navigation_request_id) {
            (Some(a), Some(b)) => str_eq(a.as_str(), b.as_str()),
            _ => false,
        }
    }

    /// Update the watcher for one protocol event.
    pub fn handle_event(&mut self, event: WatchEvent)
        requires
            old(self).wf(),
        ensures
            final(self).wf(),
            final(self).options.timeout == old(self).options.timeout,
            final(self)@ == apply_watch(old(self)@, event),
    {
        match event {
            WatchEvent::FrameAttached { frame_id, parent_frame_id } => {
                match (frame_id, parent_frame_id) {
                    (Some(f), Some(p)) => {
                        let _ = self.entry_or_default(&f);
                        match find(&self.frame_lifecycles, p.as_str()) {
                            Some(pi) => {
                                proof {
                                    lemma_lookup(self.frame_lifecycles@, pi as int);
                                    assert(self.frame_lifecycles@[pi as int].wf());
                                }
                                let mut pf = self.frame_lifecycles[pi].copy();
                                insert_entry(&mut pf.children, f.clone());
                                self.replace_at(pi, pf);
                            },
                            None => {
                                proof {
                                    if self@.frames.contains_key(p@) {
                                        assert(has_key(self.frame_lifecycles@, p@));
                                    }
                                }
                            },
                        }
                    },
                    _ => {},
                }
            },
            WatchEvent::FrameDetached { frame_id } => {
                let is_main = match &frame_id {
                    Some(f) => str_eq(f.as_str(), self.main_frame_id.as_str()),
                    None => false,
                };
                if is_main {
                    self.navigating_frame_detached = true;
                }
                match frame_id {
                    Some(f) => {
                        self.remove_frame(&f);
                    },
                    None => {},
                }
            },
            WatchEvent::FrameNavigated { frame_id } => {
                match frame_id {
                    Some(f) => {
                        let is_main = str_eq(f.as_str(), self.main_frame_id.as_str());
                        if is_main {
                            self.saw_new_document_navigation = true;
                            match find(&self.frame_lifecycles, f.as_str()) {
                                Some(i) => {
                                    proof {
                                        lemma_lookup(self.frame_lifecycles@, i as int);
                                    }
                                    let children = crate::frame::clone_strings(
                                        &self.frame_lifecycles[i].children,
                                    );
                                    self.remove_reached(&children);
                                },
                                None => {
                                    proof {
                                        if self@.frames.contains_key(f@) {
                                            assert(has_key(self.frame_lifecycles@, f@));
                                        }
                                    }
                                },
                            }
                        }
                        let _ = self.entry_or_default(&f);
                    },
                    None => {},
                }
            },
            WatchEvent::NavigatedWithinDocument { frame_id } => {
                let is_main = match &frame_id {
                    Some(f) => str_eq(f.as_str(), self.main_frame_id.as_str()),
                    None => false,
                };
                if is_main {
                    self.saw_same_document_navigation = true;
                }
            },
            WatchEvent::FrameStartedLoading { frame_id } => {
                match frame_id {
                    Some(f) => {
                        let i = self.entry_or_default(&f);
                        proof {
                            lemma_lookup(self.frame_lifecycles@, i as int);
                            assert(self.frame_lifecycles@[i as int].wf());
                        }
                        let mut e = self.frame_lifecycles[i].copy();
                        e.has_started_loading = true;
                        self.replace_at(i, e);
                    },
                    None => {},
                }
            },
            WatchEvent::FrameStoppedLoading => {},
            WatchEvent::LifecycleEvent { frame_id, name } => {
                match (frame_id, name) {
                    (Some(f), Some(n)) => {
                        let i = self.entry_or_default(&f);
                        proof {
                            lemma_lookup(self.frame_lifecycles@, i as int);
                            assert(self.frame_lifecycles@[i as int].wf());
                        }
                        let mut e = self.frame_lifecycles[i].copy();
                        if str_eq(n.as_str(), "init") {
                            e.lifecycle_events = Vec::new();
                            proof {
                                lemma_empty(e.lifecycle_events@);
                            }
                        }
                        insert_entry(&mut e.lifecycle_events, n);
                        self.replace_at(i, e);
                    },
                    _ => {},
                }
            },
            WatchEvent::RequestWillBeSent { resource_type, frame_id, request_id } => {
                let is_document = match &resource_type {
                    Some(t) => eq_ignore_ascii_case(t.as_str(), "document"),
                    None => false,
                };
                let is_main_document = is_document && match &frame_id {
                    Some(f) => str_eq(f.as_str(), self.main_frame_id.as_str()),
                    None => false,
                };
                if is_main_document {
                    match request_id {
                        Some(rid) => {
                            self.navigation_request_id = Some(rid);
                            self.navigation_response = None;
                            self.navigation_response_received = false;
                        },
                        None => {},
                    }
                }
            },
            WatchEvent::ResponseReceived {
                request_id,
                response_url,
                document_url,
                status,
                from_disk_cache,
                from_service_worker,
            } => {
                if self.request_matches_navigation(&request_id) {
                    let rid = match &self.navigation_request_id {
                        Some(r) => r.clone(),
                        None => String::new(),
                    };
                    let url = match response_url {
                        Some(u) => u,
                        None => match document_url {
                            Some(u) => u,
                            None => String::new(),
                        },
                    };
                    self.navigation_response = Some(
                        NavigationResponse {
                            request_id: rid,
                            url,
                            status,
                            from_disk_cache: from_disk_cache == Some(true),
                            from_service_worker: from_service_worker == Some(true),
                        },
                    );
                }
            },
            WatchEvent::LoadingFinished { request_id } => {
                if self.request_matches_navigation(&request_id) {
                    self.navigation_response_received = true;
                }
            },
            WatchEvent::Other => {},
        }
    }

    /// Whether the navigation committed in the way the wait expects.
    pub fn navigation_committed(&self) -> (r: bool)
        ensures
            r == navigation_committed(self@),
    {
        match self.options.expect_new_document {
            Some(true) => self.saw_new_document_navigation,
            Some(false) => self.saw_same_document_navigation,
            None => self.saw_same_document_navigation || self.saw_new_document_navigation,
        }
    }

    /// Whether the main document's response finished loading, when there is one.
    pub fn navigation_response_ready(&self) -> (r: bool)
        ensures
            r == navigation_response_ready(self@),
    {
        if self.navigation_request_id.is_some() {
            self.navigation_response_received
        } else {
            true
        }
    }

    /// Whether every name of `expected` fired on `fid` and on every frame
    /// below it that has started loading.
    pub fn check_lifecycle_recursive(&self, fid: &String, expected: &Vec<&'static str>) -> (r: bool)
        requires
            self.wf(),
        ensures
            r == watched_complete(
                self@.frames,
                fid@,
                Set::new(|n: Seq<char>| exists|i: int| 0 <= i < expected@.len() && #[trigger] expected@[i]@ == n),
            ),
    {
        let ghost names = Set::new(|n: Seq<char>| exists|i: int| 0 <= i < expected@.len() && #[trigger] expected@[i]@ == n);
        let roots = single_key(fid);
        let marks = reachable(&self.frame_lifecycles, &roots, true);
        let ghost m = as_map(self.frame_lifecycles@);
        let ghost rch = reach::<FrameLifecycle>(m, set![fid@], true);
        match find(&self.frame_lifecycles, fid.as_str()) {
            None => {
                return false;
            },
            Some(_) => {},
        }
        let mut i: usize = 0;
        while i < self.frame_lifecycles.len()
            invariant
                i <= self.frame_lifecycles@.len(),
                self.wf(),
                m == as_map(self.frame_lifecycles@),
                rch == reach::<FrameLifecycle>(m, set![fid@], true),
                names == Set::new(|n: Seq<char>| exists|i: int| 0 <= i < expected@.len() && #[trigger] expected@[i]@ == n),
                marks@.len() == self.frame_lifecycles@.len(),
                forall|j: int| 0 <= j < self.frame_lifecycles@.len() ==> #[trigger] marks@[j] == rch.contains(self.frame_lifecycles@[j].id@),
                forall|j: int|
                    0 <= j < i && marks@[j] ==> names.subset_of(key_set(self.frame_lifecycles@[j].lifecycle_events@)),
            decreases self.frame_lifecycles@.len() - i,
        {
            if marks[i] {
                let mut k: usize = 0;
                while k < expected.len()
                    invariant
                        i < self.frame_lifecycles@.len(),
                        self.wf(),
                        names == Set::new(|n: Seq<char>| exists|i: int| 0 <= i < expected@.len() && #[trigger] expected@[i]@ == n),
                        m == as_map(self.frame_lifecycles@),
                        rch == reach::<FrameLifecycle>(m, set![fid@], true),
                        marks@.len() == self.frame_lifecycles@.len(),
                        marks@[i as int],
                        forall|j: int| 0 <= j < self.frame_lifecycles@.len() ==> #[trigger] marks@[j] == rch.contains(self.frame_lifecycles@[j].id@),
                        k <= expected@.len(),
                        forall|kk: int| 0 <= kk < k ==> key_set(self.frame_lifecycles@[i as int].lifecycle_events@).contains(#[trigger] expected@[kk]@),
                    decreases expected@.len() - k,
                {
                    if !crate::keyed::contains_key(&self.frame_lifecycles[i].lifecycle_events, expected[k]) {
                        proof {
                            lemma_lookup(self.frame_lifecycles@, i as int);
                            assert(names.contains(expected@[k as int]@));
                            assert(!key_set(self.frame_lifecycles@[i as int].lifecycle_events@).contains(expected@[k as int]@));
                            assert(rch.contains(self.frame_lifecycles@[i as int].id@));
                            assert(!names.subset_of(m[self.frame_lifecycles@[i as int].id@].lifecycle_events));
                        }
                        return false;
                    }
                    k = k + 1;
                }
                proof {
                    assert forall|nm: Seq<char>| names.contains(nm) implies key_set(self.frame_lifecycles@[i as int].lifecycle_events@).contains(nm) by {
                        let kk = choose|kk: int| 0 <= kk < expected@.len() && #[trigger] expected@[kk]@ == nm;
                    }
                }
            }
            i = i + 1;
        }
        proof {
            assert forall|x: Seq<char>| #[trigger] rch.contains(x) implies names.subset_of(m[x].lifecycle_events) by {
                crate::graph::lemma_reach_present::<FrameLifecycle>(m, set![fid@], true, x);
                let j = choose|j: int| 0 <= j < self.frame_lifecycles@.len() && #[trigger] self.frame_lifecycles@[j].entry_key() == x;
                lemma_lookup(self.frame_lifecycles@, j);
                assert(marks@[j]);
            }
        }
        true
    }

    /// Whether every awaited lifecycle event fired on the main frame and below.
    pub fn lifecycle_conditions_met(&self) -> (r: bool)
        requires
            self.wf(),
        ensures
            r == lifecycle_conditions_met(self@),
    {
        let mut expected: Vec<&'static str> = Vec::new();
        let mut i: usize = 0;
        while i < self.options.wait_until.len()
            invariant
                i <= self.options.wait_until@.len(),
                expected@.len() == i,
                forall|j: int| 0 <= j < i ==> #[trigger] expected@[j]@ == protocol_name(self.options.wait_until@[j]),
            decreases self.options.wait_until@.len() - i,
        {
            expected.push(wait_until_to_protocol(&self.options.wait_until[i]));
            i = i + 1;
        }
        if expected.len() == 0 {
            return true;
        }
        let r = self.check_lifecycle_recursive(&self.main_frame_id, &expected);
        proof {
            let a = Set::new(|n: Seq<char>| exists|i: int| 0 <= i < expected@.len() && #[trigger] expected@[i]@ == n);
            let b = expected_names(self.options.wait_until@);
            assert forall|n: Seq<char>| a.contains(n) <==> b.contains(n) by {
                if a.contains(n) {
                    let j = choose|j: int| 0 <= j < expected@.len() && #[trigger] expected@[j]@ == n;
                    assert(protocol_name(self.options.wait_until@[j]) == n);
                }
                if b.contains(n) {
                    let j = choose|j: int| 0 <= j < self.options.wait_until@.len() && #[trigger] protocol_name(self.options.wait_until@[j]) == n;
                    assert(expected@[j]@ == n);
                }
            }
            assert(a =~= b);
        }
        r
    }

    /// Whether the wait is over: the navigation committed, every awaited
    /// lifecycle event fired and the main document's response arrived.
    pub fn check_complete(&self) -> (r: bool)
        requires
            self.wf(),
        ensures
            r == watch_complete(self@),
    {
        if !self.navigation_committed() {
            return false;
        }
        if !self.lifecycle_conditions_met() {
            return false;
        }
        if !self.navigation_response_ready() {
            return false;
        }
        true
    }

    /// What the wait reports when it is over.
    pub fn navigation_result(&self) -> (r: NavigationResult)
        ensures
            r.is_same_document == self@.saw_same_document_navigation,
            r.is_new_document == self@.saw_new_document_navigation,
            opt_response(r.response) == self@.navigation_response,
    {
        NavigationResult {
            is_same_document: self.saw_same_document_navigation,
            is_new_document: self.saw_new_document_navigation,
            response: match &self.navigation_response {
                Some(r) => Some(r.clone_response()),
                None => None,
            },
        }
    }
}

/// `e` is what a watcher reads of the protocol event `method` with `params`.
pub open spec fn watch_event_fits(e: WatchEvent, method: Seq<char>, params: JsonValue) -> bool {
    let fid = str_of(field(params, "frameId"@));
    let rid = str_of(field(params, "requestId"@));
    let response = field(params, "response"@);
    if method == "Page.frameAttached"@ {
        e matches WatchEvent::FrameAttached { frame_id, parent_frame_id } && opt_str(frame_id) == fid
            && opt_str(parent_frame_id) == str_of(field(params, "parentFrameId"@))
    } else if method == "Page.frameDetached"@ {
        e matches WatchEvent::FrameDetached { frame_id } && opt_str(frame_id) == fid
    } else if method == "Page.frameNavigated"@ {
        e matches WatchEvent::FrameNavigated { frame_id } && opt_str(frame_id) == str_of(
            field_of(field(params, "frame"@), "id"@),
        )
    } else if method == "Page.navigatedWithinDocument"@ {
        e matches WatchEvent::NavigatedWithinDocument { frame_id } && opt_str(frame_id) == fid
    } else if method == "Page.frameStartedLoading"@ {
        e matches WatchEvent::FrameStartedLoading { frame_id } && opt_str(frame_id) == fid
    } else if method == "Page.frameStoppedLoading"@ {
        e is FrameStoppedLoading
    } else if method == "Page.lifecycleEvent"@ {
        e matches WatchEvent::LifecycleEvent { frame_id, name } && opt_str(frame_id) == fid && opt_str(name)
            == str_of(field(params, "name"@))
    } else if method == "Network.requestWillBeSent"@ {
        e matches WatchEvent::RequestWillBeSent { resource_type, frame_id, request_id } && opt_str(
            resource_type,
        ) == str_of(field(params, "type"@)) && opt_str(frame_id) == fid && opt_str(request_id) == rid
    } else if method == "Network.responseReceived"@ {
        e matches WatchEvent::ResponseReceived {
            request_id,
            response_url,
            document_url,
            status,
            from_disk_cache,
            from_service_worker,
        } && opt_str(request_id) == rid && opt_str(response_url) == str_of(field_of(response, "url"@))
            && opt_str(document_url) == str_of(field(params, "documentURL"@)) && status == u16_of(
            field_of(response, "status"@),
        ) && from_disk_cache == bool_of(field_of(response, "fromDiskCache"@)) && from_service_worker
            == bool_of(field_of(response, "fromServiceWorker"@))
    } else if method == "Network.loadingFinished"@ || method == "Network.loadingFailed"@ {
        e matches WatchEvent::LoadingFinished { request_id } && opt_str(request_id) == rid
    } else {
        e is Other
    }
}

/// What a watcher reads of a protocol event.
pub fn watch_event_of(method: &str, params: &JsonValue) -> (r: WatchEvent)
    ensures
        watch_event_fits(r, method@, *params),
{
    let fid = string_of(get(params, "frameId"));
    let rid = string_of(get(params, "requestId"));
    let response = get(params, "response");
    if str_eq(method, "Page.frameAttached") {
        WatchEvent::FrameAttached { frame_id: fid, parent_frame_id: string_of(get(params, "parentFrameId")) }
    } else if str_eq(method, "Page.frameDetached") {
        WatchEvent::FrameDetached { frame_id: fid }
    } else if str_eq(method, "Page.frameNavigated") {
        WatchEvent::FrameNavigated { frame_id: string_of(get_opt(get(params, "frame"), "id")) }
    } else if str_eq(method, "Page.navigatedWithinDocument") {
        WatchEvent::NavigatedWithinDocument { frame_id: fid }
    } else if str_eq(method, "Page.frameStartedLoading") {
        WatchEvent::FrameStartedLoading { frame_id: fid }
    } else if str_eq(method, "Page.frameStoppedLoading") {
        WatchEvent::FrameStoppedLoading
    } else if str_eq(method, "Page.lifecycleEvent") {
        WatchEvent::LifecycleEvent { frame_id: fid, name: string_of(get(params, "name")) }
    } else if str_eq(method, "Network.requestWillBeSent") {
        WatchEvent::RequestWillBeSent {
            resource_type: string_of(get(params, "type")),
            frame_id: fid,
            request_id: rid,
        }
    } else if str_eq(method, "Network.responseReceived") {
        WatchEvent::ResponseReceived {
            request_id: rid,
            response_url: string_of(get_opt(response, "url")),
            document_url: string_of(get(params, "documentURL")),
            status: as_u16(get_opt(response, "status")),
            from_disk_cache: as_bool(get_opt(response, "fromDiskCache")),
            from_service_worker: as_bool(get_opt(response, "fromServiceWorker")),
        }
    } else if str_eq(method, "Network.loadingFinished") || str_eq(method, "Network.loadingFailed") {
        WatchEvent::LoadingFinished { request_id: rid }
    } else {
        WatchEvent::Other
    }
}

} // verus!
