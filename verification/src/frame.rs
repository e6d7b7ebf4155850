//! Frame tree state: the frames of a page (main frame and iframes), their
//! child links, lifecycle events and execution contexts, kept up to date
//! from protocol events.
use vstd::prelude::*;

use crate::json::{as_bool, as_i64, bool_of, field, field_of, get, get_opt, i64_of, str_of, string_of, JsonValue};

use crate::graph::{reach, reachable, GraphNode};
use crate::keyed::{
    as_map, find, insert_entry, key_set, keys_distinct, lemma_empty, lemma_lookup, lemma_push,
    lemma_update, remove_key, str_eq, KeyedEntry,
};

verus! {

/// The characters of an optional string.
pub open spec fn opt_str(o: Option<String>) -> Option<Seq<char>> {
    match o {
        Some(s) => Some(s@),
        None => None,
    }
}

pub fn clone_opt_string(o: &Option<String>) -> (r: Option<String>)
    ensures
        r == *o,
{
    match o {
        Some(s) => Some(s.clone()),
        None => None,
    }
}

pub fn clone_strings(v: &Vec<String>) -> (r: Vec<String>)
    ensures
        r@ == v@,
{
    let mut r: Vec<String> = Vec::new();
    let mut i: usize = 0;
    while i < v.len()
        invariant
            i <= v.len(),
            r@ == v@.subrange(0, i as int),
        decreases v.len() - i,
    {
        r.push(v[i].clone());
        i = i + 1;
        assert(r@ =~= v@.subrange(0, i as int));
    }
    assert(v@.subrange(0, v.len() as int) =~= v@);
    r
}

/// The frame data that the protocol reports for a frame.
#[derive(Debug)]
pub struct FrameInfo {
    pub id: String,
    pub parent_id: Option<String>,
    pub url: String,
    pub name: Option<String>,
}

/// A frame and the frames below it, as the protocol reports the tree.
#[derive(Debug)]
pub struct FrameTree {
    pub frame: FrameInfo,
    pub child_frames: Option<Vec<FrameTree>>,
}

/// Tracked state for a single frame.
#[derive(Debug)]
pub struct Frame {
    /// Frame identifier.
    pub id: String,
    /// Parent frame, if this is an iframe.
    pub parent_id: Option<String>,
    /// Current URL.
    pub url: String,
    /// HTML `name` attribute of the frame element.
    pub name: Option<String>,
    /// Direct child frame ids (no id twice).
    pub child_frames: Vec<String>,
    /// The default execution context of this frame (main world).
    pub execution_context_id: Option<i64>,
    /// Named isolated worlds: world name and its execution context (no name twice).
    pub worlds: Vec<(String, i64)>,
    /// Lifecycle events received so far (no name twice).
    pub lifecycle_events: Vec<String>,
    /// Whether this frame has started loading at least once.
    pub has_started_loading: bool,
}

/// What a [`Frame`] stands for.
pub struct FrameView {
    pub id: Seq<char>,
    pub parent_id: Option<Seq<char>>,
    pub url: Seq<char>,
    pub name: Option<Seq<char>>,
    pub child_frames: Set<Seq<char>>,
    pub execution_context_id: Option<i64>,
    pub worlds: Map<Seq<char>, i64>,
    pub lifecycle_events: Set<Seq<char>>,
    pub has_started_loading: bool,
}

impl View for Frame {
    type V = FrameView;

    open spec fn view(&self) -> FrameView {
        FrameView {
            id: self.id@,
            parent_id: opt_str(self.parent_id),
            url: self.url@,
            name: opt_str(self.name),
            child_frames: key_set(self.child_frames@),
            execution_context_id: self.execution_context_id,
            worlds: as_map(self.worlds@),
            lifecycle_events: key_set(self.lifecycle_events@),
            has_started_loading: self.has_started_loading,
        }
    }
}

impl KeyedEntry for Frame {
    type Val = FrameView;

    open spec fn entry_key(&self) -> Seq<char> {
        self.id@
    }

    open spec fn entry_val(&self) -> FrameView {
        self@
    }

    fn key_str(&self) -> (r: &str) {
        self.id.as_str()
    }
}

impl GraphNode for Frame {
    open spec fn val_children(v: FrameView) -> Set<Seq<char>> {
        v.child_frames
    }

    open spec fn val_started(v: FrameView) -> bool {
        v.has_started_loading
    }

    fn child_ids(&self) -> (r: &Vec<String>) {
        &self.child_frames
    }

    fn started(&self) -> (b: bool) {
        self.has_started_loading
    }
}

impl Frame {
    /// No child, world or lifecycle event is listed twice.
    pub open spec fn wf(&self) -> bool {
        &&& keys_distinct(self.child_frames@)
        &&& keys_distinct(self.worlds@)
        &&& keys_distinct(self.lifecycle_events@)
    }

    /// A frame as the protocol reports it, before any event about it.
    pub fn from_cdp(cdp: &FrameInfo) -> (r: Frame)
        ensures
            r.wf(),
            r@ == from_cdp_view(*cdp),
    {
        let r = Frame {
            id: cdp.id.clone(),
            parent_id: clone_opt_string(&cdp.parent_id),
            url: cdp.url.clone(),
            name: clone_opt_string(&cdp.name),
            child_frames: Vec::new(),
            execution_context_id: None,
            worlds: Vec::new(),
            lifecycle_events: Vec::new(),
            has_started_loading: true,
        };
        proof {
            lemma_empty(r.child_frames@);
            lemma_empty(r.worlds@);
            lemma_empty(r.lifecycle_events@);
        }
        r
    }

    pub fn clone_frame(&self) -> (r: Frame)
        ensures
            r.id == self.id,
            r.parent_id == self.parent_id,
            r.url == self.url,
            r.name == self.name,
            r.child_frames@ == self.child_frames@,
            r.execution_context_id == self.execution_context_id,
            r.worlds@ == self.worlds@,
            r.lifecycle_events@ == self.lifecycle_events@,
            r.has_started_loading == self.has_started_loading,
            r@ == self@,
            r.wf() == self.wf(),
    {
        let mut worlds: Vec<(String, i64)> = Vec::new();
        let mut i: usize = 0;
        while i < self.worlds.len()
            invariant
                i <= self.worlds@.len(),
                worlds@ == self.worlds@.subrange(0, i as int),
            decreases self.worlds@.len() - i,
        {
            let w = &self.worlds[i];
            worlds.push((w.0.clone(), w.1));
            i = i + 1;
            assert(worlds@ =~= self.worlds@.subrange(0, i as int));
        }
        assert(self.worlds@.subrange(0, self.worlds@.len() as int) =~= self.worlds@);
        Frame {
            id: self.id.clone(),
            parent_id: clone_opt_string(&self.parent_id),
            url: self.url.clone(),
            name: clone_opt_string(&self.name),
            child_frames: clone_strings(&self.child_frames),
            execution_context_id: self.execution_context_id,
            worlds,
            lifecycle_events: clone_strings(&self.lifecycle_events),
            has_started_loading: self.has_started_loading,
        }
    }
}

/// What `Frame::from_cdp` makes of the reported frame data.
pub open spec fn from_cdp_view(cdp: FrameInfo) -> FrameView {
    FrameView {
        id: cdp.id@,
        parent_id: opt_str(cdp.parent_id),
        url: cdp.url@,
        name: opt_str(cdp.name),
        child_frames: Set::empty(),
        execution_context_id: None,
        worlds: Map::empty(),
        lifecycle_events: Set::empty(),
        has_started_loading: true,
    }
}

/// A frame just attached under `parent`, before it loaded anything.
pub open spec fn attached_view(id: Seq<char>, parent: Seq<char>) -> FrameView {
    FrameView {
        id: id,
        parent_id: Some(parent),
        url: Seq::empty(),
        name: None,
        child_frames: Set::empty(),
        execution_context_id: None,
        worlds: Map::empty(),
        lifecycle_events: Set::empty(),
        has_started_loading: false,
    }
}

/// An execution context tracked for a frame: its unique id, the frame it
/// belongs to and its world name (empty for the main world).
#[derive(Debug)]
pub struct ContextEntry {
    pub unique_id: String,
    pub frame_id: String,
    pub world_name: String,
}

impl KeyedEntry for ContextEntry {
    type Val = (Seq<char>, Seq<char>);

    open spec fn entry_key(&self) -> Seq<char> {
        self.unique_id@
    }

    open spec fn entry_val(&self) -> (Seq<char>, Seq<char>) {
        (self.frame_id@, self.world_name@)
    }

    fn key_str(&self) -> (r: &str) {
        self.unique_id.as_str()
    }
}

/// Frame-related protocol events, with the fields the frame state reads.
#[derive(Debug)]
#[allow(inconsistent_fields)]
pub enum FrameEvent {
    /// `Page.frameAttached`.
    FrameAttached { frame_id: String, parent_frame_id: String },
    /// `Page.frameNavigated`.
    FrameNavigated { frame: FrameInfo },
    /// `Page.frameDetached`.
    FrameDetached { frame_id: String },
    /// `Page.navigatedWithinDocument`.
    NavigatedWithinDocument { frame_id: String, url: String },
    /// `Page.lifecycleEvent`.
    LifecycleEvent { frame_id: String, name: String },
    /// `Page.frameStartedLoading`.
    FrameStartedLoading { frame_id: String },
    /// `Page.frameStoppedLoading`.
    FrameStoppedLoading { frame_id: String },
    /// `Runtime.executionContextCreated`; `frame_id` and `is_default` come
    /// from the context's auxiliary data.
    ExecutionContextCreated {
        id: i64,
        name: String,
        unique_id: String,
        frame_id: Option<String>,
        is_default: bool,
    },
    /// `Runtime.executionContextDestroyed`.
    ExecutionContextDestroyed { unique_id: String },
    /// `Runtime.executionContextsCleared`.
    ExecutionContextsCleared,
}

/// The frame tree of one page.
#[derive(Debug)]
pub struct FrameState {
    /// The frames, no id twice.
    pub frames: Vec<Frame>,
    /// The top-level frame.
    pub main_frame: Option<String>,
    /// Execution context unique id, with its frame and world name.
    pub context_to_frame: Vec<ContextEntry>,
    /// Names of isolated worlds that have been ensured.
    pub isolated_worlds: Vec<String>,
}

/// What a [`FrameState`] stands for.
pub struct FrameStateView {
    pub frames: Map<Seq<char>, FrameView>,
    pub main_frame: Option<Seq<char>>,
    pub context_to_frame: Map<Seq<char>, (Seq<char>, Seq<char>)>,
    pub isolated_worlds: Set<Seq<char>>,
}

impl View for FrameState {
    type V = FrameStateView;

    open spec fn view(&self) -> FrameStateView {
        FrameStateView {
            frames: as_map(self.frames@),
            main_frame: opt_str(self.main_frame),
            context_to_frame: as_map(self.context_to_frame@),
            isolated_worlds: key_set(self.isolated_worlds@),
        }
    }
}

/// The frames that `removal` takes away from `frames`, and whose parent is `k`.
pub open spec fn orphans(
    frames: Map<Seq<char>, FrameView>,
    removal: Set<Seq<char>>,
    k: Seq<char>,
) -> Set<Seq<char>> {
    Set::new(|f: Seq<char>| removal.contains(f) && frames[f].parent_id == Some(k))
}

/// `frames` without the frames in `removal`; each frame that stays loses
/// from its children the removed frames whose parent it is.
pub open spec fn without_frames(
    frames: Map<Seq<char>, FrameView>,
    removal: Set<Seq<char>>,
) -> Map<Seq<char>, FrameView> {
    Map::new(
        |k: Seq<char>| frames.contains_key(k) && !removal.contains(k),
        |k: Seq<char>|
            FrameView {
                child_frames: frames[k].child_frames.difference(orphans(frames, removal, k)),
                ..frames[k]
            },
    )
}

/// The frames reached from `roots` through child links of present frames.
pub open spec fn subtree(frames: Map<Seq<char>, FrameView>, roots: Set<Seq<char>>) -> Set<Seq<char>> {
    reach::<Frame>(frames, roots, false)
}

/// The state after removing the frames below `roots` (the roots included).
pub open spec fn remove_subtrees(s: FrameStateView, roots: Set<Seq<char>>) -> FrameStateView {
    FrameStateView { frames: without_frames(s.frames, subtree(s.frames, roots)), ..s }
}

/// Whether `event_name` has fired on `fid` and on every frame below it
/// that has started loading.
pub open spec fn lifecycle_complete(
    frames: Map<Seq<char>, FrameView>,
    fid: Seq<char>,
    names: Set<Seq<char>>,
) -> bool {
    &&& frames.contains_key(fid)
    &&& forall|x: Seq<char>|
        #[trigger] reach::<Frame>(frames, set![fid], true).contains(x) ==> names.subset_of(
            frames[x].lifecycle_events,
        )
}

/// A frame's view with one field changed, for each update the events make.
pub open spec fn with_children(v: FrameView, c: Set<Seq<char>>) -> FrameView {
    FrameView { child_frames: c, ..v }
}

/// The state after one frame event.
pub open spec fn apply_event(s: FrameStateView, e: FrameEvent) -> FrameStateView {
    match e {
        FrameEvent::FrameAttached { frame_id, parent_frame_id } => {
            let f = frame_id@;
            let p = parent_frame_id@;
            let frames1 = if s.frames.contains_key(p) {
                s.frames.insert(p, with_children(s.frames[p], s.frames[p].child_frames.insert(f)))
            } else {
                s.frames
            };
            FrameStateView { frames: frames1.insert(f, attached_view(f, p)), ..s }
        },
        FrameEvent::FrameNavigated { frame } => {
            let id = frame.id@;
            let s1 = if s.main_frame == Some(id) && s.frames.contains_key(id) {
                remove_subtrees(s, s.frames[id].child_frames)
            } else {
                s
            };
            if s1.frames.contains_key(id) {
                FrameStateView {
                    frames: s1.frames.insert(
                        id,
                        FrameView {
                            url: frame.url@,
                            name: opt_str(frame.name),
                            has_started_loading: true,
                            lifecycle_events: Set::empty(),
                            ..s1.frames[id]
                        },
                    ),
                    ..s1
                }
            } else {
                FrameStateView {
                    frames: s1.frames.insert(id, from_cdp_view(frame)),
                    main_frame: if s1.main_frame is None {
                        Some(id)
                    } else {
                        s1.main_frame
                    },
                    ..s1
                }
            }
        },
        FrameEvent::FrameDetached { frame_id } => remove_subtrees(s, set![frame_id@]),
        FrameEvent::NavigatedWithinDocument { frame_id, url } => {
            if s.frames.contains_key(frame_id@) {
                FrameStateView {
                    frames: s.frames.insert(frame_id@, FrameView { url: url@, ..s.frames[frame_id@] }),
                    ..s
                }
            } else {
                s
            }
        },
        FrameEvent::LifecycleEvent { frame_id, name } => {
            if s.frames.contains_key(frame_id@) {
                FrameStateView {
                    frames: s.frames.insert(
                        frame_id@,
                        FrameView {
                            lifecycle_events: s.frames[frame_id@].lifecycle_events.insert(name@),
                            ..s.frames[frame_id@]
                        },
                    ),
                    ..s
                }
            } else {
                s
            }
        },
        FrameEvent::FrameStartedLoading { frame_id } => {
            if s.frames.contains_key(frame_id@) {
                FrameStateView {
                    frames: s.frames.insert(
                        frame_id@,
                        FrameView {
                            has_started_loading: true,
                            lifecycle_events: Set::empty(),
                            ..s.frames[frame_id@]
                        },
                    ),
                    ..s
                }
            } else {
                s
            }
        },
        FrameEvent::FrameStoppedLoading { frame_id } => {
            if s.frames.contains_key(frame_id@) {
                FrameStateView {
                    frames: s.frames.insert(
                        frame_id@,
                        FrameView {
                            has_started_loading: true,
                            lifecycle_events: s.frames[frame_id@].lifecycle_events.insert(
                                "load"@,
                            ).insert("DOMContentLoaded"@),
                            ..s.frames[frame_id@]
                        },
                    ),
                    ..s
                }
            } else {
                s
            }
        },
        FrameEvent::ExecutionContextCreated { id, name, unique_id, frame_id, is_default } => {
            match frame_id {
                Some(fid) => {
                    let world = if is_default {
                        Seq::<char>::empty()
                    } else {
                        name@
                    };
                    let ctf = s.context_to_frame.insert(unique_id@, (fid@, world));
                    let frames = if s.frames.contains_key(fid@) {
                        if is_default {
                            s.frames.insert(
                                fid@,
                                FrameView { execution_context_id: Some(id), ..s.frames[fid@] },
                            )
                        } else if name@.len() > 0 {
                            s.frames.insert(
                                fid@,
                                FrameView {
                                    worlds: s.frames[fid@].worlds.insert(name@, id),
                                    ..s.frames[fid@]
                                },
                            )
                        } else {
                            s.frames
                        }
                    } else {
                        s.frames
                    };
                    FrameStateView { context_to_frame: ctf, frames: frames, ..s }
                },
                None => s,
            }
        },
        FrameEvent::ExecutionContextDestroyed { unique_id } => {
            if s.context_to_frame.contains_key(unique_id@) {
                let (fid, world) = s.context_to_frame[unique_id@];
                let ctf = s.context_to_frame.remove(unique_id@);
                let frames = if s.frames.contains_key(fid) {
                    if world.len() == 0 {
                        s.frames.insert(fid, FrameView { execution_context_id: None, ..s.frames[fid] })
                    } else {
                        s.frames.insert(
                            fid,
                            FrameView { worlds: s.frames[fid].worlds.remove(world), ..s.frames[fid] },
                        )
                    }
                } else {
                    s.frames
                };
                FrameStateView { context_to_frame: ctf, frames: frames, ..s }
            } else {
                s
            }
        },
        FrameEvent::ExecutionContextsCleared => FrameStateView {
            context_to_frame: Map::empty(),
            frames: Map::new(
                |k: Seq<char>| s.frames.contains_key(k),
                |k: Seq<char>|
                    FrameView { execution_context_id: None, worlds: Map::empty(), ..s.frames[k] },
            ),
            ..s
        },
    }
}

/// A one-entry key vector.
pub fn single_key(k: &String) -> (r: Vec<String>)
    ensures
        keys_distinct(r@),
        key_set(r@) == set![k@],
{
    let mut r: Vec<String> = Vec::new();
    let kc = k.clone();
    proof {
        lemma_empty(r@);
        lemma_push(r@, kc);
    }
    r.push(kc);
    proof {
        assert(key_set(r@) =~= set![k@]);
    }
    r
}

/// Number of child trees of a frame tree node.
pub open spec fn num_children(t: FrameTree) -> nat {
    match t.child_frames {
        Some(v) => v@.len(),
        None => 0,
    }
}

/// Record one reported frame under `parent`.
pub open spec fn populate_step(
    s: FrameStateView,
    info: FrameInfo,
    parent: Option<Seq<char>>,
) -> FrameStateView {
    let id = info.id@;
    let frame = FrameView { parent_id: parent, ..from_cdp_view(info) };
    let frames1 = match parent {
        Some(p) => if s.frames.contains_key(p) {
            s.frames.insert(p, with_children(s.frames[p], s.frames[p].child_frames.insert(id)))
        } else {
            s.frames
        },
        None => s.frames,
    };
    FrameStateView {
        frames: frames1.insert(id, frame),
        main_frame: if parent is None {
            Some(id)
        } else {
            s.main_frame
        },
        ..s
    }
}

/// The state after recording a reported frame tree: the node first, then
/// each child tree in order.
pub open spec fn populated(s: FrameStateView, t: FrameTree, parent: Option<Seq<char>>) -> FrameStateView
    decreases t, num_children(t) + 1,
{
    populated_children(populate_step(s, t.frame, parent), t, 0)
}

/// The state after recording the child trees of `t` from index `i` on.
pub open spec fn populated_children(s: FrameStateView, t: FrameTree, i: int) -> FrameStateView
    decreases t, num_children(t) - i,
{
    match t.child_frames {
        Some(v) => if 0 <= i < v@.len() {
            populated_children(populated(s, v@[i], Some(t.frame.id@)), t, i + 1)
        } else {
            s
        },
        None => s,
    }
}

/// Replace the frame at `i` by `f`, which has the same id.
fn set_frame(frames: &mut Vec<Frame>, i: usize, f: Frame)
    requires
        keys_distinct(old(frames)@),
        i < old(frames)@.len(),
        old(frames)@[i as int].id@ == f.id@,
    ensures
        keys_distinct(final(frames)@),
        final(frames)@ == old(frames)@.update(i as int, f),
        as_map(final(frames)@) == as_map(old(frames)@).insert(f.id@, f@),
{
    proof {
        lemma_update(frames@, i as int, f);
    }
    frames.set(i, f);
}

impl FrameState {
    /// Every collection keeps its keys distinct, in every frame too.
    pub open spec fn wf(&self) -> bool {
        &&& keys_distinct(self.frames@)
        &&& forall|i: int| 0 <= i < self.frames@.len() ==> (#[trigger] self.frames@[i]).wf()
        &&& keys_distinct(self.context_to_frame@)
        &&& keys_distinct(self.isolated_worlds@)
    }

    /// An empty frame tree.
    pub fn new() -> (r: FrameState)
        ensures
            r.wf(),
            r@.frames == Map::<Seq<char>, FrameView>::empty(),
            r@.main_frame is None,
            r@.context_to_frame == Map::<Seq<char>, (Seq<char>, Seq<char>)>::empty(),
            r@.isolated_worlds == Set::<Seq<char>>::empty(),
    {
        let r = FrameState {
            frames: Vec::new(),
            main_frame: None,
            context_to_frame: Vec::new(),
            isolated_worlds: Vec::new(),
        };
        proof {
            lemma_empty(r.frames@);
            lemma_empty(r.context_to_frame@);
            lemma_empty(r.isolated_worlds@);
        }
        r
    }

    /// Insert or replace the frame with `f`'s id.
    fn put_frame(&mut self, f: Frame)
        requires
            old(self).wf(),
            f.wf(),
        ensures
            final(self).wf(),
            final(self)@ == (FrameStateView { frames: old(self)@.frames.insert(f.id@, f@), ..old(self)@ }),
    {
        let ghost f_view = f@;
        let ghost f_id = f.id@;
        match find(&self.frames, f.id.as_str()) {
            Some(i) => {
                set_frame(&mut self.frames, i, f);
            },
            None => {
                proof {
                    lemma_push(self.frames@, f);
                }
                self.frames.push(f);
            },
        }
        assert forall|i: int| 0 <= i < self.frames@.len() implies (#[trigger] self.frames@[i]).wf() by {
            if i < old(self).frames@.len() && self.frames@[i] != f {
                assert(self.frames@[i] == old(self).frames@[i]);
            }
        }
    }

    /// Remove the frames reached from `roots` through child links, and
    /// detach each removed frame from the frame that stays and is its parent.
    fn remove_reached(&mut self, roots: &Vec<String>)
        requires
            old(self).wf(),
        ensures
            final(self).wf(),
            final(self)@ == remove_subtrees(old(self)@, key_set(roots@)),
    {
        let marks = reachable(&self.frames, roots, false);
        let ghost m = as_map(self.frames@);
        let ghost removal = subtree(m, key_set(roots@));
        let n = self.frames.len();
        let mut kept: Vec<Frame> = Vec::new();
        let mut i: usize = 0;
        proof {
            lemma_empty(kept@);
        }
        while i < n
            invariant
                n == self.frames@.len(),
                i <= n,
                self.wf(),
                m == as_map(self.frames@),
                removal == subtree(m, key_set(roots@)),
                marks@.len() == n,
                forall|j: int| 0 <= j < n ==> #[trigger] marks@[j] == removal.contains(self.frames@[j].id@),
                keys_distinct(kept@),
                forall|j: int| 0 <= j < kept@.len() ==> (#[trigger] kept@[j]).wf(),
                forall|k: Seq<char>|
                    #[trigger] as_map(kept@).contains_key(k) <==> (exists|j: int|
                        0 <= j < i && !marks@[j] && #[trigger] self.frames@[j].id@ == k),
                forall|k: Seq<char>|
                    #[trigger] as_map(kept@).contains_key(k) ==> as_map(kept@)[k] == without_frames(
                        m,
                        removal,
                    )[k],
            decreases n - i,
        {
            if !marks[i] {
                let f = &self.frames[i];
                let mut children: Vec<String> = Vec::new();
                let mut c: usize = 0;
                proof {
                    lemma_lookup(self.frames@, i as int);
                    lemma_empty(children@);
                }
                while c < f.child_frames.len()
                    invariant
                        n == self.frames@.len(),
                        i < n,
                        f == self.frames@[i as int],
                        f.wf(),
                        self.wf(),
                        m == as_map(self.frames@),
                        removal == subtree(m, key_set(roots@)),
                        marks@.len() == n,
                        forall|j: int| 0 <= j < n ==> #[trigger] marks@[j] == removal.contains(self.frames@[j].id@),
                        c <= f.child_frames@.len(),
                        keys_distinct(children@),
                        forall|x: Seq<char>|
                            #[trigger] key_set(children@).contains(x) <==> (exists|j: int|
                                0 <= j < c && #[trigger] f.child_frames@[j]@ == x) && !orphans(
                                m,
                                removal,
                                f.id@,
                            ).contains(x),
                    decreases f.child_frames@.len() - c,
                {
                    let cid = &f.child_frames[c];
                    let drop = match find(&self.frames, cid.as_str()) {
                        Some(j) => {
                            proof {
                                lemma_lookup(self.frames@, j as int);
                            }
                            if marks[j] {
                                match &self.frames[j].parent_id {
                                    Some(p) => str_eq(p.as_str(), f.id.as_str()),
                                    None => false,
                                }
                            } else {
                                false
                            }
                        },
                        None => {
                            proof {
                                if removal.contains(cid@) {
                                    crate::graph::lemma_reach_present::<Frame>(
                                        m,
                                        key_set(roots@),
                                        false,
                                        cid@,
                                    );
                                }
                            }
                            false
                        },
                    };
                    assert(drop == orphans(m, removal, f.id@).contains(cid@));
                    if !drop {
                        let cc = cid.clone();
                        proof {
                            assert(!crate::keyed::has_key(children@, cid@)) by {
                                if crate::keyed::has_key(children@, cid@) {
                                    assert(key_set(children@).contains(cid@));
                                    let j = choose|j: int| 0 <= j < c && #[trigger] f.child_frames@[j]@ == cid@;
                                    assert(f.child_frames@[j].entry_key() == f.child_frames@[c as int].entry_key());
                                }
                            }
                            lemma_push(children@, cc);
                        }
                        children.push(cc);
                    }
                    proof {
                        assert forall|x: Seq<char>|
                            #[trigger] key_set(children@).contains(x) <==> (exists|j: int|
                                0 <= j < c + 1 && #[trigger] f.child_frames@[j]@ == x) && !orphans(
                                m,
                                removal,
                                f.id@,
                            ).contains(x) by {
                            if exists|j: int| 0 <= j < c + 1 && #[trigger] f.child_frames@[j]@ == x {
                                let j = choose|j: int| 0 <= j < c + 1 && #[trigger] f.child_frames@[j]@ == x;
                                if j < c {
                                    assert(exists|j: int| 0 <= j < c && #[trigger] f.child_frames@[j]@ == x);
                                }
                            }
                        }
                    }
                    c = c + 1;
                }
                let mut nf = f.clone_frame();
                nf.child_frames = children;
                proof {
                    assert(key_set(nf.child_frames@) =~= m[f.id@].child_frames.difference(
                        orphans(m, removal, f.id@),
                    )) by {
                        assert forall|x: Seq<char>| key_set(f.child_frames@).contains(x) <==> (exists|j: int|
                            0 <= j < f.child_frames@.len() && #[trigger] f.child_frames@[j]@ == x) by {
                            if key_set(f.child_frames@).contains(x) {
                                let j = choose|j: int| 0 <= j < f.child_frames@.len() && #[trigger] f.child_frames@[j].entry_key() == x;
                                assert(f.child_frames@[j]@ == x);
                            }
                            if exists|j: int| 0 <= j < f.child_frames@.len() && #[trigger] f.child_frames@[j]@ == x {
                                let j = choose|j: int| 0 <= j < f.child_frames@.len() && #[trigger] f.child_frames@[j]@ == x;
                                assert(f.child_frames@[j].entry_key() == x);
                            }
                        }
                    }
                    assert(nf@ == without_frames(m, removal)[f.id@]);
                    assert(!crate::keyed::has_key(kept@, nf.id@)) by {
                        if crate::keyed::has_key(kept@, nf.id@) {
                            let jj = choose|jj: int| 0 <= jj < kept@.len() && #[trigger] kept@[jj].entry_key() == nf.id@;
                            lemma_lookup(kept@, jj);
                            let j = choose|j: int| 0 <= j < i && !marks@[j] && #[trigger] self.frames@[j].id@ == nf.id@;
                            assert(self.frames@[j].entry_key() == self.frames@[i as int].entry_key());
                        }
                    }
                    lemma_push(kept@, nf);
                }
                let ghost kept_before = kept@;
                kept.push(nf);
                proof {
                    assert forall|k: Seq<char>|
                        #[trigger] as_map(kept@).contains_key(k) <==> (exists|j: int|
                            0 <= j < i + 1 && !marks@[j] && #[trigger] self.frames@[j].id@ == k) by {
                        if exists|j: int| 0 <= j < i + 1 && !marks@[j] && #[trigger] self.frames@[j].id@ == k {
                            let j = choose|j: int| 0 <= j < i + 1 && !marks@[j] && #[trigger] self.frames@[j].id@ == k;
                            if j < i {
                                assert(as_map(kept_before).contains_key(k));
                            }
                        }
                        if as_map(kept@).contains_key(k) && k != nf.id@ {
                            assert(as_map(kept_before).contains_key(k));
                        }
                    }
                    assert forall|j: int| 0 <= j < kept@.len() implies (#[trigger] kept@[j]).wf() by {
                        if j < kept_before.len() {
                            assert(kept@[j] == kept_before[j]);
                        }
                    }
                }
            } else {
                proof {
                    assert forall|k: Seq<char>|
                        #[trigger] as_map(kept@).contains_key(k) <==> (exists|j: int|
                            0 <= j < i + 1 && !marks@[j] && #[trigger] self.frames@[j].id@ == k) by {
                        if exists|j: int| 0 <= j < i + 1 && !marks@[j] && #[trigger] self.frames@[j].id@ == k {
                            let j = choose|j: int| 0 <= j < i + 1 && !marks@[j] && #[trigger] self.frames@[j].id@ == k;
                            assert(j != i);
                        }
                    }
                }
            }
            i = i + 1;
        }
        proof {
            assert forall|k: Seq<char>| #[trigger] as_map(kept@).contains_key(k) <==> without_frames(
                m,
                removal,
            ).contains_key(k) by {
                if m.contains_key(k) && !removal.contains(k) {
                    let j = choose|j: int| 0 <= j < n && #[trigger] self.frames@[j].entry_key() == k;
                    assert(self.frames@[j].id@ == k);
                }
                if as_map(kept@).contains_key(k) {
                    let j = choose|j: int| 0 <= j < n && !marks@[j] && #[trigger] self.frames@[j].id@ == k;
                    lemma_lookup(self.frames@, j);
                }
            }
            assert(as_map(kept@) =~= without_frames(m, removal));
        }
        self.frames = kept;
    }

    /// Replace the frame at `i` by `f`, which has the same id.
    fn replace_frame(&mut self, i: usize, f: Frame)
        requires
            old(self).wf(),
            f.wf(),
            i < old(self).frames@.len(),
            old(self).frames@[i as int].id@ == f.id@,
        ensures
            final(self).wf(),
            final(self).frames@ == old(self).frames@.update(i as int, f),
            final(self).main_frame == old(self).main_frame,
            final(self).context_to_frame == old(self).context_to_frame,
            final(self).isolated_worlds == old(self).isolated_worlds,
            final(self)@ == (FrameStateView { frames: old(self)@.frames.insert(f.id@, f@), ..old(self)@ }),
    {
        set_frame(&mut self.frames, i, f);
        assert forall|j: int| 0 <= j < self.frames@.len() implies (#[trigger] self.frames@[j]).wf() by {
            if j != i {
                assert(self.frames@[j] == old(self).frames@[j]);
            }
        }
    }

    /// The frame at `i`, copied, with its own facts.
    fn frame_copy(&self, i: usize) -> (r: Frame)
        requires
            self.wf(),
            i < self.frames@.len(),
        ensures
            r.wf(),
            r.id@ == self.frames@[i as int].id@,
            r@ == self@.frames[r.id@],
            r@ == self.frames@[i as int]@,
            self@.frames.contains_key(r.id@),
            r.child_frames@ == self.frames@[i as int].child_frames@,
            r.worlds@ == self.frames@[i as int].worlds@,
            r.lifecycle_events@ == self.frames@[i as int].lifecycle_events@,
    {
        proof {
            lemma_lookup(self.frames@, i as int);
        }
        let r = self.frames[i].clone_frame();
        assert(self.frames@[i as int].wf());
        r
    }

    /// Update the frame tree for one protocol event.
    pub fn handle_event(&mut self, e: FrameEvent)
        requires
            old(self).wf(),
        ensures
            final(self).wf(),
            final(self)@ == apply_event(old(self)@, e),
    {
        let ghost e0 = e;
        match e {
            FrameEvent::FrameAttached { frame_id, parent_frame_id } => {
                match find(&self.frames, parent_frame_id.as_str()) {
                    Some(pi) => {
                        let mut pf = self.frame_copy(pi);
                        insert_entry(&mut pf.child_frames, frame_id.clone());
                        self.replace_frame(pi, pf);
                    },
                    None => {
                        proof {
                            if self@.frames.contains_key(parent_frame_id@) {
                                assert(crate::keyed::has_key(self.frames@, parent_frame_id@));
                            }
                        }
                    },
                }
                let nf = Frame {
                    id: frame_id,
                    parent_id: Some(parent_frame_id),
                    url: String::new(),
                    name: None,
                    child_frames: Vec::new(),
                    execution_context_id: None,
                    worlds: Vec::new(),
                    lifecycle_events: Vec::new(),
                    has_started_loading: false,
                };
                proof {
                    lemma_empty(nf.child_frames@);
                    lemma_empty(nf.worlds@);
                    lemma_empty(nf.lifecycle_events@);
                }
                self.put_frame(nf);
            },
            FrameEvent::FrameNavigated { frame } => {
                let is_main = match &self.main_frame {
                    Some(m) => str_eq(m.as_str(), frame.id.as_str()),
                    None => false,
                };
                if is_main {
                    match find(&self.frames, frame.id.as_str()) {
                        Some(i) => {
                            proof {
                                lemma_lookup(self.frames@, i as int);
                            }
                            let children = clone_strings(&self.frames[i].child_frames);
                            self.remove_reached(&children);
                        },
                        None => {
                            proof {
                                if self@.frames.contains_key(frame.id@) {
                                    assert(crate::keyed::has_key(self.frames@, frame.id@));
                                }
                            }
                        },
                    }
                }
                let ghost s1 = self@;
                match find(&self.frames, frame.id.as_str()) {
                    Some(i) => {
                        let mut f = self.frame_copy(i);
                        f.url = frame.url;
                        f.name = frame.name;
                        f.has_started_loading = true;
                        f.lifecycle_events = Vec::new();
                        proof {
                            lemma_empty(f.lifecycle_events@);
                        }
                        self.replace_frame(i, f);
                    },
                    None => {
                        proof {
                            if s1.frames.contains_key(frame.id@) {
                                assert(crate::keyed::has_key(self.frames@, frame.id@));
                            }
                        }
                        let f = Frame::from_cdp(&frame);
                        if self.main_frame.is_none() {
                            self.main_frame = Some(frame.id);
                        }
                        self.put_frame(f);
                    },
                }
            },
            FrameEvent::FrameDetached { frame_id } => {
                self.remove_frame_recursive(&frame_id);
            },
            FrameEvent::NavigatedWithinDocument { frame_id, url } => {
                match find(&self.frames, frame_id.as_str()) {
                    Some(i) => {
                        let mut f = self.frame_copy(i);
                        f.url = url;
                        self.replace_frame(i, f);
                    },
                    None => {
                        proof {
                            if self@.frames.contains_key(frame_id@) {
                                assert(crate::keyed::has_key(self.frames@, frame_id@));
                            }
                        }
                    },
                }
            },
            FrameEvent::LifecycleEvent { frame_id, name } => {
                match find(&self.frames, frame_id.as_str()) {
                    Some(i) => {
                        let mut f = self.frame_copy(i);
                        insert_entry(&mut f.lifecycle_events, name);
                        self.replace_frame(i, f);
                    },
                    None => {
                        proof {
                            if self@.frames.contains_key(frame_id@) {
                                assert(crate::keyed::has_key(self.frames@, frame_id@));
                            }
                        }
                    },
                }
            },
            FrameEvent::FrameStartedLoading { frame_id } => {
                match find(&self.frames, frame_id.as_str()) {
                    Some(i) => {
                        let mut f = self.frame_copy(i);
                        f.has_started_loading = true;
                        f.lifecycle_events = Vec::new();
                        proof {
                            lemma_empty(f.lifecycle_events@);
                        }
                        self.replace_frame(i, f);
                    },
                    None => {
                        proof {
                            if self@.frames.contains_key(frame_id@) {
                                assert(crate::keyed::has_key(self.frames@, frame_id@));
                            }
                        }
                    },
                }
            },
            FrameEvent::FrameStoppedLoading { frame_id } => {
                match find(&self.frames, frame_id.as_str()) {
                    Some(i) => {
                        let mut f = self.frame_copy(i);
                        f.has_started_loading = true;
                        insert_entry(&mut f.lifecycle_events, "load".to_owned());
                        insert_entry(&mut f.lifecycle_events, "DOMContentLoaded".to_owned());
                        self.replace_frame(i, f);
                    },
                    None => {
                        proof {
                            if self@.frames.contains_key(frame_id@) {
                                assert(crate::keyed::has_key(self.frames@, frame_id@));
                            }
                        }
                    },
                }
            },
            FrameEvent::ExecutionContextCreated { id, name, unique_id, frame_id, is_default } => {
                match frame_id {
                    Some(fid) => {
                        let world = if is_default {
                            String::new()
                        } else {
                            name.clone()
                        };
                        let ce = ContextEntry { unique_id: unique_id, frame_id: fid.clone(), world_name: world };
                        insert_entry(&mut self.context_to_frame, ce);
                        assert(self@.context_to_frame == apply_event(old(self)@, e0).context_to_frame);
                        match find(&self.frames, fid.as_str()) {
                            Some(i) => {
                                if is_default {
                                    let mut f = self.frame_copy(i);
                                    f.execution_context_id = Some(id);
                                    self.replace_frame(i, f);
                                } else if !name.as_str().is_empty() {
                                    let mut f = self.frame_copy(i);
                                    insert_entry(&mut f.worlds, (name, id));
                                    self.replace_frame(i, f);
                                }
                            },
                            None => {
                                proof {
                                    if self@.frames.contains_key(fid@) {
                                        assert(crate::keyed::has_key(self.frames@, fid@));
                                    }
                                }
                            },
                        }
                    },
                    None => {},
                }
            },
            FrameEvent::ExecutionContextDestroyed { unique_id } => {
                let removed = remove_key(&mut self.context_to_frame, unique_id.as_str());
                assert(self@.context_to_frame == apply_event(old(self)@, e0).context_to_frame);
                match removed {
                    Some(entry) => {
                        match find(&self.frames, entry.frame_id.as_str()) {
                            Some(i) => {
                                if entry.world_name.as_str().is_empty() {
                                    let mut f = self.frame_copy(i);
                                    f.execution_context_id = None;
                                    self.replace_frame(i, f);
                                } else {
                                    let mut f = self.frame_copy(i);
                                    let _ = remove_key(&mut f.worlds, entry.world_name.as_str());
                                    self.replace_frame(i, f);
                                }
                            },
                            None => {
                                proof {
                                    if self@.frames.contains_key(entry.frame_id@) {
                                        assert(crate::keyed::has_key(self.frames@, entry.frame_id@));
                                    }
                                }
                            },
                        }
                    },
                    None => {
                        proof {
                            if old(self)@.context_to_frame.contains_key(unique_id@) {
                                assert(crate::keyed::has_key(old(self).context_to_frame@, unique_id@));
                            }
                        }
                    },
                }
            },
            FrameEvent::ExecutionContextsCleared => {
                self.context_to_frame = Vec::new();
                proof {
                    lemma_empty(self.context_to_frame@);
                }
                self.clear_contexts();
                assert(self@.context_to_frame == apply_event(old(self)@, e0).context_to_frame);
            },
        }
    }

    /// Forget every frame's execution contexts.
    fn clear_contexts(&mut self)
        requires
            old(self).wf(),
        ensures
            final(self).wf(),
            final(self)@ == (FrameStateView {
                frames: Map::new(
                    |k: Seq<char>| old(self)@.frames.contains_key(k),
                    |k: Seq<char>|
                        FrameView {
                            execution_context_id: None,
                            worlds: Map::empty(),
                            ..old(self)@.frames[k]
                        },
                ),
                ..old(self)@
            }),
    {
        let ghost s0 = self.frames@;
        let mut i: usize = 0;
        while i < self.frames.len()
            invariant
                i <= self.frames@.len(),
                self.frames@.len() == s0.len(),
                self.wf(),
                keys_distinct(s0),
                self.main_frame == old(self).main_frame,
                self.context_to_frame == old(self).context_to_frame,
                self.isolated_worlds == old(self).isolated_worlds,
                s0 == old(self).frames@,
                forall|j: int| 0 <= j < s0.len() ==> #[trigger] self.frames@[j].id@ == s0[j].id@,
                forall|j: int|
                    0 <= j < i ==> #[trigger] self.frames@[j]@ == (FrameView {
                        execution_context_id: None,
                        worlds: Map::empty(),
                        ..s0[j]@
                    }),
                forall|j: int| i <= j < s0.len() ==> #[trigger] self.frames@[j] == s0[j],
            decreases s0.len() - i,
        {
            let mut f = self.frame_copy(i);
            f.execution_context_id = None;
            f.worlds = Vec::new();
            proof {
                lemma_empty(f.worlds@);
            }
            self.replace_frame(i, f);
            i = i + 1;
        }
        proof {
            let target = Map::new(
                |k: Seq<char>| old(self)@.frames.contains_key(k),
                |k: Seq<char>|
                    FrameView {
                        execution_context_id: None,
                        worlds: Map::empty(),
                        ..old(self)@.frames[k]
                    },
            );
            assert forall|k: Seq<char>| #[trigger] as_map(self.frames@).contains_key(k) <==> target.contains_key(k) by {
                if as_map(self.frames@).contains_key(k) {
                    let j = choose|j: int| 0 <= j < self.frames@.len() && #[trigger] self.frames@[j].entry_key() == k;
                    assert(s0[j].entry_key() == k);
                }
                if target.contains_key(k) {
                    let j = choose|j: int| 0 <= j < s0.len() && #[trigger] s0[j].entry_key() == k;
                    assert(self.frames@[j].entry_key() == k);
                }
            }
            assert forall|k: Seq<char>| #[trigger] as_map(self.frames@).contains_key(k) implies as_map(self.frames@)[k] == target[k] by {
                let j = choose|j: int| 0 <= j < self.frames@.len() && #[trigger] self.frames@[j].entry_key() == k;
                lemma_lookup(self.frames@, j);
                lemma_lookup(s0, j);
            }
            assert(as_map(self.frames@) =~= target);
        }
    }

    /// Record a reported frame tree; a node without parent becomes the
    /// main frame.
    pub fn populate_tree(&mut self, tree: &FrameTree, parent_id: Option<&String>)
        requires
            old(self).wf(),
        ensures
            final(self).wf(),
            final(self)@ == populated(
                old(self)@,
                *tree,
                match parent_id {
                    Some(p) => Some(p@),
                    None => None,
                },
            ),
        decreases *tree, num_children(*tree) + 1,
    {
        let ghost parent = match parent_id {
            Some(p) => Some(p@),
            None => None::<Seq<char>>,
        };
        let mut frame = Frame::from_cdp(&tree.frame);
        frame.parent_id = match parent_id {
            Some(p) => Some(p.clone()),
            None => None,
        };
        let frame_id = frame.id.clone();
        if parent_id.is_none() {
            self.main_frame = Some(frame_id.clone());
        }
        match parent_id {
            Some(pid) => {
                match find(&self.frames, pid.as_str()) {
                    Some(pi) => {
                        let mut pf = self.frame_copy(pi);
                        insert_entry(&mut pf.child_frames, frame_id.clone());
                        self.replace_frame(pi, pf);
                    },
                    None => {
                        proof {
                            if self@.frames.contains_key(pid@) {
                                assert(crate::keyed::has_key(self.frames@, pid@));
                            }
                        }
                    },
                }
            },
            None => {},
        }
        self.put_frame(frame);
        assert(self@ == populate_step(old(self)@, tree.frame, parent));
        match &tree.child_frames {
            Some(children) => {
                let mut i: usize = 0;
                while i < children.len()
                    invariant
                        i <= children@.len(),
                        self.wf(),
                        tree.child_frames == Some(*children),
                        frame_id@ == tree.frame.id@,
                        populated(old(self)@, *tree, parent) == populated_children(self@, *tree, i as int),
                    decreases children@.len() - i,
                {
                    proof {
                        assert(decreases_to!(*tree => children@[i as int]));
                    }
                    self.populate_tree(&children[i], Some(&frame_id));
                    i = i + 1;
                }
            },
            None => {},
        }
    }

    /// Remove a frame and all the frames below it.
    pub fn remove_frame_recursive(&mut self, frame_id: &String)
        requires
            old(self).wf(),
        ensures
            final(self).wf(),
            final(self)@ == remove_subtrees(old(self)@, set![frame_id@]),
    {
        let roots = single_key(frame_id);
        self.remove_reached(&roots);
    }

    /// Whether `event_name` has fired on `frame_id` and, recursively, on
    /// every child frame that has started loading.
    pub fn check_lifecycle_recursive(&self, frame_id: &String, event_name: &str) -> (r: bool)
        requires
            self.wf(),
        ensures
            r == lifecycle_complete(self@.frames, frame_id@, set![event_name@]),
    {
        let roots = single_key(frame_id);
        let marks = reachable(&self.frames, &roots, true);
        let ghost m = as_map(self.frames@);
        let ghost rch = reach::<Frame>(m, set![frame_id@], true);
        match find(&self.frames, frame_id.as_str()) {
            None => {
                return false;
            },
            Some(_) => {},
        }
        let mut i: usize = 0;
        while i < self.frames.len()
            invariant
                i <= self.frames@.len(),
                self.wf(),
                m == as_map(self.frames@),
                rch == reach::<Frame>(m, set![frame_id@], true),
                marks@.len() == self.frames@.len(),
                forall|j: int| 0 <= j < self.frames@.len() ==> #[trigger] marks@[j] == rch.contains(self.frames@[j].id@),
                forall|j: int|
                    0 <= j < i && marks@[j] ==> key_set(self.frames@[j].lifecycle_events@).contains(
                        event_name@,
                    ),
            decreases self.frames@.len() - i,
        {
            if marks[i] {
                if !crate::keyed::contains_key(&self.frames[i].lifecycle_events, event_name) {
                    proof {
                        lemma_lookup(self.frames@, i as int);
                        assert(!m[self.frames@[i as int].id@].lifecycle_events.contains(event_name@));
                        assert(set![event_name@].contains(event_name@));
                    }
                    return false;
                }
            }
            proof {
                crate::keyed::lemma_key_set_is_dom(self.frames@[i as int].lifecycle_events@);
            }
            i = i + 1;
        }
        proof {
            assert forall|x: Seq<char>| #[trigger] rch.contains(x) implies set![event_name@].subset_of(
                m[x].lifecycle_events,
            ) by {
                crate::graph::lemma_reach_present::<Frame>(m, set![frame_id@], true, x);
                let j = choose|j: int| 0 <= j < self.frames@.len() && #[trigger] self.frames@[j].entry_key() == x;
                lemma_lookup(self.frames@, j);
                assert(marks@[j]);
                assert(m[x].lifecycle_events.contains(event_name@));
                assert forall|y: Seq<char>| set![event_name@].contains(y) implies m[x].lifecycle_events.contains(y) by {}
            }
        }
        true
    }
}

/// The frame an event of the protocol describes: its id, parent, URL and
/// name, when its id and URL are strings.
pub open spec fn frame_info_fits(info: FrameInfo, v: Option<JsonValue>) -> bool {
    &&& str_of(field_of(v, "id"@)) == Some(info.id@)
    &&& str_of(field_of(v, "url"@)) == Some(info.url@)
    &&& opt_str(info.parent_id) == str_of(field_of(v, "parentId"@))
    &&& opt_str(info.name) == str_of(field_of(v, "name"@))
}

/// `e` is the frame event that the protocol event `method` with `params`
/// carries; `None` when it carries none (another method, or a member the
/// handler reads is missing).
pub open spec fn frame_event_fits(e: Option<FrameEvent>, method: Seq<char>, params: JsonValue) -> bool {
    let fid = str_of(field(params, "frameId"@));
    match e {
        Some(FrameEvent::FrameAttached { frame_id, parent_frame_id }) => method == "Page.frameAttached"@
            && fid == Some(frame_id@) && str_of(field(params, "parentFrameId"@)) == Some(parent_frame_id@),
        Some(FrameEvent::FrameNavigated { frame }) => method == "Page.frameNavigated"@
            && frame_info_fits(frame, field(params, "frame"@)),
        Some(FrameEvent::FrameDetached { frame_id }) => method == "Page.frameDetached"@ && fid == Some(
            frame_id@,
        ),
        Some(FrameEvent::NavigatedWithinDocument { frame_id, url }) => method
            == "Page.navigatedWithinDocument"@ && fid == Some(frame_id@) && str_of(field(params, "url"@))
            == Some(url@),
        Some(FrameEvent::LifecycleEvent { frame_id, name }) => method == "Page.lifecycleEvent"@ && fid
            == Some(frame_id@) && str_of(field(params, "name"@)) == Some(name@),
        Some(FrameEvent::FrameStartedLoading { frame_id }) => method == "Page.frameStartedLoading"@ && fid
            == Some(frame_id@),
        Some(FrameEvent::FrameStoppedLoading { frame_id }) => method == "Page.frameStoppedLoading"@ && fid
            == Some(frame_id@),
        Some(FrameEvent::ExecutionContextCreated { id, name, unique_id, frame_id, is_default }) => {
            let ctx = field(params, "context"@);
            let aux = field_of(ctx, "auxData"@);
            &&& method == "Runtime.executionContextCreated"@
            &&& i64_of(field_of(ctx, "id"@)) == Some(id)
            &&& str_of(field_of(ctx, "name"@)) == Some(name@)
            &&& str_of(field_of(ctx, "uniqueId"@)) == Some(unique_id@)
            &&& opt_str(frame_id) == str_of(field_of(aux, "frameId"@))
            &&& is_default == (bool_of(field_of(aux, "isDefault"@)) == Some(true))
        },
        Some(FrameEvent::ExecutionContextDestroyed { unique_id }) => method
            == "Runtime.executionContextDestroyed"@ && str_of(field(params, "executionContextUniqueId"@))
            == Some(unique_id@),
        Some(FrameEvent::ExecutionContextsCleared) => method == "Runtime.executionContextsCleared"@,
        None => carries_no_frame_event(method, params),
    }
}

/// The protocol event carries no frame event: another method, or a member
/// that the handler reads is missing.
pub open spec fn carries_no_frame_event(method: Seq<char>, params: JsonValue) -> bool {
    let fid = str_of(field(params, "frameId"@));
    let frame = field(params, "frame"@);
    let ctx = field(params, "context"@);
    if method == "Page.frameAttached"@ {
        fid is None || str_of(field(params, "parentFrameId"@)) is None
    } else if method == "Page.frameNavigated"@ {
        str_of(field_of(frame, "id"@)) is None || str_of(field_of(frame, "url"@)) is None
    } else if method == "Page.frameDetached"@ {
        fid is None
    } else if method == "Page.navigatedWithinDocument"@ {
        fid is None || str_of(field(params, "url"@)) is None
    } else if method == "Page.lifecycleEvent"@ {
        fid is None || str_of(field(params, "name"@)) is None
    } else if method == "Page.frameStartedLoading"@ {
        fid is None
    } else if method == "Page.frameStoppedLoading"@ {
        fid is None
    } else if method == "Runtime.executionContextCreated"@ {
        i64_of(field_of(ctx, "id"@)) is None || str_of(field_of(ctx, "name"@)) is None || str_of(
            field_of(ctx, "uniqueId"@),
        ) is None
    } else if method == "Runtime.executionContextDestroyed"@ {
        str_of(field(params, "executionContextUniqueId"@)) is None
    } else {
        method != "Runtime.executionContextsCleared"@
    }
}

/// The frame event that a protocol event carries, if any.
pub fn frame_event_of(method: &str, params: &JsonValue) -> (r: Option<FrameEvent>)
    ensures
        frame_event_fits(r, method@, *params),
{
    let fid = string_of(get(params, "frameId"));
    if str_eq(method, "Page.frameAttached") {
        match (fid, string_of(get(params, "parentFrameId"))) {
            (Some(f), Some(p)) => Some(FrameEvent::FrameAttached { frame_id: f, parent_frame_id: p }),
            _ => None,
        }
    } else if str_eq(method, "Page.frameNavigated") {
        let frame = get(params, "frame");
        match (string_of(get_opt(frame, "id")), string_of(get_opt(frame, "url"))) {
            (Some(id), Some(url)) => Some(
                FrameEvent::FrameNavigated {
                    frame: FrameInfo {
                        id,
                        parent_id: string_of(get_opt(frame, "parentId")),
                        url,
                        name: string_of(get_opt(frame, "name")),
                    },
                },
            ),
            _ => None,
        }
    } else if str_eq(method, "Page.frameDetached") {
        match fid {
            Some(f) => Some(FrameEvent::FrameDetached { frame_id: f }),
            None => None,
        }
    } else if str_eq(method, "Page.navigatedWithinDocument") {
        match (fid, string_of(get(params, "url"))) {
            (Some(f), Some(u)) => Some(FrameEvent::NavigatedWithinDocument { frame_id: f, url: u }),
            _ => None,
        }
    } else if str_eq(method, "Page.lifecycleEvent") {
        match (fid, string_of(get(params, "name"))) {
            (Some(f), Some(n)) => Some(FrameEvent::LifecycleEvent { frame_id: f, name: n }),
            _ => None,
        }
    } else if str_eq(method, "Page.frameStartedLoading") {
        match fid {
            Some(f) => Some(FrameEvent::FrameStartedLoading { frame_id: f }),
            None => None,
        }
    } else if str_eq(method, "Page.frameStoppedLoading") {
        match fid {
            Some(f) => Some(FrameEvent::FrameStoppedLoading { frame_id: f }),
            None => None,
        }
    } else if str_eq(method, "Runtime.executionContextCreated") {
        let ctx = get(params, "context");
        let aux = get_opt(ctx, "auxData");
        match (as_i64(get_opt(ctx, "id")), string_of(get_opt(ctx, "name")), string_of(get_opt(ctx, "uniqueId"))) {
            (Some(id), Some(name), Some(unique_id)) => Some(
                FrameEvent::ExecutionContextCreated {
                    id,
                    name,
                    unique_id,
                    frame_id: string_of(get_opt(aux, "frameId")),
                    is_default: as_bool(get_opt(aux, "isDefault")) == Some(true),
                },
            ),
            _ => None,
        }
    } else if str_eq(method, "Runtime.executionContextDestroyed") {
        match string_of(get(params, "executionContextUniqueId")) {
            Some(u) => Some(FrameEvent::ExecutionContextDestroyed { unique_id: u }),
            None => None,
        }
    } else if str_eq(method, "Runtime.executionContextsCleared") {
        Some(FrameEvent::ExecutionContextsCleared)
    } else {
        None
    }
}

} // verus!
