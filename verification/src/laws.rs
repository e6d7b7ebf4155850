//! Properties that span the library's operations: what an event does to the
//! frame tree, what pressing then releasing leaves, what a registered query
//! handler resolves, what the trackers forget, and which transformations
//! can be applied twice to no further effect.
use vstd::prelude::*;

use crate::browser::{flag, names_user_data_dir, valued};
use crate::frame::{
    apply_event, remove_subtrees, subtree, without_frames, FrameEvent, FrameStateView, FrameView,
};
use crate::graph::lemma_root_reached;
use crate::input::{button_flag, pressed_button, MouseButton};
use crate::json::{field, str_of, JsonValue};
use crate::events::{console_type_of, ConsoleTypeView};
use crate::keyboard_layout::{describe, KeyDefinition};
use crate::lifecycle::{apply_watch, WatchEvent, WatcherView};
use crate::query::{
    builtin_entries, ARIA_QUERY_ALL, ARIA_QUERY_ONE, CSS_QUERY_ALL, CSS_QUERY_ONE, PIERCE_QUERY_ALL, PIERCE_QUERY_ONE,
    TEXT_QUERY_ALL, TEXT_QUERY_ONE, XPATH_QUERY_ALL, XPATH_QUERY_ONE,
};
use crate::locator::{action_steps_of, LocatorAction, LocatorStep, Visibility};
use crate::network::{network_step, NetworkView};
use crate::plugin::{combined, RequestDecision};
use crate::plugins::stealth::{blink_prefix, first_blink, first_blink_from, with_automation_flag};
use crate::query::{
    after_prefix, first_match, has_handler, not_keyed, without_key, QueryHandlerView,
};
use crate::target::{
    add_child, av_find, av_put, av_remove, drop_child, registry_step, target_info_of, AttachedView, RegistryView,
};
use crate::text::{has_text, is_prefix};

verus! {

/// A detached frame leaves the tree with everything below it; every other
/// frame stays.
pub proof fn frame_detach_removes_subtree(s: FrameStateView, frame_id: String)
    ensures
        ({
            let r = apply_event(s, FrameEvent::FrameDetached { frame_id });
            let gone = subtree(s.frames, set![frame_id@]);
            &&& !r.frames.contains_key(frame_id@)
            &&& forall|k: Seq<char>| #[trigger] gone.contains(k) ==> !r.frames.contains_key(k)
            &&& forall|k: Seq<char>|
                s.frames.contains_key(k) && !gone.contains(k) ==> #[trigger] r.frames.contains_key(k)
        }),
{
    if s.frames.contains_key(frame_id@) {
        lemma_root_reached::<crate::frame::Frame>(s.frames, set![frame_id@], false, frame_id@);
    }
}

/// Every child a frame lists is a frame whose parent is that frame.
pub open spec fn links_consistent(frames: Map<Seq<char>, FrameView>) -> bool {
    forall|f: Seq<char>, c: Seq<char>|
        #![trigger frames[f].child_frames.contains(c)]
        frames.contains_key(f) && frames[f].child_frames.contains(c) ==> frames.contains_key(c)
            && frames[c].parent_id == Some(f)
}

/// Every child lies deeper than its parent by `depth`.
pub open spec fn ranked_by(frames: Map<Seq<char>, FrameView>, depth: spec_fn(Seq<char>) -> int) -> bool {
    forall|f: Seq<char>, c: Seq<char>|
        #![trigger frames[f].child_frames.contains(c), depth(c)]
        frames.contains_key(f) && frames[f].child_frames.contains(c) ==> depth(f) < depth(c)
}

/// The child links have no cycle: some depth puts every child below its
/// parent.
pub open spec fn links_acyclic(frames: Map<Seq<char>, FrameView>) -> bool {
    exists|depth: spec_fn(Seq<char>) -> int| ranked_by(frames, depth)
}

/// An event keeps the frame tree consistent and free of cycles: no child
/// link dangles or disagrees with the child's parent, and none closes a
/// cycle.  (A `Page.frameAttached` of a frame that is already known is
/// left out: attached under another parent, the old parent would still
/// list it as a child.)
pub proof fn frame_tree_stays_consistent(s: FrameStateView, e: FrameEvent)
    requires
        links_consistent(s.frames),
        links_acyclic(s.frames),
        !(e matches FrameEvent::FrameAttached { frame_id, .. } && s.frames.contains_key(frame_id@)),
    ensures
        links_consistent(apply_event(s, e).frames),
        links_acyclic(apply_event(s, e).frames),
{
    let depth = choose|depth: spec_fn(Seq<char>) -> int| ranked_by(s.frames, depth);
    let r = apply_event(s, e).frames;
    match e {
        FrameEvent::FrameAttached { frame_id, parent_frame_id } => {
            let f = frame_id@;
            let p = parent_frame_id@;
            assert forall|g: Seq<char>| s.frames.contains_key(g) implies !#[trigger] s.frames[g].child_frames.contains(f) by {
                if s.frames[g].child_frames.contains(f) {
                    assert(s.frames.contains_key(f));
                }
            }
            let d2 = |x: Seq<char>| if x == f { depth(p) + 1 } else { depth(x) };
            assert forall|a: Seq<char>, c: Seq<char>|
                r.contains_key(a) && #[trigger] r[a].child_frames.contains(c) implies r.contains_key(c)
                && r[c].parent_id == Some(a) && d2(a) < d2(c) by {
                if a == f {
                } else if a == p && s.frames.contains_key(p) {
                    if c != f {
                        assert(s.frames[p].child_frames.contains(c));
                    }
                } else {
                    assert(s.frames[a].child_frames.contains(c));
                    assert(c != f);
                }
            }
            assert(ranked_by(r, d2));
        },
        FrameEvent::FrameNavigated { frame } => {
            let id = frame.id@;
            let s1 = if s.main_frame == Some(id) && s.frames.contains_key(id) {
                remove_subtrees(s, s.frames[id].child_frames)
            } else {
                s
            };
            if s.main_frame == Some(id) && s.frames.contains_key(id) {
                lemma_removal_keeps_links(s.frames, subtree(s.frames, s.frames[id].child_frames), depth);
            }
            if s1.frames.contains_key(id) {
                assert(r.dom() =~= s1.frames.dom());
                lemma_same_links(s1.frames, r, depth);
            } else {
                assert forall|g: Seq<char>| s1.frames.contains_key(g) implies !#[trigger] s1.frames[g].child_frames.contains(id) by {
                    if s1.frames[g].child_frames.contains(id) {
                        assert(s1.frames.contains_key(id));
                    }
                }
                assert forall|a: Seq<char>, c: Seq<char>|
                    r.contains_key(a) && #[trigger] r[a].child_frames.contains(c) implies r.contains_key(c)
                    && r[c].parent_id == Some(a) && depth(a) < depth(c) by {
                    if a != id {
                        assert(s1.frames[a].child_frames.contains(c));
                        assert(c != id);
                    }
                }
                assert(ranked_by(r, depth));
            }
        },
        FrameEvent::FrameDetached { frame_id } => {
            lemma_removal_keeps_links(s.frames, subtree(s.frames, set![frame_id@]), depth);
        },
        _ => {
            assert(r.dom() =~= s.frames.dom());
            lemma_same_links(s.frames, r, depth);
        },
    }
}

/// Frames with the same ids, children and parents keep consistency and a
/// depth.
proof fn lemma_same_links(a: Map<Seq<char>, FrameView>, b: Map<Seq<char>, FrameView>, depth: spec_fn(Seq<char>) -> int)
    requires
        links_consistent(a),
        ranked_by(a, depth),
        a.dom() == b.dom(),
        forall|k: Seq<char>| #[trigger] a.contains_key(k) ==> b[k].child_frames == a[k].child_frames
            && b[k].parent_id == a[k].parent_id,
    ensures
        links_consistent(b),
        ranked_by(b, depth),
        links_acyclic(b),
{
    assert forall|f: Seq<char>, c: Seq<char>|
        b.contains_key(f) && #[trigger] b[f].child_frames.contains(c) implies b.contains_key(c) && b[c].parent_id
        == Some(f) && depth(f) < depth(c) by {
        assert(a.contains_key(f));
        assert(a[f].child_frames.contains(c));
        assert(a.contains_key(c));
    }
}

/// Removing frames, and the removed ones from their parents' children,
/// keeps consistency and a depth.
proof fn lemma_removal_keeps_links(
    frames: Map<Seq<char>, FrameView>,
    removal: Set<Seq<char>>,
    depth: spec_fn(Seq<char>) -> int,
)
    requires
        links_consistent(frames),
        ranked_by(frames, depth),
    ensures
        links_consistent(without_frames(frames, removal)),
        ranked_by(without_frames(frames, removal), depth),
        links_acyclic(without_frames(frames, removal)),
{
    let w = without_frames(frames, removal);
    assert forall|f: Seq<char>, c: Seq<char>|
        w.contains_key(f) && #[trigger] w[f].child_frames.contains(c) implies w.contains_key(c) && w[c].parent_id
        == Some(f) && depth(f) < depth(c) by {
        assert(frames[f].child_frames.contains(c));
        assert(frames.contains_key(c) && frames[c].parent_id == Some(f));
        if removal.contains(c) {
            assert(crate::frame::orphans(frames, removal, f).contains(c));
        }
    }
}

/// A frame that starts loading forgets the lifecycle events it had seen.
pub proof fn frame_started_loading_clears_events(s: FrameStateView, frame_id: String)
    requires
        s.frames.contains_key(frame_id@),
    ensures
        ({
            let r = apply_event(s, FrameEvent::FrameStartedLoading { frame_id });
            &&& r.frames.contains_key(frame_id@)
            &&& r.frames[frame_id@].lifecycle_events == Set::<Seq<char>>::empty()
            &&& r.frames[frame_id@].has_started_loading
        }),
{
}

/// A lifecycle event of a known frame is recorded for it.
pub proof fn frame_lifecycle_event_recorded(s: FrameStateView, frame_id: String, name: String)
    requires
        s.frames.contains_key(frame_id@),
    ensures
        ({
            let r = apply_event(s, FrameEvent::LifecycleEvent { frame_id, name });
            r.frames.contains_key(frame_id@) && r.frames[frame_id@].lifecycle_events.contains(name@)
        }),
{
}

/// A destroyed execution context is no longer tracked.
pub proof fn frame_context_destroyed_untracked(s: FrameStateView, unique_id: String)
    ensures
        !apply_event(s, FrameEvent::ExecutionContextDestroyed { unique_id }).context_to_frame.contains_key(
            unique_id@,
        ),
{
}

/// After contexts are cleared, no frame holds one.
pub proof fn frame_contexts_cleared(s: FrameStateView, k: Seq<char>)
    requires
        s.frames.contains_key(k),
    ensures
        ({
            let r = apply_event(s, FrameEvent::ExecutionContextsCleared);
            &&& r.context_to_frame == Map::<Seq<char>, (Seq<char>, Seq<char>)>::empty()
            &&& r.frames[k].execution_context_id is None
            &&& r.frames[k].worlds == Map::<Seq<char>, i64>::empty()
        }),
{
}

/// Pressing a mouse button that is up and releasing it again restores the
/// bitmask.
pub proof fn mouse_press_release_restores(buttons: i64, b: MouseButton)
    requires
        buttons & button_flag(b) == 0,
    ensures
        (buttons | button_flag(b)) & !button_flag(b) == buttons,
{
    let f = button_flag(b);
    assert(f == 0 || f == 1 || f == 2 || f == 4 || f == 8 || f == 16);
    assert(buttons & f == 0 ==> (buttons | f) & !f == buttons) by (bit_vector);
}

/// The button that a single pressed button's flag reports is that button.
pub proof fn mouse_button_flag_round_trip(b: MouseButton)
    ensures
        pressed_button(button_flag(b)) == b,
{
    assert(1i64 & 1 != 0) by (bit_vector);
    assert(2i64 & 1 == 0 && 2i64 & 2 != 0) by (bit_vector);
    assert(4i64 & 1 == 0 && 4i64 & 2 == 0 && 4i64 & 4 != 0) by (bit_vector);
    assert(8i64 & 1 == 0 && 8i64 & 2 == 0 && 8i64 & 4 == 0 && 8i64 & 8 != 0) by (bit_vector);
    assert(16i64 & 1 == 0 && 16i64 & 2 == 0 && 16i64 & 4 == 0 && 16i64 & 8 == 0 && 16i64 & 16 != 0)
        by (bit_vector);
    assert(0i64 & 1 == 0 && 0i64 & 2 == 0 && 0i64 & 4 == 0 && 0i64 & 8 == 0 && 0i64 & 16 == 0)
        by (bit_vector);
}

/// Pressing a key and releasing it leaves the same keys held as before,
/// but for that key: the code it holds does not depend on the modifiers.
pub proof fn key_press_release(pressed: Set<Seq<char>>, def: KeyDefinition, m1: i64, m2: i64)
    ensures
        pressed.insert(describe(def, m1).code).remove(describe(def, m2).code) == pressed.remove(
            describe(def, m1).code,
        ),
{
    assert(pressed.insert(describe(def, m1).code).remove(describe(def, m2).code) =~= pressed.remove(
        describe(def, m1).code,
    ));
}

/// A handler registered under a name other than "css" resolves a selector
/// that starts with that name and `=`, with the rest of the selector, unless
/// a custom handler registered before it matches the selector first.
pub proof fn registered_handler_resolves(
    customs: Seq<(Seq<char>, QueryHandlerView)>,
    builtins: Seq<(Seq<char>, QueryHandlerView)>,
    name: Seq<char>,
    handler: QueryHandlerView,
    rest: Seq<char>,
)
    requires
        name != "css"@,
        first_match(without_key(customs, name), name + seq!['='] + rest, 0) is None,
    ensures
        first_match(
            without_key(customs, name).push((name, handler)) + without_key(builtins, name),
            name + seq!['='] + rest,
            0,
        ) == Some((without_key(customs, name).len() as int, rest)),
{
    let a = without_key(customs, name);
    let x = seq![(name, handler)] + without_key(builtins, name);
    let sel = name + seq!['='] + rest;
    assert(a.push((name, handler)) + without_key(builtins, name) =~= a + x);
    lemma_first_match_concat(a, x, sel, 0);
    assert((a + x)[a.len() as int] == (name, handler));
    assert(sel.subrange(0, (name + seq!['=']).len() as int) =~= name + seq!['=']);
    assert(sel.subrange((name + seq!['=']).len() as int, sel.len() as int) =~= rest);
    assert(after_prefix(name, '=', sel) == Some(rest));
}

/// A custom handler registered earlier keeps winning the selectors it
/// matches when another handler is registered later: the first registered
/// custom handler is matched first.
pub proof fn earlier_handler_still_resolves(
    customs: Seq<(Seq<char>, QueryHandlerView)>,
    builtins: Seq<(Seq<char>, QueryHandlerView)>,
    name: Seq<char>,
    handler: QueryHandlerView,
    selector: Seq<char>,
)
    requires
        first_match(without_key(customs, name), selector, 0) is Some,
    ensures
        first_match(
            without_key(customs, name).push((name, handler)) + without_key(builtins, name),
            selector,
            0,
        ) == first_match(without_key(customs, name), selector, 0),
{
    let a = without_key(customs, name);
    let x = seq![(name, handler)] + without_key(builtins, name);
    assert(a.push((name, handler)) + without_key(builtins, name) =~= a + x);
    lemma_first_match_concat(a, x, selector, 0);
}

/// Matching in entries followed by more entries: a match among the first
/// entries is the match; else the search goes on after them.
proof fn lemma_first_match_concat(
    a: Seq<(Seq<char>, QueryHandlerView)>,
    x: Seq<(Seq<char>, QueryHandlerView)>,
    selector: Seq<char>,
    i: int,
)
    requires
        0 <= i <= a.len(),
    ensures
        first_match(a + x, selector, i) == match first_match(a, selector, i) {
            Some(m) => Some(m),
            None => first_match(a + x, selector, a.len() as int),
        },
    decreases a.len() - i,
{
    if i < a.len() {
        assert((a + x)[i] == a[i]);
        lemma_first_match_concat(a, x, selector, i + 1);
    }
}

/// An unregistered name has no handler any more.
pub proof fn unregistered_handler_gone(entries: Seq<(Seq<char>, QueryHandlerView)>, name: Seq<char>)
    ensures
        !has_handler(without_key(entries, name), name),
{
    let t = without_key(entries, name);
    if has_handler(t, name) {
        let i = choose|i: int| 0 <= i < t.len() && #[trigger] t[i].0 == name;
        entries.lemma_filter_pred(not_keyed(name), i);
    }
}

/// A request that is sent is in flight; one that finished or failed is not.
pub proof fn network_inflight(s: NetworkView, params: JsonValue, i: Seq<char>)
    requires
        str_of(field(params, "requestId"@)) == Some(i),
    ensures
        network_step(s, Some(s.session_id), "Network.requestWillBeSent"@, params).0.inflight.contains(i),
        !network_step(s, Some(s.session_id), "Network.loadingFinished"@, params).0.inflight.contains(i),
        !network_step(s, Some(s.session_id), "Network.loadingFailed"@, params).0.inflight.contains(i),
{
    reveal_strlit("Network.requestWillBeSent");
    reveal_strlit("Network.responseReceived");
    reveal_strlit("Network.loadingFinished");
    reveal_strlit("Network.loadingFailed");
    assert("Network.loadingFinished"@ != "Network.requestWillBeSent"@) by {
        assert("Network.loadingFinished"@[8] != "Network.requestWillBeSent"@[8]);
    }
    assert("Network.loadingFinished"@ != "Network.responseReceived"@) by {
        assert("Network.loadingFinished"@[8] != "Network.responseReceived"@[8]);
    }
    assert("Network.loadingFailed"@ != "Network.requestWillBeSent"@) by {
        assert("Network.loadingFailed"@[8] != "Network.requestWillBeSent"@[8]);
    }
    assert("Network.loadingFailed"@ != "Network.responseReceived"@) by {
        assert("Network.loadingFailed"@[8] != "Network.responseReceived"@[8]);
    }
    assert("Network.loadingFailed"@ != "Network.loadingFinished"@) by {
        assert("Network.loadingFailed"@[18] != "Network.loadingFinished"@[18]);
    }
}

/// No two attached targets share an id.
pub open spec fn distinct_ids(v: Seq<AttachedView>) -> bool {
    forall|i: int, j: int| 0 <= i < v.len() && 0 <= j < v.len() && i != j ==> #[trigger] v[i].target_id
        != #[trigger] v[j].target_id
}

/// A destroyed target is neither discovered nor attached any more.
pub proof fn target_destroyed_forgotten(s: RegistryView, params: JsonValue, id: Seq<char>)
    requires
        distinct_ids(s.attached),
        str_of(field(params, "targetId"@)) == Some(id),
    ensures
        ({
            let r = registry_step(s, None, "Target.targetDestroyed"@, params).0;
            !r.discovered.contains_key(id) && av_find(r.attached, id) is None
        }),
{
    reveal_strlit("Target.targetCreated");
    reveal_strlit("Target.targetInfoChanged");
    reveal_strlit("Target.targetDestroyed");
    assert("Target.targetDestroyed"@ != "Target.targetCreated"@) by {
        assert("Target.targetDestroyed"@[13] != "Target.targetCreated"@[13]);
    }
    assert("Target.targetDestroyed"@ != "Target.targetInfoChanged"@) by {
        assert("Target.targetDestroyed"@[13] != "Target.targetInfoChanged"@[13]);
    }
    let r = registry_step(s, None, "Target.targetDestroyed"@, params).0;
    let v = s.attached;
    match av_find(v, id) {
        Some(k) => {
            let w = v.remove(k);
            assert(r.attached == w);
            if exists|j: int| 0 <= j < w.len() && #[trigger] w[j].target_id == id {
                let j = choose|j: int| 0 <= j < w.len() && #[trigger] w[j].target_id == id;
                if j < k {
                    assert(w[j] == v[j]);
                } else {
                    assert(w[j] == v[j + 1]);
                }
            }
        },
        None => {},
    }
}

/// A target attached in a session, and then detached from that session, is
/// attached no more, and its session is gone.
pub proof fn target_attach_detach(
    s: RegistryView,
    attach: JsonValue,
    detach: JsonValue,
    attach_parent: Option<Seq<char>>,
    detach_parent: Option<Seq<char>>,
    sid: Seq<char>,
)
    requires
        distinct_ids(s.attached),
        str_of(field(attach, "sessionId"@)) == Some(sid),
        target_info_of(attach) is Some,
        str_of(field(detach, "sessionId"@)) == Some(sid),
    ensures
        ({
            let id = target_info_of(attach)->0.target_id;
            let r1 = registry_step(s, attach_parent, "Target.attachedToTarget"@, attach).0;
            let r2 = registry_step(r1, detach_parent, "Target.detachedFromTarget"@, detach).0;
            &&& av_find(r1.attached, id) is Some
            &&& av_find(r2.attached, id) is None
            &&& !r2.sessions.contains_key(sid)
        }),
{
    reveal_strlit("Target.targetCreated");
    reveal_strlit("Target.targetInfoChanged");
    reveal_strlit("Target.targetDestroyed");
    reveal_strlit("Target.attachedToTarget");
    reveal_strlit("Target.detachedFromTarget");
    assert("Target.attachedToTarget"@ != "Target.targetCreated"@) by {
        assert("Target.attachedToTarget"@[7] != "Target.targetCreated"@[7]);
    }
    assert("Target.attachedToTarget"@ != "Target.targetInfoChanged"@) by {
        assert("Target.attachedToTarget"@[7] != "Target.targetInfoChanged"@[7]);
    }
    assert("Target.attachedToTarget"@ != "Target.targetDestroyed"@) by {
        assert("Target.attachedToTarget"@[7] != "Target.targetDestroyed"@[7]);
    }
    assert("Target.detachedFromTarget"@ != "Target.targetCreated"@) by {
        assert("Target.detachedFromTarget"@[7] != "Target.targetCreated"@[7]);
    }
    assert("Target.detachedFromTarget"@ != "Target.targetInfoChanged"@) by {
        assert("Target.detachedFromTarget"@[7] != "Target.targetInfoChanged"@[7]);
    }
    assert("Target.detachedFromTarget"@ != "Target.targetDestroyed"@) by {
        assert("Target.detachedFromTarget"@[7] != "Target.targetDestroyed"@[7]);
    }
    assert("Target.detachedFromTarget"@ != "Target.attachedToTarget"@) by {
        assert("Target.detachedFromTarget"@[7] != "Target.attachedToTarget"@[7]);
    }
    let i = target_info_of(attach)->0;
    let id = i.target_id;
    let fresh = AttachedView {
        target_id: id,
        session_id: sid,
        info: i,
        status: crate::target::InitStatus::Pending,
        children: Seq::empty(),
    };
    let a1 = av_put(s.attached, fresh);
    lemma_av_put_distinct(s.attached, fresh);
    let sessions = s.sessions.insert(sid, id);
    let a2 = add_child(a1, sessions, attach_parent, id);
    lemma_same_ids_distinct(a1, a2);
    let k = av_find(a2, id)->0;
    let r1 = registry_step(s, attach_parent, "Target.attachedToTarget"@, attach).0;
    assert(av_find(a2, id) is Some) by {
        assert(a2[av_find(a1, id)->0].target_id == id);
    }
    lemma_same_ids_distinct(a2, r1.attached);
    assert(r1.attached[k].target_id == id);
    assert(r1.sessions == sessions);
    assert(r1.sessions[sid] == id);
    let b1 = drop_child(r1.attached, r1.sessions.remove(sid), detach_parent, id);
    lemma_same_ids_distinct(r1.attached, b1);
    let r2 = registry_step(r1, detach_parent, "Target.detachedFromTarget"@, detach).0;
    assert(r2.attached == av_remove(b1, id));
    lemma_av_remove_gone(b1, id);
}

/// Putting a target in a registry whose ids are distinct keeps them
/// distinct, and the target is found.
proof fn lemma_av_put_distinct(v: Seq<AttachedView>, a: AttachedView)
    requires
        distinct_ids(v),
    ensures
        distinct_ids(av_put(v, a)),
        av_find(av_put(v, a), a.target_id) is Some,
{
    let w = av_put(v, a);
    match av_find(v, a.target_id) {
        Some(i) => {
            assert(w[i].target_id == a.target_id);
            assert forall|x: int, y: int| 0 <= x < w.len() && 0 <= y < w.len() && x != y implies #[trigger] w[x].target_id
                != #[trigger] w[y].target_id by {
                assert(w[x].target_id == v[x].target_id);
                assert(w[y].target_id == v[y].target_id);
            }
        },
        None => {
            assert(w[v.len() as int].target_id == a.target_id);
            assert forall|x: int, y: int| 0 <= x < w.len() && 0 <= y < w.len() && x != y implies #[trigger] w[x].target_id
                != #[trigger] w[y].target_id by {
                if x < v.len() && y < v.len() {
                    assert(w[x] == v[x] && w[y] == v[y]);
                } else if x < v.len() {
                    assert(w[x] == v[x]);
                } else {
                    assert(w[y] == v[y]);
                }
            }
        },
    }
}

/// Two lists of attached targets with the same ids in the same places.
spec fn same_ids(v: Seq<AttachedView>, w: Seq<AttachedView>) -> bool {
    v.len() == w.len() && forall|k: int| 0 <= k < v.len() ==> #[trigger] w[k].target_id == v[k].target_id
}

/// Changing children or status keeps the ids, and so keeps them distinct.
proof fn lemma_same_ids_distinct(v: Seq<AttachedView>, w: Seq<AttachedView>)
    requires
        distinct_ids(v),
        same_ids(v, w),
    ensures
        distinct_ids(w),
        forall|id: Seq<char>| (av_find(v, id) is Some) == (av_find(w, id) is Some),
{
    assert forall|x: int, y: int| 0 <= x < w.len() && 0 <= y < w.len() && x != y implies #[trigger] w[x].target_id
        != #[trigger] w[y].target_id by {
        assert(w[x].target_id == v[x].target_id);
        assert(w[y].target_id == v[y].target_id);
    }
    assert forall|id: Seq<char>| (av_find(v, id) is Some) == (av_find(w, id) is Some) by {
        if av_find(v, id) is Some {
            let j = av_find(v, id)->0;
            assert(w[j].target_id == id);
        }
        if av_find(w, id) is Some {
            let j = av_find(w, id)->0;
            assert(v[j].target_id == w[j].target_id);
        }
    }
}

/// With distinct ids, no target keeps the id that was removed.
proof fn lemma_av_remove_gone(v: Seq<AttachedView>, id: Seq<char>)
    requires
        distinct_ids(v),
    ensures
        av_find(av_remove(v, id), id) is None,
{
    let w = av_remove(v, id);
    if let Some(i) = av_find(v, id) {
        if exists|j: int| 0 <= j < w.len() && #[trigger] w[j].target_id == id {
            let j = choose|j: int| 0 <= j < w.len() && #[trigger] w[j].target_id == id;
            if j < i {
                assert(w[j] == v[j]);
            } else {
                assert(w[j] == v[j + 1]);
            }
        }
    }
}

/// Decisions of "continue" change nothing; the last other decision wins.
pub proof fn decisions_last_wins(ds: Seq<RequestDecision>, d: RequestDecision)
    ensures
        combined(ds.push(RequestDecision::Continue)) == combined(ds),
        !(d is Continue) ==> combined(ds.push(d)) == d,
        combined(Seq::<RequestDecision>::empty()) is Continue,
{
    assert(ds.push(RequestDecision::Continue).drop_last() =~= ds);
    assert(ds.push(d).drop_last() =~= ds);
}

/// A launch always names a profile directory once the launcher has given
/// it one where it had none.
pub proof fn profile_directory_named(args: Seq<(Seq<char>, Option<Seq<char>>)>, temp_dir: Seq<char>)
    ensures
        names_user_data_dir(
            if names_user_data_dir(args) {
                args
            } else {
                args.push(valued("--user-data-dir"@, temp_dir))
            },
        ),
{
    if !names_user_data_dir(args) {
        let t = args.push(valued("--user-data-dir"@, temp_dir));
        assert(t[args.len() as int].0 == "--user-data-dir"@);
    }
}

/// Where two command lines agree before `i` and both turn blink features
/// off at `i`, the first such argument from `k` on is the same.
proof fn lemma_first_blink_same(a: Seq<Seq<char>>, b: Seq<Seq<char>>, i: int, k: int)
    requires
        0 <= k <= i < a.len(),
        a.len() <= b.len(),
        forall|j: int| 0 <= j < i ==> a[j] == b[j],
        is_prefix(blink_prefix(), b[i]),
        first_blink_from(a, k) == Some(i),
    ensures
        first_blink_from(b, k) == Some(i),
    decreases i - k,
{
    if k < i {
        assert(a[k] == b[k]);
        lemma_first_blink_same(a, b, i, k + 1);
    }
}

/// A command line with no argument that turns blink features off from `k`
/// on, and one such argument added at the end, has that one first.
proof fn lemma_first_blink_pushed(a: Seq<Seq<char>>, x: Seq<char>, k: int)
    requires
        0 <= k <= a.len(),
        first_blink_from(a, k) is None,
        is_prefix(blink_prefix(), x),
    ensures
        first_blink_from(a.push(x), k) == Some(a.len() as int),
    decreases a.len() - k,
{
    if k < a.len() {
        assert(a.push(x)[k] == a[k]);
        lemma_first_blink_pushed(a, x, k + 1);
    } else {
        assert(a.push(x)[k] == x);
    }
}

/// Switching off the "automation controlled" feature twice does no more
/// than once.
pub proof fn automation_flag_idempotent(args: Seq<Seq<char>>)
    ensures
        with_automation_flag(with_automation_flag(args)) == with_automation_flag(args),
{
    reveal_strlit("--disable-blink-features=");
    reveal_strlit("AutomationControlled");
    reveal_strlit(",AutomationControlled");
    reveal_strlit("--disable-blink-features=AutomationControlled");
    let once = with_automation_flag(args);
    let pat = "AutomationControlled"@;
    match first_blink(args) {
        Some(i) => {
            lemma_first_blink_found(args, 0, i);
            if !has_text(args[i], pat) {
                let a = args[i] + ",AutomationControlled"@;
                let k = a.len() - pat.len();
                assert(a.subrange(k, k + pat.len()) =~= pat);
                assert(has_text(a, pat));
                assert(a.subrange(0, blink_prefix().len() as int) =~= args[i].subrange(
                    0,
                    blink_prefix().len() as int,
                ));
                assert(is_prefix(blink_prefix(), a));
                assert(once[i] == a);
                lemma_first_blink_same(args, once, i, 0);
            }
        },
        None => {
            let n = "--disable-blink-features=AutomationControlled"@;
            assert(n.subrange(0, blink_prefix().len() as int) =~= blink_prefix());
            assert(is_prefix(blink_prefix(), n));
            assert(n.subrange(25int, 25int + pat.len()) =~= pat);
            assert(has_text(n, pat));
            lemma_first_blink_pushed(args, n, 0);
        },
    }
}

/// The first argument found turns blink features off, and lies in range.
proof fn lemma_first_blink_found(a: Seq<Seq<char>>, k: int, i: int)
    requires
        0 <= k,
        first_blink_from(a, k) == Some(i),
    ensures
        k <= i < a.len(),
        is_prefix(blink_prefix(), a[i]),
    decreases a.len() - k,
{
    if k < a.len() && !is_prefix(blink_prefix(), a[k]) {
        lemma_first_blink_found(a, k + 1, i);
    }
}

/// The stage of a locator step: finding, visibility, filters, viewport,
/// bounding box, enabled.
pub open spec fn step_stage(s: LocatorStep) -> int {
    match s {
        LocatorStep::FindElement => 0,
        LocatorStep::WaitVisibility(_) => 1,
        LocatorStep::Filter(_) => 2,
        LocatorStep::ScrollIntoViewport => 3,
        LocatorStep::StableBoundingBox => 4,
        LocatorStep::WaitEnabled => 5,
    }
}

/// `a` is taken before `b`: an earlier stage, or an earlier filter.
pub open spec fn step_before(a: LocatorStep, b: LocatorStep) -> bool {
    step_stage(a) < step_stage(b) || (a matches LocatorStep::Filter(i) && b matches LocatorStep::Filter(
        j,
    ) && i < j)
}

/// Every attempt of a locator's action finds the element first, and takes
/// its steps in the order: visibility, the filters in turn, into the
/// viewport, a stable bounding box, enabled; no step twice.
pub proof fn locator_pipeline_order(
    visibility: Visibility,
    filters: nat,
    in_viewport: bool,
    stable_box: bool,
    enabled: bool,
    action: LocatorAction,
)
    requires
        filters <= usize::MAX + 1,
    ensures
        action_steps_of(visibility, filters, in_viewport, stable_box, enabled, action)[0]
            == LocatorStep::FindElement,
        forall|i: int, j: int|
            #![trigger action_steps_of(visibility, filters, in_viewport, stable_box, enabled, action)[i], action_steps_of(visibility, filters, in_viewport, stable_box, enabled, action)[j]]
            0 <= i < j < action_steps_of(visibility, filters, in_viewport, stable_box, enabled, action).len()
                ==> step_before(
                action_steps_of(visibility, filters, in_viewport, stable_box, enabled, action)[i],
                action_steps_of(visibility, filters, in_viewport, stable_box, enabled, action)[j],
            ),
{
    let s = action_steps_of(visibility, filters, in_viewport, stable_box, enabled, action);
    let v = match visibility {
        Visibility::Any => Seq::<LocatorStep>::empty(),
        Visibility::Visible => seq![LocatorStep::WaitVisibility(true)],
        Visibility::Hidden => seq![LocatorStep::WaitVisibility(false)],
    };
    let f = Seq::new(filters, |i: int| LocatorStep::Filter(i as usize));
    let a = if in_viewport {
        seq![LocatorStep::ScrollIntoViewport]
    } else {
        Seq::<LocatorStep>::empty()
    };
    let b = if stable_box {
        seq![LocatorStep::StableBoundingBox]
    } else {
        Seq::<LocatorStep>::empty()
    };
    let c = if enabled && (action == LocatorAction::Click || action == LocatorAction::Fill) {
        seq![LocatorStep::WaitEnabled]
    } else {
        Seq::<LocatorStep>::empty()
    };
    let head = seq![LocatorStep::FindElement] + v;
    let tail = a + b + c;
    assert(s =~= head + f + tail);
    let n0 = head.len() as int;
    let n1 = n0 + f.len();
    assert forall|i: int, j: int| 0 <= i < j < s.len() implies step_before(#[trigger] s[i], #[trigger] s[j]) by {
        if j < n0 {
            assert(i == 0 && j == 1);
        } else if j < n1 {
            assert(s[j] == f[j - n0]);
            if i >= n0 {
                assert(s[i] == f[i - n0]);
            }
        } else {
            assert(s[j] == tail[j - n1]);
            if i >= n1 {
                assert(s[i] == tail[i - n1]);
            } else if i >= n0 {
                assert(s[i] == f[i - n0]);
            }
        }
    }
}

/// A navigation within the document of a known frame changes that frame's
/// URL to the new one and nothing else: every other field of the frame,
/// every other frame, the main frame and the execution contexts stay; of
/// an unknown frame, nothing changes.
pub proof fn same_document_navigation_sets_url(s: FrameStateView, frame_id: String, url: String)
    ensures
        ({
            let r = apply_event(s, FrameEvent::NavigatedWithinDocument { frame_id, url });
            &&& r.main_frame == s.main_frame
            &&& r.context_to_frame == s.context_to_frame
            &&& r.isolated_worlds == s.isolated_worlds
            &&& r.frames.dom() == s.frames.dom()
            &&& forall|k: Seq<char>| #[trigger] s.frames.contains_key(k) && k != frame_id@ ==> r.frames[k] == s.frames[k]
            &&& s.frames.contains_key(frame_id@) ==> {
                let before = s.frames[frame_id@];
                let after = r.frames[frame_id@];
                &&& after.url == url@
                &&& after.id == before.id
                &&& after.parent_id == before.parent_id
                &&& after.name == before.name
                &&& after.child_frames == before.child_frames
                &&& after.execution_context_id == before.execution_context_id
                &&& after.worlds == before.worlds
                &&& after.lifecycle_events == before.lifecycle_events
                &&& after.has_started_loading == before.has_started_loading
            }
        }),
{
    let f = frame_id@;
    let r = apply_event(s, FrameEvent::NavigatedWithinDocument { frame_id, url });
    if s.frames.contains_key(f) {
        assert(r.frames.dom() =~= s.frames.dom());
    }
}

/// A lifecycle event of a frame is recorded for it; an `init` event starts
/// a new document, so the frame's earlier events are forgotten and `init`
/// is the only one left, while any other event keeps the earlier ones.
pub proof fn lifecycle_init_starts_over(v: WatcherView, frame_id: String, name: String)
    ensures
        ({
            let r = apply_watch(v, WatchEvent::LifecycleEvent { frame_id: Some(frame_id), name: Some(name) });
            &&& r.frames.contains_key(frame_id@)
            &&& name@ == "init"@ ==> r.frames[frame_id@].lifecycle_events == set!["init"@]
            &&& name@ != "init"@ && v.frames.contains_key(frame_id@) ==> r.frames[frame_id@].lifecycle_events
                == v.frames[frame_id@].lifecycle_events.insert(name@)
            &&& forall|k: Seq<char>| #[trigger] v.frames.contains_key(k) && k != frame_id@ ==> r.frames.contains_key(k)
                && r.frames[k] == v.frames[k]
        }),
{
    let r = apply_watch(v, WatchEvent::LifecycleEvent { frame_id: Some(frame_id), name: Some(name) });
    if name@ == "init"@ {
        assert(r.frames[frame_id@].lifecycle_events =~= set!["init"@]);
    }
}

/// Each console type name of the protocol has a message type of its own:
/// `log`, `warning`, `error`, `info` and `debug` give Log, Warning, Error,
/// Info and Debug, and no other name gives any of these.
pub proof fn console_types_are_their_own(s: Seq<char>)
    ensures
        (console_type_of(s) == ConsoleTypeView::Log) <==> s == "log"@,
        (console_type_of(s) == ConsoleTypeView::Warning) <==> s == "warning"@,
        (console_type_of(s) == ConsoleTypeView::Error) <==> s == "error"@,
        (console_type_of(s) == ConsoleTypeView::Info) <==> s == "info"@,
        (console_type_of(s) == ConsoleTypeView::Debug) <==> s == "debug"@,
{
    reveal_strlit("log");
    reveal_strlit("warning");
    reveal_strlit("error");
    reveal_strlit("info");
    reveal_strlit("debug");
    assert("log"@.len() == 3 && "warning"@.len() == 7 && "error"@.len() == 5);
    assert("info"@.len() == 4 && "debug"@.len() == 5);
    assert("error"@[0] != "debug"@[0]);
    assert("log"@ != "warning"@ && "log"@ != "error"@ && "log"@ != "info"@ && "log"@ != "debug"@);
    assert("warning"@ != "error"@ && "warning"@ != "info"@ && "warning"@ != "debug"@);
    assert("error"@ != "info"@ && "error"@ != "debug"@ && "info"@ != "debug"@);
}

/// A key pressed while a modifier other than Shift is held types no text;
/// with no modifier held, a key whose value is one character and that has
/// no text of its own types its value.
pub proof fn shortcuts_type_nothing(d: KeyDefinition, modifiers: i64)
    ensures
        modifiers & !8i64 != 0 ==> describe(d, modifiers).text.len() == 0,
        modifiers == 0 && d.text is None && d.key@.len() == 1 ==> describe(d, modifiers).text == d.key@,
{
    if modifiers == 0 {
        assert(0i64 & 8i64 == 0) by (bit_vector);
        assert(0i64 & !8i64 == 0) by (bit_vector);
    }
}

/// Each built-in query handler has bodies of its own: no two built-in
/// handlers share a body, the css handler runs `querySelector` and
/// `querySelectorAll`, the xpath handler evaluates XPath
/// (`document.evaluate`), the text handler walks text nodes
/// (`createTreeWalker`), the pierce handler looks into shadow roots and the
/// aria handler reads accessible names (`aria-label`).
pub proof fn builtin_handlers_are_their_own()
    ensures
        builtin_entries().len() == 5,
        forall|i: int, j: int|
            0 <= i < j < 5 ==> builtin_entries()[i].1.query_one != builtin_entries()[j].1.query_one
                && builtin_entries()[i].1.query_all != builtin_entries()[j].1.query_all,
        forall|i: int|
            0 <= i < 5 && #[trigger] builtin_entries()[i].0 == "css"@ ==> {
                &&& is_prefix("return element.querySelector("@, builtin_entries()[i].1.query_one->0)
                &&& is_prefix("return Array.from(element.querySelectorAll("@, builtin_entries()[i].1.query_all->0)
            },
        forall|i: int|
            0 <= i < 5 && #[trigger] builtin_entries()[i].0 == "xpath"@ ==> {
                &&& has_text(builtin_entries()[i].1.query_one->0, "document.evaluate("@)
                &&& has_text(builtin_entries()[i].1.query_all->0, "document.evaluate("@)
            },
        forall|i: int|
            0 <= i < 5 && #[trigger] builtin_entries()[i].0 == "text"@ ==> {
                &&& has_text(builtin_entries()[i].1.query_one->0, "createTreeWalker("@)
                &&& has_text(builtin_entries()[i].1.query_all->0, "createTreeWalker("@)
            },
        forall|i: int|
            0 <= i < 5 && #[trigger] builtin_entries()[i].0 == "pierce"@ ==> {
                &&& has_text(builtin_entries()[i].1.query_one->0, "shadowRoot"@)
                &&& has_text(builtin_entries()[i].1.query_all->0, "shadowRoot"@)
            },
        forall|i: int|
            0 <= i < 5 && #[trigger] builtin_entries()[i].0 == "aria"@ ==> {
                &&& has_text(builtin_entries()[i].1.query_one->0, "'aria-label'"@)
                &&& has_text(builtin_entries()[i].1.query_all->0, "'aria-label'"@)
            },
{
    lemma_css_bodies();
    lemma_xpath_bodies();
    lemma_text_bodies();
    lemma_pierce_bodies();
    lemma_aria_bodies();
    reveal_strlit("css");
    reveal_strlit("xpath");
    reveal_strlit("text");
    reveal_strlit("pierce");
    reveal_strlit("aria");
    let b = builtin_entries();
    assert(b[0].0 =~= "css"@ && b[1].0 =~= "xpath"@ && b[2].0 =~= "text"@ && b[3].0 =~= "pierce"@ && b[4].0 =~= "aria"@);
    assert("css"@.len() == 3 && "xpath"@.len() == 5 && "text"@.len() == 4 && "pierce"@.len() == 6 && "aria"@.len() == 4);
    assert("text"@[0] != "aria"@[0]);
}

/// What the css handler's bodies are made of.
proof fn lemma_css_bodies()
    ensures
        CSS_QUERY_ONE@.len() == 38,
        CSS_QUERY_ALL@.len() == 53,
        is_prefix("return element.querySelector("@, CSS_QUERY_ONE@),
        is_prefix("return Array.from(element.querySelectorAll("@, CSS_QUERY_ALL@),
{
    reveal_strlit("return element.querySelector(selector)");
    reveal_strlit("return Array.from(element.querySelectorAll(selector))");
    reveal_strlit("return Array.from(element.querySelectorAll(");
    reveal_strlit("return element.querySelector(");
    assert(CSS_QUERY_ONE@.subrange(0, 29) =~= "return element.querySelector("@);
    assert(CSS_QUERY_ALL@.subrange(0, 43) =~= "return Array.from(element.querySelectorAll("@);
}

/// What the xpath handler's bodies are made of.
proof fn lemma_xpath_bodies()
    ensures
        XPATH_QUERY_ONE@.len() == 202,
        XPATH_QUERY_ALL@.len() == 362,
        has_text(XPATH_QUERY_ONE@, "document.evaluate("@),
        has_text(XPATH_QUERY_ALL@, "document.evaluate("@),
{
    reveal_strlit(r#"
                const result = document.evaluate(selector, element, null,
                    XPathResult.FIRST_ORDERED_NODE_TYPE, null);
                return result.singleNodeValue;
                "#);
    reveal_strlit(r#"
                const result = document.evaluate(selector, element, null,
                    XPathResult.ORDERED_NODE_SNAPSHOT_TYPE, null);
                const nodes = [];
                for (let i = 0; i < result.snapshotLength; i++) {
                    nodes.push(result.snapshotItem(i));
                }
                return nodes;
                "#);
    reveal_strlit("document.evaluate(");
    assert(XPATH_QUERY_ONE@.subrange(32, 32int + "document.evaluate("@.len()) =~= "document.evaluate("@);
    assert(XPATH_QUERY_ALL@.subrange(32, 32int + "document.evaluate("@.len()) =~= "document.evaluate("@);
}

/// What the text handler's bodies are made of.
proof fn lemma_text_bodies()
    ensures
        TEXT_QUERY_ONE@.len() == 361,
        TEXT_QUERY_ALL@.len() == 407,
        has_text(TEXT_QUERY_ONE@, "createTreeWalker("@),
        has_text(TEXT_QUERY_ALL@, "createTreeWalker("@),
{
    reveal_strlit(r#"
                const walker = document.createTreeWalker(element, NodeFilter.SHOW_TEXT);
                while (walker.nextNode()) {
                    if (walker.currentNode.textContent.includes(selector)) {
                        return walker.currentNode.parentElement;
                    }
                }
                return null;
                "#);
    reveal_strlit(r#"
                const results = [];
                const walker = document.createTreeWalker(element, NodeFilter.SHOW_TEXT);
                while (walker.nextNode()) {
                    if (walker.currentNode.textContent.includes(selector)) {
                        results.push(walker.currentNode.parentElement);
                    }
                }
                return results;
                "#);
    reveal_strlit("createTreeWalker(");
    assert(TEXT_QUERY_ONE@.subrange(41, 41int + "createTreeWalker("@.len()) =~= "createTreeWalker("@);
    assert(TEXT_QUERY_ALL@.subrange(77, 77int + "createTreeWalker("@.len()) =~= "createTreeWalker("@);
}

/// What the pierce handler's bodies are made of.
proof fn lemma_pierce_bodies()
    ensures
        PIERCE_QUERY_ONE@.len() == 542,
        PIERCE_QUERY_ALL@.len() == 416,
        has_text(PIERCE_QUERY_ONE@, "shadowRoot"@),
        has_text(PIERCE_QUERY_ALL@, "shadowRoot"@),
{
    reveal_strlit(r#"
                function pierce(root, sel) {
                    let found = root.querySelector(sel);
                    if (found) return found;
                    for (const el of root.querySelectorAll('*')) {
                        if (el.shadowRoot) {
                            found = pierce(el.shadowRoot, sel);
                            if (found) return found;
                        }
                    }
                    return null;
                }
                return pierce(element, selector);
                "#);
    reveal_strlit(r#"
                const results = [];
                function pierce(root, sel) {
                    results.push(...root.querySelectorAll(sel));
                    for (const el of root.querySelectorAll('*')) {
                        if (el.shadowRoot) pierce(el.shadowRoot, sel);
                    }
                }
                pierce(element, selector);
                return results;
                "#);
    reveal_strlit("shadowRoot");
    assert(PIERCE_QUERY_ONE@.subrange(246, 246int + "shadowRoot"@.len()) =~= "shadowRoot"@);
    assert(PIERCE_QUERY_ALL@.subrange(245, 245int + "shadowRoot"@.len()) =~= "shadowRoot"@);
}

/// What the aria handler's bodies are made of.
proof fn lemma_aria_bodies()
    ensures
        ARIA_QUERY_ONE@.len() == 666,
        ARIA_QUERY_ALL@.len() == 679,
        has_text(ARIA_QUERY_ONE@, "'aria-label'"@),
        has_text(ARIA_QUERY_ALL@, "'aria-label'"@),
{
    reveal_strlit(r#"
                const match = /^(.*)\[role="(.*)"\]$/.exec(selector);
                const name = match ? match[1] : selector;
                const role = match ? match[2] : null;
                const all = element.querySelectorAll('*');
                for (const el of all) {
                    const aName = el.getAttribute('aria-label') || el.textContent?.trim();
                    const aRole = el.getAttribute('role') || el.tagName.toLowerCase();
                    if (name && aName?.includes(name)) {
                        if (!role || aRole === role) return el;
                    }
                }
                return null;
                "#);
    reveal_strlit(r#"
                const match = /^(.*)\[role="(.*)"\]$/.exec(selector);
                const name = match ? match[1] : selector;
                const role = match ? match[2] : null;
                const results = [];
                for (const el of element.querySelectorAll('*')) {
                    const aName = el.getAttribute('aria-label') || el.textContent?.trim();
                    const aRole = el.getAttribute('role') || el.tagName.toLowerCase();
                    if (name && aName?.includes(name)) {
                        if (!role || aRole === role) results.push(el);
                    }
                }
                return results;
                "#);
    reveal_strlit("'aria-label'");
    assert(ARIA_QUERY_ONE@.subrange(332, 332int + "'aria-label'"@.len()) =~= "'aria-label'"@);
    assert(ARIA_QUERY_ALL@.subrange(335, 335int + "'aria-label'"@.len()) =~= "'aria-label'"@);
}

} // verus!
