//! The accessibility tree: a flat list of nodes, as the browser reports
//! them, turned into a tree of plain nodes.
use vstd::prelude::*;

use crate::error::Error;
use crate::frame::{clone_opt_string, clone_strings, opt_str};
use crate::keyed::{as_map, has_key, insert_entry, key_set, keys_distinct, lemma_empty, remove_key, KeyedEntry};

verus! {

/// A node in the accessibility tree.
#[derive(Debug)]
pub struct AXNode {
    pub role: String,
    pub name: Option<String>,
    pub value: Option<String>,
    pub description: Option<String>,
    pub children: Vec<AXNode>,
}

/// What an [`AXNode`] stands for: its strings and its subtrees.
pub struct AXTree {
    pub role: Seq<char>,
    pub name: Option<Seq<char>>,
    pub value: Option<Seq<char>>,
    pub description: Option<Seq<char>>,
    pub children: Seq<AXTree>,
}

/// The tree that a node stands for.
pub open spec fn tree_of(n: AXNode) -> AXTree
    decreases n,
{
    AXTree {
        role: n.role@,
        name: opt_str(n.name),
        value: opt_str(n.value),
        description: opt_str(n.description),
        children: trees_of(n.children@),
    }
}

/// The trees that a list of nodes stands for.
pub open spec fn trees_of(v: Seq<AXNode>) -> Seq<AXTree>
    decreases v,
{
    if v.len() == 0 {
        Seq::empty()
    } else {
        trees_of(v.drop_last()).push(tree_of(v.last()))
    }
}

/// One node as the browser reports it: its id, its role, name, value and
/// description where they are strings, and the ids of its children.
#[derive(Debug)]
pub struct AXRawNode {
    pub node_id: String,
    pub role: Option<String>,
    pub name: Option<String>,
    pub value: Option<String>,
    pub description: Option<String>,
    pub child_ids: Vec<String>,
}

/// A node waiting to be placed in the tree, keyed by its id.
pub struct AXPending {
    pub node_id: String,
    pub node: AXNode,
    pub child_ids: Vec<String>,
}

/// What a pending node carries: the node's own strings and its children's ids.
pub struct AXPendingView {
    pub role: Seq<char>,
    pub name: Option<Seq<char>>,
    pub value: Option<Seq<char>>,
    pub description: Option<Seq<char>>,
    pub child_ids: Seq<Seq<char>>,
}

/// The ids of a list of strings.
pub open spec fn str_seqs(v: Seq<String>) -> Seq<Seq<char>> {
    v.map_values(|s: String| s@)
}

impl KeyedEntry for AXPending {
    type Val = AXPendingView;

    open spec fn entry_key(&self) -> Seq<char> {
        self.node_id@
    }

    open spec fn entry_val(&self) -> AXPendingView {
        AXPendingView {
            role: self.node.role@,
            name: opt_str(self.node.name),
            value: opt_str(self.node.value),
            description: opt_str(self.node.description),
            child_ids: str_seqs(self.child_ids@),
        }
    }

    fn key_str(&self) -> (r: &str) {
        self.node_id.as_str()
    }
}

/// The node put in place of an id that is unknown or already placed.
pub open spec fn placeholder_tree() -> AXTree {
    AXTree { role: "none"@, name: None, value: None, description: None, children: Seq::empty() }
}

/// The tree under `id`, built from the pending nodes `m`, which each node
/// leaves as it is placed; with what is left of `m`.  Children come in the
/// order of their ids; an id that is not pending gives a placeholder.
pub open spec fn ax_build(m: Map<Seq<char>, AXPendingView>, id: Seq<char>) -> (
    AXTree,
    Map<Seq<char>, AXPendingView>,
)
    decreases m.dom().len(), 0int,
{
    if m.contains_key(id) && m.remove(id).dom().len() < m.dom().len() {
        let e = m[id];
        let (kids, rest) = ax_build_list(m.remove(id), e.child_ids);
        (
            AXTree {
                role: e.role,
                name: e.name,
                value: e.value,
                description: e.description,
                children: kids,
            },
            rest,
        )
    } else {
        (placeholder_tree(), m)
    }
}

/// The trees under `ids`, built one after the other from `m`.
pub open spec fn ax_build_list(m: Map<Seq<char>, AXPendingView>, ids: Seq<Seq<char>>) -> (
    Seq<AXTree>,
    Map<Seq<char>, AXPendingView>,
)
    decreases m.dom().len(), ids.len(),
{
    if ids.len() == 0 {
        (Seq::empty(), m)
    } else {
        let (t, m1) = ax_build(m, ids[0]);
        if m1.dom().len() <= m.dom().len() {
            let (ts, m2) = ax_build_list(m1, ids.drop_first());
            (seq![t] + ts, m2)
        } else {
            (seq![t], m1)
        }
    }
}

/// A keyed vector with distinct keys holds as many keys as entries.
proof fn lemma_distinct_len(s: Seq<AXPending>)
    requires
        keys_distinct(s),
    ensures
        key_set(s).finite(),
        key_set(s).len() == s.len(),
    decreases s.len(),
{
    if s.len() == 0 {
        lemma_empty(s);
    } else {
        let t = s.drop_last();
        let k = s.last().entry_key();
        assert(keys_distinct(t)) by {
            assert forall|i: int, j: int|
                0 <= i < t.len() && 0 <= j < t.len() && i != j implies #[trigger] t[i].entry_key()
                != #[trigger] t[j].entry_key() by {
                assert(t[i] == s[i] && t[j] == s[j]);
            }
        }
        lemma_distinct_len(t);
        assert(!key_set(t).contains(k)) by {
            if has_key(t, k) {
                let i = choose|i: int| 0 <= i < t.len() && #[trigger] t[i].entry_key() == k;
                assert(s[i].entry_key() == s[s.len() - 1].entry_key());
            }
        }
        assert(key_set(s) =~= key_set(t).insert(k)) by {
            assert forall|x: Seq<char>| key_set(s).contains(x) implies #[trigger] key_set(t).insert(
                k,
            ).contains(x) by {
                let i = choose|i: int| 0 <= i < s.len() && #[trigger] s[i].entry_key() == x;
                if i < s.len() - 1 {
                    assert(t[i].entry_key() == x);
                }
            }
            assert forall|x: Seq<char>| key_set(t).insert(k).contains(x) implies #[trigger] key_set(
                s,
            ).contains(x) by {
                if x == k {
                    assert(s[s.len() - 1].entry_key() == x);
                } else {
                    let i = choose|i: int| 0 <= i < t.len() && #[trigger] t[i].entry_key() == x;
                    assert(s[i].entry_key() == x);
                }
            }
        }
    }
}

/// The pending map of a keyed vector has as many keys as the vector has entries.
proof fn lemma_map_len(s: Seq<AXPending>)
    requires
        keys_distinct(s),
    ensures
        as_map(s).dom().finite(),
        as_map(s).dom().len() == s.len(),
{
    lemma_distinct_len(s);
    assert(as_map(s).dom() =~= key_set(s));
}

/// A node with no children: the node's own strings.
fn leaf(role: String, name: Option<String>, value: Option<String>, description: Option<String>) -> (r: AXNode)
    ensures
        r.role == role,
        r.name == name,
        r.value == value,
        r.description == description,
        r.children@.len() == 0,
{
    AXNode { role, name, value, description, children: Vec::new() }
}

/// Build the tree under `node_id` from the pending nodes, taking each node
/// out as it is placed (so that a node listed twice is placed once, and a
/// cycle ends).  An id that is not pending gives a placeholder node with
/// role "none".
pub fn build_tree(node_id: &str, nodes: &mut Vec<AXPending>) -> (r: Result<AXNode, Error>)
    requires
        keys_distinct(old(nodes)@),
    ensures
        keys_distinct(final(nodes)@),
        final(nodes)@.len() <= old(nodes)@.len(),
        r is Ok,
        (tree_of(r->Ok_0), as_map(final(nodes)@)) == ax_build(as_map(old(nodes)@), node_id@),
    decreases old(nodes)@.len(),
{
    let ghost m_old = as_map(nodes@);
    proof {
        lemma_map_len(nodes@);
    }
    match remove_key(nodes, node_id) {
        None => {
            proof {
                lemma_map_len(nodes@);
                assert(as_map(nodes@).dom() =~= m_old.dom());
                reveal_strlit("none");
                assert(!m_old.contains_key(node_id@));
                assert(trees_of(Seq::<AXNode>::empty()) =~= Seq::<AXTree>::empty());
            }
            let node = leaf("none".to_owned(), None, None, None);
            proof {
                assert(node.children@ =~= Seq::<AXNode>::empty());
            }
            Ok(node)
        },
        Some(e) => {
            let ghost m0 = as_map(nodes@);
            proof {
                lemma_map_len(nodes@);
                assert(m0 == m_old.remove(node_id@));
            }
            let AXPending { node_id: _, node: start, child_ids } = e;
            let ghost ids = str_seqs(child_ids@);
            let mut node = leaf(start.role, start.name, start.value, start.description);
            let ghost first = ax_build_list(m0, ids);
            proof {
                assert(ids.skip(0) =~= ids);
                assert(node.children@ =~= Seq::<AXNode>::empty());
                assert(trees_of(node.children@) =~= Seq::<AXTree>::empty());
                assert(trees_of(node.children@) + first.0 =~= first.0);
            }
            let mut i: usize = 0;
            while i < child_ids.len()
                invariant
                    i <= child_ids.len(),
                    ids == str_seqs(child_ids@),
                    keys_distinct(nodes@),
                    nodes@.len() < old(nodes)@.len(),
                    as_map(nodes@).dom().finite(),
                    as_map(nodes@).dom().len() == nodes@.len(),
                    first == ax_build_list(m0, ids),
                    first == (
                        trees_of(node.children@) + ax_build_list(as_map(nodes@), ids.skip(i as int)).0,
                        ax_build_list(as_map(nodes@), ids.skip(i as int)).1,
                    ),
                    node.role@ == e.node.role@,
                    opt_str(node.name) == opt_str(e.node.name),
                    opt_str(node.value) == opt_str(e.node.value),
                    opt_str(node.description) == opt_str(e.node.description),
                decreases child_ids.len() - i,
            {
                let ghost mi = as_map(nodes@);
                let ghost before = node.children@;
                let child = build_tree(child_ids[i].as_str(), nodes);
                proof {
                    lemma_map_len(nodes@);
                    let rest = ids.skip(i as int);
                    assert(rest[0] == child_ids@[i as int]@);
                    assert(rest.drop_first() =~= ids.skip(i + 1));
                }
                if let Ok(c) = child {
                    node.children.push(c);
                    proof {
                        assert(node.children@.drop_last() =~= before);
                        let rest = ids.skip(i as int);
                        let tail = ax_build_list(as_map(nodes@), ids.skip(i + 1));
                        assert(ax_build_list(mi, rest).0 == seq![tree_of(c)] + tail.0);
                        assert(trees_of(node.children@) == trees_of(before).push(tree_of(c)));
                        assert(trees_of(before) + ax_build_list(mi, rest).0 =~= trees_of(
                            node.children@,
                        ) + tail.0);
                    }
                }
                i = i + 1;
            }
            proof {
                assert(ids.skip(i as int) =~= Seq::<Seq<char>>::empty());
                assert(trees_of(node.children@) + Seq::<AXTree>::empty() =~= trees_of(
                    node.children@,
                ));
            }
            Ok(node)
        },
    }
}

/// The pending nodes of a flat list: each node by its id, a later node
/// with the same id in place of an earlier one.
pub open spec fn pending_map(s: Seq<AXRawNode>) -> Map<Seq<char>, AXPendingView>
    decreases s.len(),
{
    if s.len() == 0 {
        Map::empty()
    } else {
        pending_map(s.drop_last()).insert(s.last().node_id@, raw_view(s.last()))
    }
}

/// What a reported node leaves pending: its role ("none" when it has
/// none), its strings and its children's ids.
pub open spec fn raw_view(n: AXRawNode) -> AXPendingView {
    AXPendingView {
        role: match n.role {
            Some(r) => r@,
            None => "none"@,
        },
        name: opt_str(n.name),
        value: opt_str(n.value),
        description: opt_str(n.description),
        child_ids: str_seqs(n.child_ids@),
    }
}

/// The id the tree is built from: the first node's, or the empty id when
/// there are no nodes.
pub open spec fn root_id(s: Seq<AXRawNode>) -> Seq<char> {
    if s.len() == 0 {
        Seq::empty()
    } else {
        s[0].node_id@
    }
}

/// The accessibility tree of a page from the flat list of its nodes: the
/// tree under the first node, each child placed where its id is listed.
pub fn snapshot_tree(nodes: &Vec<AXRawNode>) -> (r: Result<AXNode, Error>)
    ensures
        r is Ok,
        tree_of(r->Ok_0) == ax_build(pending_map(nodes@), root_id(nodes@)).0,
{
    let mut pending: Vec<AXPending> = Vec::new();
    let mut root: Option<String> = None;
    proof {
        lemma_empty(pending@);
        assert(as_map(pending@) =~= pending_map(nodes@.take(0)));
    }
    let mut i: usize = 0;
    while i < nodes.len()
        invariant
            i <= nodes.len(),
            keys_distinct(pending@),
            as_map(pending@) == pending_map(nodes@.take(i as int)),
            match root {
                Some(r) => i > 0 && r@ == root_id(nodes@),
                None => i == 0,
            },
        decreases nodes.len() - i,
    {
        let raw = &nodes[i];
        if root.is_none() {
            root = Some(raw.node_id.clone());
        }
        let role = match &raw.role {
            Some(r) => r.clone(),
            None => "none".to_owned(),
        };
        let entry = AXPending {
            node_id: raw.node_id.clone(),
            node: leaf(
                role,
                clone_opt_string(&raw.name),
                clone_opt_string(&raw.value),
                clone_opt_string(&raw.description),
            ),
            child_ids: clone_strings(&raw.child_ids),
        };
        proof {
            reveal_strlit("none");
            assert(nodes@.take(i + 1).drop_last() =~= nodes@.take(i as int));
            assert(entry.entry_val() == raw_view(nodes@[i as int]));
        }
        insert_entry(&mut pending, entry);
        i = i + 1;
    }
    proof {
        assert(nodes@.take(i as int) =~= nodes@);
    }
    let root_id = match root {
        Some(r) => r,
        None => String::new(),
    };
    proof {
        if nodes@.len() == 0 {
            assert(root_id@ =~= Seq::<char>::empty());
        }
    }
    build_tree(root_id.as_str(), &mut pending)
}

} // verus!
