//! Reachability over the child links of a keyed vector of frame nodes.
//!
//! Frames name their children by id.  A frame is reached from a set of
//! roots when a chain of child links leads to it through frames that are
//! present; when `need_started` is set, every frame entered through a link
//! must also have started loading.
use vstd::prelude::*;

use crate::keyed::{
    as_map, find, has_key, key_set, keys_distinct, lemma_lookup, KeyedEntry,
};

verus! {

/// A keyed entry that names child entries by key.
pub trait GraphNode: KeyedEntry {
    spec fn val_children(v: Self::Val) -> Set<Seq<char>>;

    spec fn val_started(v: Self::Val) -> bool;

    fn child_ids(&self) -> (r: &Vec<String>)
        ensures
            key_set(r@) == Self::val_children(self.entry_val()),
    ;

    fn started(&self) -> (b: bool)
        ensures
            b == Self::val_started(self.entry_val()),
    ;
}

/// One link of a chain: `c` is a present child of `x` (that has started
/// loading, when `need_started` holds).
pub open spec fn link<E: GraphNode>(
    m: Map<Seq<char>, E::Val>,
    x: Seq<char>,
    c: Seq<char>,
    need_started: bool,
) -> bool {
    &&& m.contains_key(x)
    &&& m.contains_key(c)
    &&& E::val_children(m[x]).contains(c)
    &&& (need_started ==> E::val_started(m[c]))
}

/// A chain of links through present entries.
pub open spec fn is_path<E: GraphNode>(
    m: Map<Seq<char>, E::Val>,
    p: Seq<Seq<char>>,
    need_started: bool,
) -> bool {
    &&& p.len() > 0
    &&& m.contains_key(p[0])
    &&& forall|i: int| 0 <= i < p.len() - 1 ==> #[trigger] link::<E>(m, p[i], p[i + 1], need_started)
}

/// The keys reached from `roots`.
pub open spec fn reach<E: GraphNode>(
    m: Map<Seq<char>, E::Val>,
    roots: Set<Seq<char>>,
    need_started: bool,
) -> Set<Seq<char>> {
    Set::new(
        |x: Seq<char>|
            exists|p: Seq<Seq<char>>|
                #[trigger] is_path::<E>(m, p, need_started) && roots.contains(p[0]) && p.last()
                    == x,
    )
}

pub proof fn lemma_root_reached<E: GraphNode>(
    m: Map<Seq<char>, E::Val>,
    roots: Set<Seq<char>>,
    need_started: bool,
    r: Seq<char>,
)
    requires
        roots.contains(r),
        m.contains_key(r),
    ensures
        reach::<E>(m, roots, need_started).contains(r),
{
    let p = seq![r];
    assert(is_path::<E>(m, p, need_started));
    assert(p.last() == r);
}

pub proof fn lemma_reach_extend<E: GraphNode>(
    m: Map<Seq<char>, E::Val>,
    roots: Set<Seq<char>>,
    need_started: bool,
    x: Seq<char>,
    c: Seq<char>,
)
    requires
        reach::<E>(m, roots, need_started).contains(x),
        link::<E>(m, x, c, need_started),
    ensures
        reach::<E>(m, roots, need_started).contains(c),
{
    let p = choose|p: Seq<Seq<char>>|
        #[trigger] is_path::<E>(m, p, need_started) && roots.contains(p[0]) && p.last() == x;
    let q = p.push(c);
    assert forall|i: int| 0 <= i < q.len() - 1 implies #[trigger] link::<E>(
        m,
        q[i],
        q[i + 1],
        need_started,
    ) by {
        if i < p.len() - 1 {
            assert(q[i] == p[i] && q[i + 1] == p[i + 1]);
            assert(link::<E>(m, p[i], p[i + 1], need_started));
        } else {
            assert(q[i] == x && q[i + 1] == c);
        }
    }
    assert(is_path::<E>(m, q, need_started));
    assert(q.last() == c);
}

pub proof fn lemma_reach_present<E: GraphNode>(
    m: Map<Seq<char>, E::Val>,
    roots: Set<Seq<char>>,
    need_started: bool,
    x: Seq<char>,
)
    requires
        reach::<E>(m, roots, need_started).contains(x),
    ensures
        m.contains_key(x),
{
    let p = choose|p: Seq<Seq<char>>|
        #[trigger] is_path::<E>(m, p, need_started) && roots.contains(p[0]) && p.last() == x;
    if p.len() > 1 {
        assert(link::<E>(m, p[p.len() - 2], p[p.len() - 2 + 1], need_started));
    }
}

proof fn lemma_path_in_closed<E: GraphNode>(
    m: Map<Seq<char>, E::Val>,
    p: Seq<Seq<char>>,
    need_started: bool,
    s: Set<Seq<char>>,
    i: int,
)
    requires
        is_path::<E>(m, p, need_started),
        s.contains(p[0]),
        forall|x: Seq<char>, c: Seq<char>|
            s.contains(x) && #[trigger] link::<E>(m, x, c, need_started) ==> s.contains(c),
        0 <= i < p.len(),
    ensures
        s.contains(p[i]),
    decreases i,
{
    if i > 0 {
        lemma_path_in_closed::<E>(m, p, need_started, s, i - 1);
        assert(link::<E>(m, p[i - 1], p[i - 1 + 1], need_started));
    }
}

/// A set that holds every present root and is closed under links holds
/// everything reached.
pub proof fn lemma_closed_covers_reach<E: GraphNode>(
    m: Map<Seq<char>, E::Val>,
    roots: Set<Seq<char>>,
    need_started: bool,
    s: Set<Seq<char>>,
)
    requires
        forall|r: Seq<char>| roots.contains(r) && m.contains_key(r) ==> s.contains(r),
        forall|x: Seq<char>, c: Seq<char>|
            s.contains(x) && #[trigger] link::<E>(m, x, c, need_started) ==> s.contains(c),
    ensures
        reach::<E>(m, roots, need_started).subset_of(s),
{
    assert forall|x: Seq<char>| reach::<E>(m, roots, need_started).contains(x) implies s.contains(
        x,
    ) by {
        let p = choose|p: Seq<Seq<char>>|
            #[trigger] is_path::<E>(m, p, need_started) && roots.contains(p[0]) && p.last() == x;
        lemma_path_in_closed::<E>(m, p, need_started, s, p.len() - 1);
    }
}

/// Number of `true` entries.
pub open spec fn count_true(s: Seq<bool>) -> nat
    decreases s.len(),
{
    if s.len() == 0 {
        0
    } else {
        count_true(s.drop_last()) + if s.last() {
            1nat
        } else {
            0nat
        }
    }
}

pub proof fn lemma_count_true_bound(s: Seq<bool>)
    ensures
        count_true(s) <= s.len(),
    decreases s.len(),
{
    if s.len() > 0 {
        lemma_count_true_bound(s.drop_last());
    }
}

pub proof fn lemma_count_true_set(s: Seq<bool>, j: int)
    requires
        0 <= j < s.len(),
        !s[j],
    ensures
        count_true(s.update(j, true)) == count_true(s) + 1,
    decreases s.len(),
{
    let t = s.update(j, true);
    if j == s.len() - 1 {
        assert(t.drop_last() =~= s.drop_last());
    } else {
        assert(t.drop_last() =~= s.drop_last().update(j, true));
        lemma_count_true_set(s.drop_last(), j);
    }
}

pub proof fn lemma_count_true_none(s: Seq<bool>)
    requires
        forall|i: int| 0 <= i < s.len() ==> !s[i],
    ensures
        count_true(s) == 0,
    decreases s.len(),
{
    if s.len() > 0 {
        lemma_count_true_none(s.drop_last());
    }
}

/// The keys of the entries whose mark is set.
pub open spec fn marked_keys<E: KeyedEntry>(nodes: Seq<E>, marks: Seq<bool>) -> Set<Seq<char>> {
    Set::new(
        |k: Seq<char>|
            exists|i: int| 0 <= i < nodes.len() && i < marks.len() && marks[i] && #[trigger] nodes[i].entry_key() == k,
    )
}

pub proof fn lemma_marked_keys<E: KeyedEntry>(nodes: Seq<E>, marks: Seq<bool>, j: int)
    requires
        keys_distinct(nodes),
        marks.len() == nodes.len(),
        0 <= j < nodes.len(),
    ensures
        marked_keys(nodes, marks).contains(nodes[j].entry_key()) == marks[j],
{
    if marked_keys(nodes, marks).contains(nodes[j].entry_key()) {
        let i = choose|i: int|
            0 <= i < nodes.len() && i < marks.len() && marks[i] && #[trigger] nodes[i].entry_key()
                == nodes[j].entry_key();
        assert(i == j);
    }
    if marks[j] {
        assert(nodes[j].entry_key() == nodes[j].entry_key());
    }
}

/// For each entry, whether its key is reached from `roots`.
pub fn reachable<E: GraphNode>(nodes: &Vec<E>, roots: &Vec<String>, need_started: bool) -> (marks:
    Vec<bool>)
    requires
        keys_distinct(nodes@),
    ensures
        marks@.len() == nodes@.len(),
        forall|i: int|
            0 <= i < nodes@.len() ==> #[trigger] marks@[i] == reach::<E>(
                as_map(nodes@),
                key_set(roots@),
                need_started,
            ).contains(nodes@[i].entry_key()),
{
    let ghost m = as_map(nodes@);
    let ghost rs = key_set(roots@);
    let ghost r = reach::<E>(m, rs, need_started);
    let n = nodes.len();
    let mut marks: Vec<bool> = Vec::new();
    let mut z: usize = 0;
    while z < n
        invariant
            z <= n,
            n == nodes@.len(),
            marks@.len() == z,
            forall|i: int| 0 <= i < z ==> !marks@[i],
        decreases n - z,
    {
        marks.push(false);
        z = z + 1;
    }
    proof {
        lemma_count_true_none(marks@);
    }
    let mut stack: Vec<usize> = Vec::new();
    let mut pushed: usize = 0;
    let mut ri: usize = 0;
    while ri < roots.len()
        invariant
            ri <= roots@.len(),
            n == nodes@.len(),
            keys_distinct(nodes@),
            m == as_map(nodes@),
            rs == key_set(roots@),
            r == reach::<E>(m, rs, need_started),
            marks@.len() == n,
            pushed == count_true(marks@),
            forall|i: int| 0 <= i < n && #[trigger] marks@[i] ==> r.contains(nodes@[i].entry_key()),
            forall|i: int| 0 <= i < n && #[trigger] marks@[i] ==> stack@.contains(i as usize),
            forall|i: int| 0 <= i < stack@.len() ==> #[trigger] stack@[i] < n && marks@[stack@[i] as int],
            stack@.no_duplicates(),
            forall|k: int, j: int|
                0 <= k < ri && 0 <= j < n && #[trigger] nodes@[j].entry_key() == #[trigger] roots@[k]@
                    ==> marks@[j],
        decreases roots@.len() - ri,
    {
        match find(nodes, roots[ri].as_str()) {
            Some(j) => {
                if !marks[j] {
                    proof {
                        lemma_lookup(nodes@, j as int);
                        assert(has_key(roots@, roots@[ri as int].entry_key()));
                        lemma_root_reached::<E>(m, rs, need_started, nodes@[j as int].entry_key());
                        lemma_count_true_set(marks@, j as int);
                        lemma_count_true_bound(marks@.update(j as int, true));
                    }
                    let ghost stack0 = stack@;
                    marks.set(j, true);
                    stack.push(j);
                    pushed = pushed + 1;
                    proof {
                        assert forall|i: int| 0 <= i < n && #[trigger] marks@[i] implies stack@.contains(
                            i as usize,
                        ) by {
                            if i == j as int {
                                assert(stack@[stack@.len() - 1] == j);
                            } else {
                                let t = choose|t: int| 0 <= t < stack0.len() && stack0[t] == i as usize;
                                assert(stack@[t] == i as usize);
                            }
                        }
                    }
                }
            },
            None => {},
        }
        ri = ri + 1;
    }
    proof {
        lemma_count_true_bound(marks@);
    }
    while stack.len() > 0
        invariant
            n == nodes@.len(),
            keys_distinct(nodes@),
            m == as_map(nodes@),
            rs == key_set(roots@),
            r == reach::<E>(m, rs, need_started),
            marks@.len() == n,
            pushed == count_true(marks@),
            pushed <= n,
            forall|i: int| 0 <= i < n && #[trigger] marks@[i] ==> r.contains(nodes@[i].entry_key()),
            forall|i: int| 0 <= i < stack@.len() ==> #[trigger] stack@[i] < n && marks@[stack@[i] as int],
            stack@.no_duplicates(),
            forall|k: int, j: int|
                0 <= k < roots@.len() && 0 <= j < n && #[trigger] nodes@[j].entry_key()
                    == #[trigger] roots@[k]@ ==> marks@[j],
            forall|i: int, c: Seq<char>|
                0 <= i < n && marks@[i] && !stack@.contains(i as usize) && #[trigger] link::<E>(
                    m,
                    nodes@[i].entry_key(),
                    c,
                    need_started,
                ) ==> marked_keys(nodes@, marks@).contains(c),
        decreases n - pushed, stack@.len(),
    {
        let ghost stack_before = stack@;
        let x = stack.pop().unwrap();
        let ghost stack_after_pop = stack@;
        assert(!stack@.contains(x)) by {
            assert(stack_before =~= stack@.push(x));
            if stack@.contains(x) {
                let t = choose|t: int| 0 <= t < stack@.len() && stack@[t] == x;
                assert(stack_before[t] == stack_before[stack_before.len() - 1]);
            }
        };
        let ch = nodes[x].child_ids();
        let ghost pushed0 = pushed;
        let mut k: usize = 0;
        proof {
            lemma_lookup(nodes@, x as int);
            assert forall|i: int, c: Seq<char>|
                0 <= i < n && marks@[i] && !stack@.contains(i as usize) && i != x
                    && #[trigger] link::<E>(m, nodes@[i].entry_key(), c, need_started)
                    implies marked_keys(nodes@, marks@).contains(c) by {
                assert(!stack_before.contains(i as usize)) by {
                    if stack_before.contains(i as usize) {
                        let t = choose|t: int| 0 <= t < stack_before.len() && stack_before[t] == i as usize;
                        if t < stack@.len() {
                            assert(stack@[t] == i as usize);
                        }
                    }
                }
            }
        }
        while k < ch.len()
            invariant
                n == nodes@.len(),
                x < n,
                keys_distinct(nodes@),
                m == as_map(nodes@),
                m.contains_key(nodes@[x as int].entry_key()),
                m[nodes@[x as int].entry_key()] == nodes@[x as int].entry_val(),
                key_set(ch@) == E::val_children(nodes@[x as int].entry_val()),
                rs == key_set(roots@),
                r == reach::<E>(m, rs, need_started),
                k <= ch@.len(),
                marks@.len() == n,
                marks@[x as int],
                !stack@.contains(x),
                pushed == count_true(marks@),
                pushed <= n,
                stack@.len() >= stack_after_pop.len(),
                pushed - pushed0 == stack@.len() - stack_after_pop.len(),
                forall|i: int| 0 <= i < n && #[trigger] marks@[i] ==> r.contains(nodes@[i].entry_key()),
                forall|i: int|
                    0 <= i < stack@.len() ==> #[trigger] stack@[i] < n && marks@[stack@[i] as int],
                stack@.no_duplicates(),
                forall|kk: int, j: int|
                    0 <= kk < roots@.len() && 0 <= j < n && #[trigger] nodes@[j].entry_key()
                        == #[trigger] roots@[kk]@ ==> marks@[j],
                forall|i: int, c: Seq<char>|
                    0 <= i < n && marks@[i] && !stack@.contains(i as usize) && i != x
                        && #[trigger] link::<E>(m, nodes@[i].entry_key(), c, need_started)
                        ==> marked_keys(nodes@, marks@).contains(c),
                forall|kk: int|
                    0 <= kk < k && #[trigger] link::<E>(
                        m,
                        nodes@[x as int].entry_key(),
                        ch@[kk]@,
                        need_started,
                    ) ==> marked_keys(nodes@, marks@).contains(ch@[kk]@),
            decreases ch@.len() - k,
        {
            let ghost marks_before = marks@;
            let ghost stack_before_iter = stack@;
            match find(nodes, ch[k].as_str()) {
                Some(j) => {
                    if (!need_started || nodes[j].started()) && !marks[j] {
                        proof {
                            lemma_lookup(nodes@, j as int);
                            assert(has_key(ch@, ch@[k as int].entry_key()));
                            assert(link::<E>(
                                m,
                                nodes@[x as int].entry_key(),
                                nodes@[j as int].entry_key(),
                                need_started,
                            ));
                            lemma_reach_extend::<E>(
                                m,
                                rs,
                                need_started,
                                nodes@[x as int].entry_key(),
                                nodes@[j as int].entry_key(),
                            );
                            lemma_count_true_set(marks@, j as int);
                            lemma_count_true_bound(marks@.update(j as int, true));
                        }
                        marks.set(j, true);
                        stack.push(j);
                        pushed = pushed + 1;
                        assert(stack@ == stack_before_iter.push(j));
                    }
                    proof {
                        lemma_lookup(nodes@, j as int);
                        lemma_marked_keys(nodes@, marks@, j as int);
                    }
                },
                None => {
                    proof {
                        assert forall|c: Seq<char>| c == ch@[k as int]@ implies !m.contains_key(c) by {
                            if m.contains_key(c) {
                                assert(has_key(nodes@, c));
                            }
                        }
                    }
                },
            }
            proof {
                assert forall|s: Seq<char>| marked_keys(nodes@, marks_before).contains(s) implies marked_keys(
                    nodes@,
                    marks@,
                ).contains(s) by {
                    let i = choose|i: int|
                        0 <= i < nodes@.len() && i < marks_before.len() && marks_before[i]
                            && #[trigger] nodes@[i].entry_key() == s;
                    assert(marks@[i]);
                }
                assert forall|i: int, c: Seq<char>|
                    0 <= i < n && marks@[i] && !stack@.contains(i as usize) && i != x
                        && #[trigger] link::<E>(m, nodes@[i].entry_key(), c, need_started)
                        implies marked_keys(nodes@, marks@).contains(c) by {
                    if !marks_before[i] {
                        assert(stack@.contains(i as usize)) by {
                            assert(stack@[stack@.len() - 1] == i as usize);
                        }
                    }
                    assert(!stack_before_iter.contains(i as usize)) by {
                        if stack_before_iter.contains(i as usize) {
                            let t = choose|t: int| 0 <= t < stack_before_iter.len() && stack_before_iter[t] == i as usize;
                            assert(stack@[t] == i as usize);
                        }
                    }
                    assert(marked_keys(nodes@, marks_before).contains(c));
                }
            }
            k = k + 1;
        }
        proof {
            assert forall|c: Seq<char>| #[trigger] link::<E>(
                m,
                nodes@[x as int].entry_key(),
                c,
                need_started,
            ) implies marked_keys(nodes@, marks@).contains(c) by {
                assert(key_set(ch@).contains(c));
                let kk = choose|kk: int| 0 <= kk < ch@.len() && #[trigger] ch@[kk].entry_key() == c;
                assert(ch@[kk]@ == c);
            }
        }
    }
    proof {
        let s = marked_keys(nodes@, marks@);
        assert forall|rt: Seq<char>| rs.contains(rt) && m.contains_key(rt) implies s.contains(rt) by {
            let k = choose|k: int| 0 <= k < roots@.len() && #[trigger] roots@[k].entry_key() == rt;
            let j = choose|j: int| 0 <= j < nodes@.len() && #[trigger] nodes@[j].entry_key() == rt;
            lemma_marked_keys(nodes@, marks@, j);
        }
        assert forall|xx: Seq<char>, c: Seq<char>|
            s.contains(xx) && #[trigger] link::<E>(m, xx, c, need_started) implies s.contains(c) by {
            let i = choose|i: int|
                0 <= i < nodes@.len() && i < marks@.len() && marks@[i] && #[trigger] nodes@[i].entry_key()
                    == xx;
            assert(!stack@.contains(i as usize));
        }
        lemma_closed_covers_reach::<E>(m, rs, need_started, s);
        assert forall|i: int| 0 <= i < nodes@.len() implies #[trigger] marks@[i] == r.contains(
            nodes@[i].entry_key(),
        ) by {
            lemma_marked_keys(nodes@, marks@, i);
        }
    }
    marks
}

} // verus!
