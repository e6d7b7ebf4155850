//! Keyed vectors: a `Vec` whose entries carry a string key, viewed as a
//! `Map` from the key's characters to the entry's value.  Keys are kept
//! distinct, which is the invariant that every collection of this crate
//! that stands for a set or a map keeps.
use vstd::prelude::*;

verus! {

/// An entry of a keyed vector.
pub trait KeyedEntry: Sized {
    type Val;

    spec fn entry_key(&self) -> Seq<char>;

    spec fn entry_val(&self) -> Self::Val;

    fn key_str(&self) -> (r: &str)
        ensures
            r@ == self.entry_key(),
    ;
}

impl KeyedEntry for String {
    type Val = ();

    open spec fn entry_key(&self) -> Seq<char> {
        self@
    }

    open spec fn entry_val(&self) -> () {
        ()
    }

    fn key_str(&self) -> (r: &str) {
        self.as_str()
    }
}

impl KeyedEntry for (String, i64) {
    type Val = i64;

    open spec fn entry_key(&self) -> Seq<char> {
        self.0@
    }

    open spec fn entry_val(&self) -> i64 {
        self.1
    }

    fn key_str(&self) -> (r: &str) {
        self.0.as_str()
    }
}

/// No two entries share a key.
pub open spec fn keys_distinct<E: KeyedEntry>(s: Seq<E>) -> bool {
    forall|i: int, j: int|
        0 <= i < s.len() && 0 <= j < s.len() && i != j ==> #[trigger] s[i].entry_key()
            != #[trigger] s[j].entry_key()
}

/// Some entry has key `k`.
pub open spec fn has_key<E: KeyedEntry>(s: Seq<E>, k: Seq<char>) -> bool {
    exists|i: int| 0 <= i < s.len() && #[trigger] s[i].entry_key() == k
}

/// The index of an entry with key `k`.
pub open spec fn key_index<E: KeyedEntry>(s: Seq<E>, k: Seq<char>) -> int {
    choose|i: int| 0 <= i < s.len() && #[trigger] s[i].entry_key() == k
}

/// The map that a keyed vector stands for.
pub open spec fn as_map<E: KeyedEntry>(s: Seq<E>) -> Map<Seq<char>, E::Val> {
    Map::new(|k: Seq<char>| has_key(s, k), |k: Seq<char>| s[key_index(s, k)].entry_val())
}

/// The set of keys of a keyed vector.
pub open spec fn key_set<E: KeyedEntry>(s: Seq<E>) -> Set<Seq<char>> {
    Set::new(|k: Seq<char>| has_key(s, k))
}

pub proof fn lemma_lookup<E: KeyedEntry>(s: Seq<E>, i: int)
    requires
        keys_distinct(s),
        0 <= i < s.len(),
    ensures
        as_map(s).contains_key(s[i].entry_key()),
        as_map(s)[s[i].entry_key()] == s[i].entry_val(),
        key_index(s, s[i].entry_key()) == i,
        key_set(s).contains(s[i].entry_key()),
{
    let k = s[i].entry_key();
    assert(has_key(s, k));
    let j = key_index(s, k);
    assert(s[j].entry_key() == k);
}

pub proof fn lemma_key_set_is_dom<E: KeyedEntry>(s: Seq<E>)
    ensures
        key_set(s) == as_map(s).dom(),
{
    assert(key_set(s) =~= as_map(s).dom());
}

pub proof fn lemma_empty<E: KeyedEntry>(s: Seq<E>)
    requires
        s.len() == 0,
    ensures
        as_map(s) == Map::<Seq<char>, E::Val>::empty(),
        key_set(s) == Set::<Seq<char>>::empty(),
        keys_distinct(s),
{
    assert(as_map(s) =~= Map::<Seq<char>, E::Val>::empty());
    assert(key_set(s) =~= Set::<Seq<char>>::empty());
}

pub proof fn lemma_push<E: KeyedEntry>(s: Seq<E>, e: E)
    requires
        keys_distinct(s),
        !has_key(s, e.entry_key()),
    ensures
        keys_distinct(s.push(e)),
        as_map(s.push(e)) == as_map(s).insert(e.entry_key(), e.entry_val()),
        key_set(s.push(e)) == key_set(s).insert(e.entry_key()),
{
    let t = s.push(e);
    assert forall|i: int, j: int|
        0 <= i < t.len() && 0 <= j < t.len() && i != j implies #[trigger] t[i].entry_key()
        != #[trigger] t[j].entry_key() by {
        if i < s.len() && j < s.len() {
            assert(t[i] == s[i] && t[j] == s[j]);
        } else if i < s.len() {
            assert(t[i] == s[i]);
        } else {
            assert(t[j] == s[j]);
        }
    }
    assert forall|k: Seq<char>| #[trigger] has_key(t, k) == (has_key(s, k) || k == e.entry_key()) by {
        if has_key(t, k) {
            let i = choose|i: int| 0 <= i < t.len() && #[trigger] t[i].entry_key() == k;
            if i < s.len() {
                assert(t[i] == s[i]);
            }
        }
        if has_key(s, k) {
            let i = choose|i: int| 0 <= i < s.len() && #[trigger] s[i].entry_key() == k;
            assert(t[i] == s[i]);
        }
        if k == e.entry_key() {
            assert(t[s.len() as int] == e);
        }
    }
    assert forall|k: Seq<char>| has_key(t, k) implies as_map(t)[k] == as_map(s).insert(
        e.entry_key(),
        e.entry_val(),
    )[k] by {
        if k == e.entry_key() {
            lemma_lookup(t, s.len() as int);
        } else {
            let i = choose|i: int| 0 <= i < s.len() && #[trigger] s[i].entry_key() == k;
            lemma_lookup(s, i);
            assert(t[i] == s[i]);
            lemma_lookup(t, i);
        }
    }
    assert(as_map(t) =~= as_map(s).insert(e.entry_key(), e.entry_val()));
    assert(key_set(t) =~= key_set(s).insert(e.entry_key()));
}

pub proof fn lemma_update<E: KeyedEntry>(s: Seq<E>, i: int, e: E)
    requires
        keys_distinct(s),
        0 <= i < s.len(),
        s[i].entry_key() == e.entry_key(),
    ensures
        keys_distinct(s.update(i, e)),
        as_map(s.update(i, e)) == as_map(s).insert(e.entry_key(), e.entry_val()),
        key_set(s.update(i, e)) == key_set(s),
{
    let t = s.update(i, e);
    assert forall|a: int, b: int|
        0 <= a < t.len() && 0 <= b < t.len() && a != b implies #[trigger] t[a].entry_key()
        != #[trigger] t[b].entry_key() by {
        assert(t[a].entry_key() == s[a].entry_key());
        assert(t[b].entry_key() == s[b].entry_key());
    }
    assert forall|k: Seq<char>| #[trigger] has_key(t, k) == has_key(s, k) by {
        if has_key(t, k) {
            let j = choose|j: int| 0 <= j < t.len() && #[trigger] t[j].entry_key() == k;
            assert(s[j].entry_key() == k);
        }
        if has_key(s, k) {
            let j = choose|j: int| 0 <= j < s.len() && #[trigger] s[j].entry_key() == k;
            assert(t[j].entry_key() == k);
        }
    }
    assert forall|k: Seq<char>| has_key(t, k) implies as_map(t)[k] == as_map(s).insert(
        e.entry_key(),
        e.entry_val(),
    )[k] by {
        let j = choose|j: int| 0 <= j < s.len() && #[trigger] s[j].entry_key() == k;
        lemma_lookup(s, j);
        lemma_lookup(t, j);
    }
    assert(as_map(t) =~= as_map(s).insert(e.entry_key(), e.entry_val()));
    assert(key_set(t) =~= key_set(s));
}

pub proof fn lemma_remove<E: KeyedEntry>(s: Seq<E>, i: int)
    requires
        keys_distinct(s),
        0 <= i < s.len(),
    ensures
        keys_distinct(s.remove(i)),
        as_map(s.remove(i)) == as_map(s).remove(s[i].entry_key()),
        key_set(s.remove(i)) == key_set(s).remove(s[i].entry_key()),
{
    let t = s.remove(i);
    let k0 = s[i].entry_key();
    assert forall|a: int| 0 <= a < t.len() implies #[trigger] t[a] == (if a < i {
        s[a]
    } else {
        s[a + 1]
    }) by {}
    assert forall|a: int, b: int|
        0 <= a < t.len() && 0 <= b < t.len() && a != b implies #[trigger] t[a].entry_key()
        != #[trigger] t[b].entry_key() by {
        let a1 = if a < i {
            a
        } else {
            a + 1
        };
        let b1 = if b < i {
            b
        } else {
            b + 1
        };
        assert(t[a] == s[a1]);
        assert(t[b] == s[b1]);
    }
    assert forall|k: Seq<char>| #[trigger] has_key(t, k) == (has_key(s, k) && k != k0) by {
        if has_key(t, k) {
            let j = choose|j: int| 0 <= j < t.len() && #[trigger] t[j].entry_key() == k;
            let j1 = if j < i {
                j
            } else {
                j + 1
            };
            assert(t[j] == s[j1]);
        }
        if has_key(s, k) && k != k0 {
            let j = choose|j: int| 0 <= j < s.len() && #[trigger] s[j].entry_key() == k;
            let j0 = if j < i {
                j
            } else {
                j - 1
            };
            assert(t[j0] == s[j]);
        }
    }
    assert forall|k: Seq<char>| has_key(t, k) implies as_map(t)[k] == as_map(s).remove(k0)[k] by {
        let j = choose|j: int| 0 <= j < t.len() && #[trigger] t[j].entry_key() == k;
        let j1 = if j < i {
            j
        } else {
            j + 1
        };
        assert(t[j] == s[j1]);
        lemma_lookup(t, j);
        lemma_lookup(s, j1);
    }
    assert(as_map(t) =~= as_map(s).remove(k0));
    assert(key_set(t) =~= key_set(s).remove(k0));
}

/// Equality of two strings by their characters.
pub fn str_eq(a: &str, b: &str) -> (res: bool)
    ensures
        res == (a@ == b@),
{
    let a_s = a.to_owned();
    let b_s = b.to_owned();
    a_s == b_s
}

/// The position of the entry with key `k`, if there is one.
pub fn find<E: KeyedEntry>(v: &Vec<E>, k: &str) -> (r: Option<usize>)
    ensures
        match r {
            Some(i) => i < v.len() && v@[i as int].entry_key() == k@,
            None => !has_key(v@, k@),
        },
{
    let mut i: usize = 0;
    while i < v.len()
        invariant
            i <= v.len(),
            forall|j: int| 0 <= j < i ==> #[trigger] v@[j].entry_key() != k@,
        decreases v.len() - i,
    {
        if str_eq(v[i].key_str(), k) {
            return Some(i);
        }
        i = i + 1;
    }
    None
}

/// Whether some entry has key `k`.
pub fn contains_key<E: KeyedEntry>(v: &Vec<E>, k: &str) -> (r: bool)
    ensures
        r == has_key(v@, k@),
{
    match find(v, k) {
        Some(_) => true,
        None => false,
    }
}

/// Insert `e`, replacing the entry with the same key if there is one.
pub fn insert_entry<E: KeyedEntry>(v: &mut Vec<E>, e: E)
    requires
        keys_distinct(old(v)@),
    ensures
        keys_distinct(final(v)@),
        as_map(final(v)@) == as_map(old(v)@).insert(e.entry_key(), e.entry_val()),
        key_set(final(v)@) == key_set(old(v)@).insert(e.entry_key()),
{
    match find(v, e.key_str()) {
        Some(i) => {
            proof {
                lemma_update(v@, i as int, e);
            }
            v.set(i, e);
        },
        None => {
            proof {
                lemma_push(v@, e);
            }
            v.push(e);
        },
    }
}

/// Remove the entry with key `k`, if there is one, and return it.
pub fn remove_key<E: KeyedEntry>(v: &mut Vec<E>, k: &str) -> (r: Option<E>)
    requires
        keys_distinct(old(v)@),
    ensures
        keys_distinct(final(v)@),
        as_map(final(v)@) == as_map(old(v)@).remove(k@),
        key_set(final(v)@) == key_set(old(v)@).remove(k@),
        match r {
            Some(e) => e.entry_key() == k@ && as_map(old(v)@).contains_key(k@) && as_map(
                old(v)@,
            )[k@] == e.entry_val(),
            None => !has_key(old(v)@, k@),
        },
{
    match find(v, k) {
        Some(i) => {
            proof {
                lemma_lookup(v@, i as int);
                lemma_remove(v@, i as int);
            }
            let e = v.remove(i);
            Some(e)
        },
        None => {
            proof {
                assert(as_map(v@) =~= as_map(v@).remove(k@));
                assert(key_set(v@) =~= key_set(v@).remove(k@));
            }
            None
        },
    }
}

} // verus!
