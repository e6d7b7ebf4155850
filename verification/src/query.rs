//! Query handlers and the registry that resolves a selector such as
//! `xpath/...` or `text=...` to the handler and the selector it carries.
use indexmap::IndexMap;
use vstd::prelude::*;

use crate::frame::clone_opt_string;
use crate::keyed::str_eq;
use crate::text::{is_prefix, starts_with};

verus! {

/// Polling mode for query handlers.
#[derive(Debug, Clone, Copy, PartialEq, Eq, Structural)]
pub enum PollingMode {
    /// Re-evaluate on DOM mutations.
    Mutation,
    /// Re-evaluate on every animation frame.
    Raf,
}

/// A query handler: JavaScript bodies that find one or all elements for a
/// selector.  At least one of the two is given; the other is derived.
#[derive(Debug)]
pub struct QueryHandler {
    pub query_one: Option<String>,
    pub query_all: Option<String>,
    pub polling: PollingMode,
}

/// What a [`QueryHandler`] stands for.
pub struct QueryHandlerView {
    pub query_one: Option<Seq<char>>,
    pub query_all: Option<Seq<char>>,
    pub polling: PollingMode,
}

impl View for QueryHandler {
    type V = QueryHandlerView;

    open spec fn view(&self) -> QueryHandlerView {
        QueryHandlerView {
            query_one: crate::frame::opt_str(self.query_one),
            query_all: crate::frame::opt_str(self.query_all),
            polling: self.polling,
        }
    }
}

/// The text before a `query_all` body in a derived `query_one` body.
pub open spec fn query_one_prefix() -> Seq<char> {
    "const results = (function(element, selector) { "@
}

/// The text after a `query_all` body in a derived `query_one` body.
pub open spec fn query_one_suffix() -> Seq<char> {
    " })(element, selector);\n            return Array.isArray(results) ? (results[0] || null) : null;"@
}

/// The text before a `query_one` body in a derived `query_all` body.
pub open spec fn query_all_prefix() -> Seq<char> {
    "const result = (function(element, selector) { "@
}

/// The text after a `query_one` body in a derived `query_all` body.
pub open spec fn query_all_suffix() -> Seq<char> {
    " })(element, selector);\n            return result ? [result] : [];"@
}

impl QueryHandler {
    /// A handler with both bodies.
    pub fn new(query_one: String, query_all: String, polling: PollingMode) -> (r: QueryHandler)
        ensures
            r@ == (QueryHandlerView {
                query_one: Some(query_one@),
                query_all: Some(query_all@),
                polling: polling,
            }),
    {
        QueryHandler { query_one: Some(query_one), query_all: Some(query_all), polling }
    }

    /// A handler from its `query_one` body only.
    pub fn from_query_one(query_one: String, polling: PollingMode) -> (r: QueryHandler)
        ensures
            r@ == (QueryHandlerView { query_one: Some(query_one@), query_all: None, polling: polling }),
    {
        QueryHandler { query_one: Some(query_one), query_all: None, polling }
    }

    /// A handler from its `query_all` body only.
    pub fn from_query_all(query_all: String, polling: PollingMode) -> (r: QueryHandler)
        ensures
            r@ == (QueryHandlerView { query_one: None, query_all: Some(query_all@), polling: polling }),
    {
        QueryHandler { query_one: None, query_all: Some(query_all), polling }
    }

    pub fn clone_handler(&self) -> (r: QueryHandler)
        ensures
            r == *self,
    {
        QueryHandler {
            query_one: clone_opt_string(&self.query_one),
            query_all: clone_opt_string(&self.query_all),
            polling: self.polling,
        }
    }

    /// The `query_one` body, derived from `query_all` when not given.
    pub fn resolved_query_one(&self) -> (r: String)
        requires
            self.query_one is Some || self.query_all is Some,
        ensures
            r@ == match self@.query_one {
                Some(q) => q,
                None => query_one_prefix() + self@.query_all->0 + query_one_suffix(),
            },
    {
        match &self.query_one {
            Some(q) => q.clone(),
            None => {
                let qa = self.query_all.as_ref().unwrap();
                "const results = (function(element, selector) { ".to_owned().concat(qa.as_str()).concat(
                    " })(element, selector);\n            return Array.isArray(results) ? (results[0] || null) : null;",
                )
            },
        }
    }

    /// The `query_all` body, derived from `query_one` when not given.
    pub fn resolved_query_all(&self) -> (r: String)
        requires
            self.query_one is Some || self.query_all is Some,
        ensures
            r@ == match self@.query_all {
                Some(q) => q,
                None => query_all_prefix() + self@.query_one->0 + query_all_suffix(),
            },
    {
        match &self.query_all {
            Some(q) => q.clone(),
            None => {
                let qo = self.query_one.as_ref().unwrap();
                "const result = (function(element, selector) { ".to_owned().concat(qo.as_str()).concat(
                    " })(element, selector);\n            return result ? [result] : [];",
                )
            },
        }
    }
}

/// Unified selector resolution result.
#[derive(Debug)]
pub struct ResolvedSelector {
    /// Handler name (e.g. "css", "xpath", "text").
    pub name: String,
    pub handler: QueryHandler,
    pub selector: String,
    pub polling: PollingMode,
}

/// `css`: the first match of a CSS selector.
pub const CSS_QUERY_ONE: &'static str = "return element.querySelector(selector)";

/// `css`: every match of a CSS selector.
pub const CSS_QUERY_ALL: &'static str = "return Array.from(element.querySelectorAll(selector))";

/// `xpath`: the first node that an XPath expression selects.
pub const XPATH_QUERY_ONE: &'static str = r#"
                const result = document.evaluate(selector, element, null,
                    XPathResult.FIRST_ORDERED_NODE_TYPE, null);
                return result.singleNodeValue;
                "#;

/// `xpath`: every node that an XPath expression selects, in document order.
pub const XPATH_QUERY_ALL: &'static str = r#"
                const result = document.evaluate(selector, element, null,
                    XPathResult.ORDERED_NODE_SNAPSHOT_TYPE, null);
                const nodes = [];
                for (let i = 0; i < result.snapshotLength; i++) {
                    nodes.push(result.snapshotItem(i));
                }
                return nodes;
                "#;

/// `text`: the parent of the first text node that contains the selector.
pub const TEXT_QUERY_ONE: &'static str = r#"
                const walker = document.createTreeWalker(element, NodeFilter.SHOW_TEXT);
                while (walker.nextNode()) {
                    if (walker.currentNode.textContent.includes(selector)) {
                        return walker.currentNode.parentElement;
                    }
                }
                return null;
                "#;

/// `text`: the parents of the text nodes that contain the selector.
pub const TEXT_QUERY_ALL: &'static str = r#"
                const results = [];
                const walker = document.createTreeWalker(element, NodeFilter.SHOW_TEXT);
                while (walker.nextNode()) {
                    if (walker.currentNode.textContent.includes(selector)) {
                        results.push(walker.currentNode.parentElement);
                    }
                }
                return results;
                "#;

/// `pierce`: the first match of a CSS selector, looking into open shadow roots.
pub const PIERCE_QUERY_ONE: &'static str = r#"
                function pierce(root, sel) {
                    let found = root.querySelector(sel);
                    if (found) return found;
                    for (const el of root.querySelectorAll('*')) {
                        if (el.shadowRoot) {
                            found = pierce(el.shadowRoot, sel);
                            if (found) return found;
                        }
                    }
                    return null;
                }
                return pierce(element, selector);
                "#;

/// `pierce`: every match of a CSS selector, looking into open shadow roots.
pub const PIERCE_QUERY_ALL: &'static str = r#"
                const results = [];
                function pierce(root, sel) {
                    results.push(...root.querySelectorAll(sel));
                    for (const el of root.querySelectorAll('*')) {
                        if (el.shadowRoot) pierce(el.shadowRoot, sel);
                    }
                }
                pierce(element, selector);
                return results;
                "#;

/// `aria`: the first element whose accessible name (and role, when given) matches.
pub const ARIA_QUERY_ONE: &'static str = r#"
                const match = /^(.*)\[role="(.*)"\]$/.exec(selector);
                const name = match ? match[1] : selector;
                const role = match ? match[2] : null;
                const all = element.querySelectorAll('*');
                for (const el of all) {
                    const aName = el.getAttribute('aria-label') || el.textContent?.trim();
                    const aRole = el.getAttribute('role') || el.tagName.toLowerCase();
                    if (name && aName?.includes(name)) {
                        if (!role || aRole === role) return el;
                    }
                }
                return null;
                "#;

/// `aria`: every element whose accessible name (and role, when given) matches.
pub const ARIA_QUERY_ALL: &'static str = r#"
                const match = /^(.*)\[role="(.*)"\]$/.exec(selector);
                const name = match ? match[1] : selector;
                const role = match ? match[2] : null;
                const results = [];
                for (const el of element.querySelectorAll('*')) {
                    const aName = el.getAttribute('aria-label') || el.textContent?.trim();
                    const aRole = el.getAttribute('role') || el.tagName.toLowerCase();
                    if (name && aName?.includes(name)) {
                        if (!role || aRole === role) results.push(el);
                    }
                }
                return results;
                "#;


/// A handler view with both bodies.
pub open spec fn both(one: &'static str, all: &'static str, polling: PollingMode) -> QueryHandlerView {
    QueryHandlerView { query_one: Some(one@), query_all: Some(all@), polling }
}

/// The handlers of a fresh registry, in order: css, xpath, text, pierce, aria.
pub open spec fn builtin_entries() -> Seq<(Seq<char>, QueryHandlerView)> {
    seq![
        ("css"@, both(CSS_QUERY_ONE, CSS_QUERY_ALL, PollingMode::Mutation)),
        ("xpath"@, both(XPATH_QUERY_ONE, XPATH_QUERY_ALL, PollingMode::Mutation)),
        ("text"@, both(TEXT_QUERY_ONE, TEXT_QUERY_ALL, PollingMode::Mutation)),
        ("pierce"@, both(PIERCE_QUERY_ONE, PIERCE_QUERY_ALL, PollingMode::Mutation)),
        ("aria"@, both(ARIA_QUERY_ONE, ARIA_QUERY_ALL, PollingMode::Raf)),
    ]
}

// ── The registry's map (indexmap) ───────────────────────────────────

/// `indexmap::IndexMap`, carried through opaquely.
#[verifier::external_type_specification]
#[verifier::external_body]
#[verifier::reject_recursive_types(K)]
#[verifier::reject_recursive_types(V)]
#[verifier::reject_recursive_types(S)]
pub struct ExIndexMap<K, V, S>(IndexMap<K, V, S>);

/// The entries of a handler map, in the map's order: each key's characters
/// with its handler.
pub uninterp spec fn handler_entries(m: IndexMap<String, QueryHandler>) -> Seq<(Seq<char>, QueryHandlerView)>;

/// No key occurs twice.
pub open spec fn unique_keys(s: Seq<(Seq<char>, QueryHandlerView)>) -> bool {
    forall|i: int, j: int| 0 <= i < s.len() && 0 <= j < s.len() && i != j ==> #[trigger] s[i].0 != #[trigger] s[j].0
}

/// An entry is not keyed `k`.
pub open spec fn not_keyed(k: Seq<char>) -> spec_fn((Seq<char>, QueryHandlerView)) -> bool {
    |e: (Seq<char>, QueryHandlerView)| e.0 != k
}

/// The entries without the one keyed `k`.
pub open spec fn without_key(s: Seq<(Seq<char>, QueryHandlerView)>, k: Seq<char>) -> Seq<(Seq<char>, QueryHandlerView)> {
    s.filter(not_keyed(k))
}

/// `IndexMap::new`: an empty map.
#[verifier::external_body]
fn map_new() -> (m: IndexMap<String, QueryHandler>)
    ensures
        handler_entries(m) == Seq::<(Seq<char>, QueryHandlerView)>::empty(),
{
    IndexMap::new()
}

/// `IndexMap::insert`: an existing key keeps its place and takes the new
/// value; a new key goes last.
#[verifier::external_body]
fn map_insert(m: &mut IndexMap<String, QueryHandler>, k: String, v: QueryHandler)
    ensures
        unique_keys(handler_entries(*final(m))),
        unique_keys(handler_entries(*old(m))) && !has_handler(handler_entries(*old(m)), k@)
            ==> handler_entries(*final(m)) == handler_entries(*old(m)).push((k@, v@)),
        forall|i: int|
            unique_keys(handler_entries(*old(m))) && 0 <= i < handler_entries(*old(m)).len()
                && #[trigger] handler_entries(*old(m))[i].0 == k@
                ==> handler_entries(*final(m)) == handler_entries(*old(m)).update(i, (k@, v@)),
{
    m.insert(k, v);
}

/// `IndexMap::shift_insert` of a key not in the map, at an index up to
/// the length: the key goes there and the entries from there on move up.
#[verifier::external_body]
fn map_shift_insert(m: &mut IndexMap<String, QueryHandler>, i: usize, k: String, v: QueryHandler)
    requires
        i <= handler_entries(*old(m)).len(),
        !has_handler(handler_entries(*old(m)), k@),
    ensures
        unique_keys(handler_entries(*final(m))),
        handler_entries(*final(m)) == handler_entries(*old(m)).take(i as int) + seq![(k@, v@)]
            + handler_entries(*old(m)).skip(i as int),
{
    m.shift_insert(i, k, v);
}

/// `IndexMap::get_index_of`: the position of the key, if it is in the map.
#[verifier::external_body]
fn map_get_index_of(m: &IndexMap<String, QueryHandler>, k: &str) -> (r: Option<usize>)
    ensures
        match r {
            Some(i) => i < handler_entries(*m).len() && handler_entries(*m)[i as int].0 == k@,
            None => !has_handler(handler_entries(*m), k@),
        },
{
    m.get_index_of(k)
}

/// `IndexMap::shift_remove`: the entry keyed `k` goes; the others keep
/// their order.
#[verifier::external_body]
fn map_shift_remove(m: &mut IndexMap<String, QueryHandler>, k: &str)
    ensures
        unique_keys(handler_entries(*final(m))),
        handler_entries(*final(m)) == without_key(handler_entries(*old(m)), k@),
{
    m.shift_remove(k);
}

/// `IndexMap::len`.
#[verifier::external_body]
fn map_len(m: &IndexMap<String, QueryHandler>) -> (r: usize)
    ensures
        r == handler_entries(*m).len(),
{
    m.len()
}

/// `IndexMap::get_index`, for an index in range.
#[verifier::external_body]
fn map_get_index(m: &IndexMap<String, QueryHandler>, i: usize) -> (r: (&String, &QueryHandler))
    requires
        i < handler_entries(*m).len(),
    ensures
        r.0@ == handler_entries(*m)[i as int].0,
        r.1@ == handler_entries(*m)[i as int].1,
{
    m.get_index(i).unwrap()
}

/// Built-in handler names.
pub open spec fn is_builtin_spec(name: Seq<char>) -> bool {
    name == "css"@ || name == "xpath"@ || name == "text"@ || name == "pierce"@ || name == "aria"@
}

/// Whether `name` is one of the built-in handler names.
pub fn is_builtin_name(name: &String) -> (r: bool)
    ensures
        r == is_builtin_spec(name@),
{
    str_eq(name.as_str(), "css") || str_eq(name.as_str(), "xpath") || str_eq(name.as_str(), "text")
        || str_eq(name.as_str(), "pierce") || str_eq(name.as_str(), "aria")
}

/// The rest of `selector` after `name` and `sep`, when it starts with them.
pub open spec fn after_prefix(name: Seq<char>, sep: char, selector: Seq<char>) -> Option<Seq<char>> {
    let p = name + seq![sep];
    if is_prefix(p, selector) {
        Some(selector.subrange(p.len() as int, selector.len() as int))
    } else {
        None
    }
}

/// The first entry, from `i` on and other than "css", whose name followed
/// by `=` or `/` starts `selector`; with the rest of the selector.
pub open spec fn first_match(
    s: Seq<(Seq<char>, QueryHandlerView)>,
    selector: Seq<char>,
    i: int,
) -> Option<(int, Seq<char>)>
    decreases s.len() - i,
{
    if i < 0 || i >= s.len() {
        None
    } else if s[i].0 == "css"@ {
        first_match(s, selector, i + 1)
    } else if after_prefix(s[i].0, '=', selector) is Some {
        Some((i, after_prefix(s[i].0, '=', selector)->0))
    } else if after_prefix(s[i].0, '/', selector) is Some {
        Some((i, after_prefix(s[i].0, '/', selector)->0))
    } else {
        first_match(s, selector, i + 1)
    }
}

/// The handler keyed `k`.
pub open spec fn handler_for(s: Seq<(Seq<char>, QueryHandlerView)>, k: Seq<char>) -> QueryHandlerView {
    s[choose|i: int| 0 <= i < s.len() && #[trigger] s[i].0 == k].1
}

/// Some entry is keyed `k`.
pub open spec fn has_handler(s: Seq<(Seq<char>, QueryHandlerView)>, k: Seq<char>) -> bool {
    exists|i: int| 0 <= i < s.len() && #[trigger] s[i].0 == k
}

/// `r` is what resolving `selector` against the entries gives: the first
/// prefix match, else css with the whole selector.
pub open spec fn resolved_as(
    es: Seq<(Seq<char>, QueryHandlerView)>,
    selector: Seq<char>,
    r: ResolvedSelector,
) -> bool {
    match first_match(es, selector, 0) {
        Some((i, rest)) => {
            &&& r.name@ == es[i].0
            &&& r.handler@ == es[i].1
            &&& r.selector@ == rest
            &&& r.polling == es[i].1.polling
        },
        None => {
            &&& r.name@ == "css"@
            &&& r.handler@ == handler_for(es, "css"@)
            &&& r.selector@ == selector
            &&& r.polling == handler_for(es, "css"@).polling
        },
    }
}

/// The first `n` entries of entries without a repeated key repeat none.
proof fn lemma_unique_take(s: Seq<(Seq<char>, QueryHandlerView)>, n: int)
    requires
        unique_keys(s),
        0 <= n <= s.len(),
    ensures
        unique_keys(s.take(n)),
{
    assert forall|i: int, j: int| 0 <= i < s.take(n).len() && 0 <= j < s.take(n).len() && i != j implies #[trigger] s.take(n)[i].0
        != #[trigger] s.take(n)[j].0 by {
        assert(s.take(n)[i] == s[i] && s.take(n)[j] == s[j]);
    }
}

/// Dropping a key from entries without a repeated key drops one entry when
/// the key is there, and nothing when it is not.
proof fn lemma_without_key_len(t: Seq<(Seq<char>, QueryHandlerView)>, k: Seq<char>)
    requires
        unique_keys(t),
    ensures
        has_handler(t, k) ==> without_key(t, k).len() + 1 == t.len(),
        !has_handler(t, k) ==> without_key(t, k) == t,
    decreases t.len(),
{
    if t.len() > 0 {
        let r = t.drop_last();
        let x = t.last();
        assert(t =~= r.push(x));
        assert forall|i: int, j: int| 0 <= i < r.len() && 0 <= j < r.len() && i != j implies #[trigger] r[i].0
            != #[trigger] r[j].0 by {
            assert(r[i] == t[i] && r[j] == t[j]);
        }
        lemma_without_key_len(r, k);
        r.lemma_filter_push(x, not_keyed(k));
        if x.0 == k {
            if has_handler(r, k) {
                let j = choose|j: int| 0 <= j < r.len() && #[trigger] r[j].0 == k;
                assert(t[j].0 == t[t.len() - 1].0);
            }
            assert(has_handler(t, k)) by {
                assert(t[t.len() - 1].0 == k);
            }
        } else {
            if has_handler(t, k) {
                let j = choose|j: int| 0 <= j < t.len() && #[trigger] t[j].0 == k;
                assert(j < r.len());
                assert(r[j] == t[j]);
            }
            if has_handler(r, k) {
                let j = choose|j: int| 0 <= j < r.len() && #[trigger] r[j].0 == k;
                assert(t[j] == r[j]);
            }
        }
    } else {
        assert(without_key(t, k) =~= t) by {
            t.lemma_filter_len(not_keyed(k));
        }
    }
}

/// Dropping a key from the whole is dropping it from the first `n` entries
/// and from the rest.
proof fn lemma_without_key_split(s: Seq<(Seq<char>, QueryHandlerView)>, n: int, k: Seq<char>)
    requires
        0 <= n <= s.len(),
    ensures
        without_key(s, k) == without_key(s.take(n), k) + without_key(s.skip(n), k),
{
    assert(s =~= s.take(n) + s.skip(n));
    Seq::filter_distributes_over_add(s.take(n), s.skip(n), not_keyed(k));
}

/// No entry is left with a dropped key.
proof fn lemma_without_key_lacks(s: Seq<(Seq<char>, QueryHandlerView)>, k: Seq<char>)
    ensures
        !has_handler(without_key(s, k), k),
{
    let t = without_key(s, k);
    if has_handler(t, k) {
        let i = choose|i: int| 0 <= i < t.len() && #[trigger] t[i].0 == k;
        s.lemma_filter_pred(not_keyed(k), i);
    }
}

/// Query handler registry: the custom handlers, in the order they were
/// registered (the first registered matching first), then the built-in ones.
#[derive(Debug)]
pub struct QueryHandlerRegistry {
    inner: IndexMap<String, QueryHandler>,
    custom: usize,
}

impl QueryHandlerRegistry {
    /// The registry's entries in order.
    pub closed spec fn entries(&self) -> Seq<(Seq<char>, QueryHandlerView)> {
        handler_entries(self.inner)
    }

    /// How many of the first entries are custom handlers.
    pub closed spec fn custom_count(&self) -> nat {
        self.custom as nat
    }

    /// The custom handlers, in the order they were registered.
    pub open spec fn customs(&self) -> Seq<(Seq<char>, QueryHandlerView)> {
        self.entries().take(self.custom_count() as int)
    }

    /// The handlers after the custom ones: the built-in handlers still there.
    pub open spec fn builtin_part(&self) -> Seq<(Seq<char>, QueryHandlerView)> {
        self.entries().skip(self.custom_count() as int)
    }

    /// No name is registered twice, and the custom handlers come first.
    #[verifier::type_invariant]
    spec fn names_unique(&self) -> bool {
        &&& unique_keys(handler_entries(self.inner))
        &&& self.custom <= handler_entries(self.inner).len()
    }

    /// Handlers used by every registry, in order: css, xpath, text, pierce,
    /// aria; no custom handler.
    pub fn with_builtins() -> (r: QueryHandlerRegistry)
        ensures
            r.entries() == builtin_entries(),
            r.custom_count() == 0,
    {
        let m = Self::builtin_map();
        QueryHandlerRegistry { inner: m, custom: 0 }
    }

    /// The map of the built-in handlers.
    fn builtin_map() -> (m: IndexMap<String, QueryHandler>)
        ensures
            handler_entries(m) == builtin_entries(),
            unique_keys(handler_entries(m)),
    {
        proof {
            reveal_strlit("css");
            reveal_strlit("xpath");
            reveal_strlit("text");
            reveal_strlit("pierce");
            reveal_strlit("aria");
        }
        let ghost b = builtin_entries();
        let mut m = map_new();
        map_insert(&mut m, "css".to_owned(), QueryHandler::new(CSS_QUERY_ONE.to_owned(), CSS_QUERY_ALL.to_owned(), PollingMode::Mutation));
        assert(handler_entries(m) =~= b.take(1));
        assert(!has_handler(handler_entries(m), "xpath"@)) by {
            assert(handler_entries(m)[0].0 == "css"@);
            assert("css"@[0] != "xpath"@[0]);
        }
        map_insert(&mut m, "xpath".to_owned(), QueryHandler::new(XPATH_QUERY_ONE.to_owned(), XPATH_QUERY_ALL.to_owned(), PollingMode::Mutation));
        assert(handler_entries(m) =~= b.take(2));
        assert(!has_handler(handler_entries(m), "text"@)) by {
            assert(handler_entries(m)[0].0 == "css"@);
            assert("css"@[0] != "text"@[0]);
            assert(handler_entries(m)[1].0 == "xpath"@);
            assert("xpath"@[0] != "text"@[0]);
        }
        map_insert(&mut m, "text".to_owned(), QueryHandler::new(TEXT_QUERY_ONE.to_owned(), TEXT_QUERY_ALL.to_owned(), PollingMode::Mutation));
        assert(handler_entries(m) =~= b.take(3));
        assert(!has_handler(handler_entries(m), "pierce"@)) by {
            assert(handler_entries(m)[0].0 == "css"@);
            assert("css"@[0] != "pierce"@[0]);
            assert(handler_entries(m)[1].0 == "xpath"@);
            assert("xpath"@[0] != "pierce"@[0]);
            assert(handler_entries(m)[2].0 == "text"@);
            assert("text"@[0] != "pierce"@[0]);
        }
        map_insert(&mut m, "pierce".to_owned(), QueryHandler::new(PIERCE_QUERY_ONE.to_owned(), PIERCE_QUERY_ALL.to_owned(), PollingMode::Mutation));
        assert(handler_entries(m) =~= b.take(4));
        assert(!has_handler(handler_entries(m), "aria"@)) by {
            assert(handler_entries(m)[0].0 == "css"@);
            assert("css"@[0] != "aria"@[0]);
            assert(handler_entries(m)[1].0 == "xpath"@);
            assert("xpath"@[0] != "aria"@[0]);
            assert(handler_entries(m)[2].0 == "text"@);
            assert("text"@[0] != "aria"@[0]);
            assert(handler_entries(m)[3].0 == "pierce"@);
            assert("pierce"@[0] != "aria"@[0]);
        }
        map_insert(&mut m, "aria".to_owned(), QueryHandler::new(ARIA_QUERY_ONE.to_owned(), ARIA_QUERY_ALL.to_owned(), PollingMode::Raf));
        assert(handler_entries(m) =~= b);
        m
    }

    /// Register a custom handler after the custom handlers registered
    /// before it and ahead of the built-in ones; a handler of the same name
    /// is replaced.
    pub fn register(&mut self, name: &str, handler: QueryHandler)
        ensures
            final(self).entries() == without_key(old(self).customs(), name@).push((name@, handler@))
                + without_key(old(self).builtin_part(), name@),
            final(self).custom_count() == without_key(old(self).customs(), name@).len() + 1,
    {
        proof {
            use_type_invariant(&*self);
        }
        let ghost es = self.entries();
        let ghost n = self.custom as int;
        let kept = self.remove_name(name);
        proof {
            use_type_invariant(&*self);
        }
        self.custom = 0;
        let mut m = map_new();
        std::mem::swap(&mut m, &mut self.inner);
        proof {
            let a = without_key(es.take(n), name@);
            let b = without_key(es.skip(n), name@);
            assert(handler_entries(m) == a + b);
            assert(handler_entries(m).take(kept as int) =~= a);
            assert(handler_entries(m).skip(kept as int) =~= b);
            lemma_without_key_lacks(es, name@);
        }
        map_shift_insert(&mut m, kept, name.to_owned(), handler);
        let total = map_len(&m);
        proof {
            let a = without_key(es.take(n), name@);
            let b = without_key(es.skip(n), name@);
            assert(handler_entries(m) =~= a.push((name@, handler@)) + b);
        }
        std::mem::swap(&mut m, &mut self.inner);
        self.custom = kept + 1;
    }

    /// Unregister a handler.
    pub fn unregister(&mut self, name: &str)
        ensures
            final(self).entries() == without_key(old(self).entries(), name@),
            final(self).custom_count() == without_key(old(self).customs(), name@).len(),
    {
        self.remove_name(name);
    }

    /// Drop the handler named `name`, if any; the number of custom handlers
    /// left is returned and kept.
    fn remove_name(&mut self, name: &str) -> (kept: usize)
        ensures
            final(self).entries() == without_key(old(self).entries(), name@),
            final(self).entries() == without_key(old(self).customs(), name@) + without_key(
                old(self).builtin_part(),
                name@,
            ),
            kept == final(self).custom_count(),
            kept == without_key(old(self).customs(), name@).len(),
    {
        proof {
            use_type_invariant(&*self);
        }
        let ghost es = self.entries();
        let ghost n = self.custom as int;
        let c = self.custom;
        proof {
            lemma_unique_take(es, n);
            lemma_without_key_len(es.take(n), name@);
        }
        let kept = match map_get_index_of(&self.inner, name) {
            Some(i) => {
                if i < c {
                    proof {
                        assert(es.take(n)[i as int].0 == name@);
                    }
                    c - 1
                } else {
                    proof {
                        if has_handler(es.take(n), name@) {
                            let j = choose|j: int| 0 <= j < es.take(n).len() && #[trigger] es.take(n)[j].0 == name@;
                            assert(es[j].0 == es[i as int].0);
                        }
                    }
                    c
                }
            },
            None => {
                proof {
                    if has_handler(es.take(n), name@) {
                        let j = choose|j: int| 0 <= j < es.take(n).len() && #[trigger] es.take(n)[j].0 == name@;
                        assert(es[j].0 == name@);
                    }
                }
                c
            },
        };
        proof {
            lemma_without_key_split(es, n, name@);
        }
        self.custom = 0;
        let mut m = map_new();
        std::mem::swap(&mut m, &mut self.inner);
        map_shift_remove(&mut m, name);
        std::mem::swap(&mut m, &mut self.inner);
        self.custom = kept;
        kept
    }

    /// Drop every custom handler: the registry holds the built-in handlers
    /// again, in their order.
    pub fn clear_custom(&mut self)
        ensures
            final(self).entries() == builtin_entries(),
            final(self).custom_count() == 0,
    {
        proof {
            use_type_invariant(&*self);
        }
        self.custom = 0;
        let mut m = Self::builtin_map();
        std::mem::swap(&mut m, &mut self.inner);
    }

    /// Resolve a selector to its handler and the selector it carries: the
    /// first handler (other than css, in registry order) whose name followed
    /// by `=` or `/` starts the selector; else css with the whole selector;
    /// `None` when no prefix matches and css is not registered.
    pub fn try_resolve_selector(&self, selector: &str) -> (r: Option<ResolvedSelector>)
        ensures
            match r {
                None => first_match(self.entries(), selector@, 0) is None && !has_handler(self.entries(), "css"@),
                Some(r) => resolved_as(self.entries(), selector@, r),
            },
    {
        proof {
            use_type_invariant(self);
        }
        let n = map_len(&self.inner);
        let ghost es = self.entries();
        let mut i: usize = 0;
        let mut css: Option<usize> = None;
        while i < n
            invariant
                n == es.len(),
                es == self.entries(),
                i <= n,
                first_match(es, selector@, 0) == first_match(es, selector@, i as int),
                match css {
                    Some(c) => c < n && es[c as int].0 == "css"@,
                    None => forall|j: int| 0 <= j < i ==> #[trigger] es[j].0 != "css"@,
                },
            decreases n - i,
        {
            let (name, handler) = map_get_index(&self.inner, i);
            if str_eq(name.as_str(), "css") {
                css = Some(i);
            } else {
                let p1 = name.clone().concat("=");
                proof {
                    reveal_strlit("=");
                    assert(p1@ == es[i as int].0 + seq!['=']);
                }
                if starts_with(selector, p1.as_str()) {
                    let rest = selector.substring_char(p1.as_str().unicode_len(), selector.unicode_len());
                    return Some(ResolvedSelector {
                        name: name.clone(),
                        handler: handler.clone_handler(),
                        selector: rest.to_owned(),
                        polling: handler.polling,
                    });
                }
                let p2 = name.clone().concat("/");
                proof {
                    reveal_strlit("/");
                    assert(p2@ == es[i as int].0 + seq!['/']);
                }
                if starts_with(selector, p2.as_str()) {
                    let rest = selector.substring_char(p2.as_str().unicode_len(), selector.unicode_len());
                    return Some(ResolvedSelector {
                        name: name.clone(),
                        handler: handler.clone_handler(),
                        selector: rest.to_owned(),
                        polling: handler.polling,
                    });
                }
            }
            i = i + 1;
        }
        let c = match css {
            Some(c) => c,
            None => {
                return None;
            },
        };
        let (_, h) = map_get_index(&self.inner, c);
        proof {
            let j = choose|j: int| 0 <= j < es.len() && #[trigger] es[j].0 == "css"@;
            assert(unique_keys(es));
            assert(j == c as int);
        }
        let css_handler = h.clone_handler();
        let polling = css_handler.polling;
        Some(ResolvedSelector { name: "css".to_owned(), handler: css_handler, selector: selector.to_owned(), polling })
    }

    /// Resolve a selector to its handler and the selector it carries: the
    /// first handler (other than css, in registry order) whose name followed
    /// by `=` or `/` starts the selector; else css with the whole selector.
    pub fn resolve_selector(&self, selector: &str) -> (r: ResolvedSelector)
        requires
            first_match(self.entries(), selector@, 0) is Some || has_handler(self.entries(), "css"@),
        ensures
            resolved_as(self.entries(), selector@, r),
    {
        match self.try_resolve_selector(selector) {
            Some(r) => r,
            None => vstd::pervasive::unreached(),
        }
    }
}

} // verus!
