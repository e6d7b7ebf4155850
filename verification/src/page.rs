//! The page's own logic around the browser: the scripts it sends to find
//! elements, expose functions and wait for conditions, and how it reads
//! what comes back.
use vstd::prelude::*;

use crate::error::{message_detail, Error};
use crate::json::{field, str_of, string_of, get, JsonValue};
use crate::keyed::str_eq;
use crate::query::{PollingMode, ResolvedSelector};
use crate::text::{
    contains_text, decimal, decimal_text, has_text, is_prefix, is_white, signed_decimal,
    signed_decimal_text, starts_with, trim, trimmed,
};

verus! {

/// The exposed-function script, up to the function's name.
pub const EXPOSE_OPEN: &'static str = "(function() {\n    if (window['";

/// The exposed-function script, from the guard to the definition's name.
pub const EXPOSE_AFTER_GUARD: &'static str = "']) return;\n    const callbacks = new Map();\n    let seq = 0;\n    window['";

/// The exposed-function script, from the definition to the binding's name.
pub const EXPOSE_AFTER_DEFINE: &'static str = "'] = function(...args) {\n        const mySeq = ++seq;\n        return new Promise((resolve, reject) => {\n            callbacks.set(mySeq, { resolve, reject });\n            window['";

/// The exposed-function script, from the binding call to the payload's name.
pub const EXPOSE_AFTER_BINDING: &'static str = "'](JSON.stringify({ name: '";

/// The exposed-function script, from the payload to the callback's name.
pub const EXPOSE_AFTER_PAYLOAD: &'static str = "', seq: mySeq, args }));\n        });\n    };\n    window['__puprs_binding_cb_";

/// The exposed-function script, after the callback's name.
pub const EXPOSE_CLOSE: &'static str = "'] = function(seq, result, error) {\n        const cb = callbacks.get(seq);\n        if (cb) {\n            callbacks.delete(seq);\n            if (error) cb.reject(new Error(error));\n            else cb.resolve(result);\n        }\n    };\n})()";

/// The script that defines `window[name]` as a promise-returning function
/// that calls the binding `binding_name` and waits for its answer.
pub open spec fn expose_script(name: Seq<char>, binding_name: Seq<char>) -> Seq<char> {
    EXPOSE_OPEN@ + name + EXPOSE_AFTER_GUARD@ + name + EXPOSE_AFTER_DEFINE@ + binding_name
        + EXPOSE_AFTER_BINDING@ + name + EXPOSE_AFTER_PAYLOAD@ + name + EXPOSE_CLOSE@
}

/// The script that defines `window[name]` on top of the binding `binding_name`.
pub fn expose_function_init_script(name: &str, binding_name: &str) -> (r: String)
    ensures
        r@ == expose_script(name@, binding_name@),
{
    EXPOSE_OPEN.to_owned().concat(name).concat(EXPOSE_AFTER_GUARD).concat(name).concat(EXPOSE_AFTER_DEFINE).concat(
        binding_name,
    ).concat(EXPOSE_AFTER_BINDING).concat(name).concat(EXPOSE_AFTER_PAYLOAD).concat(name).concat(EXPOSE_CLOSE)
}

/// The name of the binding behind the exposed function `name`.
pub open spec fn binding_name_of(name: Seq<char>) -> Seq<char> {
    "__puprs_binding_"@ + name
}

/// The name of the binding behind the exposed function `name`.
pub fn binding_name(name: &str) -> (r: String)
    ensures
        r@ == binding_name_of(name@),
{
    "__puprs_binding_".to_owned().concat(name)
}

/// The script that settles call number `seq` of the exposed function
/// `name`: with a result (as JSON text), or with the error that the
/// callback panicked.
pub open spec fn settle_script(name: Seq<char>, seq: int, result_json: Option<Seq<char>>) -> Seq<char> {
    "window['__puprs_binding_cb_"@ + name + "']("@ + signed_decimal(seq) + match result_json {
        Some(v) => ", "@ + v + ", null)"@,
        None => ", null, \"callback panicked\")"@,
    }
}

/// The script that settles a call of an exposed function.
pub fn binding_settle_script(name: &str, seq: i64, result_json: Option<&str>) -> (r: String)
    ensures
        r@ == settle_script(
            name@,
            seq as int,
            match result_json {
                Some(v) => Some(v@),
                None => None,
            },
        ),
{
    let head = "window['__puprs_binding_cb_".to_owned().concat(name).concat("'](").concat(
        signed_decimal_text(seq).as_str(),
    );
    match result_json {
        Some(v) => head.concat(", ").concat(v).concat(", null)"),
        None => head.concat(", null, \"callback panicked\")"),
    }
}

/// `s` after the leading white space.
pub open spec fn trimmed_start(s: Seq<char>) -> Seq<char> {
    s.skip(crate::text::lead_white(s) as int)
}

/// The position of the parenthesis that closes the one opened at the
/// start, scanning from `i` with `depth` parentheses open.
pub open spec fn group_close(t: Seq<char>, i: int, depth: int) -> Option<int>
    decreases t.len() - i,
{
    if i < 0 || i >= t.len() {
        None
    } else if t[i] == '(' {
        group_close(t, i + 1, depth + 1)
    } else if t[i] == ')' {
        if depth <= 1 {
            Some(i)
        } else {
            group_close(t, i + 1, depth - 1)
        }
    } else {
        group_close(t, i + 1, depth)
    }
}

/// Text that opens with a parenthesised group followed by a call: an
/// expression that calls a function at once, not a function.
pub open spec fn called_at_once(t: Seq<char>) -> bool {
    match group_close(t, 1, 1) {
        Some(k) => is_prefix("("@, trimmed_start(t.skip(k + 1))),
        None => false,
    }
}

/// Whether text looks like a JavaScript function: after trimming, a
/// `function`, an arrow function (an opening parenthesis and an arrow,
/// unless the parenthesised group is called at once), or either of them
/// after `async `.
pub open spec fn looks_like_function(s: Seq<char>) -> bool {
    let t = trimmed(s);
    let asynchronous = is_prefix("async "@, t);
    let rest = trimmed_start(t.skip(6));
    if asynchronous && is_prefix("function"@, rest) {
        true
    } else if asynchronous && is_prefix("("@, rest) {
        has_text(rest, "=>"@)
    } else {
        is_prefix("function"@, t) || (is_prefix("("@, t) && has_text(t, "=>"@) && !called_at_once(t))
    }
}

/// Whether text opens with a parenthesised group followed by a call.
fn is_called_at_once(t: &str) -> (r: bool)
    ensures
        r == called_at_once(t@),
{
    let n = t.unicode_len();
    let mut i: usize = 1;
    let mut depth: usize = 1;
    if n <= 1 {
        return false;
    }
    while i < n
        invariant
            n == t@.len(),
            1 <= i <= n,
            1 <= depth <= i,
            group_close(t@, 1, 1) == group_close(t@, i as int, depth as int),
        decreases n - i,
    {
        let c = t.get_char(i);
        if c == '(' {
            depth = depth + 1;
        } else if c == ')' {
            if depth == 1 {
                let after = t.substring_char(i + 1, n);
                let rest = trim_start(after);
                proof {
                    assert(after@ =~= t@.skip(i + 1));
                    reveal_strlit("(");
                }
                return starts_with(rest.as_str(), "(");
            }
            depth = depth - 1;
        }
        i = i + 1;
    }
    false
}

/// `s` after its leading white space.
fn trim_start(s: &str) -> (r: String)
    ensures
        r@ == trimmed_start(s@),
{
    let n = s.unicode_len();
    let mut a: usize = 0;
    while a < n && crate::text::is_white_char(s.get_char(a))
        invariant
            n == s@.len(),
            a <= n,
            forall|j: int| 0 <= j < a ==> is_white(#[trigger] s@[j]),
        decreases n - a,
    {
        a = a + 1;
    }
    proof {
        lemma_lead(s@, a as int);
    }
    let r = s.substring_char(a, n).to_owned();
    proof {
        assert(r@ =~= s@.skip(a as int));
    }
    r
}

proof fn lemma_lead(s: Seq<char>, i: int)
    requires
        0 <= i <= s.len(),
        forall|j: int| 0 <= j < i ==> is_white(#[trigger] s[j]),
        i == s.len() || !is_white(s[i]),
    ensures
        crate::text::lead_white(s) == i,
    decreases i,
{
    if i > 0 {
        let t = s.drop_first();
        assert forall|j: int| 0 <= j < i - 1 implies is_white(#[trigger] t[j]) by {
            assert(t[j] == s[j + 1]);
        }
        if i - 1 < t.len() {
            assert(t[i - 1] == s[i]);
        }
        lemma_lead(t, i - 1);
    }
}

/// Whether text looks like a JavaScript function.
pub fn is_likely_js_function(s: &str) -> (r: bool)
    ensures
        r == looks_like_function(s@),
{
    let t = trim(s);
    let asynchronous = starts_with(t.as_str(), "async ");
    proof {
        reveal_strlit("async ");
    }
    if asynchronous {
        let after = t.as_str().substring_char(6, t.as_str().unicode_len());
        let rest = trim_start(after);
        proof {
            assert(after@ =~= t@.skip(6));
        }
        if starts_with(rest.as_str(), "function") {
            return true;
        }
        if starts_with(rest.as_str(), "(") {
            return contains_text(rest.as_str(), "=>");
        }
    }
    if starts_with(t.as_str(), "function") {
        return true;
    }
    starts_with(t.as_str(), "(") && contains_text(t.as_str(), "=>") && !is_called_at_once(t.as_str())
}

/// The character that `serde_json` writes for `c` inside a string.
pub open spec fn json_escape(c: char) -> Seq<char> {
    let u = c as u32;
    if c == '"' {
        seq!['\\', '"']
    } else if c == '\\' {
        seq!['\\', '\\']
    } else if u == 0x08 {
        seq!['\\', 'b']
    } else if u == 0x09 {
        seq!['\\', 't']
    } else if u == 0x0a {
        seq!['\\', 'n']
    } else if u == 0x0c {
        seq!['\\', 'f']
    } else if u == 0x0d {
        seq!['\\', 'r']
    } else if u < 0x20 {
        seq!['\\', 'u', '0', '0', if u < 0x10 { '0' } else { '1' }, hex_digit((u % 16) as nat)]
    } else {
        seq![c]
    }
}

/// A lower-case hexadecimal digit.
pub open spec fn hex_digit(d: nat) -> char {
    if d < 10 {
        ((d + 48) as u32) as char
    } else {
        ((d + 87) as u32) as char
    }
}

/// The characters of a string, escaped.
pub open spec fn json_escaped(s: Seq<char>) -> Seq<char>
    decreases s.len(),
{
    if s.len() == 0 {
        Seq::empty()
    } else {
        json_escaped(s.drop_last()) + json_escape(s.last())
    }
}

/// A string as a JSON string literal: in double quotes, with `"`, `\` and
/// the control characters escaped.
pub open spec fn json_quoted(s: Seq<char>) -> Seq<char> {
    seq!['"'] + json_escaped(s) + seq!['"']
}

/// `serde_json::to_string` of a string: the string as a JSON string
/// literal, with `"`, `\` and the control characters below U+0020 escaped
/// (the short forms for backspace, tab, line feed, form feed and carriage
/// return, `\u00xx` for the others) and every other character as it is.
/// Serialising a string does not fail.
#[verifier::external_body]
fn json_quote(s: &str) -> (r: String)
    ensures
        r@ == json_quoted(s@),
{
    serde_json::to_string(s).unwrap()
}

/// A string as a JSON string literal.
pub fn json_quote_text(s: &str) -> (r: String)
    ensures
        r@ == json_quoted(s@),
{
    json_quote(s)
}

/// The script that runs a query body on the document: `queryOne` or
/// `queryAll` (by `all`) applied to the selector as a string literal.
pub open spec fn query_script(all: bool, body: Seq<char>, selector: Seq<char>) -> Seq<char> {
    let f = if all {
        "queryAll"@
    } else {
        "queryOne"@
    };
    "() => { const "@ + f + " = function(element, selector) { "@ + body + " }; return "@ + f
        + "(document, "@ + json_quoted(selector) + "); }"@
}

/// The script that runs a query body on the document.
pub fn query_script_text(all: bool, body: &str, selector: &str) -> (r: String)
    ensures
        r@ == query_script(all, body@, selector@),
{
    let f = if all {
        "queryAll"
    } else {
        "queryOne"
    };
    "() => { const ".to_owned().concat(f).concat(" = function(element, selector) { ").concat(body).concat(
        " }; return ",
    ).concat(f).concat("(document, ").concat(json_quote(selector).as_str()).concat("); }")
}

/// The error of a query that found no element.
pub open spec fn not_found(e: Error, selector: Seq<char>) -> bool {
    e is ElementNotFound && message_detail(&e) == Some(
        "query handler returned no element for: "@ + selector,
    )
}

/// The error of a query that found no element.
pub fn query_not_found(selector: &str) -> (r: Error)
    ensures
        not_found(r, selector@),
{
    Error::ElementNotFound("query handler returned no element for: ".to_owned().concat(selector))
}

/// The error of a script that threw: the exception's description when it
/// has one, else the text of the exception details.
pub fn script_error(description: Option<String>, text: String) -> (r: Error)
    ensures
        r is JavaScript,
        message_detail(&r) == Some(
            match description {
                Some(d) => d@,
                None => text@,
            },
        ),
{
    match description {
        Some(d) => Error::JavaScript(d),
        None => Error::JavaScript(text),
    }
}

/// The function that reads item `i` of an array.
pub open spec fn item_script(i: nat) -> Seq<char> {
    "function() { return this["@ + decimal(i) + "]; }"@
}

/// The function that reads item `i` of an array.
pub fn item_script_text(i: u64) -> (r: String)
    ensures
        r@ == item_script(i as nat),
{
    "function() { return this[".to_owned().concat(decimal_text(i).as_str()).concat("]; }")
}

/// Whether a property name is an array index: what `usize`'s `FromStr`
/// accepts, an optional `+` then one or more ASCII digits, of a value
/// that fits in a `usize`.
pub open spec fn index_name(s: Seq<char>) -> bool {
    let d = unsigned_part(s);
    d.len() > 0 && all_digits(d) && digits_value(d) <= usize::MAX
}

/// A name without its leading `+`, if it has one.
pub open spec fn unsigned_part(s: Seq<char>) -> Seq<char> {
    if s.len() > 0 && s[0] == '+' {
        s.skip(1)
    } else {
        s
    }
}

/// Every character is an ASCII digit.
pub open spec fn all_digits(d: Seq<char>) -> bool {
    forall|i: int| 0 <= i < d.len() ==> '0' <= #[trigger] d[i] <= '9'
}

/// The value of a string of decimal digits.
pub open spec fn digits_value(d: Seq<char>) -> nat
    decreases d.len(),
{
    if d.len() == 0 {
        0
    } else {
        digits_value(d.drop_last()) * 10 + ((d.last() as u32) - 48) as nat
    }
}

/// Whether a property name is an array index.
pub fn is_index_name(s: &str) -> (r: bool)
    ensures
        r == index_name(s@),
{
    parse_index(s).is_some()
}

/// The index a property name stands for, when it is one: what `usize`'s
/// `FromStr` gives for it.
pub fn parse_index(s: &str) -> (r: Option<usize>)
    ensures
        match r {
            Some(v) => index_name(s@) && v as nat == digits_value(unsigned_part(s@)),
            None => !index_name(s@),
        },
{
    let n = s.unicode_len();
    let start: usize = if n > 0 && s.get_char(0) == '+' {
        1
    } else {
        0
    };
    let ghost d = if s@.len() > 0 && s@[0] == '+' {
        s@.skip(1)
    } else {
        s@
    };
    proof {
        assert(d =~= s@.skip(start as int));
    }
    if start >= n {
        return None;
    }
    let mut value: usize = 0;
    let mut i: usize = start;
    while i < n
        invariant
            start <= i <= n,
            n == s@.len(),
            d == s@.skip(start as int),
            forall|j: int| start <= j < i ==> '0' <= #[trigger] s@[j] <= '9',
            value == digits_value(s@.subrange(start as int, i as int)),
            d == if s@.len() > 0 && s@[0] == '+' {
                s@.skip(1)
            } else {
                s@
            },
        decreases n - i,
    {
        let c = s.get_char(i);
        if c < '0' || c > '9' {
            proof {
                lemma_non_digit(s@, d, start as int, i as int);
            }
            return None;
        }
        let v: u32 = (c as u32) - 48;
        proof {
            assert(s@.subrange(start as int, i + 1).drop_last() =~= s@.subrange(start as int, i as int));
        }
        match value.checked_mul(10) {
            Some(m) => match m.checked_add(v as usize) {
                Some(t) => {
                    value = t;
                },
                None => {
                    proof {
                        lemma_too_big(s@, d, start as int, i as int);
                    }
                    return None;
                },
            },
            None => {
                proof {
                    lemma_too_big(s@, d, start as int, i as int);
                }
                return None;
            },
        }
        i = i + 1;
    }
    proof {
        assert(s@.subrange(start as int, n as int) =~= d);
    }
    Some(value)
}

/// The items of a query's array, from the array's own properties (each a
/// name and the object id of its value, if it has one), in their order:
/// those whose name is an index and that carry an object, with the index.
pub open spec fn query_items(props: Seq<(Seq<char>, Option<Seq<char>>)>) -> Seq<(nat, Seq<char>)>
    decreases props.len(),
{
    if props.len() == 0 {
        Seq::empty()
    } else {
        let rest = query_items(props.drop_last());
        let p = props.last();
        if index_name(p.0) && p.1 is Some {
            rest.push((digits_value(unsigned_part(p.0)), p.1->0))
        } else {
            rest
        }
    }
}

/// Properties by their characters.
pub open spec fn props_view(props: Seq<(String, Option<String>)>) -> Seq<(Seq<char>, Option<Seq<char>>)> {
    props.map_values(|p: (String, Option<String>)| (p.0@, crate::frame::opt_str(p.1)))
}

/// Items by their characters.
pub open spec fn items_view(items: Seq<(usize, String)>) -> Seq<(nat, Seq<char>)> {
    items.map_values(|e: (usize, String)| (e.0 as nat, e.1@))
}

/// What a query for every element gave: the script's exception (its
/// description, or else its text) is a script error; no array is no
/// element; else the array's items, from its own properties.
pub fn query_all_items(
    exception: Option<String>,
    array_id: Option<String>,
    props: &Vec<(String, Option<String>)>,
) -> (r: Result<Vec<(usize, String)>, Error>)
    ensures
        match exception {
            Some(e) => r is Err && r->Err_0 is JavaScript && message_detail(&r->Err_0) == Some(e@),
            None => r is Ok && items_view(r->Ok_0@) == match array_id {
                Some(_) => query_items(props_view(props@)),
                None => Seq::<(nat, Seq<char>)>::empty(),
            },
        },
{
    if let Some(e) = exception {
        return Err(Error::JavaScript(e));
    }
    let mut r: Vec<(usize, String)> = Vec::new();
    if array_id.is_none() {
        proof {
            assert(items_view(r@) =~= Seq::<(nat, Seq<char>)>::empty());
        }
        return Ok(r);
    }
    let ghost pv = props_view(props@);
    let mut i: usize = 0;
    proof {
        assert(pv.take(0) =~= Seq::<(Seq<char>, Option<Seq<char>>)>::empty());
        assert(items_view(r@) =~= Seq::<(nat, Seq<char>)>::empty());
    }
    while i < props.len()
        invariant
            i <= props.len(),
            pv == props_view(props@),
            items_view(r@) == query_items(pv.take(i as int)),
        decreases props.len() - i,
    {
        proof {
            assert(pv.take(i + 1).drop_last() =~= pv.take(i as int));
            assert(pv.take(i + 1).last() == pv[i as int]);
        }
        let (name, id) = &props[i];
        match parse_index(name.as_str()) {
            Some(v) => match id {
                Some(o) => {
                    let ghost before = r@;
                    r.push((v, o.clone()));
                    proof {
                        assert(items_view(r@) =~= items_view(before).push((v as nat, o@)));
                    }
                },
                None => {},
            },
            None => {},
        }
        i = i + 1;
    }
    proof {
        assert(pv.take(props.len() as int) =~= pv);
    }
    Ok(r)
}

/// The items of a query's array read one index at a time (the object id
/// of item `i`, if it has one), by increasing index: those that carry an
/// object, with their index.
pub open spec fn indexed_items(ids: Seq<Option<Seq<char>>>) -> Seq<(nat, Seq<char>)>
    decreases ids.len(),
{
    if ids.len() == 0 {
        Seq::empty()
    } else {
        let rest = indexed_items(ids.drop_last());
        match ids.last() {
            Some(o) => rest.push(((ids.len() - 1) as nat, o)),
            None => rest,
        }
    }
}

/// Object ids by their characters.
pub open spec fn ids_view(ids: Seq<Option<String>>) -> Seq<Option<Seq<char>>> {
    ids.map_values(|o: Option<String>| crate::frame::opt_str(o))
}

/// The items of a query's array read one index at a time: those with an
/// object id, by increasing index.
pub fn items_by_index(ids: &Vec<Option<String>>) -> (r: Vec<(usize, String)>)
    ensures
        items_view(r@) == indexed_items(ids_view(ids@)),
{
    let ghost iv = ids_view(ids@);
    let mut r: Vec<(usize, String)> = Vec::new();
    let mut i: usize = 0;
    proof {
        assert(items_view(r@) =~= Seq::<(nat, Seq<char>)>::empty());
    }
    while i < ids.len()
        invariant
            i <= ids.len(),
            iv == ids_view(ids@),
            items_view(r@) == indexed_items(iv.take(i as int)),
        decreases ids.len() - i,
    {
        proof {
            assert(iv.take(i + 1).drop_last() =~= iv.take(i as int));
            assert(iv.take(i + 1).last() == iv[i as int]);
        }
        match &ids[i] {
            Some(o) => {
                let ghost before = r@;
                r.push((i, o.clone()));
                proof {
                    assert(items_view(r@) =~= items_view(before).push((i as nat, o@)));
                }
            },
            None => {},
        }
        i = i + 1;
    }
    proof {
        assert(iv.take(ids.len() as int) =~= iv);
    }
    r
}

/// The elements among a query's items: the object ids, in order, of the
/// items whose node the browser could describe.
pub open spec fn described_ids(items: Seq<(nat, Seq<char>)>, described: Seq<bool>) -> Seq<Seq<char>>
    decreases items.len(),
{
    if items.len() == 0 || described.len() == 0 {
        Seq::empty()
    } else {
        let rest = described_ids(items.drop_last(), described.drop_last());
        if described.last() {
            rest.push(items.last().1)
        } else {
            rest
        }
    }
}

/// The elements among a query's items, given whether each node could be
/// described.
pub fn described_elements(items: &Vec<(usize, String)>, described: &Vec<bool>) -> (r: Vec<String>)
    requires
        items.len() == described.len(),
    ensures
        r@.map_values(|s: String| s@) == described_ids(items_view(items@), described@),
{
    let ghost iv = items_view(items@);
    let mut r: Vec<String> = Vec::new();
    let mut i: usize = 0;
    proof {
        assert(r@.map_values(|s: String| s@) =~= Seq::<Seq<char>>::empty());
    }
    while i < items.len()
        invariant
            i <= items.len(),
            items.len() == described.len(),
            iv == items_view(items@),
            r@.map_values(|s: String| s@) == described_ids(iv.take(i as int), described@.take(i as int)),
        decreases items.len() - i,
    {
        proof {
            assert(iv.take(i + 1).drop_last() =~= iv.take(i as int));
            assert(described@.take(i + 1).drop_last() =~= described@.take(i as int));
            assert(iv.take(i + 1).last() == iv[i as int]);
        }
        if described[i] {
            let ghost before = r@;
            r.push(items[i].1.clone());
            proof {
                assert(r@.map_values(|s: String| s@) =~= before.map_values(|s: String| s@).push(items@[i as int].1@));
            }
        }
        i = i + 1;
    }
    proof {
        assert(iv.take(items.len() as int) =~= iv);
        assert(described@.take(items.len() as int) =~= described@);
    }
    r
}

/// The history entry one step back: none at the first entry.
pub open spec fn back_entry_of(current: i64, ids: Seq<i64>) -> Option<i64> {
    if current <= 0 {
        None
    } else {
        Some(ids[current - 1])
    }
}

/// The history entry to go back to, given the current index and the
/// entries' ids; none when the current entry is the first.
pub fn back_entry(current: i64, ids: &Vec<i64>) -> (r: Option<i64>)
    requires
        current <= ids.len(),
    ensures
        r == back_entry_of(current, ids@),
{
    if current <= 0 {
        None
    } else {
        Some(ids[(current - 1) as usize])
    }
}

/// The history entry one step forward: none at the last entry.
pub open spec fn forward_entry_of(current: i64, ids: Seq<i64>) -> Option<i64> {
    if current < 0 || current >= ids.len() - 1 {
        None
    } else {
        Some(ids[current + 1])
    }
}

/// The history entry to go forward to, given the current index and the
/// entries' ids (there is at least the current one); none when the
/// current entry is the last.
pub fn forward_entry(current: i64, ids: &Vec<i64>) -> (r: Option<i64>)
    requires
        ids.len() > 0,
    ensures
        r == forward_entry_of(current, ids@),
{
    if current < 0 {
        return None;
    }
    let c = current as u64;
    let last = (ids.len() - 1) as u64;
    if c >= last {
        None
    } else {
        Some(ids[(c + 1) as usize])
    }
}

/// A name whose digits up to `i` already exceed `usize` is no index.
proof fn lemma_too_big(s: Seq<char>, d: Seq<char>, start: int, i: int)
    requires
        0 <= start <= i < s.len(),
        d == s.skip(start),
        digits_value(s.subrange(start, i + 1)) > usize::MAX,
        d == if s.len() > 0 && s[0] == '+' {
            s.skip(1)
        } else {
            s
        },
    ensures
        !index_name(s),
{
    assert(s.subrange(start, i + 1) =~= d.take(i - start + 1));
    assert(d.take(d.len() as int) =~= d);
    if index_name(s) {
        lemma_digits_grow(d, i - start + 1, d.len() as int);
        assert(false);
    }
}

/// A name with a character other than a digit after its sign is no index.
proof fn lemma_non_digit(s: Seq<char>, d: Seq<char>, start: int, i: int)
    requires
        0 <= start <= i < s.len(),
        d == s.skip(start),
        !('0' <= s[i] <= '9'),
        d == if s.len() > 0 && s[0] == '+' {
            s.skip(1)
        } else {
            s
        },
    ensures
        !index_name(s),
{
    if index_name(s) {
        assert(d[i - start] == s[i]);
        assert('0' <= d[i - start] <= '9');
        assert(false);
    }
}

/// A longer run of digits has no smaller value.
proof fn lemma_digits_grow(d: Seq<char>, k: int, n: int)
    requires
        0 <= k <= n <= d.len(),
    ensures
        (forall|i: int| 0 <= i < n ==> '0' <= #[trigger] d[i] <= '9') ==> digits_value(d.take(k)) <= digits_value(d.take(n)),
    decreases n - k,
{
    if k < n {
        lemma_digits_grow(d, k, n - 1);
        assert(d.take(n).drop_last() =~= d.take(n - 1));
        assert(digits_value(d.take(n)) == digits_value(d.take(n - 1)) * 10 + ((d[n - 1] as u32) - 48) as nat);
    }
}

/// How a wait for a selector polls: on animation frames when it waits for
/// the element to be visible or hidden, else as the selector's handler does.
pub open spec fn selector_polling(visible: bool, hidden: bool, handler: PollingMode) -> PollingMode {
    if visible || hidden {
        PollingMode::Raf
    } else {
        handler
    }
}

/// How a wait for a selector polls.
pub fn selector_wait_polling(visible: bool, hidden: bool, handler: PollingMode) -> (r: PollingMode)
    ensures
        r == selector_polling(visible, hidden, handler),
{
    if visible || hidden {
        PollingMode::Raf
    } else {
        handler
    }
}

/// What a wait for a selector asks of the element's visibility: visible,
/// hidden, or nothing.
pub fn visibility_wanted(visible: bool, hidden: bool) -> (r: Option<bool>)
    ensures
        r == if visible {
            Some(true)
        } else if hidden {
            Some(false)
        } else {
            None::<bool>
        },
{
    if visible {
        Some(true)
    } else if hidden {
        Some(false)
    } else {
        None
    }
}

/// The selector that finds the element again once a wait is over: the bare
/// selector for css, else the handler's name, `=`, and the selector.
pub open spec fn full_selector_of(name: Seq<char>, selector: Seq<char>) -> Seq<char> {
    if name == "css"@ {
        selector
    } else {
        name + "="@ + selector
    }
}

/// The selector that finds the element again once a wait is over.
pub fn full_selector(resolved: &ResolvedSelector) -> (r: String)
    ensures
        r@ == full_selector_of(resolved.name@, resolved.selector@),
{
    if str_eq(resolved.name.as_str(), "css") {
        resolved.selector.clone()
    } else {
        resolved.name.clone().concat("=").concat(resolved.selector.as_str())
    }
}

/// The predicate of a wait for a selector, around the handler's
/// `query_one` body.
pub open spec fn selector_predicate(query_one: Seq<char>) -> Seq<char> {
    SELECTOR_PREDICATE_OPEN@ + query_one + SELECTOR_PREDICATE_CLOSE@
}

/// The predicate of a wait for a selector, up to the query body.
pub const SELECTOR_PREDICATE_OPEN: &'static str = "function(util, selector, visible) {\n                const queryOne = function(element, selector) { ";

/// The predicate of a wait for a selector, after the query body.
pub const SELECTOR_PREDICATE_CLOSE: &'static str = " };\n                const node = queryOne(document, selector);\n                return util.checkVisibility(node, visible);\n            }";

/// The predicate of a wait for a selector.
pub fn selector_predicate_text(query_one: &str) -> (r: String)
    ensures
        r@ == selector_predicate(query_one@),
{
    SELECTOR_PREDICATE_OPEN.to_owned().concat(query_one).concat(SELECTOR_PREDICATE_CLOSE)
}

/// What the page does with an event while it answers authentication
/// challenges.
#[derive(Debug, PartialEq, Eq)]
pub enum AuthAction {
    /// Answer the challenge of this request with the credentials.
    ProvideCredentials { request_id: String },
    /// Let this paused request go on.
    ContinueRequest { request_id: String },
}

/// What the page does with an event (of its own session) while it answers
/// authentication challenges: answer a challenge, let a paused request go
/// on, or nothing.  The request is the one the event names.
pub open spec fn auth_action_of(own: bool, method: Seq<char>, params: JsonValue) -> Option<(bool, Seq<char>)> {
    let id = str_of(field(params, "requestId"@));
    if !own || id is None {
        None
    } else if method == "Fetch.authRequired"@ {
        Some((true, id->0))
    } else if method == "Fetch.requestPaused"@ {
        Some((false, id->0))
    } else {
        None
    }
}

/// The event came in the page's own session.
pub open spec fn same_session(session_id: Option<&str>, own: &str) -> bool {
    match session_id {
        Some(s) => s@ == own@,
        None => false,
    }
}

/// What the page does with an event while it answers authentication challenges.
pub fn auth_action(session_id: Option<&str>, own_session: &str, method: &str, params: &JsonValue) -> (r: Option<AuthAction>)
    ensures
        match r {
            Some(AuthAction::ProvideCredentials { request_id }) => auth_action_of(
                same_session(session_id, own_session),
                method@,
                *params,
            ) == Some((true, request_id@)),
            Some(AuthAction::ContinueRequest { request_id }) => auth_action_of(
                same_session(session_id, own_session),
                method@,
                *params,
            ) == Some((false, request_id@)),
            None => auth_action_of(same_session(session_id, own_session), method@, *params) is None,
        },
{
    let own = match session_id {
        Some(s) => str_eq(s, own_session),
        None => false,
    };
    let id = string_of(get(params, "requestId"));
    if !own || id.is_none() {
        return None;
    }
    let request_id = id.unwrap();
    if str_eq(method, "Fetch.authRequired") {
        Some(AuthAction::ProvideCredentials { request_id })
    } else if str_eq(method, "Fetch.requestPaused") {
        Some(AuthAction::ContinueRequest { request_id })
    } else {
        None
    }
}

} // verus!
