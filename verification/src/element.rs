//! An element handle's logic: the functions it calls on the element, and
//! what it makes of their results.
use vstd::prelude::*;

use crate::error::Error;
use crate::json::{as_array, opt_val, str_of, items_of, JsonValue};
use crate::page::{json_quote_text, json_quoted};

verus! {

/// Whether the element is attached and is an element node: the function
/// gives a message when it is not, `false` when it is.
pub const CONNECTED_CHECK_SCRIPT: &'static str = "function() {\n                    if (!this.isConnected)\n                        return 'Node is detached from document';\n                    if (this.nodeType !== Node.ELEMENT_NODE)\n                        return 'Node is not of type HTMLElement';\n                    return false;\n                }";

/// Scroll the element to the centre of the viewport at once.
pub const SCROLL_INTO_VIEW_SCRIPT: &'static str = "function() {\n                    this.scrollIntoView({\n                        block: 'center',\n                        inline: 'center',\n                        behavior: 'instant'\n                    });\n                }";

/// Focus the element.
pub const FOCUS_SCRIPT: &'static str = "function() { this.focus() }";

/// The element itself, by value.
pub const JSON_VALUE_SCRIPT: &'static str = "function() { return this }";

/// The select script, up to the list of values.
pub const SELECT_OPEN: &'static str = "function() {\n                if (this.nodeName.toLowerCase() !== 'select')\n                    throw new Error('Element is not a <select> element.');\n                const values = ";

/// The select script, after the list of values.
pub const SELECT_CLOSE: &'static str = ";\n                const options = Array.from(this.options);\n                if (!this.multiple) {\n                    // Single-select: pick the first matching option\n                    const opt = options.find(o => values.includes(o.value));\n                    if (opt) {\n                        this.value = opt.value;\n                    }\n                } else {\n                    for (const option of options) {\n                        option.selected = values.includes(option.value);\n                    }\n                }\n                this.dispatchEvent(new Event('input', { bubbles: true }));\n                this.dispatchEvent(new Event('change', { bubbles: true }));\n                return Array.from(this.options).filter(o => o.selected).map(o => o.value);\n            }";

/// The function that reads attribute `name` of the element.
pub open spec fn attribute_script(name: Seq<char>) -> Seq<char> {
    "function() { return this.getAttribute('"@ + name + "') }"@
}

/// The function that reads attribute `name` of the element.
pub fn attribute_script_text(name: &str) -> (r: String)
    ensures
        r@ == attribute_script(name@),
{
    "function() { return this.getAttribute('".to_owned().concat(name).concat("') }")
}

/// The function that reads property `prop` of the element.
pub open spec fn property_script(prop: Seq<char>) -> Seq<char> {
    "function() { return this['"@ + prop + "'] }"@
}

/// The function that reads property `prop` of the element.
pub fn property_script_text(prop: &str) -> (r: String)
    ensures
        r@ == property_script(prop@),
{
    "function() { return this['".to_owned().concat(prop).concat("'] }")
}

/// Strings as the items of a JSON array: each as a string literal, with
/// commas between them.
pub open spec fn json_items(s: Seq<Seq<char>>) -> Seq<char>
    decreases s.len(),
{
    if s.len() == 0 {
        Seq::empty()
    } else if s.len() == 1 {
        json_quoted(s[0])
    } else {
        json_items(s.drop_last()) + ","@ + json_quoted(s.last())
    }
}

/// Strings as a compact JSON array.
pub open spec fn json_list(s: Seq<Seq<char>>) -> Seq<char> {
    "["@ + json_items(s) + "]"@
}

/// The strings of a list, by their characters.
pub open spec fn strings_view(v: Seq<String>) -> Seq<Seq<char>> {
    v.map_values(|s: String| s@)
}

/// The function that selects the options whose values are listed (the
/// first such option of a single select) and gives the values selected.
pub open spec fn select_script(values: Seq<Seq<char>>) -> Seq<char> {
    SELECT_OPEN@ + json_list(values) + SELECT_CLOSE@
}

/// The function that selects the listed values in a `<select>` element.
pub fn select_script_text(values: &Vec<String>) -> (r: String)
    ensures
        r@ == select_script(strings_view(values@)),
{
    let ghost sv = strings_view(values@);
    let mut items = String::new();
    let mut i: usize = 0;
    while i < values.len()
        invariant
            i <= values.len(),
            sv == strings_view(values@),
            items@ == json_items(sv.take(i as int)),
        decreases values.len() - i,
    {
        let q = json_quote_text(values[i].as_str());
        proof {
            assert(sv.take(i + 1).drop_last() =~= sv.take(i as int));
            assert(sv.take(i + 1).last() == values@[i as int]@);
        }
        if i == 0 {
            proof {
                assert(sv.take(0) =~= Seq::<Seq<char>>::empty());
            }
            items = q;
        } else {
            items = items.concat(",").concat(q.as_str());
        }
        i = i + 1;
    }
    proof {
        assert(sv.take(values.len() as int) =~= sv);
    }
    SELECT_OPEN.to_owned().concat("[").concat(items.as_str()).concat("]").concat(SELECT_CLOSE)
}

/// The strings among the items of an array, in order.
pub open spec fn strings_in(items: Seq<JsonValue>) -> Seq<Seq<char>>
    decreases items.len(),
{
    if items.len() == 0 {
        Seq::empty()
    } else {
        let rest = strings_in(items.drop_last());
        match items.last() {
            JsonValue::String(s) => rest.push(s@),
            _ => rest,
        }
    }
}

/// What a select gave back: the strings of its array, in order; nothing
/// for any other value.
pub open spec fn selected_of(v: Option<JsonValue>) -> Seq<Seq<char>> {
    match items_of(v) {
        Some(items) => strings_in(items),
        None => Seq::empty(),
    }
}

/// The values a select gave back.
pub fn selected_values(v: Option<&JsonValue>) -> (r: Vec<String>)
    ensures
        strings_view(r@) == selected_of(opt_val(v)),
{
    let mut r: Vec<String> = Vec::new();
    match as_array(v) {
        Some(items) => {
            let mut i: usize = 0;
            while i < items.len()
                invariant
                    i <= items.len(),
                    strings_view(r@) == strings_in(items@.take(i as int)),
                decreases items.len() - i,
            {
                proof {
                    assert(items@.take(i + 1).drop_last() =~= items@.take(i as int));
                }
                match &items[i] {
                    JsonValue::String(s) => {
                        r.push(s.clone());
                        proof {
                            assert(strings_view(r@) =~= strings_view(r@.drop_last()).push(s@));
                        }
                    },
                    _ => {},
                }
                i = i + 1;
            }
            proof {
                assert(items@.take(items.len() as int) =~= items@);
            }
            r
        },
        None => {
            proof {
                assert(strings_view(r@) =~= Seq::<Seq<char>>::empty());
            }
            r
        },
    }
}

/// An attribute or string property: the string, if the value is one.
pub fn string_value(v: Option<&JsonValue>) -> (r: Option<String>)
    ensures
        crate::frame::opt_str(r) == str_of(opt_val(v)),
{
    match v {
        Some(JsonValue::String(s)) => Some(s.clone()),
        _ => None,
    }
}

/// The names of the attributes, from the protocol's flat list of names and
/// values: the items at even positions.
pub open spec fn attribute_names_of(attrs: Seq<Seq<char>>) -> Seq<Seq<char>> {
    Seq::new(((attrs.len() + 1) / 2) as nat, |i: int| attrs[2 * i])
}

/// The names of the attributes, from the flat list of names and values.
pub fn attribute_names(attrs: &Vec<String>) -> (r: Vec<String>)
    ensures
        strings_view(r@) == attribute_names_of(strings_view(attrs@)),
{
    let ghost sv = strings_view(attrs@);
    let n = attrs.len();
    let m = n / 2 + n % 2;
    assert(m == (n + 1) / 2);
    let mut r: Vec<String> = Vec::new();
    let mut k: usize = 0;
    while k < m
        invariant
            sv == strings_view(attrs@),
            n == attrs.len(),
            m == (n + 1) / 2,
            k <= m,
            r@.len() == k,
            forall|j: int| 0 <= j < k ==> #[trigger] r@[j]@ == sv[2 * j],
        decreases m - k,
    {
        assert(2 * k < n) by (nonlinear_arith)
            requires
                k < m,
                m == (n + 1) / 2,
        ;
        r.push(attrs[2 * k].clone());
        k = k + 1;
    }
    proof {
        assert(strings_view(r@) =~= attribute_names_of(sv));
    }
    r
}

/// What the connection check gave back: a message means the element cannot
/// be used.
pub open spec fn connected_check(v: Option<JsonValue>) -> Option<Seq<char>> {
    str_of(v)
}

/// What the connection check gave back: an error with its message when
/// the element is detached or not an element.
pub fn check_connected(v: Option<&JsonValue>) -> (r: Result<(), Error>)
    ensures
        match connected_check(opt_val(v)) {
            Some(m) => r is Err && crate::error::other_error(r->Err_0, m),
            None => r is Ok,
        },
{
    match v {
        Some(JsonValue::String(m)) => Err(Error::Other(m.clone())),
        _ => Ok(()),
    }
}

} // verus!
