//! Tags a frame adds to its document: the scripts that insert a
//! `<script>`, a stylesheet `<link>` or a `<style>` element.
use vstd::prelude::*;

use crate::error::{other_error, Error};
use crate::frame::opt_str;
use crate::page::{json_quote_text, json_quoted};

verus! {

/// What a tag brings in: a URL to load or inline content (the URL wins
/// when both are given), and for a script its `type`.
#[derive(Debug)]
pub struct AddTagOptions {
    /// URL to load (the `src` or `href` attribute).
    pub url: Option<String>,
    /// Inline content.
    pub content: Option<String>,
    /// Script type (for script tags, e.g. "module").
    pub script_type: Option<String>,
}

/// The message of a tag with neither a URL nor content.
pub const TAG_SOURCE_MISSING: &'static str = "AddTagOptions requires either url or content";

/// The script type used when none is given.
pub const DEFAULT_SCRIPT_TYPE: &'static str = "text/javascript";

/// The script that loads a script from `url` and settles when it has loaded.
pub open spec fn script_url_script(script_type: Seq<char>, url: Seq<char>) -> Seq<char> {
    "new Promise((resolve, reject) => {\n                    const s = document.createElement('script');\n                    s.type = "@
        + json_quoted(script_type) + ";\n                    s.src = "@ + json_quoted(url)
        + ";\n                    s.onload = resolve;\n                    s.onerror = reject;\n                    document.head.appendChild(s);\n                })"@
}

/// The script that inserts a script with inline `content`.
pub open spec fn script_content_script(script_type: Seq<char>, content: Seq<char>) -> Seq<char> {
    "(() => {\n                    const s = document.createElement('script');\n                    s.type = "@
        + json_quoted(script_type) + ";\n                    s.textContent = "@ + json_quoted(content)
        + ";\n                    document.head.appendChild(s);\n                })()"@
}

/// The script that adds a `<script>` tag, if the options name a source.
pub open spec fn script_tag_script(
    url: Option<Seq<char>>,
    content: Option<Seq<char>>,
    script_type: Option<Seq<char>>,
) -> Option<Seq<char>> {
    let t = match script_type {
        Some(t) => t,
        None => DEFAULT_SCRIPT_TYPE@,
    };
    match url {
        Some(u) => Some(script_url_script(t, u)),
        None => match content {
            Some(c) => Some(script_content_script(t, c)),
            None => None,
        },
    }
}

/// The script that links a stylesheet from `url` and settles when it has loaded.
pub open spec fn style_url_script(url: Seq<char>) -> Seq<char> {
    "new Promise((resolve, reject) => {\n                    const l = document.createElement('link');\n                    l.rel = 'stylesheet';\n                    l.href = "@
        + json_quoted(url)
        + ";\n                    l.onload = resolve;\n                    l.onerror = reject;\n                    document.head.appendChild(l);\n                })"@
}

/// The script that inserts a `<style>` element with inline `content`.
pub open spec fn style_content_script(content: Seq<char>) -> Seq<char> {
    "(() => {\n                    const s = document.createElement('style');\n                    s.textContent = "@
        + json_quoted(content) + ";\n                    document.head.appendChild(s);\n                })()"@
}

/// The script that adds a style tag, if the options name a source.
pub open spec fn style_tag_script(url: Option<Seq<char>>, content: Option<Seq<char>>) -> Option<Seq<char>> {
    match url {
        Some(u) => Some(style_url_script(u)),
        None => match content {
            Some(c) => Some(style_content_script(c)),
            None => None,
        },
    }
}

/// The script that adds a `<script>` tag: one that loads `url` when there
/// is one, else one with the inline content; an error when the options
/// name neither.
pub fn script_tag_script_text(options: &AddTagOptions) -> (r: Result<String, Error>)
    ensures
        match r {
            Ok(s) => script_tag_script(
                opt_str(options.url),
                opt_str(options.content),
                opt_str(options.script_type),
            ) == Some(s@),
            Err(e) => script_tag_script(
                opt_str(options.url),
                opt_str(options.content),
                opt_str(options.script_type),
            ) is None && other_error(e, TAG_SOURCE_MISSING@),
        },
{
    let t: &str = match &options.script_type {
        Some(t) => t.as_str(),
        None => DEFAULT_SCRIPT_TYPE,
    };
    match &options.url {
        Some(u) => {
            let s = "new Promise((resolve, reject) => {\n                    const s = document.createElement('script');\n                    s.type = ".to_owned()
                .concat(json_quote_text(t).as_str())
                .concat(";\n                    s.src = ")
                .concat(json_quote_text(u.as_str()).as_str())
                .concat(";\n                    s.onload = resolve;\n                    s.onerror = reject;\n                    document.head.appendChild(s);\n                })");
            Ok(s)
        },
        None => match &options.content {
            Some(c) => {
                let s = "(() => {\n                    const s = document.createElement('script');\n                    s.type = ".to_owned()
                    .concat(json_quote_text(t).as_str())
                    .concat(";\n                    s.textContent = ")
                    .concat(json_quote_text(c.as_str()).as_str())
                    .concat(";\n                    document.head.appendChild(s);\n                })()");
                Ok(s)
            },
            None => Err(Error::Other(TAG_SOURCE_MISSING.to_string())),
        },
    }
}

/// The script that adds a style tag: a stylesheet `<link>` to `url` when
/// there is one, else a `<style>` with the inline content; an error when
/// the options name neither.
pub fn style_tag_script_text(options: &AddTagOptions) -> (r: Result<String, Error>)
    ensures
        match r {
            Ok(s) => style_tag_script(opt_str(options.url), opt_str(options.content)) == Some(s@),
            Err(e) => style_tag_script(opt_str(options.url), opt_str(options.content)) is None
                && other_error(e, TAG_SOURCE_MISSING@),
        },
{
    match &options.url {
        Some(u) => {
            let s = "new Promise((resolve, reject) => {\n                    const l = document.createElement('link');\n                    l.rel = 'stylesheet';\n                    l.href = ".to_owned()
                .concat(json_quote_text(u.as_str()).as_str())
                .concat(";\n                    l.onload = resolve;\n                    l.onerror = reject;\n                    document.head.appendChild(l);\n                })");
            Ok(s)
        },
        None => match &options.content {
            Some(c) => {
                let s = "(() => {\n                    const s = document.createElement('style');\n                    s.textContent = ".to_owned()
                    .concat(json_quote_text(c.as_str()).as_str())
                    .concat(";\n                    document.head.appendChild(s);\n                })()");
                Ok(s)
            },
            None => Err(Error::Other(TAG_SOURCE_MISSING.to_string())),
        },
    }
}

} // verus!
