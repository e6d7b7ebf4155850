//! Cookies: what deleting one names.
use vstd::prelude::*;

verus! {

/// Which cookies to delete: by name, and optionally by URL, domain and path.
#[derive(Debug, PartialEq, Eq)]
pub struct DeleteCookieParams {
    pub name: String,
    pub url: Option<String>,
    pub domain: Option<String>,
    pub path: Option<String>,
}

impl DeleteCookieParams {
    /// The cookies with this name, wherever they are.
    pub fn new(name: String) -> (r: DeleteCookieParams)
        ensures
            r.name == name,
            r.url is None,
            r.domain is None,
            r.path is None,
    {
        DeleteCookieParams { name, url: None, domain: None, path: None }
    }
}

} // verus!
