//! What plugins are told and what they answer: the contexts of their hooks,
//! the decision on an intercepted request, how the decisions of several
//! plugins combine, and the check of a plugin's dependencies.
use vstd::prelude::*;

use crate::error::{other_error, Error};
use crate::keyed::str_eq;

verus! {

/// A target was created.
#[derive(Debug, PartialEq, Eq)]
pub struct TargetCreatedContext {
    pub target_id: String,
    pub url: String,
}

/// A target was destroyed.
#[derive(Debug, PartialEq, Eq)]
pub struct TargetDestroyedContext {
    pub target_hint: Option<String>,
}

/// A page was created.
#[derive(Debug, Clone, Copy, PartialEq, Eq, Structural)]
pub struct PageCreatedContext {}

impl Default for PageCreatedContext {
    fn default() -> (r: PageCreatedContext)
        ensures
            r == (PageCreatedContext {}),
    {
        PageCreatedContext {}
    }
}

/// A request that interception paused, as plugins see it.
#[derive(Debug, PartialEq, Eq)]
pub struct InterceptedRequest {
    pub url: String,
    pub method: String,
    pub resource_type: Option<String>,
}

/// A response made up for a request.
#[derive(Debug, PartialEq, Eq)]
pub struct FulfillResponse {
    pub status_code: u16,
    pub headers: Vec<(String, String)>,
    pub body: Option<Vec<u8>>,
    pub response_phrase: Option<String>,
}

impl FulfillResponse {
    /// A response with this status, no header, no body and no phrase.
    pub fn new(status_code: u16) -> (r: FulfillResponse)
        ensures
            r.status_code == status_code,
            r.headers@.len() == 0,
            r.body is None,
            r.response_phrase is None,
    {
        FulfillResponse { status_code, headers: Vec::new(), body: None, response_phrase: None }
    }

    /// Add a header after the others.
    pub fn with_header(self, name: String, value: String) -> (r: FulfillResponse)
        ensures
            r.status_code == self.status_code,
            r.headers@ == self.headers@.push((name, value)),
            r.body == self.body,
            r.response_phrase == self.response_phrase,
    {
        let FulfillResponse { status_code, mut headers, body, response_phrase } = self;
        headers.push((name, value));
        FulfillResponse { status_code, headers, body, response_phrase }
    }

    /// Set the body.
    pub fn with_body(self, body: Vec<u8>) -> (r: FulfillResponse)
        ensures
            r.status_code == self.status_code,
            r.headers == self.headers,
            r.body == Some(body),
            r.response_phrase == self.response_phrase,
    {
        FulfillResponse { body: Some(body), ..self }
    }

    /// Set the response phrase.
    pub fn with_response_phrase(self, response_phrase: String) -> (r: FulfillResponse)
        ensures
            r.status_code == self.status_code,
            r.headers == self.headers,
            r.body == self.body,
            r.response_phrase == Some(response_phrase),
    {
        FulfillResponse { response_phrase: Some(response_phrase), ..self }
    }
}

/// What to do with an intercepted request.
#[derive(Debug, PartialEq, Eq)]
pub enum RequestDecision {
    /// Let it through.
    Continue,
    /// Fail it.
    Abort,
    /// Answer it with a made-up response.
    Fulfill(FulfillResponse),
}

impl Default for RequestDecision {
    fn default() -> (r: RequestDecision)
        ensures
            r is Continue,
    {
        RequestDecision::Continue
    }
}

/// The decision of several plugins asked in turn: the last one that is not
/// "continue"; "continue" when all say so.
pub open spec fn combined(ds: Seq<RequestDecision>) -> RequestDecision
    decreases ds.len(),
{
    if ds.len() == 0 {
        RequestDecision::Continue
    } else if ds.last() is Continue {
        combined(ds.drop_last())
    } else {
        ds.last()
    }
}

/// The decision so far, after one more plugin answered `next`.
pub fn combine_decision(current: RequestDecision, next: RequestDecision) -> (r: RequestDecision)
    ensures
        r == if next is Continue {
            current
        } else {
            next
        },
{
    match next {
        RequestDecision::Continue => current,
        _ => next,
    }
}

/// The decision of several plugins asked in turn.
pub fn combine_decisions(decisions: Vec<RequestDecision>) -> (r: RequestDecision)
    ensures
        r == combined(decisions@),
{
    let mut ds = decisions;
    let ghost all = ds@;
    // Take the decisions from the back: the first that is not "continue" wins.
    while ds.len() > 0
        invariant
            all == decisions@,
            combined(all) == combined(ds@),
        decreases ds.len(),
    {
        let ghost before = ds@;
        let d = ds.pop().unwrap();
        proof {
            assert(before.last() == d);
            assert(before.drop_last() =~= ds@);
        }
        match d {
            RequestDecision::Continue => {},
            _ => {
                return d;
            },
        }
    }
    RequestDecision::Continue
}

/// The message of a plugin that needs one that is not registered.
pub open spec fn missing_dependency_message(plugin: Seq<char>, dependency: Seq<char>) -> Seq<char> {
    "plugin '"@ + plugin + "' missing dependency '"@ + dependency + "'"@
}

/// Whether `names` lists `name`.
pub open spec fn listed(names: Seq<String>, name: Seq<char>) -> bool {
    exists|i: int| 0 <= i < names.len() && #[trigger] names[i]@ == name
}

/// Whether `names` lists `name`.
pub fn lists(names: &Vec<String>, name: &str) -> (r: bool)
    ensures
        r == listed(names@, name@),
{
    let mut i: usize = 0;
    while i < names.len()
        invariant
            i <= names.len(),
            forall|j: int| 0 <= j < i ==> #[trigger] names@[j]@ != name@,
        decreases names.len() - i,
    {
        if str_eq(names[i].as_str(), name) {
            return true;
        }
        i = i + 1;
    }
    false
}

/// A plugin can be registered when every plugin it depends on is; else the
/// error names the plugin and the first dependency that is missing.
pub fn validate_dependencies(plugin: &str, dependencies: &Vec<String>, registered: &Vec<String>) -> (r: Result<(), Error>)
    ensures
        r is Ok <==> forall|d: int| 0 <= d < dependencies@.len() ==> listed(registered@, #[trigger] dependencies@[d]@),
        r is Err ==> exists|d: int|
            0 <= d < dependencies@.len() && (forall|e: int| 0 <= e < d ==> listed(registered@, #[trigger] dependencies@[e]@))
                && !listed(registered@, #[trigger] dependencies@[d]@) && other_error(
                r->Err_0,
                missing_dependency_message(plugin@, dependencies@[d]@),
            ),
{
    let mut k: usize = 0;
    while k < dependencies.len()
        invariant
            k <= dependencies.len(),
            forall|e: int| 0 <= e < k ==> listed(registered@, #[trigger] dependencies@[e]@),
        decreases dependencies.len() - k,
    {
        if !lists(registered, dependencies[k].as_str()) {
            let msg = "plugin '".to_owned().concat(plugin).concat("' missing dependency '").concat(
                dependencies[k].as_str(),
            ).concat("'");
            proof {
                reveal_strlit("plugin '");
                reveal_strlit("' missing dependency '");
                reveal_strlit("'");
                assert(msg@ =~= missing_dependency_message(plugin@, dependencies@[k as int]@));
            }
            return Err(Error::Other(msg));
        }
        k = k + 1;
    }
    Ok(())
}

/// Plugin `x` runs its hooks before plugin `y`: a lower priority first,
/// and among equal priorities the one registered first.
pub open spec fn runs_before(priorities: Seq<i32>, x: int, y: int) -> bool {
    priorities[x] < priorities[y] || (priorities[x] == priorities[y] && x < y)
}

/// Plugin `i` is in the order.
pub open spec fn lists_plugin(order: Seq<usize>, i: int) -> bool {
    exists|k: int| 0 <= k < order.len() && #[trigger] order[k] == i
}

/// The order in which the plugins (by their priorities, in registration
/// order) run their hooks: each plugin once, by ascending priority, and in
/// registration order among equal priorities.
pub open spec fn is_hook_order(priorities: Seq<i32>, order: Seq<usize>) -> bool {
    &&& order.len() == priorities.len()
    &&& forall|k: int| 0 <= k < order.len() ==> #[trigger] order[k] < priorities.len()
    &&& forall|i: int| 0 <= i < priorities.len() ==> #[trigger] lists_plugin(order, i)
    &&& forall|a: int, b: int|
        0 <= a < b < order.len() ==> runs_before(priorities, #[trigger] order[a] as int, #[trigger] order[b] as int)
}

/// The order in which the plugins run their hooks, given their priorities
/// in registration order.
pub fn hook_order(priorities: &Vec<i32>) -> (r: Vec<usize>)
    ensures
        is_hook_order(priorities@, r@),
{
    let ghost p = priorities@;
    let mut r: Vec<usize> = Vec::new();
    let mut i: usize = 0;
    while i < priorities.len()
        invariant
            p == priorities@,
            i <= priorities.len(),
            r@.len() == i,
            forall|k: int| 0 <= k < r@.len() ==> #[trigger] r@[k] < i,
            forall|j: int| 0 <= j < i ==> #[trigger] lists_plugin(r@, j),
            forall|a: int, b: int| 0 <= a < b < r@.len() ==> runs_before(p, #[trigger] r@[a] as int, #[trigger] r@[b] as int),
        decreases priorities.len() - i,
    {
        let mut pos: usize = 0;
        while pos < r.len() && !(priorities[i] < priorities[r[pos]])
            invariant
                p == priorities@,
                i < priorities.len(),
                pos <= r@.len(),
                forall|k: int| 0 <= k < r@.len() ==> #[trigger] r@[k] < i,
                forall|k: int| 0 <= k < pos ==> !(p[i as int] < p[#[trigger] r@[k] as int]),
            decreases r@.len() - pos,
        {
            pos = pos + 1;
        }
        let ghost old_r = r@;
        r.insert(pos, i);
        proof {
            assert forall|k: int| 0 <= k < r@.len() implies #[trigger] r@[k] < i + 1 by {
                if k < pos {
                    assert(r@[k] == old_r[k]);
                } else if k > pos {
                    assert(r@[k] == old_r[k - 1]);
                }
            }
            assert forall|j: int| 0 <= j < i + 1 implies #[trigger] lists_plugin(r@, j) by {
                if j == i {
                    assert(r@[pos as int] == j);
                } else {
                    assert(lists_plugin(old_r, j));
                    let k0 = choose|k: int| 0 <= k < old_r.len() && #[trigger] old_r[k] == j;
                    if k0 < pos {
                        assert(r@[k0] == j);
                    } else {
                        assert(r@[k0 + 1] == j);
                    }
                }
            }
            assert forall|a: int, b: int| 0 <= a < b < r@.len() implies runs_before(
                p,
                #[trigger] r@[a] as int,
                #[trigger] r@[b] as int,
            ) by {
                if b < pos {
                    assert(r@[a] == old_r[a] && r@[b] == old_r[b]);
                } else if a > pos {
                    assert(r@[a] == old_r[a - 1] && r@[b] == old_r[b - 1]);
                } else if a < pos && b > pos {
                    assert(r@[a] == old_r[a] && r@[b] == old_r[b - 1]);
                } else if a == pos {
                    assert(r@[b] == old_r[b - 1]);
                    assert(p[i as int] < p[old_r[pos as int] as int]);
                    assert(runs_before(p, old_r[pos as int] as int, old_r[b - 1] as int) || b - 1 == pos);
                } else {
                    assert(r@[a] == old_r[a]);
                    assert(!(p[i as int] < p[old_r[a] as int]));
                    assert(old_r[a] < i);
                }
            }
        }
        i = i + 1;
    }
    r
}

} // verus!
