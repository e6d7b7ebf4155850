//! A plugin that fails the requests of some resource types (images,
//! stylesheets, media, ...).
use vstd::prelude::*;

use crate::plugin::{lists, listed, InterceptedRequest, RequestDecision};

verus! {

/// Fails the requests whose resource type it blocks.
#[derive(Debug)]
pub struct BlockResourcesPlugin {
    blocked_types: Vec<String>,
}

impl BlockResourcesPlugin {
    /// The resource types blocked.
    pub closed spec fn blocked(&self) -> Set<Seq<char>> {
        Set::new(|t: Seq<char>| listed(self.blocked_types@, t))
    }

    /// A plugin that blocks nothing.
    pub fn new() -> (r: BlockResourcesPlugin)
        ensures
            r.blocked() == Set::<Seq<char>>::empty(),
    {
        let r = BlockResourcesPlugin { blocked_types: Vec::new() };
        proof {
            assert(r.blocked() =~= Set::<Seq<char>>::empty());
        }
        r
    }

    /// Block one more resource type.
    pub fn block_type(self, resource_type: String) -> (r: BlockResourcesPlugin)
        ensures
            r.blocked() == self.blocked().insert(resource_type@),
    {
        let BlockResourcesPlugin { mut blocked_types } = self;
        let ghost before = blocked_types@;
        if !lists(&blocked_types, resource_type.as_str()) {
            blocked_types.push(resource_type);
            proof {
                assert forall|t: Seq<char>| listed(blocked_types@, t) == (listed(before, t) || t == resource_type@) by {
                    if listed(blocked_types@, t) {
                        let i = choose|i: int| 0 <= i < blocked_types@.len() && #[trigger] blocked_types@[i]@ == t;
                        if i < before.len() {
                            assert(before[i]@ == t);
                        }
                    }
                    if listed(before, t) {
                        let i = choose|i: int| 0 <= i < before.len() && #[trigger] before[i]@ == t;
                        assert(blocked_types@[i]@ == t);
                    }
                    if t == resource_type@ {
                        assert(blocked_types@[before.len() as int]@ == t);
                    }
                }
            }
        }
        let r = BlockResourcesPlugin { blocked_types };
        proof {
            assert(r.blocked() =~= self.blocked().insert(resource_type@));
        }
        r
    }

    /// The plugin's name.
    pub fn name(&self) -> (r: &'static str)
        ensures
            r@ == "block-resources"@,
    {
        "block-resources"
    }

    /// The plugin's priority.
    pub fn priority(&self) -> (r: i32)
        ensures
            r == 10,
    {
        10
    }

    /// Fail a request whose resource type is blocked; let any other through.
    pub fn request_decision(&self, request: &InterceptedRequest) -> (r: RequestDecision)
        ensures
            r == match request.resource_type {
                Some(t) => if self.blocked().contains(t@) {
                    RequestDecision::Abort
                } else {
                    RequestDecision::Continue
                },
                None => RequestDecision::Continue,
            },
    {
        match &request.resource_type {
            Some(t) => if lists(&self.blocked_types, t.as_str()) {
                RequestDecision::Abort
            } else {
                RequestDecision::Continue
            },
            None => RequestDecision::Continue,
        }
    }
}

} // verus!
