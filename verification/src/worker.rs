//! Workers: their kind, and which targets are workers of a page.
use vstd::prelude::*;

use crate::keyed::str_eq;

verus! {

/// The kind of a worker.
#[derive(Debug, Clone, Copy, PartialEq, Eq, Structural)]
pub enum WorkerType {
    WebWorker,
    ServiceWorker,
}

/// The worker kind of a target of the protocol's type `kind` opened by
/// `opener`, when it is a worker (`worker` or `service_worker`) that the
/// page `page_target_id` opened.
pub open spec fn page_worker_of(kind: Seq<char>, opener: Option<Seq<char>>, page_target_id: Seq<char>) -> Option<WorkerType> {
    if (kind == "worker"@ || kind == "service_worker"@) && opener == Some(page_target_id) {
        if kind == "service_worker"@ {
            Some(WorkerType::ServiceWorker)
        } else {
            Some(WorkerType::WebWorker)
        }
    } else {
        None
    }
}

/// The worker kind of a target, when it is a worker of the page.
pub fn page_worker_type(kind: &str, opener_id: Option<&str>, page_target_id: &str) -> (r: Option<WorkerType>)
    ensures
        r == page_worker_of(
            kind@,
            match opener_id {
                Some(o) => Some(o@),
                None => None,
            },
            page_target_id@,
        ),
{
    let is_worker = str_eq(kind, "worker") || str_eq(kind, "service_worker");
    let belongs = match opener_id {
        Some(o) => str_eq(o, page_target_id),
        None => false,
    };
    if !is_worker || !belongs {
        return None;
    }
    if str_eq(kind, "service_worker") {
        Some(WorkerType::ServiceWorker)
    } else {
        Some(WorkerType::WebWorker)
    }
}

} // verus!
