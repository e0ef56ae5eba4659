use vstd::prelude::*;

use crate::text::same_text;

verus! {

/// What a request is dispatched to.
#[derive(PartialEq, Eq, Structural, Clone, Copy, Debug)]
pub enum Endpoint {
    Health,
    Stats,
    NotFound,
}

/// The route table: exact method and path, nothing else.
pub open spec fn endpoint_for(method: Seq<char>, path: Seq<char>) -> Endpoint {
    if method == "GET"@ && path == "/health"@ {
        Endpoint::Health
    } else if method == "GET"@ && path == "/api/stats"@ {
        Endpoint::Stats
    } else {
        Endpoint::NotFound
    }
}

/// The HTTP status each endpoint answers with. The stats endpoint answers
/// with success even when its query failed.
pub open spec fn status_for(e: Endpoint) -> u16 {
    match e {
        Endpoint::Health => 200,
        Endpoint::Stats => 200,
        Endpoint::NotFound => 404,
    }
}

/// Picks the endpoint for a request by exact method and path.
pub fn route(method: &str, path: &str) -> (r: Endpoint)
    ensures
        r == endpoint_for(method@, path@),
{
    if same_text(method, "GET") {
        if same_text(path, "/health") {
            Endpoint::Health
        } else if same_text(path, "/api/stats") {
            Endpoint::Stats
        } else {
            Endpoint::NotFound
        }
    } else {
        Endpoint::NotFound
    }
}

impl Endpoint {
    /// The HTTP status of the answer.
    pub fn status(&self) -> (r: u16)
        ensures
            r == status_for(*self),
    {
        match self {
            Endpoint::Health => 200,
            Endpoint::Stats => 200,
            Endpoint::NotFound => 404,
        }
    }
}

} // verus!
