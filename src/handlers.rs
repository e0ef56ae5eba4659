use vstd::prelude::*;
use vstd::string::*;

verus! {

/// The status text that a live request path reports.
pub open spec fn ok_status() -> Seq<char> {
    seq!['o', 'k']
}

/// Body of `GET /health`.
pub struct HealthResponse {
    pub status: String,
}

/// Body of `GET /api/stats`.
pub struct StatsResponse {
    pub proposition_count: i64,
}

/// The count query could not be answered (no connection, no table, a store
/// fault); the cause does not matter to the handler.
#[derive(PartialEq, Eq, Structural, Clone, Copy, Debug)]
pub struct QueryError;

/// The count that `stats` reports for the outcome of its query: the row
/// count when there is one, zero when the query failed. A negative number
/// cannot be a row count and is treated as a failure.
pub open spec fn reported_count(outcome: Result<i64, QueryError>) -> i64 {
    match outcome {
        Ok(n) => if n >= 0 { n } else { 0 },
        Err(_) => 0,
    }
}

/// `GET /health`: reports that the request path is reachable. It reads
/// nothing, so its answer does not depend on the store.
pub fn health_check() -> (r: HealthResponse)
    ensures
        r.status@ == ok_status(),
{
    let status = String::from_str("ok");
    proof {
        reveal_strlit("ok");
        assert(status@ =~= ok_status());
    }
    HealthResponse { status }
}

/// `GET /api/stats`: turns the outcome of the count query into the response.
/// A failed query is absorbed and reported as zero rows.
pub fn stats(outcome: Result<i64, QueryError>) -> (r: StatsResponse)
    ensures
        r.proposition_count == reported_count(outcome),
        r.proposition_count >= 0,
        outcome is Err ==> r.proposition_count == 0,
{
    let proposition_count = match outcome {
        Ok(n) => if n >= 0 { n } else { 0 },
        Err(_) => 0,
    };
    StatsResponse { proposition_count }
}

/// Two health answers carry the same status text: repeated calls with
/// nothing changed in between give identical bodies.
pub proof fn health_answers_agree(a: HealthResponse, b: HealthResponse)
    requires
        a.status@ == ok_status(),
        b.status@ == ok_status(),
    ensures
        a.status@ == b.status@,
{
}

} // verus!
