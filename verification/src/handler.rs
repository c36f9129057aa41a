//! The nearby-restaurants request handler, as the decisions it takes
//! between its I/O steps. The surrounding program reads the configuration,
//! the inbound body, the upstream response and the database outcome, and
//! hands each to the function here that decides what happens next:
//! `nearby_request_plan` turns the configured key and the decoded body
//! into the upstream URL, or into the first failure; `classify_upstream`
//! turns the upstream call's outcome into the parsed response, or into
//! the matching failure; `plan_persistence` turns the response into the
//! one statement to execute, or into nothing when there is nothing to
//! insert; `classify_persistence` judges the database outcome; and
//! `response_plan` turns the response into the HTTP reply.

use vstd::prelude::*;
use crate::json::{emit_search_response, search_response_json};
use crate::model::{NearbySearchRequest, SearchResponse};
use crate::sql::{build_insert, insert_statement};
use crate::url::{build_query_url, query_url};

verus! {

/// What can abort a request, one variant per step that can fail.
#[derive(Clone, Copy, PartialEq, Eq, Structural, Debug)]
pub enum HandlerError {
    /// The API key is missing from the process configuration.
    Configuration,
    /// The inbound body is not valid JSON of the expected shape.
    MalformedRequest,
    /// The upstream call failed or returned an unreadable body.
    UpstreamRequest,
    /// The upstream body does not match the expected JSON shape.
    UpstreamDecode,
    /// The database refused the insert statement.
    Persistence,
}

/// What came back from the upstream call, as the handler sees it.
pub enum UpstreamOutcome {
    /// The body parsed as the expected shape.
    Response(SearchResponse),
    /// The network call failed or its body could not be read.
    RequestFailed,
    /// The body was read but did not match the expected shape.
    DecodeFailed,
}

/// The handler's work up to the outbound call: a missing API key aborts
/// first, a body that did not decode aborts next, and otherwise the
/// upstream URL is built with the caller's coordinate passed through
/// exactly. No URL — so no upstream call — exists on any failure.
pub fn nearby_request_plan(api_key: Option<&str>, decoded: Option<&NearbySearchRequest>) -> (r:
    Result<String, HandlerError>)
    ensures
        api_key is None ==> (r matches Err(e) && e == HandlerError::Configuration),
        api_key is Some && decoded is None ==> (r matches Err(e) && e
            == HandlerError::MalformedRequest),
        api_key matches Some(k) ==> decoded matches Some(q) ==> (r matches Ok(u) && u@
            == query_url(k@, q.latitude@, q.longitude@)),
{
    match api_key {
        None => Err(HandlerError::Configuration),
        Some(k) => match decoded {
            None => Err(HandlerError::MalformedRequest),
            Some(q) => Ok(build_query_url(k, q.latitude.as_str(), q.longitude.as_str())),
        },
    }
}

/// The handler's view of the upstream call: a parsed response passes
/// through unchanged, each failure becomes its error.
pub fn classify_upstream(outcome: UpstreamOutcome) -> (r: Result<SearchResponse, HandlerError>)
    ensures
        outcome matches UpstreamOutcome::Response(resp) ==> (r matches Ok(x) && x == resp),
        outcome is RequestFailed ==> (r matches Err(e) && e == HandlerError::UpstreamRequest),
        outcome is DecodeFailed ==> (r matches Err(e) && e == HandlerError::UpstreamDecode),
{
    match outcome {
        UpstreamOutcome::Response(resp) => Ok(resp),
        UpstreamOutcome::RequestFailed => Err(HandlerError::UpstreamRequest),
        UpstreamOutcome::DecodeFailed => Err(HandlerError::UpstreamDecode),
    }
}

/// The one statement to execute for the response's listings, or nothing —
/// and then no database call is made — when the response holds zero
/// listings.
pub fn plan_persistence(resp: &SearchResponse) -> (r: Option<String>)
    requires
        resp.valid(),
    ensures
        r is None <==> resp.results@.len() == 0,
        r matches Some(stmt) ==> stmt@ == insert_statement(resp.results@),
{
    build_insert(&resp.results)
}

/// The verdict on the database call: a failure aborts the request with
/// the persistence error, success changes nothing.
pub fn classify_persistence(executed: bool) -> (r: Result<(), HandlerError>)
    ensures
        executed ==> r is Ok,
        !executed ==> (r matches Err(e) && e == HandlerError::Persistence),
{
    if executed {
        Ok(())
    } else {
        Err(HandlerError::Persistence)
    }
}

/// The reply to the original caller — status 200, content type
/// `application/json`, and the upstream response serialized back as the
/// body, unmodified by whatever persistence did.
pub fn response_plan(resp: &SearchResponse) -> (r: (u16, String, String))
    ensures
        r.0 == 200,
        r.1@ == "application/json"@,
        r.2@ == search_response_json(*resp),
{
    let body = emit_search_response(resp);
    (200, String::from_str("application/json"), body)
}

} // verus!
