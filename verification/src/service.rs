//! The three handlers and their fixed responses.
//!
//! Every endpoint is stateless and always answers 200. The health check
//! returns a fixed text; record creation returns a fixed success envelope
//! with a constant mock identifier, whatever the record held; record lookup
//! returns a fabricated record that echoes the requested identifier.

use vstd::prelude::*;
use crate::record::{
    HealthRecord, mock_record, mock_record_model, record_json, record_json_model,
};

verus! {

/// One request, as a handler sees it: the body of a creation request already
/// parsed into a record, the identifier of a lookup already taken from the path.
pub enum Request {
    Health,
    StoreRecord(HealthRecord),
    GetRecord(String),
}

/// A response: status code and body.
pub struct Response {
    pub status: u16,
    pub body: String,
}

/// The health-check body.
pub open spec fn health_body_spec() -> Seq<char> {
    "Autonomi service is running"@
}

/// The fixed success envelope for record creation, mock identifier included.
pub open spec fn store_success_body_spec() -> Seq<char> {
    "{\"status\":\"success\",\"message\":\"Record received (not yet stored on Autonomi)\",\"data\":{\"id\":\"mock-id-12345\"}}"@
}

/// The body owed to each request.
pub open spec fn response_body_spec(req: Request) -> Seq<char> {
    match req {
        Request::Health => health_body_spec(),
        Request::StoreRecord(_) => store_success_body_spec(),
        Request::GetRecord(id) => record_json_model(mock_record_model(id@)),
    }
}

/// Returns the health-check body.
pub fn health_body() -> (r: String)
    ensures
        r@ == health_body_spec(),
{
    String::from_str("Autonomi service is running")
}

/// Returns the fixed success envelope for record creation.
pub fn store_success_body() -> (r: String)
    ensures
        r@ == store_success_body_spec(),
{
    String::from_str(
        "{\"status\":\"success\",\"message\":\"Record received (not yet stored on Autonomi)\",\"data\":{\"id\":\"mock-id-12345\"}}",
    )
}

/// Returns the lookup body for `id`: the fabricated record, as JSON, with
/// `id` echoed and every other field fixed.
pub fn get_record_body(id: &str) -> (r: String)
    ensures
        r@ == record_json_model(mock_record_model(id@)),
{
    let rec = mock_record(id.to_owned());
    record_json(&rec)
}

/// Answers one request. Every request gets status 200 and exactly the body
/// that `response_body_spec` owes it.
pub fn handle(req: &Request) -> (r: Response)
    ensures
        r.status == 200,
        r.body@ == response_body_spec(*req),
{
    match req {
        Request::Health => Response { status: 200, body: health_body() },
        Request::StoreRecord(_) => Response { status: 200, body: store_success_body() },
        Request::GetRecord(id) => Response { status: 200, body: get_record_body(id.as_str()) },
    }
}

/// Law: the creation endpoint answers with the same fixed envelope whatever
/// record was submitted.
pub proof fn lemma_store_response_uniform(r1: HealthRecord, r2: HealthRecord)
    ensures
        response_body_spec(Request::StoreRecord(r1)) == response_body_spec(
            Request::StoreRecord(r2),
        ),
{
}

/// Law: the service is stateless. In any sequence of requests, two equal
/// requests — however far apart — are owed the same body (and every request
/// the same status), so repeating a request cannot change what comes back.
pub proof fn lemma_responses_stateless(reqs: Seq<Request>, i: int, j: int)
    requires
        0 <= i < reqs.len(),
        0 <= j < reqs.len(),
        reqs[i] == reqs[j],
    ensures
        response_body_spec(reqs[i]) == response_body_spec(reqs[j]),
{
}

/// Law: the lookup's fabricated record echoes the requested identifier and
/// fixes every other field to its placeholder.
pub proof fn lemma_get_record_echoes_id(id: Seq<char>)
    ensures
        mock_record_model(id).id == Option::Some(id),
        mock_record_model(id).owner_id == "user123"@,
        mock_record_model(id).record_type == "bloodwork"@,
        mock_record_model(id).title == "Mock Record"@,
        mock_record_model(id).content == "This is a placeholder record"@,
        mock_record_model(id).date == "2025-04-15"@,
{
}

} // verus!
