//! One function per endpoint: from what the repository answered to the
//! response that goes out. The two fixed error answers stand here too.
//!
//! A lookup by id is the only place where a missing row shows as 404. Every
//! other failure, a missing row under an update included, is a 500 that
//! carries the driver's text. A removal answers 204 whatever the number of
//! rows it removed, so removing twice answers 204 twice.

use vstd::prelude::*;
use crate::models::{Rustacean, RustaceanView};
use crate::response::{
    no_content_response, record_response, records_response, text_response, Body, Response,
    ResponseView, Status,
};
use crate::storage::{
    count_result, record_result, records_result, Outcome, OutcomeView, StorageError,
    StorageErrorView,
};

verus! {

/// The greeting.
pub open spec fn hello_response() -> ResponseView {
    text_response(Status::Success, "Hello, world!"@)
}

/// The answer to a request that no route matches.
pub open spec fn not_found_response() -> ResponseView {
    text_response(Status::NotFound, "Not found!"@)
}

/// The answer to a request that did not authenticate.
pub open spec fn not_auth_response() -> ResponseView {
    text_response(Status::Unauthorized, "Not auth!"@)
}

/// The answer to a failure that is the service's own: a 500 with the driver's
/// text.
pub open spec fn failure_response(error: StorageErrorView) -> ResponseView {
    text_response(Status::InternalServerError, error.message())
}

/// The answer to a failed lookup by id: a 404 where no row matched, else a
/// 500; the driver's text either way.
pub open spec fn lookup_failure_response(error: StorageErrorView) -> ResponseView {
    match error {
        StorageErrorView::NotFound { message } => text_response(Status::NotFound, message),
        StorageErrorView::Other { message } => text_response(Status::InternalServerError, message),
    }
}

/// The answer to a listing.
pub open spec fn listing_response(
    result: Result<Seq<RustaceanView>, StorageErrorView>,
) -> ResponseView {
    match result {
        Ok(records) => records_response(records),
        Err(error) => failure_response(error),
    }
}

/// The answer to a lookup by id.
pub open spec fn lookup_response(result: Result<RustaceanView, StorageErrorView>) -> ResponseView {
    match result {
        Ok(record) => record_response(record),
        Err(error) => lookup_failure_response(error),
    }
}

/// The answer to a creation or an update.
pub open spec fn write_response(result: Result<RustaceanView, StorageErrorView>) -> ResponseView {
    match result {
        Ok(record) => record_response(record),
        Err(error) => failure_response(error),
    }
}

/// The answer to a removal.
pub open spec fn removal_response(result: Result<nat, StorageErrorView>) -> ResponseView {
    match result {
        Ok(_) => no_content_response(),
        Err(error) => failure_response(error),
    }
}

/// The answer to any outcome.
pub open spec fn outcome_response(outcome: OutcomeView) -> ResponseView {
    match outcome {
        OutcomeView::Listed(result) => listing_response(result),
        OutcomeView::Found(result) => lookup_response(result),
        OutcomeView::Created(result) => write_response(result),
        OutcomeView::Saved(result) => write_response(result),
        OutcomeView::Deleted(result) => removal_response(result),
    }
}

/// `GET /`: the greeting.
pub fn hello() -> (response: Response)
    ensures
        response@ == hello_response(),
{
    Response::text(Status::Success, "Hello, world!".to_owned())
}

/// The answer where no route matches.
pub fn not_found() -> (response: Response)
    ensures
        response@ == not_found_response(),
{
    Response::text(Status::NotFound, "Not found!".to_owned())
}

/// The answer where authentication fails.
pub fn not_auth() -> (response: Response)
    ensures
        response@ == not_auth_response(),
{
    Response::text(Status::Unauthorized, "Not auth!".to_owned())
}

/// The 500 that carries the driver's text.
fn failure(error: StorageError) -> (response: Response)
    ensures
        response@ == failure_response(error@),
{
    Response::text(Status::InternalServerError, error.into_message())
}

/// `GET /rustaceans`: the records as storage returned them.
pub fn get_rustaceans(result: Result<Vec<Rustacean>, StorageError>) -> (response: Response)
    ensures
        response@ == listing_response(records_result(result)),
{
    match result {
        Ok(rustaceans) => Response { status: Status::Success, body: Body::Records(rustaceans) },
        Err(error) => failure(error),
    }
}

/// `GET /rustaceans/<id>`: the record, or 404 where storage found none.
pub fn view_rustacean(result: Result<Rustacean, StorageError>) -> (response: Response)
    ensures
        response@ == lookup_response(record_result(result)),
{
    match result {
        Ok(rustacean) => Response { status: Status::Success, body: Body::Record(rustacean) },
        Err(StorageError::NotFound { message }) => Response::text(Status::NotFound, message),
        Err(StorageError::Other { message }) => Response::text(
            Status::InternalServerError,
            message,
        ),
    }
}

/// `POST /rustaceans`: the record as storage populated it.
pub fn create_rustacean(result: Result<Rustacean, StorageError>) -> (response: Response)
    ensures
        response@ == write_response(record_result(result)),
{
    match result {
        Ok(rustacean) => Response { status: Status::Success, body: Body::Record(rustacean) },
        Err(error) => failure(error),
    }
}

/// `PUT /rustaceans/<id>`: the record as it stands after the update.
pub fn update_rustacean(result: Result<Rustacean, StorageError>) -> (response: Response)
    ensures
        response@ == write_response(record_result(result)),
{
    match result {
        Ok(rustacean) => Response { status: Status::Success, body: Body::Record(rustacean) },
        Err(error) => failure(error),
    }
}

/// `DELETE /rustaceans/<id>`: no content, however many rows went.
pub fn delete_rustaceans(result: Result<usize, StorageError>) -> (response: Response)
    ensures
        response@ == removal_response(count_result(result)),
{
    match result {
        Ok(_) => Response { status: Status::NoContent, body: Body::Empty },
        Err(error) => failure(error),
    }
}

/// Answers whatever the repository returned, by the endpoint's own handler.
pub fn finish(outcome: Outcome) -> (response: Response)
    ensures
        response@ == outcome_response(outcome@),
{
    match outcome {
        Outcome::Listed(result) => get_rustaceans(result),
        Outcome::Found(result) => view_rustacean(result),
        Outcome::Created(result) => create_rustacean(result),
        Outcome::Saved(result) => update_rustacean(result),
        Outcome::Deleted(result) => delete_rustaceans(result),
    }
}

} // verus!
