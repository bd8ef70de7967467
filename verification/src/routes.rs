//! The endpoint table: which requests are guarded, and which repository
//! operation each one asks for.
//!
//! A request is served in two steps. `begin` looks at the endpoint and at the
//! `Authorization` header and either answers on the spot or names the query to
//! run. The caller runs it and hands the outcome to `handlers::finish`.

use vstd::prelude::*;
use crate::auth::{accepts, authenticate, configured, header_bytes, CredentialPair, Credentials};
use crate::handlers::{hello, hello_response, not_auth, not_auth_response};
use crate::models::{NewRustacean, NewRustaceanView, Rustacean, RustaceanView};
use crate::response::{Response, ResponseView};
use crate::storage::{Query, QueryView};

verus! {

/// How many records a listing returns at most. Clients cannot change it.
pub const LIST_LIMIT: i64 = 100;

/// A matched route, with what the route took from path and body.
#[derive(Debug, PartialEq, Eq)]
pub enum Endpoint {
    /// `GET /`
    Hello,
    /// `GET /rustaceans`
    GetRustaceans,
    /// `GET /rustaceans/<id>`
    ViewRustacean { id: i32 },
    /// `POST /rustaceans`
    CreateRustacean { new_rustacean: NewRustacean },
    /// `PUT /rustaceans/<id>`
    UpdateRustacean { id: i32, rustacean: Rustacean },
    /// `DELETE /rustaceans/<id>`
    DeleteRustaceans { id: i32 },
}

/// What an `Endpoint` holds, as mathematical values.
pub enum EndpointView {
    Hello,
    GetRustaceans,
    ViewRustacean { id: int },
    CreateRustacean { new_rustacean: NewRustaceanView },
    UpdateRustacean { id: int, rustacean: RustaceanView },
    DeleteRustaceans { id: int },
}

impl View for Endpoint {
    type V = EndpointView;

    open spec fn view(&self) -> EndpointView {
        match *self {
            Endpoint::Hello => EndpointView::Hello,
            Endpoint::GetRustaceans => EndpointView::GetRustaceans,
            Endpoint::ViewRustacean { id } => EndpointView::ViewRustacean { id: id as int },
            Endpoint::CreateRustacean { new_rustacean } => EndpointView::CreateRustacean {
                new_rustacean: new_rustacean@,
            },
            Endpoint::UpdateRustacean { id, rustacean } => EndpointView::UpdateRustacean {
                id: id as int,
                rustacean: rustacean@,
            },
            Endpoint::DeleteRustaceans { id } => EndpointView::DeleteRustaceans { id: id as int },
        }
    }
}

impl EndpointView {
    /// Whether the endpoint asks for credentials: all do but the greeting.
    pub open spec fn is_guarded(self) -> bool {
        !(self is Hello)
    }

    /// The repository operation behind the endpoint; the greeting has none.
    ///
    /// An update runs on the id of the path. Of the record in the body it
    /// takes name and email and nothing else.
    pub open spec fn query(self) -> Option<QueryView> {
        match self {
            EndpointView::Hello => None,
            EndpointView::GetRustaceans => Some(
                QueryView::FindMultiple { limit: LIST_LIMIT as int },
            ),
            EndpointView::ViewRustacean { id } => Some(QueryView::Find { id }),
            EndpointView::CreateRustacean { new_rustacean } => Some(
                QueryView::Create { new_rustacean },
            ),
            EndpointView::UpdateRustacean { id, rustacean } => Some(
                QueryView::Save { id, name: rustacean.name, email: rustacean.email },
            ),
            EndpointView::DeleteRustaceans { id } => Some(QueryView::Delete { id }),
        }
    }
}

/// The view of a query, if there is one.
pub open spec fn planned(query: Option<Query>) -> Option<QueryView> {
    match query {
        Some(q) => Some(q@),
        None => None,
    }
}

impl Endpoint {
    /// Whether the endpoint asks for credentials.
    pub fn is_guarded(&self) -> (guarded: bool)
        ensures
            guarded == self@.is_guarded(),
    {
        match self {
            Endpoint::Hello => false,
            _ => true,
        }
    }

    /// The repository operation behind the endpoint.
    pub fn query(self) -> (query: Option<Query>)
        ensures
            planned(query) == self@.query(),
    {
        match self {
            Endpoint::Hello => None,
            Endpoint::GetRustaceans => Some(Query::FindMultiple { limit: LIST_LIMIT }),
            Endpoint::ViewRustacean { id } => Some(Query::Find { id }),
            Endpoint::CreateRustacean { new_rustacean } => Some(Query::Create { new_rustacean }),
            Endpoint::UpdateRustacean { id, rustacean } => Some(
                Query::Save { id, name: rustacean.name, email: rustacean.email },
            ),
            Endpoint::DeleteRustaceans { id } => Some(Query::Delete { id }),
        }
    }
}

/// What to do with a request that has just arrived.
#[derive(Debug, PartialEq, Eq)]
pub enum Step {
    /// Answer now; the repository is not called.
    Respond(Response),
    /// Run this query, then answer its outcome.
    Run(Query),
}

/// What a `Step` holds, as mathematical values.
pub enum StepView {
    Respond(ResponseView),
    Run(QueryView),
}

impl View for Step {
    type V = StepView;

    open spec fn view(&self) -> StepView {
        match *self {
            Step::Respond(response) => StepView::Respond(response@),
            Step::Run(query) => StepView::Run(query@),
        }
    }
}

/// The first step for a request: the greeting is answered at once, a guarded
/// endpoint is refused with the fixed 401 unless the header presents the
/// configured pair, and is otherwise sent on to its query.
pub open spec fn first_step(
    endpoint: EndpointView,
    authorization: Option<Seq<u8>>,
    expected: Option<CredentialPair>,
) -> StepView {
    match endpoint.query() {
        None => StepView::Respond(hello_response()),
        Some(query) => if accepts(authorization, expected) {
            StepView::Run(query)
        } else {
            StepView::Respond(not_auth_response())
        },
    }
}

/// Decides the first step for a request to `endpoint` that carried the header
/// `authorization`, or none, while `expected` is the configured pair, or none
/// is configured.
pub fn begin(
    endpoint: Endpoint,
    authorization: Option<&str>,
    expected: Option<&Credentials>,
) -> (step: Step)
    ensures
        step@ == first_step(endpoint@, header_bytes(authorization), configured(expected)),
{
    match endpoint.query() {
        None => Step::Respond(hello()),
        Some(query) => if authenticate(authorization, expected) {
            Step::Run(query)
        } else {
            Step::Respond(not_auth())
        },
    }
}

} // verus!
