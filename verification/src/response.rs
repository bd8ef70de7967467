//! What the service answers: a status and a body, before any serialisation.

use vstd::prelude::*;
use crate::models::{views_of, Rustacean, RustaceanView};

verus! {

/// The statuses that the service answers with.
#[derive(Clone, Copy, Debug, PartialEq, Eq, Structural)]
pub enum Status {
    Success,
    NoContent,
    Unauthorized,
    NotFound,
    InternalServerError,
}

impl Status {
    /// The HTTP status code.
    pub open spec fn spec_code(self) -> int {
        match self {
            Status::Success => 200,
            Status::NoContent => 204,
            Status::Unauthorized => 401,
            Status::NotFound => 404,
            Status::InternalServerError => 500,
        }
    }

    /// The HTTP status code.
    pub fn code(self) -> (code: u16)
        ensures
            code == self.spec_code(),
    {
        match self {
            Status::Success => 200,
            Status::NoContent => 204,
            Status::Unauthorized => 401,
            Status::NotFound => 404,
            Status::InternalServerError => 500,
        }
    }
}

/// A response body. `Text`, `Record` and `Records` go out as JSON: a string,
/// an object, an array of objects. `Empty` goes out as no bytes at all.
#[derive(Clone, Debug, PartialEq, Eq)]
pub enum Body {
    Empty,
    Text(String),
    Record(Rustacean),
    Records(Vec<Rustacean>),
}

/// What a `Body` holds, as mathematical values.
pub enum BodyView {
    Empty,
    Text(Seq<char>),
    Record(RustaceanView),
    Records(Seq<RustaceanView>),
}

impl View for Body {
    type V = BodyView;

    open spec fn view(&self) -> BodyView {
        match *self {
            Body::Empty => BodyView::Empty,
            Body::Text(text) => BodyView::Text(text@),
            Body::Record(record) => BodyView::Record(record@),
            Body::Records(records) => BodyView::Records(views_of(records@)),
        }
    }
}

/// A status and a body.
#[derive(Clone, Debug, PartialEq, Eq)]
pub struct Response {
    pub status: Status,
    pub body: Body,
}

/// What a `Response` holds, as mathematical values.
pub struct ResponseView {
    pub status: Status,
    pub body: BodyView,
}

impl View for Response {
    type V = ResponseView;

    open spec fn view(&self) -> ResponseView {
        ResponseView { status: self.status, body: self.body@ }
    }
}

/// A response whose body is a text.
pub open spec fn text_response(status: Status, text: Seq<char>) -> ResponseView {
    ResponseView { status, body: BodyView::Text(text) }
}

/// The success response that carries one record.
pub open spec fn record_response(record: RustaceanView) -> ResponseView {
    ResponseView { status: Status::Success, body: BodyView::Record(record) }
}

/// The success response that carries a list of records.
pub open spec fn records_response(records: Seq<RustaceanView>) -> ResponseView {
    ResponseView { status: Status::Success, body: BodyView::Records(records) }
}

/// The success response without content.
pub open spec fn no_content_response() -> ResponseView {
    ResponseView { status: Status::NoContent, body: BodyView::Empty }
}

impl Response {
    /// A response whose body is `text`.
    pub fn text(status: Status, text: String) -> (response: Response)
        ensures
            response@ == text_response(status, text@),
    {
        Response { status, body: Body::Text(text) }
    }
}

} // verus!
