//! Responses as plain values: a status, headers in order, and a body.

use vstd::prelude::*;
use vstd::string::StringExecFns;

verus! {

/// The statuses this service answers with.
#[derive(Clone, Copy, Debug, PartialEq, Eq, Structural)]
pub enum Status {
    Okay,
    Created,
    NoContent,
    MovedPermanently,
    NotFound,
    InternalServerError,
}

impl Status {
    /// The status code on the wire.
    pub open spec fn spec_code(self) -> u16 {
        match self {
            Status::Okay => 200,
            Status::Created => 201,
            Status::NoContent => 204,
            Status::MovedPermanently => 301,
            Status::NotFound => 404,
            Status::InternalServerError => 500,
        }
    }

    /// The status code on the wire.
    #[verifier::when_used_as_spec(spec_code)]
    pub fn code(self) -> (r: u16)
        ensures
            r == self.spec_code(),
    {
        match self {
            Status::Okay => 200,
            Status::Created => 201,
            Status::NoContent => 204,
            Status::MovedPermanently => 301,
            Status::NotFound => 404,
            Status::InternalServerError => 500,
        }
    }
}

/// One header line.
#[derive(Clone, Debug, PartialEq, Eq)]
pub struct Header {
    pub name: String,
    pub value: String,
}

/// The mathematical value of a [`Header`].
#[verifier::ext_equal]
pub struct HeaderView {
    pub name: Seq<char>,
    pub value: Seq<char>,
}

impl View for Header {
    type V = HeaderView;

    open spec fn view(&self) -> HeaderView {
        HeaderView { name: self.name@, value: self.value@ }
    }
}

/// A body: text, or the bytes of a file.
#[derive(Clone, Debug, PartialEq, Eq)]
pub enum Body {
    Text(String),
    Bytes(Vec<u8>),
}

/// The mathematical value of a [`Body`].
#[verifier::ext_equal]
pub enum BodyView {
    Text(Seq<char>),
    Bytes(Seq<u8>),
}

impl View for Body {
    type V = BodyView;

    open spec fn view(&self) -> BodyView {
        match self {
            Body::Text(text) => BodyView::Text(text@),
            Body::Bytes(bytes) => BodyView::Bytes(bytes@),
        }
    }
}

/// A response.
#[derive(Clone, Debug, PartialEq, Eq)]
pub struct Response {
    pub status: Status,
    pub headers: Vec<Header>,
    pub body: Body,
}

/// The mathematical value of a [`Response`].
#[verifier::ext_equal]
pub struct ResponseView {
    pub status: Status,
    pub headers: Seq<HeaderView>,
    pub body: BodyView,
}

impl View for Response {
    type V = ResponseView;

    open spec fn view(&self) -> ResponseView {
        ResponseView {
            status: self.status,
            headers: self.headers@.map_values(|h: Header| h@),
            body: self.body@,
        }
    }
}

/// A response without headers whose body is `text`.
pub open spec fn plain(status: Status, text: Seq<char>) -> ResponseView {
    ResponseView { status, headers: Seq::empty(), body: BodyView::Text(text) }
}

impl Response {
    /// A response without headers whose body is `text`.
    pub fn text(status: Status, text: &str) -> (r: Response)
        ensures
            r@ == plain(status, text@),
    {
        let r = Response { status, headers: Vec::new(), body: Body::Text(String::from_str(text)) };
        assert(r@.headers =~= Seq::empty());
        r
    }
}

} // verus!
