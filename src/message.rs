use vstd::prelude::*;

verus! {

/// The parts of an inbound HTTP request that routing reads.
pub struct Request {
    /// The method token, as sent (`GET`, `HEAD`, ...).
    pub method: String,
    /// The path component of the target, without the query string.
    pub path: String,
    /// The query string after `?`, if the target has one.
    pub query: Option<String>,
    /// The authority of the request target, where the transport knows it.
    pub authority: Option<String>,
    /// The header fields, in the order received, as (name, value).
    pub headers: Vec<(String, String)>,
}

/// The outcome classes a request can end in.
#[derive(Clone, Copy, Debug, PartialEq, Eq, Structural)]
pub enum Status {
    Success,
    MovedPermanently,
    BadRequest,
    NotFound,
    MethodNotAllowed,
}

/// The numeric HTTP status code of each outcome.
pub open spec fn status_code(s: Status) -> u16 {
    match s {
        Status::Success => 200,
        Status::MovedPermanently => 301,
        Status::BadRequest => 400,
        Status::NotFound => 404,
        Status::MethodNotAllowed => 405,
    }
}

impl Status {
    pub fn code(&self) -> (r: u16)
        ensures
            r == status_code(*self),
    {
        match self {
            Status::Success => 200,
            Status::MovedPermanently => 301,
            Status::BadRequest => 400,
            Status::NotFound => 404,
            Status::MethodNotAllowed => 405,
        }
    }
}

/// A complete response: status, optional `Location` header and body.
pub struct Response {
    pub status: Status,
    pub location: Option<String>,
    pub body: Vec<u8>,
}

impl View for Response {
    type V = (Status, Option<Seq<char>>, Seq<u8>);

    open spec fn view(&self) -> (Status, Option<Seq<char>>, Seq<u8>) {
        (
            self.status,
            match self.location {
                Some(l) => Some(l@),
                None => None,
            },
            self.body@,
        )
    }
}

impl Response {
    /// A response with the given status, no `Location` and an empty body.
    pub fn empty(status: Status) -> (r: Response)
        ensures
            r@ == (status, None::<Seq<char>>, Seq::<u8>::empty()),
    {
        Response { status, location: None, body: Vec::new() }
    }
}

} // verus!
