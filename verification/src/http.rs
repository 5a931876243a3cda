//! Requests to the service and what comes back, as plain values. Sending and
//! receiving is the caller's business.

use vstd::prelude::*;
use vstd::string::*;

verus! {

/// The method of a request.
#[derive(Debug, Clone, Copy, PartialEq, Eq)]
pub enum Method {
    Get,
    Post,
}

/// One request to the service.
#[derive(Debug, Clone, PartialEq, Eq)]
pub struct Request {
    pub method: Method,
    /// The base address followed by the path.
    pub url: String,
    /// Header names with their values.
    pub headers: Vec<(String, String)>,
    /// The payload, where there is one.
    pub body: Option<String>,
}

/// The model of a `Request`.
pub struct RequestModel {
    pub method: Method,
    pub url: Seq<char>,
    pub headers: Seq<(Seq<char>, Seq<char>)>,
    pub body: Option<Seq<char>>,
}

impl DeepView for Request {
    type V = RequestModel;

    open spec fn deep_view(&self) -> RequestModel {
        RequestModel {
            method: self.method,
            url: self.url@,
            headers: self.headers.deep_view(),
            body: self.body.deep_view(),
        }
    }
}

/// What came of the last thing a session asked for.
#[derive(Debug, Clone, PartialEq, Eq)]
pub enum Event {
    /// The request could not be completed, or the body could not be read; the
    /// transport's words for it.
    Failed(String),
    /// The service answered: the status code, and the status as the
    /// transport shows it.
    Answered { code: u16, status: String },
    /// The body of the answer was read.
    Body(String),
}

/// The model of an `Event`.
pub enum EventModel {
    Failed(Seq<char>),
    Answered { code: u16, status: Seq<char> },
    Body(Seq<char>),
}

impl DeepView for Event {
    type V = EventModel;

    open spec fn deep_view(&self) -> EventModel {
        match self {
            Event::Failed(error) => EventModel::Failed(error@),
            Event::Answered { code, status } => EventModel::Answered {
                code: *code,
                status: status@,
            },
            Event::Body(text) => EventModel::Body(text@),
        }
    }
}

/// The status codes that stand for success: 200 to 299.
pub open spec fn succeeded(code: u16) -> bool {
    200 <= code < 300
}

/// A `GET` of `url`, without headers or payload.
pub open spec fn get_of(url: Seq<char>) -> RequestModel {
    RequestModel { method: Method::Get, url, headers: Seq::empty(), body: None }
}

/// A `POST` to `url` with one header.
pub open spec fn post_of(
    url: Seq<char>,
    header: Seq<char>,
    value: Seq<char>,
    body: Option<Seq<char>>,
) -> RequestModel {
    RequestModel { method: Method::Post, url, headers: seq![(header, value)], body }
}

/// Whether a status code stands for success.
pub fn is_success(code: u16) -> (r: bool)
    ensures
        r == succeeded(code),
{
    200 <= code && code < 300
}

impl Request {
    /// A `GET` of `url`, without headers or payload.
    pub fn get(url: String) -> (request: Request)
        ensures
            request.deep_view() == get_of(url@),
    {
        let request = Request { method: Method::Get, url, headers: Vec::new(), body: None };
        assert(request.deep_view().headers =~= Seq::empty());
        request
    }

    /// A `POST` to `url` with one header.
    pub fn post(url: String, header: &str, value: &str, body: Option<String>) -> (request: Request)
        ensures
            request.deep_view() == post_of(url@, header@, value@, body.deep_view()),
    {
        let mut headers: Vec<(String, String)> = Vec::new();
        headers.push((header.to_owned(), value.to_owned()));
        let request = Request { method: Method::Post, url, headers, body };
        assert(request.deep_view().headers =~= seq![(header@, value@)]);
        request
    }
}

} // verus!
