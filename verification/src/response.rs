//! Requests as the resolver sees them, and the responses it gives.

use crate::text::option_text;
use vstd::prelude::*;

verus! {

/// The status of a response.
#[derive(Clone, Copy, Debug, PartialEq, Eq, Structural)]
pub enum Status {
    Success,
    NoContent,
    NotModified,
    TemporaryRedirect,
    NotFound,
}

impl Status {
    /// The numeric status code.
    pub open spec fn spec_code(self) -> u16 {
        match self {
            Status::Success => 200,
            Status::NoContent => 204,
            Status::NotModified => 304,
            Status::TemporaryRedirect => 307,
            Status::NotFound => 404,
        }
    }

    /// The numeric status code.
    #[verifier::when_used_as_spec(spec_code)]
    pub fn code(self) -> (code: u16)
        ensures
            code == self.spec_code(),
    {
        match self {
            Status::Success => 200,
            Status::NoContent => 204,
            Status::NotModified => 304,
            Status::TemporaryRedirect => 307,
            Status::NotFound => 404,
        }
    }
}

/// One header line: a lower-case name and its value.
#[derive(Clone, Debug, PartialEq, Eq)]
pub struct Header {
    pub name: String,
    pub value: String,
}

impl View for Header {
    type V = (Seq<char>, Seq<char>);

    open spec fn view(&self) -> (Seq<char>, Seq<char>) {
        (self.name@, self.value@)
    }
}

impl Header {
    /// The header `name: value`.
    pub fn new(name: &str, value: &str) -> (header: Header)
        ensures
            header@ == (name@, value@),
    {
        Header { name: name.to_owned(), value: value.to_owned() }
    }
}

/// The header lines of a list, each as a pair of texts.
pub open spec fn header_views(headers: Seq<Header>) -> Seq<(Seq<char>, Seq<char>)> {
    headers.map_values(|h: Header| h@)
}

/// The value of the first header called `name`.
pub open spec fn header_value(headers: Seq<(Seq<char>, Seq<char>)>, name: Seq<char>) -> Option<
    Seq<char>,
>
    decreases headers.len(),
{
    if headers.len() == 0 {
        None
    } else if headers[0].0 == name {
        Some(headers[0].1)
    } else {
        header_value(headers.drop_first(), name)
    }
}

/// What a response is, as mathematics.
pub struct ResponseView {
    pub status: Status,
    pub headers: Seq<(Seq<char>, Seq<char>)>,
    pub body: Seq<u8>,
}

impl ResponseView {
    /// The value of the first header called `name`.
    pub open spec fn header(self, name: Seq<char>) -> Option<Seq<char>> {
        header_value(self.headers, name)
    }
}

/// A response: status, header lines in the order they were set, and body.
#[derive(Clone, Debug, PartialEq, Eq)]
pub struct Response {
    pub status: Status,
    pub headers: Vec<Header>,
    pub body: Vec<u8>,
}

impl View for Response {
    type V = ResponseView;

    open spec fn view(&self) -> ResponseView {
        ResponseView {
            status: self.status,
            headers: header_views(self.headers@),
            body: self.body@,
        }
    }
}

impl Response {
    /// The value of the first header called `name`, if the response has one.
    pub fn header(&self, name: &str) -> (value: Option<&String>)
        ensures
            match value {
                Some(v) => self@.header(name@) == Some(v@),
                None => self@.header(name@) is None,
            },
    {
        let key = name.to_owned();
        let ghost all = header_views(self.headers@);
        let mut i: usize = 0;
        assert(all.skip(0) =~= all);
        while i < self.headers.len()
            invariant
                i <= self.headers@.len(),
                key@ == name@,
                all == header_views(self.headers@),
                header_value(all, name@) == header_value(all.skip(i as int), name@),
            decreases self.headers@.len() - i,
        {
            proof {
                assert(all.skip(i as int)[0] == self.headers@[i as int]@);
                assert(all.skip(i as int).drop_first() =~= all.skip(i + 1));
            }
            if self.headers[i].name == key {
                return Some(&self.headers[i].value);
            }
            i += 1;
        }
        None
    }
}

/// The request headers that the resolver reads. A header that is absent, or whose value is not
/// text, is `None`.
#[derive(Clone, Debug, PartialEq, Eq)]
pub struct RequestHeaders {
    pub accept: Option<String>,
    pub accept_encoding: Option<String>,
    pub if_none_match: Option<String>,
}

/// What the request headers are, as mathematics.
pub struct RequestHeadersView {
    pub accept: Option<Seq<char>>,
    pub accept_encoding: Option<Seq<char>>,
    pub if_none_match: Option<Seq<char>>,
}

impl View for RequestHeaders {
    type V = RequestHeadersView;

    open spec fn view(&self) -> RequestHeadersView {
        RequestHeadersView {
            accept: option_text(self.accept),
            accept_encoding: option_text(self.accept_encoding),
            if_none_match: option_text(self.if_none_match),
        }
    }
}

impl RequestHeaders {
    /// A request without any of the headers.
    pub fn none() -> (headers: RequestHeaders)
        ensures
            headers@ == (RequestHeadersView {
                accept: None,
                accept_encoding: None,
                if_none_match: None,
            }),
    {
        RequestHeaders { accept: None, accept_encoding: None, if_none_match: None }
    }
}

} // verus!
