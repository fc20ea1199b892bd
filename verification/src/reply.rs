//! Responses, as the library hands them to the transport.
use vstd::prelude::*;

verus! {

/// A response: a status code, header lines in order, and a textual body.
#[derive(Debug)]
pub struct Response {
    /// The status code.
    pub status: u16,
    /// Header names with their values, in the order they were set.
    pub headers: Vec<(String, String)>,
    /// The body.
    pub body: String,
}

/// What a [`Response`] holds, as mathematical values.
pub struct ResponseView {
    pub status: u16,
    pub headers: Seq<(Seq<char>, Seq<char>)>,
    pub body: Seq<char>,
}

impl View for Response {
    type V = ResponseView;

    open spec fn view(&self) -> ResponseView {
        ResponseView {
            status: self.status,
            headers: Seq::new(
                self.headers@.len(),
                |i: int| (self.headers@[i].0@, self.headers@[i].1@),
            ),
            body: self.body@,
        }
    }
}

/// The name of the header that tells the body's media type.
pub open spec fn content_type_name() -> Seq<char> {
    "content-type"@
}

/// The media type of plain text bodies.
pub open spec fn plain_text() -> Seq<char> {
    "text/plain; charset=utf-8"@
}

/// A response without headers and without a body.
pub open spec fn spec_empty(status: u16) -> ResponseView {
    ResponseView { status, headers: Seq::empty(), body: Seq::empty() }
}

/// A response without headers whose body is `body`.
pub open spec fn spec_bare(status: u16, body: Seq<char>) -> ResponseView {
    ResponseView { status, headers: Seq::empty(), body }
}

/// A response whose body is `body`, marked as plain text.
pub open spec fn spec_text(status: u16, body: Seq<char>) -> ResponseView {
    ResponseView { status, headers: seq![(content_type_name(), plain_text())], body }
}

impl Response {
    /// A response without headers and without a body.
    pub fn empty(status: u16) -> (res: Response)
        ensures
            res@ == spec_empty(status),
    {
        let res = Response { status, headers: Vec::new(), body: String::new() };
        assert(res@.headers =~= Seq::empty());
        res
    }

    /// A response without headers whose body is `body`.
    pub fn bare(status: u16, body: String) -> (res: Response)
        ensures
            res@ == spec_bare(status, body@),
    {
        let res = Response { status, headers: Vec::new(), body };
        assert(res@.headers =~= Seq::empty());
        res
    }

    /// A response whose body is `body`, marked as plain text.
    pub fn text(status: u16, body: String) -> (res: Response)
        ensures
            res@ == spec_text(status, body@),
    {
        let mut headers: Vec<(String, String)> = Vec::new();
        headers.push(
            (String::from_str("content-type"), String::from_str("text/plain; charset=utf-8")),
        );
        let res = Response { status, headers, body };
        assert(res@.headers =~= seq![(content_type_name(), plain_text())]);
        res
    }
}

/// The reply that says no more than that all went well: an empty
/// `200 OK`.
pub fn reply() -> (res: Response)
    ensures
        res@ == spec_empty(200),
{
    Response::empty(200)
}

/// What can be sent back as a response.
pub trait Reply: Sized {
    /// The response that this is sent back as.
    spec fn spec_into_response(self) -> Response;

    /// Turns this into the response.
    fn into_response(self) -> (res: Response)
        ensures
            res == self.spec_into_response(),
    ;
}

impl Reply for Response {
    open spec fn spec_into_response(self) -> Response {
        self
    }

    fn into_response(self) -> (res: Response) {
        self
    }
}

impl<T: Reply> Reply for (T,) {
    open spec fn spec_into_response(self) -> Response {
        self.0.spec_into_response()
    }

    fn into_response(self) -> (res: Response) {
        self.0.into_response()
    }
}

} // verus!
