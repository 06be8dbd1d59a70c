//! The request and response model: methods, headers, and the fixed HTML
//! bodies the service sends.

use vstd::prelude::*;

verus! {

/// An HTTP method.
#[derive(Clone, Copy, PartialEq, Eq, Structural, Debug)]
pub enum Method {
    Get,
    Post,
    Put,
    Delete,
    Head,
    Options,
}

impl Method {
    /// The method's name as it appears on the wire and in log lines.
    pub open spec fn spec_name(self) -> Seq<char> {
        match self {
            Method::Get => "GET"@,
            Method::Post => "POST"@,
            Method::Put => "PUT"@,
            Method::Delete => "DELETE"@,
            Method::Head => "HEAD"@,
            Method::Options => "OPTIONS"@,
        }
    }

    /// The method's name, e.g. `GET`.
    pub fn name(&self) -> (r: &'static str)
        ensures
            r@ == self.spec_name(),
    {
        match self {
            Method::Get => "GET",
            Method::Post => "POST",
            Method::Put => "PUT",
            Method::Delete => "DELETE",
            Method::Head => "HEAD",
            Method::Options => "OPTIONS",
        }
    }
}

/// An inbound request: a method and a path. Immutable once constructed and
/// owned by the call stack of the one request it describes.
pub struct Request {
    pub method: Method,
    pub path: String,
}

/// One response header.
pub struct Header {
    pub name: String,
    pub value: String,
}

/// A response: a status code, headers, and a body. Constructed once and
/// consumed once by the runtime when writing to the client.
///
/// Header names are stored lowercase, so a spec-level lookup by the
/// lowercase name stands for the case-insensitive lookup the wire format
/// asks for.
pub struct Response {
    pub status: u16,
    pub headers: Vec<Header>,
    pub body: String,
}

impl Response {
    /// A well-formed response carries a status code from the defined range.
    pub open spec fn wf(self) -> bool {
        100 <= self.status < 600
    }

    /// The response declares an HTML body.
    pub open spec fn is_html(self) -> bool {
        exists|i: int|
            0 <= i < self.headers@.len() && #[trigger] self.headers@[i].name@ == "content-type"@
                && self.headers@[i].value@ == "text/html"@
    }
}

/// Builds a response with the given status, the given body, and a
/// `content-type: text/html` header.
pub fn html_response(status: u16, body: String) -> (r: Response)
    requires
        100 <= status < 600,
    ensures
        r.status == status,
        r.body@ == body@,
        r.wf(),
        r.is_html(),
{
    let mut headers: Vec<Header> = Vec::new();
    headers.push(
        Header { name: String::from_str("content-type"), value: String::from_str("text/html") },
    );
    let r = Response { status, headers, body };
    assert(r.headers@[0].name@ == "content-type"@ && r.headers@[0].value@ == "text/html"@);
    r
}

/// The fixed body of the root route's reply.
pub open spec fn hello_body() -> Seq<char> {
    "<h1>Hello, World!</h1>"@
}

/// The fixed body of a delay reply that beat the deadline.
pub open spec fn made_it_body() -> Seq<char> {
    "<h1>Made it!</h1>"@
}

/// The fixed body of a reply to a request that hit the deadline.
pub open spec fn timeout_body() -> Seq<char> {
    "<h1>Request took too long</h1>"@
}

} // verus!
