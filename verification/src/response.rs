//! The response value handed back to the hosting pipeline: a rendered body
//! together with a header map holding exactly one `content-type` entry.

use vstd::prelude::*;
use vstd::string::StringExecFns;

verus! {

/// A rendered response: a body and a header map.
///
/// The hosting pipeline owns everything beyond this shape (status mapping of
/// failures, transport, additional headers); the rendering core only ever
/// sets the `content-type` header, exactly once.
#[derive(Debug)]
pub struct Response {
    /// The response status; rendering always produces a successful status.
    pub status: u16,
    /// The raw rendered body, exactly as the backend produced it.
    pub body: String,
    /// The header map, as name-value pairs.
    pub headers: Vec<(String, String)>,
}

/// Whether `resp` wraps the body `body` with the content-type header set to
/// `content_type`, exactly once, and nothing else.
pub open spec fn is_rendered_response(resp: Response, body: Seq<char>, content_type: Seq<char>) -> bool {
    &&& resp.status == 200
    &&& resp.body@ == body
    &&& resp.headers@.len() == 1
    &&& resp.headers@[0].0@ == "content-type"@
    &&& resp.headers@[0].1@ == content_type
}

impl Response {
    /// Wraps a rendered body, setting the `content-type` header exactly once.
    pub fn new(body: String, content_type: String) -> (r: Response)
        ensures
            is_rendered_response(r, body@, content_type@),
    {
        let mut headers: Vec<(String, String)> = Vec::new();
        headers.push((String::from_str("content-type"), content_type));
        Response { status: 200, body, headers }
    }
}

} // verus!
