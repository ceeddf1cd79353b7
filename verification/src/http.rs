//! The shape of one HTTP exchange: a verb, a URL path relative to the
//! configured base URL, and a request body. Endpoint operations produce a
//! value of this shape; the embedding application performs it.

use vstd::prelude::*;
use vstd::string::StringExecFns;

verus! {

/// The HTTP verbs the remote API is spoken with. `PostJson` is a POST whose
/// body is a JSON document and is sent with a JSON content type; `Post`
/// carries an opaque byte body.
#[derive(Clone, Copy, Debug, PartialEq, Eq, Structural)]
pub enum HttpMethod {
    Get,
    Put,
    Post,
    PostJson,
    Delete,
}

/// The body of a planned request: nothing, raw bytes, or a rendered JSON
/// document.
#[derive(Clone, Debug)]
pub enum RequestBody {
    Empty,
    Raw(Vec<u8>),
    Json(String),
}

/// One fully planned request against the remote API.
#[derive(Clone, Debug)]
pub struct HttpPlan {
    pub method: HttpMethod,
    pub path: String,
    pub body: RequestBody,
}

impl HttpPlan {
    /// The absolute URL this plan is sent to: the configured base URL with
    /// the plan's path appended verbatim.
    pub fn url(&self, base_url: &str) -> (r: String)
        ensures
            r@ == base_url@ + self.path@,
    {
        full_url(base_url, self.path.as_str())
    }
}

/// Concatenates a base URL and a path, exactly as the transport sends it.
pub fn full_url(base_url: &str, path: &str) -> (r: String)
    ensures
        r@ == base_url@ + path@,
{
    let mut s = base_url.to_owned();
    s.append(path);
    s
}

} // verus!
