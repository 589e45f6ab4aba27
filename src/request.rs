//! Outbound HTTP requests, as plain values that a transport performs.

use vstd::prelude::*;

verus! {

/// The HTTP method of a request.
#[derive(Debug, Clone, Copy, PartialEq, Eq, Structural)]
pub enum Method {
    Get,
    Post,
}

/// How a request authenticates.
#[derive(Debug)]
pub enum Auth {
    /// No credential.
    Anonymous,
    /// An `Authorization` header carrying this value verbatim.
    Authorization(String),
    /// Bearer authentication with this token.
    Bearer(String),
}

/// The JSON body that inserts tracks into a playlist at a position.
#[derive(Debug)]
pub struct AddTracks {
    pub uris: Vec<String>,
    pub position: i32,
}

/// The body of a request.
#[derive(Debug)]
pub enum Body {
    Empty,
    /// Form-encoded name/value pairs.
    Form(Vec<(String, String)>),
    /// A JSON document, sent with `Content-Type: application/json`.
    Json(AddTracks),
}

/// One request: method, address, query parameters, credential and body.
#[derive(Debug)]
pub struct HttpRequest {
    pub method: Method,
    pub url: String,
    pub query: Vec<(String, String)>,
    pub auth: Auth,
    pub body: Body,
}

/// The characters of each name/value pair.
pub open spec fn pairs_view(v: Seq<(String, String)>) -> Seq<(Seq<char>, Seq<char>)> {
    v.map_values(|p: (String, String)| (p.0@, p.1@))
}

/// A name/value pair from two strings.
pub fn pair(name: &str, value: &str) -> (r: (String, String))
    ensures
        r.0@ == name@,
        r.1@ == value@,
{
    (String::from_str(name), String::from_str(value))
}

} // verus!
