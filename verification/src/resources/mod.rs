//! The requests each API endpoint sends: method, URL and query parameters.
//! Bodies are JSON documents built from the input types by the caller.
use vstd::prelude::*;

pub mod leads;
pub mod notes;
pub mod scoring;
pub mod webhooks;

verus! {

/// HTTP method of a request.
#[derive(Debug, Clone, Copy, PartialEq, Eq, Structural)]
pub enum Method {
    Get,
    Post,
    Put,
    Delete,
}

/// A request to send: method, full URL and query parameters in order.
#[derive(Debug, Clone)]
pub struct ApiRequest {
    pub method: Method,
    pub url: String,
    pub query: Vec<(String, String)>,
}

/// The parts of a request: method, URL text and query pairs.
pub struct ApiRequestView {
    pub method: Method,
    pub url: Seq<char>,
    pub query: Seq<(Seq<char>, Seq<char>)>,
}

impl View for ApiRequest {
    type V = ApiRequestView;

    open spec fn view(&self) -> ApiRequestView {
        ApiRequestView { method: self.method, url: self.url@, query: self.query.deep_view() }
    }
}

/// No query parameters.
pub fn no_query() -> (q: Vec<(String, String)>)
    ensures
        q.deep_view() == Seq::<(Seq<char>, Seq<char>)>::empty(),
{
    let q: Vec<(String, String)> = Vec::new();
    assert(q.deep_view() =~= Seq::<(Seq<char>, Seq<char>)>::empty());
    q
}

/// A request without query parameters.
pub fn plain_request(method: Method, url: String) -> (r: ApiRequest)
    ensures
        r@ == (ApiRequestView { method, url: url@, query: Seq::empty() }),
{
    ApiRequest { method, url, query: no_query() }
}

/// The text `a + b + c`.
pub fn concat3(a: &str, b: &str, c: &str) -> (s: String)
    ensures
        s@ == a@ + b@ + c@,
{
    let mut s = a.to_owned();
    s.append(b);
    s.append(c);
    s
}

/// The text `a + b + c + d`.
pub fn concat4(a: &str, b: &str, c: &str, d: &str) -> (s: String)
    ensures
        s@ == a@ + b@ + c@ + d@,
{
    let mut s = a.to_owned();
    s.append(b);
    s.append(c);
    s.append(d);
    s
}

} // verus!
