//! The outbound request model and URL path joining.
//!
//! Every API operation is described by a [`Request`]: method, path, query
//! pairs, optional JSON body and whether the response is a server-sent-event
//! stream. Whatever sends it over the network adds the base URL, the API key
//! and the user agent.

use vstd::prelude::*;
use crate::json::{opt_json_view, Json, JsonV};
use crate::text::{is_char, strip_end, strip_start, trim_end_char, trim_start_char};

verus! {

/// One outbound API request.
#[derive(Debug)]
pub struct Request {
    pub method: String,
    pub path: String,
    pub query: Vec<(String, String)>,
    pub body: Option<Json>,
    pub headers: Vec<(String, String)>,
    pub stream: bool,
}

/// The mathematical value of a [`Request`].
pub struct RequestV {
    pub method: Seq<char>,
    pub path: Seq<char>,
    pub query: Seq<(Seq<char>, Seq<char>)>,
    pub body: Option<JsonV>,
    pub headers: Seq<(Seq<char>, Seq<char>)>,
    pub stream: bool,
}

pub open spec fn pairs_view(v: Seq<(String, String)>) -> Seq<(Seq<char>, Seq<char>)> {
    Seq::new(v.len(), |i: int| (v[i].0@, v[i].1@))
}

impl View for Request {
    type V = RequestV;

    open spec fn view(&self) -> RequestV {
        RequestV {
            method: self.method@,
            path: self.path@,
            query: pairs_view(self.query@),
            body: opt_json_view(self.body),
            headers: pairs_view(self.headers@),
            stream: self.stream,
        }
    }
}

/// A request with the given method, path, query and body, no extra headers,
/// not streamed.
pub open spec fn plain(
    method: Seq<char>,
    path: Seq<char>,
    query: Seq<(Seq<char>, Seq<char>)>,
    body: Option<JsonV>,
) -> RequestV {
    RequestV { method, path, query, body, headers: seq![], stream: false }
}

/// Builds a request that is not streamed and has no extra headers.
pub fn make_request(
    method: &str,
    path: String,
    query: Vec<(String, String)>,
    body: Option<Json>,
) -> (r: Request)
    ensures
        r@ == plain(method@, path@, pairs_view(query@), opt_json_view(body)),
{
    let r = Request {
        method: method.to_string(),
        path,
        query,
        body,
        headers: Vec::new(),
        stream: false,
    };
    assert(pairs_view(r.headers@) =~= Seq::<(Seq<char>, Seq<char>)>::empty());
    r
}

/// Appends a query pair.
pub fn push_query(q: &mut Vec<(String, String)>, key: &str, value: String)
    ensures
        pairs_view(final(q)@) == pairs_view(old(q)@).push((key@, value@)),
{
    let ghost before = q@;
    q.push((key.to_string(), value));
    assert(pairs_view(q@) =~= pairs_view(before).push((key@, q@.last().1@)));
}

/// An empty query.
pub fn no_query() -> (r: Vec<(String, String)>)
    ensures
        pairs_view(r@) == Seq::<(Seq<char>, Seq<char>)>::empty(),
{
    let r = Vec::new();
    assert(pairs_view(r@) =~= Seq::<(Seq<char>, Seq<char>)>::empty());
    r
}

/// `a` followed by `b`.
pub fn cat(a: &str, b: &str) -> (r: String)
    ensures
        r@ == a@ + b@,
{
    let mut s = a.to_string();
    s.append(b);
    s
}

/// `a`, `b` and `c` concatenated.
pub fn cat3(a: &str, b: &str, c: &str) -> (r: String)
    ensures
        r@ == a@ + b@ + c@,
{
    let mut s = a.to_string();
    s.append(b);
    s.append(c);
    s
}

/// The path of a request URL: the base URL's path without trailing `/`,
/// then `/`, then the request path without leading `/`.
pub open spec fn joined_path(base_path: Seq<char>, path: Seq<char>) -> Seq<char> {
    let trimmed = strip_start(path, is_char('/'));
    let base = strip_end(base_path, is_char('/'));
    if base.len() == 0 {
        seq!['/'] + trimmed
    } else {
        base + seq!['/'] + trimmed
    }
}

/// Appends a request path to the base URL's path, keeping the base path.
pub fn join_path(base_path: &str, path: &str) -> (r: String)
    ensures
        r@ == joined_path(base_path@, path@),
{
    proof {
        reveal_strlit("/");
    }
    let trimmed = trim_start_char(path, '/');
    let base = trim_end_char(base_path, '/');
    if base.as_str().is_empty() {
        cat("/", trimmed.as_str())
    } else {
        cat3(base.as_str(), "/", trimmed.as_str())
    }
}

} // verus!
