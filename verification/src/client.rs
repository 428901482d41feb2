//! Client configuration: resolving what a client is built with into the
//! base URL, API key and user agent it sends, and the headers of a request.

use vstd::prelude::*;
use crate::errors::Error;
use crate::text::{
    append_url_pairs, check_url, is_char, parsed_url_path, set_url_path, strip_end, trim_end_char,
    url_parse_error, url_path, url_with_pairs, url_with_path,
};
use crate::transport::{join_path, joined_path};
use crate::transport::{pairs_view, Request};

verus! {

/// What a client sends with every request.
#[derive(Debug, Clone)]
pub struct ClientConfig {
    /// Sent as `X-API-Key` when not empty.
    pub api_key: String,
    /// The API base URL, without trailing `/`.
    pub base_url: String,
    /// Sent as `User-Agent` when not empty.
    pub user_agent: String,
}

/// The base URL a client uses: the given one, or the default, without
/// trailing slashes.
pub open spec fn resolved_base_url(base_url: Option<String>) -> Seq<char> {
    strip_end(
        match base_url {
            Some(u) => u@,
            None => crate::DEFAULT_BASE_URL@,
        },
        is_char('/'),
    )
}

/// Resolves the builder's settings: the API key defaults to empty, the user
/// agent to [`crate::USER_AGENT`], the base URL to
/// [`crate::DEFAULT_BASE_URL`] (trailing `/` removed). Fails with
/// [`Error::Url`] exactly when the base URL does not parse.
pub fn resolve_config(
    api_key: Option<String>,
    base_url: Option<String>,
    user_agent: Option<String>,
) -> (r: Result<ClientConfig, Error>)
    ensures
        match url_parse_error(resolved_base_url(base_url)) {
            None => r matches Ok(c) && c.base_url@ == resolved_base_url(base_url) && c.api_key@
                == (match api_key {
                Some(k) => k@,
                None => Seq::<char>::empty(),
            }) && c.user_agent@ == (match user_agent {
                Some(u) => u@,
                None => crate::USER_AGENT@,
            }),
            Some(m) => r matches Err(Error::Url(e)) && e@ == m,
        },
{
    let raw = match base_url {
        Some(u) => u,
        None => crate::DEFAULT_BASE_URL.to_string(),
    };
    let trimmed = trim_end_char(raw.as_str(), '/');
    match check_url(trimmed.as_str()) {
        Err(m) => Err(Error::Url(m)),
        Ok(()) => Ok(
            ClientConfig {
                api_key: match api_key {
                    Some(k) => k,
                    None => String::new(),
                },
                base_url: trimmed,
                user_agent: match user_agent {
                    Some(u) => u,
                    None => crate::USER_AGENT.to_string(),
                },
            },
        ),
    }
}

/// The headers sent with a request, in the order they are set (a later
/// header replaces an earlier one of the same name): `user-agent` and
/// `x-api-key` when not empty, `content-type: application/json` when there
/// is a body, `accept: text/event-stream` when streamed, then the request's
/// own headers.
pub open spec fn request_headers(
    api_key: Seq<char>,
    user_agent: Seq<char>,
    has_body: bool,
    stream: bool,
    own: Seq<(Seq<char>, Seq<char>)>,
) -> Seq<(Seq<char>, Seq<char>)> {
    let h = if user_agent.len() > 0 {
        seq![("user-agent"@, user_agent)]
    } else {
        seq![]
    };
    let h = if api_key.len() > 0 {
        h.push(("x-api-key"@, api_key))
    } else {
        h
    };
    let h = if has_body {
        h.push(("content-type"@, "application/json"@))
    } else {
        h
    };
    let h = if stream {
        h.push(("accept"@, "text/event-stream"@))
    } else {
        h
    };
    h + own
}

/// The headers to send for `req` under `config`.
pub fn headers_for(config: &ClientConfig, req: &Request) -> (r: Vec<(String, String)>)
    ensures
        pairs_view(r@) == request_headers(
            config.api_key@,
            config.user_agent@,
            req.body is Some,
            req.stream,
            pairs_view(req.headers@),
        ),
{
    let mut h: Vec<(String, String)> = Vec::new();
    let ghost h0 = pairs_view(h@);
    assert(h0 =~= Seq::<(Seq<char>, Seq<char>)>::empty());
    if !config.user_agent.as_str().is_empty() {
        crate::transport::push_query(&mut h, "user-agent", config.user_agent.clone());
    }
    if !config.api_key.as_str().is_empty() {
        crate::transport::push_query(&mut h, "x-api-key", config.api_key.clone());
    }
    if req.body.is_some() {
        crate::transport::push_query(&mut h, "content-type", "application/json".to_string());
    }
    if req.stream {
        crate::transport::push_query(&mut h, "accept", "text/event-stream".to_string());
    }
    let ghost mid = pairs_view(h@);
    let n = req.headers.len();
    let mut i: usize = 0;
    while i < n
        invariant
            0 <= i <= n,
            n == req.headers@.len(),
            pairs_view(h@) == mid + pairs_view(req.headers@.subrange(0, i as int)),
        decreases n - i,
    {
        let ghost before = pairs_view(h@);
        crate::transport::push_query(&mut h, req.headers[i].0.as_str(), req.headers[i].1.clone());
        assert(pairs_view(h@) =~= mid + pairs_view(req.headers@.subrange(0, i as int + 1)));
        i = i + 1;
    }
    assert(req.headers@.subrange(0, n as int) =~= req.headers@);
    h
}

/// The URL a request is sent to: the base URL with its path joined to the
/// request path (see [`joined_path`]), and the query pairs appended in order
/// when there are any; the parse error's text when the base URL (or the URL
/// with its new path) does not parse.
pub open spec fn built_url(
    base_url: Seq<char>,
    path: Seq<char>,
    query: Seq<(Seq<char>, Seq<char>)>,
) -> Result<Seq<char>, Seq<char>> {
    match url_parse_error(base_url) {
        Some(m) => Err(m),
        None => {
            let with_path = url_with_path(base_url, joined_path(url_path(base_url), path));
            if query.len() == 0 {
                Ok(with_path)
            } else {
                match url_parse_error(with_path) {
                    Some(m) => Err(m),
                    None => Ok(url_with_pairs(with_path, query)),
                }
            }
        },
    }
}

/// The URL to send `path` and `query` to under the base URL, or
/// [`Error::Url`] when a URL does not parse.
pub fn request_url(base_url: &str, path: &str, query: &Vec<(String, String)>) -> (r: Result<
    String,
    Error,
>)
    ensures
        match built_url(base_url@, path@, pairs_view(query@)) {
            Ok(u) => r matches Ok(s) && s@ == u,
            Err(m) => r matches Err(Error::Url(e)) && e@ == m,
        },
{
    let base_path = match parsed_url_path(base_url) {
        Ok(p) => p,
        Err(m) => return Err(Error::Url(m)),
    };
    let new_path = join_path(base_path.as_str(), path);
    let with_path = match set_url_path(base_url, new_path.as_str()) {
        Ok(u) => u,
        Err(m) => return Err(Error::Url(m)),
    };
    if query.len() == 0 {
        return Ok(with_path);
    }
    match append_url_pairs(with_path.as_str(), query) {
        Ok(u) => Ok(u),
        Err(m) => Err(Error::Url(m)),
    }
}

} // verus!
