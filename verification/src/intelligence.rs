//! Intelligence (retrieval-augmented question answering): query options,
//! query and session requests, and the decoder of the streamed answer.

use vstd::prelude::*;
use crate::datasets::{bare, pagination_query, with_body, Pagination};
use crate::json::{JsonV};
use crate::transport::{cat, cat3, make_request, no_query, pairs_view, plain, Request, RequestV};
use crate::types::{
    append_message_view, ask_request_view, create_session_view, AppendMessageRequest,
    AskRequest, ConversationMessage, CreateSessionRequest,
};

verus! {

/// Default retrieval `top_k` of a query.
pub const DEFAULT_ASK_TOP_K: u32 = 5;

/// Optional knobs for an intelligence query. Every field defaults to `None`;
/// an absent `dataset_ids` scopes the query to every dataset the caller can
/// see.
#[derive(Debug, Default, Clone)]
pub struct AskOptions {
    pub dataset_ids: Option<Vec<String>>,
    pub top_k: Option<u32>,
    pub conversation_history: Option<Vec<ConversationMessage>>,
    pub include_sources: Option<bool>,
}

/// The scope ids of options, empty when unscoped.
pub open spec fn scope_ids(o: Option<Vec<String>>) -> Seq<String> {
    match o {
        Some(v) => v@,
        None => seq![],
    }
}

impl AskOptions {
    /// Add a dataset to the scope; repeating it widens the scope.
    pub fn with_dataset(self, dataset_id: String) -> (r: Self)
        ensures
            r.dataset_ids matches Some(v) && v@ == scope_ids(self.dataset_ids).push(dataset_id),
            r.top_k == self.top_k,
            r.conversation_history == self.conversation_history,
            r.include_sources == self.include_sources,
    {
        let mut o = self;
        let mut ids = match o.dataset_ids {
            Some(v) => v,
            None => Vec::new(),
        };
        ids.push(dataset_id);
        o.dataset_ids = Some(ids);
        o
    }

    /// Add several datasets to the scope.
    pub fn with_datasets(self, dataset_ids: Vec<String>) -> (r: Self)
        ensures
            r.dataset_ids matches Some(v) && v@ == scope_ids(self.dataset_ids) + dataset_ids@,
            r.top_k == self.top_k,
            r.conversation_history == self.conversation_history,
            r.include_sources == self.include_sources,
    {
        let mut o = self;
        let mut ids = match o.dataset_ids {
            Some(v) => v,
            None => Vec::new(),
        };
        let mut extra = dataset_ids;
        ids.append(&mut extra);
        o.dataset_ids = Some(ids);
        o
    }

    /// Clear the scope: query every dataset the caller can see.
    pub fn with_all_datasets(self) -> (r: Self)
        ensures
            r == (AskOptions { dataset_ids: None, ..self }),
    {
        let mut o = self;
        o.dataset_ids = None;
        o
    }

    /// Set the retrieval `top_k`.
    pub fn with_top_k(self, top_k: u32) -> (r: Self)
        ensures
            r == (AskOptions { top_k: Some(top_k), ..self }),
    {
        let mut o = self;
        o.top_k = Some(top_k);
        o
    }

    /// Toggle source citations.
    pub fn with_sources(self, enabled: bool) -> (r: Self)
        ensures
            r == (AskOptions { include_sources: Some(enabled), ..self }),
    {
        let mut o = self;
        o.include_sources = Some(enabled);
        o
    }

    /// Attach conversation history.
    pub fn with_history(self, history: Vec<ConversationMessage>) -> (r: Self)
        ensures
            r == (AskOptions { conversation_history: Some(history), ..self }),
    {
        let mut o = self;
        o.conversation_history = Some(history);
        o
    }
}

/// Options scoped to exactly one dataset.
pub fn scoped_to(dataset_id: &str, options: AskOptions) -> (r: AskOptions)
    ensures
        r.dataset_ids matches Some(v) && v@.len() == 1 && v@[0]@ == dataset_id@,
        r.top_k == options.top_k,
        r.conversation_history == options.conversation_history,
        r.include_sources == options.include_sources,
{
    let mut o = options;
    let mut ids: Vec<String> = Vec::new();
    ids.push(dataset_id.to_string());
    o.dataset_ids = Some(ids);
    o
}

/// The query body sent for a question: top_k 5 and sources included unless
/// the options say otherwise.
pub open spec fn ask_body(query: String, o: AskOptions, stream: bool) -> JsonV {
    ask_request_view(
        AskRequest {
            query,
            dataset_ids: o.dataset_ids,
            top_k: Some(
                match o.top_k {
                    Some(k) => k,
                    None => 5,
                },
            ),
            conversation_history: o.conversation_history,
            stream,
            include_sources: Some(
                match o.include_sources {
                    Some(b) => b,
                    None => true,
                },
            ),
        },
    )
}

/// `POST /intelligence/query`; `stream` asks for a server-sent-event answer
/// (both in the body and in how the response is read).
pub fn ask_request(query: String, options: AskOptions, stream: bool) -> (r: Request)
    ensures
        r@ == (RequestV {
            stream,
            ..plain("POST"@, "/intelligence/query"@, seq![], Some(ask_body(query, options, stream)))
        }),
{
    let request = AskRequest {
        query,
        dataset_ids: options.dataset_ids,
        top_k: Some(
            match options.top_k {
                Some(k) => k,
                None => DEFAULT_ASK_TOP_K,
            },
        ),
        conversation_history: options.conversation_history,
        stream,
        include_sources: Some(
            match options.include_sources {
                Some(b) => b,
                None => true,
            },
        ),
    };
    let mut r = with_body("POST", "/intelligence/query".to_string(), request.into_json());
    r.stream = stream;
    r
}

/// `POST /intelligence/sessions`.
pub fn create_session_request(request: CreateSessionRequest) -> (r: Request)
    ensures
        r@ == plain(
            "POST"@,
            "/intelligence/sessions"@,
            seq![],
            Some(create_session_view(request)),
        ),
{
    with_body("POST", "/intelligence/sessions".to_string(), request.into_json())
}

/// The query of a session or message listing: the limit only (50 unless
/// given); those endpoints take no offset.
pub open spec fn limit_query(p: Pagination) -> Seq<(Seq<char>, Seq<char>)> {
    pagination_query(
        match p.limit {
            Some(l) => l,
            None => 50,
        },
        0,
    )
}

fn limit_get(path: String, p: Pagination) -> (r: Request)
    ensures
        r@ == plain("GET"@, path@, limit_query(p), None),
{
    let (limit, _offset) = p.resolve();
    let mut q = no_query();
    crate::datasets::push_pagination(&mut q, limit, 0);
    make_request("GET", path, q, None)
}

/// `GET /intelligence/sessions`.
pub fn list_sessions_request(p: Pagination) -> (r: Request)
    ensures
        r@ == plain("GET"@, "/intelligence/sessions"@, limit_query(p), None),
{
    limit_get("/intelligence/sessions".to_string(), p)
}

/// `GET /intelligence/sessions/{id}`.
pub fn get_session_request(session_id: &str) -> (r: Request)
    ensures
        r@ == plain("GET"@, "/intelligence/sessions/"@ + session_id@, seq![], None),
{
    bare("GET", cat("/intelligence/sessions/", session_id))
}

/// `DELETE /intelligence/sessions/{id}`.
pub fn delete_session_request(session_id: &str) -> (r: Request)
    ensures
        r@ == plain("DELETE"@, "/intelligence/sessions/"@ + session_id@, seq![], None),
{
    bare("DELETE", cat("/intelligence/sessions/", session_id))
}

/// `POST /intelligence/sessions/{id}/messages`.
pub fn append_message_request(session_id: &str, request: AppendMessageRequest) -> (r: Request)
    ensures
        r@ == plain(
            "POST"@,
            "/intelligence/sessions/"@ + session_id@ + "/messages"@,
            seq![],
            Some(append_message_view(request)),
        ),
{
    with_body(
        "POST",
        cat3("/intelligence/sessions/", session_id, "/messages"),
        request.into_json(),
    )
}

/// `GET /intelligence/sessions/{id}/messages`.
pub fn list_messages_request(session_id: &str, p: Pagination) -> (r: Request)
    ensures
        r@ == plain(
            "GET"@,
            "/intelligence/sessions/"@ + session_id@ + "/messages"@,
            limit_query(p),
            None,
        ),
{
    limit_get(cat3("/intelligence/sessions/", session_id, "/messages"), p)
}

} // verus!
