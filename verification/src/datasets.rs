//! Dataset operations: pagination, dataset creation with its defaults,
//! search, vector insertion and deletion, document listing, and the
//! embed-then-insert flow of `add_texts`.
//!
//! Each operation is a function from its inputs to the [`Request`] that
//! performs it; multi-step operations also have functions that read one
//! step's response and decide the next step.

use vstd::prelude::*;
use crate::errors::Error;
use crate::json::{
    empty_members, insert_member_if_absent, members_insert_absent, members_view,
    opt_bool_view, opt_members_json, opt_members_view, opt_string_json, opt_str_view, object,
    push_member, push_opt, with_opt, Json, JsonV, Members,
};
use crate::text::{decimal, u64_to_string};
use crate::transport::{cat, cat3, make_request, no_query, pairs_view, plain, push_query, Request, RequestV};
use crate::types::{
    embedding_view, inferred_dim, opt_string_view, search_request_view, vector_view, vectors_json,
    vectors_view, vector_id_view, AddTextsResponse, CreateDatasetRequest, EmbeddingConfig,
    EmbedRequest, EmbedResponse, InsertVectorsResponse, Rerank, RerankConfig, SearchRequest,
    TextDocument, Vector, VectorId,
};

verus! {

/// Default search `top_k` applied when one is not supplied.
pub const DEFAULT_SEARCH_TOP_K: u32 = 10;

/// Default page size when pagination is left to its defaults.
pub const DEFAULT_PAGE_LIMIT: u32 = 50;

// ---------------------------------------------------------------------------
// Pagination.

/// Optional `limit` / `offset` pagination.
#[derive(Debug, Default, Clone, Copy)]
pub struct Pagination {
    pub limit: Option<u32>,
    pub offset: Option<u32>,
}

impl Pagination {
    /// Explicit limit and offset.
    pub fn new(limit: u32, offset: u32) -> (r: Self)
        ensures
            r == (Pagination { limit: Some(limit), offset: Some(offset) }),
    {
        Pagination { limit: Some(limit), offset: Some(offset) }
    }

    /// The limit and offset to send: 50 and 0 unless given.
    pub fn resolve(&self) -> (r: (u32, u32))
        ensures
            r.0 == (match self.limit {
                Some(l) => l,
                None => 50,
            }),
            r.1 == (match self.offset {
                Some(o) => o,
                None => 0,
            }),
    {
        let l = match self.limit {
            Some(l) => l,
            None => DEFAULT_PAGE_LIMIT,
        };
        let o = match self.offset {
            Some(o) => o,
            None => 0,
        };
        (l, o)
    }
}

impl vstd::std_specs::convert::FromSpecImpl<()> for Pagination {
    open spec fn obeys_from_spec() -> bool {
        true
    }

    open spec fn from_spec(v: ()) -> Self {
        Pagination { limit: None, offset: None }
    }
}

impl From<()> for Pagination {
    fn from(v: ()) -> (r: Self) {
        Pagination { limit: None, offset: None }
    }
}

impl vstd::std_specs::convert::FromSpecImpl<(u32, u32)> for Pagination {
    open spec fn obeys_from_spec() -> bool {
        true
    }

    open spec fn from_spec(v: (u32, u32)) -> Self {
        Pagination { limit: Some(v.0), offset: Some(v.1) }
    }
}

impl From<(u32, u32)> for Pagination {
    fn from(v: (u32, u32)) -> (r: Self) {
        Pagination { limit: Some(v.0), offset: Some(v.1) }
    }
}

impl vstd::std_specs::convert::FromSpecImpl<u32> for Pagination {
    open spec fn obeys_from_spec() -> bool {
        true
    }

    open spec fn from_spec(v: u32) -> Self {
        Pagination { limit: Some(v), offset: None }
    }
}

impl From<u32> for Pagination {
    fn from(v: u32) -> (r: Self) {
        Pagination { limit: Some(v), offset: None }
    }
}

/// The query pairs of a page: `limit` and `offset` in decimal, each only
/// when positive.
pub open spec fn pagination_query(limit: u32, offset: u32) -> Seq<(Seq<char>, Seq<char>)> {
    let q = if limit > 0 {
        seq![("limit"@, decimal(limit as nat))]
    } else {
        seq![]
    };
    if offset > 0 {
        q.push(("offset"@, decimal(offset as nat)))
    } else {
        q
    }
}

/// Appends the page's query pairs.
pub fn push_pagination(query: &mut Vec<(String, String)>, limit: u32, offset: u32)
    ensures
        pairs_view(final(query)@) == pairs_view(old(query)@) + pagination_query(limit, offset),
{
    let ghost before = pairs_view(query@);
    if limit > 0 {
        push_query(query, "limit", u64_to_string(limit as u64));
    }
    if offset > 0 {
        push_query(query, "offset", u64_to_string(offset as u64));
    }
    assert(pairs_view(query@) =~= before + pagination_query(limit, offset));
}

/// The query of a paginated listing with the given defaults resolved.
pub open spec fn page_query(p: Pagination) -> Seq<(Seq<char>, Seq<char>)> {
    pagination_query(
        match p.limit {
            Some(l) => l,
            None => 50,
        },
        match p.offset {
            Some(o) => o,
            None => 0,
        },
    )
}

/// A `GET` of `path` with the page's query.
pub fn paged_get(path: String, p: Pagination) -> (r: Request)
    ensures
        r@ == plain("GET"@, path@, page_query(p), None),
{
    let (l, o) = p.resolve();
    let mut q = no_query();
    push_pagination(&mut q, l, o);
    make_request("GET", path, q, None)
}

/// A request with no query and no body.
pub fn bare(method: &str, path: String) -> (r: Request)
    ensures
        r@ == plain(method@, path@, seq![], None),
{
    make_request(method, path, no_query(), None)
}

/// A request with a JSON body and no query.
pub fn with_body(method: &str, path: String, body: Json) -> (r: Request)
    ensures
        r@ == plain(method@, path@, seq![], Some(body@)),
{
    make_request(method, path, no_query(), Some(body))
}

// ---------------------------------------------------------------------------
// Dataset CRUD.

/// `GET /datasets` with pagination.
pub fn list_request(p: Pagination) -> (r: Request)
    ensures
        r@ == plain("GET"@, "/datasets"@, page_query(p), None),
{
    paged_get("/datasets".to_string(), p)
}

/// `GET /datasets/{id}`.
pub fn get_request(dataset_id: &str) -> (r: Request)
    ensures
        r@ == plain("GET"@, "/datasets/"@ + dataset_id@, seq![], None),
{
    bare("GET", cat("/datasets/", dataset_id))
}

/// `DELETE /datasets/{id}`.
pub fn delete_request(dataset_id: &str) -> (r: Request)
    ensures
        r@ == plain("DELETE"@, "/datasets/"@ + dataset_id@, seq![], None),
{
    bare("DELETE", cat("/datasets/", dataset_id))
}

/// The embedding a dataset is created with: the requested one, or the
/// VectorAmp default model.
pub open spec fn effective_embedding_view(e: Option<EmbeddingConfig>) -> JsonV {
    match e {
        Some(c) => embedding_view(c),
        None => JsonV::Object(
            seq![("provider"@, JsonV::Str("vectoramp"@))].push(
                ("model"@, JsonV::Str("VectorAmp-Embedding-4B"@)),
            ),
        ),
    }
}

/// The dimensionality a dataset is created with: the requested one, or the
/// one inferred from the effective embedding's provider and model.
pub open spec fn effective_dim(r: CreateDatasetRequest) -> Option<u32> {
    match r.dim {
        Some(d) => Some(d),
        None => match r.embedding {
            Some(c) => inferred_dim(opt_string_view(c.provider), opt_string_view(c.model)),
            None => Some(2560),
        },
    }
}

/// The JSON body of a dataset creation with dimensionality `dim`: name, dim,
/// metric (`cosine` unless given), tuning when set, the effective embedding,
/// `hybrid` only when set, metadata when set, and `index_type: "sable"`.
pub open spec fn create_body(r: CreateDatasetRequest, dim: u32) -> JsonV {
    let m = seq![("name"@, JsonV::Str(r.name@))].push(("dim"@, JsonV::Int(dim as int))).push(
        (
            "metric"@,
            JsonV::Str(
                match r.metric {
                    Some(m) => m@,
                    None => "cosine"@,
                },
            ),
        ),
    );
    let m = with_opt(m, "tuning"@, opt_members_view(r.tuning));
    let m = m.push(("embedding"@, effective_embedding_view(r.embedding)));
    let m = with_opt(m, "hybrid"@, opt_bool_view(r.hybrid));
    let m = with_opt(m, "metadata"@, opt_members_view(r.metadata));
    JsonV::Object(m.push(("index_type"@, JsonV::Str("sable"@))))
}

/// The message of the error returned when no dimensionality can be found.
pub const MISSING_DIM_MESSAGE: &'static str =
    "dim is required when the embedding model's dimensionality cannot be inferred";

/// `POST /datasets` for a SABLE dataset, with defaults filled in. Fails with
/// [`Error::InvalidInput`] (mentioning `dim`) exactly when no dimensionality
/// is given and none can be inferred from the embedding model.
pub fn create_request(req: CreateDatasetRequest) -> (r: Result<Request, Error>)
    ensures
        match effective_dim(req) {
            Some(d) => r matches Ok(q) && q@ == plain(
                "POST"@,
                "/datasets"@,
                seq![],
                Some(create_body(req, d)),
            ),
            None => r matches Err(Error::InvalidInput(m)) && m@ == MISSING_DIM_MESSAGE@,
        },
{
    let ghost r0 = req;
    let embedding = match req.embedding {
        Some(c) => c,
        None => EmbeddingConfig::vectoramp(),
    };
    let dim = match req.dim {
        Some(d) => d,
        None => {
            let p = match &embedding.provider {
                Some(p) => Some(p.as_str()),
                None => None,
            };
            let m = match &embedding.model {
                Some(m) => Some(m.as_str()),
                None => None,
            };
            match crate::types::infer_embedding_dim(p, m) {
                Some(d) => d,
                None => {
                    return Err(Error::invalid_input(MISSING_DIM_MESSAGE.to_string()));
                },
            }
        },
    };
    proof {
        reveal_strlit("VectorAmp-Embedding-4B");
        reveal_strlit("text-embedding-3-small");
        reveal_strlit("text-embedding-3-large");
    }
    assert(effective_dim(r0) == Some(dim));
    let mut m = empty_members();
    push_member(&mut m, "name", Json::Str(req.name));
    push_member(&mut m, "dim", Json::Int(dim as i128));
    let metric = match req.metric {
        Some(x) => Json::Str(x),
        None => crate::json::str_json("cosine"),
    };
    push_member(&mut m, "metric", metric);
    push_opt(&mut m, "tuning", opt_members_json(req.tuning));
    push_member(&mut m, "embedding", embedding.to_json());
    push_opt(&mut m, "hybrid", crate::json::opt_bool_json(req.hybrid));
    push_opt(&mut m, "metadata", opt_members_json(req.metadata));
    push_member(&mut m, "index_type", crate::json::str_json("sable"));
    Ok(with_body("POST", "/datasets".to_string(), object(m)))
}

/// The dataset request used by `create_with_openai_api_key`: OpenAI's
/// `text-embedding-3-small` with the stored organization key as its secret.
pub fn openai_key_dataset(name: String) -> (r: CreateDatasetRequest)
    ensures
        r.name == name,
        r.dim is None && r.metric is None && r.tuning is None && r.hybrid is None
            && r.metadata is None,
        r.embedding matches Some(e) && opt_string_view(e.provider) == Some("openai"@)
            && opt_string_view(e.model) == Some("text-embedding-3-small"@) && opt_string_view(
            e.secret_ref,
        ) == Some(crate::secrets::OPENAI_API_KEY_SECRET_REF@),
{
    let mut e = EmbeddingConfig::openai("small");
    e.secret_ref = Some(crate::secrets::OPENAI_API_KEY_SECRET_REF.to_string());
    proof {
        reveal_strlit("small");
    }
    CreateDatasetRequest {
        name,
        dim: None,
        metric: None,
        tuning: None,
        embedding: Some(e),
        hybrid: None,
        metadata: None,
    }
}

// ---------------------------------------------------------------------------
// Documents.

/// The query of a document listing: `limit` when positive, `cursor` and
/// `status` when given and not empty, in that order.
pub open spec fn documents_query(o: crate::types::DocumentListOpts) -> Seq<(Seq<char>, Seq<char>)> {
    let q = match o.limit {
        Some(l) => if l > 0 {
            seq![("limit"@, decimal(l as nat))]
        } else {
            seq![]
        },
        None => seq![],
    };
    let q = match o.cursor {
        Some(c) => if c@.len() > 0 {
            q.push(("cursor"@, c@))
        } else {
            q
        },
        None => q,
    };
    match o.status {
        Some(s) => if s@.len() > 0 {
            q.push(("status"@, s@))
        } else {
            q
        },
        None => q,
    }
}

/// `GET /datasets/{id}/documents` with cursor pagination.
pub fn list_documents_request(dataset_id: &str, opts: crate::types::DocumentListOpts) -> (r:
    Request)
    ensures
        r@ == plain(
            "GET"@,
            "/datasets/"@ + dataset_id@ + "/documents"@,
            documents_query(opts),
            None,
        ),
{
    let ghost o = opts;
    let mut q = no_query();
    match opts.limit {
        Some(l) => if l > 0 {
            push_query(&mut q, "limit", u64_to_string(l as u64));
        },
        None => {},
    }
    match opts.cursor {
        Some(c) => if !c.as_str().is_empty() {
            push_query(&mut q, "cursor", c);
        },
        None => {},
    }
    match opts.status {
        Some(s) => if !s.as_str().is_empty() {
            push_query(&mut q, "status", s);
        },
        None => {},
    }
    proof {
        assert(pairs_view(q@) =~= documents_query(o));
    }
    make_request("GET", cat3("/datasets/", dataset_id, "/documents"), q, None)
}

/// `GET /datasets/{id}/documents/{document_id}/download`.
pub fn download_document_request(dataset_id: &str, document_id: &str) -> (r: Request)
    ensures
        r@ == plain(
            "GET"@,
            "/datasets/"@ + dataset_id@ + "/documents/"@ + document_id@ + "/download"@,
            seq![],
            None,
        ),
{
    let head = cat3("/datasets/", dataset_id, "/documents/");
    bare("GET", cat3(head.as_str(), document_id, "/download"))
}

// ---------------------------------------------------------------------------
// Search.

/// Search input forms: text, a vector (IEEE-754 bit patterns), or a full
/// request.
#[derive(Debug)]
pub enum SearchInput {
    Text(String),
    Vector(Vec<u64>),
    Request(Box<SearchRequest>),
}

impl vstd::std_specs::convert::FromSpecImpl<String> for SearchInput {
    open spec fn obeys_from_spec() -> bool {
        true
    }

    open spec fn from_spec(v: String) -> Self {
        SearchInput::Text(v)
    }
}

impl From<String> for SearchInput {
    fn from(v: String) -> (r: Self) {
        SearchInput::Text(v)
    }
}

impl<'a> vstd::std_specs::convert::FromSpecImpl<&'a str> for SearchInput {
    /// Described by the `ensures` of `from` below.
    open spec fn obeys_from_spec() -> bool {
        false
    }

    open spec fn from_spec(v: &'a str) -> Self {
        vstd::pervasive::arbitrary()
    }
}

impl<'a> From<&'a str> for SearchInput {
    /// A text query.
    fn from(v: &'a str) -> (r: Self)
        ensures
            r matches SearchInput::Text(t) && t@ == v@,
    {
        SearchInput::Text(v.to_string())
    }
}

impl vstd::std_specs::convert::FromSpecImpl<SearchRequest> for SearchInput {
    open spec fn obeys_from_spec() -> bool {
        true
    }

    open spec fn from_spec(v: SearchRequest) -> Self {
        SearchInput::Request(Box::new(v))
    }
}

impl From<SearchRequest> for SearchInput {
    fn from(v: SearchRequest) -> (r: Self) {
        SearchInput::Request(Box::new(v))
    }
}

/// Optional knobs for a search.
#[derive(Debug, Default, Clone)]
pub struct SearchOptions {
    pub top_k: Option<u32>,
    pub include_metadata: Option<bool>,
    pub include_documents: Option<bool>,
    pub filters: Option<Vec<(String, String)>>,
    pub rerank: Option<Rerank>,
}

impl SearchOptions {
    /// Enable or disable VectorAmp reranking. Enabled reranking is sent as
    /// the full rerank object (`vectoramp` / `VectorAmp-Rerank-v1`).
    pub fn with_rerank(self, enabled: bool) -> (r: Self)
        ensures
            r == (SearchOptions { rerank: Some(Rerank::Enabled(enabled)), ..self }),
    {
        let mut o = self;
        o.rerank = Some(Rerank::Enabled(enabled));
        o
    }

    /// Set rerank options. Only `enabled` is required.
    pub fn with_rerank_config(self, config: RerankConfig) -> (r: Self)
        ensures
            r == (SearchOptions { rerank: Some(Rerank::Config(config)), ..self }),
    {
        let mut o = self;
        o.rerank = Some(Rerank::Config(config));
        o
    }
}

pub open spec fn or_else<T>(a: Option<T>, b: Option<T>) -> Option<T> {
    match a {
        Some(x) => Some(x),
        None => b,
    }
}

/// The search request sent for an input and options: text or vector inputs
/// start from an empty request; `options.top_k` overrides the request's;
/// a `top_k` of 0 becomes 10; each other set option overrides its field.
pub open spec fn search_from(input: SearchInput, o: SearchOptions) -> SearchRequest {
    let base = match input {
        SearchInput::Text(t) => SearchRequest {
            query_text: Some(t),
            ..crate::types::empty_search()
        },
        SearchInput::Vector(v) => SearchRequest { query: Some(v), ..crate::types::empty_search() },
        SearchInput::Request(r) => *r,
    };
    let k = match o.top_k {
        Some(k) => k,
        None => base.top_k,
    };
    SearchRequest {
        top_k: if k == 0 {
            10
        } else {
            k
        },
        include_metadata: or_else(o.include_metadata, base.include_metadata),
        include_documents: or_else(o.include_documents, base.include_documents),
        filters: or_else(o.filters, base.filters),
        rerank: or_else(o.rerank, base.rerank),
        ..base
    }
}

/// The search request for an input and options.
pub fn build_search(input: SearchInput, options: SearchOptions) -> (r: SearchRequest)
    ensures
        r == search_from(input, options),
{
    let mut req = match input {
        SearchInput::Text(text) => {
            let mut r = SearchRequest::empty();
            r.query_text = Some(text);
            r
        },
        SearchInput::Vector(values) => {
            let mut r = SearchRequest::empty();
            r.query = Some(values);
            r
        },
        SearchInput::Request(r) => *r,
    };
    if let Some(top_k) = options.top_k {
        req.top_k = top_k;
    }
    if req.top_k == 0 {
        req.top_k = DEFAULT_SEARCH_TOP_K;
    }
    if let Some(im) = options.include_metadata {
        req.include_metadata = Some(im);
    }
    if let Some(id) = options.include_documents {
        req.include_documents = Some(id);
    }
    if let Some(filters) = options.filters {
        req.filters = Some(filters);
    }
    if let Some(rerank) = options.rerank {
        req.rerank = Some(rerank);
    }
    req
}

/// `POST /datasets/{id}/search` for an input and options.
pub fn search_request(dataset_id: &str, input: SearchInput, options: SearchOptions) -> (r:
    Request)
    ensures
        r@ == plain(
            "POST"@,
            "/datasets/"@ + dataset_id@ + "/search"@,
            seq![],
            Some(search_request_view(search_from(input, options))),
        ),
{
    let req = build_search(input, options);
    with_body("POST", cat3("/datasets/", dataset_id, "/search"), req.into_json())
}

// ---------------------------------------------------------------------------
// Vectors.

/// `POST /datasets/{id}/insert` (never `/vectors`) with `{"vectors": [...]}`.
pub fn insert_request(dataset_id: &str, vectors: Vec<Vector>) -> (r: Request)
    ensures
        r@ == plain(
            "POST"@,
            "/datasets/"@ + dataset_id@ + "/insert"@,
            seq![],
            Some(JsonV::Object(seq![("vectors"@, vectors_view(vectors@))])),
        ),
{
    let mut m = empty_members();
    push_member(&mut m, "vectors", vectors_json(vectors));
    with_body("POST", cat3("/datasets/", dataset_id, "/insert"), object(m))
}

/// The JSON array of a list of vector ids.
pub open spec fn ids_view(ids: Seq<VectorId>) -> JsonV {
    JsonV::Array(Seq::new(ids.len(), |i: int| vector_id_view(ids[i])))
}

/// `DELETE /datasets/{id}/vectors` with `{"ids": [...]}` and
/// `write_concern` when given.
pub fn delete_vectors_request(dataset_id: &str, ids: &Vec<VectorId>, write_concern: Option<&str>) -> (r:
    Request)
    ensures
        r@ == plain(
            "DELETE"@,
            "/datasets/"@ + dataset_id@ + "/vectors"@,
            seq![],
            Some(
                JsonV::Object(
                    with_opt(
                        seq![("ids"@, ids_view(ids@))],
                        "write_concern"@,
                        match write_concern {
                            Some(w) => Some(JsonV::Str(w@)),
                            None => None,
                        },
                    ),
                ),
            ),
        ),
{
    let mut out: Vec<Json> = Vec::new();
    let n = ids.len();
    let mut i: usize = 0;
    while i < n
        invariant
            0 <= i <= n,
            n == ids@.len(),
            out@.len() == i,
            forall|j: int| 0 <= j < i ==> #[trigger] crate::json::json_view(out@[j]) == vector_id_view(ids@[j]),
        decreases n - i,
    {
        out.push(ids[i].to_json());
        i = i + 1;
    }
    proof {
        crate::json::lemma_seq_view(out@);
        assert(crate::json::json_seq_view(out@) =~= ids_view(ids@)->Array_0);
    }
    let mut m = empty_members();
    push_member(&mut m, "ids", crate::json::array(out));
    let wc = match write_concern {
        Some(w) => Some(crate::json::str_json(w)),
        None => None,
    };
    push_opt(&mut m, "write_concern", wc);
    with_body("DELETE", cat3("/datasets/", dataset_id, "/vectors"), object(m))
}

/// `POST /datasets/{id}/embed`.
pub fn embed_request(dataset_id: &str, request: EmbedRequest) -> (r: Request)
    ensures
        r@ == plain(
            "POST"@,
            "/datasets/"@ + dataset_id@ + "/embed"@,
            seq![],
            Some(crate::types::embed_request_view(request)),
        ),
{
    with_body("POST", cat3("/datasets/", dataset_id, "/embed"), request.into_json())
}

// ---------------------------------------------------------------------------
// add_texts.

/// Input forms accepted by `add_texts`: plain texts (ids are generated) or
/// documents with their own ids and metadata.
#[derive(Debug)]
pub enum AddTextsInput {
    Texts(Vec<String>),
    Documents(Vec<TextDocument>),
}

impl vstd::std_specs::convert::FromSpecImpl<Vec<String>> for AddTextsInput {
    open spec fn obeys_from_spec() -> bool {
        true
    }

    open spec fn from_spec(v: Vec<String>) -> Self {
        AddTextsInput::Texts(v)
    }
}

impl From<Vec<String>> for AddTextsInput {
    fn from(v: Vec<String>) -> (r: Self) {
        AddTextsInput::Texts(v)
    }
}

impl vstd::std_specs::convert::FromSpecImpl<Vec<TextDocument>> for AddTextsInput {
    open spec fn obeys_from_spec() -> bool {
        true
    }

    open spec fn from_spec(v: Vec<TextDocument>) -> Self {
        AddTextsInput::Documents(v)
    }
}

impl From<Vec<TextDocument>> for AddTextsInput {
    fn from(v: Vec<TextDocument>) -> (r: Self) {
        AddTextsInput::Documents(v)
    }
}

impl vstd::std_specs::convert::FromSpecImpl<String> for AddTextsInput {
    /// Described by the `ensures` of `from` below.
    open spec fn obeys_from_spec() -> bool {
        false
    }

    open spec fn from_spec(v: String) -> Self {
        vstd::pervasive::arbitrary()
    }
}

impl From<String> for AddTextsInput {
    /// One text.
    fn from(v: String) -> (r: Self)
        ensures
            r matches AddTextsInput::Texts(t) && t@ == seq![v],
    {
        let mut t: Vec<String> = Vec::new();
        t.push(v);
        AddTextsInput::Texts(t)
    }
}

impl<'a> vstd::std_specs::convert::FromSpecImpl<&'a str> for AddTextsInput {
    /// Described by the `ensures` of `from` below.
    open spec fn obeys_from_spec() -> bool {
        false
    }

    open spec fn from_spec(v: &'a str) -> Self {
        vstd::pervasive::arbitrary()
    }
}

impl<'a> From<&'a str> for AddTextsInput {
    /// One text.
    fn from(v: &'a str) -> (r: Self)
        ensures
            r matches AddTextsInput::Texts(t) && t@.len() == 1 && t@[0]@ == v@,
    {
        let mut t: Vec<String> = Vec::new();
        t.push(v.to_string());
        AddTextsInput::Texts(t)
    }
}

impl<'a> vstd::std_specs::convert::FromSpecImpl<Vec<&'a str>> for AddTextsInput {
    /// Described by the `ensures` of `from` below.
    open spec fn obeys_from_spec() -> bool {
        false
    }

    open spec fn from_spec(v: Vec<&'a str>) -> Self {
        vstd::pervasive::arbitrary()
    }
}

impl<'a> From<Vec<&'a str>> for AddTextsInput {
    /// The texts, in order.
    fn from(v: Vec<&'a str>) -> (r: Self)
        ensures
            r matches AddTextsInput::Texts(t) && t@.len() == v@.len() && forall|i: int|
                0 <= i < v@.len() ==> #[trigger] t@[i]@ == v@[i]@,
    {
        let mut t: Vec<String> = Vec::new();
        let n = v.len();
        let mut i: usize = 0;
        while i < n
            invariant
                0 <= i <= n,
                n == v@.len(),
                t@.len() == i,
                forall|j: int| 0 <= j < i ==> #[trigger] t@[j]@ == v@[j]@,
            decreases n - i,
        {
            t.push(v[i].to_string());
            i = i + 1;
        }
        AddTextsInput::Texts(t)
    }
}

/// Optional knobs for `add_texts`.
#[derive(Debug, Default, Clone)]
pub struct AddTextsOptions {
    pub embedding_provider: Option<String>,
    pub embedding_model: Option<String>,
}

/// The id generated for the `i`-th plain text (0-based): `text-<i+1>`.
pub open spec fn generated_id(i: int) -> Seq<char> {
    "text-"@ + decimal((i + 1) as nat)
}

/// The documents of an `add_texts` input: plain texts become documents with
/// ids `text-1`, `text-2`, … and no metadata; documents are kept as given.
/// Whether `docs` are the documents of `input`: plain texts become
/// documents with ids `text-1`, `text-2`, … and no metadata; documents stay
/// as they are.
pub open spec fn documents_of(input: AddTextsInput, docs: Seq<TextDocument>) -> bool {
    match input {
        AddTextsInput::Texts(t) => docs.len() == t@.len() && forall|i: int|
            0 <= i < t@.len() ==> {
                &&& #[trigger] docs[i].text == t@[i]
                &&& docs[i].metadata is None
                &&& docs[i].id matches VectorId::Str(s) && s@ == generated_id(i)
            },
        AddTextsInput::Documents(d) => docs == d@,
    }
}

pub fn text_documents(input: AddTextsInput) -> (r: Vec<TextDocument>)
    ensures
        documents_of(input, r@),
{
    match input {
        AddTextsInput::Texts(texts) => {
            let mut out: Vec<TextDocument> = Vec::new();
            let n = texts.len();
            let mut i: usize = 0;
            while i < n
                invariant
                    0 <= i <= n,
                    n == texts@.len(),
                    out@.len() == i,
                    forall|j: int|
                        0 <= j < i ==> {
                            &&& #[trigger] out@[j].text == texts@[j]
                            &&& out@[j].metadata is None
                            &&& out@[j].id matches VectorId::Str(s) && s@ == generated_id(j)
                        },
                decreases n - i,
            {
                let id = cat("text-", u64_to_string(i as u64 + 1).as_str());
                out.push(TextDocument { id: VectorId::Str(id), text: texts[i].clone(), metadata: None });
                i = i + 1;
            }
            out
        },
        AddTextsInput::Documents(docs) => docs,
    }
}

/// The embed request of `add_texts`: every document's text, in order, with
/// the provider and model options.
pub fn embed_texts(docs: &Vec<TextDocument>, options: AddTextsOptions) -> (r: EmbedRequest)
    ensures
        r.text is None,
        r.texts matches Some(v) && v@.len() == docs@.len() && forall|i: int|
            0 <= i < docs@.len() ==> #[trigger] v@[i] == docs@[i].text,
        r.embedding_provider == options.embedding_provider,
        r.embedding_model == options.embedding_model,
{
    let mut texts: Vec<String> = Vec::new();
    let n = docs.len();
    let mut i: usize = 0;
    while i < n
        invariant
            0 <= i <= n,
            n == docs@.len(),
            texts@.len() == i,
            forall|j: int| 0 <= j < i ==> #[trigger] texts@[j] == docs@[j].text,
        decreases n - i,
    {
        texts.push(docs[i].text.clone());
        i = i + 1;
    }
    EmbedRequest {
        text: None,
        texts: Some(texts),
        embedding_provider: options.embedding_provider,
        embedding_model: options.embedding_model,
    }
}

/// The embeddings of an embed response: `embeddings`, or the single
/// `embedding` when the list is empty.
/// The body of the embed request that adds `docs`: their texts in order,
/// and the options' embedding provider and model when set.
pub open spec fn add_texts_embed_body(docs: Seq<TextDocument>, o: AddTextsOptions) -> JsonV {
    let m = seq![("texts"@, crate::json::strings_view(Seq::new(docs.len(), |i: int| docs[i].text)))];
    let m = with_opt(m, "embedding_provider"@, opt_str_view(o.embedding_provider));
    JsonV::Object(with_opt(m, "embedding_model"@, opt_str_view(o.embedding_model)))
}

/// The embed request sent to add `docs` to a dataset, or `None` when there
/// is nothing to add (nothing is then sent, and nothing is inserted).
pub fn add_texts_embed_request(dataset_id: &str, docs: &Vec<TextDocument>, options: AddTextsOptions) -> (r:
    Option<Request>)
    ensures
        docs@.len() == 0 <==> r is None,
        r matches Some(req) ==> req@ == plain(
            "POST"@,
            "/datasets/"@ + dataset_id@ + "/embed"@,
            seq![],
            Some(add_texts_embed_body(docs@, options)),
        ),
{
    if docs.len() == 0 {
        return None;
    }
    let ghost o = options;
    let e = embed_texts(docs, options);
    proof {
        let v = e.texts->0;
        assert(v@ =~= Seq::new(docs@.len(), |i: int| docs@[i].text));
        assert(with_opt(seq![], "text"@, opt_str_view(e.text)) =~= seq![]);
        assert(with_opt(seq![], "texts"@, crate::types::opt_strings_view(e.texts)) =~= seq![
            ("texts"@, crate::json::strings_view(Seq::new(docs@.len(), |i: int| docs@[i].text))),
        ]);
    }
    Some(embed_request(dataset_id, e))
}

pub open spec fn response_embeddings(r: EmbedResponse) -> Seq<Vec<u64>> {
    if r.embeddings@.len() == 0 && r.embedding is Some {
        seq![r.embedding->0]
    } else {
        r.embeddings@
    }
}

/// The embeddings of an embed response.
pub fn embeddings_of(resp: EmbedResponse) -> (r: Vec<Vec<u64>>)
    ensures
        r@ == response_embeddings(resp),
{
    let mut e = resp.embeddings;
    if e.len() == 0 {
        if let Some(single) = resp.embedding {
            e.push(single);
        }
    }
    e
}

/// The metadata of the vector made from a document: its metadata (or an
/// empty object) with `text` set to the document's text unless already set.
pub open spec fn text_metadata(d: TextDocument) -> Seq<(Seq<char>, JsonV)> {
    members_insert_absent(
        match d.metadata {
            Some(m) => members_view(m),
            None => seq![],
        },
        "text"@,
        JsonV::Str(d.text@),
    )
}

fn copy_values(v: &Vec<u64>) -> (r: Vec<u64>)
    ensures
        r@ == v@,
{
    let mut out: Vec<u64> = Vec::new();
    let n = v.len();
    let mut i: usize = 0;
    while i < n
        invariant
            0 <= i <= n,
            n == v@.len(),
            out@ == v@.subrange(0, i as int),
        decreases n - i,
    {
        out.push(v[i]);
        i = i + 1;
        assert(out@ =~= v@.subrange(0, i as int));
    }
    assert(v@.subrange(0, n as int) =~= v@);
    out
}

/// The vectors of `add_texts`: one per document, in order, with the
/// document's id, the embedding at the same position (empty when there is
/// none), and the document's metadata with its text under `text`.
pub fn text_vectors(docs: Vec<TextDocument>, embeddings: &Vec<Vec<u64>>) -> (r: Vec<Vector>)
    ensures
        r@.len() == docs@.len(),
        forall|i: int|
            0 <= i < docs@.len() ==> {
                &&& #[trigger] r@[i].id == docs@[i].id
                &&& r@[i].values@ == (if i < embeddings@.len() {
                    embeddings@[i]@
                } else {
                    Seq::<u64>::empty()
                })
                &&& r@[i].metadata matches Some(m) && members_view(m) == text_metadata(docs@[i])
            },
{
    let ghost orig = docs@;
    let mut rest = docs;
    let mut out: Vec<Vector> = Vec::new();
    let n = rest.len();
    let mut i: usize = 0;
    while i < n
        invariant
            0 <= i <= n,
            n == orig.len(),
            rest@ == orig.subrange(i as int, n as int),
            out@.len() == i,
            forall|j: int|
                0 <= j < i ==> {
                    &&& #[trigger] out@[j].id == orig[j].id
                    &&& out@[j].values@ == (if j < embeddings@.len() {
                        embeddings@[j]@
                    } else {
                        Seq::<u64>::empty()
                    })
                    &&& out@[j].metadata matches Some(m) && members_view(m) == text_metadata(
                        orig[j],
                    )
                },
        decreases n - i,
    {
        let doc = rest.remove(0);
        assert(doc == orig[i as int]);
        let ghost d = doc;
        let mut metadata = match doc.metadata {
            Some(m) => m,
            None => empty_members(),
        };
        insert_member_if_absent(&mut metadata, "text".to_string(), Json::Str(doc.text));
        let values = if i < embeddings.len() {
            copy_values(&embeddings[i])
        } else {
            Vec::new()
        };
        out.push(Vector { id: doc.id, values, metadata: Some(metadata) });
        assert(rest@ =~= orig.subrange(i as int + 1, n as int));
        i = i + 1;
    }
    out
}

/// The counts `add_texts` reports: the vectors inserted, and the number of
/// embeddings received (as a `u32`, wrapping like an `as` conversion).
pub fn add_texts_result(inserted: InsertVectorsResponse, embeddings: usize) -> (r:
    AddTextsResponse)
    ensures
        r.inserted == inserted.inserted,
        r.embeddings == embeddings as u32,
{
    AddTextsResponse { inserted: inserted.inserted, embeddings: embeddings as u32 }
}

// ---------------------------------------------------------------------------
// The add_texts flow.

/// The JSON of the vector made from a document and its embedding.
pub open spec fn text_vector_view(d: TextDocument, values: Seq<u64>) -> JsonV {
    JsonV::Object(
        seq![("id"@, vector_id_view(d.id))].push(("values"@, crate::json::floats_view(values))).push(
            ("metadata"@, JsonV::Object(text_metadata(d))),
        ),
    )
}

/// The embedding of document `i`, empty when the response has none for it.
pub open spec fn embedding_at(e: Seq<Vec<u64>>, i: int) -> Seq<u64> {
    if i < e.len() {
        e[i]@
    } else {
        seq![]
    }
}

/// The body of the insert that adds `docs` with embeddings `e`.
pub open spec fn add_texts_insert_body(docs: Seq<TextDocument>, e: Seq<Vec<u64>>) -> JsonV {
    JsonV::Object(
        seq![
            ("vectors"@, JsonV::Array(
                Seq::new(docs.len(), |i: int| text_vector_view(docs[i], embedding_at(e, i))),
            )),
        ],
    )
}

/// How many texts or documents an input holds.
pub open spec fn input_len(input: AddTextsInput) -> nat {
    match input {
        AddTextsInput::Texts(t) => t@.len(),
        AddTextsInput::Documents(d) => d@.len(),
    }
}

/// Where an `add_texts` call stands.
#[derive(Debug)]
pub enum AddTextsState {
    /// Waiting for the embeddings of `docs`.
    Embedding { dataset_id: String, docs: Vec<TextDocument> },
    /// Waiting for the insert's answer; `embeddings` were received.
    Inserting { embeddings: usize },
    /// Finished or failed; nothing more happens.
    Over,
}

/// What came back from the last action.
#[derive(Debug)]
pub enum AddTextsEvent {
    Embedded(EmbedResponse),
    Inserted(InsertVectorsResponse),
}

/// What to do next.
#[derive(Debug)]
pub enum AddTextsAction {
    /// Send this request and answer with the embeddings.
    Embed(Request),
    /// Send this request and answer with the insert's result.
    Insert(Request),
    /// Done; this is the result.
    Finish(AddTextsResponse),
    /// Failed with this error.
    Fail(Error),
}

/// The message of the error for an event the flow did not ask for.
pub const UNEXPECTED_ADD_TEXTS_EVENT: &'static str = "add_texts flow received an unexpected event";

/// Starts adding `input` to `dataset_id`: the texts are embedded first;
/// with nothing to add, nothing is sent and nothing is inserted.
pub fn add_texts_start(dataset_id: &str, input: AddTextsInput, options: AddTextsOptions) -> (r: (
    AddTextsState,
    AddTextsAction,
))
    ensures
        input_len(input) == 0 ==> r.0 is Over && r.1 == AddTextsAction::Finish(
            AddTextsResponse { inserted: 0, embeddings: 0 },
        ),
        input_len(input) > 0 ==> (r.0 matches AddTextsState::Embedding { dataset_id: id, docs }
            && id@ == dataset_id@ && documents_of(input, docs@) && (
        r.1 matches AddTextsAction::Embed(req) && req@ == plain(
            "POST"@,
            "/datasets/"@ + dataset_id@ + "/embed"@,
            seq![],
            Some(add_texts_embed_body(docs@, options)),
        ))),
{
    let ghost i0 = input;
    let docs = text_documents(input);
    match add_texts_embed_request(dataset_id, &docs, options) {
        None => (AddTextsState::Over, AddTextsAction::Finish(AddTextsResponse { inserted: 0, embeddings: 0 })),
        Some(req) => (
            AddTextsState::Embedding { dataset_id: dataset_id.to_string(), docs },
            AddTextsAction::Embed(req),
        ),
    }
}

/// The next step of adding texts: once the embeddings arrive, insert one
/// vector per document (its id, its embedding, its metadata with the text
/// copied in); once the insert answers, report how many vectors were
/// inserted and how many embeddings came back.
pub fn add_texts_step(state: AddTextsState, event: AddTextsEvent) -> (r: (AddTextsState, AddTextsAction))
    ensures
        match (state, event) {
            (AddTextsState::Embedding { dataset_id, docs }, AddTextsEvent::Embedded(resp)) => r.0
                == (AddTextsState::Inserting {
                embeddings: response_embeddings(resp).len() as usize,
            }) && (r.1 matches AddTextsAction::Insert(req) && req@ == plain(
                "POST"@,
                "/datasets/"@ + dataset_id@ + "/insert"@,
                seq![],
                Some(add_texts_insert_body(docs@, response_embeddings(resp))),
            )),
            (AddTextsState::Inserting { embeddings }, AddTextsEvent::Inserted(ins)) => r.0 is Over
                && r.1 == AddTextsAction::Finish(
                AddTextsResponse { inserted: ins.inserted, embeddings: embeddings as u32 },
            ),
            _ => r.0 is Over && (r.1 matches AddTextsAction::Fail(Error::Other(m)) && m@
                == UNEXPECTED_ADD_TEXTS_EVENT@),
        },
{
    match (state, event) {
        (AddTextsState::Embedding { dataset_id, docs }, AddTextsEvent::Embedded(resp)) => {
            let ghost d = docs@;
            let embeddings = embeddings_of(resp);
            let count = embeddings.len();
            let vectors = text_vectors(docs, &embeddings);
            proof {
                assert forall|i: int| 0 <= i < d.len() implies #[trigger] vector_view(vectors@[i])
                    == text_vector_view(d[i], embedding_at(embeddings@, i)) by {
                    let m = vectors@[i].metadata->0;
                    assert(with_opt(
                        seq![("id"@, vector_id_view(vectors@[i].id))].push(
                            ("values"@, crate::json::floats_view(vectors@[i].values@)),
                        ),
                        "metadata"@,
                        opt_members_view(vectors@[i].metadata),
                    ) =~= seq![("id"@, vector_id_view(d[i].id))].push(
                        ("values"@, crate::json::floats_view(embedding_at(embeddings@, i))),
                    ).push(("metadata"@, JsonV::Object(text_metadata(d[i])))));
                }
                assert(vectors_view(vectors@)->Array_0 =~= Seq::new(
                    d.len(),
                    |i: int| text_vector_view(d[i], embedding_at(embeddings@, i)),
                ));
            }
            let req = insert_request(dataset_id.as_str(), vectors);
            (AddTextsState::Inserting { embeddings: count }, AddTextsAction::Insert(req))
        },
        (AddTextsState::Inserting { embeddings }, AddTextsEvent::Inserted(ins)) => {
            (AddTextsState::Over, AddTextsAction::Finish(add_texts_result(ins, embeddings)))
        },
        _ => (AddTextsState::Over, AddTextsAction::Fail(Error::Other(UNEXPECTED_ADD_TEXTS_EVENT.to_string()))),
    }
}

} // verus!
