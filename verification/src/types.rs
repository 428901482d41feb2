//! Request and response types exchanged with the VectorAmp API, with the
//! JSON encodings the API expects.

use vstd::prelude::*;
use crate::json::{
    array, empty_members, floats_json, floats_view, json_seq_view, members_view, object,
    opt_bool_json, opt_bool_view, opt_json_view, opt_members_json, opt_members_view,
    opt_str_view, opt_string_json, opt_u32_json, opt_u32_view, push_member, push_opt, str_json,
    string_pairs_json, string_pairs_view, strings_json, strings_view, with_opt, Json, JsonV,
    Members,
};

verus! {

/// Request body for creating an ingestion source. The typed builders in
/// [`crate::sources`] fill it in.
#[derive(Debug, Default)]
pub struct CreateSourceRequest {
    pub source_type: String,
    pub name: String,
    pub description: Option<String>,
    pub config: Members,
    pub metadata: Option<Members>,
}

/// The mathematical value of a [`CreateSourceRequest`].
pub struct CreateSourceRequestV {
    pub source_type: Seq<char>,
    pub name: Seq<char>,
    pub description: Option<Seq<char>>,
    pub config: Seq<(Seq<char>, JsonV)>,
    pub metadata: Option<Seq<(Seq<char>, JsonV)>>,
}

pub open spec fn opt_string_view(o: Option<String>) -> Option<Seq<char>> {
    match o {
        Some(s) => Some(s@),
        None => None,
    }
}

pub open spec fn opt_object_view(o: Option<Members>) -> Option<Seq<(Seq<char>, JsonV)>> {
    match o {
        Some(m) => Some(members_view(m)),
        None => None,
    }
}

impl View for CreateSourceRequest {
    type V = CreateSourceRequestV;

    open spec fn view(&self) -> CreateSourceRequestV {
        CreateSourceRequestV {
            source_type: self.source_type@,
            name: self.name@,
            description: opt_string_view(self.description),
            config: members_view(self.config),
            metadata: opt_object_view(self.metadata),
        }
    }
}

/// The JSON body of a create-source request: `source_type`, `name`,
/// `description` when set, `config`, and `metadata` when set.
pub open spec fn create_source_body(r: CreateSourceRequestV) -> JsonV {
    let m = seq![("source_type"@, JsonV::Str(r.source_type))].push(("name"@, JsonV::Str(r.name)));
    let m = with_opt(
        m,
        "description"@,
        match r.description {
            Some(d) => Some(JsonV::Str(d)),
            None => None,
        },
    );
    let m = m.push(("config"@, JsonV::Object(r.config)));
    let m = with_opt(
        m,
        "metadata"@,
        match r.metadata {
            Some(o) => Some(JsonV::Object(o)),
            None => None,
        },
    );
    JsonV::Object(m)
}

impl CreateSourceRequest {
    /// The JSON body sent to `POST /ingestion/sources`.
    pub fn into_json(self) -> (r: Json)
        ensures
            r@ == create_source_body(self@),
    {
        let ghost v = self@;
        let mut m = empty_members();
        push_member(&mut m, "source_type", Json::Str(self.source_type));
        push_member(&mut m, "name", Json::Str(self.name));
        push_opt(&mut m, "description", opt_string_json(self.description));
        push_member(&mut m, "config", object(self.config));
        push_opt(&mut m, "metadata", opt_members_json(self.metadata));
        proof {
            assert(members_view(m) == create_source_body(v)->Object_0);
        }
        object(m)
    }
}

} // verus!

verus! {

// ---------------------------------------------------------------------------
// Embeddings.

/// Default embedding provider used when a dataset is created without one.
pub const DEFAULT_EMBEDDING_PROVIDER: &'static str = "vectoramp";
/// Default embedding model used when a dataset is created without one.
pub const DEFAULT_EMBEDDING_MODEL: &'static str = "VectorAmp-Embedding-4B";
/// Inferred dimensionality of [`DEFAULT_EMBEDDING_MODEL`].
pub const DEFAULT_EMBEDDING_DIM: u32 = 2560;

/// Embedding provider/model selector attached to a dataset. `secret_ref`
/// names a stored organization secret holding the provider's API key.
#[derive(Debug, Default, Clone)]
pub struct EmbeddingConfig {
    pub provider: Option<String>,
    pub model: Option<String>,
    pub secret_ref: Option<String>,
}

/// The JSON object of an [`EmbeddingConfig`]: each field only when set.
pub open spec fn embedding_view(e: EmbeddingConfig) -> JsonV {
    let m = with_opt(seq![], "provider"@, opt_str_view(e.provider));
    let m = with_opt(m, "model"@, opt_str_view(e.model));
    JsonV::Object(with_opt(m, "secret_ref"@, opt_str_view(e.secret_ref)))
}

/// The OpenAI model id a shorthand stands for: `small` and `large` expand to
/// `text-embedding-3-small` / `text-embedding-3-large`; anything else is kept.
pub open spec fn openai_model(m: Seq<char>) -> Seq<char> {
    if m == "small"@ {
        "text-embedding-3-small"@
    } else if m == "large"@ {
        "text-embedding-3-large"@
    } else {
        m
    }
}

impl EmbeddingConfig {
    /// VectorAmp default embedding (`VectorAmp-Embedding-4B`, dim `2560`).
    pub fn vectoramp() -> (r: Self)
        ensures
            opt_string_view(r.provider) == Some("vectoramp"@),
            opt_string_view(r.model) == Some("VectorAmp-Embedding-4B"@),
            r.secret_ref is None,
    {
        EmbeddingConfig {
            provider: Some(DEFAULT_EMBEDDING_PROVIDER.to_string()),
            model: Some(DEFAULT_EMBEDDING_MODEL.to_string()),
            secret_ref: None,
        }
    }

    /// OpenAI embedding helper. Accepts the shorthands `"small"` / `"large"`
    /// or a full model id such as `text-embedding-3-small`.
    pub fn openai(model: &str) -> (r: Self)
        ensures
            opt_string_view(r.provider) == Some("openai"@),
            opt_string_view(r.model) == Some(openai_model(model@)),
            r.secret_ref is None,
    {
        let m = if crate::text::str_eq(model, "small") {
            "text-embedding-3-small".to_string()
        } else if crate::text::str_eq(model, "large") {
            "text-embedding-3-large".to_string()
        } else {
            model.to_string()
        };
        EmbeddingConfig { provider: Some("openai".to_string()), model: Some(m), secret_ref: None }
    }

    /// The config as a JSON object.
    pub fn to_json(&self) -> (r: Json)
        ensures
            r@ == embedding_view(*self),
    {
        let mut m = empty_members();
        push_opt(&mut m, "provider", opt_string_json(clone_opt_string(&self.provider)));
        push_opt(&mut m, "model", opt_string_json(clone_opt_string(&self.model)));
        push_opt(&mut m, "secret_ref", opt_string_json(clone_opt_string(&self.secret_ref)));
        object(m)
    }
}

pub fn clone_opt_string(o: &Option<String>) -> (r: Option<String>)
    ensures
        r == *o,
{
    match o {
        Some(x) => Some(x.clone()),
        None => None,
    }
}

/// The built-in table of embedding dimensionalities: the VectorAmp default
/// model is 2560 under any provider; OpenAI's `text-embedding-3-small` and
/// `text-embedding-3-large` are 1536 and 3072, with or without a provider;
/// anything else is unknown.
pub open spec fn inferred_dim(provider: Option<Seq<char>>, model: Option<Seq<char>>) -> Option<u32> {
    match model {
        None => None,
        Some(m) => if m == "VectorAmp-Embedding-4B"@ {
            Some(2560)
        } else if m == "text-embedding-3-small"@ {
            Some(1536)
        } else if m == "text-embedding-3-large"@ {
            Some(3072)
        } else {
            None
        },
    }
}

/// Infer the embedding dimensionality from a `provider`/`model` pair using
/// the built-in table. Returns `None` for custom/unknown models, in which
/// case the caller must supply `dim` explicitly.
pub fn infer_embedding_dim(provider: Option<&str>, model: Option<&str>) -> (r: Option<u32>)
    ensures
        r == inferred_dim(
            match provider {
                Some(p) => Some(p@),
                None => None,
            },
            match model {
                Some(m) => Some(m@),
                None => None,
            },
        ),
{
    match model {
        None => None,
        Some(m) => if crate::text::str_eq(m, DEFAULT_EMBEDDING_MODEL) {
            Some(DEFAULT_EMBEDDING_DIM)
        } else if crate::text::str_eq(m, "text-embedding-3-small") {
            Some(1536)
        } else if crate::text::str_eq(m, "text-embedding-3-large") {
            Some(3072)
        } else {
            None
        },
    }
}

} // verus!

verus! {

// ---------------------------------------------------------------------------
// Datasets.

/// VectorAmp dataset returned by the API.
#[derive(Debug, Default, Clone)]
pub struct DatasetInfo {
    pub id: String,
    pub name: String,
    pub org_id: Option<String>,
    pub dim: u32,
    pub metric: String,
    pub tuning: Option<Members>,
    pub embedding: Option<EmbeddingConfig>,
    pub index_type: Option<String>,
    pub created_at: Option<String>,
    pub updated_at: Option<String>,
    pub metadata: Option<Members>,
}

/// Request to create a dataset.
///
/// Only `name` is required. When `dim` is omitted it is inferred from the
/// embedding model (defaulting to `VectorAmp-Embedding-4B`, 2560). The
/// request always carries `index_type: "sable"`.
#[derive(Debug, Default)]
pub struct CreateDatasetRequest {
    pub name: String,
    /// Embedding dimensionality, sent as `dim` (never `dimension`).
    pub dim: Option<u32>,
    pub metric: Option<String>,
    pub tuning: Option<Members>,
    pub embedding: Option<EmbeddingConfig>,
    /// Enable hybrid (dense + sparse) indexing.
    pub hybrid: Option<bool>,
    pub metadata: Option<Members>,
}

/// A create request for `name` with every other field unset.
pub open spec fn named_request(name: String) -> CreateDatasetRequest {
    CreateDatasetRequest {
        name,
        dim: None,
        metric: None,
        tuning: None,
        embedding: None,
        hybrid: None,
        metadata: None,
    }
}

impl CreateDatasetRequest {
    /// A request for `name` with every other field unset.
    pub fn named(name: String) -> (r: Self)
        ensures
            r == named_request(name),
    {
        CreateDatasetRequest {
            name,
            dim: None,
            metric: None,
            tuning: None,
            embedding: None,
            hybrid: None,
            metadata: None,
        }
    }

    /// Start a builder for a dataset with the given name.
    pub fn builder(name: String) -> (r: CreateDatasetBuilder)
        ensures
            r.request == named_request(name),
    {
        CreateDatasetBuilder::new(name)
    }
}

/// Fluent builder for [`CreateDatasetRequest`].
#[derive(Debug)]
pub struct CreateDatasetBuilder {
    pub request: CreateDatasetRequest,
}

impl CreateDatasetBuilder {
    /// Begin building a create request for `name`.
    pub fn new(name: String) -> (r: Self)
        ensures
            r.request == named_request(name),
    {
        CreateDatasetBuilder { request: CreateDatasetRequest::named(name) }
    }

    /// Set the embedding dimensionality explicitly.
    pub fn dim(self, dim: u32) -> (r: Self)
        ensures
            r.request == (CreateDatasetRequest { dim: Some(dim), ..self.request }),
    {
        let mut b = self;
        b.request.dim = Some(dim);
        b
    }

    /// Set the distance metric (defaults to `cosine`).
    pub fn metric(self, metric: String) -> (r: Self)
        ensures
            r.request == (CreateDatasetRequest { metric: Some(metric), ..self.request }),
    {
        let mut b = self;
        b.request.metric = Some(metric);
        b
    }

    /// Set the embedding provider/model.
    pub fn embedding(self, embedding: EmbeddingConfig) -> (r: Self)
        ensures
            r.request == (CreateDatasetRequest { embedding: Some(embedding), ..self.request }),
    {
        let mut b = self;
        b.request.embedding = Some(embedding);
        b
    }

    /// Use an OpenAI embedding model (`"small"`, `"large"`, or a full id).
    pub fn openai(self, model: &str) -> (r: Self)
        ensures
            r.request.embedding matches Some(e) && opt_string_view(e.provider) == Some("openai"@)
                && opt_string_view(e.model) == Some(openai_model(model@)) && e.secret_ref is None,
            r.request.name == self.request.name,
            r.request.dim == self.request.dim,
            r.request.metric == self.request.metric,
            r.request.tuning == self.request.tuning,
            r.request.hybrid == self.request.hybrid,
            r.request.metadata == self.request.metadata,
    {
        let mut b = self;
        b.request.embedding = Some(EmbeddingConfig::openai(model));
        b
    }

    /// Enable hybrid (dense + sparse) indexing.
    pub fn hybrid(self, hybrid: bool) -> (r: Self)
        ensures
            r.request == (CreateDatasetRequest { hybrid: Some(hybrid), ..self.request }),
    {
        let mut b = self;
        b.request.hybrid = Some(hybrid);
        b
    }

    /// Attach metadata to the dataset.
    pub fn metadata(self, metadata: Members) -> (r: Self)
        ensures
            r.request == (CreateDatasetRequest { metadata: Some(metadata), ..self.request }),
    {
        let mut b = self;
        b.request.metadata = Some(metadata);
        b
    }

    /// Finish building; defaults and dim inference are applied at create time.
    pub fn build(self) -> (r: CreateDatasetRequest)
        ensures
            r == self.request,
    {
        self.request
    }
}

impl vstd::std_specs::convert::FromSpecImpl<CreateDatasetBuilder> for CreateDatasetRequest {
    open spec fn obeys_from_spec() -> bool {
        true
    }

    open spec fn from_spec(v: CreateDatasetBuilder) -> Self {
        v.request
    }
}

impl From<CreateDatasetBuilder> for CreateDatasetRequest {
    fn from(b: CreateDatasetBuilder) -> (r: Self) {
        b.build()
    }
}

impl vstd::std_specs::convert::FromSpecImpl<String> for CreateDatasetRequest {
    open spec fn obeys_from_spec() -> bool {
        true
    }

    open spec fn from_spec(v: String) -> Self {
        named_request(v)
    }
}

impl From<String> for CreateDatasetRequest {
    fn from(name: String) -> (r: Self) {
        CreateDatasetRequest::named(name)
    }
}

impl<'a> vstd::std_specs::convert::FromSpecImpl<&'a str> for CreateDatasetRequest {
    /// No `String` can be written in a spec, so the conversion is described
    /// by the `ensures` of `from` below instead.
    open spec fn obeys_from_spec() -> bool {
        false
    }

    open spec fn from_spec(v: &'a str) -> Self {
        vstd::pervasive::arbitrary()
    }
}

impl<'a> From<&'a str> for CreateDatasetRequest {
    /// A request that gives only the name `name`.
    fn from(name: &'a str) -> (r: Self)
        ensures
            r.name@ == name@,
            r.dim is None && r.metric is None && r.tuning is None && r.embedding is None
                && r.hybrid is None && r.metadata is None,
    {
        CreateDatasetRequest::named(name.to_string())
    }
}

// ---------------------------------------------------------------------------
// Vectors.

/// Identifier for a vector record: a string or an integer. Integer ids are
/// sent as JSON numbers so the API preserves them exactly; every Rust
/// integer up to 64 bits (`u64` and `usize` included) fits without change.
#[derive(Debug, Clone, PartialEq, Eq)]
pub enum VectorId {
    /// Integer id, sent as a JSON number.
    Int(i128),
    /// String id, sent as a JSON string.
    Str(String),
}

/// The JSON value of a vector id: a number for integers, a string otherwise.
pub open spec fn vector_id_view(id: VectorId) -> JsonV {
    match id {
        VectorId::Int(n) => JsonV::Int(n as int),
        VectorId::Str(s) => JsonV::Str(s@),
    }
}

impl VectorId {
    /// The id as JSON.
    pub fn to_json(&self) -> (r: Json)
        ensures
            r@ == vector_id_view(*self),
    {
        match self {
            VectorId::Int(n) => Json::Int(*n),
            VectorId::Str(s) => Json::Str(s.clone()),
        }
    }

    /// The id as text: the decimal form of an integer id, the string itself
    /// otherwise.
    pub fn to_string(&self) -> (r: String)
        ensures
            r@ == (match *self {
                VectorId::Int(n) => crate::text::signed_decimal(n as int),
                VectorId::Str(s) => s@,
            }),
    {
        match self {
            VectorId::Int(n) => crate::text::i128_to_string(*n),
            VectorId::Str(s) => s.clone(),
        }
    }
}

impl Default for VectorId {
    /// An empty string id.
    fn default() -> (r: VectorId)
        ensures
            r matches VectorId::Str(s) && s@.len() == 0,
    {
        VectorId::Str(String::new())
    }
}

impl vstd::std_specs::convert::FromSpecImpl<String> for VectorId {
    open spec fn obeys_from_spec() -> bool {
        true
    }

    open spec fn from_spec(v: String) -> Self {
        VectorId::Str(v)
    }
}

impl From<String> for VectorId {
    fn from(s: String) -> (r: Self) {
        VectorId::Str(s)
    }
}

impl<'a> vstd::std_specs::convert::FromSpecImpl<&'a str> for VectorId {
    /// No `String` can be written in a spec, so the conversion is described
    /// by the `ensures` of `from` below instead.
    open spec fn obeys_from_spec() -> bool {
        false
    }

    open spec fn from_spec(v: &'a str) -> Self {
        VectorId::Int(0)
    }
}

impl<'a> From<&'a str> for VectorId {
    /// A string id with the characters of `s`.
    fn from(s: &'a str) -> (r: Self)
        ensures
            r matches VectorId::Str(t) && t@ == s@,
    {
        VectorId::Str(s.to_string())
    }
}

impl vstd::std_specs::convert::FromSpecImpl<i8> for VectorId {
    open spec fn obeys_from_spec() -> bool {
        true
    }

    /// The same integer, unchanged.
    open spec fn from_spec(v: i8) -> Self {
        VectorId::Int(v as i128)
    }
}

impl From<i8> for VectorId {
    fn from(n: i8) -> (r: Self) {
        VectorId::Int(n as i128)
    }
}

impl vstd::std_specs::convert::FromSpecImpl<i16> for VectorId {
    open spec fn obeys_from_spec() -> bool {
        true
    }

    /// The same integer, unchanged.
    open spec fn from_spec(v: i16) -> Self {
        VectorId::Int(v as i128)
    }
}

impl From<i16> for VectorId {
    fn from(n: i16) -> (r: Self) {
        VectorId::Int(n as i128)
    }
}

impl vstd::std_specs::convert::FromSpecImpl<i32> for VectorId {
    open spec fn obeys_from_spec() -> bool {
        true
    }

    /// The same integer, unchanged.
    open spec fn from_spec(v: i32) -> Self {
        VectorId::Int(v as i128)
    }
}

impl From<i32> for VectorId {
    fn from(n: i32) -> (r: Self) {
        VectorId::Int(n as i128)
    }
}

impl vstd::std_specs::convert::FromSpecImpl<i64> for VectorId {
    open spec fn obeys_from_spec() -> bool {
        true
    }

    /// The same integer, unchanged.
    open spec fn from_spec(v: i64) -> Self {
        VectorId::Int(v as i128)
    }
}

impl From<i64> for VectorId {
    fn from(n: i64) -> (r: Self) {
        VectorId::Int(n as i128)
    }
}

impl vstd::std_specs::convert::FromSpecImpl<isize> for VectorId {
    open spec fn obeys_from_spec() -> bool {
        true
    }

    /// The same integer, unchanged.
    open spec fn from_spec(v: isize) -> Self {
        VectorId::Int(v as i128)
    }
}

impl From<isize> for VectorId {
    fn from(n: isize) -> (r: Self) {
        VectorId::Int(n as i128)
    }
}

impl vstd::std_specs::convert::FromSpecImpl<u8> for VectorId {
    open spec fn obeys_from_spec() -> bool {
        true
    }

    /// The same integer, unchanged.
    open spec fn from_spec(v: u8) -> Self {
        VectorId::Int(v as i128)
    }
}

impl From<u8> for VectorId {
    fn from(n: u8) -> (r: Self) {
        VectorId::Int(n as i128)
    }
}

impl vstd::std_specs::convert::FromSpecImpl<u16> for VectorId {
    open spec fn obeys_from_spec() -> bool {
        true
    }

    /// The same integer, unchanged.
    open spec fn from_spec(v: u16) -> Self {
        VectorId::Int(v as i128)
    }
}

impl From<u16> for VectorId {
    fn from(n: u16) -> (r: Self) {
        VectorId::Int(n as i128)
    }
}

impl vstd::std_specs::convert::FromSpecImpl<u32> for VectorId {
    open spec fn obeys_from_spec() -> bool {
        true
    }

    /// The same integer, unchanged.
    open spec fn from_spec(v: u32) -> Self {
        VectorId::Int(v as i128)
    }
}

impl From<u32> for VectorId {
    fn from(n: u32) -> (r: Self) {
        VectorId::Int(n as i128)
    }
}

impl vstd::std_specs::convert::FromSpecImpl<u64> for VectorId {
    open spec fn obeys_from_spec() -> bool {
        true
    }

    /// The same integer, unchanged.
    open spec fn from_spec(v: u64) -> Self {
        VectorId::Int(v as i128)
    }
}

impl From<u64> for VectorId {
    fn from(n: u64) -> (r: Self) {
        VectorId::Int(n as i128)
    }
}

impl vstd::std_specs::convert::FromSpecImpl<usize> for VectorId {
    open spec fn obeys_from_spec() -> bool {
        true
    }

    /// The same integer, unchanged.
    open spec fn from_spec(v: usize) -> Self {
        VectorId::Int(v as i128)
    }
}

impl From<usize> for VectorId {
    fn from(n: usize) -> (r: Self) {
        VectorId::Int(n as i128)
    }
}

/// One vector record to insert into a dataset. `values` hold the IEEE-754
/// bit patterns of the coordinates.
#[derive(Debug, Default)]
pub struct Vector {
    pub id: VectorId,
    pub values: Vec<u64>,
    pub metadata: Option<Members>,
}

/// The JSON object of a vector: `id`, `values`, and `metadata` when set.
pub open spec fn vector_view(v: Vector) -> JsonV {
    JsonV::Object(
        with_opt(
            seq![("id"@, vector_id_view(v.id))].push(("values"@, floats_view(v.values@))),
            "metadata"@,
            opt_members_view(v.metadata),
        ),
    )
}

impl Vector {
    /// A vector from an id and values, without metadata.
    pub fn new(id: VectorId, values: Vec<u64>) -> (r: Self)
        ensures
            r == (Vector { id, values, metadata: None }),
    {
        Vector { id, values, metadata: None }
    }

    /// Attach metadata to the vector.
    pub fn with_metadata(self, metadata: Members) -> (r: Self)
        ensures
            r == (Vector { metadata: Some(metadata), ..self }),
    {
        Vector { id: self.id, values: self.values, metadata: Some(metadata) }
    }

    /// The vector as JSON.
    pub fn into_json(self) -> (r: Json)
        ensures
            r@ == vector_view(self),
    {
        let mut m = empty_members();
        push_member(&mut m, "id", self.id.to_json());
        push_member(&mut m, "values", floats_json(&self.values));
        push_opt(&mut m, "metadata", opt_members_json(self.metadata));
        object(m)
    }
}

/// The JSON array of a list of vectors.
pub open spec fn vectors_view(v: Seq<Vector>) -> JsonV {
    JsonV::Array(Seq::new(v.len(), |i: int| vector_view(v[i])))
}

/// The vectors as a JSON array, in order.
pub fn vectors_json(vectors: Vec<Vector>) -> (r: Json)
    ensures
        r@ == vectors_view(vectors@),
{
    let ghost orig = vectors@;
    let mut rest = vectors;
    let mut out: Vec<Json> = Vec::new();
    let n = rest.len();
    let mut i: usize = 0;
    while i < n
        invariant
            0 <= i <= n,
            n == orig.len(),
            rest@ == orig.subrange(i as int, n as int),
            out@.len() == i,
            forall|j: int| 0 <= j < i ==> #[trigger] crate::json::json_view(out@[j]) == vector_view(orig[j]),
        decreases n - i,
    {
        let v = rest.remove(0);
        assert(v == orig[i as int]);
        out.push(v.into_json());
        assert(rest@ =~= orig.subrange(i as int + 1, n as int));
        i = i + 1;
    }
    proof {
        crate::json::lemma_seq_view(out@);
        assert(json_seq_view(out@) =~= Seq::new(orig.len(), |i: int| vector_view(orig[i])));
    }
    array(out)
}

/// One text document to be embedded and inserted by `add_texts`.
#[derive(Debug, Default)]
pub struct TextDocument {
    pub id: VectorId,
    pub text: String,
    pub metadata: Option<Members>,
}

/// Number of vectors written by an insert.
#[derive(Debug, Default, Clone, Copy)]
pub struct InsertVectorsResponse {
    pub inserted: u32,
}

/// Counts returned by `add_texts`.
#[derive(Debug, Default, Clone, Copy, PartialEq, Eq)]
pub struct AddTextsResponse {
    pub inserted: u32,
    pub embeddings: u32,
}

/// Result of deleting vectors.
#[derive(Debug, Default)]
pub struct DeleteVectorsResponse {
    pub deleted: u32,
    pub dataset_id: Option<String>,
}

/// Embedding endpoint request body.
#[derive(Debug, Default)]
pub struct EmbedRequest {
    pub text: Option<String>,
    pub texts: Option<Vec<String>>,
    pub embedding_provider: Option<String>,
    pub embedding_model: Option<String>,
}

pub open spec fn opt_strings_view(o: Option<Vec<String>>) -> Option<JsonV> {
    match o {
        Some(v) => Some(strings_view(v@)),
        None => None,
    }
}

/// The JSON body of an embed request: each field only when set.
pub open spec fn embed_request_view(r: EmbedRequest) -> JsonV {
    let m = with_opt(seq![], "text"@, opt_str_view(r.text));
    let m = with_opt(m, "texts"@, opt_strings_view(r.texts));
    let m = with_opt(m, "embedding_provider"@, opt_str_view(r.embedding_provider));
    JsonV::Object(with_opt(m, "embedding_model"@, opt_str_view(r.embedding_model)))
}

pub fn opt_strings_json(o: &Option<Vec<String>>) -> (r: Option<Json>)
    ensures
        opt_json_view(r) == opt_strings_view(*o),
{
    match o {
        Some(v) => Some(strings_json(v)),
        None => None,
    }
}

impl EmbedRequest {
    /// The request as JSON.
    pub fn into_json(self) -> (r: Json)
        ensures
            r@ == embed_request_view(self),
    {
        let mut m = empty_members();
        push_opt(&mut m, "text", opt_string_json(self.text));
        push_opt(&mut m, "texts", opt_strings_json(&self.texts));
        push_opt(&mut m, "embedding_provider", opt_string_json(self.embedding_provider));
        push_opt(&mut m, "embedding_model", opt_string_json(self.embedding_model));
        object(m)
    }
}

/// Embedding endpoint response; coordinates are IEEE-754 bit patterns.
#[derive(Debug, Default)]
pub struct EmbedResponse {
    pub embeddings: Vec<Vec<u64>>,
    pub embedding: Option<Vec<u64>>,
}

} // verus!

verus! {

// ---------------------------------------------------------------------------
// Search.

/// VectorAmp rerank settings: a bare switch or a configuration. Only
/// `enabled` is required; provider and model default server-side to
/// `vectoramp` / `VectorAmp-Rerank-v1`.
#[derive(Debug, Clone)]
pub enum Rerank {
    Enabled(bool),
    Config(RerankConfig),
}

#[derive(Debug, Default, Clone)]
pub struct RerankConfig {
    pub enabled: bool,
    pub provider: Option<String>,
    pub model: Option<String>,
}

/// Default rerank provider.
pub const DEFAULT_RERANK_PROVIDER: &'static str = "vectoramp";
/// Default rerank model.
pub const DEFAULT_RERANK_MODEL: &'static str = "VectorAmp-Rerank-v1";

/// The JSON of a rerank setting. `true` expands to the full rerank object
/// (`enabled`, provider `vectoramp`, model `VectorAmp-Rerank-v1`); `false`
/// stays `false`; a configuration sends `enabled` and whichever of
/// `provider` and `model` are set.
pub open spec fn rerank_view(r: Rerank) -> JsonV {
    match r {
        Rerank::Enabled(true) => JsonV::Object(
            seq![("enabled"@, JsonV::Bool(true))].push(
                ("provider"@, JsonV::Str("vectoramp"@)),
            ).push(("model"@, JsonV::Str("VectorAmp-Rerank-v1"@))),
        ),
        Rerank::Enabled(false) => JsonV::Bool(false),
        Rerank::Config(c) => {
            let m = with_opt(
                seq![("enabled"@, JsonV::Bool(c.enabled))],
                "provider"@,
                opt_str_view(c.provider),
            );
            JsonV::Object(with_opt(m, "model"@, opt_str_view(c.model)))
        },
    }
}

impl Rerank {
    /// The setting as JSON.
    pub fn to_json(&self) -> (r: Json)
        ensures
            r@ == rerank_view(*self),
    {
        match self {
            Rerank::Enabled(b) => if *b {
                let mut m = empty_members();
                push_member(&mut m, "enabled", Json::Bool(true));
                push_member(&mut m, "provider", str_json(DEFAULT_RERANK_PROVIDER));
                push_member(&mut m, "model", str_json(DEFAULT_RERANK_MODEL));
                object(m)
            } else {
                Json::Bool(false)
            },
            Rerank::Config(c) => {
                let mut m = empty_members();
                push_member(&mut m, "enabled", Json::Bool(c.enabled));
                push_opt(&mut m, "provider", opt_string_json(clone_opt_string(&c.provider)));
                push_opt(&mut m, "model", opt_string_json(clone_opt_string(&c.model)));
                object(m)
            },
        }
    }
}

/// Structured metadata filter expression.
#[derive(Debug)]
pub struct AdvancedFilter {
    pub field: String,
    pub op: String,
    pub value: Option<Json>,
    pub values: Option<Vec<Json>>,
}

/// The JSON object of a filter: `field`, `op`, and `value` / `values` when set.
pub open spec fn filter_view(f: AdvancedFilter) -> JsonV {
    let m = seq![("field"@, JsonV::Str(f.field@))].push(("op"@, JsonV::Str(f.op@)));
    let m = with_opt(m, "value"@, opt_json_view(f.value));
    JsonV::Object(
        with_opt(
            m,
            "values"@,
            match f.values {
                Some(v) => Some(JsonV::Array(json_seq_view(v@))),
                None => None,
            },
        ),
    )
}

impl AdvancedFilter {
    /// The filter as JSON.
    pub fn into_json(self) -> (r: Json)
        ensures
            r@ == filter_view(self),
    {
        let mut m = empty_members();
        push_member(&mut m, "field", Json::Str(self.field));
        push_member(&mut m, "op", Json::Str(self.op));
        push_opt(&mut m, "value", self.value);
        let vs = match self.values {
            Some(v) => Some(array(v)),
            None => None,
        };
        push_opt(&mut m, "values", vs);
        object(m)
    }
}

/// The JSON array of a list of filters.
pub open spec fn filters_view(v: Seq<AdvancedFilter>) -> JsonV {
    JsonV::Array(Seq::new(v.len(), |i: int| filter_view(v[i])))
}

/// The filters as a JSON array, in order.
pub fn filters_json(filters: Vec<AdvancedFilter>) -> (r: Json)
    ensures
        r@ == filters_view(filters@),
{
    let ghost orig = filters@;
    let mut rest = filters;
    let mut out: Vec<Json> = Vec::new();
    let n = rest.len();
    let mut i: usize = 0;
    while i < n
        invariant
            0 <= i <= n,
            n == orig.len(),
            rest@ == orig.subrange(i as int, n as int),
            out@.len() == i,
            forall|j: int| 0 <= j < i ==> #[trigger] crate::json::json_view(out@[j]) == filter_view(orig[j]),
        decreases n - i,
    {
        let f = rest.remove(0);
        assert(f == orig[i as int]);
        out.push(f.into_json());
        assert(rest@ =~= orig.subrange(i as int + 1, n as int));
        i = i + 1;
    }
    proof {
        crate::json::lemma_seq_view(out@);
        assert(json_seq_view(out@) =~= Seq::new(orig.len(), |i: int| filter_view(orig[i])));
    }
    array(out)
}

/// Dataset search request body.
///
/// Provide either `query` (a vector, as IEEE-754 bit patterns) or
/// `query_text`. `alpha` is a bit pattern too.
#[derive(Debug)]
pub struct SearchRequest {
    pub query: Option<Vec<u64>>,
    pub query_text: Option<String>,
    pub embedding_model: Option<String>,
    pub embedding_provider: Option<String>,
    pub top_k: u32,
    pub filters: Option<Vec<(String, String)>>,
    pub advanced_filters: Option<Vec<AdvancedFilter>>,
    pub nprobe_override: Option<u32>,
    pub rerank_depth_override: Option<u32>,
    pub hybrid: Option<bool>,
    pub sparse_query: Option<String>,
    pub alpha: Option<u64>,
    pub include_embeddings: Option<bool>,
    pub include_documents: Option<bool>,
    pub include_metadata: Option<bool>,
    pub rerank: Option<Rerank>,
}

/// A search request with `top_k` 0 and every optional field unset.
pub open spec fn empty_search() -> SearchRequest {
    SearchRequest {
        query: None,
        query_text: None,
        embedding_model: None,
        embedding_provider: None,
        top_k: 0,
        filters: None,
        advanced_filters: None,
        nprobe_override: None,
        rerank_depth_override: None,
        hybrid: None,
        sparse_query: None,
        alpha: None,
        include_embeddings: None,
        include_documents: None,
        include_metadata: None,
        rerank: None,
    }
}

/// The first members of a search body, up to `top_k`.
pub open spec fn search_head_view(r: SearchRequest) -> Seq<(Seq<char>, JsonV)> {
    let m = with_opt(
        seq![],
        "query"@,
        match r.query {
            Some(q) => Some(floats_view(q@)),
            None => None,
        },
    );
    let m = with_opt(m, "query_text"@, opt_str_view(r.query_text));
    let m = with_opt(m, "embedding_model"@, opt_str_view(r.embedding_model));
    let m = with_opt(m, "embedding_provider"@, opt_str_view(r.embedding_provider));
    m.push(("top_k"@, JsonV::Int(r.top_k as int)))
}

/// The JSON body of a search: every optional field only when set.
pub open spec fn search_request_view(r: SearchRequest) -> JsonV {
    let m = search_head_view(r);
    let m = with_opt(
        m,
        "filters"@,
        match r.filters {
            Some(f) => Some(string_pairs_view(f@)),
            None => None,
        },
    );
    let m = with_opt(
        m,
        "advanced_filters"@,
        match r.advanced_filters {
            Some(f) => Some(filters_view(f@)),
            None => None,
        },
    );
    let m = with_opt(m, "nprobe_override"@, opt_u32_view(r.nprobe_override));
    let m = with_opt(m, "rerank_depth_override"@, opt_u32_view(r.rerank_depth_override));
    let m = with_opt(m, "hybrid"@, opt_bool_view(r.hybrid));
    let m = with_opt(m, "sparse_query"@, opt_str_view(r.sparse_query));
    let m = with_opt(
        m,
        "alpha"@,
        match r.alpha {
            Some(a) => Some(JsonV::Float(a)),
            None => None,
        },
    );
    let m = with_opt(m, "include_embeddings"@, opt_bool_view(r.include_embeddings));
    let m = with_opt(m, "include_documents"@, opt_bool_view(r.include_documents));
    let m = with_opt(m, "include_metadata"@, opt_bool_view(r.include_metadata));
    JsonV::Object(
        with_opt(
            m,
            "rerank"@,
            match r.rerank {
                Some(x) => Some(rerank_view(x)),
                None => None,
            },
        ),
    )
}

impl SearchRequest {
    /// A request with `top_k` 0 and every optional field unset.
    pub fn empty() -> (r: Self)
        ensures
            r == empty_search(),
    {
        SearchRequest {
            query: None,
            query_text: None,
            embedding_model: None,
            embedding_provider: None,
            top_k: 0,
            filters: None,
            advanced_filters: None,
            nprobe_override: None,
            rerank_depth_override: None,
            hybrid: None,
            sparse_query: None,
            alpha: None,
            include_embeddings: None,
            include_documents: None,
            include_metadata: None,
            rerank: None,
        }
    }

    fn head_json(&self) -> (r: Members)
        ensures
            members_view(r) == search_head_view(*self),
    {
        let mut m = empty_members();
        let q = match &self.query {
            Some(q) => Some(floats_json(q)),
            None => None,
        };
        push_opt(&mut m, "query", q);
        push_opt(&mut m, "query_text", opt_string_json(clone_opt_string(&self.query_text)));
        push_opt(
            &mut m,
            "embedding_model",
            opt_string_json(clone_opt_string(&self.embedding_model)),
        );
        push_opt(
            &mut m,
            "embedding_provider",
            opt_string_json(clone_opt_string(&self.embedding_provider)),
        );
        push_member(&mut m, "top_k", Json::Int(self.top_k as i128));
        m
    }

    /// The request as JSON.
    pub fn into_json(self) -> (r: Json)
        ensures
            r@ == search_request_view(self),
    {
        let ghost s = self;
        let mut m = self.head_json();
        let f = match &self.filters {
            Some(f) => Some(string_pairs_json(f)),
            None => None,
        };
        push_opt(&mut m, "filters", f);
        let af = match self.advanced_filters {
            Some(f) => Some(filters_json(f)),
            None => None,
        };
        push_opt(&mut m, "advanced_filters", af);
        push_opt(&mut m, "nprobe_override", opt_u32_json(self.nprobe_override));
        push_opt(&mut m, "rerank_depth_override", opt_u32_json(self.rerank_depth_override));
        push_opt(&mut m, "hybrid", opt_bool_json(self.hybrid));
        push_opt(&mut m, "sparse_query", opt_string_json(self.sparse_query));
        let alpha = match self.alpha {
            Some(a) => Some(Json::Float(a)),
            None => None,
        };
        push_opt(&mut m, "alpha", alpha);
        push_opt(&mut m, "include_embeddings", opt_bool_json(self.include_embeddings));
        push_opt(&mut m, "include_documents", opt_bool_json(self.include_documents));
        push_opt(&mut m, "include_metadata", opt_bool_json(self.include_metadata));
        let rr = match &self.rerank {
            Some(x) => Some(x.to_json()),
            None => None,
        };
        push_opt(&mut m, "rerank", rr);
        assert(members_view(m) == search_request_view(s)->Object_0);
        object(m)
    }
}

} // verus!

verus! {

// ---------------------------------------------------------------------------
// Ingestion.

/// Ingestion source returned by the API.
#[derive(Debug, Default)]
pub struct Source {
    pub id: Option<String>,
    pub source_id: Option<String>,
    pub uuid: Option<String>,
    pub name: String,
    /// The API's `type` field.
    pub kind: Option<String>,
    pub source_type: Option<String>,
    pub description: Option<String>,
    pub config: Option<Members>,
    pub metadata: Option<Members>,
    pub created_at: Option<String>,
    pub updated_at: Option<String>,
}

/// The most authoritative identifier of a source: `id`, else `source_id`,
/// else `uuid`.
pub open spec fn source_identifier(s: Source) -> Option<Seq<char>> {
    match s.id {
        Some(i) => Some(i@),
        None => match s.source_id {
            Some(i) => Some(i@),
            None => opt_string_view(s.uuid),
        },
    }
}

impl Source {
    /// Return the most authoritative identifier set on the source.
    pub fn identifier(&self) -> (r: Option<&str>)
        ensures
            match r {
                Some(s) => source_identifier(*self) == Some(s@),
                None => source_identifier(*self) is None,
            },
    {
        match &self.id {
            Some(i) => Some(i.as_str()),
            None => match &self.source_id {
                Some(i) => Some(i.as_str()),
                None => match &self.uuid {
                    Some(i) => Some(i.as_str()),
                    None => None,
                },
            },
        }
    }
}

/// Ingestion job returned by the API. The float fields hold IEEE-754 bit
/// patterns.
#[derive(Debug, Default)]
pub struct Job {
    pub job_id: String,
    pub status: String,
    pub message: Option<String>,
    pub documents_processed: Option<u64>,
    pub vectors_inserted: Option<u64>,
    pub processing_time_seconds: Option<u64>,
    pub pipeline_result: Option<Json>,
    pub error_details: Option<Json>,
    pub started_at: Option<String>,
    pub completed_at: Option<String>,
    pub progress_percentage: Option<u64>,
    pub current_step: Option<String>,
}

/// Request body for starting an ingestion job.
#[derive(Debug, Default)]
pub struct StartIngestionRequest {
    pub source_id: String,
    pub dataset_id: String,
    pub pipeline_id: Option<String>,
}

/// The JSON body of a start-job request.
pub open spec fn start_ingestion_view(r: StartIngestionRequest) -> JsonV {
    JsonV::Object(
        with_opt(
            seq![("source_id"@, JsonV::Str(r.source_id@))].push(
                ("dataset_id"@, JsonV::Str(r.dataset_id@)),
            ),
            "pipeline_id"@,
            opt_str_view(r.pipeline_id),
        ),
    )
}

impl StartIngestionRequest {
    /// The request as JSON.
    pub fn into_json(self) -> (r: Json)
        ensures
            r@ == start_ingestion_view(self),
    {
        let mut m = empty_members();
        push_member(&mut m, "source_id", Json::Str(self.source_id));
        push_member(&mut m, "dataset_id", Json::Str(self.dataset_id));
        push_opt(&mut m, "pipeline_id", opt_string_json(self.pipeline_id));
        object(m)
    }
}

/// Local file descriptor used when initializing a presigned upload.
#[derive(Debug, Default, Clone)]
pub struct UploadFile {
    pub name: String,
    pub size_bytes: u64,
    pub content_type: Option<String>,
}

/// The JSON object of an upload file.
pub open spec fn upload_file_view(f: UploadFile) -> JsonV {
    JsonV::Object(
        with_opt(
            seq![("name"@, JsonV::Str(f.name@))].push(
                ("size_bytes"@, JsonV::Int(f.size_bytes as int)),
            ),
            "content_type"@,
            opt_str_view(f.content_type),
        ),
    )
}

impl UploadFile {
    /// The file descriptor as JSON.
    pub fn to_json(&self) -> (r: Json)
        ensures
            r@ == upload_file_view(*self),
    {
        let mut m = empty_members();
        push_member(&mut m, "name", Json::Str(self.name.clone()));
        push_member(&mut m, "size_bytes", Json::Int(self.size_bytes as i128));
        push_opt(&mut m, "content_type", opt_string_json(clone_opt_string(&self.content_type)));
        object(m)
    }
}

/// One presigned upload destination returned by the upload init endpoint.
#[derive(Debug, Default, Clone)]
pub struct UploadTarget {
    pub file_id: String,
    pub file_name: Option<String>,
    pub upload_url: String,
}

/// Response from the upload init endpoint.
#[derive(Debug, Default, Clone)]
pub struct InitUploadResponse {
    pub job_id: String,
    pub uploads: Vec<UploadTarget>,
}

// ---------------------------------------------------------------------------
// Intelligence.

/// Conversation turn for [`AskRequest::conversation_history`].
#[derive(Debug, Default, Clone)]
pub struct ConversationMessage {
    pub role: String,
    pub content: String,
}

/// The JSON array of a conversation history.
pub open spec fn history_view(h: Seq<ConversationMessage>) -> JsonV {
    JsonV::Array(
        Seq::new(
            h.len(),
            |i: int|
                JsonV::Object(
                    seq![("role"@, JsonV::Str(h[i].role@))].push(
                        ("content"@, JsonV::Str(h[i].content@)),
                    ),
                ),
        ),
    )
}

/// A conversation history as a JSON array.
pub fn history_json(h: &Vec<ConversationMessage>) -> (r: Json)
    ensures
        r@ == history_view(h@),
{
    let mut out: Vec<Json> = Vec::new();
    let n = h.len();
    let mut i: usize = 0;
    while i < n
        invariant
            0 <= i <= n,
            n == h@.len(),
            out@.len() == i,
            forall|j: int|
                0 <= j < i ==> #[trigger] crate::json::json_view(out@[j]) == JsonV::Object(
                    seq![("role"@, JsonV::Str(h@[j].role@))].push(
                        ("content"@, JsonV::Str(h@[j].content@)),
                    ),
                ),
        decreases n - i,
    {
        let mut m = empty_members();
        push_member(&mut m, "role", Json::Str(h[i].role.clone()));
        push_member(&mut m, "content", Json::Str(h[i].content.clone()));
        out.push(object(m));
        i = i + 1;
    }
    proof {
        crate::json::lemma_seq_view(out@);
        assert(json_seq_view(out@) =~= history_view(h@)->Array_0);
    }
    array(out)
}

/// Intelligence query request body. `dataset_ids` scopes the query; an
/// absent scope means every dataset the caller can see.
#[derive(Debug, Default)]
pub struct AskRequest {
    pub query: String,
    pub dataset_ids: Option<Vec<String>>,
    pub top_k: Option<u32>,
    pub conversation_history: Option<Vec<ConversationMessage>>,
    pub stream: bool,
    pub include_sources: Option<bool>,
}

/// Whether a scope says nothing beyond "every dataset": empty, or made only of
/// the retired `"all"` sentinel.
pub open spec fn scope_is_everything(ids: Seq<String>) -> bool {
    forall|i: int| 0 <= i < ids.len() ==> #[trigger] ids[i]@ == "all"@
}

/// The `dataset_ids` member of a query body: omitted when the scope is absent
/// or says nothing beyond "every dataset".
pub open spec fn scope_view(ids: Option<Vec<String>>) -> Option<JsonV> {
    match ids {
        Some(v) => if scope_is_everything(v@) {
            None
        } else {
            Some(strings_view(v@))
        },
        None => None,
    }
}

/// The JSON body of an intelligence query.
pub open spec fn ask_request_view(r: AskRequest) -> JsonV {
    let m = seq![("query"@, JsonV::Str(r.query@))];
    let m = with_opt(m, "dataset_ids"@, scope_view(r.dataset_ids));
    let m = with_opt(m, "top_k"@, opt_u32_view(r.top_k));
    let m = with_opt(
        m,
        "conversation_history"@,
        match r.conversation_history {
            Some(h) => Some(history_view(h@)),
            None => None,
        },
    );
    let m = m.push(("stream"@, JsonV::Bool(r.stream)));
    JsonV::Object(with_opt(m, "include_sources"@, opt_bool_view(r.include_sources)))
}

fn everything_scope(ids: &Vec<String>) -> (r: bool)
    ensures
        r == scope_is_everything(ids@),
{
    let n = ids.len();
    let mut i: usize = 0;
    while i < n
        invariant
            0 <= i <= n,
            n == ids@.len(),
            forall|j: int| 0 <= j < i ==> #[trigger] ids@[j]@ == "all"@,
        decreases n - i,
    {
        if !crate::text::str_eq(ids[i].as_str(), "all") {
            return false;
        }
        i = i + 1;
    }
    true
}

impl AskRequest {
    /// The request as JSON.
    pub fn into_json(self) -> (r: Json)
        ensures
            r@ == ask_request_view(self),
    {
        let mut m = empty_members();
        push_member(&mut m, "query", Json::Str(self.query));
        let scope = match &self.dataset_ids {
            Some(v) => if everything_scope(v) {
                None
            } else {
                Some(strings_json(v))
            },
            None => None,
        };
        push_opt(&mut m, "dataset_ids", scope);
        push_opt(&mut m, "top_k", opt_u32_json(self.top_k));
        let h = match &self.conversation_history {
            Some(h) => Some(history_json(h)),
            None => None,
        };
        push_opt(&mut m, "conversation_history", h);
        push_member(&mut m, "stream", Json::Bool(self.stream));
        push_opt(&mut m, "include_sources", opt_bool_json(self.include_sources));
        object(m)
    }
}

/// Body for creating an intelligence session.
#[derive(Debug, Default)]
pub struct CreateSessionRequest {
    pub title: Option<String>,
    pub workspace_id: Option<String>,
    pub dataset_id: Option<String>,
    pub metadata: Option<Members>,
}

/// The JSON body of a create-session request: each field only when set.
pub open spec fn create_session_view(r: CreateSessionRequest) -> JsonV {
    let m = with_opt(seq![], "title"@, opt_str_view(r.title));
    let m = with_opt(m, "workspace_id"@, opt_str_view(r.workspace_id));
    let m = with_opt(m, "dataset_id"@, opt_str_view(r.dataset_id));
    JsonV::Object(with_opt(m, "metadata"@, opt_members_view(r.metadata)))
}

impl CreateSessionRequest {
    /// An empty session request.
    pub fn untitled() -> (r: Self)
        ensures
            r == (CreateSessionRequest {
                title: None,
                workspace_id: None,
                dataset_id: None,
                metadata: None,
            }),
    {
        CreateSessionRequest { title: None, workspace_id: None, dataset_id: None, metadata: None }
    }

    /// A session request carrying only a title.
    pub fn titled(title: String) -> (r: Self)
        ensures
            r == (CreateSessionRequest {
                title: Some(title),
                workspace_id: None,
                dataset_id: None,
                metadata: None,
            }),
    {
        CreateSessionRequest {
            title: Some(title),
            workspace_id: None,
            dataset_id: None,
            metadata: None,
        }
    }

    /// The request as JSON.
    pub fn into_json(self) -> (r: Json)
        ensures
            r@ == create_session_view(self),
    {
        let mut m = empty_members();
        push_opt(&mut m, "title", opt_string_json(self.title));
        push_opt(&mut m, "workspace_id", opt_string_json(self.workspace_id));
        push_opt(&mut m, "dataset_id", opt_string_json(self.dataset_id));
        push_opt(&mut m, "metadata", opt_members_json(self.metadata));
        object(m)
    }
}

impl vstd::std_specs::convert::FromSpecImpl<String> for CreateSessionRequest {
    open spec fn obeys_from_spec() -> bool {
        true
    }

    open spec fn from_spec(v: String) -> Self {
        CreateSessionRequest { title: Some(v), workspace_id: None, dataset_id: None, metadata: None }
    }
}

impl From<String> for CreateSessionRequest {
    fn from(title: String) -> (r: Self) {
        CreateSessionRequest::titled(title)
    }
}

impl<'a> vstd::std_specs::convert::FromSpecImpl<&'a str> for CreateSessionRequest {
    /// No `String` can be written in a spec, so the conversion is described
    /// by the `ensures` of `from` below instead.
    open spec fn obeys_from_spec() -> bool {
        false
    }

    open spec fn from_spec(v: &'a str) -> Self {
        CreateSessionRequest { title: None, workspace_id: None, dataset_id: None, metadata: None }
    }
}

impl<'a> From<&'a str> for CreateSessionRequest {
    /// A session request with the title `title` and nothing else.
    fn from(title: &'a str) -> (r: Self)
        ensures
            r.title matches Some(t) && t@ == title@,
            r.workspace_id is None && r.dataset_id is None && r.metadata is None,
    {
        CreateSessionRequest::titled(title.to_string())
    }
}

impl vstd::std_specs::convert::FromSpecImpl<()> for CreateSessionRequest {
    open spec fn obeys_from_spec() -> bool {
        true
    }

    open spec fn from_spec(v: ()) -> Self {
        CreateSessionRequest { title: None, workspace_id: None, dataset_id: None, metadata: None }
    }
}

impl From<()> for CreateSessionRequest {
    fn from(v: ()) -> (r: Self) {
        CreateSessionRequest::untitled()
    }
}

/// Body for appending a message to an intelligence session.
#[derive(Debug, Default)]
pub struct AppendMessageRequest {
    pub role: String,
    pub content: String,
    pub metadata: Option<Members>,
}

/// The JSON body of an append-message request.
pub open spec fn append_message_view(r: AppendMessageRequest) -> JsonV {
    JsonV::Object(
        with_opt(
            seq![("role"@, JsonV::Str(r.role@))].push(("content"@, JsonV::Str(r.content@))),
            "metadata"@,
            opt_members_view(r.metadata),
        ),
    )
}

impl AppendMessageRequest {
    /// The request as JSON.
    pub fn into_json(self) -> (r: Json)
        ensures
            r@ == append_message_view(self),
    {
        let mut m = empty_members();
        push_member(&mut m, "role", Json::Str(self.role));
        push_member(&mut m, "content", Json::Str(self.content));
        push_opt(&mut m, "metadata", opt_members_json(self.metadata));
        object(m)
    }
}

// ---------------------------------------------------------------------------
// Documents.

/// Cursor pagination options for dataset document listing.
#[derive(Debug, Default, Clone)]
pub struct DocumentListOpts {
    pub limit: Option<u32>,
    pub cursor: Option<String>,
    pub status: Option<String>,
}

/// Source/original document metadata returned by the dataset document catalog.
#[derive(Debug, Default, Clone)]
pub struct DatasetDocument {
    pub id: String,
    pub dataset_id: Option<String>,
    pub source_id: Option<String>,
    pub source_type: Option<String>,
    pub external_id: Option<String>,
    pub file_name: Option<String>,
    pub mime_type: Option<String>,
    pub size_bytes: Option<i64>,
    pub content_hash: Option<String>,
    pub status: Option<String>,
    pub version: Option<i32>,
    pub chunk_count: Option<i32>,
    pub embeddings_count: Option<i32>,
    pub download_available: bool,
    pub created_at: Option<String>,
    pub updated_at: Option<String>,
}

/// Cursor-paginated dataset document list.
#[derive(Debug, Default, Clone)]
pub struct DatasetDocumentList {
    pub documents: Vec<DatasetDocument>,
    pub next_cursor: Option<String>,
    pub limit: Option<u32>,
}

// ---------------------------------------------------------------------------
// Schedules.

/// Body for creating an ingestion schedule.
#[derive(Debug, Default)]
pub struct CreateScheduleRequest {
    pub source_id: String,
    pub dataset_id: String,
    pub cron: String,
    pub timezone: Option<String>,
    pub pipeline_id: Option<String>,
    pub enabled: Option<bool>,
    pub name: Option<String>,
    pub metadata: Option<Members>,
}

/// The JSON body of a create-schedule request.
pub open spec fn create_schedule_view(r: CreateScheduleRequest) -> JsonV {
    let m = seq![("source_id"@, JsonV::Str(r.source_id@))].push(
        ("dataset_id"@, JsonV::Str(r.dataset_id@)),
    ).push(("cron"@, JsonV::Str(r.cron@)));
    let m = with_opt(m, "timezone"@, opt_str_view(r.timezone));
    let m = with_opt(m, "pipeline_id"@, opt_str_view(r.pipeline_id));
    let m = with_opt(m, "enabled"@, opt_bool_view(r.enabled));
    let m = with_opt(m, "name"@, opt_str_view(r.name));
    JsonV::Object(with_opt(m, "metadata"@, opt_members_view(r.metadata)))
}

impl CreateScheduleRequest {
    /// The request as JSON.
    pub fn into_json(self) -> (r: Json)
        ensures
            r@ == create_schedule_view(self),
    {
        let mut m = empty_members();
        push_member(&mut m, "source_id", Json::Str(self.source_id));
        push_member(&mut m, "dataset_id", Json::Str(self.dataset_id));
        push_member(&mut m, "cron", Json::Str(self.cron));
        push_opt(&mut m, "timezone", opt_string_json(self.timezone));
        push_opt(&mut m, "pipeline_id", opt_string_json(self.pipeline_id));
        push_opt(&mut m, "enabled", opt_bool_json(self.enabled));
        push_opt(&mut m, "name", opt_string_json(self.name));
        push_opt(&mut m, "metadata", opt_members_json(self.metadata));
        object(m)
    }
}

/// Body for updating an ingestion schedule. Only set fields are sent.
#[derive(Debug, Default)]
pub struct UpdateScheduleRequest {
    pub cron: Option<String>,
    pub timezone: Option<String>,
    pub pipeline_id: Option<String>,
    pub enabled: Option<bool>,
    pub name: Option<String>,
    pub metadata: Option<Members>,
}

/// The JSON body of an update-schedule request: only the set fields.
pub open spec fn update_schedule_view(r: UpdateScheduleRequest) -> JsonV {
    let m = with_opt(seq![], "cron"@, opt_str_view(r.cron));
    let m = with_opt(m, "timezone"@, opt_str_view(r.timezone));
    let m = with_opt(m, "pipeline_id"@, opt_str_view(r.pipeline_id));
    let m = with_opt(m, "enabled"@, opt_bool_view(r.enabled));
    let m = with_opt(m, "name"@, opt_str_view(r.name));
    JsonV::Object(with_opt(m, "metadata"@, opt_members_view(r.metadata)))
}

impl UpdateScheduleRequest {
    /// The request as JSON.
    pub fn into_json(self) -> (r: Json)
        ensures
            r@ == update_schedule_view(self),
    {
        let mut m = empty_members();
        push_opt(&mut m, "cron", opt_string_json(self.cron));
        push_opt(&mut m, "timezone", opt_string_json(self.timezone));
        push_opt(&mut m, "pipeline_id", opt_string_json(self.pipeline_id));
        push_opt(&mut m, "enabled", opt_bool_json(self.enabled));
        push_opt(&mut m, "name", opt_string_json(self.name));
        push_opt(&mut m, "metadata", opt_members_json(self.metadata));
        object(m)
    }
}

/// Response from an immediate schedule trigger.
#[derive(Debug, Default, Clone)]
pub struct TriggerScheduleResponse {
    pub job_id: Option<String>,
}

} // verus!
