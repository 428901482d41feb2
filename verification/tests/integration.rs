use vectoramp::datasets::{
    self, AddTextsInput, Pagination, SearchInput, SearchOptions,
};
use vectoramp::errors::{ensure_success, Error, ErrorBody};
use vectoramp::intelligence::{self, AskOptions};
use vectoramp::json::{get_member, Json, Members};
use vectoramp::sources::{
    ConfluenceSource, FileUploadSource, IntoCreateSourceRequest, S3Source, WebSource,
};
use vectoramp::stream::{decode_event, AskStream, StreamPayload, StreamStep};
use vectoramp::client::{headers_for, request_url, resolve_config};
use vectoramp::sources::sanitize;
use vectoramp::transport::{join_path, Request};
use vectoramp::datasets::{add_texts_start, add_texts_step, AddTextsAction, AddTextsEvent};
use vectoramp::ingestion::{upload_start, upload_step, UploadAction, UploadEvent};
use vectoramp::types::{InitUploadResponse, Job, Source, UploadTarget};
use vectoramp::types::{
    AppendMessageRequest, CreateDatasetRequest, CreateScheduleRequest, CreateSessionRequest,
    EmbedResponse, EmbeddingConfig, InsertVectorsResponse, Rerank, RerankConfig,
    UpdateScheduleRequest, Vector, VectorId,
};
use vectoramp::{ingestion, schedules, secrets};

fn member<'a>(j: &'a Json, key: &str) -> Option<&'a Json> {
    match j {
        Json::Object(m) => get_member(m, key),
        _ => None,
    }
}

fn field<'a>(j: &'a Json, key: &str) -> &'a Json {
    member(j, key).unwrap_or_else(|| panic!("missing member {key}"))
}

fn text(j: &Json) -> &str {
    match j {
        Json::Str(s) => s.as_str(),
        other => panic!("expected a string, got {other:?}"),
    }
}

fn integer(j: &Json) -> i128 {
    match j {
        Json::Int(i) => *i,
        other => panic!("expected an integer, got {other:?}"),
    }
}

fn boolean(j: &Json) -> bool {
    match j {
        Json::Bool(b) => *b,
        other => panic!("expected a bool, got {other:?}"),
    }
}

fn items(j: &Json) -> &Vec<Json> {
    match j {
        Json::Array(v) => v,
        other => panic!("expected an array, got {other:?}"),
    }
}

fn config_member<'a>(m: &'a Members, key: &str) -> &'a Json {
    get_member(m, key).unwrap_or_else(|| panic!("missing config member {key}"))
}

fn body(r: &Request) -> &Json {
    r.body.as_ref().expect("json body")
}

fn query_has(r: &Request, key: &str, value: &str) -> bool {
    r.query.iter().any(|(k, v)| k == key && v == value)
}

fn bits(v: &[f64]) -> Vec<u64> {
    v.iter().map(|x| x.to_bits()).collect()
}

fn create(req: CreateDatasetRequest) -> Request {
    match datasets::create_request(req) {
        Ok(r) => r,
        Err(e) => panic!("dataset request refused: {e:?}"),
    }
}

#[test]
fn create_dataset_always_sends_sable_index_type() {
    let r = create(CreateDatasetRequest {
        name: "docs".into(),
        dim: Some(8),
        metric: Some("cosine".into()),
        ..Default::default()
    });
    assert_eq!(r.method, "POST");
    assert_eq!(r.path, "/datasets");
    let b = body(&r);
    assert_eq!(text(field(b, "index_type")), "sable");
    assert_eq!(integer(field(b, "dim")), 8);
    assert!(member(b, "dimension").is_none());
}

#[test]
fn create_dataset_minimal_name_only_infers_defaults() {
    let r = create(CreateDatasetRequest::from("docs".to_string()));
    let b = body(&r);
    assert_eq!(text(field(b, "name")), "docs");
    assert_eq!(text(field(b, "index_type")), "sable");
    assert_eq!(integer(field(b, "dim")), 2560);
    assert_eq!(text(field(b, "metric")), "cosine");
    assert_eq!(text(field(field(b, "embedding"), "provider")), "vectoramp");
    assert_eq!(text(field(field(b, "embedding"), "model")), "VectorAmp-Embedding-4B");
    assert!(member(b, "hybrid").is_none());
}

#[test]
fn create_dataset_hybrid_sends_hybrid_flag() {
    let r = create(CreateDatasetRequest::from(
        CreateDatasetRequest::builder("docs".to_string()).hybrid(true),
    ));
    let b = body(&r);
    assert!(boolean(field(b, "hybrid")));
    assert_eq!(text(field(b, "index_type")), "sable");
    assert_eq!(integer(field(b, "dim")), 2560);
}

#[test]
fn create_dataset_openai_large_infers_3072() {
    let r = create(CreateDatasetRequest::from(
        CreateDatasetRequest::builder("docs".to_string()).openai("large"),
    ));
    let b = body(&r);
    assert_eq!(integer(field(b, "dim")), 3072);
    assert_eq!(text(field(field(b, "embedding"), "provider")), "openai");
    assert_eq!(text(field(field(b, "embedding"), "model")), "text-embedding-3-large");
}

#[test]
fn create_dataset_unknown_model_without_dim_errors() {
    let req = CreateDatasetRequest::builder("docs".to_string())
        .embedding(EmbeddingConfig {
            provider: Some("acme".into()),
            model: Some("acme-embed-9000".into()),
            ..Default::default()
        })
        .build();
    match datasets::create_request(req) {
        Err(Error::InvalidInput(msg)) => assert!(msg.contains("dim")),
        Err(other) => panic!("expected invalid input error, got {other:?}"),
        Ok(_) => panic!("expected error for unknown model without dim, got ok"),
    }
}

#[test]
fn explicit_dim_wins_over_inference() {
    let r = create(
        CreateDatasetRequest::builder("docs".to_string())
            .embedding(EmbeddingConfig {
                provider: Some("acme".into()),
                model: Some("acme-embed-9000".into()),
                ..Default::default()
            })
            .dim(77)
            .build(),
    );
    assert_eq!(integer(field(body(&r), "dim")), 77);
}

#[test]
fn embedding_dimensions_are_inferred_for_known_models() {
    assert_eq!(vectoramp::types::infer_embedding_dim(None, None), None);
    assert_eq!(
        vectoramp::types::infer_embedding_dim(None, Some("text-embedding-3-large")),
        Some(3072)
    );
    assert_eq!(
        vectoramp::types::infer_embedding_dim(Some("vectoramp"), Some("VectorAmp-Embedding-4B")),
        Some(2560)
    );
    assert_eq!(
        vectoramp::types::infer_embedding_dim(Some("openai"), Some("text-embedding-3-small")),
        Some(1536)
    );
    assert_eq!(
        vectoramp::types::infer_embedding_dim(Some("openai"), Some("text-embedding-3-large")),
        Some(3072)
    );
    assert_eq!(vectoramp::types::infer_embedding_dim(Some("acme"), Some("x")), None);
}

#[test]
fn search_defaults_top_k_to_10() {
    let r = datasets::search_request(
        "ds_1",
        SearchInput::Text("machine learning".into()),
        SearchOptions::default(),
    );
    assert_eq!(r.method, "POST");
    assert_eq!(r.path, "/datasets/ds_1/search");
    let b = body(&r);
    assert_eq!(integer(field(b, "top_k")), 10);
    assert_eq!(text(field(b, "query_text")), "machine learning");
}

#[test]
fn search_with_options_overrides_top_k() {
    let r = datasets::search_request(
        "ds_1",
        SearchInput::Vector(bits(&[0.1, 0.2, 0.3])),
        SearchOptions {
            top_k: Some(25),
            include_metadata: Some(false),
            rerank: Some(Rerank::Config(RerankConfig { enabled: true, ..Default::default() })),
            ..Default::default()
        },
    );
    let b = body(&r);
    assert_eq!(integer(field(b, "top_k")), 25);
    assert!(!boolean(field(b, "include_metadata")));
    let q: Vec<u64> = items(field(b, "query"))
        .iter()
        .map(|j| match j {
            Json::Float(x) => *x,
            other => panic!("expected a number, got {other:?}"),
        })
        .collect();
    assert_eq!(q, bits(&[0.1, 0.2, 0.3]));
    let rerank = field(b, "rerank");
    assert!(boolean(field(rerank, "enabled")));
    match rerank {
        Json::Object(m) => assert_eq!(m.len(), 1),
        other => panic!("expected an object, got {other:?}"),
    }
}

#[test]
fn search_top_k_zero_becomes_default() {
    let r = datasets::search_request(
        "ds_1",
        SearchInput::Text("q".into()),
        SearchOptions { top_k: Some(0), ..Default::default() },
    );
    assert_eq!(integer(field(body(&r), "top_k")), 10);
}

#[test]
fn rerank_switch_expands_to_full_object() {
    let r = datasets::search_request(
        "ds_1",
        SearchInput::Text("q".into()),
        SearchOptions::default().with_rerank(true),
    );
    let rerank = field(body(&r), "rerank");
    assert!(boolean(field(rerank, "enabled")));
    assert_eq!(text(field(rerank, "provider")), "vectoramp");
    assert_eq!(text(field(rerank, "model")), "VectorAmp-Rerank-v1");

    let off = datasets::search_request(
        "ds_1",
        SearchInput::Text("q".into()),
        SearchOptions::default().with_rerank(false),
    );
    assert!(!boolean(field(body(&off), "rerank")));

    let cfg = datasets::search_request(
        "ds_1",
        SearchInput::Text("q".into()),
        SearchOptions::default().with_rerank_config(RerankConfig {
            enabled: true,
            model: Some("m".into()),
            ..Default::default()
        }),
    );
    let rerank = field(body(&cfg), "rerank");
    assert_eq!(text(field(rerank, "model")), "m");
    assert!(member(rerank, "provider").is_none());
}

#[test]
fn add_texts_embeds_then_inserts() {
    let docs = datasets::text_documents(AddTextsInput::from(vec![
        "hello".to_string(),
        "world".to_string(),
    ]));
    let embed = datasets::embed_request(
        "ds_1",
        datasets::embed_texts(&docs, datasets::AddTextsOptions::default()),
    );
    assert_eq!(embed.method, "POST");
    assert_eq!(embed.path, "/datasets/ds_1/embed");
    let embeddings = datasets::embeddings_of(EmbedResponse {
        embeddings: vec![bits(&[0.1, 0.2]), bits(&[0.3, 0.4])],
        embedding: None,
    });
    let count = embeddings.len();
    let vectors = datasets::text_vectors(docs, &embeddings);
    let insert = datasets::insert_request("ds_1", vectors);
    assert_eq!(insert.path, "/datasets/ds_1/insert");
    let vs = items(field(body(&insert), "vectors"));
    assert_eq!(vs.len(), 2);
    assert_eq!(text(field(&vs[0], "id")), "text-1");
    assert_eq!(text(field(&vs[1], "id")), "text-2");
    assert_eq!(text(field(field(&vs[0], "metadata"), "text")), "hello");

    let resp = datasets::add_texts_result(InsertVectorsResponse { inserted: 2 }, count);
    assert_eq!(resp.inserted, 2);
    assert_eq!(resp.embeddings, 2);
}

#[test]
fn add_texts_keeps_a_text_already_in_metadata() {
    let doc = vectoramp::types::TextDocument {
        id: VectorId::from("d".to_string()),
        text: "body".into(),
        metadata: Some(vec![("text".to_string(), Json::Str("kept".into()))]),
    };
    let vectors = datasets::text_vectors(vec![doc], &vec![]);
    let m = vectors[0].metadata.as_ref().expect("metadata");
    assert_eq!(m.len(), 1);
    assert_eq!(text(config_member(m, "text")), "kept");
    assert!(vectors[0].values.is_empty());
}

#[test]
fn single_embedding_response_is_used_when_list_is_empty() {
    let e = datasets::embeddings_of(EmbedResponse {
        embeddings: vec![],
        embedding: Some(bits(&[1.0])),
    });
    assert_eq!(e, vec![bits(&[1.0])]);
}

#[test]
fn ask_helper_targets_intelligence_endpoint() {
    let r = intelligence::ask_request("What is VectorAmp?".into(), AskOptions::default(), false);
    assert_eq!(r.method, "POST");
    assert_eq!(r.path, "/intelligence/query");
    let b = body(&r);
    assert_eq!(text(field(b, "query")), "What is VectorAmp?");
    assert!(!boolean(field(b, "stream")));
    assert_eq!(integer(field(b, "top_k")), 5);
    assert!(boolean(field(b, "include_sources")));
    assert!(member(b, "dataset_ids").is_none());
    assert!(!r.stream);
}

#[test]
fn ask_scope_widens_and_clears() {
    let o = AskOptions::default()
        .with_dataset("a".into())
        .with_dataset("b".into())
        .with_datasets(vec!["c".into()]);
    let r = intelligence::ask_request("q".into(), o.clone(), false);
    let ids: Vec<&str> = items(field(body(&r), "dataset_ids")).iter().map(text).collect();
    assert_eq!(ids, vec!["a", "b", "c"]);

    let all = intelligence::ask_request("q".into(), o.with_all_datasets(), false);
    assert!(member(body(&all), "dataset_ids").is_none());

    let only_all = intelligence::ask_request(
        "q".into(),
        AskOptions::default().with_dataset("all".into()),
        false,
    );
    assert!(member(body(&only_all), "dataset_ids").is_none());

    let tuned = intelligence::ask_request(
        "q".into(),
        AskOptions::default().with_top_k(9).with_sources(false),
        false,
    );
    assert_eq!(integer(field(body(&tuned), "top_k")), 9);
    assert!(!boolean(field(body(&tuned), "include_sources")));
}

#[test]
fn api_error_reports_status_and_message() {
    let r = datasets::get_request("missing");
    assert_eq!(r.method, "GET");
    assert_eq!(r.path, "/datasets/missing");
    let raw = br#"{"error":"not found"}"#.to_vec();
    let parsed = ErrorBody { error: Some("not found".into()), ..Default::default() };
    match ensure_success(404, vec![], raw, Some(&parsed)) {
        Err(Error::Api(api)) => {
            assert_eq!(api.status, 404);
            assert_eq!(api.message, "not found");
        }
        Err(other) => panic!("expected api error, got {other:?}"),
        Ok(_) => panic!("expected error, got ok"),
    }
}

#[test]
fn api_error_message_falls_back_through_fields_and_body() {
    let msg = ErrorBody { message: Some("bad".into()), detail: Some("worse".into()), ..Default::default() };
    assert_eq!(vectoramp::errors::extract_message(Some(&msg)), Some("bad".to_string()));
    let detail = ErrorBody { detail: Some("worse".into()), ..Default::default() };
    assert_eq!(vectoramp::errors::extract_message(Some(&detail)), Some("worse".to_string()));
    assert_eq!(vectoramp::errors::extract_message(Some(&ErrorBody::default())), None);
    assert_eq!(vectoramp::errors::extract_message(None), None);
    let e = vectoramp::errors::ApiError::from_parts(
        400,
        vec![],
        br#"{"error":"a","error":"b"}"#.to_vec(),
        None,
    );
    assert_eq!(e.message, r#"{"error":"a","error":"b"}"#);

    let e = vectoramp::errors::ApiError::from_parts(500, vec![], b"  upstream down \n".to_vec(), None);
    assert_eq!(e.message, "upstream down");
    let long = vec![b'x'; 600];
    let e = vectoramp::errors::ApiError::from_parts(502, vec![], long, None);
    assert_eq!(e.message.len(), 512);

    match ensure_success(204, vec![], b"ok".to_vec(), None) {
        Ok(b) => assert_eq!(b, b"ok".to_vec()),
        Err(e) => panic!("expected success, got {e:?}"),
    }
}

#[test]
fn web_source_builds_default_name_from_first_url() {
    let req = WebSource {
        start_urls: vec!["https://docs.example.com/guide".into()],
        max_depth: Some(2),
        ..Default::default()
    }
    .into_create_source_request();
    assert_eq!(req.source_type, "web");
    assert_eq!(req.name, "web-docs-example-com");
    assert_eq!(integer(config_member(&req.config, "max_depth")), 2);
}

#[test]
fn web_source_without_urls_uses_fallback_name() {
    let req = WebSource::default().into_create_source_request();
    assert_eq!(req.name, "rust-sdk-web-source");
}

#[test]
fn s3_source_uses_default_sync_mode_and_bucket_name() {
    let req = S3Source { bucket: "My-Bucket".into(), ..Default::default() }
        .into_create_source_request();
    assert_eq!(req.source_type, "s3");
    assert_eq!(req.name, "s3-my-bucket");
    assert_eq!(text(config_member(&req.config, "sync_mode")), "incremental");
}

#[test]
fn schedules_crud_and_trigger() {
    let list = schedules::list_request(Pagination::from((10u32, 0u32)));
    assert_eq!(list.method, "GET");
    assert_eq!(list.path, "/ingestion/schedules");
    assert!(query_has(&list, "limit", "10"));
    assert!(!list.query.iter().any(|(k, _)| k == "offset"));

    let get = schedules::get_request("sch_1");
    assert_eq!(get.method, "GET");
    assert_eq!(get.path, "/ingestion/schedules/sch_1");

    let created = schedules::create_request(CreateScheduleRequest {
        source_id: "src_1".into(),
        dataset_id: "ds_1".into(),
        cron: "0 0 * * *".into(),
        timezone: Some("UTC".into()),
        ..Default::default()
    });
    assert_eq!(created.method, "POST");
    assert_eq!(created.path, "/ingestion/schedules");
    assert_eq!(text(field(body(&created), "cron")), "0 0 * * *");
    assert_eq!(text(field(body(&created), "timezone")), "UTC");
    assert!(member(body(&created), "enabled").is_none());

    let updated = schedules::update_request(
        "sch_2",
        UpdateScheduleRequest { enabled: Some(false), ..Default::default() },
    );
    assert_eq!(updated.method, "PATCH");
    assert_eq!(updated.path, "/ingestion/schedules/sch_2");
    assert!(!boolean(field(body(&updated), "enabled")));

    let deleted = schedules::delete_request("sch_2");
    assert_eq!(deleted.method, "DELETE");
    assert_eq!(deleted.path, "/ingestion/schedules/sch_2");

    let trig = schedules::trigger_request("sch_1");
    assert_eq!(trig.method, "POST");
    assert_eq!(trig.path, "/ingestion/schedules/sch_1/trigger");
}

#[test]
fn file_upload_source_defaults() {
    let req = FileUploadSource::default().into_create_source_request();
    assert_eq!(req.source_type, "file_upload");
    assert_eq!(req.name, "rust-sdk-file-upload");
    assert_eq!(text(config_member(&req.config, "storage_provider")), "s3");
    assert_eq!(text(config_member(&req.config, "sync_mode")), "full");
}

#[test]
fn confluence_source_builds_config_and_default_name() {
    let req = ConfluenceSource {
        base_url: Some("https://acme.atlassian.net".into()),
        username: Some("bot@acme.com".into()),
        api_token: Some("token".into()),
        spaces: vec!["ENG".into(), "DOCS".into()],
        ..Default::default()
    }
    .into_create_source_request();

    assert_eq!(req.source_type, "confluence");
    assert_eq!(text(config_member(&req.config, "type")), "confluence");
    assert_eq!(text(config_member(&req.config, "auth_mode")), "basic");
    assert_eq!(text(config_member(&req.config, "sync_mode")), "incremental");
    assert!(!boolean(config_member(&req.config, "include_attachments")));
    assert_eq!(text(config_member(&req.config, "base_url")), "https://acme.atlassian.net");
    assert_eq!(text(config_member(&req.config, "username")), "bot@acme.com");
    let spaces: Vec<&str> = items(config_member(&req.config, "spaces")).iter().map(text).collect();
    assert_eq!(spaces, vec!["ENG", "DOCS"]);
    assert_eq!(req.name, "confluence-eng");
}

#[test]
fn confluence_source_name_falls_back_to_host_then_cloud_id() {
    let from_host = ConfluenceSource {
        base_url: Some("https://acme.atlassian.net".into()),
        ..Default::default()
    }
    .into_create_source_request();
    assert_eq!(from_host.name, "confluence-acme-atlassian-net");

    let from_cloud = ConfluenceSource { cloud_id: Some("cloud-123".into()), ..Default::default() }
        .into_create_source_request();
    assert_eq!(from_cloud.name, "confluence-cloud-123");
}

#[test]
fn create_confluence_source_posts_to_ingestion_sources() {
    let r = ingestion::create_source_request(ConfluenceSource {
        cloud_id: Some("cloud-1".into()),
        spaces: vec!["ENG".into()],
        ..Default::default()
    });
    assert_eq!(r.method, "POST");
    assert_eq!(r.path, "/ingestion/sources");
    let b = body(&r);
    assert_eq!(text(field(b, "name")), "confluence-eng");
    assert_eq!(text(field(b, "source_type")), "confluence");
    assert_eq!(text(field(field(b, "config"), "cloud_id")), "cloud-1");

    let created = Source { id: Some("src_conf".into()), ..Default::default() };
    assert_eq!(created.identifier(), Some("src_conf"));
}

#[test]
fn source_id_falls_back_to_source_id_then_uuid() {
    let s = Source { uuid: Some("u-1".into()), ..Default::default() };
    match ingestion::source_id_of(&s) {
        Ok(id) => assert_eq!(id, "u-1"),
        Err(e) => panic!("expected an id, got {e:?}"),
    }
    let none = Source::default();
    match ingestion::source_id_of(&none) {
        Err(Error::InvalidInput(m)) => {
            assert_eq!(m, "source response did not include id, source_id, or uuid")
        }
        other => panic!("expected invalid input, got {other:?}"),
    }
}

#[test]
fn insert_uses_insert_endpoint_and_preserves_numeric_ids() {
    let r = datasets::insert_request(
        "ds_1",
        vec![
            Vector::new(VectorId::from(42), bits(&[0.1, 0.2])),
            Vector::new(VectorId::from("doc-9"), bits(&[0.3, 0.4])),
        ],
    );
    assert_eq!(r.method, "POST");
    assert_eq!(r.path, "/datasets/ds_1/insert");
    let vs = items(field(body(&r), "vectors"));
    assert_eq!(integer(field(&vs[0], "id")), 42);
    assert_eq!(text(field(&vs[1], "id")), "doc-9");
}

#[test]
fn vector_id_serializes_int_as_number_and_str_as_string() {
    assert_eq!(integer(&VectorId::Int(7).to_json()), 7);
    assert_eq!(text(&VectorId::from("abc").to_json()), "abc");
    let from_u64: VectorId = 99u64.into();
    assert_eq!(integer(&from_u64.to_json()), 99);
    assert_eq!(VectorId::Int(-5).to_string(), "-5");
    assert_eq!(VectorId::default(), VectorId::Str(String::new()));
    assert_eq!(text(&VectorId::from("owned".to_string()).to_json()), "owned");
    assert_eq!(Vector::default().id, VectorId::Str(String::new()));
}

#[test]
fn list_datasets_defaults_pagination() {
    let r = datasets::list_request(Pagination::from(()));
    assert_eq!(r.method, "GET");
    assert_eq!(r.path, "/datasets");
    assert!(query_has(&r, "limit", "50"));
    assert!(!r.query.iter().any(|(k, _)| k == "offset"));

    let bare_limit = datasets::list_request(Pagination::from(7u32));
    assert!(query_has(&bare_limit, "limit", "7"));
    let paged = datasets::list_request(Pagination::new(5, 20));
    assert!(query_has(&paged, "limit", "5"));
    assert!(query_has(&paged, "offset", "20"));
}

#[test]
fn intelligence_sessions_lifecycle() {
    let created = intelligence::create_session_request(CreateSessionRequest::from(
        "Launch planning".to_string(),
    ));
    assert_eq!(created.method, "POST");
    assert_eq!(created.path, "/intelligence/sessions");
    assert_eq!(text(field(body(&created), "title")), "Launch planning");

    let list = intelligence::list_sessions_request(Pagination::from(()));
    assert_eq!(list.method, "GET");
    assert_eq!(list.path, "/intelligence/sessions");

    let one = intelligence::get_session_request("sess_1");
    assert_eq!(one.path, "/intelligence/sessions/sess_1");

    let msg = intelligence::append_message_request(
        "sess_1",
        AppendMessageRequest { role: "user".into(), content: "Hello".into(), metadata: None },
    );
    assert_eq!(msg.method, "POST");
    assert_eq!(msg.path, "/intelligence/sessions/sess_1/messages");
    assert_eq!(text(field(body(&msg), "role")), "user");
    assert_eq!(text(field(body(&msg), "content")), "Hello");

    let msgs = intelligence::list_messages_request("sess_1", Pagination::from(()));
    assert_eq!(msgs.method, "GET");
    assert_eq!(msgs.path, "/intelligence/sessions/sess_1/messages");
}

fn chunk_payload() -> StreamPayload {
    StreamPayload { chunk_type: "text".into(), content: "Hi".into(), metadata: None }
}

#[test]
fn dataset_ask_stream_scopes_by_dataset_ids_and_decodes_events() {
    let r = intelligence::ask_request(
        "hello".into(),
        intelligence::scoped_to("ds_1", AskOptions::default()),
        true,
    );
    assert!(r.stream);
    assert_eq!(r.path, "/intelligence/query");
    let b = body(&r);
    assert!(boolean(field(b, "stream")));
    let ids: Vec<&str> = items(field(b, "dataset_ids")).iter().map(text).collect();
    assert_eq!(ids, vec!["ds_1"]);

    let sse = "event: chunk\ndata: {\"chunk_type\":\"text\",\"content\":\"Hi\"}\n\n";
    let mut stream = AskStream::new();
    stream.push_chunk(sse.as_bytes());
    let mut out = String::new();
    loop {
        match stream.poll_event() {
            StreamStep::Event(raw) => {
                assert_eq!(raw.event, "chunk");
                assert_eq!(raw.data, "{\"chunk_type\":\"text\",\"content\":\"Hi\"}");
                let event = decode_event(raw, Some(chunk_payload()));
                if event.chunk_type == "text" {
                    out.push_str(&event.content);
                }
            }
            StreamStep::NeedInput => stream.end_of_input(),
            StreamStep::End => break,
        }
    }
    assert_eq!(out, "Hi");
}

#[test]
fn stream_events_do_not_depend_on_chunk_boundaries() {
    let sse = "event: chunk\r\ndata: one\ndata: two\n\n: comment\ndata: last";
    for cut in 0..sse.len() {
        let mut stream = AskStream::new();
        stream.push_chunk(&sse.as_bytes()[..cut]);
        let mut events = Vec::new();
        let mut pushed_rest = false;
        loop {
            match stream.poll_event() {
                StreamStep::Event(e) => events.push((e.event, e.data)),
                StreamStep::NeedInput => {
                    if pushed_rest {
                        stream.end_of_input();
                    } else {
                        stream.push_chunk(&sse.as_bytes()[cut..]);
                        pushed_rest = true;
                    }
                }
                StreamStep::End => break,
            }
        }
        assert_eq!(
            events,
            vec![
                ("chunk".to_string(), "one\ntwo".to_string()),
                (String::new(), "last".to_string()),
            ],
            "cut at {cut}"
        );
    }
}

#[test]
fn unreadable_payload_keeps_raw_bytes_only() {
    let raw = vectoramp::stream::RawEvent { event: "e".into(), data: "not json".into() };
    let event = decode_event(raw, None);
    assert_eq!(event.event, "e");
    assert_eq!(event.chunk_type, "");
    assert_eq!(event.content, "");
    assert!(event.metadata.is_none());
    assert_eq!(event.raw, b"not json".to_vec());
}

#[test]
fn delete_vectors_sends_ids_and_write_concern() {
    let ids = vec![VectorId::from("doc-1"), VectorId::from(42)];
    let r = datasets::delete_vectors_request("ds_1", &ids, Some("majority"));
    assert_eq!(r.method, "DELETE");
    assert_eq!(r.path, "/datasets/ds_1/vectors");
    let b = body(&r);
    let sent = items(field(b, "ids"));
    assert_eq!(text(&sent[0]), "doc-1");
    assert_eq!(integer(&sent[1]), 42);
    assert_eq!(text(field(b, "write_concern")), "majority");

    let plain = datasets::delete_vectors_request("ds_1", &ids, None);
    assert!(member(body(&plain), "write_concern").is_none());
}

#[test]
fn create_with_openai_api_key_puts_secret_then_sets_secret_ref() {
    let secret = secrets::put_request(secrets::OPENAI_API_KEY_SECRET_REF, "sk-test".into());
    assert_eq!(secret.method, "PUT");
    assert_eq!(secret.path, "/org-secrets/emb%3Aopenai%3Aapi_key");
    assert_eq!(text(field(body(&secret), "value")), "sk-test");

    let r = create(datasets::openai_key_dataset("docs".into()));
    assert_eq!(r.path, "/datasets");
    let b = body(&r);
    assert_eq!(text(field(field(b, "embedding"), "provider")), "openai");
    assert_eq!(text(field(field(b, "embedding"), "model")), "text-embedding-3-small");
    assert_eq!(
        text(field(field(b, "embedding"), "secret_ref")),
        vectoramp::secrets::OPENAI_API_KEY_SECRET_REF
    );
    assert_eq!(integer(field(b, "dim")), 1536);
}

#[test]
fn sanitize_lowercases_and_collapses_separators() {
    assert_eq!(sanitize("My-Bucket"), "my-bucket");
    assert_eq!(sanitize("  Hello,  World!! "), "hello-world");
    assert_eq!(sanitize("---"), "source");
    assert_eq!(sanitize(""), "source");
    assert_eq!(sanitize("docs.example.com"), "docs-example-com");
}

#[test]
fn upload_names_and_files() {
    assert_eq!(
        ingestion::default_upload_source_name("My DS", 1_700_000_000),
        "rust-sdk-file-upload-my-ds-1700000000"
    );
    assert_eq!(ingestion::default_upload_source_name("", 12), "rust-sdk-file-upload-12");
    assert_eq!(ingestion::content_type_for("report.pdf"), "application/pdf");
    assert_eq!(ingestion::content_type_for("blob"), "application/octet-stream");
    match ingestion::upload_file(None, "\"/x/..\"", "/x/..", 3) {
        Err(Error::InvalidInput(m)) => assert_eq!(m, "invalid file name: \"/x/..\""),
        other => panic!("expected invalid input, got {other:?}"),
    }
    match ingestion::upload_file(Some("a.txt".into()), "\"a.txt\"", "a.txt", 3) {
        Ok(f) => {
            assert_eq!(f.name, "a.txt");
            assert_eq!(f.size_bytes, 3);
            assert_eq!(f.content_type.as_deref(), Some("text/plain"));
        }
        Err(e) => panic!("expected a file, got {e:?}"),
    }
}

#[test]
fn client_config_resolves_defaults_and_headers() {
    let c = match resolve_config(Some("k".into()), Some("http://localhost:8080//".into()), None) {
        Ok(c) => c,
        Err(e) => panic!("expected a config, got {e:?}"),
    };
    assert_eq!(c.base_url, "http://localhost:8080");
    assert_eq!(c.user_agent, "vectoramp-rust/0.4.0");
    let d = match resolve_config(None, None, None) {
        Ok(c) => c,
        Err(e) => panic!("expected a config, got {e:?}"),
    };
    assert_eq!(d.base_url, "https://api.vectoramp.com");
    assert_eq!(d.api_key, "");
    assert!(matches!(resolve_config(None, Some("not a url".into()), None), Err(Error::Url(_))));

    let r = intelligence::ask_request("q".into(), AskOptions::default(), true);
    let h = headers_for(&c, &r);
    let names: Vec<&str> = h.iter().map(|(k, _)| k.as_str()).collect();
    assert_eq!(names, vec!["user-agent", "x-api-key", "content-type", "accept"]);
    assert_eq!(h[1].1, "k");
    assert_eq!(h[3].1, "text/event-stream");
}

#[test]
fn request_urls_keep_the_base_path_and_append_the_query() {
    let q = vec![("limit".to_string(), "50".to_string()), ("q".to_string(), "a b".to_string())];
    match request_url("https://api.vectoramp.com/v1/", "/datasets", &q) {
        Ok(u) => assert_eq!(u, "https://api.vectoramp.com/v1/datasets?limit=50&q=a+b"),
        Err(e) => panic!("expected a url, got {e:?}"),
    }
    match request_url("https://api.vectoramp.com", "datasets/ds_1", &vec![]) {
        Ok(u) => assert_eq!(u, "https://api.vectoramp.com/datasets/ds_1"),
        Err(e) => panic!("expected a url, got {e:?}"),
    }
    assert!(matches!(request_url("nope", "/x", &vec![]), Err(Error::Url(_))));
}

#[test]
fn paths_join_without_doubled_slashes() {
    assert_eq!(join_path("/api/", "/datasets"), "/api/datasets");
    assert_eq!(join_path("", "datasets"), "/datasets");
    assert_eq!(join_path("/", "//datasets"), "/datasets");
    assert_eq!(secrets::has_request("a b/c").path, "/org-secrets/a%20b%2Fc");
}

#[test]
fn integer_ids_of_every_width_are_sent_exactly() {
    assert_eq!(integer(&VectorId::from(u64::MAX).to_json()), u64::MAX as i128);
    assert_eq!(integer(&VectorId::from(usize::MAX).to_json()), usize::MAX as i128);
    assert_eq!(integer(&VectorId::from(i64::MIN).to_json()), i64::MIN as i128);
    assert_eq!(integer(&VectorId::from(isize::MIN).to_json()), isize::MIN as i128);
    assert_eq!(integer(&VectorId::from(-3i8).to_json()), -3);
    assert_eq!(integer(&VectorId::from(-300i16).to_json()), -300);
    assert_eq!(integer(&VectorId::from(200u8).to_json()), 200);
    assert_eq!(integer(&VectorId::from(60000u16).to_json()), 60000);
    assert_eq!(integer(&VectorId::from(4_000_000_000u32).to_json()), 4_000_000_000);
    assert_eq!(VectorId::from(u64::MAX).to_string(), "18446744073709551615");
    let r = datasets::insert_request("ds_1", vec![Vector::new(VectorId::from(u64::MAX), vec![])]);
    let vs = items(field(body(&r), "vectors"));
    assert_eq!(integer(field(&vs[0], "id")), 18446744073709551615);
}

#[test]
fn string_conversions_build_requests() {
    let r = create(CreateDatasetRequest::from("docs"));
    assert_eq!(text(field(body(&r), "name")), "docs");
    let s = intelligence::create_session_request(CreateSessionRequest::from("Launch planning"));
    assert_eq!(text(field(body(&s), "title")), "Launch planning");
    let q = datasets::search_request("ds_1", SearchInput::from("machine learning"), SearchOptions::default());
    assert_eq!(text(field(body(&q), "query_text")), "machine learning");
    let docs = datasets::text_documents(AddTextsInput::from(vec!["hello", "world"]));
    assert_eq!(docs.len(), 2);
    assert_eq!(docs[1].text, "world");
    let one = datasets::text_documents(AddTextsInput::from("solo"));
    assert_eq!(one.len(), 1);
    assert_eq!(one[0].text, "solo");
}

#[test]
fn sanitizing_twice_changes_nothing() {
    for v in ["My-Bucket", "  Hello,  World!! ", "---", "", "docs.example.com", "ÄÖ x", "a--b"] {
        let once = sanitize(v);
        assert_eq!(sanitize(&once), once, "input {v:?}");
    }
    assert_eq!(sanitize("a--b"), "a-b");
}

#[test]
fn duplicate_names_are_sent_once_with_the_last_value() {
    let req = WebSource {
        start_urls: vec!["https://docs.example.com".into()],
        headers: vec![
            ("X-A".to_string(), "1".to_string()),
            ("X-B".to_string(), "2".to_string()),
            ("X-A".to_string(), "3".to_string()),
        ],
        ..Default::default()
    }
    .into_create_source_request();
    match config_member(&req.config, "headers") {
        Json::Object(m) => {
            assert_eq!(m.len(), 2);
            assert_eq!(m[0].0, "X-A");
            assert_eq!(text(&m[0].1), "3");
        }
        other => panic!("expected an object, got {other:?}"),
    }
    let generic = vectoramp::sources::GenericSource {
        source_type: "custom".into(),
        name: "n".into(),
        config: vec![("k".to_string(), Json::Int(1)), ("k".to_string(), Json::Int(2))],
        ..Default::default()
    }
    .into_create_source_request();
    assert_eq!(generic.config.len(), 1);
    assert_eq!(integer(&generic.config[0].1), 2);
}

#[test]
fn upload_flow_runs_its_steps_in_order() {
    let (state, action) = upload_start("ds_1", Default::default(), 7, 2);
    let req = match action {
        UploadAction::CreateSource(r) => r,
        other => panic!("expected a source creation, got {other:?}"),
    };
    assert_eq!(req.path, "/ingestion/sources");
    assert_eq!(text(field(body(&req), "name")), "rust-sdk-file-upload-ds-1-7");
    let (state, action) =
        upload_step(state, UploadEvent::SourceCreated(Source { id: Some("src_9".into()), ..Default::default() }));
    assert!(matches!(action, UploadAction::Measure(0)));
    let (state, action) = upload_step(
        state,
        UploadEvent::Measured {
            file_name: Some("a.pdf".into()),
            path_debug: "\"a.pdf\"".into(),
            path: "a.pdf".into(),
            size_bytes: 10,
        },
    );
    assert!(matches!(action, UploadAction::Measure(1)));
    let (state, action) = upload_step(
        state,
        UploadEvent::Measured {
            file_name: Some("b.txt".into()),
            path_debug: "\"b.txt\"".into(),
            path: "b.txt".into(),
            size_bytes: 20,
        },
    );
    let req = match action {
        UploadAction::InitUpload(r) => r,
        other => panic!("expected an init, got {other:?}"),
    };
    assert_eq!(req.path, "/ingestion/sources/src_9/upload/init");
    assert_eq!(items(field(body(&req), "files")).len(), 2);
    let init = InitUploadResponse {
        job_id: "job_1".into(),
        uploads: vec![UploadTarget { file_id: "f1".into(), file_name: None, upload_url: "https://u/1".into() }],
    };
    let (state, action) = upload_step(state, UploadEvent::Initialized(init));
    match &action {
        UploadAction::Put { index, url, content_type } => {
            assert_eq!(*index, 0);
            assert_eq!(url, "https://u/1");
            assert_eq!(content_type.as_deref(), Some("application/pdf"));
        }
        other => panic!("expected a PUT, got {other:?}"),
    }
    let (state, action) = upload_step(
        state,
        UploadEvent::Uploaded { status: 200, status_text: "200 OK".into(), path_display: "a.pdf".into() },
    );
    let req = match action {
        UploadAction::CompleteUpload(r) => r,
        other => panic!("expected completion, got {other:?}"),
    };
    assert_eq!(req.path, "/ingestion/sources/src_9/upload/complete");
    let ids: Vec<&str> = items(field(body(&req), "file_ids")).iter().map(text).collect();
    assert_eq!(ids, vec!["f1"]);
    let (_, action) = upload_step(state, UploadEvent::Completed(Job { status: "queued".into(), ..Default::default() }));
    match action {
        UploadAction::Finish(job) => {
            assert_eq!(job.job_id, "job_1");
            assert_eq!(job.status, "queued");
        }
        other => panic!("expected the job, got {other:?}"),
    }
}

#[test]
fn upload_flow_stops_at_the_first_failure() {
    let (state, _) = upload_start("", Default::default(), 1, 1);
    let (_, action) = upload_step(state, UploadEvent::SourceCreated(Source::default()));
    assert!(matches!(action, UploadAction::Fail(Error::InvalidInput(_))));

    let (state, _) = upload_start("", Default::default(), 1, 1);
    let (state, _) = upload_step(state, UploadEvent::SourceCreated(Source { uuid: Some("s".into()), ..Default::default() }));
    let (state, _) = upload_step(
        state,
        UploadEvent::Measured { file_name: Some("x".into()), path_debug: "\"x\"".into(), path: "x".into(), size_bytes: 1 },
    );
    let init = InitUploadResponse {
        job_id: "j".into(),
        uploads: vec![UploadTarget { file_id: "f".into(), file_name: None, upload_url: "u".into() }],
    };
    let (state, _) = upload_step(state, UploadEvent::Initialized(init));
    let (_, action) = upload_step(
        state,
        UploadEvent::Uploaded { status: 403, status_text: "403 Forbidden".into(), path_display: "x".into() },
    );
    match action {
        UploadAction::Fail(Error::Other(m)) => assert_eq!(m, "file upload failed for x (status 403 Forbidden)"),
        other => panic!("expected a failure, got {other:?}"),
    }
}

#[test]
fn add_texts_flow_embeds_then_inserts() {
    let (state, action) = add_texts_start("ds_1", AddTextsInput::from(vec!["hello", "world"]), Default::default());
    let req = match action {
        AddTextsAction::Embed(r) => r,
        other => panic!("expected an embed, got {other:?}"),
    };
    assert_eq!(req.path, "/datasets/ds_1/embed");
    let (state, action) = add_texts_step(
        state,
        AddTextsEvent::Embedded(EmbedResponse { embeddings: vec![bits(&[0.1]), bits(&[0.2])], embedding: None }),
    );
    let req = match action {
        AddTextsAction::Insert(r) => r,
        other => panic!("expected an insert, got {other:?}"),
    };
    assert_eq!(req.path, "/datasets/ds_1/insert");
    let vs = items(field(body(&req), "vectors"));
    assert_eq!(text(field(&vs[1], "id")), "text-2");
    assert_eq!(text(field(field(&vs[1], "metadata"), "text")), "world");
    let (_, action) = add_texts_step(state, AddTextsEvent::Inserted(InsertVectorsResponse { inserted: 2 }));
    match action {
        AddTextsAction::Finish(r) => {
            assert_eq!(r.inserted, 2);
            assert_eq!(r.embeddings, 2);
        }
        other => panic!("expected the result, got {other:?}"),
    }

    let (_, action) = add_texts_start("ds_1", AddTextsInput::from(Vec::<String>::new()), Default::default());
    assert!(matches!(action, AddTextsAction::Finish(r) if r.inserted == 0 && r.embeddings == 0));
}
