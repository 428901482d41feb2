//! Ingestion: sources, jobs, and the decisions of the file-upload flow.
//!
//! Uploading local files takes several round trips: create a `file_upload`
//! source, initialize presigned uploads for the files, PUT each file, and
//! complete the job. The functions here build each request and read each
//! response; reading files and the PUTs themselves happen outside.

use vstd::prelude::*;
use crate::datasets::{bare, page_query, paged_get, push_pagination, with_body, Pagination};
use crate::errors::{is_success, Error};
use crate::json::{
    array, empty_members, insert_member_if_absent, members_insert_absent, members_view, object,
    push_member, strings_json, strings_view, Json, JsonV, Members,
};
use crate::sources::{sanitized, sanitize, FileUploadSource, IntoCreateSourceRequest};
use crate::text::{decimal, u64_to_string};
use crate::transport::{
    cat, cat3, make_request, no_query, pairs_view, plain, push_query, Request, RequestV,
};
use crate::types::{
    create_source_body, opt_string_view, source_identifier, start_ingestion_view,
    upload_file_view, InitUploadResponse, Job, Source, StartIngestionRequest, UploadFile,
};

verus! {

/// Optional knobs for uploading local files.
#[derive(Debug, Default)]
pub struct IngestFilesOptions {
    pub source_name: Option<String>,
    pub description: Option<String>,
    pub pipeline_id: Option<String>,
    pub metadata: Option<Members>,
}

/// Cursor pagination options for dataset document listing.
pub type DocumentListOptions = crate::types::DocumentListOpts;

/// `GET /ingestion/sources` with pagination.
pub fn list_sources_request(p: Pagination) -> (r: Request)
    ensures
        r@ == plain("GET"@, "/ingestion/sources"@, page_query(p), None),
{
    paged_get("/ingestion/sources".to_string(), p)
}

/// `GET /ingestion/sources/{id}`.
pub fn get_source_request(source_id: &str) -> (r: Request)
    ensures
        r@ == plain("GET"@, "/ingestion/sources/"@ + source_id@, seq![], None),
{
    bare("GET", cat("/ingestion/sources/", source_id))
}

/// `POST /ingestion/sources` with the request a builder stands for.
pub fn create_source_request<B: IntoCreateSourceRequest>(builder: B) -> (r: Request)
    ensures
        r@ == plain(
            "POST"@,
            "/ingestion/sources"@,
            seq![],
            Some(create_source_body(builder.source_request())),
        ),
{
    let req = builder.into_create_source_request();
    with_body("POST", "/ingestion/sources".to_string(), req.into_json())
}

/// `POST /ingestion/jobs`.
pub fn start_job_request(request: StartIngestionRequest) -> (r: Request)
    ensures
        r@ == plain("POST"@, "/ingestion/jobs"@, seq![], Some(start_ingestion_view(request))),
{
    with_body("POST", "/ingestion/jobs".to_string(), request.into_json())
}

/// The job request that ingests `source_id` into `dataset_id`.
pub fn ingest_source_request(dataset_id: &str, source_id: &str, pipeline_id: Option<String>) -> (r:
    Request)
    ensures
        r@ == plain(
            "POST"@,
            "/ingestion/jobs"@,
            seq![],
            Some(
                JsonV::Object(
                    crate::json::with_opt(
                        seq![("source_id"@, JsonV::Str(source_id@))].push(
                            ("dataset_id"@, JsonV::Str(dataset_id@)),
                        ),
                        "pipeline_id"@,
                        crate::json::opt_str_view(pipeline_id),
                    ),
                ),
            ),
        ),
{
    start_job_request(
        StartIngestionRequest {
            source_id: source_id.to_string(),
            dataset_id: dataset_id.to_string(),
            pipeline_id,
        },
    )
}

/// The query of a job listing: the page, then `dataset_id` when given and
/// not empty.
pub open spec fn jobs_query(dataset_id: Option<Seq<char>>, p: Pagination) -> Seq<
    (Seq<char>, Seq<char>),
> {
    let q = page_query(p);
    match dataset_id {
        Some(d) => if d.len() > 0 {
            q.push(("dataset_id"@, d))
        } else {
            q
        },
        None => q,
    }
}

/// `GET /ingestion/jobs`, optionally filtered by dataset.
pub fn list_jobs_request(dataset_id: Option<&str>, p: Pagination) -> (r: Request)
    ensures
        r@ == plain(
            "GET"@,
            "/ingestion/jobs"@,
            jobs_query(
                match dataset_id {
                    Some(d) => Some(d@),
                    None => None,
                },
                p,
            ),
            None,
        ),
{
    let (l, o) = p.resolve();
    let mut q = no_query();
    push_pagination(&mut q, l, o);
    assert(pairs_view(q@) =~= page_query(p));
    if let Some(id) = dataset_id {
        if !id.is_empty() {
            push_query(&mut q, "dataset_id", id.to_string());
        }
    }
    make_request("GET", "/ingestion/jobs".to_string(), q, None)
}

/// `GET /ingestion/jobs/{id}`.
pub fn get_job_request(job_id: &str) -> (r: Request)
    ensures
        r@ == plain("GET"@, "/ingestion/jobs/"@ + job_id@, seq![], None),
{
    bare("GET", cat("/ingestion/jobs/", job_id))
}

/// `POST /ingestion/jobs/{id}/retry`: queues a fresh run of a failed or
/// cancelled job.
pub fn retry_job_request(job_id: &str) -> (r: Request)
    ensures
        r@ == plain("POST"@, "/ingestion/jobs/"@ + job_id@ + "/retry"@, seq![], None),
{
    bare("POST", cat3("/ingestion/jobs/", job_id, "/retry"))
}

/// The JSON array of upload file descriptors.
pub open spec fn upload_files_view(files: Seq<UploadFile>) -> JsonV {
    JsonV::Array(Seq::new(files.len(), |i: int| upload_file_view(files[i])))
}

/// The request that initializes presigned uploads of `files`.
pub open spec fn init_upload_view(source_id: Seq<char>, files: Seq<UploadFile>) -> RequestV {
    plain(
        "POST"@,
        "/ingestion/sources/"@ + source_id + "/upload/init"@,
        seq![],
        Some(JsonV::Object(seq![("files"@, upload_files_view(files))])),
    )
}

/// `POST /ingestion/sources/{id}/upload/init` with `{"files": [...]}`.
pub fn init_upload_request(source_id: &str, files: &Vec<UploadFile>) -> (r: Request)
    ensures
        r@ == init_upload_view(source_id@, files@),
{
    let mut out: Vec<Json> = Vec::new();
    let n = files.len();
    let mut i: usize = 0;
    while i < n
        invariant
            0 <= i <= n,
            n == files@.len(),
            out@.len() == i,
            forall|j: int| 0 <= j < i ==> #[trigger] crate::json::json_view(out@[j]) == upload_file_view(files@[j]),
        decreases n - i,
    {
        out.push(files[i].to_json());
        i = i + 1;
    }
    proof {
        crate::json::lemma_seq_view(out@);
        assert(crate::json::json_seq_view(out@) =~= upload_files_view(files@)->Array_0);
    }
    let mut m = empty_members();
    push_member(&mut m, "files", array(out));
    with_body("POST", cat3("/ingestion/sources/", source_id, "/upload/init"), object(m))
}

/// The request that completes an upload job with the uploaded files' ids.
pub open spec fn complete_upload_view(
    source_id: Seq<char>,
    job_id: Seq<char>,
    file_ids: Seq<String>,
) -> RequestV {
    plain(
        "POST"@,
        "/ingestion/sources/"@ + source_id + "/upload/complete"@,
        seq![],
        Some(
            JsonV::Object(
                seq![("job_id"@, JsonV::Str(job_id))].push(("file_ids"@, strings_view(file_ids))),
            ),
        ),
    )
}

/// `POST /ingestion/sources/{id}/upload/complete` with the job and file ids.
pub fn complete_upload_request(source_id: &str, job_id: &str, file_ids: &Vec<String>) -> (r:
    Request)
    ensures
        r@ == complete_upload_view(source_id@, job_id@, file_ids@),
{
    let mut m = empty_members();
    push_member(&mut m, "job_id", crate::json::str_json(job_id));
    push_member(&mut m, "file_ids", strings_json(file_ids));
    with_body("POST", cat3("/ingestion/sources/", source_id, "/upload/complete"), object(m))
}

/// The message of the error returned when a created source has no id.
pub const MISSING_SOURCE_ID_MESSAGE: &'static str =
    "source response did not include id, source_id, or uuid";

/// The id of a created source, or [`Error::InvalidInput`] when the response
/// carries none of `id`, `source_id`, `uuid`.
pub fn source_id_of(source: &Source) -> (r: Result<String, Error>)
    ensures
        match source_identifier(*source) {
            Some(i) => r matches Ok(s) && s@ == i,
            None => r matches Err(Error::InvalidInput(m)) && m@ == MISSING_SOURCE_ID_MESSAGE@,
        },
{
    match source.identifier() {
        Some(i) => Ok(i.to_string()),
        None => Err(Error::invalid_input(MISSING_SOURCE_ID_MESSAGE.to_string())),
    }
}

/// Default name of an upload source created at `now` (Unix seconds):
/// `rust-sdk-file-upload-<now>`, or `rust-sdk-file-upload-<dataset>-<now>`
/// with the sanitized dataset id when there is one.
pub open spec fn default_upload_name(dataset_id: Seq<char>, now: u64) -> Seq<char> {
    if dataset_id.len() == 0 {
        "rust-sdk-file-upload-"@ + decimal(now as nat)
    } else {
        "rust-sdk-file-upload-"@ + sanitized(dataset_id) + "-"@ + decimal(now as nat)
    }
}

/// The default upload source name for a dataset at time `now_secs`.
pub fn default_upload_source_name(dataset_id: &str, now_secs: u64) -> (r: String)
    ensures
        r@ == default_upload_name(dataset_id@, now_secs),
{
    let now = u64_to_string(now_secs);
    if dataset_id.is_empty() {
        cat("rust-sdk-file-upload-", now.as_str())
    } else {
        let s = sanitize(dataset_id);
        let head = cat3("rust-sdk-file-upload-", s.as_str(), "-");
        cat(head.as_str(), now.as_str())
    }
}

/// Whether `r` is the `file_upload` source created for an upload into
/// `dataset_id` at `now`: the requested name or the default one, the
/// description, and the metadata with `dataset_id` added unless already
/// present; nothing else set.
pub open spec fn is_upload_source(
    r: FileUploadSource,
    dataset_id: Seq<char>,
    options: IngestFilesOptions,
    now: u64,
) -> bool {
    &&& r.name matches Some(n) && n@ == (match options.source_name {
        Some(s) => s@,
        None => default_upload_name(dataset_id, now),
    })
    &&& r.description == options.description
    &&& r.metadata matches Some(m) && members_view(m) == members_insert_absent(
        match options.metadata {
            Some(m) => members_view(m),
            None => seq![],
        },
        "dataset_id"@,
        JsonV::Str(dataset_id),
    )
    &&& r.storage_provider is None && r.key_prefix_template is None
        && r.allowed_content_types@.len() == 0 && r.max_file_size_mb is None
        && r.max_files_per_job is None && r.sync_mode is None && r.config_extra@.len() == 0
}

/// The `file_upload` source created for an upload into `dataset_id`.
pub fn upload_source(dataset_id: &str, options: IngestFilesOptions, now_secs: u64) -> (r:
    FileUploadSource)
    ensures
        is_upload_source(r, dataset_id@, options, now_secs),
{
    let name = match options.source_name {
        Some(n) => n,
        None => default_upload_source_name(dataset_id, now_secs),
    };
    let mut metadata = match options.metadata {
        Some(m) => m,
        None => empty_members(),
    };
    insert_member_if_absent(&mut metadata, "dataset_id".to_string(), crate::json::str_json(dataset_id));
    FileUploadSource {
        name: Some(name),
        storage_provider: None,
        key_prefix_template: None,
        allowed_content_types: Vec::new(),
        max_file_size_mb: None,
        max_files_per_job: None,
        sync_mode: None,
        description: options.description,
        metadata: Some(metadata),
        config_extra: Vec::new(),
    }
}

/// The MIME type that `mime_guess` associates with the extension of `path`.
pub uninterp spec fn guessed_mime(path: Seq<char>) -> Option<Seq<char>>;

/// `mime_guess::from_path(path).first()`, as its essence string.
#[verifier::external_body]
fn guess_mime(path: &str) -> (r: Option<String>)
    ensures
        match r {
            Some(m) => guessed_mime(path@) == Some(m@),
            None => guessed_mime(path@) is None,
        },
{
    match mime_guess::from_path(path).first() {
        Some(m) => Some(m.essence_str().to_owned()),
        None => None,
    }
}

/// The content type sent for a file: the guessed MIME type, or
/// `application/octet-stream`.
pub fn content_type_for(path: &str) -> (r: String)
    ensures
        r@ == (match guessed_mime(path@) {
            Some(m) => m,
            None => "application/octet-stream"@,
        }),
{
    match guess_mime(path) {
        Some(m) => m,
        None => "application/octet-stream".to_string(),
    }
}

/// The message prefix of the error for a path without a usable file name.
pub const INVALID_FILE_NAME_PREFIX: &'static str = "invalid file name: ";

/// The upload descriptor of one local file, given its file name (when it has
/// a UTF-8 one), the path's debug rendering (for the error), its path text,
/// and its size.
pub fn upload_file(file_name: Option<String>, path_debug: &str, path: &str, size_bytes: u64) -> (r:
    Result<UploadFile, Error>)
    ensures
        match file_name {
            Some(n) => r matches Ok(f) && f.name == n && f.size_bytes == size_bytes && (
            f.content_type matches Some(c) && c@ == (match guessed_mime(path@) {
                Some(m) => m,
                None => "application/octet-stream"@,
            })),
            None => r matches Err(Error::InvalidInput(m)) && m@ == INVALID_FILE_NAME_PREFIX@
                + path_debug@,
        },
{
    match file_name {
        Some(name) => Ok(
            UploadFile { name, size_bytes, content_type: Some(content_type_for(path)) },
        ),
        None => Err(Error::invalid_input(cat(INVALID_FILE_NAME_PREFIX, path_debug))),
    }
}

/// How many files are uploaded: one per presigned target, but no more than
/// there are local paths.
pub open spec fn upload_count(targets: nat, paths: nat) -> nat {
    if targets < paths {
        targets
    } else {
        paths
    }
}

/// The ids of the uploaded files, in target order, for the first
/// `upload_count` targets.
pub fn uploaded_file_ids(init: &InitUploadResponse, paths: usize) -> (r: Vec<String>)
    ensures
        r@.len() == upload_count(init.uploads@.len(), paths as nat),
        forall|i: int| 0 <= i < r@.len() ==> #[trigger] r@[i] == init.uploads@[i].file_id,
{
    let n = if init.uploads.len() < paths {
        init.uploads.len()
    } else {
        paths
    };
    let mut out: Vec<String> = Vec::new();
    let mut i: usize = 0;
    while i < n
        invariant
            0 <= i <= n,
            n <= init.uploads@.len(),
            n == upload_count(init.uploads@.len(), paths as nat),
            out@.len() == i,
            forall|j: int| 0 <= j < i ==> #[trigger] out@[j] == init.uploads@[j].file_id,
        decreases n - i,
    {
        out.push(init.uploads[i].file_id.clone());
        i = i + 1;
    }
    out
}

/// The error for a failed PUT of one file.
pub fn upload_failed(path_display: &str, status_text: &str) -> (r: Error)
    ensures
        r matches Error::Other(m) && m@ == "file upload failed for "@ + path_display@
            + " (status "@ + status_text@ + ")"@,
{
    let head = cat3("file upload failed for ", path_display, " (status ");
    Error::Other(cat3(head.as_str(), status_text, ")"))
}

/// The job an upload returns: the completed job, with the init job id when
/// the completion response has an empty one.
pub fn finish_upload_job(job: Job, init_job_id: String) -> (r: Job)
    ensures
        r == (Job {
            job_id: if job.job_id@.len() == 0 {
                init_job_id
            } else {
                job.job_id
            },
            ..job
        }),
{
    let mut j = job;
    if j.job_id.as_str().is_empty() {
        j.job_id = init_job_id;
    }
    j
}

// ---------------------------------------------------------------------------
// The upload flow.

/// Where an upload of local files stands.
#[derive(Debug)]
pub enum UploadState {
    /// Waiting for the created `file_upload` source.
    CreatingSource { paths: usize },
    /// Waiting for the name and size of local file number `files.len()`.
    Measuring { source_id: String, paths: usize, files: Vec<UploadFile> },
    /// Waiting for the presigned upload targets.
    Initializing { source_id: String, paths: usize, files: Vec<UploadFile> },
    /// Waiting for the status of the PUT of file number `done`.
    Uploading {
        source_id: String,
        paths: usize,
        files: Vec<UploadFile>,
        init: InitUploadResponse,
        done: usize,
    },
    /// Waiting for the completed job.
    Completing { init_job_id: String },
    /// Finished or failed; nothing more happens.
    Over,
}

/// What came back from the last action.
#[derive(Debug)]
pub enum UploadEvent {
    /// The created source.
    SourceCreated(Source),
    /// The file name (when it has a UTF-8 one), the path's debug rendering,
    /// its text and its size, of the file asked for.
    Measured { file_name: Option<String>, path_debug: String, path: String, size_bytes: u64 },
    /// The presigned upload targets.
    Initialized(InitUploadResponse),
    /// The status code (and its display) of the PUT of the file asked for,
    /// with the file's path for messages.
    Uploaded { status: u16, status_text: String, path_display: String },
    /// The completed job.
    Completed(Job),
}

/// What to do next.
#[derive(Debug)]
pub enum UploadAction {
    /// Send this request and answer with the created source.
    CreateSource(Request),
    /// Read the name and size of local file `index`.
    Measure(usize),
    /// Send this request and answer with the upload targets.
    InitUpload(Request),
    /// PUT the bytes of local file `index` to `url`, with this content type
    /// when there is one, and answer with the status.
    Put { index: usize, url: String, content_type: Option<String> },
    /// Send this request and answer with the completed job.
    CompleteUpload(Request),
    /// The upload is done; this is its job.
    Finish(Job),
    /// The upload failed with this error.
    Fail(Error),
}

/// The message of the error for an event the flow did not ask for.
pub const UNEXPECTED_UPLOAD_EVENT: &'static str = "upload flow received an unexpected event";

/// The content type sent for the file at `path`.
pub open spec fn content_type_of(path: Seq<char>) -> Seq<char> {
    match guessed_mime(path) {
        Some(m) => m,
        None => "application/octet-stream"@,
    }
}

/// The ids of the first `count` upload targets.
pub open spec fn target_ids(init: InitUploadResponse, count: nat) -> Seq<String> {
    Seq::new(count, |i: int| init.uploads@[i].file_id)
}

/// The content type sent with the PUT of file `index`.
pub open spec fn put_content_type(files: Seq<UploadFile>, index: int) -> Option<String> {
    if 0 <= index < files.len() {
        files[index].content_type
    } else {
        None
    }
}

/// Starts an upload of `paths` local files into `dataset_id` at `now_secs`:
/// the first action creates the `file_upload` source.
pub fn upload_start(dataset_id: &str, options: IngestFilesOptions, now_secs: u64, paths: usize) -> (r:
    (UploadState, UploadAction))
    ensures
        r.0 == (UploadState::CreatingSource { paths }),
        r.1 matches UploadAction::CreateSource(req) && exists|b: FileUploadSource|
            #[trigger] is_upload_source(b, dataset_id@, options, now_secs) && req@ == plain(
                "POST"@,
                "/ingestion/sources"@,
                seq![],
                Some(create_source_body(b.source_request())),
            ),
{
    let b = upload_source(dataset_id, options, now_secs);
    let ghost gb = b;
    let req = create_source_request(b);
    (UploadState::CreatingSource { paths }, UploadAction::CreateSource(req))
}

fn clone_content_type(files: &Vec<UploadFile>, index: usize) -> (r: Option<String>)
    ensures
        r == put_content_type(files@, index as int),
{
    if index < files.len() {
        match &files[index].content_type {
            Some(c) => Some(c.clone()),
            None => None,
        }
    } else {
        None
    }
}

/// The next step of an upload: create the source, read each file's name and
/// size, initialize the uploads, PUT each file that has a target (no more
/// than there are files), complete the job, in that order; a missing
/// source id, a file without a usable name, or a PUT without a 2xx status
/// stops the upload with its error.
pub fn upload_step(state: UploadState, event: UploadEvent) -> (r: (UploadState, UploadAction))
    ensures
        match (state, event) {
            (UploadState::CreatingSource { paths }, UploadEvent::SourceCreated(src)) => match source_identifier(src) {
                None => r.0 is Over && (r.1 matches UploadAction::Fail(Error::InvalidInput(m))
                    && m@ == MISSING_SOURCE_ID_MESSAGE@),
                Some(id) => if paths == 0 {
                    (r.0 matches UploadState::Initializing { source_id, paths: p, files } && source_id@
                        == id && p == 0 && files@.len() == 0) && (r.1 matches UploadAction::InitUpload(req)
                        && req@ == init_upload_view(id, seq![]))
                } else {
                    (r.0 matches UploadState::Measuring { source_id, paths: p, files } && source_id@
                        == id && p == paths && files@.len() == 0) && r.1 == UploadAction::Measure(0)
                },
            },
            (
                UploadState::Measuring { source_id, paths, files },
                UploadEvent::Measured { file_name, path_debug, path, size_bytes },
            ) => match file_name {
                None => r.0 is Over && (r.1 matches UploadAction::Fail(Error::InvalidInput(m)) && m@
                    == INVALID_FILE_NAME_PREFIX@ + path_debug@),
                Some(n) => {
                    let added = |fs: Vec<UploadFile>|
                        fs@.len() == files@.len() + 1 && fs@.drop_last() == files@ && fs@.last().name
                            == n && fs@.last().size_bytes == size_bytes && (
                        fs@.last().content_type matches Some(c) && c@ == content_type_of(path@));
                    if files@.len() + 1 < paths {
                        (r.0 matches UploadState::Measuring { source_id: s2, paths: p, files: fs }
                            && s2 == source_id && p == paths && added(fs)) && r.1
                            == UploadAction::Measure((files@.len() + 1) as usize)
                    } else {
                        r.0 matches UploadState::Initializing { source_id: s2, paths: p, files: fs }
                            && s2 == source_id && p == paths && added(fs) && (
                        r.1 matches UploadAction::InitUpload(req) && req@ == init_upload_view(
                            source_id@,
                            fs@,
                        ))
                    }
                },
            },
            (
                UploadState::Initializing { source_id, paths, files },
                UploadEvent::Initialized(init),
            ) => {
                let count = upload_count(init.uploads@.len(), paths as nat);
                if count == 0 {
                    r.0 == (UploadState::Completing { init_job_id: init.job_id }) && (
                    r.1 matches UploadAction::CompleteUpload(req) && req@ == complete_upload_view(
                        source_id@,
                        init.job_id@,
                        seq![],
                    ))
                } else {
                    r.0 == (UploadState::Uploading { source_id, paths, files, init, done: 0 }) && r.1
                        == (UploadAction::Put {
                        index: 0,
                        url: init.uploads@[0].upload_url,
                        content_type: put_content_type(files@, 0),
                    })
                }
            },
            (
                UploadState::Uploading { source_id, paths, files, init, done },
                UploadEvent::Uploaded { status, status_text, path_display },
            ) => {
                let count = upload_count(init.uploads@.len(), paths as nat);
                if !is_success(status) {
                    r.0 is Over && (r.1 matches UploadAction::Fail(Error::Other(m)) && m@
                        == "file upload failed for "@ + path_display@ + " (status "@ + status_text@
                        + ")"@)
                } else if done + 1 < count {
                    r.0 == (UploadState::Uploading { source_id, paths, files, init, done: (done + 1) as usize })
                        && r.1 == (UploadAction::Put {
                        index: (done + 1) as usize,
                        url: init.uploads@[done + 1].upload_url,
                        content_type: put_content_type(files@, done + 1),
                    })
                } else {
                    r.0 == (UploadState::Completing { init_job_id: init.job_id }) && (
                    r.1 matches UploadAction::CompleteUpload(req) && req@ == complete_upload_view(
                        source_id@,
                        init.job_id@,
                        target_ids(init, count),
                    ))
                }
            },
            (UploadState::Completing { init_job_id }, UploadEvent::Completed(job)) => r.0 is Over
                && r.1 == UploadAction::Finish(
                Job {
                    job_id: if job.job_id@.len() == 0 {
                        init_job_id
                    } else {
                        job.job_id
                    },
                    ..job
                },
            ),
            _ => r.0 is Over && (r.1 matches UploadAction::Fail(Error::Other(m)) && m@
                == UNEXPECTED_UPLOAD_EVENT@),
        },
{
    match (state, event) {
        (UploadState::CreatingSource { paths }, UploadEvent::SourceCreated(src)) => {
            match source_id_of(&src) {
                Err(e) => (UploadState::Over, UploadAction::Fail(e)),
                Ok(id) => {
                    let files: Vec<UploadFile> = Vec::new();
                    if paths == 0 {
                        let req = init_upload_request(id.as_str(), &files);
                        (UploadState::Initializing { source_id: id, paths, files }, UploadAction::InitUpload(req))
                    } else {
                        (UploadState::Measuring { source_id: id, paths, files }, UploadAction::Measure(0))
                    }
                },
            }
        },
        (
            UploadState::Measuring { source_id, paths, files },
            UploadEvent::Measured { file_name, path_debug, path, size_bytes },
        ) => {
            match upload_file(file_name, path_debug.as_str(), path.as_str(), size_bytes) {
                Err(e) => (UploadState::Over, UploadAction::Fail(e)),
                Ok(f) => {
                    let mut fs = files;
                    let ghost before = fs@;
                    fs.push(f);
                    assert(fs@.drop_last() == before);
                    let k = fs.len();
                    if k < paths {
                        (UploadState::Measuring { source_id, paths, files: fs }, UploadAction::Measure(k))
                    } else {
                        let req = init_upload_request(source_id.as_str(), &fs);
                        (UploadState::Initializing { source_id, paths, files: fs }, UploadAction::InitUpload(req))
                    }
                },
            }
        },
        (UploadState::Initializing { source_id, paths, files }, UploadEvent::Initialized(init)) => {
            let ids = uploaded_file_ids(&init, paths);
            if ids.len() == 0 {
                let req = complete_upload_request(source_id.as_str(), init.job_id.as_str(), &ids);
                proof {
                    assert(ids@ =~= Seq::<String>::empty());
                }
                (UploadState::Completing { init_job_id: init.job_id }, UploadAction::CompleteUpload(req))
            } else {
                let url = init.uploads[0].upload_url.clone();
                let content_type = clone_content_type(&files, 0);
                (
                    UploadState::Uploading { source_id, paths, files, init, done: 0 },
                    UploadAction::Put { index: 0, url, content_type },
                )
            }
        },
        (
            UploadState::Uploading { source_id, paths, files, init, done },
            UploadEvent::Uploaded { status, status_text, path_display },
        ) => {
            if !crate::errors::is_success_status(status) {
                (UploadState::Over, UploadAction::Fail(upload_failed(path_display.as_str(), status_text.as_str())))
            } else {
                let count = if init.uploads.len() < paths {
                    init.uploads.len()
                } else {
                    paths
                };
                if done < count && done + 1 < count {
                    let next = done + 1;
                    let url = init.uploads[next].upload_url.clone();
                    let content_type = clone_content_type(&files, next);
                    (
                        UploadState::Uploading { source_id, paths, files, init, done: next },
                        UploadAction::Put { index: next, url, content_type },
                    )
                } else {
                    let ids = uploaded_file_ids(&init, paths);
                    proof {
                        assert(ids@ =~= target_ids(init, count as nat));
                    }
                    let req = complete_upload_request(source_id.as_str(), init.job_id.as_str(), &ids);
                    (UploadState::Completing { init_job_id: init.job_id }, UploadAction::CompleteUpload(req))
                }
            }
        },
        (UploadState::Completing { init_job_id }, UploadEvent::Completed(job)) => {
            (UploadState::Over, UploadAction::Finish(finish_upload_job(job, init_job_id)))
        },
        _ => (UploadState::Over, UploadAction::Fail(Error::Other(UNEXPECTED_UPLOAD_EVENT.to_string()))),
    }
}

} // verus!
