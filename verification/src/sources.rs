//! Typed builders for ingestion sources.
//!
//! Each builder fills in the required `source_type`, config defaults, and a
//! default name when one is not supplied. All of them implement
//! [`IntoCreateSourceRequest`], whose contract states the exact request each
//! one produces.

pub mod source_type;

use vstd::prelude::*;
use crate::json::{
    empty_members, object,
    members_merge, members_view, opt_bool_json, opt_bool_view, opt_members_json,
    opt_members_view, opt_str_view, opt_string_json, opt_u32_json, opt_u32_view, opt_u64_json,
    opt_u64_view, push_list, push_member, push_opt, merge_members, str_json, string_pairs_json,
    string_pairs_view, strings_json, strings_view, with_list, with_opt, Json, JsonV, Members,
};
use crate::text::{
    chars_of, is_char, lowered, parse_url_host, string_from_chars, strip_both, strip_chars,
    to_lowercase, trim, url_host, ws,
};
use crate::types::{opt_object_view, opt_string_view, CreateSourceRequest, CreateSourceRequestV};

verus! {

// ---------------------------------------------------------------------------
// Default-name derivation.

/// Characters kept by [`sanitize`]: ASCII lowercase letters and digits.
pub open spec fn kept(c: char) -> bool {
    ('a' <= c && c <= 'z') || ('0' <= c && c <= '9')
}

/// Replaces every run of characters that are not kept by a single `-`.
/// The second component says whether the output ends in such a dash.
pub open spec fn collapse(s: Seq<char>) -> (Seq<char>, bool)
    decreases s.len(),
{
    if s.len() == 0 {
        (seq![], false)
    } else {
        let (out, last_dash) = collapse(s.drop_last());
        let c = s.last();
        if kept(c) {
            (out.push(c), false)
        } else if !last_dash {
            (out.push('-'), true)
        } else {
            (out, true)
        }
    }
}

/// Lowercase, dash-separated form of `v`: trimmed, lowercased, runs of other
/// characters collapsed to `-`, leading and trailing dashes dropped, and
/// `source` when nothing is left.
pub open spec fn sanitized(v: Seq<char>) -> Seq<char> {
    let t = strip_both(collapse(lowered(strip_both(v, ws()))).0, is_char('-'));
    if t.len() == 0 {
        "source"@
    } else {
        t
    }
}

/// Lowercase, dash-separated sanitization used to derive default source names.
pub fn sanitize(value: &str) -> (r: String)
    ensures
        r@ == sanitized(value@),
{
    let trimmed = trim(value);
    let lower = to_lowercase(trimmed.as_str());
    let cs = chars_of(lower.as_str());
    let mut out: Vec<char> = Vec::new();
    let mut last_dash = false;
    let n = cs.len();
    let mut i: usize = 0;
    while i < n
        invariant
            0 <= i <= n,
            n == cs@.len(),
            (out@, last_dash) == collapse(cs@.subrange(0, i as int)),
        decreases n - i,
    {
        let c = cs[i];
        let keep = ('a' <= c && c <= 'z') || ('0' <= c && c <= '9');
        if keep {
            out.push(c);
            last_dash = false;
        } else if !last_dash {
            out.push('-');
            last_dash = true;
        }
        proof {
            let p = cs@.subrange(0, i as int + 1);
            assert(p.drop_last() =~= cs@.subrange(0, i as int));
            assert(p.last() == c);
        }
        i = i + 1;
    }
    proof {
        assert(cs@.subrange(0, n as int) =~= cs@);
    }
    let t = strip_chars(&out, Some('-'));
    if t.len() == 0 {
        "source".to_string()
    } else {
        string_from_chars(&t)
    }
}

fn clone_opt(o: &Option<String>) -> (r: Option<String>)
    ensures
        r == *o,
{
    match o {
        Some(x) => Some(x.clone()),
        None => None,
    }
}

/// `prefix` followed by the sanitized form of `value`.
fn prefixed_name(prefix: &str, value: &str) -> (r: String)
    ensures
        r@ == prefix@ + sanitized(value@),
{
    let mut n = prefix.to_string();
    let s = sanitize(value);
    n.append(s.as_str());
    n
}

/// The first non-empty string of `v`.
pub open spec fn first_nonempty(v: Seq<String>) -> Option<Seq<char>>
    decreases v.len(),
{
    if v.len() == 0 {
        None
    } else if v[0]@.len() > 0 {
        Some(v[0]@)
    } else {
        first_nonempty(v.drop_first())
    }
}

fn first_nonempty_of(v: &Vec<String>) -> (r: Option<&String>)
    ensures
        match r {
            Some(x) => first_nonempty(v@) == Some(x@),
            None => first_nonempty(v@) is None,
        },
{
    let n = v.len();
    let mut i: usize = 0;
    assert(v@.subrange(0, n as int) =~= v@);
    while i < n
        invariant
            0 <= i <= n,
            n == v@.len(),
            first_nonempty(v@) == first_nonempty(v@.subrange(i as int, n as int)),
        decreases n - i,
    {
        let ghost rest = v@.subrange(i as int, n as int);
        assert(rest[0] == v@[i as int]);
        if !v[i].as_str().is_empty() {
            return Some(&v[i]);
        }
        assert(rest.drop_first() =~= v@.subrange(i as int + 1, n as int));
        i = i + 1;
    }
    None
}

/// Default name of a web source: `web-<host>` from the first non-empty start
/// URL (the sanitized URL itself when it has no host), or
/// `rust-sdk-web-source` when there is none.
pub open spec fn web_default_name(start_urls: Seq<String>) -> Seq<char> {
    match first_nonempty(start_urls) {
        None => "rust-sdk-web-source"@,
        Some(u) => match url_host(u) {
            Some(h) => "web-"@ + sanitized(h),
            None => "web-"@ + sanitized(u),
        },
    }
}

fn web_default_name_of(start_urls: &Vec<String>) -> (r: String)
    ensures
        r@ == web_default_name(start_urls@),
{
    match first_nonempty_of(start_urls) {
        None => "rust-sdk-web-source".to_string(),
        Some(first) => match parse_url_host(first.as_str()) {
            Some(host) => prefixed_name("web-", host.as_str()),
            None => prefixed_name("web-", first.as_str()),
        },
    }
}

/// `<kind>-<sanitized hint>`, or `rust-sdk-<kind>-source` when the hint is
/// absent or empty.
pub open spec fn scm_default_name(kind: Seq<char>, hint: Option<Seq<char>>) -> Seq<char> {
    match hint {
        Some(h) => if h.len() > 0 {
            kind + "-"@ + sanitized(h)
        } else {
            "rust-sdk-"@ + kind + "-source"@
        },
        None => "rust-sdk-"@ + kind + "-source"@,
    }
}

fn source_control_default_name(kind: &str, hint: Option<&String>) -> (r: String)
    ensures
        r@ == scm_default_name(
            kind@,
            match hint {
                Some(h) => Some(h@),
                None => None,
            },
        ),
{
    let nonempty = match hint {
        Some(h) => !h.as_str().is_empty(),
        None => false,
    };
    if nonempty {
        let h = hint.unwrap();
        let mut n = kind.to_string();
        n.append("-");
        let s = sanitize(h.as_str());
        n.append(s.as_str());
        n
    } else {
        let mut n = "rust-sdk-".to_string();
        n.append(kind);
        n.append("-source");
        n
    }
}

pub open spec fn first_of(v: Seq<String>) -> Option<Seq<char>> {
    if v.len() > 0 {
        Some(v[0]@)
    } else {
        None
    }
}

pub open spec fn name_or(name: Option<String>, default: Seq<char>) -> Seq<char> {
    match name {
        Some(n) => n@,
        None => default,
    }
}

// ---------------------------------------------------------------------------
// The builder trait.

/// Implemented by typed source builders so they can be converted into a
/// [`CreateSourceRequest`]. `source_request` states the request a builder
/// stands for.
pub trait IntoCreateSourceRequest: Sized {
    spec fn source_request(&self) -> CreateSourceRequestV;

    fn into_create_source_request(self) -> (r: CreateSourceRequest)
        ensures
            r@ == self.source_request(),
    ;
}

impl IntoCreateSourceRequest for CreateSourceRequest {
    open spec fn source_request(&self) -> CreateSourceRequestV {
        self@
    }

    fn into_create_source_request(self) -> (r: CreateSourceRequest) {
        self
    }
}

/// The request a typed builder produces from its type, name and config.
pub open spec fn request_of(
    kind: Seq<char>,
    name: Seq<char>,
    description: Option<String>,
    config: Seq<(Seq<char>, JsonV)>,
    metadata: Option<Members>,
) -> CreateSourceRequestV {
    CreateSourceRequestV {
        source_type: kind,
        name,
        description: opt_string_view(description),
        config,
        metadata: opt_object_view(metadata),
    }
}

/// Escape hatch for source types or configuration shapes not yet modeled by
/// this library.
#[derive(Debug, Default)]
pub struct GenericSource {
    pub source_type: String,
    pub name: String,
    pub description: Option<String>,
    pub config: Members,
    pub metadata: Option<Members>,
}

impl IntoCreateSourceRequest for GenericSource {
    open spec fn source_request(&self) -> CreateSourceRequestV {
        request_of(
            self.source_type@,
            self.name@,
            self.description,
            members_merge(seq![], members_view(self.config)),
            self.metadata,
        )
    }

    fn into_create_source_request(self) -> (r: CreateSourceRequest) {
        let mut config = empty_members();
        merge_members(&mut config, self.config);
        CreateSourceRequest {
            source_type: self.source_type,
            name: self.name,
            description: self.description,
            config,
            metadata: self.metadata,
        }
    }
}

pub open spec fn str_entry(k: Seq<char>, v: Seq<char>) -> (Seq<char>, JsonV) {
    (k, JsonV::Str(v))
}

pub open spec fn str_or(o: Option<String>, d: Seq<char>) -> JsonV {
    JsonV::Str(name_or(o, d))
}

fn string_or(o: Option<String>, d: &str) -> (r: Json)
    ensures
        r@ == str_or(o, d@),
{
    match o {
        Some(v) => Json::Str(v),
        None => str_json(d),
    }
}

// ---------------------------------------------------------------------------
// Web.

/// CSS selectors used by [`WebSource`] to pick out content from crawled pages.
#[derive(Debug, Default)]
pub struct WebSelectors {
    pub content: Option<String>,
    pub title: Option<String>,
    pub exclude: Vec<String>,
}

/// The JSON object of a [`WebSelectors`]: `content` and `title` when set,
/// `exclude` when not empty.
pub open spec fn selectors_view(s: WebSelectors) -> JsonV {
    let m = with_opt(seq![], "content"@, opt_str_view(s.content));
    let m = with_opt(m, "title"@, opt_str_view(s.title));
    JsonV::Object(with_list(m, "exclude"@, s.exclude@))
}

impl WebSelectors {
    /// The selectors as a JSON object.
    pub fn to_json(&self) -> (r: Json)
        ensures
            r@ == selectors_view(*self),
    {
        let mut m = empty_members();
        push_opt(&mut m, "content", opt_string_json(clone_opt(&self.content)));
        push_opt(&mut m, "title", opt_string_json(clone_opt(&self.title)));
        push_list(&mut m, "exclude", &self.exclude);
        proof {
            assert(members_view(m) == selectors_view(*self)->Object_0);
        }
        object(m)
    }
}

/// Web crawler ingestion source.
///
/// Name defaults to `web-<host>` from the first start URL, or
/// `rust-sdk-web-source` when no URL is supplied.
#[derive(Debug, Default)]
pub struct WebSource {
    pub name: Option<String>,
    pub start_urls: Vec<String>,
    pub max_depth: Option<u32>,
    pub max_pages: Option<u32>,
    pub allowed_domains: Vec<String>,
    pub rate_limit_ms: Option<u32>,
    pub respect_robots_txt: Option<bool>,
    pub include_assets: Option<bool>,
    pub max_assets_per_page: Option<u32>,
    pub selectors: Option<WebSelectors>,
    pub headers: Vec<(String, String)>,
    pub description: Option<String>,
    pub metadata: Option<Members>,
    pub config_extra: Members,
}

/// The config of a web source before `config_extra` is merged in.
pub open spec fn web_base_config(s: WebSource) -> Seq<(Seq<char>, JsonV)> {
    let c = seq![str_entry("type"@, "web"@)].push(("start_urls"@, strings_view(s.start_urls@)));
    let c = with_opt(c, "max_depth"@, opt_u32_view(s.max_depth));
    let c = with_opt(c, "max_pages"@, opt_u32_view(s.max_pages));
    let c = with_list(c, "allowed_domains"@, s.allowed_domains@);
    let c = with_opt(c, "rate_limit_ms"@, opt_u32_view(s.rate_limit_ms));
    let c = with_opt(c, "respect_robots_txt"@, opt_bool_view(s.respect_robots_txt));
    let c = with_opt(c, "include_assets"@, opt_bool_view(s.include_assets));
    let c = with_opt(c, "max_assets_per_page"@, opt_u32_view(s.max_assets_per_page));
    let c = with_opt(
        c,
        "selectors"@,
        match s.selectors {
            Some(x) => Some(selectors_view(x)),
            None => None,
        },
    );
    if s.headers@.len() > 0 {
        c.push(("headers"@, string_pairs_view(s.headers@)))
    } else {
        c
    }
}

impl WebSource {
    fn base_config(&self) -> (r: Members)
        ensures
            members_view(r) == web_base_config(*self),
    {
        let mut config = empty_members();
        push_member(&mut config, "type", str_json("web"));
        push_member(&mut config, "start_urls", strings_json(&self.start_urls));
        push_opt(&mut config, "max_depth", opt_u32_json(self.max_depth));
        push_opt(&mut config, "max_pages", opt_u32_json(self.max_pages));
        push_list(&mut config, "allowed_domains", &self.allowed_domains);
        push_opt(&mut config, "rate_limit_ms", opt_u32_json(self.rate_limit_ms));
        push_opt(&mut config, "respect_robots_txt", opt_bool_json(self.respect_robots_txt));
        push_opt(&mut config, "include_assets", opt_bool_json(self.include_assets));
        push_opt(&mut config, "max_assets_per_page", opt_u32_json(self.max_assets_per_page));
        let sel = match &self.selectors {
            Some(x) => Some(x.to_json()),
            None => None,
        };
        push_opt(&mut config, "selectors", sel);
        if self.headers.len() > 0 {
            push_member(&mut config, "headers", string_pairs_json(&self.headers));
        }
        config
    }
}

impl IntoCreateSourceRequest for WebSource {
    open spec fn source_request(&self) -> CreateSourceRequestV {
        request_of(
            "web"@,
            name_or(self.name, web_default_name(self.start_urls@)),
            self.description,
            members_merge(web_base_config(*self), members_view(self.config_extra)),
            self.metadata,
        )
    }

    fn into_create_source_request(self) -> (r: CreateSourceRequest) {
        let mut config = self.base_config();
        merge_members(&mut config, self.config_extra);
        let name = match self.name {
            Some(n) => n,
            None => web_default_name_of(&self.start_urls),
        };
        CreateSourceRequest {
            source_type: "web".to_string(),
            name,
            description: self.description,
            config,
            metadata: self.metadata,
        }
    }
}

// ---------------------------------------------------------------------------
// Object storage.

/// Amazon S3 ingestion source.
#[derive(Debug, Default)]
pub struct S3Source {
    pub name: Option<String>,
    pub bucket: String,
    pub prefix: Option<String>,
    pub region: Option<String>,
    pub access_key_id: Option<String>,
    pub secret_access_key: Option<String>,
    pub file_patterns: Vec<String>,
    pub max_file_size_mb: Option<u32>,
    pub sync_mode: Option<String>,
    pub description: Option<String>,
    pub metadata: Option<Members>,
    pub config_extra: Members,
}

/// The config of an S3 source before `config_extra` is merged in.
pub open spec fn s3_base_config(s: S3Source) -> Seq<(Seq<char>, JsonV)> {
    let c = seq![str_entry("type"@, "s3"@)].push(str_entry("bucket"@, s.bucket@)).push(
        ("sync_mode"@, str_or(s.sync_mode, "incremental"@)),
    );
    let c = with_opt(c, "prefix"@, opt_str_view(s.prefix));
    let c = with_opt(c, "region"@, opt_str_view(s.region));
    let c = with_opt(c, "access_key_id"@, opt_str_view(s.access_key_id));
    let c = with_opt(c, "secret_access_key"@, opt_str_view(s.secret_access_key));
    let c = with_list(c, "file_patterns"@, s.file_patterns@);
    with_opt(c, "max_file_size_mb"@, opt_u32_view(s.max_file_size_mb))
}

/// `<prefix>-<sanitized bucket>`, or the fallback when the bucket is empty.
pub open spec fn bucket_default_name(prefix: Seq<char>, bucket: Seq<char>, fallback: Seq<char>) -> Seq<
    char,
> {
    if bucket.len() == 0 {
        fallback
    } else {
        prefix + sanitized(bucket)
    }
}

fn bucket_name(name: Option<String>, prefix: &str, bucket: &String, fallback: &str) -> (r: String)
    ensures
        r@ == name_or(name, bucket_default_name(prefix@, bucket@, fallback@)),
{
    match name {
        Some(n) => n,
        None => if bucket.as_str().is_empty() {
            fallback.to_string()
        } else {
            prefixed_name(prefix, bucket.as_str())
        },
    }
}

impl S3Source {
    fn base_config(&self) -> (r: Members)
        ensures
            members_view(r) == s3_base_config(*self),
    {
        let mut c = empty_members();
        push_member(&mut c, "type", str_json("s3"));
        push_member(&mut c, "bucket", Json::Str(self.bucket.clone()));
        push_member(&mut c, "sync_mode", string_or(clone_opt(&self.sync_mode), "incremental"));
        push_opt(&mut c, "prefix", opt_string_json(clone_opt(&self.prefix)));
        push_opt(&mut c, "region", opt_string_json(clone_opt(&self.region)));
        push_opt(&mut c, "access_key_id", opt_string_json(clone_opt(&self.access_key_id)));
        push_opt(&mut c, "secret_access_key", opt_string_json(clone_opt(&self.secret_access_key)));
        push_list(&mut c, "file_patterns", &self.file_patterns);
        push_opt(&mut c, "max_file_size_mb", opt_u32_json(self.max_file_size_mb));
        c
    }
}

impl IntoCreateSourceRequest for S3Source {
    open spec fn source_request(&self) -> CreateSourceRequestV {
        request_of(
            "s3"@,
            name_or(self.name, bucket_default_name("s3-"@, self.bucket@, "rust-sdk-s3-source"@)),
            self.description,
            members_merge(s3_base_config(*self), members_view(self.config_extra)),
            self.metadata,
        )
    }

    fn into_create_source_request(self) -> (r: CreateSourceRequest) {
        let mut config = self.base_config();
        merge_members(&mut config, self.config_extra);
        let name = bucket_name(self.name, "s3-", &self.bucket, "rust-sdk-s3-source");
        CreateSourceRequest {
            source_type: "s3".to_string(),
            name,
            description: self.description,
            config,
            metadata: self.metadata,
        }
    }
}

/// Google Cloud Storage ingestion source.
#[derive(Debug, Default)]
pub struct GcsSource {
    pub name: Option<String>,
    pub bucket: String,
    pub prefix: Option<String>,
    pub project_id: Option<String>,
    pub credentials_json: Option<String>,
    pub file_patterns: Vec<String>,
    pub max_file_size_mb: Option<u32>,
    pub sync_mode: Option<String>,
    pub description: Option<String>,
    pub metadata: Option<Members>,
    pub config_extra: Members,
}

/// The config of a GCS source before `config_extra` is merged in.
pub open spec fn gcs_base_config(s: GcsSource) -> Seq<(Seq<char>, JsonV)> {
    let c = seq![str_entry("type"@, "gcs"@)].push(str_entry("bucket"@, s.bucket@)).push(
        ("sync_mode"@, str_or(s.sync_mode, "incremental"@)),
    );
    let c = with_opt(c, "prefix"@, opt_str_view(s.prefix));
    let c = with_opt(c, "project_id"@, opt_str_view(s.project_id));
    let c = with_opt(c, "credentials_json"@, opt_str_view(s.credentials_json));
    let c = with_list(c, "file_patterns"@, s.file_patterns@);
    with_opt(c, "max_file_size_mb"@, opt_u32_view(s.max_file_size_mb))
}

impl GcsSource {
    fn base_config(&self) -> (r: Members)
        ensures
            members_view(r) == gcs_base_config(*self),
    {
        let mut c = empty_members();
        push_member(&mut c, "type", str_json("gcs"));
        push_member(&mut c, "bucket", Json::Str(self.bucket.clone()));
        push_member(&mut c, "sync_mode", string_or(clone_opt(&self.sync_mode), "incremental"));
        push_opt(&mut c, "prefix", opt_string_json(clone_opt(&self.prefix)));
        push_opt(&mut c, "project_id", opt_string_json(clone_opt(&self.project_id)));
        push_opt(&mut c, "credentials_json", opt_string_json(clone_opt(&self.credentials_json)));
        push_list(&mut c, "file_patterns", &self.file_patterns);
        push_opt(&mut c, "max_file_size_mb", opt_u32_json(self.max_file_size_mb));
        c
    }
}

impl IntoCreateSourceRequest for GcsSource {
    open spec fn source_request(&self) -> CreateSourceRequestV {
        request_of(
            "gcs"@,
            name_or(self.name, bucket_default_name("gcs-"@, self.bucket@, "rust-sdk-gcs-source"@)),
            self.description,
            members_merge(gcs_base_config(*self), members_view(self.config_extra)),
            self.metadata,
        )
    }

    fn into_create_source_request(self) -> (r: CreateSourceRequest) {
        let mut config = self.base_config();
        merge_members(&mut config, self.config_extra);
        let name = bucket_name(self.name, "gcs-", &self.bucket, "rust-sdk-gcs-source");
        CreateSourceRequest {
            source_type: "gcs".to_string(),
            name,
            description: self.description,
            config,
            metadata: self.metadata,
        }
    }
}

// ---------------------------------------------------------------------------
// Google Drive.

/// Google Drive ingestion source. The public `source_type` is `gdrive`.
#[derive(Debug, Default)]
pub struct GoogleDriveSource {
    pub name: Option<String>,
    pub auth_mode: Option<String>,
    pub service_account_json: Option<String>,
    pub delegated_user: Option<String>,
    pub oauth_credentials: Option<Members>,
    pub drive_id: Option<String>,
    pub folder_ids: Vec<String>,
    pub query: Option<String>,
    pub mime_types: Vec<String>,
    pub include_shared_drives: Option<bool>,
    pub include_team_drives: Option<bool>,
    pub sync_mode: Option<String>,
    pub page_size: Option<u32>,
    pub resume_cursor: Option<String>,
    pub fetch_attachments: Option<bool>,
    pub sampling_enabled: Option<bool>,
    pub sampling_limit: Option<u32>,
    pub max_concurrent_downloads: Option<u32>,
    pub description: Option<String>,
    pub metadata: Option<Members>,
    pub config_extra: Members,
}

/// The first config members of a Google Drive source.
pub open spec fn gdrive_head_config(s: GoogleDriveSource) -> Seq<(Seq<char>, JsonV)> {
    let c = seq![str_entry("type"@, "gdrive"@)].push(
        ("sync_mode"@, str_or(s.sync_mode, "incremental"@)),
    );
    let c = with_opt(c, "auth_mode"@, opt_str_view(s.auth_mode));
    let c = with_opt(c, "service_account_json"@, opt_str_view(s.service_account_json));
    with_opt(c, "delegated_user"@, opt_str_view(s.delegated_user))
}

/// The config of a Google Drive source before `config_extra` is merged in.
pub open spec fn gdrive_base_config(s: GoogleDriveSource) -> Seq<(Seq<char>, JsonV)> {
    let c = gdrive_head_config(s);
    let c = with_opt(c, "oauth_credentials"@, opt_members_view(s.oauth_credentials));
    let c = with_opt(c, "drive_id"@, opt_str_view(s.drive_id));
    let c = with_list(c, "folder_ids"@, s.folder_ids@);
    let c = with_opt(c, "query"@, opt_str_view(s.query));
    let c = with_list(c, "mime_types"@, s.mime_types@);
    let c = with_opt(c, "include_shared_drives"@, opt_bool_view(s.include_shared_drives));
    let c = with_opt(c, "include_team_drives"@, opt_bool_view(s.include_team_drives));
    let c = with_opt(c, "page_size"@, opt_u32_view(s.page_size));
    let c = with_opt(c, "resume_cursor"@, opt_str_view(s.resume_cursor));
    let c = with_opt(c, "fetch_attachments"@, opt_bool_view(s.fetch_attachments));
    let c = with_opt(c, "sampling_enabled"@, opt_bool_view(s.sampling_enabled));
    let c = with_opt(c, "sampling_limit"@, opt_u32_view(s.sampling_limit));
    with_opt(c, "max_concurrent_downloads"@, opt_u32_view(s.max_concurrent_downloads))
}

/// Default name of a Google Drive source: `gdrive-<drive id>`, else
/// `gdrive-<first folder id>` when that is not empty, else
/// `rust-sdk-gdrive-source`.
pub open spec fn gdrive_default_name(s: GoogleDriveSource) -> Seq<char> {
    match s.drive_id {
        Some(d) => "gdrive-"@ + sanitized(d@),
        None => if s.folder_ids@.len() > 0 && s.folder_ids@[0]@.len() > 0 {
            "gdrive-"@ + sanitized(s.folder_ids@[0]@)
        } else {
            "rust-sdk-gdrive-source"@
        },
    }
}

impl GoogleDriveSource {
    fn head_config(&self) -> (r: Members)
        ensures
            members_view(r) == gdrive_head_config(*self),
    {
        let mut c = empty_members();
        push_member(&mut c, "type", str_json("gdrive"));
        push_member(&mut c, "sync_mode", string_or(clone_opt(&self.sync_mode), "incremental"));
        push_opt(&mut c, "auth_mode", opt_string_json(clone_opt(&self.auth_mode)));
        push_opt(
            &mut c,
            "service_account_json",
            opt_string_json(clone_opt(&self.service_account_json)),
        );
        push_opt(&mut c, "delegated_user", opt_string_json(clone_opt(&self.delegated_user)));
        c
    }

    fn default_name(&self) -> (r: String)
        ensures
            r@ == gdrive_default_name(*self),
    {
        match &self.drive_id {
            Some(d) => prefixed_name("gdrive-", d.as_str()),
            None => if self.folder_ids.len() > 0 && !self.folder_ids[0].as_str().is_empty() {
                prefixed_name("gdrive-", self.folder_ids[0].as_str())
            } else {
                "rust-sdk-gdrive-source".to_string()
            },
        }
    }
}

impl IntoCreateSourceRequest for GoogleDriveSource {
    open spec fn source_request(&self) -> CreateSourceRequestV {
        request_of(
            "gdrive"@,
            name_or(self.name, gdrive_default_name(*self)),
            self.description,
            members_merge(gdrive_base_config(*self), members_view(self.config_extra)),
            self.metadata,
        )
    }

    fn into_create_source_request(self) -> (r: CreateSourceRequest) {
        let ghost s = self;
        let name = match &self.name {
            Some(n) => n.clone(),
            None => self.default_name(),
        };
        let mut c = self.head_config();
        push_opt(&mut c, "oauth_credentials", opt_members_json(self.oauth_credentials));
        push_opt(&mut c, "drive_id", opt_string_json(self.drive_id));
        push_list(&mut c, "folder_ids", &self.folder_ids);
        push_opt(&mut c, "query", opt_string_json(self.query));
        push_list(&mut c, "mime_types", &self.mime_types);
        push_opt(&mut c, "include_shared_drives", opt_bool_json(self.include_shared_drives));
        push_opt(&mut c, "include_team_drives", opt_bool_json(self.include_team_drives));
        push_opt(&mut c, "page_size", opt_u32_json(self.page_size));
        push_opt(&mut c, "resume_cursor", opt_string_json(self.resume_cursor));
        push_opt(&mut c, "fetch_attachments", opt_bool_json(self.fetch_attachments));
        push_opt(&mut c, "sampling_enabled", opt_bool_json(self.sampling_enabled));
        push_opt(&mut c, "sampling_limit", opt_u32_json(self.sampling_limit));
        push_opt(&mut c, "max_concurrent_downloads", opt_u32_json(self.max_concurrent_downloads));
        assert(members_view(c) == gdrive_base_config(s));
        merge_members(&mut c, self.config_extra);
        CreateSourceRequest {
            source_type: "gdrive".to_string(),
            name,
            description: self.description,
            config: c,
            metadata: self.metadata,
        }
    }
}

// ---------------------------------------------------------------------------
// File upload.

/// File upload source used by the presigned upload flow.
#[derive(Debug, Default)]
pub struct FileUploadSource {
    pub name: Option<String>,
    pub storage_provider: Option<String>,
    pub key_prefix_template: Option<String>,
    pub allowed_content_types: Vec<String>,
    pub max_file_size_mb: Option<u32>,
    pub max_files_per_job: Option<u32>,
    pub sync_mode: Option<String>,
    pub description: Option<String>,
    pub metadata: Option<Members>,
    pub config_extra: Members,
}

/// The config of a file-upload source before `config_extra` is merged in.
pub open spec fn file_upload_base_config(s: FileUploadSource) -> Seq<(Seq<char>, JsonV)> {
    let c = seq![str_entry("type"@, "file_upload"@)].push(
        ("storage_provider"@, str_or(s.storage_provider, "s3"@)),
    ).push(("sync_mode"@, str_or(s.sync_mode, "full"@)));
    let c = with_opt(c, "key_prefix_template"@, opt_str_view(s.key_prefix_template));
    let c = with_list(c, "allowed_content_types"@, s.allowed_content_types@);
    let c = with_opt(c, "max_file_size_mb"@, opt_u32_view(s.max_file_size_mb));
    with_opt(c, "max_files_per_job"@, opt_u32_view(s.max_files_per_job))
}

impl IntoCreateSourceRequest for FileUploadSource {
    open spec fn source_request(&self) -> CreateSourceRequestV {
        request_of(
            "file_upload"@,
            name_or(self.name, "rust-sdk-file-upload"@),
            self.description,
            members_merge(file_upload_base_config(*self), members_view(self.config_extra)),
            self.metadata,
        )
    }

    fn into_create_source_request(self) -> (r: CreateSourceRequest) {
        let mut c = empty_members();
        push_member(&mut c, "type", str_json("file_upload"));
        push_member(&mut c, "storage_provider", string_or(self.storage_provider, "s3"));
        push_member(&mut c, "sync_mode", string_or(self.sync_mode, "full"));
        push_opt(&mut c, "key_prefix_template", opt_string_json(self.key_prefix_template));
        push_list(&mut c, "allowed_content_types", &self.allowed_content_types);
        push_opt(&mut c, "max_file_size_mb", opt_u32_json(self.max_file_size_mb));
        push_opt(&mut c, "max_files_per_job", opt_u32_json(self.max_files_per_job));
        merge_members(&mut c, self.config_extra);
        let name = match self.name {
            Some(n) => n,
            None => "rust-sdk-file-upload".to_string(),
        };
        CreateSourceRequest {
            source_type: "file_upload".to_string(),
            name,
            description: self.description,
            config: c,
            metadata: self.metadata,
        }
    }
}

pub open spec fn bool_or(o: Option<bool>, d: bool) -> JsonV {
    JsonV::Bool(
        match o {
            Some(b) => b,
            None => d,
        },
    )
}

fn bool_json_or(o: Option<bool>, d: bool) -> (r: Json)
    ensures
        r@ == bool_or(o, d),
{
    Json::Bool(
        match o {
            Some(b) => b,
            None => d,
        },
    )
}

// ---------------------------------------------------------------------------
// Atlassian.

/// Jira ingestion source.
#[derive(Debug, Default)]
pub struct JiraSource {
    pub name: Option<String>,
    pub cloud_id: String,
    pub access_token: Option<String>,
    pub project_keys: Vec<String>,
    pub jql: Option<String>,
    pub include_comments: Option<bool>,
    pub sync_mode: Option<String>,
    pub description: Option<String>,
    pub metadata: Option<Members>,
    pub config_extra: Members,
}

/// The config of a Jira source before `config_extra` is merged in.
pub open spec fn jira_base_config(s: JiraSource) -> Seq<(Seq<char>, JsonV)> {
    let c = seq![str_entry("type"@, "jira"@)].push(str_entry("cloud_id"@, s.cloud_id@)).push(
        ("include_comments"@, bool_or(s.include_comments, true)),
    ).push(("sync_mode"@, str_or(s.sync_mode, "incremental"@)));
    let c = with_opt(c, "access_token"@, opt_str_view(s.access_token));
    let c = with_list(c, "project_keys"@, s.project_keys@);
    with_opt(c, "jql"@, opt_str_view(s.jql))
}

/// Default name of a Jira source: `jira-<first project key>` when that is not
/// empty, else `jira-<cloud id>`, else `rust-sdk-jira-source`.
pub open spec fn jira_default_name(s: JiraSource) -> Seq<char> {
    let hint = if s.project_keys@.len() > 0 && s.project_keys@[0]@.len() > 0 {
        s.project_keys@[0]@
    } else {
        s.cloud_id@
    };
    if hint.len() == 0 {
        "rust-sdk-jira-source"@
    } else {
        "jira-"@ + sanitized(hint)
    }
}

impl JiraSource {
    fn default_name(&self) -> (r: String)
        ensures
            r@ == jira_default_name(*self),
    {
        let hint: &String = if self.project_keys.len() > 0
            && !self.project_keys[0].as_str().is_empty() {
            &self.project_keys[0]
        } else {
            &self.cloud_id
        };
        if hint.as_str().is_empty() {
            "rust-sdk-jira-source".to_string()
        } else {
            prefixed_name("jira-", hint.as_str())
        }
    }
}

impl IntoCreateSourceRequest for JiraSource {
    open spec fn source_request(&self) -> CreateSourceRequestV {
        request_of(
            "jira"@,
            name_or(self.name, jira_default_name(*self)),
            self.description,
            members_merge(jira_base_config(*self), members_view(self.config_extra)),
            self.metadata,
        )
    }

    fn into_create_source_request(self) -> (r: CreateSourceRequest) {
        let name = match &self.name {
            Some(n) => n.clone(),
            None => self.default_name(),
        };
        let mut c = empty_members();
        push_member(&mut c, "type", str_json("jira"));
        push_member(&mut c, "cloud_id", Json::Str(self.cloud_id));
        push_member(&mut c, "include_comments", bool_json_or(self.include_comments, true));
        push_member(&mut c, "sync_mode", string_or(self.sync_mode, "incremental"));
        push_opt(&mut c, "access_token", opt_string_json(self.access_token));
        push_list(&mut c, "project_keys", &self.project_keys);
        push_opt(&mut c, "jql", opt_string_json(self.jql));
        merge_members(&mut c, self.config_extra);
        CreateSourceRequest {
            source_type: "jira".to_string(),
            name,
            description: self.description,
            config: c,
            metadata: self.metadata,
        }
    }
}

/// Confluence ingestion source (spaces and pages).
///
/// Provide either `cloud_id` (Atlassian OAuth site id) or `base_url`
/// (e.g. `https://company.atlassian.net`). `auth_mode` defaults to `basic`
/// (`username` + `api_token`); pass `oauth_credentials` for OAuth.
#[derive(Debug, Default)]
pub struct ConfluenceSource {
    pub name: Option<String>,
    pub cloud_id: Option<String>,
    pub base_url: Option<String>,
    pub auth_mode: Option<String>,
    pub username: Option<String>,
    pub api_token: Option<String>,
    pub oauth_credentials: Option<Members>,
    pub spaces: Vec<String>,
    pub include_attachments: Option<bool>,
    pub sync_mode: Option<String>,
    pub description: Option<String>,
    pub metadata: Option<Members>,
    pub config_extra: Members,
}

/// The config of a Confluence source before `config_extra` is merged in.
pub open spec fn confluence_base_config(s: ConfluenceSource) -> Seq<(Seq<char>, JsonV)> {
    let c = seq![str_entry("type"@, "confluence"@)].push(
        ("auth_mode"@, str_or(s.auth_mode, "basic"@)),
    ).push(("include_attachments"@, bool_or(s.include_attachments, false))).push(
        ("sync_mode"@, str_or(s.sync_mode, "incremental"@)),
    );
    let c = with_opt(c, "cloud_id"@, opt_str_view(s.cloud_id));
    let c = with_opt(c, "base_url"@, opt_str_view(s.base_url));
    let c = with_opt(c, "username"@, opt_str_view(s.username));
    let c = with_opt(c, "api_token"@, opt_str_view(s.api_token));
    let c = with_opt(c, "oauth_credentials"@, opt_members_view(s.oauth_credentials));
    with_list(c, "spaces"@, s.spaces@)
}

/// The host of the Confluence base URL, when it has one.
pub open spec fn confluence_host(base_url: Option<String>) -> Option<Seq<char>> {
    match base_url {
        Some(u) => url_host(u@),
        None => None,
    }
}

/// What a Confluence source's default name is derived from: the first space
/// when not empty, else the host of `base_url`, else `cloud_id`.
pub open spec fn confluence_hint(s: ConfluenceSource) -> Option<Seq<char>> {
    if s.spaces@.len() > 0 && s.spaces@[0]@.len() > 0 {
        Some(s.spaces@[0]@)
    } else {
        match confluence_host(s.base_url) {
            Some(h) => Some(h),
            None => opt_string_view(s.cloud_id),
        }
    }
}

/// Default name of a Confluence source: `confluence-<hint>` when the hint is
/// present and not empty, else `rust-sdk-confluence-source`.
pub open spec fn confluence_default_name(s: ConfluenceSource) -> Seq<char> {
    match confluence_hint(s) {
        Some(h) => if h.len() > 0 {
            "confluence-"@ + sanitized(h)
        } else {
            "rust-sdk-confluence-source"@
        },
        None => "rust-sdk-confluence-source"@,
    }
}

impl ConfluenceSource {
    fn hint(&self) -> (r: Option<String>)
        ensures
            opt_string_view(r) == confluence_hint(*self),
    {
        if self.spaces.len() > 0 && !self.spaces[0].as_str().is_empty() {
            Some(self.spaces[0].clone())
        } else {
            let host = match &self.base_url {
                Some(u) => parse_url_host(u.as_str()),
                None => None,
            };
            match host {
                Some(h) => Some(h),
                None => clone_opt(&self.cloud_id),
            }
        }
    }

    fn default_name(&self) -> (r: String)
        ensures
            r@ == confluence_default_name(*self),
    {
        match self.hint() {
            Some(h) => if h.as_str().is_empty() {
                "rust-sdk-confluence-source".to_string()
            } else {
                prefixed_name("confluence-", h.as_str())
            },
            None => "rust-sdk-confluence-source".to_string(),
        }
    }
}

impl IntoCreateSourceRequest for ConfluenceSource {
    open spec fn source_request(&self) -> CreateSourceRequestV {
        request_of(
            "confluence"@,
            name_or(self.name, confluence_default_name(*self)),
            self.description,
            members_merge(confluence_base_config(*self), members_view(self.config_extra)),
            self.metadata,
        )
    }

    fn into_create_source_request(self) -> (r: CreateSourceRequest) {
        let name = match &self.name {
            Some(n) => n.clone(),
            None => self.default_name(),
        };
        let mut c = empty_members();
        push_member(&mut c, "type", str_json("confluence"));
        push_member(&mut c, "auth_mode", string_or(self.auth_mode, "basic"));
        push_member(&mut c, "include_attachments", bool_json_or(self.include_attachments, false));
        push_member(&mut c, "sync_mode", string_or(self.sync_mode, "incremental"));
        push_opt(&mut c, "cloud_id", opt_string_json(self.cloud_id));
        push_opt(&mut c, "base_url", opt_string_json(self.base_url));
        push_opt(&mut c, "username", opt_string_json(self.username));
        push_opt(&mut c, "api_token", opt_string_json(self.api_token));
        push_opt(&mut c, "oauth_credentials", opt_members_json(self.oauth_credentials));
        push_list(&mut c, "spaces", &self.spaces);
        merge_members(&mut c, self.config_extra);
        CreateSourceRequest {
            source_type: "confluence".to_string(),
            name,
            description: self.description,
            config: c,
            metadata: self.metadata,
        }
    }
}

// ---------------------------------------------------------------------------
// Source control.

/// GitHub ingestion source backed by the VectorAmp GitHub App.
///
/// Repositories, active branches, pull requests, and review discussions are
/// read through a GitHub App installation, so no token is passed here.
///
/// Name defaults to `github-<owner>-<repo>` from the first repository, or
/// `rust-sdk-github-source` when no repository is supplied.
#[derive(Debug, Default)]
pub struct GitHubSource {
    pub name: Option<String>,
    /// GitHub App installation id. Required by the API and must be positive.
    pub installation_id: u64,
    /// `owner/repo` full names to ingest. At least one is required by the API.
    pub repositories: Vec<String>,
    /// `active` (server default), `default`, or `explicit`.
    pub ref_mode: Option<String>,
    /// Explicit branch names, used with `ref_mode = "explicit"`.
    pub refs: Vec<String>,
    /// Branch names to skip.
    pub excluded_refs: Vec<String>,
    /// Activity window in days (1-90). Server default is 7.
    pub active_branch_days: Option<u32>,
    /// Ingest pull requests. Server default is true.
    pub include_pull_requests: Option<bool>,
    /// Ingest review discussions. Server default is true.
    pub include_review_threads: Option<bool>,
    /// Ingest commits pushed outside a pull request. Server default is true.
    pub include_direct_commits: Option<bool>,
    /// Path globs to include. Server default is `**/*`.
    pub include_globs: Vec<String>,
    /// Path globs to skip.
    pub exclude_globs: Vec<String>,
    /// Per-file size ceiling (1-25_000_000). Server default is 1_000_000.
    pub max_file_size_bytes: Option<u64>,
    pub sync_mode: Option<String>,
    pub description: Option<String>,
    pub metadata: Option<Members>,
    pub config_extra: Members,
}

/// The first config members of a GitHub source.
pub open spec fn github_head_config(s: GitHubSource) -> Seq<(Seq<char>, JsonV)> {
    let c = seq![str_entry("type"@, "github"@)].push(
        ("installation_id"@, JsonV::Int(s.installation_id as int)),
    ).push(("repositories"@, strings_view(s.repositories@))).push(
        ("sync_mode"@, str_or(s.sync_mode, "incremental"@)),
    );
    let c = with_opt(c, "ref_mode"@, opt_str_view(s.ref_mode));
    let c = with_list(c, "refs"@, s.refs@);
    with_list(c, "excluded_refs"@, s.excluded_refs@)
}

/// The config of a GitHub source before `config_extra` is merged in.
pub open spec fn github_base_config(s: GitHubSource) -> Seq<(Seq<char>, JsonV)> {
    let c = github_head_config(s);
    let c = with_opt(c, "active_branch_days"@, opt_u32_view(s.active_branch_days));
    let c = with_opt(c, "include_pull_requests"@, opt_bool_view(s.include_pull_requests));
    let c = with_opt(c, "include_review_threads"@, opt_bool_view(s.include_review_threads));
    let c = with_opt(c, "include_direct_commits"@, opt_bool_view(s.include_direct_commits));
    let c = with_list(c, "include_globs"@, s.include_globs@);
    let c = with_list(c, "exclude_globs"@, s.exclude_globs@);
    with_opt(c, "max_file_size_bytes"@, opt_u64_view(s.max_file_size_bytes))
}

impl GitHubSource {
    fn head_config(&self) -> (r: Members)
        ensures
            members_view(r) == github_head_config(*self),
    {
        let mut c = empty_members();
        push_member(&mut c, "type", str_json("github"));
        push_member(&mut c, "installation_id", Json::Int(self.installation_id as i128));
        push_member(&mut c, "repositories", strings_json(&self.repositories));
        push_member(&mut c, "sync_mode", string_or(clone_opt(&self.sync_mode), "incremental"));
        push_opt(&mut c, "ref_mode", opt_string_json(clone_opt(&self.ref_mode)));
        push_list(&mut c, "refs", &self.refs);
        push_list(&mut c, "excluded_refs", &self.excluded_refs);
        c
    }
}

impl IntoCreateSourceRequest for GitHubSource {
    open spec fn source_request(&self) -> CreateSourceRequestV {
        request_of(
            "github"@,
            name_or(self.name, scm_default_name("github"@, first_of(self.repositories@))),
            self.description,
            members_merge(github_base_config(*self), members_view(self.config_extra)),
            self.metadata,
        )
    }

    fn into_create_source_request(self) -> (r: CreateSourceRequest) {
        let ghost s = self;
        let mut c = self.head_config();
        push_opt(&mut c, "active_branch_days", opt_u32_json(self.active_branch_days));
        push_opt(&mut c, "include_pull_requests", opt_bool_json(self.include_pull_requests));
        push_opt(&mut c, "include_review_threads", opt_bool_json(self.include_review_threads));
        push_opt(&mut c, "include_direct_commits", opt_bool_json(self.include_direct_commits));
        push_list(&mut c, "include_globs", &self.include_globs);
        push_list(&mut c, "exclude_globs", &self.exclude_globs);
        push_opt(&mut c, "max_file_size_bytes", opt_u64_json(self.max_file_size_bytes));
        assert(members_view(c) == github_base_config(s));
        merge_members(&mut c, self.config_extra);
        let name = match self.name {
            Some(n) => n,
            None => {
                let first = if self.repositories.len() > 0 {
                    Some(&self.repositories[0])
                } else {
                    None
                };
                source_control_default_name("github", first)
            },
        };
        CreateSourceRequest {
            source_type: "github".to_string(),
            name,
            description: self.description,
            config: c,
            metadata: self.metadata,
        }
    }
}

/// GitLab ingestion source for gitlab.com or a self-managed instance.
///
/// Authenticates with an access token (`auth_mode = "token"` plus
/// `access_token`) or a stored OAuth connection (`connection_id`). The API
/// requires at least one group or project.
///
/// Name defaults to `gitlab-<path>` from the first project (then group), or
/// `rust-sdk-gitlab-source` when neither is supplied.
#[derive(Debug, Default)]
pub struct GitLabSource {
    pub name: Option<String>,
    /// Group paths, e.g. `mygroup`.
    pub groups: Vec<String>,
    /// Project paths with namespace, e.g. `mygroup/myproject`.
    pub projects: Vec<String>,
    /// `oauth` (default) or `token`.
    pub auth_mode: Option<String>,
    /// Instance base URL. Defaults to `https://gitlab.com`.
    pub gitlab_url: Option<String>,
    /// Personal or group access token for `auth_mode = "token"`.
    pub access_token: Option<String>,
    /// Stored OAuth connection id, used instead of an inline token.
    pub connection_id: Option<String>,
    /// `active` (server default), `default`, or `explicit`.
    pub ref_mode: Option<String>,
    /// Explicit branch names, used with `ref_mode = "explicit"`.
    pub refs: Vec<String>,
    /// Branch names to skip.
    pub excluded_refs: Vec<String>,
    /// Activity window in days (1-90). Server default is 7.
    pub active_branch_days: Option<u32>,
    /// Ingest merge requests. Server default is true.
    pub include_merge_requests: Option<bool>,
    /// Ingest review discussions. Server default is true.
    pub include_review_threads: Option<bool>,
    /// Ingest commits pushed outside a merge request. Server default is true.
    pub include_direct_commits: Option<bool>,
    /// Path globs to include. Server default is `**/*`.
    pub include_globs: Vec<String>,
    /// Path globs to skip.
    pub exclude_globs: Vec<String>,
    /// Per-file size ceiling (1-25_000_000). Server default is 1_000_000.
    pub max_file_size_bytes: Option<u64>,
    pub sync_mode: Option<String>,
    pub description: Option<String>,
    pub metadata: Option<Members>,
    pub config_extra: Members,
}

/// The first config members of a GitLab source.
pub open spec fn gitlab_head_config(s: GitLabSource) -> Seq<(Seq<char>, JsonV)> {
    let c = seq![str_entry("type"@, "gitlab"@)].push(
        ("auth_mode"@, str_or(s.auth_mode, "oauth"@)),
    ).push(("gitlab_url"@, str_or(s.gitlab_url, "https://gitlab.com"@))).push(
        ("sync_mode"@, str_or(s.sync_mode, "incremental"@)),
    );
    let c = with_list(c, "groups"@, s.groups@);
    let c = with_list(c, "projects"@, s.projects@);
    let c = with_opt(c, "access_token"@, opt_str_view(s.access_token));
    let c = with_opt(c, "connection_id"@, opt_str_view(s.connection_id));
    with_opt(c, "ref_mode"@, opt_str_view(s.ref_mode))
}

/// The config of a GitLab source before `config_extra` is merged in.
pub open spec fn gitlab_base_config(s: GitLabSource) -> Seq<(Seq<char>, JsonV)> {
    let c = gitlab_head_config(s);
    let c = with_list(c, "refs"@, s.refs@);
    let c = with_list(c, "excluded_refs"@, s.excluded_refs@);
    let c = with_opt(c, "active_branch_days"@, opt_u32_view(s.active_branch_days));
    let c = with_opt(c, "include_merge_requests"@, opt_bool_view(s.include_merge_requests));
    let c = with_opt(c, "include_review_threads"@, opt_bool_view(s.include_review_threads));
    let c = with_opt(c, "include_direct_commits"@, opt_bool_view(s.include_direct_commits));
    let c = with_list(c, "include_globs"@, s.include_globs@);
    let c = with_list(c, "exclude_globs"@, s.exclude_globs@);
    with_opt(c, "max_file_size_bytes"@, opt_u64_view(s.max_file_size_bytes))
}

/// What a GitLab source's default name is derived from: the first project,
/// else the first group (an empty first project is not skipped).
pub open spec fn gitlab_hint(s: GitLabSource) -> Option<Seq<char>> {
    if s.projects@.len() > 0 {
        Some(s.projects@[0]@)
    } else {
        first_of(s.groups@)
    }
}

impl GitLabSource {
    fn head_config(&self) -> (r: Members)
        ensures
            members_view(r) == gitlab_head_config(*self),
    {
        let mut c = empty_members();
        push_member(&mut c, "type", str_json("gitlab"));
        push_member(&mut c, "auth_mode", string_or(clone_opt(&self.auth_mode), "oauth"));
        push_member(
            &mut c,
            "gitlab_url",
            string_or(clone_opt(&self.gitlab_url), "https://gitlab.com"),
        );
        push_member(&mut c, "sync_mode", string_or(clone_opt(&self.sync_mode), "incremental"));
        push_list(&mut c, "groups", &self.groups);
        push_list(&mut c, "projects", &self.projects);
        push_opt(&mut c, "access_token", opt_string_json(clone_opt(&self.access_token)));
        push_opt(&mut c, "connection_id", opt_string_json(clone_opt(&self.connection_id)));
        push_opt(&mut c, "ref_mode", opt_string_json(clone_opt(&self.ref_mode)));
        c
    }
}

impl IntoCreateSourceRequest for GitLabSource {
    open spec fn source_request(&self) -> CreateSourceRequestV {
        request_of(
            "gitlab"@,
            name_or(self.name, scm_default_name("gitlab"@, gitlab_hint(*self))),
            self.description,
            members_merge(gitlab_base_config(*self), members_view(self.config_extra)),
            self.metadata,
        )
    }

    fn into_create_source_request(self) -> (r: CreateSourceRequest) {
        let ghost s = self;
        let mut c = self.head_config();
        push_list(&mut c, "refs", &self.refs);
        push_list(&mut c, "excluded_refs", &self.excluded_refs);
        push_opt(&mut c, "active_branch_days", opt_u32_json(self.active_branch_days));
        push_opt(&mut c, "include_merge_requests", opt_bool_json(self.include_merge_requests));
        push_opt(&mut c, "include_review_threads", opt_bool_json(self.include_review_threads));
        push_opt(&mut c, "include_direct_commits", opt_bool_json(self.include_direct_commits));
        push_list(&mut c, "include_globs", &self.include_globs);
        push_list(&mut c, "exclude_globs", &self.exclude_globs);
        push_opt(&mut c, "max_file_size_bytes", opt_u64_json(self.max_file_size_bytes));
        assert(members_view(c) == gitlab_base_config(s));
        merge_members(&mut c, self.config_extra);
        let name = match self.name {
            Some(n) => n,
            None => {
                let hint = if self.projects.len() > 0 {
                    Some(&self.projects[0])
                } else if self.groups.len() > 0 {
                    Some(&self.groups[0])
                } else {
                    None
                };
                source_control_default_name("gitlab", hint)
            },
        };
        CreateSourceRequest {
            source_type: "gitlab".to_string(),
            name,
            description: self.description,
            config: c,
            metadata: self.metadata,
        }
    }
}

} // verus!
