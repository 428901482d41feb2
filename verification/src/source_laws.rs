//! What the source builders send: their type and name, and in their config
//! every field that is set, with the extra config given the last word.

use vstd::prelude::*;
use crate::json::{
    members_merge, members_view, member_value, opt_bool_view, opt_members_view, opt_u32_view,
    string_pairs_view, strings_view, with_opt, JsonV,
};
use crate::laws::{
    lemma_member_after_list, lemma_member_after_opt, lemma_member_after_push,
    lemma_member_merge_kept, lemma_member_of_empty, last_named, law_merge_later_wins,
    not_overridden,
};
use crate::sources::{
    confluence_base_config, file_upload_base_config, gcs_base_config, gdrive_base_config,
    github_base_config, gitlab_base_config, jira_base_config, s3_base_config, selectors_view,
    web_base_config, sanitized, ConfluenceSource, FileUploadSource, GcsSource, GenericSource,
    GitHubSource, GitLabSource, GoogleDriveSource, IntoCreateSourceRequest, JiraSource, S3Source,
    WebSource,
};

verus! {

/// Every field set on the `S3Source` builder is sent in its config under its
/// own name, with its value (defaulted fields with their default), unless the
/// extra config names it; unset optional fields and empty lists are left out.
#[verifier::rlimit(100)]
#[verifier::spinoff_prover]
pub proof fn law_s3_config_keeps_fields(s: S3Source)
    ensures
        not_overridden(s.config_extra, "type"@) ==>
            member_value(s.source_request().config, "type"@) == Some(JsonV::Str("s3"@)),
        not_overridden(s.config_extra, "bucket"@) ==>
            member_value(s.source_request().config, "bucket"@) == Some(JsonV::Str(s.bucket@)),
        not_overridden(s.config_extra, "sync_mode"@) ==>
            member_value(s.source_request().config, "sync_mode"@) == Some(JsonV::Str(match s.sync_mode {
            Some(x) => x@,
            None => "incremental"@,
        })),
        not_overridden(s.config_extra, "prefix"@) ==>
            member_value(s.source_request().config, "prefix"@) == match s.prefix {
            Some(x) => Some(JsonV::Str(x@)),
            None => None,
        },
        not_overridden(s.config_extra, "region"@) ==>
            member_value(s.source_request().config, "region"@) == match s.region {
            Some(x) => Some(JsonV::Str(x@)),
            None => None,
        },
        not_overridden(s.config_extra, "access_key_id"@) ==>
            member_value(s.source_request().config, "access_key_id"@) == match s.access_key_id {
            Some(x) => Some(JsonV::Str(x@)),
            None => None,
        },
        not_overridden(s.config_extra, "secret_access_key"@) ==>
            member_value(s.source_request().config, "secret_access_key"@) == match s.secret_access_key {
            Some(x) => Some(JsonV::Str(x@)),
            None => None,
        },
        not_overridden(s.config_extra, "file_patterns"@) ==>
            member_value(s.source_request().config, "file_patterns"@) == (if s.file_patterns@.len() > 0 {
            Some(strings_view(s.file_patterns@))
        } else {
            None
        }),
        not_overridden(s.config_extra, "max_file_size_mb"@) ==>
            member_value(s.source_request().config, "max_file_size_mb"@) == match s.max_file_size_mb {
            Some(x) => Some(JsonV::Int(x as int)),
            None => None,
        },
{
    broadcast use lemma_member_after_opt, lemma_member_after_push, lemma_member_after_list,
        lemma_member_of_empty;

    reveal_strlit("access_key_id");
    reveal_strlit("bucket");
    reveal_strlit("file_patterns");
    reveal_strlit("max_file_size_mb");
    reveal_strlit("prefix");
    reveal_strlit("region");
    reveal_strlit("secret_access_key");
    reveal_strlit("sync_mode");
    reveal_strlit("type");
    assert("type"@.len() == 4);
    assert("bucket"@.len() == 6);
    assert("sync_mode"@.len() == 9);
    assert("prefix"@.len() == 6);
    assert("region"@.len() == 6);
    assert("access_key_id"@.len() == 13);
    assert("secret_access_key"@.len() == 17);
    assert("file_patterns"@.len() == 13);
    assert("max_file_size_mb"@.len() == 16);
    assert("bucket"@[0] != "prefix"@[0]);
    assert("bucket"@[0] != "region"@[0]);
    assert("prefix"@[0] != "region"@[0]);
    assert("access_key_id"@[0] != "file_patterns"@[0]);
    let base = s3_base_config(s);
    let extra = members_view(s.config_extra);
    assert(s.source_request().config == members_merge(base, extra));
    lemma_member_merge_kept(base, extra, "type"@);
    lemma_member_merge_kept(base, extra, "bucket"@);
    lemma_member_merge_kept(base, extra, "sync_mode"@);
    lemma_member_merge_kept(base, extra, "prefix"@);
    lemma_member_merge_kept(base, extra, "region"@);
    lemma_member_merge_kept(base, extra, "access_key_id"@);
    lemma_member_merge_kept(base, extra, "secret_access_key"@);
    lemma_member_merge_kept(base, extra, "file_patterns"@);
    lemma_member_merge_kept(base, extra, "max_file_size_mb"@);
}


/// Every field set on the `GcsSource` builder is sent in its config under its
/// own name, with its value (defaulted fields with their default), unless the
/// extra config names it; unset optional fields and empty lists are left out.
#[verifier::rlimit(100)]
#[verifier::spinoff_prover]
pub proof fn law_gcs_config_keeps_fields(s: GcsSource)
    ensures
        not_overridden(s.config_extra, "type"@) ==>
            member_value(s.source_request().config, "type"@) == Some(JsonV::Str("gcs"@)),
        not_overridden(s.config_extra, "bucket"@) ==>
            member_value(s.source_request().config, "bucket"@) == Some(JsonV::Str(s.bucket@)),
        not_overridden(s.config_extra, "sync_mode"@) ==>
            member_value(s.source_request().config, "sync_mode"@) == Some(JsonV::Str(match s.sync_mode {
            Some(x) => x@,
            None => "incremental"@,
        })),
        not_overridden(s.config_extra, "prefix"@) ==>
            member_value(s.source_request().config, "prefix"@) == match s.prefix {
            Some(x) => Some(JsonV::Str(x@)),
            None => None,
        },
        not_overridden(s.config_extra, "project_id"@) ==>
            member_value(s.source_request().config, "project_id"@) == match s.project_id {
            Some(x) => Some(JsonV::Str(x@)),
            None => None,
        },
        not_overridden(s.config_extra, "credentials_json"@) ==>
            member_value(s.source_request().config, "credentials_json"@) == match s.credentials_json {
            Some(x) => Some(JsonV::Str(x@)),
            None => None,
        },
        not_overridden(s.config_extra, "file_patterns"@) ==>
            member_value(s.source_request().config, "file_patterns"@) == (if s.file_patterns@.len() > 0 {
            Some(strings_view(s.file_patterns@))
        } else {
            None
        }),
        not_overridden(s.config_extra, "max_file_size_mb"@) ==>
            member_value(s.source_request().config, "max_file_size_mb"@) == match s.max_file_size_mb {
            Some(x) => Some(JsonV::Int(x as int)),
            None => None,
        },
{
    broadcast use lemma_member_after_opt, lemma_member_after_push, lemma_member_after_list,
        lemma_member_of_empty;

    reveal_strlit("bucket");
    reveal_strlit("credentials_json");
    reveal_strlit("file_patterns");
    reveal_strlit("max_file_size_mb");
    reveal_strlit("prefix");
    reveal_strlit("project_id");
    reveal_strlit("sync_mode");
    reveal_strlit("type");
    assert("type"@.len() == 4);
    assert("bucket"@.len() == 6);
    assert("sync_mode"@.len() == 9);
    assert("prefix"@.len() == 6);
    assert("project_id"@.len() == 10);
    assert("credentials_json"@.len() == 16);
    assert("file_patterns"@.len() == 13);
    assert("max_file_size_mb"@.len() == 16);
    assert("bucket"@[0] != "prefix"@[0]);
    assert("credentials_json"@[0] != "max_file_size_mb"@[0]);
    let base = gcs_base_config(s);
    let extra = members_view(s.config_extra);
    assert(s.source_request().config == members_merge(base, extra));
    lemma_member_merge_kept(base, extra, "type"@);
    lemma_member_merge_kept(base, extra, "bucket"@);
    lemma_member_merge_kept(base, extra, "sync_mode"@);
    lemma_member_merge_kept(base, extra, "prefix"@);
    lemma_member_merge_kept(base, extra, "project_id"@);
    lemma_member_merge_kept(base, extra, "credentials_json"@);
    lemma_member_merge_kept(base, extra, "file_patterns"@);
    lemma_member_merge_kept(base, extra, "max_file_size_mb"@);
}


/// Every field set on the `FileUploadSource` builder is sent in its config
/// under its own name, with its value (defaulted fields with their default),
/// unless the extra config names it; unset optional fields and empty lists are
/// left out.
#[verifier::rlimit(100)]
#[verifier::spinoff_prover]
pub proof fn law_file_upload_config_keeps_fields(s: FileUploadSource)
    ensures
        not_overridden(s.config_extra, "type"@) ==>
            member_value(s.source_request().config, "type"@) == Some(JsonV::Str("file_upload"@)),
        not_overridden(s.config_extra, "storage_provider"@) ==>
            member_value(s.source_request().config, "storage_provider"@) == Some(JsonV::Str(match s.storage_provider {
            Some(x) => x@,
            None => "s3"@,
        })),
        not_overridden(s.config_extra, "sync_mode"@) ==>
            member_value(s.source_request().config, "sync_mode"@) == Some(JsonV::Str(match s.sync_mode {
            Some(x) => x@,
            None => "full"@,
        })),
        not_overridden(s.config_extra, "key_prefix_template"@) ==>
            member_value(s.source_request().config, "key_prefix_template"@) == match s.key_prefix_template {
            Some(x) => Some(JsonV::Str(x@)),
            None => None,
        },
        not_overridden(s.config_extra, "allowed_content_types"@) ==>
            member_value(s.source_request().config, "allowed_content_types"@) == (if s.allowed_content_types@.len() > 0 {
            Some(strings_view(s.allowed_content_types@))
        } else {
            None
        }),
        not_overridden(s.config_extra, "max_file_size_mb"@) ==>
            member_value(s.source_request().config, "max_file_size_mb"@) == match s.max_file_size_mb {
            Some(x) => Some(JsonV::Int(x as int)),
            None => None,
        },
        not_overridden(s.config_extra, "max_files_per_job"@) ==>
            member_value(s.source_request().config, "max_files_per_job"@) == match s.max_files_per_job {
            Some(x) => Some(JsonV::Int(x as int)),
            None => None,
        },
{
    broadcast use lemma_member_after_opt, lemma_member_after_push, lemma_member_after_list,
        lemma_member_of_empty;

    reveal_strlit("allowed_content_types");
    reveal_strlit("key_prefix_template");
    reveal_strlit("max_file_size_mb");
    reveal_strlit("max_files_per_job");
    reveal_strlit("storage_provider");
    reveal_strlit("sync_mode");
    reveal_strlit("type");
    assert("type"@.len() == 4);
    assert("storage_provider"@.len() == 16);
    assert("sync_mode"@.len() == 9);
    assert("key_prefix_template"@.len() == 19);
    assert("allowed_content_types"@.len() == 21);
    assert("max_file_size_mb"@.len() == 16);
    assert("max_files_per_job"@.len() == 17);
    assert("storage_provider"@[0] != "max_file_size_mb"@[0]);
    let base = file_upload_base_config(s);
    let extra = members_view(s.config_extra);
    assert(s.source_request().config == members_merge(base, extra));
    lemma_member_merge_kept(base, extra, "type"@);
    lemma_member_merge_kept(base, extra, "storage_provider"@);
    lemma_member_merge_kept(base, extra, "sync_mode"@);
    lemma_member_merge_kept(base, extra, "key_prefix_template"@);
    lemma_member_merge_kept(base, extra, "allowed_content_types"@);
    lemma_member_merge_kept(base, extra, "max_file_size_mb"@);
    lemma_member_merge_kept(base, extra, "max_files_per_job"@);
}

/// Every field set on the `JiraSource` builder is sent in its config under its
/// own name, with its value (defaulted fields with their default), unless the
/// extra config names it; unset optional fields and empty lists are left out.
#[verifier::rlimit(100)]
#[verifier::spinoff_prover]
pub proof fn law_jira_config_keeps_fields(s: JiraSource)
    ensures
        not_overridden(s.config_extra, "type"@) ==>
            member_value(s.source_request().config, "type"@) == Some(JsonV::Str("jira"@)),
        not_overridden(s.config_extra, "cloud_id"@) ==>
            member_value(s.source_request().config, "cloud_id"@) == Some(JsonV::Str(s.cloud_id@)),
        not_overridden(s.config_extra, "include_comments"@) ==>
            member_value(s.source_request().config, "include_comments"@) == Some(JsonV::Bool(match s.include_comments {
            Some(x) => x,
            None => true,
        })),
        not_overridden(s.config_extra, "sync_mode"@) ==>
            member_value(s.source_request().config, "sync_mode"@) == Some(JsonV::Str(match s.sync_mode {
            Some(x) => x@,
            None => "incremental"@,
        })),
        not_overridden(s.config_extra, "access_token"@) ==>
            member_value(s.source_request().config, "access_token"@) == match s.access_token {
            Some(x) => Some(JsonV::Str(x@)),
            None => None,
        },
        not_overridden(s.config_extra, "project_keys"@) ==>
            member_value(s.source_request().config, "project_keys"@) == (if s.project_keys@.len() > 0 {
            Some(strings_view(s.project_keys@))
        } else {
            None
        }),
        not_overridden(s.config_extra, "jql"@) ==>
            member_value(s.source_request().config, "jql"@) == match s.jql {
            Some(x) => Some(JsonV::Str(x@)),
            None => None,
        },
{
    broadcast use lemma_member_after_opt, lemma_member_after_push, lemma_member_after_list,
        lemma_member_of_empty;

    reveal_strlit("access_token");
    reveal_strlit("cloud_id");
    reveal_strlit("include_comments");
    reveal_strlit("jql");
    reveal_strlit("project_keys");
    reveal_strlit("sync_mode");
    reveal_strlit("type");
    assert("type"@.len() == 4);
    assert("cloud_id"@.len() == 8);
    assert("include_comments"@.len() == 16);
    assert("sync_mode"@.len() == 9);
    assert("access_token"@.len() == 12);
    assert("project_keys"@.len() == 12);
    assert("jql"@.len() == 3);
    assert("access_token"@[0] != "project_keys"@[0]);
    let base = jira_base_config(s);
    let extra = members_view(s.config_extra);
    assert(s.source_request().config == members_merge(base, extra));
    lemma_member_merge_kept(base, extra, "type"@);
    lemma_member_merge_kept(base, extra, "cloud_id"@);
    lemma_member_merge_kept(base, extra, "include_comments"@);
    lemma_member_merge_kept(base, extra, "sync_mode"@);
    lemma_member_merge_kept(base, extra, "access_token"@);
    lemma_member_merge_kept(base, extra, "project_keys"@);
    lemma_member_merge_kept(base, extra, "jql"@);
}

/// Every field set on the `ConfluenceSource` builder is sent in its config
/// under its own name, with its value (defaulted fields with their default),
/// unless the extra config names it; unset optional fields and empty lists are
/// left out.
#[verifier::rlimit(100)]
#[verifier::spinoff_prover]
pub proof fn law_confluence_config_keeps_fields(s: ConfluenceSource)
    ensures
        not_overridden(s.config_extra, "type"@) ==>
            member_value(s.source_request().config, "type"@) == Some(JsonV::Str("confluence"@)),
        not_overridden(s.config_extra, "auth_mode"@) ==>
            member_value(s.source_request().config, "auth_mode"@) == Some(JsonV::Str(match s.auth_mode {
            Some(x) => x@,
            None => "basic"@,
        })),
        not_overridden(s.config_extra, "include_attachments"@) ==>
            member_value(s.source_request().config, "include_attachments"@) == Some(JsonV::Bool(match s.include_attachments {
            Some(x) => x,
            None => false,
        })),
        not_overridden(s.config_extra, "sync_mode"@) ==>
            member_value(s.source_request().config, "sync_mode"@) == Some(JsonV::Str(match s.sync_mode {
            Some(x) => x@,
            None => "incremental"@,
        })),
        not_overridden(s.config_extra, "cloud_id"@) ==>
            member_value(s.source_request().config, "cloud_id"@) == match s.cloud_id {
            Some(x) => Some(JsonV::Str(x@)),
            None => None,
        },
        not_overridden(s.config_extra, "base_url"@) ==>
            member_value(s.source_request().config, "base_url"@) == match s.base_url {
            Some(x) => Some(JsonV::Str(x@)),
            None => None,
        },
        not_overridden(s.config_extra, "username"@) ==>
            member_value(s.source_request().config, "username"@) == match s.username {
            Some(x) => Some(JsonV::Str(x@)),
            None => None,
        },
        not_overridden(s.config_extra, "api_token"@) ==>
            member_value(s.source_request().config, "api_token"@) == match s.api_token {
            Some(x) => Some(JsonV::Str(x@)),
            None => None,
        },
        not_overridden(s.config_extra, "oauth_credentials"@) ==>
            member_value(s.source_request().config, "oauth_credentials"@) == match s.oauth_credentials {
            Some(x) => Some(JsonV::Object(members_view(x))),
            None => None,
        },
        not_overridden(s.config_extra, "spaces"@) ==>
            member_value(s.source_request().config, "spaces"@) == (if s.spaces@.len() > 0 {
            Some(strings_view(s.spaces@))
        } else {
            None
        }),
{
    broadcast use lemma_member_after_opt, lemma_member_after_push, lemma_member_after_list,
        lemma_member_of_empty;

    reveal_strlit("api_token");
    reveal_strlit("auth_mode");
    reveal_strlit("base_url");
    reveal_strlit("cloud_id");
    reveal_strlit("include_attachments");
    reveal_strlit("oauth_credentials");
    reveal_strlit("spaces");
    reveal_strlit("sync_mode");
    reveal_strlit("type");
    reveal_strlit("username");
    assert("type"@.len() == 4);
    assert("auth_mode"@.len() == 9);
    assert("include_attachments"@.len() == 19);
    assert("sync_mode"@.len() == 9);
    assert("cloud_id"@.len() == 8);
    assert("base_url"@.len() == 8);
    assert("username"@.len() == 8);
    assert("api_token"@.len() == 9);
    assert("oauth_credentials"@.len() == 17);
    assert("spaces"@.len() == 6);
    assert("auth_mode"@[0] != "sync_mode"@[0]);
    assert("auth_mode"@[1] != "api_token"@[1]);
    assert("sync_mode"@[0] != "api_token"@[0]);
    assert("cloud_id"@[0] != "base_url"@[0]);
    assert("cloud_id"@[0] != "username"@[0]);
    assert("base_url"@[0] != "username"@[0]);
    let base = confluence_base_config(s);
    let extra = members_view(s.config_extra);
    assert(s.source_request().config == members_merge(base, extra));
    lemma_member_merge_kept(base, extra, "type"@);
    lemma_member_merge_kept(base, extra, "auth_mode"@);
    lemma_member_merge_kept(base, extra, "include_attachments"@);
    lemma_member_merge_kept(base, extra, "sync_mode"@);
    lemma_member_merge_kept(base, extra, "cloud_id"@);
    lemma_member_merge_kept(base, extra, "base_url"@);
    lemma_member_merge_kept(base, extra, "username"@);
    lemma_member_merge_kept(base, extra, "api_token"@);
    lemma_member_merge_kept(base, extra, "oauth_credentials"@);
    lemma_member_merge_kept(base, extra, "spaces"@);
}

/// What the base config of a `GitHubSource` holds under some of its names.
#[verifier::rlimit(100)]
#[verifier::spinoff_prover]
proof fn lemma_github_base_head(s: GitHubSource)
    ensures
        member_value(github_base_config(s), "type"@) == Some(JsonV::Str("github"@)),
        member_value(github_base_config(s), "installation_id"@) == Some(JsonV::Int(s.installation_id as int)),
        member_value(github_base_config(s), "repositories"@) == Some(strings_view(s.repositories@)),
        member_value(github_base_config(s), "sync_mode"@) == Some(JsonV::Str(match s.sync_mode {
            Some(x) => x@,
            None => "incremental"@,
        })),
        member_value(github_base_config(s), "ref_mode"@) == match s.ref_mode {
            Some(x) => Some(JsonV::Str(x@)),
            None => None,
        },
        member_value(github_base_config(s), "refs"@) == (if s.refs@.len() > 0 {
            Some(strings_view(s.refs@))
        } else {
            None
        }),
        member_value(github_base_config(s), "excluded_refs"@) == (if s.excluded_refs@.len() > 0 {
            Some(strings_view(s.excluded_refs@))
        } else {
            None
        }),
{
    broadcast use lemma_member_after_opt, lemma_member_after_push, lemma_member_after_list,
        lemma_member_of_empty;

    reveal_strlit("active_branch_days");
    reveal_strlit("exclude_globs");
    reveal_strlit("excluded_refs");
    reveal_strlit("include_direct_commits");
    reveal_strlit("include_globs");
    reveal_strlit("include_pull_requests");
    reveal_strlit("include_review_threads");
    reveal_strlit("installation_id");
    reveal_strlit("max_file_size_bytes");
    reveal_strlit("ref_mode");
    reveal_strlit("refs");
    reveal_strlit("repositories");
    reveal_strlit("sync_mode");
    reveal_strlit("type");
    assert("type"@.len() == 4);
    assert("installation_id"@.len() == 15);
    assert("repositories"@.len() == 12);
    assert("sync_mode"@.len() == 9);
    assert("ref_mode"@.len() == 8);
    assert("refs"@.len() == 4);
    assert("excluded_refs"@.len() == 13);
    assert("active_branch_days"@.len() == 18);
    assert("include_pull_requests"@.len() == 21);
    assert("include_review_threads"@.len() == 22);
    assert("include_direct_commits"@.len() == 22);
    assert("include_globs"@.len() == 13);
    assert("exclude_globs"@.len() == 13);
    assert("max_file_size_bytes"@.len() == 19);
    assert("type"@[0] != "refs"@[0]);
    assert("excluded_refs"@[0] != "include_globs"@[0]);
    assert("excluded_refs"@[7] != "exclude_globs"@[7]);
    assert("include_review_threads"@[8] != "include_direct_commits"@[8]);
    assert("include_globs"@[0] != "exclude_globs"@[0]);
}

/// What the base config of a `GitHubSource` holds under some of its names.
#[verifier::rlimit(100)]
#[verifier::spinoff_prover]
proof fn lemma_github_base_tail(s: GitHubSource)
    ensures
        member_value(github_base_config(s), "active_branch_days"@) == match s.active_branch_days {
            Some(x) => Some(JsonV::Int(x as int)),
            None => None,
        },
        member_value(github_base_config(s), "include_pull_requests"@) == match s.include_pull_requests {
            Some(x) => Some(JsonV::Bool(x)),
            None => None,
        },
        member_value(github_base_config(s), "include_review_threads"@) == match s.include_review_threads {
            Some(x) => Some(JsonV::Bool(x)),
            None => None,
        },
        member_value(github_base_config(s), "include_direct_commits"@) == match s.include_direct_commits {
            Some(x) => Some(JsonV::Bool(x)),
            None => None,
        },
        member_value(github_base_config(s), "include_globs"@) == (if s.include_globs@.len() > 0 {
            Some(strings_view(s.include_globs@))
        } else {
            None
        }),
        member_value(github_base_config(s), "exclude_globs"@) == (if s.exclude_globs@.len() > 0 {
            Some(strings_view(s.exclude_globs@))
        } else {
            None
        }),
        member_value(github_base_config(s), "max_file_size_bytes"@) == match s.max_file_size_bytes {
            Some(x) => Some(JsonV::Int(x as int)),
            None => None,
        },
{
    broadcast use lemma_member_after_opt, lemma_member_after_push, lemma_member_after_list,
        lemma_member_of_empty;

    reveal_strlit("active_branch_days");
    reveal_strlit("exclude_globs");
    reveal_strlit("excluded_refs");
    reveal_strlit("include_direct_commits");
    reveal_strlit("include_globs");
    reveal_strlit("include_pull_requests");
    reveal_strlit("include_review_threads");
    reveal_strlit("installation_id");
    reveal_strlit("max_file_size_bytes");
    reveal_strlit("ref_mode");
    reveal_strlit("refs");
    reveal_strlit("repositories");
    reveal_strlit("sync_mode");
    reveal_strlit("type");
    assert("type"@.len() == 4);
    assert("installation_id"@.len() == 15);
    assert("repositories"@.len() == 12);
    assert("sync_mode"@.len() == 9);
    assert("ref_mode"@.len() == 8);
    assert("refs"@.len() == 4);
    assert("excluded_refs"@.len() == 13);
    assert("active_branch_days"@.len() == 18);
    assert("include_pull_requests"@.len() == 21);
    assert("include_review_threads"@.len() == 22);
    assert("include_direct_commits"@.len() == 22);
    assert("include_globs"@.len() == 13);
    assert("exclude_globs"@.len() == 13);
    assert("max_file_size_bytes"@.len() == 19);
    assert("type"@[0] != "refs"@[0]);
    assert("excluded_refs"@[0] != "include_globs"@[0]);
    assert("excluded_refs"@[7] != "exclude_globs"@[7]);
    assert("include_review_threads"@[8] != "include_direct_commits"@[8]);
    assert("include_globs"@[0] != "exclude_globs"@[0]);
}

/// Every field set on the `GitHubSource` builder is sent in its config under
/// its own name, with its value (defaulted fields with their default), unless
/// the extra config names it; unset optional fields and empty lists are left
/// out.
#[verifier::rlimit(100)]
#[verifier::spinoff_prover]
pub proof fn law_github_config_keeps_fields(s: GitHubSource)
    ensures
        not_overridden(s.config_extra, "type"@) ==>
            member_value(s.source_request().config, "type"@) == Some(JsonV::Str("github"@)),
        not_overridden(s.config_extra, "installation_id"@) ==>
            member_value(s.source_request().config, "installation_id"@) == Some(JsonV::Int(s.installation_id as int)),
        not_overridden(s.config_extra, "repositories"@) ==>
            member_value(s.source_request().config, "repositories"@) == Some(strings_view(s.repositories@)),
        not_overridden(s.config_extra, "sync_mode"@) ==>
            member_value(s.source_request().config, "sync_mode"@) == Some(JsonV::Str(match s.sync_mode {
            Some(x) => x@,
            None => "incremental"@,
        })),
        not_overridden(s.config_extra, "ref_mode"@) ==>
            member_value(s.source_request().config, "ref_mode"@) == match s.ref_mode {
            Some(x) => Some(JsonV::Str(x@)),
            None => None,
        },
        not_overridden(s.config_extra, "refs"@) ==>
            member_value(s.source_request().config, "refs"@) == (if s.refs@.len() > 0 {
            Some(strings_view(s.refs@))
        } else {
            None
        }),
        not_overridden(s.config_extra, "excluded_refs"@) ==>
            member_value(s.source_request().config, "excluded_refs"@) == (if s.excluded_refs@.len() > 0 {
            Some(strings_view(s.excluded_refs@))
        } else {
            None
        }),
        not_overridden(s.config_extra, "active_branch_days"@) ==>
            member_value(s.source_request().config, "active_branch_days"@) == match s.active_branch_days {
            Some(x) => Some(JsonV::Int(x as int)),
            None => None,
        },
        not_overridden(s.config_extra, "include_pull_requests"@) ==>
            member_value(s.source_request().config, "include_pull_requests"@) == match s.include_pull_requests {
            Some(x) => Some(JsonV::Bool(x)),
            None => None,
        },
        not_overridden(s.config_extra, "include_review_threads"@) ==>
            member_value(s.source_request().config, "include_review_threads"@) == match s.include_review_threads {
            Some(x) => Some(JsonV::Bool(x)),
            None => None,
        },
        not_overridden(s.config_extra, "include_direct_commits"@) ==>
            member_value(s.source_request().config, "include_direct_commits"@) == match s.include_direct_commits {
            Some(x) => Some(JsonV::Bool(x)),
            None => None,
        },
        not_overridden(s.config_extra, "include_globs"@) ==>
            member_value(s.source_request().config, "include_globs"@) == (if s.include_globs@.len() > 0 {
            Some(strings_view(s.include_globs@))
        } else {
            None
        }),
        not_overridden(s.config_extra, "exclude_globs"@) ==>
            member_value(s.source_request().config, "exclude_globs"@) == (if s.exclude_globs@.len() > 0 {
            Some(strings_view(s.exclude_globs@))
        } else {
            None
        }),
        not_overridden(s.config_extra, "max_file_size_bytes"@) ==>
            member_value(s.source_request().config, "max_file_size_bytes"@) == match s.max_file_size_bytes {
            Some(x) => Some(JsonV::Int(x as int)),
            None => None,
        },
{
    lemma_github_base_head(s);
    lemma_github_base_tail(s);
    let base = github_base_config(s);
    let extra = members_view(s.config_extra);
    assert(s.source_request().config == members_merge(base, extra));
    lemma_member_merge_kept(base, extra, "type"@);
    lemma_member_merge_kept(base, extra, "installation_id"@);
    lemma_member_merge_kept(base, extra, "repositories"@);
    lemma_member_merge_kept(base, extra, "sync_mode"@);
    lemma_member_merge_kept(base, extra, "ref_mode"@);
    lemma_member_merge_kept(base, extra, "refs"@);
    lemma_member_merge_kept(base, extra, "excluded_refs"@);
    lemma_member_merge_kept(base, extra, "active_branch_days"@);
    lemma_member_merge_kept(base, extra, "include_pull_requests"@);
    lemma_member_merge_kept(base, extra, "include_review_threads"@);
    lemma_member_merge_kept(base, extra, "include_direct_commits"@);
    lemma_member_merge_kept(base, extra, "include_globs"@);
    lemma_member_merge_kept(base, extra, "exclude_globs"@);
    lemma_member_merge_kept(base, extra, "max_file_size_bytes"@);
}



/// Every field set on the `WebSource` builder is sent in its config under its
/// own name, with its value (defaulted fields with their default), unless the
/// extra config names it; unset optional fields and empty lists are left out.
#[verifier::rlimit(100)]
#[verifier::spinoff_prover]
pub proof fn law_web_config_keeps_fields(s: WebSource)
    ensures
        not_overridden(s.config_extra, "type"@) ==>
            member_value(s.source_request().config, "type"@) == Some(JsonV::Str("web"@)),
        not_overridden(s.config_extra, "start_urls"@) ==>
            member_value(s.source_request().config, "start_urls"@) == Some(strings_view(s.start_urls@)),
        not_overridden(s.config_extra, "max_depth"@) ==>
            member_value(s.source_request().config, "max_depth"@) == match s.max_depth {
            Some(x) => Some(JsonV::Int(x as int)),
            None => None,
        },
        not_overridden(s.config_extra, "max_pages"@) ==>
            member_value(s.source_request().config, "max_pages"@) == match s.max_pages {
            Some(x) => Some(JsonV::Int(x as int)),
            None => None,
        },
        not_overridden(s.config_extra, "allowed_domains"@) ==>
            member_value(s.source_request().config, "allowed_domains"@) == (if s.allowed_domains@.len() > 0 {
            Some(strings_view(s.allowed_domains@))
        } else {
            None
        }),
        not_overridden(s.config_extra, "rate_limit_ms"@) ==>
            member_value(s.source_request().config, "rate_limit_ms"@) == match s.rate_limit_ms {
            Some(x) => Some(JsonV::Int(x as int)),
            None => None,
        },
        not_overridden(s.config_extra, "respect_robots_txt"@) ==>
            member_value(s.source_request().config, "respect_robots_txt"@) == match s.respect_robots_txt {
            Some(x) => Some(JsonV::Bool(x)),
            None => None,
        },
        not_overridden(s.config_extra, "include_assets"@) ==>
            member_value(s.source_request().config, "include_assets"@) == match s.include_assets {
            Some(x) => Some(JsonV::Bool(x)),
            None => None,
        },
        not_overridden(s.config_extra, "max_assets_per_page"@) ==>
            member_value(s.source_request().config, "max_assets_per_page"@) == match s.max_assets_per_page {
            Some(x) => Some(JsonV::Int(x as int)),
            None => None,
        },
        not_overridden(s.config_extra, "selectors"@) ==>
            member_value(s.source_request().config, "selectors"@) == match s.selectors {
            Some(x) => Some(selectors_view(x)),
            None => None,
        },
        not_overridden(s.config_extra, "headers"@) ==>
            member_value(s.source_request().config, "headers"@) == (if s.headers@.len() > 0 {
            Some(string_pairs_view(s.headers@))
        } else {
            None
        }),
{
    broadcast use lemma_member_after_opt, lemma_member_after_push, lemma_member_after_list,
        lemma_member_of_empty;

    reveal_strlit("allowed_domains");
    reveal_strlit("headers");
    reveal_strlit("include_assets");
    reveal_strlit("max_assets_per_page");
    reveal_strlit("max_depth");
    reveal_strlit("max_pages");
    reveal_strlit("rate_limit_ms");
    reveal_strlit("respect_robots_txt");
    reveal_strlit("selectors");
    reveal_strlit("start_urls");
    reveal_strlit("type");
    assert("type"@.len() == 4);
    assert("start_urls"@.len() == 10);
    assert("max_depth"@.len() == 9);
    assert("max_pages"@.len() == 9);
    assert("allowed_domains"@.len() == 15);
    assert("rate_limit_ms"@.len() == 13);
    assert("respect_robots_txt"@.len() == 18);
    assert("include_assets"@.len() == 14);
    assert("max_assets_per_page"@.len() == 19);
    assert("selectors"@.len() == 9);
    assert("headers"@.len() == 7);
    assert("max_depth"@[4] != "max_pages"@[4]);
    assert("max_depth"@[0] != "selectors"@[0]);
    assert("max_pages"@[0] != "selectors"@[0]);
    let base = web_base_config(s);
    let extra = members_view(s.config_extra);
    assert(s.source_request().config == members_merge(base, extra));
    lemma_member_merge_kept(base, extra, "type"@);
    lemma_member_merge_kept(base, extra, "start_urls"@);
    lemma_member_merge_kept(base, extra, "max_depth"@);
    lemma_member_merge_kept(base, extra, "max_pages"@);
    lemma_member_merge_kept(base, extra, "allowed_domains"@);
    lemma_member_merge_kept(base, extra, "rate_limit_ms"@);
    lemma_member_merge_kept(base, extra, "respect_robots_txt"@);
    lemma_member_merge_kept(base, extra, "include_assets"@);
    lemma_member_merge_kept(base, extra, "max_assets_per_page"@);
    lemma_member_merge_kept(base, extra, "selectors"@);
    lemma_member_merge_kept(base, extra, "headers"@);
}


/// What the base config of a `GoogleDriveSource` holds under some of its names.
#[verifier::rlimit(100)]
#[verifier::spinoff_prover]
proof fn lemma_gdrive_base_head(s: GoogleDriveSource)
    ensures
        member_value(gdrive_base_config(s), "type"@) == Some(JsonV::Str("gdrive"@)),
        member_value(gdrive_base_config(s), "sync_mode"@) == Some(JsonV::Str(match s.sync_mode {
            Some(x) => x@,
            None => "incremental"@,
        })),
        member_value(gdrive_base_config(s), "auth_mode"@) == match s.auth_mode {
            Some(x) => Some(JsonV::Str(x@)),
            None => None,
        },
        member_value(gdrive_base_config(s), "service_account_json"@) == match s.service_account_json {
            Some(x) => Some(JsonV::Str(x@)),
            None => None,
        },
        member_value(gdrive_base_config(s), "delegated_user"@) == match s.delegated_user {
            Some(x) => Some(JsonV::Str(x@)),
            None => None,
        },
{
    broadcast use lemma_member_after_opt, lemma_member_after_push, lemma_member_after_list,
        lemma_member_of_empty;

    reveal_strlit("auth_mode");
    reveal_strlit("delegated_user");
    reveal_strlit("drive_id");
    reveal_strlit("fetch_attachments");
    reveal_strlit("folder_ids");
    reveal_strlit("include_shared_drives");
    reveal_strlit("include_team_drives");
    reveal_strlit("max_concurrent_downloads");
    reveal_strlit("mime_types");
    reveal_strlit("oauth_credentials");
    reveal_strlit("page_size");
    reveal_strlit("query");
    reveal_strlit("resume_cursor");
    reveal_strlit("sampling_enabled");
    reveal_strlit("sampling_limit");
    reveal_strlit("service_account_json");
    reveal_strlit("sync_mode");
    reveal_strlit("type");
    assert("type"@.len() == 4);
    assert("sync_mode"@.len() == 9);
    assert("auth_mode"@.len() == 9);
    assert("service_account_json"@.len() == 20);
    assert("delegated_user"@.len() == 14);
    assert("oauth_credentials"@.len() == 17);
    assert("drive_id"@.len() == 8);
    assert("folder_ids"@.len() == 10);
    assert("query"@.len() == 5);
    assert("mime_types"@.len() == 10);
    assert("include_shared_drives"@.len() == 21);
    assert("include_team_drives"@.len() == 19);
    assert("page_size"@.len() == 9);
    assert("resume_cursor"@.len() == 13);
    assert("fetch_attachments"@.len() == 17);
    assert("sampling_enabled"@.len() == 16);
    assert("sampling_limit"@.len() == 14);
    assert("max_concurrent_downloads"@.len() == 24);
    assert("sync_mode"@[0] != "auth_mode"@[0]);
    assert("sync_mode"@[0] != "page_size"@[0]);
    assert("auth_mode"@[0] != "page_size"@[0]);
    assert("delegated_user"@[0] != "sampling_limit"@[0]);
    assert("oauth_credentials"@[0] != "fetch_attachments"@[0]);
    assert("folder_ids"@[0] != "mime_types"@[0]);
}

/// What the base config of a `GoogleDriveSource` holds under the names that
/// follow its head: each is set once and kept through the later members.
#[verifier::rlimit(100)]
#[verifier::spinoff_prover]
proof fn lemma_gdrive_base_middle(s: GoogleDriveSource)
    ensures
        member_value(gdrive_base_config(s), "oauth_credentials"@) == match s.oauth_credentials {
            Some(x) => Some(JsonV::Object(members_view(x))),
            None => None,
        },
        member_value(gdrive_base_config(s), "drive_id"@) == match s.drive_id {
            Some(x) => Some(JsonV::Str(x@)),
            None => None,
        },
        member_value(gdrive_base_config(s), "folder_ids"@) == (if s.folder_ids@.len() > 0 {
            Some(strings_view(s.folder_ids@))
        } else {
            None
        }),
        member_value(gdrive_base_config(s), "query"@) == match s.query {
            Some(x) => Some(JsonV::Str(x@)),
            None => None,
        },
{
    broadcast use lemma_member_after_opt, lemma_member_after_push, lemma_member_after_list,
        lemma_member_of_empty;

    reveal_strlit("auth_mode");
    reveal_strlit("delegated_user");
    reveal_strlit("drive_id");
    reveal_strlit("fetch_attachments");
    reveal_strlit("folder_ids");
    reveal_strlit("include_shared_drives");
    reveal_strlit("include_team_drives");
    reveal_strlit("max_concurrent_downloads");
    reveal_strlit("mime_types");
    reveal_strlit("oauth_credentials");
    reveal_strlit("page_size");
    reveal_strlit("query");
    reveal_strlit("resume_cursor");
    reveal_strlit("sampling_enabled");
    reveal_strlit("sampling_limit");
    reveal_strlit("service_account_json");
    reveal_strlit("sync_mode");
    reveal_strlit("type");
    assert("type"@.len() == 4);
    assert("sync_mode"@.len() == 9);
    assert("auth_mode"@.len() == 9);
    assert("service_account_json"@.len() == 20);
    assert("delegated_user"@.len() == 14);
    assert("oauth_credentials"@.len() == 17);
    assert("drive_id"@.len() == 8);
    assert("folder_ids"@.len() == 10);
    assert("query"@.len() == 5);
    assert("mime_types"@.len() == 10);
    assert("include_shared_drives"@.len() == 21);
    assert("include_team_drives"@.len() == 19);
    assert("page_size"@.len() == 9);
    assert("resume_cursor"@.len() == 13);
    assert("fetch_attachments"@.len() == 17);
    assert("sampling_enabled"@.len() == 16);
    assert("sampling_limit"@.len() == 14);
    assert("max_concurrent_downloads"@.len() == 24);
    assert("sync_mode"@[0] != "auth_mode"@[0]);
    assert("sync_mode"@[0] != "page_size"@[0]);
    assert("auth_mode"@[0] != "page_size"@[0]);
    assert("delegated_user"@[0] != "sampling_limit"@[0]);
    assert("oauth_credentials"@[0] != "fetch_attachments"@[0]);
    assert("folder_ids"@[0] != "mime_types"@[0]);
    let c0 = crate::sources::gdrive_head_config(s);
    let c1 = with_opt(c0, "oauth_credentials"@, opt_members_view(s.oauth_credentials));
    let c2 = with_opt(c1, "drive_id"@, crate::json::opt_str_view(s.drive_id));
    let c3 = crate::json::with_list(c2, "folder_ids"@, s.folder_ids@);
    let c4 = with_opt(c3, "query"@, crate::json::opt_str_view(s.query));
    let c5 = crate::json::with_list(c4, "mime_types"@, s.mime_types@);
    let c6 = with_opt(c5, "include_shared_drives"@, opt_bool_view(s.include_shared_drives));
    let c7 = with_opt(c6, "include_team_drives"@, opt_bool_view(s.include_team_drives));
    let c8 = with_opt(c7, "page_size"@, opt_u32_view(s.page_size));
    let c9 = with_opt(c8, "resume_cursor"@, crate::json::opt_str_view(s.resume_cursor));
    let c10 = with_opt(c9, "fetch_attachments"@, opt_bool_view(s.fetch_attachments));
    let c11 = with_opt(c10, "sampling_enabled"@, opt_bool_view(s.sampling_enabled));
    let c12 = with_opt(c11, "sampling_limit"@, opt_u32_view(s.sampling_limit));
    let c13 = with_opt(c12, "max_concurrent_downloads"@, opt_u32_view(s.max_concurrent_downloads));
    assert(gdrive_base_config(s) == c13);
    assert(member_value(c0, "oauth_credentials"@) is None);
    assert(member_value(c0, "drive_id"@) is None);
    assert(member_value(c0, "folder_ids"@) is None);
    assert(member_value(c0, "query"@) is None);
    assert(member_value(c4, "oauth_credentials"@) == opt_members_view(s.oauth_credentials));
    assert(member_value(c4, "drive_id"@) == crate::json::opt_str_view(s.drive_id));
    assert(member_value(c4, "query"@) == crate::json::opt_str_view(s.query));
    assert(member_value(c13, "oauth_credentials"@) == member_value(c4, "oauth_credentials"@));
    assert(member_value(c13, "drive_id"@) == member_value(c4, "drive_id"@));
    assert(member_value(c13, "folder_ids"@) == member_value(c4, "folder_ids"@));
    assert(member_value(c13, "query"@) == member_value(c4, "query"@));
}

/// What the base config of a `GoogleDriveSource` holds under some of its names.
#[verifier::rlimit(100)]
#[verifier::spinoff_prover]
proof fn lemma_gdrive_base_tail(s: GoogleDriveSource)
    ensures
        member_value(gdrive_base_config(s), "mime_types"@) == (if s.mime_types@.len() > 0 {
            Some(strings_view(s.mime_types@))
        } else {
            None
        }),
        member_value(gdrive_base_config(s), "include_shared_drives"@) == match s.include_shared_drives {
            Some(x) => Some(JsonV::Bool(x)),
            None => None,
        },
        member_value(gdrive_base_config(s), "include_team_drives"@) == match s.include_team_drives {
            Some(x) => Some(JsonV::Bool(x)),
            None => None,
        },
        member_value(gdrive_base_config(s), "page_size"@) == match s.page_size {
            Some(x) => Some(JsonV::Int(x as int)),
            None => None,
        },
        member_value(gdrive_base_config(s), "resume_cursor"@) == match s.resume_cursor {
            Some(x) => Some(JsonV::Str(x@)),
            None => None,
        },
        member_value(gdrive_base_config(s), "fetch_attachments"@) == match s.fetch_attachments {
            Some(x) => Some(JsonV::Bool(x)),
            None => None,
        },
        member_value(gdrive_base_config(s), "sampling_enabled"@) == match s.sampling_enabled {
            Some(x) => Some(JsonV::Bool(x)),
            None => None,
        },
        member_value(gdrive_base_config(s), "sampling_limit"@) == match s.sampling_limit {
            Some(x) => Some(JsonV::Int(x as int)),
            None => None,
        },
        member_value(gdrive_base_config(s), "max_concurrent_downloads"@) == match s.max_concurrent_downloads {
            Some(x) => Some(JsonV::Int(x as int)),
            None => None,
        },
{
    broadcast use lemma_member_after_opt, lemma_member_after_push, lemma_member_after_list,
        lemma_member_of_empty;

    reveal_strlit("auth_mode");
    reveal_strlit("delegated_user");
    reveal_strlit("drive_id");
    reveal_strlit("fetch_attachments");
    reveal_strlit("folder_ids");
    reveal_strlit("include_shared_drives");
    reveal_strlit("include_team_drives");
    reveal_strlit("max_concurrent_downloads");
    reveal_strlit("mime_types");
    reveal_strlit("oauth_credentials");
    reveal_strlit("page_size");
    reveal_strlit("query");
    reveal_strlit("resume_cursor");
    reveal_strlit("sampling_enabled");
    reveal_strlit("sampling_limit");
    reveal_strlit("service_account_json");
    reveal_strlit("sync_mode");
    reveal_strlit("type");
    assert("type"@.len() == 4);
    assert("sync_mode"@.len() == 9);
    assert("auth_mode"@.len() == 9);
    assert("service_account_json"@.len() == 20);
    assert("delegated_user"@.len() == 14);
    assert("oauth_credentials"@.len() == 17);
    assert("drive_id"@.len() == 8);
    assert("folder_ids"@.len() == 10);
    assert("query"@.len() == 5);
    assert("mime_types"@.len() == 10);
    assert("include_shared_drives"@.len() == 21);
    assert("include_team_drives"@.len() == 19);
    assert("page_size"@.len() == 9);
    assert("resume_cursor"@.len() == 13);
    assert("fetch_attachments"@.len() == 17);
    assert("sampling_enabled"@.len() == 16);
    assert("sampling_limit"@.len() == 14);
    assert("max_concurrent_downloads"@.len() == 24);
    assert("sync_mode"@[0] != "auth_mode"@[0]);
    assert("sync_mode"@[0] != "page_size"@[0]);
    assert("auth_mode"@[0] != "page_size"@[0]);
    assert("delegated_user"@[0] != "sampling_limit"@[0]);
    assert("oauth_credentials"@[0] != "fetch_attachments"@[0]);
    assert("folder_ids"@[0] != "mime_types"@[0]);
}

/// Every field set on the `GoogleDriveSource` builder is sent in its config
/// under its own name, with its value (defaulted fields with their default),
/// unless the extra config names it; unset optional fields and empty lists are
/// left out.
#[verifier::rlimit(100)]
#[verifier::spinoff_prover]
pub proof fn law_gdrive_config_keeps_fields(s: GoogleDriveSource)
    ensures
        not_overridden(s.config_extra, "type"@) ==>
            member_value(s.source_request().config, "type"@) == Some(JsonV::Str("gdrive"@)),
        not_overridden(s.config_extra, "sync_mode"@) ==>
            member_value(s.source_request().config, "sync_mode"@) == Some(JsonV::Str(match s.sync_mode {
            Some(x) => x@,
            None => "incremental"@,
        })),
        not_overridden(s.config_extra, "auth_mode"@) ==>
            member_value(s.source_request().config, "auth_mode"@) == match s.auth_mode {
            Some(x) => Some(JsonV::Str(x@)),
            None => None,
        },
        not_overridden(s.config_extra, "service_account_json"@) ==>
            member_value(s.source_request().config, "service_account_json"@) == match s.service_account_json {
            Some(x) => Some(JsonV::Str(x@)),
            None => None,
        },
        not_overridden(s.config_extra, "delegated_user"@) ==>
            member_value(s.source_request().config, "delegated_user"@) == match s.delegated_user {
            Some(x) => Some(JsonV::Str(x@)),
            None => None,
        },
        not_overridden(s.config_extra, "oauth_credentials"@) ==>
            member_value(s.source_request().config, "oauth_credentials"@) == match s.oauth_credentials {
            Some(x) => Some(JsonV::Object(members_view(x))),
            None => None,
        },
        not_overridden(s.config_extra, "drive_id"@) ==>
            member_value(s.source_request().config, "drive_id"@) == match s.drive_id {
            Some(x) => Some(JsonV::Str(x@)),
            None => None,
        },
        not_overridden(s.config_extra, "folder_ids"@) ==>
            member_value(s.source_request().config, "folder_ids"@) == (if s.folder_ids@.len() > 0 {
            Some(strings_view(s.folder_ids@))
        } else {
            None
        }),
        not_overridden(s.config_extra, "query"@) ==>
            member_value(s.source_request().config, "query"@) == match s.query {
            Some(x) => Some(JsonV::Str(x@)),
            None => None,
        },
        not_overridden(s.config_extra, "mime_types"@) ==>
            member_value(s.source_request().config, "mime_types"@) == (if s.mime_types@.len() > 0 {
            Some(strings_view(s.mime_types@))
        } else {
            None
        }),
        not_overridden(s.config_extra, "include_shared_drives"@) ==>
            member_value(s.source_request().config, "include_shared_drives"@) == match s.include_shared_drives {
            Some(x) => Some(JsonV::Bool(x)),
            None => None,
        },
        not_overridden(s.config_extra, "include_team_drives"@) ==>
            member_value(s.source_request().config, "include_team_drives"@) == match s.include_team_drives {
            Some(x) => Some(JsonV::Bool(x)),
            None => None,
        },
        not_overridden(s.config_extra, "page_size"@) ==>
            member_value(s.source_request().config, "page_size"@) == match s.page_size {
            Some(x) => Some(JsonV::Int(x as int)),
            None => None,
        },
        not_overridden(s.config_extra, "resume_cursor"@) ==>
            member_value(s.source_request().config, "resume_cursor"@) == match s.resume_cursor {
            Some(x) => Some(JsonV::Str(x@)),
            None => None,
        },
        not_overridden(s.config_extra, "fetch_attachments"@) ==>
            member_value(s.source_request().config, "fetch_attachments"@) == match s.fetch_attachments {
            Some(x) => Some(JsonV::Bool(x)),
            None => None,
        },
        not_overridden(s.config_extra, "sampling_enabled"@) ==>
            member_value(s.source_request().config, "sampling_enabled"@) == match s.sampling_enabled {
            Some(x) => Some(JsonV::Bool(x)),
            None => None,
        },
        not_overridden(s.config_extra, "sampling_limit"@) ==>
            member_value(s.source_request().config, "sampling_limit"@) == match s.sampling_limit {
            Some(x) => Some(JsonV::Int(x as int)),
            None => None,
        },
        not_overridden(s.config_extra, "max_concurrent_downloads"@) ==>
            member_value(s.source_request().config, "max_concurrent_downloads"@) == match s.max_concurrent_downloads {
            Some(x) => Some(JsonV::Int(x as int)),
            None => None,
        },
{
    lemma_gdrive_base_head(s);
    lemma_gdrive_base_middle(s);
    lemma_gdrive_base_tail(s);
    let base = gdrive_base_config(s);
    let extra = members_view(s.config_extra);
    assert(s.source_request().config == members_merge(base, extra));
    lemma_member_merge_kept(base, extra, "type"@);
    lemma_member_merge_kept(base, extra, "sync_mode"@);
    lemma_member_merge_kept(base, extra, "auth_mode"@);
    lemma_member_merge_kept(base, extra, "service_account_json"@);
    lemma_member_merge_kept(base, extra, "delegated_user"@);
    lemma_member_merge_kept(base, extra, "oauth_credentials"@);
    lemma_member_merge_kept(base, extra, "drive_id"@);
    lemma_member_merge_kept(base, extra, "folder_ids"@);
    lemma_member_merge_kept(base, extra, "query"@);
    lemma_member_merge_kept(base, extra, "mime_types"@);
    lemma_member_merge_kept(base, extra, "include_shared_drives"@);
    lemma_member_merge_kept(base, extra, "include_team_drives"@);
    lemma_member_merge_kept(base, extra, "page_size"@);
    lemma_member_merge_kept(base, extra, "resume_cursor"@);
    lemma_member_merge_kept(base, extra, "fetch_attachments"@);
    lemma_member_merge_kept(base, extra, "sampling_enabled"@);
    lemma_member_merge_kept(base, extra, "sampling_limit"@);
    lemma_member_merge_kept(base, extra, "max_concurrent_downloads"@);
}


/// What the base config of a `GitLabSource` holds under some of its names.
#[verifier::rlimit(100)]
#[verifier::spinoff_prover]
proof fn lemma_gitlab_base_head(s: GitLabSource)
    ensures
        member_value(gitlab_base_config(s), "type"@) == Some(JsonV::Str("gitlab"@)),
        member_value(gitlab_base_config(s), "auth_mode"@) == Some(JsonV::Str(match s.auth_mode {
            Some(x) => x@,
            None => "oauth"@,
        })),
        member_value(gitlab_base_config(s), "gitlab_url"@) == Some(JsonV::Str(match s.gitlab_url {
            Some(x) => x@,
            None => "https://gitlab.com"@,
        })),
        member_value(gitlab_base_config(s), "sync_mode"@) == Some(JsonV::Str(match s.sync_mode {
            Some(x) => x@,
            None => "incremental"@,
        })),
        member_value(gitlab_base_config(s), "groups"@) == (if s.groups@.len() > 0 {
            Some(strings_view(s.groups@))
        } else {
            None
        }),
        member_value(gitlab_base_config(s), "projects"@) == (if s.projects@.len() > 0 {
            Some(strings_view(s.projects@))
        } else {
            None
        }),
        member_value(gitlab_base_config(s), "access_token"@) == match s.access_token {
            Some(x) => Some(JsonV::Str(x@)),
            None => None,
        },
        member_value(gitlab_base_config(s), "connection_id"@) == match s.connection_id {
            Some(x) => Some(JsonV::Str(x@)),
            None => None,
        },
        member_value(gitlab_base_config(s), "ref_mode"@) == match s.ref_mode {
            Some(x) => Some(JsonV::Str(x@)),
            None => None,
        },
{
    broadcast use lemma_member_after_opt, lemma_member_after_push, lemma_member_after_list,
        lemma_member_of_empty;

    reveal_strlit("access_token");
    reveal_strlit("active_branch_days");
    reveal_strlit("auth_mode");
    reveal_strlit("connection_id");
    reveal_strlit("exclude_globs");
    reveal_strlit("excluded_refs");
    reveal_strlit("gitlab_url");
    reveal_strlit("groups");
    reveal_strlit("include_direct_commits");
    reveal_strlit("include_globs");
    reveal_strlit("include_merge_requests");
    reveal_strlit("include_review_threads");
    reveal_strlit("max_file_size_bytes");
    reveal_strlit("projects");
    reveal_strlit("ref_mode");
    reveal_strlit("refs");
    reveal_strlit("sync_mode");
    reveal_strlit("type");
    assert("type"@.len() == 4);
    assert("auth_mode"@.len() == 9);
    assert("gitlab_url"@.len() == 10);
    assert("sync_mode"@.len() == 9);
    assert("groups"@.len() == 6);
    assert("projects"@.len() == 8);
    assert("access_token"@.len() == 12);
    assert("connection_id"@.len() == 13);
    assert("ref_mode"@.len() == 8);
    assert("refs"@.len() == 4);
    assert("excluded_refs"@.len() == 13);
    assert("active_branch_days"@.len() == 18);
    assert("include_merge_requests"@.len() == 22);
    assert("include_review_threads"@.len() == 22);
    assert("include_direct_commits"@.len() == 22);
    assert("include_globs"@.len() == 13);
    assert("exclude_globs"@.len() == 13);
    assert("max_file_size_bytes"@.len() == 19);
    assert("type"@[0] != "refs"@[0]);
    assert("auth_mode"@[0] != "sync_mode"@[0]);
    assert("projects"@[0] != "ref_mode"@[0]);
    assert("connection_id"@[0] != "excluded_refs"@[0]);
    assert("connection_id"@[0] != "include_globs"@[0]);
    assert("connection_id"@[0] != "exclude_globs"@[0]);
    assert("excluded_refs"@[0] != "include_globs"@[0]);
    assert("excluded_refs"@[7] != "exclude_globs"@[7]);
    assert("include_merge_requests"@[8] != "include_review_threads"@[8]);
    assert("include_merge_requests"@[8] != "include_direct_commits"@[8]);
    assert("include_review_threads"@[8] != "include_direct_commits"@[8]);
    assert("include_globs"@[0] != "exclude_globs"@[0]);
}

/// What the base config of a `GitLabSource` holds under some of its names.
#[verifier::rlimit(100)]
#[verifier::spinoff_prover]
proof fn lemma_gitlab_base_tail(s: GitLabSource)
    ensures
        member_value(gitlab_base_config(s), "refs"@) == (if s.refs@.len() > 0 {
            Some(strings_view(s.refs@))
        } else {
            None
        }),
        member_value(gitlab_base_config(s), "excluded_refs"@) == (if s.excluded_refs@.len() > 0 {
            Some(strings_view(s.excluded_refs@))
        } else {
            None
        }),
        member_value(gitlab_base_config(s), "active_branch_days"@) == match s.active_branch_days {
            Some(x) => Some(JsonV::Int(x as int)),
            None => None,
        },
        member_value(gitlab_base_config(s), "include_merge_requests"@) == match s.include_merge_requests {
            Some(x) => Some(JsonV::Bool(x)),
            None => None,
        },
        member_value(gitlab_base_config(s), "include_review_threads"@) == match s.include_review_threads {
            Some(x) => Some(JsonV::Bool(x)),
            None => None,
        },
        member_value(gitlab_base_config(s), "include_direct_commits"@) == match s.include_direct_commits {
            Some(x) => Some(JsonV::Bool(x)),
            None => None,
        },
        member_value(gitlab_base_config(s), "include_globs"@) == (if s.include_globs@.len() > 0 {
            Some(strings_view(s.include_globs@))
        } else {
            None
        }),
        member_value(gitlab_base_config(s), "exclude_globs"@) == (if s.exclude_globs@.len() > 0 {
            Some(strings_view(s.exclude_globs@))
        } else {
            None
        }),
        member_value(gitlab_base_config(s), "max_file_size_bytes"@) == match s.max_file_size_bytes {
            Some(x) => Some(JsonV::Int(x as int)),
            None => None,
        },
{
    broadcast use lemma_member_after_opt, lemma_member_after_push, lemma_member_after_list,
        lemma_member_of_empty;

    reveal_strlit("access_token");
    reveal_strlit("active_branch_days");
    reveal_strlit("auth_mode");
    reveal_strlit("connection_id");
    reveal_strlit("exclude_globs");
    reveal_strlit("excluded_refs");
    reveal_strlit("gitlab_url");
    reveal_strlit("groups");
    reveal_strlit("include_direct_commits");
    reveal_strlit("include_globs");
    reveal_strlit("include_merge_requests");
    reveal_strlit("include_review_threads");
    reveal_strlit("max_file_size_bytes");
    reveal_strlit("projects");
    reveal_strlit("ref_mode");
    reveal_strlit("refs");
    reveal_strlit("sync_mode");
    reveal_strlit("type");
    assert("type"@.len() == 4);
    assert("auth_mode"@.len() == 9);
    assert("gitlab_url"@.len() == 10);
    assert("sync_mode"@.len() == 9);
    assert("groups"@.len() == 6);
    assert("projects"@.len() == 8);
    assert("access_token"@.len() == 12);
    assert("connection_id"@.len() == 13);
    assert("ref_mode"@.len() == 8);
    assert("refs"@.len() == 4);
    assert("excluded_refs"@.len() == 13);
    assert("active_branch_days"@.len() == 18);
    assert("include_merge_requests"@.len() == 22);
    assert("include_review_threads"@.len() == 22);
    assert("include_direct_commits"@.len() == 22);
    assert("include_globs"@.len() == 13);
    assert("exclude_globs"@.len() == 13);
    assert("max_file_size_bytes"@.len() == 19);
    assert("type"@[0] != "refs"@[0]);
    assert("auth_mode"@[0] != "sync_mode"@[0]);
    assert("projects"@[0] != "ref_mode"@[0]);
    assert("connection_id"@[0] != "excluded_refs"@[0]);
    assert("connection_id"@[0] != "include_globs"@[0]);
    assert("connection_id"@[0] != "exclude_globs"@[0]);
    assert("excluded_refs"@[0] != "include_globs"@[0]);
    assert("excluded_refs"@[7] != "exclude_globs"@[7]);
    assert("include_merge_requests"@[8] != "include_review_threads"@[8]);
    assert("include_merge_requests"@[8] != "include_direct_commits"@[8]);
    assert("include_review_threads"@[8] != "include_direct_commits"@[8]);
    assert("include_globs"@[0] != "exclude_globs"@[0]);
}

/// Every field set on the `GitLabSource` builder is sent in its config under
/// its own name, with its value (defaulted fields with their default), unless
/// the extra config names it; unset optional fields and empty lists are left
/// out.
#[verifier::rlimit(100)]
#[verifier::spinoff_prover]
pub proof fn law_gitlab_config_keeps_fields(s: GitLabSource)
    ensures
        not_overridden(s.config_extra, "type"@) ==>
            member_value(s.source_request().config, "type"@) == Some(JsonV::Str("gitlab"@)),
        not_overridden(s.config_extra, "auth_mode"@) ==>
            member_value(s.source_request().config, "auth_mode"@) == Some(JsonV::Str(match s.auth_mode {
            Some(x) => x@,
            None => "oauth"@,
        })),
        not_overridden(s.config_extra, "gitlab_url"@) ==>
            member_value(s.source_request().config, "gitlab_url"@) == Some(JsonV::Str(match s.gitlab_url {
            Some(x) => x@,
            None => "https://gitlab.com"@,
        })),
        not_overridden(s.config_extra, "sync_mode"@) ==>
            member_value(s.source_request().config, "sync_mode"@) == Some(JsonV::Str(match s.sync_mode {
            Some(x) => x@,
            None => "incremental"@,
        })),
        not_overridden(s.config_extra, "groups"@) ==>
            member_value(s.source_request().config, "groups"@) == (if s.groups@.len() > 0 {
            Some(strings_view(s.groups@))
        } else {
            None
        }),
        not_overridden(s.config_extra, "projects"@) ==>
            member_value(s.source_request().config, "projects"@) == (if s.projects@.len() > 0 {
            Some(strings_view(s.projects@))
        } else {
            None
        }),
        not_overridden(s.config_extra, "access_token"@) ==>
            member_value(s.source_request().config, "access_token"@) == match s.access_token {
            Some(x) => Some(JsonV::Str(x@)),
            None => None,
        },
        not_overridden(s.config_extra, "connection_id"@) ==>
            member_value(s.source_request().config, "connection_id"@) == match s.connection_id {
            Some(x) => Some(JsonV::Str(x@)),
            None => None,
        },
        not_overridden(s.config_extra, "ref_mode"@) ==>
            member_value(s.source_request().config, "ref_mode"@) == match s.ref_mode {
            Some(x) => Some(JsonV::Str(x@)),
            None => None,
        },
        not_overridden(s.config_extra, "refs"@) ==>
            member_value(s.source_request().config, "refs"@) == (if s.refs@.len() > 0 {
            Some(strings_view(s.refs@))
        } else {
            None
        }),
        not_overridden(s.config_extra, "excluded_refs"@) ==>
            member_value(s.source_request().config, "excluded_refs"@) == (if s.excluded_refs@.len() > 0 {
            Some(strings_view(s.excluded_refs@))
        } else {
            None
        }),
        not_overridden(s.config_extra, "active_branch_days"@) ==>
            member_value(s.source_request().config, "active_branch_days"@) == match s.active_branch_days {
            Some(x) => Some(JsonV::Int(x as int)),
            None => None,
        },
        not_overridden(s.config_extra, "include_merge_requests"@) ==>
            member_value(s.source_request().config, "include_merge_requests"@) == match s.include_merge_requests {
            Some(x) => Some(JsonV::Bool(x)),
            None => None,
        },
        not_overridden(s.config_extra, "include_review_threads"@) ==>
            member_value(s.source_request().config, "include_review_threads"@) == match s.include_review_threads {
            Some(x) => Some(JsonV::Bool(x)),
            None => None,
        },
        not_overridden(s.config_extra, "include_direct_commits"@) ==>
            member_value(s.source_request().config, "include_direct_commits"@) == match s.include_direct_commits {
            Some(x) => Some(JsonV::Bool(x)),
            None => None,
        },
        not_overridden(s.config_extra, "include_globs"@) ==>
            member_value(s.source_request().config, "include_globs"@) == (if s.include_globs@.len() > 0 {
            Some(strings_view(s.include_globs@))
        } else {
            None
        }),
        not_overridden(s.config_extra, "exclude_globs"@) ==>
            member_value(s.source_request().config, "exclude_globs"@) == (if s.exclude_globs@.len() > 0 {
            Some(strings_view(s.exclude_globs@))
        } else {
            None
        }),
        not_overridden(s.config_extra, "max_file_size_bytes"@) ==>
            member_value(s.source_request().config, "max_file_size_bytes"@) == match s.max_file_size_bytes {
            Some(x) => Some(JsonV::Int(x as int)),
            None => None,
        },
{
    lemma_gitlab_base_head(s);
    lemma_gitlab_base_tail(s);
    let base = gitlab_base_config(s);
    let extra = members_view(s.config_extra);
    assert(s.source_request().config == members_merge(base, extra));
    lemma_member_merge_kept(base, extra, "type"@);
    lemma_member_merge_kept(base, extra, "auth_mode"@);
    lemma_member_merge_kept(base, extra, "gitlab_url"@);
    lemma_member_merge_kept(base, extra, "sync_mode"@);
    lemma_member_merge_kept(base, extra, "groups"@);
    lemma_member_merge_kept(base, extra, "projects"@);
    lemma_member_merge_kept(base, extra, "access_token"@);
    lemma_member_merge_kept(base, extra, "connection_id"@);
    lemma_member_merge_kept(base, extra, "ref_mode"@);
    lemma_member_merge_kept(base, extra, "refs"@);
    lemma_member_merge_kept(base, extra, "excluded_refs"@);
    lemma_member_merge_kept(base, extra, "active_branch_days"@);
    lemma_member_merge_kept(base, extra, "include_merge_requests"@);
    lemma_member_merge_kept(base, extra, "include_review_threads"@);
    lemma_member_merge_kept(base, extra, "include_direct_commits"@);
    lemma_member_merge_kept(base, extra, "include_globs"@);
    lemma_member_merge_kept(base, extra, "exclude_globs"@);
    lemma_member_merge_kept(base, extra, "max_file_size_bytes"@);
}

/// A `S3Source` is created as a `s3` source, under the name it is given.
/// Without one, the name of an S3 source is `s3-` and its sanitized bucket.
pub proof fn law_s3_source_name(s: S3Source)
    ensures
        s.source_request().source_type == "s3"@,
        s.name matches Some(n) ==> s.source_request().name == n@,
        (s.name is None && s.bucket@.len() > 0) ==> s.source_request().name == "s3-"@ + sanitized(
            s.bucket@,
        ),
        (s.name is None && s.bucket@.len() == 0) ==> s.source_request().name
            == "rust-sdk-s3-source"@,
{
}

/// A `GcsSource` is created as a `gcs` source, under the name it is given.
/// Without one, the name of a GCS source is `gcs-` and its sanitized bucket.
pub proof fn law_gcs_source_name(s: GcsSource)
    ensures
        s.source_request().source_type == "gcs"@,
        s.name matches Some(n) ==> s.source_request().name == n@,
        (s.name is None && s.bucket@.len() > 0) ==> s.source_request().name == "gcs-"@ + sanitized(
            s.bucket@,
        ),
        (s.name is None && s.bucket@.len() == 0) ==> s.source_request().name
            == "rust-sdk-gcs-source"@,
{
}

/// A `GoogleDriveSource` is created as a `gdrive` source, under the name it is
/// given. Without one, the name of a Google Drive source with a drive id is
/// `gdrive-` and the sanitized id.
pub proof fn law_gdrive_source_name(s: GoogleDriveSource)
    ensures
        s.source_request().source_type == "gdrive"@,
        s.name matches Some(n) ==> s.source_request().name == n@,
        (s.name is None && s.drive_id is Some) ==> s.source_request().name == "gdrive-"@ + sanitized(
            s.drive_id->0@,
        ),
{
}

/// A `FileUploadSource` is created as a `file_upload` source, under the name it
/// is given. Without one, the name of a file-upload source is `rust-sdk-file-
/// upload`.
pub proof fn law_file_upload_source_name(s: FileUploadSource)
    ensures
        s.source_request().source_type == "file_upload"@,
        s.name matches Some(n) ==> s.source_request().name == n@,
        s.name is None ==> s.source_request().name == "rust-sdk-file-upload"@,
{
}

/// A `JiraSource` is created as a `jira` source, under the name it is given.
/// Without one, the name of a Jira source is `jira-` and its first sanitized
/// project key, else its sanitized cloud id.
pub proof fn law_jira_source_name(s: JiraSource)
    ensures
        s.source_request().source_type == "jira"@,
        s.name matches Some(n) ==> s.source_request().name == n@,
        (s.name is None && s.project_keys@.len() > 0 && s.project_keys@[0]@.len() > 0)
            ==> s.source_request().name == "jira-"@ + sanitized(s.project_keys@[0]@),
        (s.name is None && s.project_keys@.len() == 0 && s.cloud_id@.len() > 0)
            ==> s.source_request().name == "jira-"@ + sanitized(s.cloud_id@),
{
}

/// A `ConfluenceSource` is created as a `confluence` source, under the name it
/// is given.
pub proof fn law_confluence_source_name(s: ConfluenceSource)
    ensures
        s.source_request().source_type == "confluence"@,
        s.name matches Some(n) ==> s.source_request().name == n@,
{
}

/// A `GitHubSource` is created as a `github` source, under the name it is
/// given. Without one, the name of a GitHub source is `github-` and its first
/// sanitized repository.
pub proof fn law_github_source_name(s: GitHubSource)
    ensures
        s.source_request().source_type == "github"@,
        s.name matches Some(n) ==> s.source_request().name == n@,
        (s.name is None && s.repositories@.len() > 0 && s.repositories@[0]@.len() > 0)
            ==> s.source_request().name == "github-"@ + sanitized(s.repositories@[0]@),
        (s.name is None && s.repositories@.len() == 0) ==> s.source_request().name
            == "rust-sdk-github-source"@,
{
    reveal_strlit("github");
    reveal_strlit("-");
    reveal_strlit("github-");
    reveal_strlit("rust-sdk-");
    reveal_strlit("-source");
    reveal_strlit("rust-sdk-github-source");
    assert("github"@ + "-"@ =~= "github-"@);
    assert("rust-sdk-"@ + "github"@ + "-source"@ =~= "rust-sdk-github-source"@);
}

/// A `GitLabSource` is created as a `gitlab` source, under the name it is
/// given. Without one, the name of a GitLab source with projects is `gitlab-`
/// and its first sanitized project.
pub proof fn law_gitlab_source_name(s: GitLabSource)
    ensures
        s.source_request().source_type == "gitlab"@,
        s.name matches Some(n) ==> s.source_request().name == n@,
        (s.name is None && s.projects@.len() > 0 && s.projects@[0]@.len() > 0)
            ==> s.source_request().name == "gitlab-"@ + sanitized(s.projects@[0]@),
{
    reveal_strlit("gitlab");
    reveal_strlit("-");
    reveal_strlit("gitlab-");
    reveal_strlit("rust-sdk-");
    reveal_strlit("-source");
    reveal_strlit("rust-sdk-gitlab-source");
    assert("gitlab"@ + "-"@ =~= "gitlab-"@);
    assert("rust-sdk-"@ + "gitlab"@ + "-source"@ =~= "rust-sdk-gitlab-source"@);
}

/// A `WebSource` is created as a `web` source, under the name it is given.
pub proof fn law_web_source_name(s: WebSource)
    ensures
        s.source_request().source_type == "web"@,
        s.name matches Some(n) ==> s.source_request().name == n@,
{
}

/// A name the extra config of a `S3Source` gives is sent with the extra
/// config's value (its last one under that name), over the builder's own.
pub proof fn law_s3_config_extra_wins(s: S3Source, k: Seq<char>)
    ensures
        last_named(members_view(s.config_extra), k) >= 0 ==> member_value(
            s.source_request().config,
            k,
        ) == Some(members_view(s.config_extra)[last_named(members_view(s.config_extra), k)].1),
{
    law_merge_later_wins(s3_base_config(s), members_view(s.config_extra), k);
}

/// A name the extra config of a `GcsSource` gives is sent with the extra
/// config's value (its last one under that name), over the builder's own.
pub proof fn law_gcs_config_extra_wins(s: GcsSource, k: Seq<char>)
    ensures
        last_named(members_view(s.config_extra), k) >= 0 ==> member_value(
            s.source_request().config,
            k,
        ) == Some(members_view(s.config_extra)[last_named(members_view(s.config_extra), k)].1),
{
    law_merge_later_wins(gcs_base_config(s), members_view(s.config_extra), k);
}

/// A name the extra config of a `GoogleDriveSource` gives is sent with the extra
/// config's value (its last one under that name), over the builder's own.
pub proof fn law_gdrive_config_extra_wins(s: GoogleDriveSource, k: Seq<char>)
    ensures
        last_named(members_view(s.config_extra), k) >= 0 ==> member_value(
            s.source_request().config,
            k,
        ) == Some(members_view(s.config_extra)[last_named(members_view(s.config_extra), k)].1),
{
    law_merge_later_wins(gdrive_base_config(s), members_view(s.config_extra), k);
}

/// A name the extra config of a `FileUploadSource` gives is sent with the extra
/// config's value (its last one under that name), over the builder's own.
pub proof fn law_file_upload_config_extra_wins(s: FileUploadSource, k: Seq<char>)
    ensures
        last_named(members_view(s.config_extra), k) >= 0 ==> member_value(
            s.source_request().config,
            k,
        ) == Some(members_view(s.config_extra)[last_named(members_view(s.config_extra), k)].1),
{
    law_merge_later_wins(file_upload_base_config(s), members_view(s.config_extra), k);
}

/// A name the extra config of a `JiraSource` gives is sent with the extra
/// config's value (its last one under that name), over the builder's own.
pub proof fn law_jira_config_extra_wins(s: JiraSource, k: Seq<char>)
    ensures
        last_named(members_view(s.config_extra), k) >= 0 ==> member_value(
            s.source_request().config,
            k,
        ) == Some(members_view(s.config_extra)[last_named(members_view(s.config_extra), k)].1),
{
    law_merge_later_wins(jira_base_config(s), members_view(s.config_extra), k);
}

/// A name the extra config of a `ConfluenceSource` gives is sent with the extra
/// config's value (its last one under that name), over the builder's own.
pub proof fn law_confluence_config_extra_wins(s: ConfluenceSource, k: Seq<char>)
    ensures
        last_named(members_view(s.config_extra), k) >= 0 ==> member_value(
            s.source_request().config,
            k,
        ) == Some(members_view(s.config_extra)[last_named(members_view(s.config_extra), k)].1),
{
    law_merge_later_wins(confluence_base_config(s), members_view(s.config_extra), k);
}

/// A name the extra config of a `GitHubSource` gives is sent with the extra
/// config's value (its last one under that name), over the builder's own.
pub proof fn law_github_config_extra_wins(s: GitHubSource, k: Seq<char>)
    ensures
        last_named(members_view(s.config_extra), k) >= 0 ==> member_value(
            s.source_request().config,
            k,
        ) == Some(members_view(s.config_extra)[last_named(members_view(s.config_extra), k)].1),
{
    law_merge_later_wins(github_base_config(s), members_view(s.config_extra), k);
}

/// A name the extra config of a `GitLabSource` gives is sent with the extra
/// config's value (its last one under that name), over the builder's own.
pub proof fn law_gitlab_config_extra_wins(s: GitLabSource, k: Seq<char>)
    ensures
        last_named(members_view(s.config_extra), k) >= 0 ==> member_value(
            s.source_request().config,
            k,
        ) == Some(members_view(s.config_extra)[last_named(members_view(s.config_extra), k)].1),
{
    law_merge_later_wins(gitlab_base_config(s), members_view(s.config_extra), k);
}

/// A name the extra config of a `WebSource` gives is sent with the extra
/// config's value (its last one under that name), over the builder's own.
pub proof fn law_web_config_extra_wins(s: WebSource, k: Seq<char>)
    ensures
        last_named(members_view(s.config_extra), k) >= 0 ==> member_value(
            s.source_request().config,
            k,
        ) == Some(members_view(s.config_extra)[last_named(members_view(s.config_extra), k)].1),
{
    law_merge_later_wins(web_base_config(s), members_view(s.config_extra), k);
}

/// A generic source is created with its own type, name and description,
/// and its config as given (a name given twice keeps its last value).
pub proof fn law_generic_source_kept(s: GenericSource, k: Seq<char>)
    ensures
        s.source_request().source_type == s.source_type@,
        s.source_request().name == s.name@,
        s.source_request().description == crate::types::opt_string_view(s.description),
        member_value(s.source_request().config, k) == if last_named(members_view(s.config), k)
            >= 0 {
            Some(members_view(s.config)[last_named(members_view(s.config), k)].1)
        } else {
            None
        },
{
    law_merge_later_wins(seq![], members_view(s.config), k);
    crate::json::lemma_find_key(Seq::<(Seq<char>, JsonV)>::empty(), k);
}

} // verus!
