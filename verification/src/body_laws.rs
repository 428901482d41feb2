//! What the request bodies built from the API's request types hold.

use vstd::prelude::*;
use crate::json::{member_value, members_view, strings_view, JsonV};
use crate::laws::{lemma_member_after_opt, lemma_member_after_push, lemma_member_of_empty};
use crate::types::{
    append_message_view, create_schedule_view, create_session_view, embed_request_view,
    create_source_body, rerank_view, start_ingestion_view, update_schedule_view,
    AppendMessageRequest, CreateScheduleRequest, CreateSessionRequest, CreateSourceRequestV,
    EmbedRequest, Rerank, StartIngestionRequest, UpdateScheduleRequest, DEFAULT_RERANK_MODEL,
    DEFAULT_RERANK_PROVIDER,
};

verus! {

/// The body of a create-schedule request carries the request's source, dataset
/// and cron expression, and its timezone, pipeline, enabled flag, name and
/// metadata when set, each under its own name; unset fields are left out.
pub proof fn law_create_schedule_body_fields(r: CreateScheduleRequest)
    ensures
        member_value(create_schedule_view(r)->Object_0, "source_id"@) == Some(JsonV::Str(r.source_id@)),
        member_value(create_schedule_view(r)->Object_0, "dataset_id"@) == Some(JsonV::Str(r.dataset_id@)),
        member_value(create_schedule_view(r)->Object_0, "cron"@) == Some(JsonV::Str(r.cron@)),
        member_value(create_schedule_view(r)->Object_0, "timezone"@) == match r.timezone {
            Some(x) => Some(JsonV::Str(x@)),
            None => None,
        },
        member_value(create_schedule_view(r)->Object_0, "pipeline_id"@) == match r.pipeline_id {
            Some(x) => Some(JsonV::Str(x@)),
            None => None,
        },
        member_value(create_schedule_view(r)->Object_0, "enabled"@) == match r.enabled {
            Some(x) => Some(JsonV::Bool(x)),
            None => None,
        },
        member_value(create_schedule_view(r)->Object_0, "name"@) == match r.name {
            Some(x) => Some(JsonV::Str(x@)),
            None => None,
        },
        member_value(create_schedule_view(r)->Object_0, "metadata"@) == match r.metadata {
            Some(x) => Some(JsonV::Object(members_view(x))),
            None => None,
        },
{
    broadcast use lemma_member_after_opt, lemma_member_after_push, lemma_member_of_empty;

    reveal_strlit("cron");
    reveal_strlit("dataset_id");
    reveal_strlit("enabled");
    reveal_strlit("metadata");
    reveal_strlit("name");
    reveal_strlit("pipeline_id");
    reveal_strlit("source_id");
    reveal_strlit("timezone");
    assert("source_id"@.len() == 9);
    assert("dataset_id"@.len() == 10);
    assert("cron"@.len() == 4);
    assert("timezone"@.len() == 8);
    assert("pipeline_id"@.len() == 11);
    assert("enabled"@.len() == 7);
    assert("name"@.len() == 4);
    assert("metadata"@.len() == 8);
    assert("cron"@[0] != "name"@[0]);
    assert("timezone"@[0] != "metadata"@[0]);
}

/// The body of an update-schedule request carries the request's set fields
/// only, each under its own name; unset fields are left out.
pub proof fn law_update_schedule_body_fields(r: UpdateScheduleRequest)
    ensures
        member_value(update_schedule_view(r)->Object_0, "cron"@) == match r.cron {
            Some(x) => Some(JsonV::Str(x@)),
            None => None,
        },
        member_value(update_schedule_view(r)->Object_0, "timezone"@) == match r.timezone {
            Some(x) => Some(JsonV::Str(x@)),
            None => None,
        },
        member_value(update_schedule_view(r)->Object_0, "pipeline_id"@) == match r.pipeline_id {
            Some(x) => Some(JsonV::Str(x@)),
            None => None,
        },
        member_value(update_schedule_view(r)->Object_0, "enabled"@) == match r.enabled {
            Some(x) => Some(JsonV::Bool(x)),
            None => None,
        },
        member_value(update_schedule_view(r)->Object_0, "name"@) == match r.name {
            Some(x) => Some(JsonV::Str(x@)),
            None => None,
        },
        member_value(update_schedule_view(r)->Object_0, "metadata"@) == match r.metadata {
            Some(x) => Some(JsonV::Object(members_view(x))),
            None => None,
        },
{
    broadcast use lemma_member_after_opt, lemma_member_after_push, lemma_member_of_empty;

    reveal_strlit("cron");
    reveal_strlit("enabled");
    reveal_strlit("metadata");
    reveal_strlit("name");
    reveal_strlit("pipeline_id");
    reveal_strlit("timezone");
    assert("cron"@.len() == 4);
    assert("timezone"@.len() == 8);
    assert("pipeline_id"@.len() == 11);
    assert("enabled"@.len() == 7);
    assert("name"@.len() == 4);
    assert("metadata"@.len() == 8);
    assert("cron"@[0] != "name"@[0]);
    assert("timezone"@[0] != "metadata"@[0]);
}

/// The body of a start-job request carries the request's source and dataset,
/// and its pipeline when set, each under its own name; unset fields are left
/// out.
pub proof fn law_start_ingestion_body_fields(r: StartIngestionRequest)
    ensures
        member_value(start_ingestion_view(r)->Object_0, "source_id"@) == Some(JsonV::Str(r.source_id@)),
        member_value(start_ingestion_view(r)->Object_0, "dataset_id"@) == Some(JsonV::Str(r.dataset_id@)),
        member_value(start_ingestion_view(r)->Object_0, "pipeline_id"@) == match r.pipeline_id {
            Some(x) => Some(JsonV::Str(x@)),
            None => None,
        },
{
    broadcast use lemma_member_after_opt, lemma_member_after_push, lemma_member_of_empty;

    reveal_strlit("dataset_id");
    reveal_strlit("pipeline_id");
    reveal_strlit("source_id");
    assert("source_id"@.len() == 9);
    assert("dataset_id"@.len() == 10);
    assert("pipeline_id"@.len() == 11);
}

/// The body of a create-session request carries the request's set fields only,
/// each under its own name; unset fields are left out.
pub proof fn law_create_session_body_fields(r: CreateSessionRequest)
    ensures
        member_value(create_session_view(r)->Object_0, "title"@) == match r.title {
            Some(x) => Some(JsonV::Str(x@)),
            None => None,
        },
        member_value(create_session_view(r)->Object_0, "workspace_id"@) == match r.workspace_id {
            Some(x) => Some(JsonV::Str(x@)),
            None => None,
        },
        member_value(create_session_view(r)->Object_0, "dataset_id"@) == match r.dataset_id {
            Some(x) => Some(JsonV::Str(x@)),
            None => None,
        },
        member_value(create_session_view(r)->Object_0, "metadata"@) == match r.metadata {
            Some(x) => Some(JsonV::Object(members_view(x))),
            None => None,
        },
{
    broadcast use lemma_member_after_opt, lemma_member_after_push, lemma_member_of_empty;

    reveal_strlit("dataset_id");
    reveal_strlit("metadata");
    reveal_strlit("title");
    reveal_strlit("workspace_id");
    assert("title"@.len() == 5);
    assert("workspace_id"@.len() == 12);
    assert("dataset_id"@.len() == 10);
    assert("metadata"@.len() == 8);
}

/// The body of an append-message request carries the request's role and
/// content, and its metadata when set, each under its own name; unset fields
/// are left out.
pub proof fn law_append_message_body_fields(r: AppendMessageRequest)
    ensures
        member_value(append_message_view(r)->Object_0, "role"@) == Some(JsonV::Str(r.role@)),
        member_value(append_message_view(r)->Object_0, "content"@) == Some(JsonV::Str(r.content@)),
        member_value(append_message_view(r)->Object_0, "metadata"@) == match r.metadata {
            Some(x) => Some(JsonV::Object(members_view(x))),
            None => None,
        },
{
    broadcast use lemma_member_after_opt, lemma_member_after_push, lemma_member_of_empty;

    reveal_strlit("content");
    reveal_strlit("metadata");
    reveal_strlit("role");
    assert("role"@.len() == 4);
    assert("content"@.len() == 7);
    assert("metadata"@.len() == 8);
}

/// The body of an embed request carries the request's set fields only, each
/// under its own name; unset fields are left out.
pub proof fn law_embed_body_fields(r: EmbedRequest)
    ensures
        member_value(embed_request_view(r)->Object_0, "text"@) == match r.text {
            Some(x) => Some(JsonV::Str(x@)),
            None => None,
        },
        member_value(embed_request_view(r)->Object_0, "texts"@) == match r.texts {
            Some(x) => Some(strings_view(x@)),
            None => None,
        },
        member_value(embed_request_view(r)->Object_0, "embedding_provider"@) == match r.embedding_provider {
            Some(x) => Some(JsonV::Str(x@)),
            None => None,
        },
        member_value(embed_request_view(r)->Object_0, "embedding_model"@) == match r.embedding_model {
            Some(x) => Some(JsonV::Str(x@)),
            None => None,
        },
{
    broadcast use lemma_member_after_opt, lemma_member_after_push, lemma_member_of_empty;

    reveal_strlit("embedding_model");
    reveal_strlit("embedding_provider");
    reveal_strlit("text");
    reveal_strlit("texts");
    assert("text"@.len() == 4);
    assert("texts"@.len() == 5);
    assert("embedding_provider"@.len() == 18);
    assert("embedding_model"@.len() == 15);
}

/// The body of a create-source request carries its type, name and config
/// (as an object), and its description and metadata when set.
pub proof fn law_create_source_body_fields(r: CreateSourceRequestV)
    ensures
        member_value(create_source_body(r)->Object_0, "source_type"@) == Some(
            JsonV::Str(r.source_type),
        ),
        member_value(create_source_body(r)->Object_0, "name"@) == Some(JsonV::Str(r.name)),
        member_value(create_source_body(r)->Object_0, "config"@) == Some(JsonV::Object(r.config)),
        member_value(create_source_body(r)->Object_0, "description"@) == match r.description {
            Some(d) => Some(JsonV::Str(d)),
            None => None,
        },
        member_value(create_source_body(r)->Object_0, "metadata"@) == match r.metadata {
            Some(o) => Some(JsonV::Object(o)),
            None => None,
        },
{
    broadcast use lemma_member_after_opt, lemma_member_after_push, lemma_member_of_empty;

    reveal_strlit("source_type");
    reveal_strlit("name");
    reveal_strlit("description");
    reveal_strlit("config");
    reveal_strlit("metadata");
    assert("source_type"@.len() == 11 && "name"@.len() == 4 && "description"@.len() == 11);
    assert("config"@.len() == 6 && "metadata"@.len() == 8);
    assert("source_type"@[0] != "description"@[0]);
}

/// Reranking switched on is sent as the full setting (enabled, provider
/// `vectoramp`, model `VectorAmp-Rerank-v1`), switched off as `false`; a
/// configuration sends its `enabled` flag, and its provider and model when
/// set.
pub proof fn law_rerank_body(r: Rerank)
    ensures
        r == Rerank::Enabled(false) ==> rerank_view(r) == JsonV::Bool(false),
        r == Rerank::Enabled(true) ==> {
            &&& rerank_view(r) is Object
            &&& member_value(rerank_view(r)->Object_0, "enabled"@) == Some(JsonV::Bool(true))
            &&& member_value(rerank_view(r)->Object_0, "provider"@) == Some(
                JsonV::Str(DEFAULT_RERANK_PROVIDER@),
            )
            &&& member_value(rerank_view(r)->Object_0, "model"@) == Some(
                JsonV::Str(DEFAULT_RERANK_MODEL@),
            )
        },
        r matches Rerank::Config(c) ==> {
            &&& rerank_view(r) is Object
            &&& member_value(rerank_view(r)->Object_0, "enabled"@) == Some(JsonV::Bool(c.enabled))
            &&& member_value(rerank_view(r)->Object_0, "provider"@) == match c.provider {
                Some(x) => Some(JsonV::Str(x@)),
                None => None,
            }
            &&& member_value(rerank_view(r)->Object_0, "model"@) == match c.model {
                Some(x) => Some(JsonV::Str(x@)),
                None => None,
            }
        },
{
    broadcast use lemma_member_after_opt, lemma_member_after_push, lemma_member_of_empty;

    reveal_strlit("enabled");
    reveal_strlit("provider");
    reveal_strlit("model");
    assert("enabled"@.len() == 7 && "provider"@.len() == 8 && "model"@.len() == 5);
}

} // verus!
