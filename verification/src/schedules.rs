//! Recurring ingestion schedules.
//!
//! A schedule pairs a source with a target dataset and a cron expression; the
//! server creates jobs as schedules fire.

use vstd::prelude::*;
use crate::datasets::{bare, page_query, paged_get, with_body, Pagination};
use crate::transport::{cat, cat3, plain, Request};
use crate::types::{
    create_schedule_view, update_schedule_view, CreateScheduleRequest, UpdateScheduleRequest,
};

verus! {

/// `GET /ingestion/schedules` with pagination.
pub fn list_request(p: Pagination) -> (r: Request)
    ensures
        r@ == plain("GET"@, "/ingestion/schedules"@, page_query(p), None),
{
    paged_get("/ingestion/schedules".to_string(), p)
}

/// `GET /ingestion/schedules/{id}`.
pub fn get_request(schedule_id: &str) -> (r: Request)
    ensures
        r@ == plain("GET"@, "/ingestion/schedules/"@ + schedule_id@, seq![], None),
{
    bare("GET", cat("/ingestion/schedules/", schedule_id))
}

/// `POST /ingestion/schedules`.
pub fn create_request(request: CreateScheduleRequest) -> (r: Request)
    ensures
        r@ == plain(
            "POST"@,
            "/ingestion/schedules"@,
            seq![],
            Some(create_schedule_view(request)),
        ),
{
    with_body("POST", "/ingestion/schedules".to_string(), request.into_json())
}

/// `PATCH /ingestion/schedules/{id}` with only the set fields.
pub fn update_request(schedule_id: &str, request: UpdateScheduleRequest) -> (r: Request)
    ensures
        r@ == plain(
            "PATCH"@,
            "/ingestion/schedules/"@ + schedule_id@,
            seq![],
            Some(update_schedule_view(request)),
        ),
{
    with_body("PATCH", cat("/ingestion/schedules/", schedule_id), request.into_json())
}

/// `DELETE /ingestion/schedules/{id}`.
pub fn delete_request(schedule_id: &str) -> (r: Request)
    ensures
        r@ == plain("DELETE"@, "/ingestion/schedules/"@ + schedule_id@, seq![], None),
{
    bare("DELETE", cat("/ingestion/schedules/", schedule_id))
}

/// `POST /ingestion/schedules/{id}/trigger`: an immediate run outside the
/// cron cadence.
pub fn trigger_request(schedule_id: &str) -> (r: Request)
    ensures
        r@ == plain("POST"@, "/ingestion/schedules/"@ + schedule_id@ + "/trigger"@, seq![], None),
{
    bare("POST", cat3("/ingestion/schedules/", schedule_id, "/trigger"))
}

} // verus!
