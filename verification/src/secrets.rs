//! Organization-scoped provider secrets.

use vstd::prelude::*;
use crate::json::{empty_members, object, push_member, JsonV};
use crate::text::{pct_encode, url_encode};
use crate::transport::{cat, plain, Request};
use crate::datasets::{bare, with_body};
use vstd::string::StringSliceAdditionalSpecFns;

verus! {

/// Secret reference used by the API for organization OpenAI embedding keys.
pub const OPENAI_API_KEY_SECRET_REF: &'static str = "emb:openai:api_key";

/// `PUT /org-secrets/{percent-encoded name}` with `{"value": value}`: stores
/// or updates an organization secret.
pub fn put_request(name: &str, value: String) -> (r: Request)
    ensures
        r@ == plain(
            "PUT"@,
            "/org-secrets/"@ + pct_encode(name.spec_bytes()),
            seq![],
            Some(JsonV::Object(seq![("value"@, JsonV::Str(value@))])),
        ),
{
    let mut m = empty_members();
    push_member(&mut m, "value", crate::json::Json::Str(value));
    let enc = url_encode(name);
    with_body("PUT", cat("/org-secrets/", enc.as_str()), object(m))
}

/// `GET /org-secrets/{percent-encoded name}`: succeeds when the secret is
/// present; a 404 comes back as an API error when it is missing.
pub fn has_request(name: &str) -> (r: Request)
    ensures
        r@ == plain("GET"@, "/org-secrets/"@ + pct_encode(name.spec_bytes()), seq![], None),
{
    let enc = url_encode(name);
    bare("GET", cat("/org-secrets/", enc.as_str()))
}

} // verus!
