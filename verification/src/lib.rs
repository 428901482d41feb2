//! Verified core of the VectorAmp API client.
//!
//! The crate decides everything that the client sends and how it reads what
//! comes back: request paths, query strings and JSON bodies, dataset defaults,
//! source builders, error extraction and the server-sent-event decoder. Moving
//! bytes over the network is left to the caller, which hands the library plain
//! values (status codes, body bytes, parsed JSON) and takes plain values back.

pub mod json;
pub mod text;
pub mod types;
pub mod errors;
pub mod transport;
pub mod datasets;
pub mod secrets;
pub mod ingestion;
pub mod schedules;
pub mod intelligence;
pub mod stream;
pub mod client;
pub mod laws;
pub mod source_laws;
pub mod body_laws;
pub mod sources;

use vstd::prelude::*;

verus! {

/// Default VectorAmp API base URL used when none is supplied.
pub const DEFAULT_BASE_URL: &'static str = "https://api.vectoramp.com";

/// User-agent string sent with every request.
pub const USER_AGENT: &'static str = "vectoramp-rust/0.4.0";

} // verus!
