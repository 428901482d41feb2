//! Source-type identifiers used by the public API.

use vstd::prelude::*;

verus! {

pub const S3: &'static str = "s3";
pub const WEB: &'static str = "web";
pub const GCS: &'static str = "gcs";
pub const GDRIVE: &'static str = "gdrive";
pub const JIRA: &'static str = "jira";
pub const CONFLUENCE: &'static str = "confluence";
pub const FILE_UPLOAD: &'static str = "file_upload";
pub const GITHUB: &'static str = "github";
pub const GITLAB: &'static str = "gitlab";

} // verus!
