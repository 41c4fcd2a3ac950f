//! Resolve the locally installed browser's version and acquire the matching
//! chromedriver release archive.
//!
//! The pipeline is linear: identify the host platform, pick the introspection
//! command for the browser family, extract a dotted version from its output,
//! look the version up in the release registry, and build the download URL
//! for the artifact. All decisions are made here; the process spawns, HTTP
//! requests and file writes live in the surrounding application.

pub mod driver;
pub mod errors;
pub mod fetch;
pub mod introspect;
pub mod platform;
pub mod registry;
pub mod text;
pub mod version;

use vstd::prelude::*;

verus! {

} // verus!
