//! The pipeline's error taxonomy. Every stage fails the whole run; each
//! error carries the context needed to see which stage failed and why (the
//! command invoked, the URL requested, the destination path).

use vstd::prelude::*;

verus! {

#[derive(Debug, PartialEq, Eq)]
pub enum FetchError {
    /// No introspection procedure exists for this OS/browser combination.
    UnsupportedPlatform,
    /// The introspection command could not be spawned or produced no
    /// output; carries the command.
    Process(String),
    /// The introspection output held no version pattern; carries the
    /// command.
    Introspection(String),
    /// Transport-level failure of an HTTPS request; carries the URL.
    Network(String),
    /// The registry responded, but not with a release identifier; carries
    /// the URL.
    Registry(String),
    /// The destination path could not be created or written; carries the
    /// path.
    Filesystem(String),
}

} // verus!
