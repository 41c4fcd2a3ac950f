//! The consumer-facing driver abstraction: a named entity exposing the
//! pipeline's outputs as read-only accessors. It holds what the pipeline
//! produced and decides nothing itself.

use crate::introspect::ChromeType;
use vstd::prelude::*;

verus! {

/// Read-only access to a resolved driver's fields.
pub trait Driver {
    spec fn spec_name(&self) -> Seq<char>;

    spec fn spec_url(&self) -> Seq<char>;

    spec fn spec_version(&self) -> Seq<char>;

    spec fn spec_latest_release_version(&self) -> Seq<char>;

    fn get_name(&self) -> (r: &String)
        ensures
            r@ == self.spec_name(),
    ;

    fn get_url(&self) -> (r: &String)
        ensures
            r@ == self.spec_url(),
    ;

    fn get_version(&self) -> (r: &String)
        ensures
            r@ == self.spec_version(),
    ;

    fn get_latest_release_version(&self) -> (r: &String)
        ensures
            r@ == self.spec_latest_release_version(),
    ;
}

/// A resolved chromedriver: the artifact's name, its download URL, the
/// resolved release, and the browser it was resolved for.
pub struct ChromeDriver {
    pub name: String,
    pub url: String,
    pub version: String,
    pub latest_release_url: String,
    pub chrome_type: ChromeType,
    pub browser_version: String,
}

impl Driver for ChromeDriver {
    open spec fn spec_name(&self) -> Seq<char> {
        self.name@
    }

    open spec fn spec_url(&self) -> Seq<char> {
        self.url@
    }

    open spec fn spec_version(&self) -> Seq<char> {
        self.version@
    }

    open spec fn spec_latest_release_version(&self) -> Seq<char> {
        self.latest_release_url@
    }

    fn get_name(&self) -> (r: &String) {
        &self.name
    }

    fn get_url(&self) -> (r: &String) {
        &self.url
    }

    fn get_version(&self) -> (r: &String) {
        &self.version
    }

    fn get_latest_release_version(&self) -> (r: &String) {
        &self.latest_release_url
    }
}

} // verus!
