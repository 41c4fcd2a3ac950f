//! The artifact download URL: a pure composition of the registry base, the
//! resolved release identifier and the platform tag, together with the
//! parse that recovers both from such a URL. The HTTPS download and the
//! file write happen at the application edge.

use crate::platform::PlatformTag;
use crate::registry::spec_registry_base;
use crate::text::{find_char, first_index_from, lemma_first_index_bounds, lemma_first_index_is,
    matches_at};
use vstd::prelude::*;

verus! {

/// The fixed filename template's stem.
pub open spec fn spec_artifact_prefix() -> Seq<char> {
    "chromedriver_"@
}

/// The fixed filename template's extension.
pub open spec fn spec_zip_suffix() -> Seq<char> {
    ".zip"@
}

/// The download URL for a release and a platform tag.
pub open spec fn spec_download_url(release: Seq<char>, tag: Seq<char>) -> Seq<char> {
    spec_registry_base() + release + "/"@ + spec_artifact_prefix() + tag + spec_zip_suffix()
}

/// Compose the download URL for a resolved release on a platform.
pub fn download_url(release: &str, platform: &PlatformTag) -> (r: String)
    ensures
        r@ == spec_download_url(release@, platform.spec_tag()),
{
    let mut url = String::from_str("https://chromedriver.storage.googleapis.com/");
    url.append(release);
    url.append("/");
    url.append("chromedriver_");
    let tag = crate::platform::os_type(platform);
    url.append(tag.as_str());
    url.append(".zip");
    assert(url@ =~= spec_download_url(release@, platform.spec_tag()));
    url
}

/// The release identifier and platform tag recovered from a download URL,
/// if it has the composed shape: the registry base, a release up to the
/// next slash, then the filename template around the tag.
pub open spec fn spec_parse_download_url(url: Seq<char>) -> Option<(Seq<char>, Seq<char>)> {
    let nb = spec_registry_base().len() as int;
    let np = spec_artifact_prefix().len() as int;
    let ns = spec_zip_suffix().len() as int;
    if url.len() < nb {
        None
    } else if url.subrange(0, nb) != spec_registry_base() {
        None
    } else {
        let rest = url.subrange(nb, url.len() as int);
        match first_index_from(rest, '/', 0) {
            None => None,
            Some(k) => {
                let release = rest.subrange(0, k);
                let rest2 = rest.subrange(k + 1, rest.len() as int);
                if rest2.len() < np + ns {
                    None
                } else if rest2.subrange(0, np) != spec_artifact_prefix() {
                    None
                } else if rest2.subrange(rest2.len() - ns, rest2.len() as int)
                    != spec_zip_suffix() {
                    None
                } else {
                    Some((release, rest2.subrange(np, rest2.len() - ns)))
                }
            },
        }
    }
}

/// Recover the release identifier and platform tag from a download URL.
pub fn parse_download_url(url: &str) -> (r: Option<(String, String)>)
    ensures
        match r {
            Some(p) => spec_parse_download_url(url@) == Some((p.0@, p.1@)),
            None => spec_parse_download_url(url@) is None,
        },
{
    let base = "https://chromedriver.storage.googleapis.com/";
    let n: usize = url.unicode_len();
    let nb: usize = base.unicode_len();
    if n < nb {
        return None;
    }
    if !matches_at(url, 0, base) {
        return None;
    }
    let rest = url.substring_char(nb, n);
    let m: usize = rest.unicode_len();
    proof {
        lemma_first_index_bounds(rest@, '/', 0);
    }
    let k = match find_char(rest, '/') {
        None => {
            return None;
        },
        Some(k) => k,
    };
    let release = rest.substring_char(0, k);
    let rest2 = rest.substring_char(k + 1, m);
    let m2: usize = rest2.unicode_len();
    let pre = "chromedriver_";
    let suf = ".zip";
    let np: usize = pre.unicode_len();
    let ns: usize = suf.unicode_len();
    proof {
        reveal_strlit("chromedriver_");
        reveal_strlit(".zip");
    }
    if m2 < np + ns {
        return None;
    }
    if !matches_at(rest2, 0, pre) {
        return None;
    }
    if !matches_at(rest2, m2 - ns, suf) {
        return None;
    }
    let tag = rest2.substring_char(np, m2 - ns);
    Some((String::from_str(release), String::from_str(tag)))
}

/// Building a download URL from a release identifier and a platform tag and
/// parsing it back recovers the same release and tag substrings, for any
/// release identifier free of slashes (as the registry's identifiers are).
pub proof fn lemma_url_round_trip(release: Seq<char>, tag: Seq<char>)
    requires
        forall|i: int| 0 <= i < release.len() ==> release[i] != '/',
    ensures
        spec_parse_download_url(spec_download_url(release, tag)) == Some((release, tag)),
{
    reveal_strlit("/");
    let url = spec_download_url(release, tag);
    let nb = spec_registry_base().len() as int;
    let np = spec_artifact_prefix().len() as int;
    let ns = spec_zip_suffix().len() as int;
    assert("/"@.len() == 1);
    assert("/"@[0] == '/');
    assert(url.len() == nb + release.len() + 1 + np + tag.len() + ns);
    assert(url.subrange(0, nb) =~= spec_registry_base());
    let rest = url.subrange(nb, url.len() as int);
    assert(rest =~= release + "/"@ + spec_artifact_prefix() + tag + spec_zip_suffix());
    let k = release.len() as int;
    assert(rest[k] == '/');
    assert(forall|j: int| 0 <= j < k ==> rest[j] == release[j]);
    lemma_first_index_is(rest, '/', 0, k);
    assert(rest.subrange(0, k) =~= release);
    let rest2 = rest.subrange(k + 1, rest.len() as int);
    assert(rest2 =~= spec_artifact_prefix() + tag + spec_zip_suffix());
    assert(rest2.len() == np + tag.len() + ns);
    assert(rest2.subrange(0, np) =~= spec_artifact_prefix());
    assert(rest2.subrange(rest2.len() - ns, rest2.len() as int) =~= spec_zip_suffix());
    assert(rest2.subrange(np, rest2.len() - ns) =~= tag);
}

} // verus!
