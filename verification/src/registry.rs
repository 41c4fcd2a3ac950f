//! The release registry lookup: the URL asked for the latest driver release
//! compatible with a browser version, and the reading of the registry's
//! answer. The HTTPS request itself happens at the application edge; its
//! status and body are interpreted here.

use crate::errors::FetchError;
use vstd::prelude::*;

verus! {

/// The fixed registry host, ending in a slash.
pub open spec fn spec_registry_base() -> Seq<char> {
    "https://chromedriver.storage.googleapis.com/"@
}

/// ASCII whitespace, as it appears around a registry response body.
pub open spec fn is_space(c: char) -> bool {
    c == ' ' || c == '\n' || c == '\r' || c == '\t'
}

/// The first position at or after `i` that is past the end or holds a
/// non-space character.
pub open spec fn ltrim_idx(s: Seq<char>, i: int) -> int
    decreases s.len() - i when 0 <= i <= s.len()
{
    if i < s.len() && is_space(s[i]) {
        ltrim_idx(s, i + 1)
    } else {
        i
    }
}

/// The last position at or before `j` such that everything from it up to
/// `j` is space.
pub open spec fn rtrim_idx(s: Seq<char>, j: int) -> int
    decreases j when 0 <= j <= s.len()
{
    if j > 0 && is_space(s[j - 1]) {
        rtrim_idx(s, j - 1)
    } else {
        j
    }
}

/// `s` with leading and trailing whitespace removed.
pub open spec fn trim_of(s: Seq<char>) -> Seq<char> {
    let a = ltrim_idx(s, 0);
    let b = rtrim_idx(s, s.len() as int);
    if a <= b {
        s.subrange(a, b)
    } else {
        Seq::empty()
    }
}

/// Remove leading and trailing ASCII whitespace.
pub fn trim(s: &str) -> (r: String)
    ensures
        r@ == trim_of(s@),
{
    let n: usize = s.unicode_len();
    let mut a: usize = 0;
    while a < n && is_space_char(s.get_char(a))
        invariant
            n == s@.len(),
            0 <= a <= n,
            ltrim_idx(s@, 0) == ltrim_idx(s@, a as int),
        decreases n - a,
    {
        a += 1;
    }
    let mut b: usize = n;
    while b > 0 && is_space_char(s.get_char(b - 1))
        invariant
            n == s@.len(),
            0 <= b <= n,
            rtrim_idx(s@, n as int) == rtrim_idx(s@, b as int),
        decreases b,
    {
        b -= 1;
    }
    if a <= b {
        String::from_str(s.substring_char(a, b))
    } else {
        String::new()
    }
}

fn is_space_char(c: char) -> (b: bool)
    ensures
        b == is_space(c),
{
    c == ' ' || c == '\n' || c == '\r' || c == '\t'
}

/// The registry endpoint answering "what is the latest driver release
/// compatible with this browser version".
pub fn latest_release_url(version: &str) -> (r: String)
    ensures
        r@ == spec_registry_base() + "LATEST_RELEASE_"@ + version@,
{
    let mut url = String::from_str("https://chromedriver.storage.googleapis.com/");
    url.append("LATEST_RELEASE_");
    url.append(version);
    url
}

/// Whether an HTTP status is a success.
pub open spec fn spec_status_ok(status: u16) -> bool {
    200 <= status < 300
}

/// Read the registry's answer. A success status with a non-empty trimmed
/// body yields the release identifier; anything else is a registry failure
/// carrying the URL that was asked.
pub fn interpret_registry_response(url: &str, status: u16, body: &str) -> (r: Result<
    String,
    FetchError,
>)
    ensures
        match r {
            Ok(rel) => spec_status_ok(status) && trim_of(body@).len() > 0 && rel@ == trim_of(
                body@,
            ),
            Err(e) => match e {
                FetchError::Registry(u) => u@ == url@ && (!spec_status_ok(status) || trim_of(
                    body@,
                ).len() == 0),
                _ => false,
            },
        },
{
    if status < 200 || status >= 300 {
        return Err(FetchError::Registry(String::from_str(url)));
    }
    let t = trim(body);
    if t.as_str().unicode_len() == 0 {
        return Err(FetchError::Registry(String::from_str(url)));
    }
    Ok(t)
}

} // verus!
