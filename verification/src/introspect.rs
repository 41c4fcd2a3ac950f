//! Selection of the platform-specific browser introspection command and
//! interpretation of its output.

use crate::errors::FetchError;
use crate::platform::OSType;
use crate::version::{is_version_chars, version_of};
use vstd::prelude::*;

verus! {

/// The browser families the tool understands.
#[derive(Clone, Copy, PartialEq, Eq, Structural, Debug)]
pub enum ChromeType {
    GOOGLE,
    CHROMIUM,
    MSEDGE,
}

/// The statically known introspection command for each browser family and
/// OS family; none exists for Edge on Linux.
pub open spec fn spec_command(family: ChromeType, os: OSType) -> Option<Seq<char>> {
    match family {
        ChromeType::GOOGLE => match os {
            OSType::Windows => Some(
                "reg query HKEY_CURRENT_USER\\Software\\Google\\Chrome\\BLBeacon /v version"@,
            ),
            OSType::Linux => Some(
                "google-chrome --version 2>/dev/null || google-chrome-stable --version 2>/dev/null"@,
            ),
            OSType::Mac => Some(
                "/Applications/Google\\ Chrome.app/Contents/MacOS/Google\\ Chrome --version"@,
            ),
        },
        ChromeType::CHROMIUM => match os {
            OSType::Windows => Some(
                "reg query HKLM\\SOFTWARE\\Wow6432Node\\Microsoft\\Windows\\CurrentVersion\\Uninstall\\Google Chrome /v version"@,
            ),
            OSType::Linux => Some(
                "chromium --version 2>/dev/null || chromium-browser --version 2>/dev/null"@,
            ),
            OSType::Mac => Some("/Applications/Chromium.app/Contents/MacOS/Chromium --version"@),
        },
        ChromeType::MSEDGE => match os {
            OSType::Windows => Some(
                "reg query HKEY_CURRENT_USER\\SOFTWARE\\Microsoft\\Edge\\BLBeacon /v version"@,
            ),
            OSType::Mac => Some(
                "/Applications/Microsoft\\ Edge.app/Contents/MacOS/Microsoft\\ Edge --version"@,
            ),
            OSType::Linux => None,
        },
    }
}

/// Every browser/OS pair has an introspection procedure, except the one
/// known gap: Edge on Linux.
pub proof fn lemma_command_coverage(family: ChromeType, os: OSType)
    ensures
        spec_command(family, os) is None <==> (family is MSEDGE && os is Linux),
{
}

/// Pick the introspection command for a browser family on an OS family.
/// Fails fast with `UnsupportedPlatform` exactly where no procedure exists.
pub fn introspection_command(family: &ChromeType, os: &OSType) -> (r: Result<String, FetchError>)
    ensures
        match r {
            Ok(c) => spec_command(*family, *os) == Some(c@),
            Err(e) => spec_command(*family, *os) is None && e is UnsupportedPlatform,
        },
{
    match family {
        ChromeType::GOOGLE => match os {
            OSType::Windows => Ok(
                String::from_str(
                    "reg query HKEY_CURRENT_USER\\Software\\Google\\Chrome\\BLBeacon /v version",
                ),
            ),
            OSType::Linux => Ok(
                String::from_str(
                    "google-chrome --version 2>/dev/null || google-chrome-stable --version 2>/dev/null",
                ),
            ),
            OSType::Mac => Ok(
                String::from_str(
                    "/Applications/Google\\ Chrome.app/Contents/MacOS/Google\\ Chrome --version",
                ),
            ),
        },
        ChromeType::CHROMIUM => match os {
            OSType::Windows => Ok(
                String::from_str(
                    "reg query HKLM\\SOFTWARE\\Wow6432Node\\Microsoft\\Windows\\CurrentVersion\\Uninstall\\Google Chrome /v version",
                ),
            ),
            OSType::Linux => Ok(
                String::from_str(
                    "chromium --version 2>/dev/null || chromium-browser --version 2>/dev/null",
                ),
            ),
            OSType::Mac => Ok(
                String::from_str("/Applications/Chromium.app/Contents/MacOS/Chromium --version"),
            ),
        },
        ChromeType::MSEDGE => match os {
            OSType::Windows => Ok(
                String::from_str(
                    "reg query HKEY_CURRENT_USER\\SOFTWARE\\Microsoft\\Edge\\BLBeacon /v version",
                ),
            ),
            OSType::Mac => Ok(
                String::from_str(
                    "/Applications/Microsoft\\ Edge.app/Contents/MacOS/Microsoft\\ Edge --version",
                ),
            ),
            OSType::Linux => Err(FetchError::UnsupportedPlatform),
        },
    }
}

/// Turn captured introspection output into a version string.
///
/// `output` is what the process layer captured: nothing when the command
/// could not be spawned, otherwise its text. A missing or empty capture is a
/// process failure (the browser is not installed); text without a version
/// pattern is an introspection failure (the output format changed). Both
/// errors carry the command that was run.
pub fn extract_version_from_output(command: &str, output: Option<String>) -> (r: Result<
    String,
    FetchError,
>)
    ensures
        match r {
            Ok(v) => {
                &&& output is Some
                &&& output.unwrap()@.len() > 0
                &&& version_of(output.unwrap()@) == Some(v@)
                &&& is_version_chars(v@)
            },
            Err(e) => match e {
                FetchError::Process(c) => c@ == command@ && (output is None || output.unwrap()@.len()
                    == 0),
                FetchError::Introspection(c) => {
                    &&& c@ == command@
                    &&& output is Some
                    &&& output.unwrap()@.len() > 0
                    &&& version_of(output.unwrap()@) is None
                },
                _ => false,
            },
        },
{
    match output {
        None => Err(FetchError::Process(String::from_str(command))),
        Some(out) => {
            if out.as_str().unicode_len() == 0 {
                return Err(FetchError::Process(String::from_str(command)));
            }
            match crate::version::find_version(out.as_str()) {
                Some(v) => Ok(v),
                None => Err(FetchError::Introspection(String::from_str(command))),
            }
        },
    }
}

} // verus!
