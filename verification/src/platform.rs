//! Host platform identification: OS family and CPU bit width, combined into
//! the canonical tag that selects introspection commands and download
//! filenames.
//!
//! The OS name and architecture strings come from the environment at the
//! application edge; everything derived from them is decided here.

use crate::text::str_eq;
use vstd::prelude::*;

verus! {

/// The operating-system families the tool distinguishes.
#[derive(Clone, Copy, PartialEq, Eq, Structural, Debug)]
pub enum OSType {
    Windows,
    Mac,
    Linux,
}

impl OSType {
    /// The short OS name used in download filenames.
    pub open spec fn spec_name(self) -> Seq<char> {
        match self {
            OSType::Windows => "win"@,
            OSType::Mac => "mac"@,
            OSType::Linux => "linux"@,
        }
    }

    pub fn to_string(&self) -> (r: String)
        ensures
            r@ == self.spec_name(),
    {
        match self {
            OSType::Windows => String::from_str("win"),
            OSType::Mac => String::from_str("mac"),
            OSType::Linux => String::from_str("linux"),
        }
    }
}

/// The canonical platform tag: OS family plus bit width. `wide` records a
/// 64-bit host, except that driver archives for Windows are only published
/// as 32-bit builds, so a well-formed Windows tag is never wide.
#[derive(Clone, Copy, PartialEq, Eq, Structural, Debug)]
pub struct PlatformTag {
    pub os: OSType,
    pub wide: bool,
}

impl PlatformTag {
    /// On Windows the width is forced to 32 bit, whatever the CPU reported.
    pub open spec fn wf(self) -> bool {
        self.os is Windows ==> !self.wide
    }

    /// The width component of the tag as it appears in filenames.
    pub open spec fn spec_width(self) -> Seq<char> {
        if self.wide {
            "64"@
        } else {
            "32"@
        }
    }

    /// The full tag, e.g. the OS name followed by the bit width.
    pub open spec fn spec_tag(self) -> Seq<char> {
        self.os.spec_name() + self.spec_width()
    }
}

/// Whether the architecture string reported by the host names a 64-bit CPU,
/// i.e. ends in "64".
pub open spec fn spec_arch_is_64(arch: Seq<char>) -> bool {
    arch.len() >= 2 && arch[arch.len() - 2] == '6' && arch[arch.len() - 1] == '4'
}

/// The OS family for a reported OS name; anything unrecognized falls back to
/// Linux by design, not as an error.
pub open spec fn spec_os_of(name: Seq<char>) -> OSType {
    if name == "linux"@ {
        OSType::Linux
    } else if name == "windows"@ {
        OSType::Windows
    } else if name == "macos"@ {
        OSType::Mac
    } else {
        OSType::Linux
    }
}

/// The platform tag derived from the reported OS name and architecture.
pub open spec fn spec_platform(name: Seq<char>, arch: Seq<char>) -> PlatformTag {
    let os = spec_os_of(name);
    PlatformTag { os, wide: spec_arch_is_64(arch) && !(os is Windows) }
}

/// Derive the platform tag from the host-reported OS name (as in
/// `std::env::consts::OS`) and architecture (as in `std::env::consts::ARCH`).
pub fn detect_platform(os_name: &str, arch: &str) -> (r: PlatformTag)
    ensures
        r == spec_platform(os_name@, arch@),
        r.wf(),
{
    let os = if str_eq(os_name, "linux") {
        OSType::Linux
    } else if str_eq(os_name, "windows") {
        OSType::Windows
    } else if str_eq(os_name, "macos") {
        OSType::Mac
    } else {
        OSType::Linux
    };
    let n: usize = arch.unicode_len();
    let arch64: bool = n >= 2 && arch.get_char(n - 2) == '6' && arch.get_char(n - 1) == '4';
    let wide = arch64 && !matches!(os, OSType::Windows);
    PlatformTag { os, wide }
}

/// The combined platform tag string, OS name followed by bit width.
pub fn os_type(platform: &PlatformTag) -> (r: String)
    ensures
        r@ == platform.spec_tag(),
{
    let mut s = platform.os.to_string();
    if platform.wide {
        s.append("64");
    } else {
        s.append("32");
    }
    s
}

/// Platform identification is a pure function of the reported OS name and
/// architecture: repeated identification on one host always yields the
/// identical tag.
pub proof fn lemma_detect_platform_idempotent(
    name1: Seq<char>,
    arch1: Seq<char>,
    name2: Seq<char>,
    arch2: Seq<char>,
)
    requires
        name1 == name2,
        arch1 == arch2,
    ensures
        spec_platform(name1, arch1) == spec_platform(name2, arch2),
{
}

/// On Windows the tag's width component is always "32" regardless of the
/// detected architecture; on Linux and Mac it mirrors the detected width.
pub proof fn lemma_windows_width(name: Seq<char>, arch: Seq<char>)
    ensures
        spec_platform(name, arch).wf(),
        spec_os_of(name) is Windows ==> spec_platform(name, arch).spec_width() == "32"@,
        !(spec_os_of(name) is Windows) ==> spec_platform(name, arch).wide == spec_arch_is_64(
            arch,
        ),
{
}

} // verus!
