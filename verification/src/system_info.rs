use vstd::prelude::*;
use crate::text::str_eq;

verus! {

/// The operating-system families the runtime can report.
pub open spec fn is_known_platform(p: Seq<char>) -> bool {
    ||| p == "linux"@
    ||| p == "macos"@
    ||| p == "windows"@
    ||| p == "android"@
    ||| p == "ios"@
    ||| p == "freebsd"@
    ||| p == "dragonfly"@
    ||| p == "netbsd"@
    ||| p == "openbsd"@
    ||| p == "solaris"@
}

/// Checks a platform identifier against the fixed set.
pub fn platform_is_known(p: &str) -> (r: bool)
    ensures
        r == is_known_platform(p@),
{
    str_eq(p, "linux") || str_eq(p, "macos") || str_eq(p, "windows") || str_eq(p, "android")
        || str_eq(p, "ios") || str_eq(p, "freebsd") || str_eq(p, "dragonfly") || str_eq(
        p,
        "netbsd",
    ) || str_eq(p, "openbsd") || str_eq(p, "solaris")
}

/// A snapshot of the runtime environment: the platform, the CPU
/// architecture, and the application's build-time version.
#[derive(Debug)]
pub struct SystemInfo {
    pub platform: String,
    pub arch: String,
    pub version: String,
}

impl SystemInfo {
    /// The platform is one the runtime can report and the architecture and
    /// version identifiers are non-empty.
    pub open spec fn wf(self) -> bool {
        is_known_platform(self.platform@) && self.arch@.len() > 0 && self.version@.len() > 0
    }

    /// Validates a snapshot: succeeds exactly on a known platform with
    /// non-empty architecture and version, and keeps every field verbatim.
    pub fn new(platform: String, arch: String, version: String) -> (r: Option<SystemInfo>)
        ensures
            r is Some <==> is_known_platform(platform@) && arch@.len() > 0 && version@.len() > 0,
            r is Some ==> {
                &&& r->Some_0.wf()
                &&& r->Some_0.platform@ == platform@
                &&& r->Some_0.arch@ == arch@
                &&& r->Some_0.version@ == version@
            },
    {
        if platform_is_known(platform.as_str()) && !arch.as_str().is_empty()
            && !version.as_str().is_empty() {
            Some(SystemInfo { platform, arch, version })
        } else {
            None
        }
    }
}

/// Law: a well-formed snapshot always reports a platform from the fixed set
/// and a non-empty version identifier.
pub proof fn lemma_snapshot_platform_fixed(info: SystemInfo)
    requires
        info.wf(),
    ensures
        is_known_platform(info.platform@),
        info.version@.len() > 0,
{
}

} // verus!
