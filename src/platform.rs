use vstd::prelude::*;

use crate::text::str_eq;

verus! {

/// The asset subfolder named for an (OS, architecture) pair, or `None`
/// when the pair is not supported.
pub open spec fn subfolder_for(os: Seq<char>, arch: Seq<char>) -> Option<Seq<char>> {
    if os == "macos"@ && arch == "aarch64"@ {
        Some("darwin_arm64"@)
    } else if os == "macos"@ && arch == "x86_64"@ {
        Some("darwin_x64"@)
    } else if os == "linux"@ && arch == "x86_64"@ {
        Some("linux_x64"@)
    } else if os == "linux"@ && arch == "aarch64"@ {
        Some("linux_arm64"@)
    } else if os == "windows"@ && arch == "x86_64"@ {
        Some("win_x64"@)
    } else {
        None
    }
}

/// Maps an (OS, architecture) pair to the name of its asset subfolder.
/// Only the five listed pairs are supported; every other pair gives `None`.
pub fn os_arch_subfolder(os: &str, arch: &str) -> (r: Option<&'static str>)
    ensures
        r is None <==> subfolder_for(os@, arch@) is None,
        r matches Some(s) ==> subfolder_for(os@, arch@) == Some(s@),
{
    if str_eq(os, "macos") && str_eq(arch, "aarch64") {
        Some("darwin_arm64")
    } else if str_eq(os, "macos") && str_eq(arch, "x86_64") {
        Some("darwin_x64")
    } else if str_eq(os, "linux") && str_eq(arch, "x86_64") {
        Some("linux_x64")
    } else if str_eq(os, "linux") && str_eq(arch, "aarch64") {
        Some("linux_arm64")
    } else if str_eq(os, "windows") && str_eq(arch, "x86_64") {
        Some("win_x64")
    } else {
        None
    }
}

} // verus!
