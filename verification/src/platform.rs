//! The host operating-system identifiers the pipeline recognizes.

use vstd::prelude::*;

use crate::strutil::str_eq;

verus! {

/// Whether the identifier names one of the Unix systems that share the
/// Linux-style behavior: tar extraction into the artifact's parent and
/// in-place process-image replacement.
pub open spec fn spec_linux_bsd(os: Seq<char>) -> bool {
    os == "linux"@ || os == "freebsd"@ || os == "openbsd"@
}

/// Executable test for `spec_linux_bsd`.
pub fn is_linux_bsd(os: &str) -> (r: bool)
    ensures
        r == spec_linux_bsd(os@),
{
    str_eq(os, "linux") || str_eq(os, "freebsd") || str_eq(os, "openbsd")
}

/// The five recognized operating-system identifiers are pairwise distinct,
/// so at most one platform clause of a dispatch contract applies.
pub proof fn lemma_os_names_distinct()
    ensures
        "macos"@ != "linux"@,
        "macos"@ != "windows"@,
        "macos"@ != "freebsd"@,
        "macos"@ != "openbsd"@,
        "linux"@ != "windows"@,
        "linux"@ != "freebsd"@,
        "linux"@ != "openbsd"@,
        "windows"@ != "freebsd"@,
        "windows"@ != "openbsd"@,
        "freebsd"@ != "openbsd"@,
{
    reveal_strlit("macos");
    reveal_strlit("linux");
    reveal_strlit("windows");
    reveal_strlit("freebsd");
    reveal_strlit("openbsd");
    assert("macos"@[0] != "linux"@[0]);
    assert("macos"@[0] != "windows"@[0]);
    assert("macos"@[0] != "freebsd"@[0]);
    assert("macos"@[0] != "openbsd"@[0]);
    assert("linux"@[0] != "windows"@[0]);
    assert("linux"@[0] != "freebsd"@[0]);
    assert("linux"@[0] != "openbsd"@[0]);
    assert("windows"@[0] != "freebsd"@[0]);
    assert("windows"@[0] != "openbsd"@[0]);
    assert("freebsd"@[0] != "openbsd"@[0]);
}

} // verus!
