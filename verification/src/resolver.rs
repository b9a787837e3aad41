//! Mapping of the running build's version identifier to a release channel.

use vstd::prelude::*;
use vstd::string::StringExecFns;

use crate::error::UpdateError;
use crate::strutil::{str_eq, str_starts_with};

verus! {

/// The reserved version identifier of a development build, which has no
/// release channel.
pub open spec fn spec_dev_sentinel() -> Seq<char> {
    "debug"@
}

/// The prefix that marks a build as belonging to the nightly channel.
pub open spec fn spec_nightly_prefix() -> Seq<char> {
    "nightly"@
}

/// The metadata endpoint of the nightly channel.
pub open spec fn spec_nightly_endpoint() -> Seq<char> {
    "https://api.github.com/repos/lapce/lapce/releases/tags/nightly"@
}

/// The metadata endpoint of the stable channel (latest tagged release).
pub open spec fn spec_stable_endpoint() -> Seq<char> {
    "https://api.github.com/repos/lapce/lapce/releases/latest"@
}

/// Whether a version identifier names a nightly build.
pub open spec fn spec_is_nightly_version(v: Seq<char>) -> bool {
    v.len() >= spec_nightly_prefix().len() && v.subrange(
        0,
        spec_nightly_prefix().len() as int,
    ) == spec_nightly_prefix()
}

/// Resolves the release-channel endpoint for one build. The current version
/// identifier is supplied at construction instead of being read from global
/// state.
pub struct VersionResolver {
    pub current_version: String,
}

impl VersionResolver {
    pub fn new(current_version: String) -> (r: VersionResolver)
        ensures
            r.current_version@ == current_version@,
    {
        VersionResolver { current_version }
    }

    /// Maps the configured version identifier to a channel endpoint. This is
    /// a pure function: no network call or other side effect is made, in
    /// particular not for a development build.
    pub fn resolve(&self) -> (r: Result<String, UpdateError>)
        ensures
            self.current_version@ == spec_dev_sentinel() ==> r == Err::<String, UpdateError>(
                UpdateError::NoReleaseChannel,
            ),
            self.current_version@ != spec_dev_sentinel() && spec_is_nightly_version(
                self.current_version@,
            ) ==> (r matches Ok(u) && u@ == spec_nightly_endpoint()),
            self.current_version@ != spec_dev_sentinel() && !spec_is_nightly_version(
                self.current_version@,
            ) ==> (r matches Ok(u) && u@ == spec_stable_endpoint()),
    {
        let v = self.current_version.as_str();
        if str_eq(v, "debug") {
            Err(UpdateError::NoReleaseChannel)
        } else if str_starts_with(v, "nightly") {
            Ok(String::from_str("https://api.github.com/repos/lapce/lapce/releases/tags/nightly"))
        } else {
            Ok(String::from_str("https://api.github.com/repos/lapce/lapce/releases/latest"))
        }
    }
}

} // verus!
