//! Release metadata and the derivation of the normalized version string.

use vstd::prelude::*;
use vstd::string::StrSliceExecFns;
use vstd::string::StringExecFns;

use crate::error::UpdateError;
use crate::strutil::str_eq;

verus! {

/// One downloadable file attached to a release: a display name, used as a
/// case-sensitive exact match key, and its download location.
#[derive(Clone, Debug)]
pub struct ReleaseAsset {
    pub name: String,
    pub browser_download_url: String,
}

/// Release metadata: the tag identifier, the source commit identifier, the
/// ordered asset list, and the derived normalized version (computed, not part
/// of the wire payload).
#[derive(Clone, Debug)]
pub struct ReleaseInfo {
    pub tag_name: String,
    pub target_commitish: String,
    pub assets: Vec<ReleaseAsset>,
    pub version: String,
}

/// The tag identifier that marks a nightly release.
pub open spec fn spec_nightly_tag() -> Seq<char> {
    "nightly"@
}

/// The prefix of a nightly normalized version.
pub open spec fn spec_nightly_version_prefix() -> Seq<char> {
    "nightly-"@
}

/// Whether a normalized version can be derived: a nightly release needs a
/// commit identifier of at least 7 characters, a stable release a tag
/// identifier of at least two characters — the conventional prefix character
/// and something after it, so that the version stays non-empty.
pub open spec fn spec_version_ok(tag: Seq<char>, commit: Seq<char>) -> bool {
    if tag == spec_nightly_tag() {
        commit.len() >= 7
    } else {
        tag.len() >= 2
    }
}

/// The normalized version: for a nightly release, the nightly prefix followed
/// by the first 7 characters of the commit identifier; for a stable release,
/// the tag identifier with its first character removed.
pub open spec fn spec_derived_version(tag: Seq<char>, commit: Seq<char>) -> Seq<char>
    recommends
        spec_version_ok(tag, commit),
{
    if tag == spec_nightly_tag() {
        spec_nightly_version_prefix() + commit.subrange(0, 7)
    } else {
        tag.subrange(1, tag.len() as int)
    }
}

/// Once computed, the normalized version is non-empty: a nightly version
/// always carries the nightly prefix and seven commit characters, and a
/// stable tag keeps at least one character after its prefix character is
/// removed.
pub proof fn lemma_normalized_version_nonempty(tag: Seq<char>, commit: Seq<char>)
    requires
        spec_version_ok(tag, commit),
    ensures
        spec_derived_version(tag, commit).len() > 0,
{
    if tag == spec_nightly_tag() {
        reveal_strlit("nightly-");
    }
}

/// Derives the normalized version from the tag and commit identifiers. A
/// nightly commit identifier shorter than 7 characters, or a stable tag too
/// short to hold anything beyond its prefix character, is an invalid
/// derivation and fails rather than crashing or producing an empty version.
pub fn derive_version(tag_name: &str, target_commitish: &str) -> (r: Result<String, UpdateError>)
    ensures
        spec_version_ok(tag_name@, target_commitish@) ==> (r matches Ok(v) && v@
            == spec_derived_version(tag_name@, target_commitish@)),
        !spec_version_ok(tag_name@, target_commitish@) ==> r == Err::<String, UpdateError>(
            UpdateError::MalformedResponse,
        ),
{
    if str_eq(tag_name, "nightly") {
        let clen = target_commitish.unicode_len();
        if clen < 7 {
            Err(UpdateError::MalformedResponse)
        } else {
            let head = target_commitish.substring_char(0, 7);
            let mut v = String::from_str("nightly-");
            v.append(head);
            Ok(v)
        }
    } else {
        let tlen = tag_name.unicode_len();
        if tlen < 2 {
            Err(UpdateError::MalformedResponse)
        } else {
            Ok(String::from_str(tag_name.substring_char(1, tlen)))
        }
    }
}

/// The compute half of the metadata fetch. The caller performs one HTTP GET
/// against the channel endpoint and hands over the status outcome, the
/// response body, and the parse outcome of the body against the metadata
/// schema; this function turns them into a populated `ReleaseInfo` or the
/// error the pipeline reports.
pub fn interpret_release_response(
    status_success: bool,
    body: String,
    parsed: Option<ReleaseInfo>,
) -> (r: Result<ReleaseInfo, UpdateError>)
    ensures
        !status_success ==> (r matches Err(e) && e matches UpdateError::RemoteError(b) && b@
            == body@),
        status_success ==> (match parsed {
            Option::None => r == Err::<ReleaseInfo, UpdateError>(UpdateError::MalformedResponse),
            Option::Some(info) => {
                if spec_version_ok(info.tag_name@, info.target_commitish@) {
                    r matches Ok(out) && out.tag_name@ == info.tag_name@ && out.target_commitish@
                        == info.target_commitish@ && out.assets == info.assets && out.version@
                        == spec_derived_version(info.tag_name@, info.target_commitish@)
                } else {
                    r == Err::<ReleaseInfo, UpdateError>(UpdateError::MalformedResponse)
                }
            },
        }),
{
    if !status_success {
        return Err(UpdateError::RemoteError(body));
    }
    match parsed {
        Option::None => Err(UpdateError::MalformedResponse),
        Option::Some(mut info) => {
            match derive_version(info.tag_name.as_str(), info.target_commitish.as_str()) {
                Ok(v) => {
                    info.version = v;
                    Ok(info)
                },
                Err(e) => Err(e),
            }
        },
    }
}

} // verus!
