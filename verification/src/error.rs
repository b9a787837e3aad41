//! Failure kinds of the update pipeline.

use vstd::prelude::*;

verus! {

/// Every way a pipeline stage can fail. Each stage surfaces its failure
/// immediately to the caller; there is no local recovery or retry.
#[derive(Clone, Debug, PartialEq)]
pub enum UpdateError {
    /// The running build has no release channel (development build sentinel).
    NoReleaseChannel,
    /// A non-success HTTP status, carrying the response body as diagnostic text.
    RemoteError(String),
    /// The metadata payload did not parse, or version derivation was invalid.
    MalformedResponse,
    /// The host operating system maps to no known asset.
    UnsupportedPlatform,
    /// No asset in the release matches the expected name for this host.
    AssetNotFound,
    /// Unpacking the downloaded artifact failed, with the underlying cause.
    ExtractionFailed(String),
    /// The update-storage directory could not be resolved.
    DirectoryUnavailable,
    /// A generic filesystem or process failure, with the underlying cause.
    IOError(String),
    /// A path lacked a needed component, such as a parent directory.
    PathResolutionFailed,
}

} // verus!
