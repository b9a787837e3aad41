//! Planning of the platform-specific extraction of a downloaded artifact.
//!
//! Extraction itself is filesystem work the caller performs; these functions
//! fix every path decision beforehand, so the caller only executes the plan.

use vstd::prelude::*;

use crate::error::UpdateError;
use crate::paths::{file_name_of, join_path, parent_of, spec_file_name, spec_join, spec_parent};
use crate::platform::{is_linux_bsd, lemma_os_names_distinct, spec_linux_bsd};
use crate::strutil::str_eq;

verus! {

/// The conventional internal binary folder of a macOS application bundle.
pub open spec fn spec_bundle_bin_dir() -> Seq<char> {
    "MacOS"@
}

/// The application bundle name inside the mounted disk image and at the
/// install destination.
pub open spec fn spec_bundle_name() -> Seq<char> {
    "Lapce.app"@
}

/// The install destination directory on macOS, walked from the running
/// executable's path: if the executable's directory is the bundle's internal
/// binary folder, the destination is the directory holding the bundle (three
/// levels up); otherwise it is the executable's own directory. `None` when a
/// needed parent is missing.
pub open spec fn spec_macos_dest(process_path: Seq<char>) -> Option<Seq<char>> {
    match spec_parent(process_path) {
        Option::None => None,
        Option::Some(d) => {
            if spec_file_name(d) == spec_bundle_bin_dir() {
                match spec_parent(d) {
                    Option::None => None,
                    Option::Some(d1) => match spec_parent(d1) {
                        Option::None => None,
                        Option::Some(d2) => spec_parent(d2),
                    },
                }
            } else {
                Some(d)
            }
        },
    }
}

/// The macOS plan: mount the disk image, remove any bundle at `bundle_path`,
/// copy the bundle named `Lapce.app` from the mounted volume into `dest_dir`,
/// recursively overwriting; the new install lives at `bundle_path`.
#[derive(Debug)]
pub struct MacExtractPlan {
    pub dest_dir: String,
    pub bundle_path: String,
}

/// The archive plan (Linux tar, Windows zip): unpack the artifact into
/// `unpack_dir` (the artifact's parent directory), delete the running
/// executable at `installed_path`, and copy `unpacked_binary` over that same
/// path, so replacement happens in place.
#[derive(Debug)]
pub struct ArchiveExtractPlan {
    pub unpack_dir: String,
    pub unpacked_binary: String,
    pub installed_path: String,
}

/// One plan per platform variant.
#[derive(Debug)]
pub enum ExtractPlan {
    MacosBundle(MacExtractPlan),
    TarArchive(ArchiveExtractPlan),
    ZipArchive(ArchiveExtractPlan),
}

/// Plans the macOS extraction from the running executable's path alone.
pub fn plan_macos_extract(process_path: &str) -> (r: Result<MacExtractPlan, UpdateError>)
    ensures
        (match spec_macos_dest(process_path@) {
            Option::Some(d) => r matches Ok(plan) && plan.dest_dir@ == d && plan.bundle_path@
                == spec_join(d, spec_bundle_name()),
            Option::None => r == Err::<MacExtractPlan, UpdateError>(
                UpdateError::PathResolutionFailed,
            ),
        }),
{
    let dest = match parent_of(process_path) {
        Option::Some(d) => d,
        Option::None => {
            return Err(UpdateError::PathResolutionFailed);
        },
    };
    let dest = if str_eq(file_name_of(dest.as_str()).as_str(), "MacOS") {
        let d1 = match parent_of(dest.as_str()) {
            Option::Some(d) => d,
            Option::None => {
                return Err(UpdateError::PathResolutionFailed);
            },
        };
        let d2 = match parent_of(d1.as_str()) {
            Option::Some(d) => d,
            Option::None => {
                return Err(UpdateError::PathResolutionFailed);
            },
        };
        match parent_of(d2.as_str()) {
            Option::Some(d) => d,
            Option::None => {
                return Err(UpdateError::PathResolutionFailed);
            },
        }
    } else {
        dest
    };
    let bundle_path = join_path(dest.as_str(), "Lapce.app");
    Ok(MacExtractPlan { dest_dir: dest, bundle_path })
}

/// Plans the Linux/BSD extraction: the gzip-tar artifact unpacks into its parent
/// directory, and the binary `Lapce/lapce` from the unpacked tree replaces
/// the running executable at its original path.
pub fn plan_tar_extract(artifact: &str, process_path: &str) -> (r: Result<
    ArchiveExtractPlan,
    UpdateError,
>)
    ensures
        (match spec_parent(artifact@) {
            Option::Some(d) => r matches Ok(plan) && plan.unpack_dir@ == d && plan.unpacked_binary@
                == spec_join(spec_join(d, "Lapce"@), "lapce"@) && plan.installed_path@
                == process_path@,
            Option::None => r == Err::<ArchiveExtractPlan, UpdateError>(
                UpdateError::PathResolutionFailed,
            ),
        }),
{
    let parent = match parent_of(artifact) {
        Option::Some(d) => d,
        Option::None => {
            return Err(UpdateError::PathResolutionFailed);
        },
    };
    let unpacked_dir = join_path(parent.as_str(), "Lapce");
    let unpacked_binary = join_path(unpacked_dir.as_str(), "lapce");
    Ok(
        ArchiveExtractPlan {
            unpack_dir: parent,
            unpacked_binary,
            installed_path: crate::strutil::str_copy(process_path),
        },
    )
}

/// Plans the Windows extraction: the zip artifact unpacks into its parent
/// directory, and the binary `lapce.exe` from the unpacked tree replaces the
/// running executable at its original path.
pub fn plan_zip_extract(artifact: &str, process_path: &str) -> (r: Result<
    ArchiveExtractPlan,
    UpdateError,
>)
    ensures
        (match spec_parent(artifact@) {
            Option::Some(d) => r matches Ok(plan) && plan.unpack_dir@ == d && plan.unpacked_binary@
                == spec_join(d, "lapce.exe"@) && plan.installed_path@ == process_path@,
            Option::None => r == Err::<ArchiveExtractPlan, UpdateError>(
                UpdateError::PathResolutionFailed,
            ),
        }),
{
    let parent = match parent_of(artifact) {
        Option::Some(d) => d,
        Option::None => {
            return Err(UpdateError::PathResolutionFailed);
        },
    };
    let unpacked_binary = join_path(parent.as_str(), "lapce.exe");
    Ok(
        ArchiveExtractPlan {
            unpack_dir: parent,
            unpacked_binary,
            installed_path: crate::strutil::str_copy(process_path),
        },
    )
}

/// Dispatches to the one extraction variant of the host operating system:
/// macOS mounts the bundle image, the Linux/BSD family unpacks the tar
/// archive, Windows the zip archive.
pub fn plan_extract(os: &str, artifact: &str, process_path: &str) -> (r: Result<
    ExtractPlan,
    UpdateError,
>)
    ensures
        os@ == "macos"@ ==> (match spec_macos_dest(process_path@) {
            Option::Some(d) => r matches Ok(p) && p matches ExtractPlan::MacosBundle(plan)
                && plan.dest_dir@ == d && plan.bundle_path@ == spec_join(d, spec_bundle_name()),
            Option::None => r == Err::<ExtractPlan, UpdateError>(UpdateError::PathResolutionFailed),
        }),
        spec_linux_bsd(os@) ==> (match spec_parent(artifact@) {
            Option::Some(d) => r matches Ok(p) && p matches ExtractPlan::TarArchive(plan)
                && plan.unpack_dir@ == d && plan.unpacked_binary@ == spec_join(
                spec_join(d, "Lapce"@),
                "lapce"@,
            ) && plan.installed_path@ == process_path@,
            Option::None => r == Err::<ExtractPlan, UpdateError>(UpdateError::PathResolutionFailed),
        }),
        os@ == "windows"@ ==> (match spec_parent(artifact@) {
            Option::Some(d) => r matches Ok(p) && p matches ExtractPlan::ZipArchive(plan)
                && plan.unpack_dir@ == d && plan.unpacked_binary@ == spec_join(d, "lapce.exe"@)
                && plan.installed_path@ == process_path@,
            Option::None => r == Err::<ExtractPlan, UpdateError>(UpdateError::PathResolutionFailed),
        }),
        os@ != "macos"@ && !spec_linux_bsd(os@) && os@ != "windows"@ ==> r == Err::<
            ExtractPlan,
            UpdateError,
        >(UpdateError::UnsupportedPlatform),
{
    proof {
        lemma_os_names_distinct();
    }
    if str_eq(os, "macos") {
        match plan_macos_extract(process_path) {
            Ok(plan) => Ok(ExtractPlan::MacosBundle(plan)),
            Err(e) => Err(e),
        }
    } else if is_linux_bsd(os) {
        match plan_tar_extract(artifact, process_path) {
            Ok(plan) => Ok(ExtractPlan::TarArchive(plan)),
            Err(e) => Err(e),
        }
    } else if str_eq(os, "windows") {
        match plan_zip_extract(artifact, process_path) {
            Ok(plan) => Ok(ExtractPlan::ZipArchive(plan)),
            Err(e) => Err(e),
        }
    } else {
        Err(UpdateError::UnsupportedPlatform)
    }
}

} // verus!
