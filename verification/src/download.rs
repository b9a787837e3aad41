//! Selection of the platform-appropriate asset and the download plan.

use vstd::prelude::*;

use crate::error::UpdateError;
use crate::paths::{join_path, spec_join};
use crate::release::{ReleaseAsset, ReleaseInfo};
use crate::strutil::str_eq;

verus! {

/// The asset file name expected on a macOS host: a disk-image archive.
pub open spec fn spec_macos_asset() -> Seq<char> {
    "Lapce-macos.dmg"@
}

/// The asset file name expected on a Linux host: a gzip-tar archive.
pub open spec fn spec_linux_asset() -> Seq<char> {
    "Lapce-linux.tar.gz"@
}

/// The asset file name expected on a Windows host: a zip archive.
pub open spec fn spec_windows_asset() -> Seq<char> {
    "Lapce-windows-portable.zip"@
}

/// The single asset file name a host operating system maps to, or `None` for
/// an unrecognized system.
pub open spec fn spec_asset_name_for(os: Seq<char>) -> Option<Seq<char>> {
    if os == "macos"@ {
        Some(spec_macos_asset())
    } else if os == "linux"@ {
        Some(spec_linux_asset())
    } else if os == "windows"@ {
        Some(spec_windows_asset())
    } else {
        None
    }
}

/// Whether some asset in the list carries exactly this name.
pub open spec fn spec_has_asset(assets: Seq<ReleaseAsset>, name: Seq<char>) -> bool {
    exists|i: int| 0 <= i < assets.len() && assets[i].name@ == name
}

/// Whether `i` is the first index whose asset name equals `name`; duplicates
/// silently favor the first.
pub open spec fn spec_is_first_match(assets: Seq<ReleaseAsset>, name: Seq<char>, i: int) -> bool {
    &&& 0 <= i < assets.len()
    &&& assets[i].name@ == name
    &&& forall|j: int| 0 <= j < i ==> assets[j].name@ != name
}

/// Maps the host operating system to the one expected asset file name; an
/// unrecognized system is unsupported.
pub fn expected_asset_name(os: &str) -> (r: Result<&'static str, UpdateError>)
    ensures
        (match spec_asset_name_for(os@) {
            Option::Some(n) => r matches Ok(s) && s@ == n,
            Option::None => r == Err::<&'static str, UpdateError>(UpdateError::UnsupportedPlatform),
        }),
{
    if str_eq(os, "macos") {
        Ok("Lapce-macos.dmg")
    } else if str_eq(os, "linux") {
        Ok("Lapce-linux.tar.gz")
    } else if str_eq(os, "windows") {
        Ok("Lapce-windows-portable.zip")
    } else {
        Err(UpdateError::UnsupportedPlatform)
    }
}

/// Scans the asset list for the first exact name match.
pub fn select_asset(assets: &Vec<ReleaseAsset>, name: &str) -> (r: Result<usize, UpdateError>)
    ensures
        spec_has_asset(assets@, name@) ==> (r matches Ok(i) && spec_is_first_match(
            assets@,
            name@,
            i as int,
        )),
        !spec_has_asset(assets@, name@) ==> r == Err::<usize, UpdateError>(
            UpdateError::AssetNotFound,
        ),
{
    let mut i: usize = 0;
    while i < assets.len()
        invariant
            i <= assets@.len(),
            forall|j: int| 0 <= j < i ==> assets@[j].name@ != name@,
        decreases assets@.len() - i,
    {
        if str_eq(assets[i].name.as_str(), name) {
            return Ok(i);
        }
        i += 1;
    }
    Err(UpdateError::AssetNotFound)
}

/// What the caller must do to download the matched asset: one HTTP GET of
/// `url`, streamed to `dest_path`, overwriting any existing file there.
#[derive(Debug)]
pub struct DownloadPlan {
    pub url: String,
    pub dest_path: String,
}

/// Plans the asset download for one release on one host: picks the expected
/// asset name for the operating system, scans the release's assets for the
/// first exact match, and fixes the deterministic destination path inside the
/// update-storage directory. No download is attempted for an unsupported
/// system or a missing asset.
pub fn plan_download(release: &ReleaseInfo, os: &str, updates_dir: &str) -> (r: Result<
    DownloadPlan,
    UpdateError,
>)
    ensures
        (match spec_asset_name_for(os@) {
            Option::None => r == Err::<DownloadPlan, UpdateError>(UpdateError::UnsupportedPlatform),
            Option::Some(n) => {
                if spec_has_asset(release.assets@, n) {
                    r matches Ok(p) && (exists|i: int|
                        spec_is_first_match(release.assets@, n, i) && p.url@
                            == release.assets@[i].browser_download_url@) && p.dest_path@
                        == spec_join(updates_dir@, n)
                } else {
                    r == Err::<DownloadPlan, UpdateError>(UpdateError::AssetNotFound)
                }
            },
        }),
{
    let name = match expected_asset_name(os) {
        Ok(n) => n,
        Err(e) => {
            return Err(e);
        },
    };
    let idx = match select_asset(&release.assets, name) {
        Ok(i) => i,
        Err(e) => {
            return Err(e);
        },
    };
    let url = release.assets[idx].browser_download_url.clone();
    let dest_path = join_path(updates_dir, name);
    Ok(DownloadPlan { url, dest_path })
}

/// Interprets the HTTP status of the asset download the caller performed: a
/// non-success status fails with the response body as diagnostic text.
pub fn check_download_status(status_success: bool, body: String) -> (r: Result<(), UpdateError>)
    ensures
        status_success ==> r == Ok::<(), UpdateError>(()),
        !status_success ==> (r matches Err(e) && e matches UpdateError::RemoteError(b) && b@
            == body@),
{
    if status_success {
        Ok(())
    } else {
        Err(UpdateError::RemoteError(body))
    }
}

} // verus!
