use lapce_update::download::{check_download_status, expected_asset_name, plan_download, select_asset};
use lapce_update::error::UpdateError;
use lapce_update::extract::{plan_extract, plan_macos_extract, plan_tar_extract, plan_zip_extract, ExtractPlan};
use lapce_update::paths::{file_name_of, join_path, parent_of};
use lapce_update::pipeline::{advance, PipelineState, Stage};
use lapce_update::release::{derive_version, interpret_release_response, ReleaseAsset, ReleaseInfo};
use lapce_update::relaunch::{plan_relaunch, u32_decimal, RelaunchPlan};
use lapce_update::resolver::VersionResolver;
use lapce_update::strutil::{str_eq, str_starts_with};

fn release_with_assets(assets: Vec<ReleaseAsset>) -> ReleaseInfo {
    ReleaseInfo {
        tag_name: "v0.2.8".to_string(),
        target_commitish: "abcdef1234".to_string(),
        assets,
        version: String::new(),
    }
}

fn asset(name: &str, url: &str) -> ReleaseAsset {
    ReleaseAsset {
        name: name.to_string(),
        browser_download_url: url.to_string(),
    }
}

#[test]
fn resolver_debug_build_has_no_channel() {
    let resolver = VersionResolver::new("debug".to_string());
    assert_eq!(resolver.resolve(), Err(UpdateError::NoReleaseChannel));
}

#[test]
fn resolver_nightly_build_uses_nightly_endpoint() {
    let resolver = VersionResolver::new("nightly-abcdef1".to_string());
    let url = resolver.resolve().unwrap();
    assert_eq!(
        url,
        "https://api.github.com/repos/lapce/lapce/releases/tags/nightly"
    );
}

#[test]
fn resolver_stable_build_uses_latest_endpoint() {
    let resolver = VersionResolver::new("0.2.8".to_string());
    let url = resolver.resolve().unwrap();
    assert_eq!(url, "https://api.github.com/repos/lapce/lapce/releases/latest");
}

#[test]
fn stable_tag_drops_leading_character() {
    assert_eq!(derive_version("v1.2.3", "abcdef1234").unwrap(), "1.2.3");
}

#[test]
fn nightly_version_takes_seven_commit_characters() {
    assert_eq!(
        derive_version("nightly", "abcdef1234").unwrap(),
        "nightly-abcdef1"
    );
}

#[test]
fn nightly_short_commit_is_malformed_not_a_crash() {
    assert_eq!(
        derive_version("nightly", "abcdef"),
        Err(UpdateError::MalformedResponse)
    );
}

#[test]
fn empty_stable_tag_is_malformed() {
    assert_eq!(derive_version("", "abcdef1234"), Err(UpdateError::MalformedResponse));
}

#[test]
fn bare_prefix_stable_tag_is_malformed_not_empty() {
    assert_eq!(derive_version("v", "abcdef1234"), Err(UpdateError::MalformedResponse));
}

#[test]
fn fetch_failure_carries_response_body() {
    let r = interpret_release_response(false, "rate limited".to_string(), None);
    assert_eq!(r.unwrap_err(), UpdateError::RemoteError("rate limited".to_string()));
}

#[test]
fn unparsable_body_is_malformed() {
    let r = interpret_release_response(true, "not json".to_string(), None);
    assert_eq!(r.unwrap_err(), UpdateError::MalformedResponse);
}

#[test]
fn fetched_release_gets_normalized_version() {
    let info = release_with_assets(vec![asset("Lapce-linux.tar.gz", "U")]);
    let out = interpret_release_response(true, "{}".to_string(), Some(info)).unwrap();
    assert_eq!(out.version, "0.2.8");
    assert_eq!(out.tag_name, "v0.2.8");
    assert_eq!(out.target_commitish, "abcdef1234");
    assert_eq!(out.assets.len(), 1);
}

#[test]
fn fetched_nightly_with_short_commit_is_malformed() {
    let mut info = release_with_assets(vec![]);
    info.tag_name = "nightly".to_string();
    info.target_commitish = "abc".to_string();
    let r = interpret_release_response(true, "{}".to_string(), Some(info));
    assert_eq!(r.unwrap_err(), UpdateError::MalformedResponse);
}

#[test]
fn expected_asset_names_per_platform() {
    assert_eq!(expected_asset_name("macos").unwrap(), "Lapce-macos.dmg");
    assert_eq!(expected_asset_name("linux").unwrap(), "Lapce-linux.tar.gz");
    assert_eq!(
        expected_asset_name("windows").unwrap(),
        "Lapce-windows-portable.zip"
    );
    assert_eq!(
        expected_asset_name("freebsd"),
        Err(UpdateError::UnsupportedPlatform)
    );
}

#[test]
fn select_asset_is_exact_and_case_sensitive() {
    let assets = vec![
        asset("lapce-linux.tar.gz", "wrong-case"),
        asset("Lapce-linux.tar.gz", "right"),
    ];
    assert_eq!(select_asset(&assets, "Lapce-linux.tar.gz").unwrap(), 1);
    assert_eq!(
        select_asset(&assets, "Lapce-macos.dmg"),
        Err(UpdateError::AssetNotFound)
    );
}

#[test]
fn duplicate_asset_names_favor_the_first() {
    let assets = vec![
        asset("Lapce-linux.tar.gz", "first"),
        asset("Lapce-linux.tar.gz", "second"),
    ];
    assert_eq!(select_asset(&assets, "Lapce-linux.tar.gz").unwrap(), 0);
}

#[test]
fn download_plan_on_linux_streams_matching_asset() {
    let release = release_with_assets(vec![asset("Lapce-linux.tar.gz", "U")]);
    let plan = plan_download(&release, "linux", "/home/me/.local/share/lapce/updates").unwrap();
    assert_eq!(plan.url, "U");
    assert_eq!(
        plan.dest_path,
        "/home/me/.local/share/lapce/updates/Lapce-linux.tar.gz"
    );
}

#[test]
fn download_plan_on_unsupported_host_fails_before_any_download() {
    let release = release_with_assets(vec![asset("Lapce-linux.tar.gz", "U")]);
    let r = plan_download(&release, "solaris", "/updates");
    assert_eq!(r.unwrap_err(), UpdateError::UnsupportedPlatform);
}

#[test]
fn download_plan_without_matching_asset_fails() {
    let release = release_with_assets(vec![asset("Lapce-macos.dmg", "U")]);
    let r = plan_download(&release, "linux", "/updates");
    assert_eq!(r.unwrap_err(), UpdateError::AssetNotFound);
}

#[test]
fn download_failure_carries_response_body() {
    assert_eq!(check_download_status(true, String::new()), Ok(()));
    assert_eq!(
        check_download_status(false, "not found".to_string()),
        Err(UpdateError::RemoteError("not found".to_string()))
    );
}

#[test]
fn path_model_basics() {
    assert_eq!(parent_of("/a/b/c").unwrap(), "/a/b");
    assert_eq!(parent_of("lapce"), None);
    assert_eq!(file_name_of("/a/b/c"), "c");
    assert_eq!(file_name_of("lapce"), "lapce");
    assert_eq!(join_path("/a/b", "c"), "/a/b/c");
}

#[test]
fn macos_extract_inside_bundle_targets_bundle_parent() {
    let plan = plan_macos_extract("/Applications/Lapce.app/Contents/MacOS/lapce").unwrap();
    assert_eq!(plan.dest_dir, "/Applications");
    assert_eq!(plan.bundle_path, "/Applications/Lapce.app");
}

#[test]
fn macos_extract_outside_bundle_targets_own_directory() {
    let plan = plan_macos_extract("/opt/lapce/lapce").unwrap();
    assert_eq!(plan.dest_dir, "/opt/lapce");
    assert_eq!(plan.bundle_path, "/opt/lapce/Lapce.app");
}

#[test]
fn macos_extract_without_parent_fails() {
    assert_eq!(
        plan_macos_extract("lapce").unwrap_err(),
        UpdateError::PathResolutionFailed
    );
}

#[test]
fn tar_extract_replaces_binary_in_place() {
    let plan = plan_tar_extract("/updates/Lapce-linux.tar.gz", "/usr/bin/lapce").unwrap();
    assert_eq!(plan.unpack_dir, "/updates");
    assert_eq!(plan.unpacked_binary, "/updates/Lapce/lapce");
    assert_eq!(plan.installed_path, "/usr/bin/lapce");
}

#[test]
fn zip_extract_replaces_binary_in_place() {
    let plan = plan_zip_extract("C:/updates/Lapce-windows-portable.zip", "C:/Lapce/lapce.exe")
        .unwrap();
    assert_eq!(plan.unpack_dir, "C:/updates");
    assert_eq!(plan.unpacked_binary, "C:/updates/lapce.exe");
    assert_eq!(plan.installed_path, "C:/Lapce/lapce.exe");
}

#[test]
fn extract_without_parent_fails() {
    assert_eq!(
        plan_tar_extract("artifact", "/usr/bin/lapce").unwrap_err(),
        UpdateError::PathResolutionFailed
    );
}

#[test]
fn extract_dispatches_per_platform() {
    let mac = plan_extract("macos", "/u/Lapce-macos.dmg", "/opt/lapce/lapce").unwrap();
    assert!(matches!(mac, ExtractPlan::MacosBundle(_)));
    let linux = plan_extract("linux", "/u/Lapce-linux.tar.gz", "/usr/bin/lapce").unwrap();
    assert!(matches!(linux, ExtractPlan::TarArchive(_)));
    let freebsd = plan_extract("freebsd", "/u/Lapce-linux.tar.gz", "/usr/bin/lapce").unwrap();
    assert!(matches!(freebsd, ExtractPlan::TarArchive(_)));
    let openbsd = plan_extract("openbsd", "/u/Lapce-linux.tar.gz", "/usr/bin/lapce").unwrap();
    assert!(matches!(openbsd, ExtractPlan::TarArchive(_)));
    let win = plan_extract("windows", "C:/u/Lapce-windows-portable.zip", "C:/L/lapce.exe").unwrap();
    assert!(matches!(win, ExtractPlan::ZipArchive(_)));
    assert_eq!(
        plan_extract("haiku", "/u/a", "/b").unwrap_err(),
        UpdateError::UnsupportedPlatform
    );
}

#[test]
fn end_to_end_planning_over_fabricated_metadata() {
    let resolver = VersionResolver::new("0.2.7".to_string());
    let url = resolver.resolve().unwrap();
    assert_eq!(url, "https://api.github.com/repos/lapce/lapce/releases/latest");
    let fetched = release_with_assets(vec![asset("Lapce-linux.tar.gz", "https://dl/asset")]);
    let release = interpret_release_response(true, "{}".to_string(), Some(fetched)).unwrap();
    assert_eq!(release.version, "0.2.8");
    let plan = plan_download(&release, "linux", "/updates").unwrap();
    assert_eq!(plan.url, "https://dl/asset");
    assert_eq!(plan.dest_path, "/updates/Lapce-linux.tar.gz");
    let extract = plan_tar_extract(&plan.dest_path, "/usr/bin/lapce").unwrap();
    assert_eq!(extract.unpack_dir, "/updates");
    assert_eq!(extract.unpacked_binary, "/updates/Lapce/lapce");
    assert_eq!(extract.installed_path, "/usr/bin/lapce");
}

#[test]
fn unix_relaunch_replaces_the_process_image() {
    match plan_relaunch("linux", "/usr/bin/lapce", 7).unwrap() {
        RelaunchPlan::ReplaceImage { program, args } => {
            assert_eq!(program, "/usr/bin/lapce");
            assert_eq!(args, vec!["-n".to_string()]);
        }
        RelaunchPlan::SpawnDetached { .. } => panic!("unix relaunch must replace the image"),
    }
    for os in ["freebsd", "openbsd"] {
        match plan_relaunch(os, "/usr/local/bin/lapce", 7).unwrap() {
            RelaunchPlan::ReplaceImage { program, args } => {
                assert_eq!(program, "/usr/local/bin/lapce");
                assert_eq!(args, vec!["-n".to_string()]);
            }
            RelaunchPlan::SpawnDetached { .. } => panic!("unix relaunch must replace the image"),
        }
    }
    match plan_relaunch("macos", "/Applications/Lapce.app", 7).unwrap() {
        RelaunchPlan::ReplaceImage { program, args } => {
            assert_eq!(program, "open");
            assert_eq!(
                args,
                vec![
                    "-n".to_string(),
                    "/Applications/Lapce.app".to_string(),
                    "--args".to_string(),
                    "-n".to_string()
                ]
            );
        }
        RelaunchPlan::SpawnDetached { .. } => panic!("unix relaunch must replace the image"),
    }
}

#[test]
fn windows_relaunch_spawns_detached_helper() {
    match plan_relaunch("windows", "C:/Lapce/lapce.exe", 4242).unwrap() {
        RelaunchPlan::SpawnDetached { program, args } => {
            assert_eq!(program, "cmd");
            assert_eq!(args.len(), 2);
            assert_eq!(args[0], "/C");
            assert_eq!(args[1], "taskkill /PID 4242 & start C:/Lapce/lapce.exe -n");
        }
        RelaunchPlan::ReplaceImage { .. } => panic!("windows relaunch must spawn a helper"),
    }
}

#[test]
fn relaunch_on_unknown_platform_is_unsupported() {
    assert_eq!(
        plan_relaunch("plan9", "/bin/lapce", 1).unwrap_err(),
        UpdateError::UnsupportedPlatform
    );
}

#[test]
fn decimal_rendering_is_exact() {
    assert_eq!(u32_decimal(0), "0");
    assert_eq!(u32_decimal(7), "7");
    assert_eq!(u32_decimal(10), "10");
    assert_eq!(u32_decimal(1234567890), "1234567890");
    assert_eq!(u32_decimal(u32::MAX), "4294967295");
}

#[test]
fn pipeline_success_walks_every_stage_forward() {
    let mut state = advance(Stage::Idle, Ok(()));
    let expected = [
        Stage::Resolving,
        Stage::Fetching,
        Stage::Downloading,
        Stage::Extracting,
        Stage::Relaunching,
    ];
    for stage in expected {
        match state {
            PipelineState::Active(s) => {
                assert_eq!(s, stage);
                state = advance(s, Ok(()));
            }
            _ => panic!("pipeline left the active path early"),
        }
    }
    assert!(matches!(state, PipelineState::Replaced));
}

#[test]
fn pipeline_failure_halts_at_the_failing_stage() {
    let state = advance(Stage::Downloading, Err(UpdateError::AssetNotFound));
    match state {
        PipelineState::Failed(stage, err) => {
            assert_eq!(stage, Stage::Downloading);
            assert_eq!(err, UpdateError::AssetNotFound);
        }
        _ => panic!("a failed stage must halt the pipeline"),
    }
}

#[test]
fn string_helpers_compare_by_characters() {
    assert!(str_eq("nightly", "nightly"));
    assert!(!str_eq("nightly", "nightly-abc"));
    assert!(str_starts_with("nightly-abcdef1", "nightly"));
    assert!(!str_starts_with("night", "nightly"));
}
