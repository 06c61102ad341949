use zendriver::fetcher::archive::Archive;
use zendriver::fetcher::error::FetcherError;
use zendriver::fetcher::manifest::{
    ChannelEntry, ChannelsResponse, Download, Downloads, GitHubAsset, GitHubRelease,
    KnownGoodVersionsResponse, VersionEntry,
};
use zendriver::fetcher::platform::Platform;
use zendriver::fetcher::resolver::{
    chrome_version_of_tag, is_plain_filename, list_cft, list_ungoogled, resolve_cft,
    resolve_cft_channel, resolve_snapshot, resolve_ungoogled, snapshot_revision_for,
    tag_matches_version, DEFAULT_SNAPSHOT_BASE,
};
use zendriver::fetcher::version::{Channel, VersionSpec};

fn downloads(pairs: &[(&str, &str)]) -> Downloads {
    Downloads {
        chrome: pairs
            .iter()
            .map(|(p, u)| Download {
                platform: p.to_string(),
                url: u.to_string(),
            })
            .collect(),
    }
}

fn entry(version: &str, pairs: &[(&str, &str)]) -> VersionEntry {
    VersionEntry {
        version: version.to_string(),
        downloads: downloads(pairs),
    }
}

fn fixture_manifest() -> KnownGoodVersionsResponse {
    KnownGoodVersionsResponse {
        versions: vec![
            entry(
                "119.0.6045.105",
                &[("linux64", "https://example.com/119-linux64.zip")],
            ),
            entry(
                "120.0.6099.234",
                &[
                    ("linux64", "https://example.com/chrome-linux64.zip"),
                    ("mac-x64", "https://example.com/chrome-mac-x64.zip"),
                ],
            ),
        ],
    }
}

fn channel(key: &str, version: &str, pairs: &[(&str, &str)]) -> (String, ChannelEntry) {
    (
        key.to_string(),
        ChannelEntry {
            version: version.to_string(),
            downloads: downloads(pairs),
        },
    )
}

fn fixture_channels_manifest() -> ChannelsResponse {
    ChannelsResponse {
        channels: vec![
            channel(
                "Stable",
                "120.0.6099.234",
                &[("linux64", "https://example.com/stable-linux64.zip")],
            ),
            channel(
                "Beta",
                "121.0.6100.10",
                &[("linux64", "https://example.com/beta-linux64.zip")],
            ),
            channel(
                "Dev",
                "122.0.6101.5",
                &[("mac-x64", "https://example.com/dev-mac-x64.zip")],
            ),
            channel(
                "Canary",
                "123.0.6102.1",
                &[("linux64", "https://example.com/canary-linux64.zip")],
            ),
        ],
    }
}

fn release(tag: &str, draft: bool, prerelease: bool, assets: &[(&str, &str)]) -> GitHubRelease {
    GitHubRelease {
        tag_name: tag.to_string(),
        draft,
        prerelease,
        assets: assets
            .iter()
            .map(|(n, u)| GitHubAsset {
                name: n.to_string(),
                browser_download_url: u.to_string(),
            })
            .collect(),
    }
}

fn fixture_windows_releases() -> Vec<GitHubRelease> {
    vec![
        release(
            "151.0.7922.71-1.1",
            false,
            false,
            &[
                (
                    "ungoogled-chromium_151.0.7922.71-1.1_installer_x64.exe",
                    "https://example.com/151-installer-x64.exe",
                ),
                (
                    "ungoogled-chromium_151.0.7922.71-1.1_windows_x64.zip",
                    "https://example.com/151-windows-x64.zip",
                ),
                (
                    "ungoogled-chromium_151.0.7922.71-1.1_windows_x86.zip",
                    "https://example.com/151-windows-x86.zip",
                ),
            ],
        ),
        release(
            "150.0.7871.186-1.1",
            false,
            false,
            &[(
                "ungoogled-chromium_150.0.7871.186-1.1_windows_x64.zip",
                "https://example.com/150-windows-x64.zip",
            )],
        ),
    ]
}

fn fixture_macos_releases() -> Vec<GitHubRelease> {
    vec![release(
        "150.0.7871.46-1.1",
        false,
        false,
        &[
            (
                "ungoogled-chromium_150.0.7871.46-1.1_arm64-macos.dmg",
                "https://example.com/150-arm64.dmg",
            ),
            (
                "ungoogled-chromium_150.0.7871.46-1.1_x86_64-macos.dmg",
                "https://example.com/150-x86_64.dmg",
            ),
        ],
    )]
}

fn fixture_linux_releases() -> Vec<GitHubRelease> {
    vec![release(
        "151.0.7922.71-1",
        false,
        false,
        &[
            (
                "ungoogled-chromium-151.0.7922.71-1-x86_64.AppImage",
                "https://example.com/151-x86_64.AppImage",
            ),
            (
                "ungoogled-chromium-151.0.7922.71-1-x86_64.AppImage.zsync",
                "https://example.com/151-x86_64.AppImage.zsync",
            ),
            (
                "ungoogled-chromium-151.0.7922.71-1-x86_64_linux.tar.xz",
                "https://example.com/151-x86_64.tar.xz",
            ),
        ],
    )]
}

// -- Chrome for Testing -------------------------------------------------------

#[test]
fn latest_returns_last_entry_url_for_matching_platform() {
    let r = resolve_cft(&fixture_manifest(), &VersionSpec::Latest, Platform::LinuxX64).unwrap();
    assert_eq!(r.build_id, "120.0.6099.234");
    assert_eq!(r.url, "https://example.com/chrome-linux64.zip");
    assert_eq!(
        r.archive,
        Archive::Zip {
            top_dir: "chrome-linux64".into()
        }
    );
    assert_eq!(r.binary_subpath, "chrome-linux64/chrome");
}

#[test]
fn explicit_unknown_version_returns_version_not_found() {
    let err = resolve_cft(
        &fixture_manifest(),
        &VersionSpec::Explicit("999.0".to_string()),
        Platform::LinuxX64,
    )
    .unwrap_err();
    match err {
        FetcherError::VersionNotFound(v) => assert_eq!(v, "999.0"),
        other => panic!("expected VersionNotFound, got {other:?}"),
    }
}

#[test]
fn explicit_version_without_the_platform_is_unsupported() {
    let err = resolve_cft(
        &fixture_manifest(),
        &VersionSpec::Explicit("119.0.6045.105".to_string()),
        Platform::MacX64,
    )
    .unwrap_err();
    assert!(matches!(err, FetcherError::UnsupportedPlatform));
}

#[test]
fn an_empty_manifest_says_so() {
    let empty = KnownGoodVersionsResponse { versions: vec![] };
    let err = resolve_cft(&empty, &VersionSpec::Stable, Platform::LinuxX64).unwrap_err();
    assert_eq!(err.to_string(), "version not found: manifest is empty");
}

#[test]
fn beta_channel_is_refused_by_name_against_the_flat_manifest() {
    let err = resolve_cft(
        &fixture_manifest(),
        &VersionSpec::Channel(Channel::Beta),
        Platform::LinuxX64,
    )
    .unwrap_err();
    let msg = err.to_string();
    assert!(matches!(err, FetcherError::UnsupportedSelector { .. }));
    assert!(msg.contains("Beta channel"), "{msg}");
    assert!(msg.contains("per-channel manifest"), "{msg}");
}

#[test]
fn cft_refuses_a_revision_and_points_at_snapshots() {
    let err = resolve_cft(
        &fixture_manifest(),
        &VersionSpec::Revision(1674890),
        Platform::LinuxX64,
    )
    .unwrap_err();
    let msg = err.to_string();
    assert!(matches!(err, FetcherError::UnsupportedSelector { .. }));
    assert!(msg.contains("revision 1674890"), "{msg}");
    assert!(msg.contains("--distribution snapshot"), "{msg}");
}

#[test]
fn list_cft_is_newest_first_and_platform_filtered() {
    let manifest = fixture_manifest();

    let linux = list_cft(&manifest, Platform::LinuxX64);
    assert_eq!(linux.len(), 2);
    assert_eq!(linux[0].label, "120.0.6099.234");
    assert_eq!(linux[1].label, "119.0.6045.105");

    let mac = list_cft(&manifest, Platform::MacX64);
    assert_eq!(mac.len(), 1);
    assert_eq!(mac[0].spec, VersionSpec::Explicit("120.0.6099.234".into()));

    assert!(list_cft(&manifest, Platform::Win64).is_empty());
}

#[test]
fn beta_channel_resolves_from_channels_manifest() {
    let r = resolve_cft_channel(&fixture_channels_manifest(), Channel::Beta, Platform::LinuxX64)
        .unwrap();
    assert_eq!(r.build_id, "121.0.6100.10");
    assert_eq!(r.url, "https://example.com/beta-linux64.zip");
}

#[test]
fn dev_and_canary_channels_resolve_from_channels_manifest() {
    let manifest = fixture_channels_manifest();

    let r = resolve_cft_channel(&manifest, Channel::Dev, Platform::MacX64).unwrap();
    assert_eq!(r.build_id, "122.0.6101.5");
    assert_eq!(r.url, "https://example.com/dev-mac-x64.zip");

    let r = resolve_cft_channel(&manifest, Channel::Canary, Platform::LinuxX64).unwrap();
    assert_eq!(r.build_id, "123.0.6102.1");
    assert_eq!(r.url, "https://example.com/canary-linux64.zip");
}

#[test]
fn channel_missing_platform_returns_unsupported_platform() {
    let err = resolve_cft_channel(&fixture_channels_manifest(), Channel::Dev, Platform::LinuxX64)
        .unwrap_err();
    assert!(matches!(err, FetcherError::UnsupportedPlatform));
}

#[test]
fn channel_missing_from_manifest_returns_version_not_found() {
    let manifest = ChannelsResponse { channels: vec![] };
    let err = resolve_cft_channel(&manifest, Channel::Beta, Platform::LinuxX64).unwrap_err();
    match err {
        FetcherError::VersionNotFound(msg) => {
            assert!(msg.contains("Beta"));
            assert_eq!(msg, "channel Beta not present in manifest");
        }
        other => panic!("expected VersionNotFound, got {other:?}"),
    }
}

#[test]
fn a_manifest_version_that_escapes_the_cache_root_is_refused() {
    let manifest = KnownGoodVersionsResponse {
        versions: vec![entry(
            "../../../../PLANTED",
            &[("linux64", "https://example.com/x.zip")],
        )],
    };
    let err = resolve_cft(&manifest, &VersionSpec::Latest, Platform::LinuxX64).unwrap_err();
    assert!(matches!(err, FetcherError::VersionNotFound(_)), "{err:?}");
    assert_eq!(
        err.to_string(),
        "version not found: the Chrome for Testing index offered build id \"../../../../PLANTED\", which is not a plain directory name"
    );
    assert!(list_cft(&manifest, Platform::LinuxX64).is_empty());
}

// -- ungoogled-chromium --------------------------------------------------------

#[test]
fn explicit_version_matches_an_ungoogled_tag_by_prefix() {
    let r = resolve_ungoogled(
        &fixture_windows_releases(),
        &VersionSpec::Explicit("151.0.7922.71".into()),
        Platform::Win64,
        "ungoogled-software/ungoogled-chromium-windows",
    )
    .unwrap();
    assert_eq!(r.build_id, "151.0.7922.71");
    assert_eq!(r.url, "https://example.com/151-windows-x64.zip");
}

#[test]
fn prefix_matching_handles_both_packaging_suffix_shapes() {
    assert!(tag_matches_version("151.0.7922.71-1.1", "151.0.7922.71"));
    assert!(tag_matches_version("151.0.7922.71-1", "151.0.7922.71"));
    assert!(tag_matches_version("151.0.7922.71-1.1", "151.0.7922.71-1.1"));
}

#[test]
fn prefix_matching_stops_at_the_packaging_separator() {
    assert!(!tag_matches_version("151.0.7922.71-1.1", "151.0.7922.7"));
    assert!(!tag_matches_version("151.0.7922.71-1.1", "151.0"));
    assert!(!tag_matches_version("151.0.7922.71-1.1", "150.0.7871.46"));
}

#[test]
fn chrome_version_is_the_tag_before_its_first_dash() {
    assert_eq!(chrome_version_of_tag("151.0.7922.71-1.1"), "151.0.7922.71");
    assert_eq!(chrome_version_of_tag("151.0.7922.71"), "151.0.7922.71");
    assert_eq!(chrome_version_of_tag("-x"), "");
}

#[test]
fn ungoogled_picks_the_right_asset_and_archive_per_platform() {
    let win = resolve_ungoogled(
        &fixture_windows_releases(),
        &VersionSpec::Latest,
        Platform::Win64,
        "repo",
    )
    .unwrap();
    assert_eq!(
        win.archive,
        Archive::Zip {
            top_dir: "ungoogled-chromium_151.0.7922.71-1.1_windows_x64".into()
        }
    );
    assert_eq!(
        win.binary_subpath,
        "ungoogled-chromium_151.0.7922.71-1.1_windows_x64/chrome.exe"
    );

    let linux = resolve_ungoogled(
        &fixture_linux_releases(),
        &VersionSpec::Latest,
        Platform::LinuxX64,
        "repo",
    )
    .unwrap();
    assert_eq!(linux.url, "https://example.com/151-x86_64.AppImage");
    assert_eq!(
        linux.archive,
        Archive::Executable {
            file_name: "chrome.AppImage".into()
        }
    );

    let mac = resolve_ungoogled(
        &fixture_macos_releases(),
        &VersionSpec::Latest,
        Platform::MacArm64,
        "repo",
    )
    .unwrap();
    assert_eq!(mac.url, "https://example.com/150-arm64.dmg");
    assert_eq!(
        mac.archive,
        Archive::AppBundleDmg {
            app_dir: "Chromium.app".into()
        }
    );
    assert_eq!(
        resolve_ungoogled(
            &fixture_macos_releases(),
            &VersionSpec::Latest,
            Platform::MacX64,
            "repo",
        )
        .unwrap()
        .url,
        "https://example.com/150-x86_64.dmg"
    );
}

#[test]
fn a_version_present_on_windows_but_not_macos_reports_not_found() {
    let err = resolve_ungoogled(
        &fixture_macos_releases(),
        &VersionSpec::Explicit("151.0.7922.71".into()),
        Platform::MacArm64,
        "ungoogled-software/ungoogled-chromium-macos",
    )
    .unwrap_err();
    let msg = err.to_string();
    assert!(matches!(err, FetcherError::VersionNotFound(_)));
    assert!(msg.contains("151.0.7922.71"), "{msg}");
    assert!(msg.contains("ungoogled-chromium-macos"), "{msg}");
}

#[test]
fn release_without_an_asset_for_the_platform_reports_asset_not_found() {
    let releases = vec![release(
        "151.0.7922.71-1.1",
        false,
        false,
        &[(
            "ungoogled-chromium_151.0.7922.71-1.1_windows_x64.zip",
            "https://example.com/x64.zip",
        )],
    )];
    let err = resolve_ungoogled(
        &releases,
        &VersionSpec::Explicit("151.0.7922.71".into()),
        Platform::Win32,
        "ungoogled-software/ungoogled-chromium-windows",
    )
    .unwrap_err();
    let msg = err.to_string();
    assert!(matches!(err, FetcherError::AssetNotFound { .. }));
    assert!(msg.contains("_windows_x86.zip"), "{msg}");
}

#[test]
fn an_asset_name_that_escapes_the_build_directory_is_never_selected() {
    let releases = vec![release(
        "151.0.7922.71-1.1",
        false,
        false,
        &[
            (
                "../../../../../../usr/bin_windows_x64.zip",
                "https://example.com/evil.zip",
            ),
            ("nested/path_windows_x64.zip", "https://example.com/evil2.zip"),
        ],
    )];
    let err =
        resolve_ungoogled(&releases, &VersionSpec::Latest, Platform::Win64, "repo").unwrap_err();
    assert!(matches!(err, FetcherError::VersionNotFound(_)), "{err:?}");
    assert!(list_ungoogled(&releases, Platform::Win64).is_empty());
}

#[test]
fn a_tag_that_escapes_the_cache_root_is_refused() {
    let releases = |tag: &str| -> Vec<GitHubRelease> {
        vec![release(
            tag,
            false,
            false,
            &[(
                "ungoogled-chromium_151_windows_x64.zip",
                "https://example.com/x.zip",
            )],
        )]
    };
    for tag in ["../../../../PLANTED", "/tmp/evil", "..", "."] {
        let rs = releases(tag);
        let err =
            resolve_ungoogled(&rs, &VersionSpec::Latest, Platform::Win64, "repo").unwrap_err();
        assert!(
            matches!(err, FetcherError::VersionNotFound(_)),
            "tag {tag:?} produced {err:?}"
        );
        assert!(
            list_ungoogled(&rs, Platform::Win64).is_empty(),
            "tag {tag:?} was still offered in the listing"
        );
    }
    let ok = resolve_ungoogled(
        &releases("151.0.7922.71-1.1"),
        &VersionSpec::Latest,
        Platform::Win64,
        "repo",
    )
    .unwrap();
    assert_eq!(ok.build_id, "151.0.7922.71");
}

#[test]
fn a_drive_relative_asset_name_is_never_selected() {
    let releases = vec![release(
        "151.0.7922.71-1.1",
        false,
        false,
        &[("C:evil_windows_x64.zip", "https://example.com/evil.zip")],
    )];
    let err =
        resolve_ungoogled(&releases, &VersionSpec::Latest, Platform::Win64, "repo").unwrap_err();
    assert!(matches!(err, FetcherError::VersionNotFound(_)), "{err:?}");
    assert!(list_ungoogled(&releases, Platform::Win64).is_empty());
}

#[test]
fn ungoogled_skips_drafts_and_prereleases() {
    let releases = vec![
        release(
            "152.0.0.1-1.1",
            true,
            false,
            &[(
                "ungoogled-chromium_152.0.0.1-1.1_windows_x64.zip",
                "https://example.com/draft.zip",
            )],
        ),
        release(
            "152.0.0.0-1.1",
            false,
            true,
            &[(
                "ungoogled-chromium_152.0.0.0-1.1_windows_x64.zip",
                "https://example.com/pre.zip",
            )],
        ),
        release(
            "151.0.7922.71-1.1",
            false,
            false,
            &[(
                "ungoogled-chromium_151.0.7922.71-1.1_windows_x64.zip",
                "https://example.com/real.zip",
            )],
        ),
    ];
    let r = resolve_ungoogled(&releases, &VersionSpec::Latest, Platform::Win64, "repo").unwrap();
    assert_eq!(r.url, "https://example.com/real.zip");
    assert_eq!(list_ungoogled(&releases, Platform::Win64).len(), 1);
}

#[test]
fn latest_skips_releases_lacking_this_platforms_asset() {
    let releases = vec![
        release(
            "152.0.0.0-1.1",
            false,
            false,
            &[(
                "ungoogled-chromium_152.0.0.0-1.1_windows_x64.zip",
                "https://example.com/152-x64.zip",
            )],
        ),
        release(
            "151.0.7922.71-1.1",
            false,
            false,
            &[(
                "ungoogled-chromium_151.0.7922.71-1.1_windows_x86.zip",
                "https://example.com/151-x86.zip",
            )],
        ),
    ];
    let r = resolve_ungoogled(&releases, &VersionSpec::Latest, Platform::Win32, "repo").unwrap();
    assert_eq!(r.build_id, "151.0.7922.71");
    assert_eq!(r.url, "https://example.com/151-x86.zip");
}

#[test]
fn ungoogled_refuses_channels_and_revisions() {
    let releases = fixture_windows_releases();
    let err = resolve_ungoogled(
        &releases,
        &VersionSpec::Channel(Channel::Beta),
        Platform::Win64,
        "repo",
    )
    .unwrap_err();
    assert!(matches!(err, FetcherError::UnsupportedSelector { .. }));
    assert!(err.to_string().contains("no channels"), "{err:?}");

    let err = resolve_ungoogled(
        &releases,
        &VersionSpec::Revision(1674890),
        Platform::Win64,
        "repo",
    )
    .unwrap_err();
    assert!(matches!(err, FetcherError::UnsupportedSelector { .. }));
}

#[test]
fn list_ungoogled_labels_carry_both_version_and_tag() {
    let builds = list_ungoogled(&fixture_linux_releases(), Platform::LinuxX64);
    assert_eq!(builds.len(), 1);
    assert_eq!(builds[0].spec, VersionSpec::Explicit("151.0.7922.71".into()));
    assert!(builds[0].label.contains("151.0.7922.71"));
    assert!(builds[0].label.contains("tag 151.0.7922.71-1"));
    assert_eq!(builds[0].label, "151.0.7922.71  (tag 151.0.7922.71-1)");
}

#[test]
fn plain_filename_check_accepts_real_assets_and_rejects_path_shapes() {
    assert!(is_plain_filename(
        "ungoogled-chromium_151.0.7922.71-1.1_windows_x64.zip"
    ));
    assert!(is_plain_filename(
        "ungoogled-chromium-151.0.7922.71-1-x86_64.AppImage"
    ));
    assert!(is_plain_filename("..leading-dots_windows_x64.zip"));

    assert!(!is_plain_filename(""));
    assert!(!is_plain_filename("."));
    assert!(!is_plain_filename(".."));
    assert!(!is_plain_filename("../evil.zip"));
    assert!(!is_plain_filename("a/b.zip"));
    assert!(!is_plain_filename(r"..\evil.zip"));
    assert!(!is_plain_filename("evil\0.zip"));
    assert!(!is_plain_filename("C:evil_windows_x64.zip"));
    assert!(!is_plain_filename(r"C:\evil_windows_x64.zip"));
}

// -- snapshots ----------------------------------------------------------------

#[test]
fn snapshot_refuses_an_explicit_version_and_says_why() {
    let err = snapshot_revision_for(&VersionSpec::Explicit("151.0.7922.76".into())).unwrap_err();
    let msg = err.to_string();
    assert!(matches!(err, FetcherError::UnsupportedSelector { .. }));
    assert!(msg.contains("151.0.7922.76"), "{msg}");
    assert!(msg.contains("keyed by revision"), "{msg}");
    assert!(msg.contains("--revision"), "{msg}");
}

#[test]
fn snapshot_refuses_channels() {
    let err = snapshot_revision_for(&VersionSpec::Channel(Channel::Canary)).unwrap_err();
    assert!(matches!(err, FetcherError::UnsupportedSelector { .. }));
    assert!(err.to_string().contains("no channels"), "{err:?}");
}

#[test]
fn snapshot_latest_defers_to_last_change_and_revision_pins() {
    assert_eq!(snapshot_revision_for(&VersionSpec::Latest).unwrap(), None);
    assert_eq!(snapshot_revision_for(&VersionSpec::Stable).unwrap(), None);
    assert_eq!(
        snapshot_revision_for(&VersionSpec::Channel(Channel::Stable)).unwrap(),
        None
    );
    assert_eq!(
        snapshot_revision_for(&VersionSpec::Revision(1674890)).unwrap(),
        Some(1674890)
    );
}

#[test]
fn snapshot_urls_use_the_bucket_platform_names() {
    let r = resolve_snapshot(DEFAULT_SNAPSHOT_BASE, 1674890, Platform::MacArm64);
    assert_eq!(r.build_id, "r1674890");
    assert_eq!(
        r.url,
        "https://commondatastorage.googleapis.com/chromium-browser-snapshots/Mac_Arm/1674890/chrome-mac.zip"
    );
    assert_eq!(
        r.archive,
        Archive::Zip {
            top_dir: "chrome-mac".into()
        }
    );
    assert_eq!(
        resolve_snapshot(DEFAULT_SNAPSHOT_BASE, 1674856, Platform::Win64).url,
        "https://commondatastorage.googleapis.com/chromium-browser-snapshots/Win_x64/1674856/chrome-win.zip"
    );
    assert_eq!(
        resolve_snapshot(DEFAULT_SNAPSHOT_BASE, 1674883, Platform::LinuxX64).url,
        "https://commondatastorage.googleapis.com/chromium-browser-snapshots/Linux_x64/1674883/chrome-linux.zip"
    );
}

#[test]
fn snapshot_build_ids_are_revision_prefixed() {
    let r = resolve_snapshot(DEFAULT_SNAPSHOT_BASE, 1674890, Platform::LinuxX64);
    assert!(r.build_id.starts_with('r'));
    assert!(!r.build_id.contains('.'));
}

#[test]
fn snapshot_base_trailing_slashes_are_trimmed() {
    let r = resolve_snapshot("http://bucket///", 7, Platform::Win32);
    assert_eq!(r.url, "http://bucket/Win/7/chrome-win.zip");
    assert_eq!(r.binary_subpath, "chrome-win/chrome.exe");
}

#[test]
fn every_listed_ungoogled_build_resolves_to_itself() {
    let releases = vec![
        release(
            "152.0.8000.10-1",
            false,
            false,
            &[("ungoogled-chromium-152.0.8000.10-1-x86_64.AppImage", "https://example.com/152")],
        ),
        release(
            "151.5.0.1-1",
            false,
            true,
            &[("ungoogled-chromium-151.5.0.1-1-x86_64.AppImage", "https://example.com/pre")],
        ),
        release(
            "151.0.7922.71-1",
            false,
            false,
            &[("ungoogled-chromium-151.0.7922.71-1-x86_64.AppImage", "https://example.com/151")],
        ),
    ];
    let builds = list_ungoogled(&releases, Platform::LinuxX64);
    assert_eq!(builds.len(), 2);
    for (build, url) in builds.iter().zip(["https://example.com/152", "https://example.com/151"]) {
        let r = resolve_ungoogled(&releases, &build.spec, Platform::LinuxX64, "repo").unwrap();
        assert_eq!(build.spec, VersionSpec::Explicit(r.build_id.clone()));
        assert_eq!(r.url, url);
    }
}
