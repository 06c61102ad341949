use zendriver::fetcher::archive::Archive;
use zendriver::fetcher::cache::{
    build_dir, cft_binary_subpath, join_path, snapshot_binary_subpath, ungoogled_binary_subpath,
};
use zendriver::fetcher::distribution::Distribution;
use zendriver::fetcher::fetcher::Fetcher;
use zendriver::fetcher::platform::Platform;
use zendriver::fetcher::version::{Channel, VersionSpec};

// ---------------------------------------------------------------------------
// Distribution
// ---------------------------------------------------------------------------

#[test]
fn default_is_chrome_for_testing_so_existing_callers_are_untouched() {
    assert_eq!(Distribution::default(), Distribution::ChromeForTesting);
}

#[test]
fn slug_round_trips_through_parse_for_every_distribution() {
    for &d in Distribution::ALL.iter() {
        assert_eq!(Distribution::parse(d.slug()), Some(d), "slug {}", d.slug());
    }
}

#[test]
fn parse_is_case_insensitive_and_rejects_unknown() {
    assert_eq!(
        Distribution::parse("  UnGoogled  "),
        Some(Distribution::UngoogledChromium)
    );
    assert_eq!(Distribution::parse("firefox"), None);
}

#[test]
fn ungoogled_maps_the_three_oses_to_three_different_repos() {
    let mac = Distribution::ungoogled_repo(Platform::MacArm64);
    let win = Distribution::ungoogled_repo(Platform::Win64);
    let linux = Distribution::ungoogled_repo(Platform::LinuxX64);

    assert_eq!(mac, "ungoogled-software/ungoogled-chromium-macos");
    assert_eq!(win, "ungoogled-software/ungoogled-chromium-windows");
    assert_eq!(linux, "ungoogled-software/ungoogled-chromium-portablelinux");

    assert_ne!(mac, win);
    assert_ne!(win, linux);
    assert_ne!(mac, linux);

    assert_eq!(mac, Distribution::ungoogled_repo(Platform::MacX64));
    assert_eq!(win, Distribution::ungoogled_repo(Platform::Win32));
}

#[test]
fn ungoogled_never_points_at_the_assetless_source_repo() {
    for &p in &[
        Platform::MacX64,
        Platform::MacArm64,
        Platform::Win32,
        Platform::Win64,
        Platform::LinuxX64,
    ] {
        assert_ne!(
            Distribution::ungoogled_repo(p),
            "ungoogled-software/ungoogled-chromium",
            "{p:?} points at the source-only repo"
        );
    }
}

#[test]
fn distribution_aliases_and_titles() {
    assert_eq!(Distribution::parse("chrome"), Some(Distribution::ChromeForTesting));
    assert_eq!(Distribution::parse("snapshots"), Some(Distribution::ChromiumSnapshot));
    assert_eq!(
        Distribution::parse("ungoogled_chromium"),
        Some(Distribution::UngoogledChromium)
    );
    assert_eq!(Distribution::ChromiumSnapshot.title(), "Chromium snapshot");
    assert_eq!(Distribution::UngoogledChromium.title(), "ungoogled-chromium");
}

// ---------------------------------------------------------------------------
// Platform
// ---------------------------------------------------------------------------

#[test]
fn auto_detect_returns_some_on_host() {
    // The hosts this library is built and tested on are supported ones.
    assert!(Platform::auto_detect("linux", "x86_64", usize::BITS).is_some());
    assert_eq!(
        Platform::auto_detect("macos", "aarch64", 64),
        Some(Platform::MacArm64)
    );
    assert_eq!(Platform::auto_detect("windows", "x86", 32), Some(Platform::Win32));
    assert_eq!(Platform::auto_detect("linux", "aarch64", 64), None);
}

#[test]
fn cft_str_round_trip() {
    assert_eq!(Platform::LinuxX64.as_cft_str(), "linux64");
    assert_eq!(Platform::MacX64.as_cft_str(), "mac-x64");
    assert_eq!(Platform::MacArm64.as_cft_str(), "mac-arm64");
    assert_eq!(Platform::Win32.as_cft_str(), "win32");
    assert_eq!(Platform::Win64.as_cft_str(), "win64");
}

#[test]
fn parse_round_trips_every_platform() {
    for &p in Platform::ALL.iter() {
        assert_eq!(Platform::parse(p.as_cft_str()), Some(p));
    }
    assert_eq!(Platform::parse("  MAC-ARM64 "), Some(Platform::MacArm64));
    assert_eq!(Platform::parse("Mac_Arm"), None);
    assert_eq!(Platform::parse(""), None);
}

#[test]
fn snapshot_str_matches_the_bucket_directory_names() {
    assert_eq!(Platform::LinuxX64.as_snapshot_str(), "Linux_x64");
    assert_eq!(Platform::MacX64.as_snapshot_str(), "Mac");
    assert_eq!(Platform::MacArm64.as_snapshot_str(), "Mac_Arm");
    assert_eq!(Platform::Win32.as_snapshot_str(), "Win");
    assert_eq!(Platform::Win64.as_snapshot_str(), "Win_x64");
}

#[test]
fn cft_and_snapshot_names_differ_for_every_platform() {
    for &p in Platform::ALL.iter() {
        assert_ne!(
            p.as_cft_str(),
            p.as_snapshot_str(),
            "{p:?}: CfT and snapshot names must not be conflated"
        );
    }
}

#[test]
fn snapshot_archive_stem_is_per_os_not_per_arch() {
    assert_eq!(
        Platform::MacArm64.snapshot_archive_stem(),
        Platform::MacX64.snapshot_archive_stem()
    );
    assert_eq!(Platform::MacArm64.snapshot_archive_stem(), "chrome-mac");
    assert_eq!(Platform::Win64.snapshot_archive_stem(), "chrome-win");
    assert_eq!(Platform::LinuxX64.snapshot_archive_stem(), "chrome-linux");
}

#[test]
fn ungoogled_asset_suffixes_are_unique_per_platform() {
    let all = Platform::ALL;
    for (i, &a) in all.iter().enumerate() {
        for &b in &all[i + 1..] {
            assert_ne!(
                a.ungoogled_asset_suffix(),
                b.ungoogled_asset_suffix(),
                "{a:?} and {b:?} share an asset suffix"
            );
        }
    }
}

#[test]
fn linux_asset_suffix_excludes_the_zsync_sidecar() {
    let suffix = Platform::LinuxX64.ungoogled_asset_suffix();
    assert!("ungoogled-chromium-151.0.7922.71-1-x86_64.AppImage".ends_with(suffix));
    assert!(!"ungoogled-chromium-151.0.7922.71-1-x86_64.AppImage.zsync".ends_with(suffix));
}

#[test]
fn cft_top_dirs_name_the_platform() {
    assert_eq!(Platform::LinuxX64.cft_top_dir(), "chrome-linux64");
    assert_eq!(Platform::MacArm64.cft_top_dir(), "chrome-mac-arm64");
    assert_eq!(Platform::Win32.cft_top_dir(), "chrome-win32");
}

// ---------------------------------------------------------------------------
// Version selectors
// ---------------------------------------------------------------------------

#[test]
fn channel_variants_construct() {
    let _ = Channel::Stable;
    let _ = Channel::Beta;
    let _ = Channel::Dev;
    let _ = Channel::Canary;
}

#[test]
fn channel_as_cft_str_matches_manifest_keys() {
    assert_eq!(Channel::Stable.as_cft_str(), "Stable");
    assert_eq!(Channel::Beta.as_cft_str(), "Beta");
    assert_eq!(Channel::Dev.as_cft_str(), "Dev");
    assert_eq!(Channel::Canary.as_cft_str(), "Canary");
}

#[test]
fn version_spec_variants_construct() {
    let _ = VersionSpec::Latest;
    let _ = VersionSpec::Stable;
    let _ = VersionSpec::Channel(Channel::Stable);
    let _ = VersionSpec::Explicit("126.0.6478.182".into());
}

#[test]
fn version_spec_is_clone() {
    let v = VersionSpec::Explicit("126.0.6478.182".into());
    let cloned = v.clone();
    assert_eq!(v, cloned);
    assert_eq!(v.duplicate(), v);
}

// ---------------------------------------------------------------------------
// Archive
// ---------------------------------------------------------------------------

#[test]
fn tmp_extension_matches_the_packaging() {
    assert_eq!(
        Archive::Zip {
            top_dir: "chrome-linux64".into()
        }
        .tmp_extension(),
        "zip"
    );
    assert_eq!(
        Archive::Executable {
            file_name: "chrome.AppImage".into()
        }
        .tmp_extension(),
        "AppImage"
    );
    assert_eq!(
        Archive::AppBundleDmg {
            app_dir: "Chromium.app".into()
        }
        .tmp_extension(),
        "dmg"
    );
}

// ---------------------------------------------------------------------------
// Cache layout
// ---------------------------------------------------------------------------

#[test]
fn cft_binary_path_linux_layout() {
    let root = "/tmp/cache";
    let dir = build_dir(root, Distribution::ChromeForTesting, "120.0.6099.234");
    let p = join_path(&dir, &cft_binary_subpath(Platform::LinuxX64));
    assert_eq!(p, "/tmp/cache/120.0.6099.234/chrome-linux64/chrome");
}

#[test]
fn cft_binary_path_mac_arm64_layout() {
    let root = "/tmp/cache";
    let dir = build_dir(root, Distribution::ChromeForTesting, "120.0.6099.234");
    let p = join_path(&dir, &cft_binary_subpath(Platform::MacArm64));
    assert_eq!(
        p,
        "/tmp/cache/120.0.6099.234/chrome-mac-arm64/Google Chrome for Testing.app/Contents/MacOS/Google Chrome for Testing"
    );
}

#[test]
fn cft_binary_path_win64_layout() {
    let root = "/tmp/cache";
    let dir = build_dir(root, Distribution::ChromeForTesting, "120.0.6099.234");
    let p = join_path(&dir, &cft_binary_subpath(Platform::Win64));
    assert_eq!(p, "/tmp/cache/120.0.6099.234/chrome-win64/chrome.exe");
}

#[test]
fn chrome_for_testing_build_dir_is_unprefixed() {
    let root = "/tmp/cache";
    assert_eq!(
        build_dir(root, Distribution::ChromeForTesting, "120.0.6099.234"),
        "/tmp/cache/120.0.6099.234"
    );
}

#[test]
fn other_distributions_namespace_by_slug() {
    let root = "/tmp/cache";
    assert_eq!(
        build_dir(root, Distribution::UngoogledChromium, "151.0.7922.71"),
        "/tmp/cache/ungoogled/151.0.7922.71"
    );
    assert_eq!(
        build_dir(root, Distribution::ChromiumSnapshot, "r1674890"),
        "/tmp/cache/snapshot/r1674890"
    );
    assert_ne!(
        build_dir(root, Distribution::ChromeForTesting, "151.0.7922.71"),
        build_dir(root, Distribution::UngoogledChromium, "151.0.7922.71"),
    );
}

#[test]
fn snapshot_binary_subpaths_use_the_snapshot_top_dir_not_the_cft_one() {
    assert_eq!(snapshot_binary_subpath(Platform::LinuxX64), "chrome-linux/chrome");
    assert_eq!(snapshot_binary_subpath(Platform::Win64), "chrome-win/chrome.exe");
    assert_eq!(
        snapshot_binary_subpath(Platform::MacArm64),
        "chrome-mac/Chromium.app/Contents/MacOS/Chromium"
    );
    assert_ne!(
        snapshot_binary_subpath(Platform::LinuxX64),
        cft_binary_subpath(Platform::LinuxX64)
    );
}

#[test]
fn ungoogled_binary_subpaths_cover_the_three_packagings() {
    let win_top = "ungoogled-chromium_151.0.7922.71-1.1_windows_x64";
    assert_eq!(
        ungoogled_binary_subpath(Platform::Win64, win_top),
        format!("{win_top}/chrome.exe")
    );
    assert_eq!(ungoogled_binary_subpath(Platform::LinuxX64, ""), "chrome.AppImage");
    assert_eq!(
        ungoogled_binary_subpath(Platform::MacArm64, ""),
        "Chromium.app/Contents/MacOS/Chromium"
    );
}

#[test]
fn join_path_follows_unix_path_rules() {
    assert_eq!(join_path("/a/", "b"), "/a/b");
    assert_eq!(join_path("/a", "b"), "/a/b");
    assert_eq!(join_path("", "b"), "b");
    assert_eq!(join_path("/a", "/abs"), "/abs");
}

// ---------------------------------------------------------------------------
// Fetcher configuration
// ---------------------------------------------------------------------------

#[test]
fn a_fresh_fetcher_defaults_to_chrome_for_testing() {
    assert_eq!(Fetcher::new().distribution, Distribution::ChromeForTesting);
    assert!(format!("{:?}", Fetcher::new()).contains("ChromeForTesting"));
}

#[test]
fn builder_methods_set_what_they_name() {
    let f = Fetcher::new()
        .distribution(Distribution::ChromiumSnapshot)
        .cache_dir("/var/cache/chrome".to_string())
        .version(VersionSpec::Revision(1674890))
        .platform(Platform::Win64)
        .manifest_url("http://127.0.0.1:9/".to_string())
        .expected_sha256("ABCD".to_string());
    assert_eq!(f.distribution, Distribution::ChromiumSnapshot);
    assert_eq!(f.cache_dir.as_deref(), Some("/var/cache/chrome"));
    assert_eq!(f.version, VersionSpec::Revision(1674890));
    assert_eq!(f.platform, Some(Platform::Win64));
    assert_eq!(f.manifest_url.as_deref(), Some("http://127.0.0.1:9/"));
    assert_eq!(f.expected_sha256.as_deref(), Some("ABCD"));
    assert_eq!(f.index_base("https://default"), "http://127.0.0.1:9/");
    assert_eq!(Fetcher::new().index_base("https://default"), "https://default");
}
