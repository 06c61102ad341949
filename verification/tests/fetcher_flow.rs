use zendriver::fetcher::archive::Archive;
use zendriver::fetcher::cli::{
    build_menu_line, confirm_prompt, distribution_choice, distribution_menu_line,
    empty_listing_message, is_affirmative, menu_input, missing_flags_message, page_bounds,
    page_prompt, snapshot_build, spec_from_flags, unknown_distribution_message,
    unknown_platform_message, MenuInput,
};
use zendriver::fetcher::distribution::Distribution;
use zendriver::fetcher::error::FetcherError;
use zendriver::fetcher::extract::{
    check_entry, is_under, link_walk_step, LinkStatus, LinkWalk, TargetPart, WalkAction, WalkEvent,
};
use zendriver::fetcher::fetcher::{
    hex_encode, make_layout, sha256_eq, sha256_hex, Command, EnsureEvent, EnsureState, Fetcher,
    FetcherPhase, FetcherProgress, IndexKind, IndexPayload, PromoteOutcome,
};
use zendriver::fetcher::manifest::{
    github_releases_url, last_change_revision, last_change_url, Download, Downloads,
    KnownGoodVersionsResponse, VersionEntry,
};
use zendriver::fetcher::net::{is_rate_limited, progress_due, reset_hint};
use zendriver::fetcher::platform::Platform;
use zendriver::fetcher::resolver::resolve_snapshot;
use zendriver::fetcher::version::{Channel, VersionSpec};

// -- errors -------------------------------------------------------------------

#[test]
fn display_version_not_found() {
    let e = FetcherError::VersionNotFound("123.4.5.6".into());
    assert_eq!(e.to_string(), "version not found: 123.4.5.6");
}

#[test]
fn display_integrity_failed() {
    let e = FetcherError::IntegrityFailed {
        expected: "abc".into(),
        actual: "def".into(),
    };
    assert_eq!(e.to_string(), "integrity check failed: expected abc, got def");
}

#[test]
fn display_unsupported_platform() {
    let e = FetcherError::UnsupportedPlatform;
    assert_eq!(e.to_string(), "unsupported platform");
}

#[test]
fn display_unsupported_selector_names_the_alternative() {
    let e = FetcherError::UnsupportedSelector {
        distribution: "Chromium snapshot",
        selector: "version 151.0.7922.76".into(),
        reason: "snapshots are keyed by revision; use --revision".into(),
    };
    assert_eq!(
        e.to_string(),
        "Chromium snapshot cannot resolve version 151.0.7922.76: \
         snapshots are keyed by revision; use --revision"
    );
}

#[test]
fn display_rate_limited_names_the_limit_and_the_fix() {
    let e = FetcherError::GitHubRateLimited {
        reset_hint: ", resets at 1786023295".into(),
    };
    let msg = e.to_string();
    assert!(msg.contains("60 requests/hour"), "{msg}");
    assert!(msg.contains("GITHUB_TOKEN"), "{msg}");
    assert!(msg.contains("resets at 1786023295"), "{msg}");
}

#[test]
fn display_asset_not_found_names_repo_tag_and_suffix() {
    let e = FetcherError::AssetNotFound {
        repo: "ungoogled-software/ungoogled-chromium-macos".into(),
        tag: "151.0.7922.71-1.1".into(),
        platform: "mac-arm64",
        suffix: "_arm64-macos.dmg",
    };
    assert_eq!(
        e.to_string(),
        "ungoogled-software/ungoogled-chromium-macos release 151.0.7922.71-1.1 \
         has no asset for mac-arm64 (expected one ending in _arm64-macos.dmg)"
    );
}

#[test]
fn display_wrapped_failures_name_their_layer() {
    assert_eq!(FetcherError::Http("503".into()).to_string(), "http: 503");
    assert_eq!(FetcherError::Io("denied".into()).to_string(), "io: denied");
    assert_eq!(FetcherError::Manifest("eof".into()).to_string(), "manifest: eof");
    assert_eq!(FetcherError::Extraction("bad".into()).to_string(), "extraction: bad");
    assert_eq!(
        FetcherError::UnsupportedArchive("dmg".into()).to_string(),
        "unsupported archive: dmg"
    );
}

// -- endpoints and plain-text indexes -----------------------------------------

#[test]
fn index_urls_trim_the_base() {
    assert_eq!(
        github_releases_url("https://api.github.com/", "o/r"),
        "https://api.github.com/repos/o/r/releases?per_page=100"
    );
    assert_eq!(
        last_change_url("http://bucket//", "Mac_Arm"),
        "http://bucket/Mac_Arm/LAST_CHANGE"
    );
}

#[test]
fn last_change_is_a_trimmed_revision_number() {
    assert_eq!(last_change_revision("u", "1674890\n").unwrap(), 1674890);
    let err = last_change_revision("http://x/LAST_CHANGE", "<html>").unwrap_err();
    assert_eq!(
        err.to_string(),
        "version not found: http://x/LAST_CHANGE returned \"<html>\", which is not a revision number"
    );
    let long = "x".repeat(100);
    let err = last_change_revision("u", &long).unwrap_err();
    assert!(err.to_string().contains(&format!("\"{}\"", "x".repeat(64))));
    assert!(!err.to_string().contains(&"x".repeat(65)));
}

// -- rate limiting and progress ------------------------------------------------

#[test]
fn forbidden_with_no_budget_left_is_rate_limiting() {
    assert!(is_rate_limited(403, Some(" 0 ")));
    assert!(!is_rate_limited(403, Some("12")));
    assert!(!is_rate_limited(403, None));
    assert!(is_rate_limited(429, None));
    assert!(!is_rate_limited(500, Some("0")));
}

#[test]
fn forbidden_with_budget_left_is_not_rate_limiting() {
    assert!(!is_rate_limited(403, Some("41")));
    assert!(!is_rate_limited(403, None));
}

#[test]
fn too_many_requests_is_rate_limiting_regardless_of_headers() {
    assert!(is_rate_limited(429, None));
}

#[test]
fn success_is_never_rate_limiting() {
    assert!(!is_rate_limited(200, Some("0")));
}

#[test]
fn reset_hint_is_empty_without_the_header() {
    assert_eq!(reset_hint(None), "");
    assert_eq!(reset_hint(Some("1786023295")), ", resets at 1786023295");
}

#[test]
fn reset_hint_names_the_timestamp_or_nothing() {
    assert_eq!(reset_hint(Some(" 1786023295 ")), ", resets at 1786023295");
    assert_eq!(reset_hint(None), "");
}

#[test]
fn progress_is_throttled_by_bytes_or_time() {
    assert!(!progress_due(1000, 0, 1));
    assert!(progress_due(102400, 0, 1));
    assert!(progress_due(1, 0, 100_000_000));
}

// -- integrity ------------------------------------------------------------------

#[test]
fn hex_is_lowercase_and_sha256_compare_ignores_case() {
    assert_eq!(hex_encode(&[0x00, 0xab, 0x0f, 0xf0]), "00ab0ff0");
    assert!(sha256_eq("ABCDEF", "abcdef"));
    assert!(!sha256_eq("abcdef", "abcdee"));
    assert_eq!(
        sha256_hex(b"abc"),
        "ba7816bf8f01cfea414140de5dae2223b00361a396177a9cb410ff61f20015ad"
    );
}

// -- the decisions of a fetch ---------------------------------------------------

fn manifest() -> KnownGoodVersionsResponse {
    KnownGoodVersionsResponse {
        versions: vec![VersionEntry {
            version: "120.0.6099.234".into(),
            downloads: Downloads {
                chrome: vec![Download {
                    platform: "linux64".into(),
                    url: "http://cdn/chrome-linux64.zip".into(),
                }],
            },
        }],
    }
}

fn begin(f: &Fetcher) -> zendriver::fetcher::fetcher::Step {
    f.step(
        EnsureState::Start,
        EnsureEvent::Begin {
            default_cache_dir: "/default".into(),
            detected_platform: Some(Platform::LinuxX64),
            stamp: "1-2-3".into(),
        },
    )
}

#[test]
fn a_fetch_walks_resolve_download_verify_unpack_promote() {
    let f = Fetcher::new()
        .cache_dir("/cache".into())
        .manifest_url("http://index/versions.json".into())
        .expected_sha256("AB".into());
    let s = begin(&f);
    assert_eq!(s.phase, Some(FetcherPhase::Resolving));
    match &s.command {
        Command::FetchIndex { url, kind } => {
            assert_eq!(url, "http://index/versions.json");
            assert_eq!(*kind, IndexKind::CftManifest);
        }
        other => panic!("{other:?}"),
    }
    let s = f.step(s.state, EnsureEvent::IndexFetched(Ok(IndexPayload::Cft(manifest()))));
    match &s.command {
        Command::ProbeCache { target_bin, final_dir } => {
            assert_eq!(target_bin, "/cache/120.0.6099.234/chrome-linux64/chrome");
            assert_eq!(final_dir, "/cache/120.0.6099.234");
        }
        other => panic!("{other:?}"),
    }
    let s = f.step(s.state, EnsureEvent::CacheProbed { runnable_inside: false });
    assert_eq!(s.phase, Some(FetcherPhase::Downloading));
    match &s.command {
        Command::Download { url, to } => {
            assert_eq!(url, "http://cdn/chrome-linux64.zip");
            assert_eq!(to, "/cache/120.0.6099.234.tmp.1-2-3.zip");
        }
        other => panic!("{other:?}"),
    }
    let s = f.step(s.state, EnsureEvent::WorkDone(Ok(())));
    assert_eq!(s.phase, Some(FetcherPhase::Verifying));
    assert!(matches!(s.command, Command::Hash { .. }));
    let s = f.step(s.state, EnsureEvent::Hashed(Ok("ab".into())));
    assert_eq!(s.phase, Some(FetcherPhase::Extracting));
    match &s.command {
        Command::Unpack { archive, from, into } => {
            assert_eq!(
                *archive,
                Archive::Zip {
                    top_dir: "chrome-linux64".into()
                }
            );
            assert_eq!(from, "/cache/120.0.6099.234.tmp.1-2-3.zip");
            assert_eq!(into, "/cache/120.0.6099.234.tmp.1-2-3");
        }
        other => panic!("{other:?}"),
    }
    let s = f.step(s.state, EnsureEvent::WorkDone(Ok(())));
    assert_eq!(s.phase, Some(FetcherPhase::Verifying));
    assert!(matches!(s.command, Command::MakeExecutable { .. }));
    let s = f.step(s.state, EnsureEvent::WorkDone(Ok(())));
    assert!(matches!(s.command, Command::Promote { .. }));
    let s = f.step(s.state, EnsureEvent::Promoted(PromoteOutcome::LostRace));
    match &s.command {
        Command::CheckInside { discard, .. } => {
            assert_eq!(discard.as_deref(), Some("/cache/120.0.6099.234.tmp.1-2-3"))
        }
        other => panic!("{other:?}"),
    }
    let s = f.step(s.state, EnsureEvent::CheckedInside { inside: true });
    assert_eq!(s.phase, Some(FetcherPhase::Done));
    match s.command {
        Command::Finish { result: Ok(p), discard: None } => {
            assert_eq!(p, "/cache/120.0.6099.234/chrome-linux64/chrome")
        }
        other => panic!("{other:?}"),
    }
}

#[test]
fn a_cached_runnable_build_returns_at_once() {
    let f = Fetcher::new().cache_dir("/cache".into());
    let s = begin(&f);
    let s = f.step(s.state, EnsureEvent::IndexFetched(Ok(IndexPayload::Cft(manifest()))));
    let s = f.step(s.state, EnsureEvent::CacheProbed { runnable_inside: true });
    assert_eq!(s.phase, Some(FetcherPhase::Done));
    assert!(matches!(s.command, Command::Finish { result: Ok(_), .. }));
}

#[test]
fn a_cache_root_that_cannot_be_created_ends_the_fetch() {
    let f = Fetcher::new().cache_dir("/cache".into());
    let s = begin(&f);
    let s = f.step(s.state, EnsureEvent::IndexFetched(Ok(IndexPayload::Cft(manifest()))));
    let s = f.step(
        s.state,
        EnsureEvent::WorkDone(Err(FetcherError::Io("permission denied".into()))),
    );
    assert_eq!(s.phase, None);
    match s.command {
        Command::Finish { result: Err(e), discard: None } => {
            assert_eq!(e.to_string(), "io: permission denied")
        }
        other => panic!("{other:?}"),
    }
}

#[test]
fn a_hash_mismatch_discards_the_download_and_fails() {
    let f = Fetcher::new().cache_dir("/c".into()).expected_sha256("00".into());
    let s = begin(&f);
    let s = f.step(s.state, EnsureEvent::IndexFetched(Ok(IndexPayload::Cft(manifest()))));
    let s = f.step(s.state, EnsureEvent::CacheProbed { runnable_inside: false });
    let s = f.step(s.state, EnsureEvent::WorkDone(Ok(())));
    let s = f.step(s.state, EnsureEvent::Hashed(Ok("ff".into())));
    match s.command {
        Command::Finish { result: Err(e), discard: Some(d) } => {
            assert_eq!(e.to_string(), "integrity check failed: expected 00, got ff");
            assert_eq!(d, "/c/120.0.6099.234.tmp.1-2-3.zip");
        }
        other => panic!("{other:?}"),
    }
}

#[test]
fn no_platform_means_unsupported_platform() {
    let f = Fetcher::new();
    let s = f.step(
        EnsureState::Start,
        EnsureEvent::Begin {
            default_cache_dir: "/d".into(),
            detected_platform: None,
            stamp: "s".into(),
        },
    );
    assert!(matches!(
        s.command,
        Command::Finish { result: Err(FetcherError::UnsupportedPlatform), .. }
    ));
}

#[test]
fn snapshot_refuses_an_explicit_version_without_touching_the_network() {
    let f = Fetcher::new()
        .distribution(Distribution::ChromiumSnapshot)
        .version(VersionSpec::Explicit("151.0.7922.76".into()));
    let s = begin(&f);
    assert!(matches!(
        s.command,
        Command::Finish { result: Err(FetcherError::UnsupportedSelector { .. }), .. }
    ));
}

#[test]
fn an_explicit_revision_bypasses_last_change() {
    let f = Fetcher::new()
        .cache_dir("/c".into())
        .distribution(Distribution::ChromiumSnapshot)
        .version(VersionSpec::Revision(1674890));
    let s = begin(&f);
    match s.command {
        Command::ProbeCache { final_dir, .. } => assert_eq!(final_dir, "/c/snapshot/r1674890"),
        other => panic!("{other:?}"),
    }
}

#[test]
fn non_stable_channels_ask_the_per_channel_manifest() {
    let f = Fetcher::new().version(VersionSpec::Channel(Channel::Beta));
    let s = begin(&f);
    match s.command {
        Command::FetchIndex { url, kind } => {
            assert_eq!(kind, IndexKind::CftChannels);
            assert!(url.ends_with("last-known-good-versions-with-downloads.json"));
        }
        other => panic!("{other:?}"),
    }
}

#[test]
fn ungoogled_asks_the_platforms_own_repo() {
    let f = Fetcher::new()
        .distribution(Distribution::UngoogledChromium)
        .platform(Platform::MacArm64)
        .manifest_url("http://gh".into());
    let s = begin(&f);
    match s.command {
        Command::FetchIndex { url, kind } => {
            assert_eq!(kind, IndexKind::GitHubReleases);
            assert_eq!(
                url,
                "http://gh/repos/ungoogled-software/ungoogled-chromium-macos/releases?per_page=100"
            );
        }
        other => panic!("{other:?}"),
    }
}

#[test]
fn a_path_outside_the_build_dir_is_never_returned() {
    let f = Fetcher::new().cache_dir("/c".into());
    let s = begin(&f);
    let s = f.step(s.state, EnsureEvent::IndexFetched(Ok(IndexPayload::Cft(manifest()))));
    let s = f.step(s.state, EnsureEvent::CacheProbed { runnable_inside: false });
    let s = f.step(s.state, EnsureEvent::WorkDone(Ok(())));
    let s = f.step(s.state, EnsureEvent::WorkDone(Ok(())));
    let s = f.step(s.state, EnsureEvent::WorkDone(Ok(())));
    let s = f.step(s.state, EnsureEvent::Promoted(PromoteOutcome::Renamed));
    let s = f.step(s.state, EnsureEvent::CheckedInside { inside: false });
    match s.command {
        Command::Finish { result: Err(e), .. } => assert_eq!(
            e.to_string(),
            "extraction: resolved browser path /c/120.0.6099.234/chrome-linux64/chrome does not lie inside /c/120.0.6099.234; refusing to return it"
        ),
        other => panic!("{other:?}"),
    }
}

#[test]
fn the_same_version_from_two_distributions_does_not_collide() {
    let a = make_layout(
        resolve_snapshot("http://b", 5, Platform::LinuxX64),
        "/c",
        Distribution::ChromeForTesting,
        "s",
    );
    let b = make_layout(
        resolve_snapshot("http://b", 5, Platform::LinuxX64),
        "/c",
        Distribution::ChromiumSnapshot,
        "s",
    );
    assert_ne!(a.final_dir, b.final_dir);
}

#[test]
fn two_fetches_of_one_build_stage_apart() {
    let a = make_layout(
        resolve_snapshot("http://b", 5, Platform::LinuxX64),
        "/c",
        Distribution::ChromiumSnapshot,
        "100-1-0",
    );
    let b = make_layout(
        resolve_snapshot("http://b", 5, Platform::LinuxX64),
        "/c",
        Distribution::ChromiumSnapshot,
        "100-1-1",
    );
    assert_eq!(a.final_dir, b.final_dir);
    assert_eq!(a.tmp_dir, "/c/snapshot/r5.tmp.100-1-0");
    assert_eq!(a.tmp_archive, "/c/snapshot/r5.tmp.100-1-0.zip");
    assert_ne!(a.tmp_dir, b.tmp_dir);
    assert_ne!(a.tmp_archive, b.tmp_archive);
    assert_ne!(a.tmp_dir, a.final_dir);
}

#[test]
fn a_registered_callback_receives_each_snapshot() {
    let seen = std::cell::RefCell::new(Vec::new());
    let f = Fetcher::new()
        .cache_dir("/c".into())
        .on_progress(|p: FetcherProgress| seen.borrow_mut().push(p));
    assert_eq!(f.fetcher.cache_dir.as_deref(), Some("/c"));
    f.emit(FetcherPhase::Resolving, 0, None);
    f.emit(FetcherPhase::Downloading, 5, Some(10));
    assert_eq!(
        *seen.borrow(),
        vec![
            FetcherProgress { downloaded: 0, total: None, phase: FetcherPhase::Resolving },
            FetcherProgress { downloaded: 5, total: Some(10), phase: FetcherPhase::Downloading },
        ]
    );
}

// -- the command line ----------------------------------------------------------

#[test]
fn non_tty_refusal_names_the_missing_flags() {
    let msg = missing_flags_message(true, true);
    assert!(msg.contains("--distribution"), "{msg}");
    assert!(msg.contains("--version"), "{msg}");
    assert!(msg.contains("--revision"), "{msg}");

    let msg = missing_flags_message(false, true);
    assert!(!msg.contains("--distribution"), "{msg}");
    assert!(msg.contains("--version"), "{msg}");
}

#[test]
fn flags_become_a_selector() {
    assert_eq!(spec_from_flags(Some("LATEST".into()), None), Some(VersionSpec::Latest));
    assert_eq!(
        spec_from_flags(Some("146.0.7680.153".into()), None),
        Some(VersionSpec::Explicit("146.0.7680.153".into()))
    );
    assert_eq!(spec_from_flags(None, Some(7)), Some(VersionSpec::Revision(7)));
    assert_eq!(spec_from_flags(None, None), None);
}

#[test]
fn unknown_names_list_the_valid_ones() {
    assert_eq!(
        unknown_platform_message("beos"),
        "unknown platform \"beos\"; expected one of: linux64, mac-x64, mac-arm64, win32, win64"
    );
    assert_eq!(
        unknown_distribution_message("firefox"),
        "unknown distribution \"firefox\"; expected one of: cft, ungoogled, snapshot"
    );
}

#[test]
fn the_distribution_menu_reads_numbers_slugs_and_a_default() {
    assert_eq!(distribution_choice("\n"), Some(Distribution::ChromeForTesting));
    assert_eq!(distribution_choice(" 2 "), Some(Distribution::UngoogledChromium));
    assert_eq!(distribution_choice("snapshot\n"), Some(Distribution::ChromiumSnapshot));
    assert_eq!(distribution_choice("4"), None);
    assert_eq!(distribution_choice("firefox"), None);
    assert_eq!(
        distribution_menu_line(1, Distribution::ChromeForTesting),
        "  1) Chrome for Testing   [cft]"
    );
}

#[test]
fn the_build_menu_pages_and_picks() {
    assert_eq!(page_bounds(0, 40), (0, 15, true));
    assert_eq!(page_bounds(2, 40), (30, 40, false));
    assert_eq!(build_menu_line(7, "120.0"), "    7) 120.0");
    assert_eq!(build_menu_line(1234, "x"), "  1234) x");
    assert_eq!(
        page_prompt(15, 40, true),
        "number, `m` for more (15 of 40 shown), or `q`: "
    );
    assert_eq!(page_prompt(3, 3, false), "number, or `q`: ");
    assert_eq!(menu_input(" q\n", 3, false), MenuInput::Cancel);
    assert_eq!(menu_input("m", 30, true), MenuInput::More);
    assert_eq!(menu_input("m", 3, false), MenuInput::Invalid);
    assert_eq!(menu_input("2", 3, false), MenuInput::Pick(1));
    assert_eq!(menu_input("0", 3, false), MenuInput::Invalid);
    assert_eq!(menu_input("4", 3, false), MenuInput::Invalid);
}

#[test]
fn confirmation_takes_only_a_yes() {
    assert_eq!(
        confirm_prompt("120.0", Platform::Win64),
        "Download 120.0 for win64? [y/N]: "
    );
    for yes in ["y", "Y\n", " yes ", "YES"] {
        assert!(is_affirmative(yes));
    }
    for no in ["", "n", "Yes", "yep"] {
        assert!(!is_affirmative(no));
    }
    assert_eq!(
        empty_listing_message(Distribution::ChromiumSnapshot, Platform::Win32),
        "Chromium snapshot publishes no builds for win32"
    );
}

#[test]
fn the_snapshot_listing_is_the_tip_only() {
    let b = snapshot_build(1674890, Platform::MacArm64);
    assert_eq!(b.spec, VersionSpec::Revision(1674890));
    assert_eq!(
        b.label,
        "r1674890  (newest snapshot for Mac_Arm; older builds need an explicit revision)"
    );
}

// -- archive path safety -----------------------------------------------------------

fn ns(parts: &[&str]) -> Vec<String> {
    parts.iter().map(|s| s.to_string()).collect()
}

fn walk(target: Vec<TargetPart>) -> LinkWalk {
    LinkWalk { root: ns(&["d", "top"]), target, resolved: Vec::new(), next: 0 }
}

#[test]
fn entries_without_an_enclosed_name_or_outside_the_top_are_refused() {
    let e = check_entry("../evil", None, Some("chrome-linux64")).unwrap_err();
    assert_eq!(e.to_string(), "extraction: zip entry has unsafe path: ../evil");
    let e = check_entry(
        "other/chrome",
        Some(("other/chrome".to_string(), Some("other".to_string()))),
        Some("chrome-linux64"),
    )
    .unwrap_err();
    assert_eq!(
        e.to_string(),
        "extraction: zip entry \"other/chrome\" not under expected top-level \"chrome-linux64\""
    );
    assert!(check_entry(
        "chrome-linux64/chrome",
        Some(("chrome-linux64/chrome".to_string(), Some("chrome-linux64".to_string()))),
        Some("chrome-linux64"),
    )
    .is_ok());
    assert!(check_entry("x", Some(("x".to_string(), Some("x".to_string()))), None).is_ok());
}

#[test]
fn a_relative_link_inside_the_top_is_followed_and_accepted() {
    let w = walk(vec![TargetPart::ParentDir, TargetPart::Normal("b".into())]);
    let (w, a) = link_walk_step(w, WalkEvent::Began(Some(ns(&["d", "top", "a"]))));
    assert_eq!(a, WalkAction::Look(ns(&["d", "top", "b"])));
    let (_, a) = link_walk_step(w, WalkEvent::Looked(LinkStatus::NotLink));
    assert_eq!(a, WalkAction::Accept(ns(&["d", "top", "b"])));
}

#[test]
fn link_targets_leaving_the_top_are_refused() {
    // Climbing past the root, even to come back, is refused.
    let w = walk(vec![
        TargetPart::ParentDir,
        TargetPart::ParentDir,
        TargetPart::Normal("top".into()),
    ]);
    let (_, a) = link_walk_step(w, WalkEvent::Began(Some(ns(&["d", "top", "a"]))));
    assert_eq!(a, WalkAction::Refuse);
    // Absolute and empty targets.
    let (_, a) = link_walk_step(
        walk(vec![TargetPart::Root, TargetPart::Normal("etc".into())]),
        WalkEvent::Began(Some(ns(&["d", "top"]))),
    );
    assert_eq!(a, WalkAction::Refuse);
    let (_, a) = link_walk_step(walk(Vec::new()), WalkEvent::Began(Some(ns(&["d", "top"]))));
    assert_eq!(a, WalkAction::Refuse);
    // An earlier link that leads out of the top.
    let w = walk(vec![TargetPart::Normal("up".into()), TargetPart::Normal("x".into())]);
    let (w, a) = link_walk_step(w, WalkEvent::Began(Some(ns(&["d", "top"]))));
    assert_eq!(a, WalkAction::Look(ns(&["d", "top", "up"])));
    let (_, a) = link_walk_step(w, WalkEvent::Looked(LinkStatus::Link(Some(ns(&["d"])))));
    assert_eq!(a, WalkAction::Refuse);
    // A parent that cannot be canonicalized.
    let (_, a) = link_walk_step(walk(vec![TargetPart::CurDir]), WalkEvent::Began(None));
    assert_eq!(a, WalkAction::Refuse);
}

#[test]
fn containment_is_by_whole_components() {
    assert!(is_under(&ns(&["d", "top"]), &ns(&["d", "top", "x"])));
    assert!(is_under(&ns(&["d", "top"]), &ns(&["d", "top"])));
    assert!(!is_under(&ns(&["d", "top"]), &ns(&["d", "topx"])));
    assert!(!is_under(&ns(&["d", "top"]), &ns(&["d"])));
}
