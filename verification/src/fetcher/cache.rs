//! Cache directory layout.
//!
//! Chrome for Testing keeps its historical layout straight under the cache
//! root (`<cache>/<version>/chrome-<platform>/...`); the other distributions
//! namespace themselves under their slug (`<cache>/ungoogled/<version>/...`,
//! `<cache>/snapshot/r<revision>/...`), because a Chrome version number is not
//! unique across distributions.
//!
//! Paths are `/`-separated strings.

use crate::fetcher::distribution::{slug_of, Distribution};
use crate::fetcher::platform::{cft_top, snapshot_stem, Platform};
use crate::text::{chars_of, extend_chars, extend_str, string_of};
use vstd::prelude::*;

verus! {

/// `base` joined with `comp`: an absolute `comp` replaces `base`, an empty
/// `base` yields `comp`, and otherwise exactly one `/` separates the two.
pub open spec fn join_spec(base: Seq<char>, comp: Seq<char>) -> Seq<char> {
    if comp.len() > 0 && comp[0] == '/' {
        comp
    } else if base.len() == 0 {
        comp
    } else if base.last() == '/' {
        base + comp
    } else {
        base + seq!['/'] + comp
    }
}

/// Join a path component onto a path.
pub fn join_path(base: &str, comp: &str) -> (r: String)
    ensures
        r@ == join_spec(base@, comp@),
{
    let b = chars_of(base);
    let c = chars_of(comp);
    if c.len() > 0 && c[0] == '/' {
        return string_of(c.as_slice());
    }
    if b.len() == 0 {
        return string_of(c.as_slice());
    }
    let mut out = b.clone();
    if b[b.len() - 1] != '/' {
        out.push('/');
    }
    extend_chars(&mut out, c.as_slice());
    proof {
        assert(b@.last() == b@[b@.len() - 1]);
    }
    string_of(out.as_slice())
}

/// Directory holding one unpacked build: un-prefixed for Chrome for Testing,
/// namespaced by the distribution's slug otherwise.
pub open spec fn build_dir_spec(cache_dir: Seq<char>, d: Distribution, build_id: Seq<char>) -> Seq<
    char,
> {
    match d {
        Distribution::ChromeForTesting => join_spec(cache_dir, build_id),
        _ => join_spec(join_spec(cache_dir, slug_of(d)), build_id),
    }
}

/// Directory holding one unpacked build.
pub fn build_dir(cache_dir: &str, distribution: Distribution, build_id: &str) -> (r: String)
    ensures
        r@ == build_dir_spec(cache_dir@, distribution, build_id@),
{
    match distribution {
        Distribution::ChromeForTesting => join_path(cache_dir, build_id),
        other => {
            let ns = join_path(cache_dir, other.slug());
            join_path(ns.as_str(), build_id)
        },
    }
}

/// A sibling of `path` whose last component carries `suffix`.
pub fn with_suffix(path: &str, suffix: &str) -> (r: String)
    ensures
        r@ == path@ + suffix@,
{
    let mut v = chars_of(path);
    extend_str(&mut v, suffix);
    string_of(v.as_slice())
}

/// Path of the Chrome for Testing binary relative to its build directory.
pub open spec fn cft_subpath(p: Platform) -> Seq<char> {
    match p {
        Platform::LinuxX64 => cft_top(p) + "/chrome"@,
        Platform::MacX64 | Platform::MacArm64 => cft_top(p)
            + "/Google Chrome for Testing.app/Contents/MacOS/Google Chrome for Testing"@,
        Platform::Win32 | Platform::Win64 => cft_top(p) + "/chrome.exe"@,
    }
}

/// Path of the Chrome for Testing binary relative to its build directory.
pub fn cft_binary_subpath(platform: Platform) -> (r: String)
    ensures
        r@ == cft_subpath(platform),
{
    let mut v = chars_of(platform.cft_top_dir());
    match platform {
        Platform::LinuxX64 => extend_str(&mut v, "/chrome"),
        Platform::MacX64 | Platform::MacArm64 => extend_str(
            &mut v,
            "/Google Chrome for Testing.app/Contents/MacOS/Google Chrome for Testing",
        ),
        Platform::Win32 | Platform::Win64 => extend_str(&mut v, "/chrome.exe"),
    }
    string_of(v.as_slice())
}

/// Path of the binary inside an unpacked Chromium snapshot.
pub open spec fn snapshot_subpath(p: Platform) -> Seq<char> {
    match p {
        Platform::LinuxX64 => snapshot_stem(p) + "/chrome"@,
        Platform::MacX64 | Platform::MacArm64 => snapshot_stem(p)
            + "/Chromium.app/Contents/MacOS/Chromium"@,
        Platform::Win32 | Platform::Win64 => snapshot_stem(p) + "/chrome.exe"@,
    }
}

/// Path of the binary inside an unpacked Chromium snapshot.
pub fn snapshot_binary_subpath(platform: Platform) -> (r: String)
    ensures
        r@ == snapshot_subpath(platform),
{
    let mut v = chars_of(platform.snapshot_archive_stem());
    match platform {
        Platform::LinuxX64 => extend_str(&mut v, "/chrome"),
        Platform::MacX64 | Platform::MacArm64 => extend_str(
            &mut v,
            "/Chromium.app/Contents/MacOS/Chromium",
        ),
        Platform::Win32 | Platform::Win64 => extend_str(&mut v, "/chrome.exe"),
    }
    string_of(v.as_slice())
}

/// Filename an ungoogled AppImage is stored under inside its build dir.
pub const UNGOOGLED_APPIMAGE_NAME: &'static str = "chrome.AppImage";

/// Bundle directory inside ungoogled-chromium's macOS disk image.
pub const UNGOOGLED_APP_BUNDLE: &'static str = "Chromium.app";

/// Path of the binary inside an unpacked ungoogled-chromium build;
/// `archive_top` is the Windows zip's top-level directory.
pub open spec fn ungoogled_subpath(p: Platform, archive_top: Seq<char>) -> Seq<char> {
    match p {
        Platform::LinuxX64 => "chrome.AppImage"@,
        Platform::MacX64 | Platform::MacArm64 => "Chromium.app/Contents/MacOS/Chromium"@,
        Platform::Win32 | Platform::Win64 => join_spec(archive_top, "chrome.exe"@),
    }
}

/// Path of the binary inside an unpacked ungoogled-chromium build.
pub fn ungoogled_binary_subpath(platform: Platform, archive_top: &str) -> (r: String)
    ensures
        r@ == ungoogled_subpath(platform, archive_top@),
{
    match platform {
        Platform::LinuxX64 => String::from_str(UNGOOGLED_APPIMAGE_NAME),
        Platform::MacX64 | Platform::MacArm64 => String::from_str(
            "Chromium.app/Contents/MacOS/Chromium",
        ),
        Platform::Win32 | Platform::Win64 => join_path(archive_top, "chrome.exe"),
    }
}

} // verus!
