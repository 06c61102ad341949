//! Which build of Chromium to fetch.

use crate::fetcher::platform::Platform;
use crate::text::{ascii_lowercase, chars_eq_str, lower_seq, trim, trim_seq};
use vstd::prelude::*;

verus! {

/// Which Chromium build to download.
#[derive(Debug, Clone, Copy, PartialEq, Eq, Hash, Structural)]
pub enum Distribution {
    /// Google's Chrome for Testing builds, indexed by one JSON manifest.
    ChromeForTesting,
    /// ungoogled-chromium, published by three per-OS GitHub repos.
    UngoogledChromium,
    /// Per-commit Chromium snapshots, keyed by revision.
    ChromiumSnapshot,
}

/// Short lowercase slug: the CLI value and the cache sub-directory name.
pub open spec fn slug_of(d: Distribution) -> Seq<char> {
    match d {
        Distribution::ChromeForTesting => "cft"@,
        Distribution::UngoogledChromium => "ungoogled"@,
        Distribution::ChromiumSnapshot => "snapshot"@,
    }
}

/// Human-readable name.
pub open spec fn title_of(d: Distribution) -> Seq<char> {
    match d {
        Distribution::ChromeForTesting => "Chrome for Testing"@,
        Distribution::UngoogledChromium => "ungoogled-chromium"@,
        Distribution::ChromiumSnapshot => "Chromium snapshot"@,
    }
}

/// What `Distribution::parse` answers for the trimmed, ASCII-lowercased input.
pub open spec fn parse_distribution(s: Seq<char>) -> Option<Distribution> {
    let t = lower_seq(trim_seq(s));
    if t == "cft"@ || t == "chrome-for-testing"@ || t == "chrome_for_testing"@ || t
        == "chrome"@ {
        Some(Distribution::ChromeForTesting)
    } else if t == "ungoogled"@ || t == "ungoogled-chromium"@ || t == "ungoogled_chromium"@ {
        Some(Distribution::UngoogledChromium)
    } else if t == "snapshot"@ || t == "snapshots"@ || t == "chromium-snapshot"@ || t
        == "chromium_snapshot"@ {
        Some(Distribution::ChromiumSnapshot)
    } else {
        None
    }
}

/// The `owner/name` repo publishing ungoogled-chromium binaries for a platform.
pub open spec fn ungoogled_repo_of(p: Platform) -> Seq<char> {
    match p {
        Platform::MacX64 | Platform::MacArm64 => "ungoogled-software/ungoogled-chromium-macos"@,
        Platform::Win32 | Platform::Win64 => "ungoogled-software/ungoogled-chromium-windows"@,
        Platform::LinuxX64 => "ungoogled-software/ungoogled-chromium-portablelinux"@,
    }
}

impl Default for Distribution {
    fn default() -> (r: Self)
        ensures
            r == Distribution::ChromeForTesting,
    {
        Distribution::ChromeForTesting
    }
}

impl Distribution {
    /// Every distribution, in menu order.
    pub const ALL: [Distribution; 3] = [
        Distribution::ChromeForTesting,
        Distribution::UngoogledChromium,
        Distribution::ChromiumSnapshot,
    ];

    /// Short lowercase slug.
    pub fn slug(self) -> (r: &'static str)
        ensures
            r@ == slug_of(self),
    {
        match self {
            Distribution::ChromeForTesting => "cft",
            Distribution::UngoogledChromium => "ungoogled",
            Distribution::ChromiumSnapshot => "snapshot",
        }
    }

    /// Human-readable name, for menus and error messages.
    pub fn title(self) -> (r: &'static str)
        ensures
            r@ == title_of(self),
    {
        match self {
            Distribution::ChromeForTesting => "Chrome for Testing",
            Distribution::UngoogledChromium => "ungoogled-chromium",
            Distribution::ChromiumSnapshot => "Chromium snapshot",
        }
    }

    /// Parse a slug, accepting a few aliases, ignoring surrounding whitespace
    /// and ASCII case.
    pub fn parse(s: &str) -> (r: Option<Self>)
        ensures
            r == parse_distribution(s@),
    {
        let cs = crate::text::chars_of(s);
        let t = trim(cs.as_slice());
        let l = ascii_lowercase(t.as_slice());
        let l = l.as_slice();
        if chars_eq_str(l, "cft") || chars_eq_str(l, "chrome-for-testing") || chars_eq_str(
            l,
            "chrome_for_testing",
        ) || chars_eq_str(l, "chrome") {
            Some(Distribution::ChromeForTesting)
        } else if chars_eq_str(l, "ungoogled") || chars_eq_str(l, "ungoogled-chromium")
            || chars_eq_str(l, "ungoogled_chromium") {
            Some(Distribution::UngoogledChromium)
        } else if chars_eq_str(l, "snapshot") || chars_eq_str(l, "snapshots") || chars_eq_str(
            l,
            "chromium-snapshot",
        ) || chars_eq_str(l, "chromium_snapshot") {
            Some(Distribution::ChromiumSnapshot)
        } else {
            None
        }
    }

    /// The `owner/name` GitHub repo publishing ungoogled-chromium binaries for
    /// `platform`.
    pub fn ungoogled_repo(platform: Platform) -> (r: &'static str)
        ensures
            r@ == ungoogled_repo_of(platform),
    {
        match platform {
            Platform::MacX64 | Platform::MacArm64 => "ungoogled-software/ungoogled-chromium-macos",
            Platform::Win32 | Platform::Win64 => "ungoogled-software/ungoogled-chromium-windows",
            Platform::LinuxX64 => "ungoogled-software/ungoogled-chromium-portablelinux",
        }
    }
}

} // verus!
