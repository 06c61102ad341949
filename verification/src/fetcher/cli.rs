//! The decisions and messages of the `zendriver-fetch` command line: how flags
//! become a selector, what a non-interactive run is told, and how a line typed
//! at the interactive menus is read.

use crate::fetcher::distribution::{parse_distribution, slug_of, title_of, Distribution};
use crate::fetcher::platform::{cft_key, snapshot_dir, Platform};
use crate::fetcher::resolver::{Build, BuildView};
use crate::fetcher::version::{VersionSpec, VersionSpecView};
use crate::text::{
    chars_eq_str, chars_of, debug_quoted, debug_str, decimal, eq_ignore_ascii_case,
    eq_ignore_case_seq, extend_chars, extend_str, pad_left, pad_left_spec, pad_right,
    pad_right_spec, parse_radix, parse_unsigned, string_of, trim, trim_seq, u64_to_decimal,
};
use vstd::prelude::*;

verus! {

/// Builds shown per page in the interactive picker.
pub const PAGE: usize = 15;

/// The flag a run without a distribution needs.
pub open spec fn distribution_flag() -> Seq<char> {
    "--distribution <cft|ungoogled|snapshot>"@
}

/// The flag a run without a version needs.
pub open spec fn version_flag() -> Seq<char> {
    "--version <VERSION|latest> (or --revision <N> for snapshots)"@
}

/// The missing flags, joined with `" and "`.
pub open spec fn missing_flags(needs_distribution: bool, needs_version: bool) -> Seq<char> {
    if needs_distribution && needs_version {
        distribution_flag() + " and "@ + version_flag()
    } else if needs_distribution {
        distribution_flag()
    } else if needs_version {
        version_flag()
    } else {
        Seq::empty()
    }
}

/// What a run with no terminal on stdin is told instead of being prompted.
pub open spec fn missing_flags_spec(needs_distribution: bool, needs_version: bool) -> Seq<char> {
    "stdin is not a terminal, so there is nobody to prompt \u{2014} pass "@ + missing_flags(
        needs_distribution,
        needs_version,
    ) + " on the command line"@
}

/// The message a non-interactive caller gets instead of a hung prompt: it
/// names every flag that was missing.
pub fn missing_flags_message(needs_distribution: bool, needs_version: bool) -> (r: String)
    ensures
        r@ == missing_flags_spec(needs_distribution, needs_version),
{
    let mut v: Vec<char> = Vec::new();
    extend_str(&mut v, "stdin is not a terminal, so there is nobody to prompt \u{2014} pass ");
    if needs_distribution {
        extend_str(&mut v, "--distribution <cft|ungoogled|snapshot>");
        if needs_version {
            extend_str(&mut v, " and ");
        }
    }
    if needs_version {
        extend_str(&mut v, "--version <VERSION|latest> (or --revision <N> for snapshots)");
    }
    extend_str(&mut v, " on the command line");
    string_of(v.as_slice())
}

/// The selector the `--version` / `--revision` flags ask for: `latest` in any
/// ASCII case, an explicit version, a revision, or nothing.
pub open spec fn spec_from_flags_spec(version: Option<Seq<char>>, revision: Option<u64>) -> Option<
    VersionSpecView,
> {
    match version {
        Some(v) => if eq_ignore_case_seq(v, "latest"@) {
            Some(VersionSpecView::Latest)
        } else {
            Some(VersionSpecView::Explicit(v))
        },
        None => match revision {
            Some(rev) => Some(VersionSpecView::Revision(rev)),
            None => None,
        },
    }
}

/// The selector the `--version` / `--revision` flags ask for.
pub fn spec_from_flags(version: Option<String>, revision: Option<u64>) -> (r: Option<VersionSpec>)
    ensures
        match r {
            Some(s) => spec_from_flags_spec(crate::text::opt_chars(version), revision) == Some(
                s@,
            ),
            None => spec_from_flags_spec(crate::text::opt_chars(version), revision) is None,
        },
{
    match version {
        Some(v) => {
            let vc = chars_of(v.as_str());
            let latest = chars_of("latest");
            if eq_ignore_ascii_case(vc.as_slice(), latest.as_slice()) {
                Some(VersionSpec::Latest)
            } else {
                Some(VersionSpec::Explicit(v))
            }
        },
        None => match revision {
            Some(rev) => Some(VersionSpec::Revision(rev)),
            None => None,
        },
    }
}

/// Every platform's key, comma-separated, in menu order.
pub open spec fn platform_keys() -> Seq<char> {
    cft_key(Platform::LinuxX64) + ", "@ + cft_key(Platform::MacX64) + ", "@ + cft_key(
        Platform::MacArm64,
    ) + ", "@ + cft_key(Platform::Win32) + ", "@ + cft_key(Platform::Win64)
}

/// Every distribution's slug, comma-separated, in menu order.
pub open spec fn distribution_slugs() -> Seq<char> {
    slug_of(Distribution::ChromeForTesting) + ", "@ + slug_of(Distribution::UngoogledChromium)
        + ", "@ + slug_of(Distribution::ChromiumSnapshot)
}

/// The refusal of an unknown `--platform` value.
pub open spec fn unknown_platform_spec(name: Seq<char>) -> Seq<char> {
    "unknown platform "@ + debug_str(name) + "; expected one of: "@ + platform_keys()
}

/// The refusal of an unknown `--platform` value, listing the valid ones.
pub fn unknown_platform_message(name: &str) -> (r: String)
    ensures
        r@ == unknown_platform_spec(name@),
{
    let mut v: Vec<char> = Vec::new();
    extend_str(&mut v, "unknown platform ");
    let q = debug_quoted(name);
    extend_str(&mut v, q.as_str());
    extend_str(&mut v, "; expected one of: ");
    extend_str(&mut v, Platform::LinuxX64.as_cft_str());
    extend_str(&mut v, ", ");
    extend_str(&mut v, Platform::MacX64.as_cft_str());
    extend_str(&mut v, ", ");
    extend_str(&mut v, Platform::MacArm64.as_cft_str());
    extend_str(&mut v, ", ");
    extend_str(&mut v, Platform::Win32.as_cft_str());
    extend_str(&mut v, ", ");
    extend_str(&mut v, Platform::Win64.as_cft_str());
    string_of(v.as_slice())
}

/// The refusal of an unknown `--distribution` value.
pub open spec fn unknown_distribution_spec(name: Seq<char>) -> Seq<char> {
    "unknown distribution "@ + debug_str(name) + "; expected one of: "@ + distribution_slugs()
}

/// The refusal of an unknown `--distribution` value, listing the valid ones.
pub fn unknown_distribution_message(name: &str) -> (r: String)
    ensures
        r@ == unknown_distribution_spec(name@),
{
    let mut v: Vec<char> = Vec::new();
    extend_str(&mut v, "unknown distribution ");
    let q = debug_quoted(name);
    extend_str(&mut v, q.as_str());
    extend_str(&mut v, "; expected one of: ");
    extend_str(&mut v, Distribution::ChromeForTesting.slug());
    extend_str(&mut v, ", ");
    extend_str(&mut v, Distribution::UngoogledChromium.slug());
    extend_str(&mut v, ", ");
    extend_str(&mut v, Distribution::ChromiumSnapshot.slug());
    string_of(v.as_slice())
}

/// The distribution at 1-based position `n` of the menu.
pub open spec fn menu_distribution(n: nat) -> Option<Distribution> {
    if n == 1 {
        Some(Distribution::ChromeForTesting)
    } else if n == 2 {
        Some(Distribution::UngoogledChromium)
    } else if n == 3 {
        Some(Distribution::ChromiumSnapshot)
    } else {
        None
    }
}

/// What a line typed at the distribution menu picks: an empty line takes the
/// first entry, a number picks by position, anything else is read as a slug.
pub open spec fn distribution_choice_spec(line: Seq<char>) -> Option<Distribution> {
    let t = trim_seq(line);
    if t.len() == 0 {
        Some(Distribution::ChromeForTesting)
    } else {
        match parse_unsigned(t, 10, u64::MAX as nat) {
            Some(n) if menu_distribution(n) is Some => menu_distribution(n),
            _ => parse_distribution(t),
        }
    }
}

/// What a line typed at the distribution menu picks.
pub fn distribution_choice(line: &str) -> (r: Option<Distribution>)
    ensures
        r == distribution_choice_spec(line@),
{
    let cs = chars_of(line);
    let t = trim(cs.as_slice());
    if t.len() == 0 {
        return Some(Distribution::ChromeForTesting);
    }
    let picked = match parse_radix(t.as_slice(), 10, u64::MAX) {
        Some(1) => Some(Distribution::ChromeForTesting),
        Some(2) => Some(Distribution::UngoogledChromium),
        Some(3) => Some(Distribution::ChromiumSnapshot),
        _ => None,
    };
    match picked {
        Some(d) => Some(d),
        None => {
            let ts = string_of(t.as_slice());
            Distribution::parse(ts.as_str())
        },
    }
}

/// One line of the distribution menu: `"  <n>) <title, padded to 20> [<slug>]"`.
pub open spec fn distribution_menu_line_spec(n: nat, d: Distribution) -> Seq<char> {
    "  "@ + decimal(n) + ") "@ + pad_right_spec(title_of(d), 20) + " ["@ + slug_of(d) + "]"@
}

/// One line of the distribution menu.
pub fn distribution_menu_line(n: u64, d: Distribution) -> (r: String)
    ensures
        r@ == distribution_menu_line_spec(n as nat, d),
{
    let mut v: Vec<char> = Vec::new();
    extend_str(&mut v, "  ");
    let digits = u64_to_decimal(n);
    extend_chars(&mut v, digits.as_slice());
    extend_str(&mut v, ") ");
    let title = chars_of(d.title());
    let padded = pad_right(title.as_slice(), 20);
    extend_chars(&mut v, padded.as_slice());
    extend_str(&mut v, " [");
    extend_str(&mut v, d.slug());
    extend_str(&mut v, "]");
    string_of(v.as_slice())
}

/// The slice of the build list shown on `page`, and whether more follow.
pub open spec fn page_bounds_spec(page: nat, total: nat) -> (nat, nat, bool) {
    let start: nat = page * (PAGE as nat);
    let end: nat = if start + PAGE <= total {
        start + (PAGE as nat)
    } else {
        total
    };
    (start, end, start + PAGE < total)
}

/// The slice `[start, end)` of a `total`-long build list shown on `page`, and
/// whether more pages follow.
pub fn page_bounds(page: usize, total: usize) -> (r: (usize, usize, bool))
    requires
        page * PAGE < total,
    ensures
        (r.0 as nat, r.1 as nat, r.2) == page_bounds_spec(page as nat, total as nat),
        r.0 < r.1 <= total,
{
    let start = page * PAGE;
    let end = if start + PAGE <= total {
        start + PAGE
    } else {
        total
    };
    (start, end, start + PAGE < total)
}

/// One line of the build menu: the 1-based number right-aligned in three
/// columns, then the label.
pub open spec fn build_menu_line_spec(n: nat, label: Seq<char>) -> Seq<char> {
    "  "@ + pad_left_spec(decimal(n), 3) + ") "@ + label
}

/// One line of the build menu.
pub fn build_menu_line(n: u64, label: &str) -> (r: String)
    ensures
        r@ == build_menu_line_spec(n as nat, label@),
{
    let mut v: Vec<char> = Vec::new();
    extend_str(&mut v, "  ");
    let digits = u64_to_decimal(n);
    let padded = pad_left(digits.as_slice(), 3);
    extend_chars(&mut v, padded.as_slice());
    extend_str(&mut v, ") ");
    extend_str(&mut v, label);
    string_of(v.as_slice())
}

/// The prompt under a page of the build menu; `shown` builds of `total` are
/// on screen.
pub open spec fn page_prompt_spec(shown: nat, total: nat, has_more: bool) -> Seq<char> {
    if has_more {
        "number, `m` for more ("@ + decimal(shown) + " of "@ + decimal(total) + " shown), or `q`: "@
    } else {
        "number, or `q`: "@
    }
}

/// The prompt under a page of the build menu.
pub fn page_prompt(shown: u64, total: u64, has_more: bool) -> (r: String)
    ensures
        r@ == page_prompt_spec(shown as nat, total as nat, has_more),
{
    if has_more {
        let mut v: Vec<char> = Vec::new();
        extend_str(&mut v, "number, `m` for more (");
        let a = u64_to_decimal(shown);
        extend_chars(&mut v, a.as_slice());
        extend_str(&mut v, " of ");
        let b = u64_to_decimal(total);
        extend_chars(&mut v, b.as_slice());
        extend_str(&mut v, " shown), or `q`: ");
        string_of(v.as_slice())
    } else {
        String::from_str("number, or `q`: ")
    }
}

/// What a line typed at the build menu asks for.
#[derive(Debug, Clone, Copy, PartialEq, Eq, Structural)]
pub enum MenuInput {
    /// `q`: give up.
    Cancel,
    /// `m`: show the next page.
    More,
    /// A listed build, by 0-based position.
    Pick(usize),
    /// Anything else.
    Invalid,
}

/// What a line typed at the build menu asks for, with `total` builds listed
/// and `has_more` telling whether another page follows.
pub open spec fn menu_input_spec(line: Seq<char>, total: nat, has_more: bool) -> MenuInput {
    let t = trim_seq(line);
    if t == "q"@ || t == "Q"@ {
        MenuInput::Cancel
    } else if has_more && (t == "m"@ || t == "M"@) {
        MenuInput::More
    } else {
        match parse_unsigned(t, 10, u64::MAX as nat) {
            Some(n) if 1 <= n <= total => MenuInput::Pick((n - 1) as usize),
            _ => MenuInput::Invalid,
        }
    }
}

/// What a line typed at the build menu asks for.
pub fn menu_input(line: &str, total: usize, has_more: bool) -> (r: MenuInput)
    ensures
        r == menu_input_spec(line@, total as nat, has_more),
{
    let cs = chars_of(line);
    let t = trim(cs.as_slice());
    let t = t.as_slice();
    if chars_eq_str(t, "q") || chars_eq_str(t, "Q") {
        return MenuInput::Cancel;
    }
    if has_more && (chars_eq_str(t, "m") || chars_eq_str(t, "M")) {
        return MenuInput::More;
    }
    match parse_radix(t, 10, u64::MAX) {
        Some(n) => {
            if 1 <= n && n <= total as u64 {
                MenuInput::Pick((n - 1) as usize)
            } else {
                MenuInput::Invalid
            }
        },
        None => MenuInput::Invalid,
    }
}

/// The confirmation asked before a download.
pub open spec fn confirm_prompt_spec(label: Seq<char>, p: Platform) -> Seq<char> {
    "Download "@ + label + " for "@ + cft_key(p) + "? [y/N]: "@
}

/// The confirmation asked before a download.
pub fn confirm_prompt(label: &str, platform: Platform) -> (r: String)
    ensures
        r@ == confirm_prompt_spec(label@, platform),
{
    let mut v: Vec<char> = Vec::new();
    extend_str(&mut v, "Download ");
    extend_str(&mut v, label);
    extend_str(&mut v, " for ");
    extend_str(&mut v, platform.as_cft_str());
    extend_str(&mut v, "? [y/N]: ");
    string_of(v.as_slice())
}

/// Is the (trimmed) answer a yes: `y`, `Y`, `yes` or `YES`?
pub open spec fn affirmative(answer: Seq<char>) -> bool {
    let t = trim_seq(answer);
    t == "y"@ || t == "Y"@ || t == "yes"@ || t == "YES"@
}

/// Is the answer to a confirmation a yes?
pub fn is_affirmative(answer: &str) -> (r: bool)
    ensures
        r == affirmative(answer@),
{
    let cs = chars_of(answer);
    let t = trim(cs.as_slice());
    let t = t.as_slice();
    chars_eq_str(t, "y") || chars_eq_str(t, "Y") || chars_eq_str(t, "yes") || chars_eq_str(
        t,
        "YES",
    )
}

/// The refusal when a distribution lists nothing for a platform.
pub open spec fn empty_listing_spec(d: Distribution, p: Platform) -> Seq<char> {
    title_of(d) + " publishes no builds for "@ + cft_key(p)
}

/// The refusal when a distribution lists nothing for a platform.
pub fn empty_listing_message(d: Distribution, platform: Platform) -> (r: String)
    ensures
        r@ == empty_listing_spec(d, platform),
{
    let mut v: Vec<char> = Vec::new();
    extend_str(&mut v, d.title());
    extend_str(&mut v, " publishes no builds for ");
    extend_str(&mut v, platform.as_cft_str());
    string_of(v.as_slice())
}

/// The single build the snapshot bucket can list: the tip `LAST_CHANGE`
/// names.
pub open spec fn snapshot_build_spec(revision: u64, p: Platform) -> BuildView {
    BuildView {
        spec: VersionSpecView::Revision(revision),
        label: "r"@ + decimal(revision as nat) + "  (newest snapshot for "@ + snapshot_dir(p)
            + "; older builds need an explicit revision)"@,
    }
}

/// The single build the snapshot bucket can list.
pub fn snapshot_build(revision: u64, platform: Platform) -> (r: Build)
    ensures
        r@ == snapshot_build_spec(revision, platform),
{
    let mut v: Vec<char> = Vec::new();
    extend_str(&mut v, "r");
    let d = u64_to_decimal(revision);
    extend_chars(&mut v, d.as_slice());
    extend_str(&mut v, "  (newest snapshot for ");
    extend_str(&mut v, platform.as_snapshot_str());
    extend_str(&mut v, "; older builds need an explicit revision)");
    Build { spec: VersionSpec::Revision(revision), label: string_of(v.as_slice()) }
}

} // verus!
