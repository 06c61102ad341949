//! The indexes each distribution publishes, as the resolver reads them, and
//! the endpoints they are fetched from.
//!
//! Only the fields resolution reads are modelled. Fetching and JSON decoding
//! happen around the library, which hands these values in.

use crate::fetcher::error::FetcherError;
use crate::text::{
    chars_of, debug_quoted, debug_str, extend_chars, extend_str, parse_radix, parse_unsigned,
    string_of, take_chars, trim, trim_end_char, trim_end_matches_char, trim_seq,
};
use vstd::prelude::*;

verus! {

/// Chrome for Testing's flat `known-good-versions-with-downloads.json`,
/// oldest version first.
#[derive(Debug)]
pub struct KnownGoodVersionsResponse {
    pub versions: Vec<VersionEntry>,
}

/// One version in the flat manifest.
#[derive(Debug)]
pub struct VersionEntry {
    pub version: String,
    pub downloads: Downloads,
}

/// Per-product download lists of a manifest entry.
#[derive(Debug)]
pub struct Downloads {
    pub chrome: Vec<Download>,
}

/// One platform's download of a manifest entry.
#[derive(Debug)]
pub struct Download {
    pub platform: String,
    pub url: String,
}

/// Chrome for Testing's per-channel manifest, keyed by channel name
/// (`"Stable"`, `"Beta"`, `"Dev"`, `"Canary"`). The keys are those of a JSON
/// object, so each occurs once ([`channels_unique`]).
#[derive(Debug)]
pub struct ChannelsResponse {
    pub channels: Vec<(String, ChannelEntry)>,
}

/// One channel's entry in a [`ChannelsResponse`].
#[derive(Debug)]
pub struct ChannelEntry {
    pub version: String,
    pub downloads: Downloads,
}

/// Each channel name occurs once, as the keys of a JSON object do.
pub open spec fn channels_unique(cs: Seq<(String, ChannelEntry)>) -> bool {
    forall|i: int, j: int| 0 <= i < j < cs.len() ==> (#[trigger] cs[i]).0@ != (#[trigger] cs[j]).0@
}

/// Does each channel name occur once?
pub fn has_unique_channels(m: &ChannelsResponse) -> (r: bool)
    ensures
        r == channels_unique(m.channels@),
{
    let cs = &m.channels;
    let mut j: usize = 0;
    while j < cs.len()
        invariant
            j <= cs@.len(),
            cs@ == m.channels@,
            forall|a: int, b: int| 0 <= a < b < j ==> (#[trigger] cs@[a]).0@ != (#[trigger] cs@[b]).0@,
        decreases cs@.len() - j,
    {
        let mut i: usize = 0;
        while i < j
            invariant
                i <= j < cs@.len(),
                cs@ == m.channels@,
                forall|a: int| 0 <= a < i ==> (#[trigger] cs@[a]).0@ != cs@[j as int].0@,
                forall|a: int, b: int| 0 <= a < b < j ==> (#[trigger] cs@[a]).0@ != (#[trigger] cs@[b]).0@,
            decreases j - i,
        {
            if crate::text::str_eq(cs[i].0.as_str(), cs[j].0.as_str()) {
                return false;
            }
            i = i + 1;
        }
        j = j + 1;
    }
    true
}

/// One entry of GitHub's `GET /repos/{owner}/{repo}/releases`.
#[derive(Debug)]
pub struct GitHubRelease {
    pub tag_name: String,
    pub draft: bool,
    pub prerelease: bool,
    pub assets: Vec<GitHubAsset>,
}

/// A file attached to a [`GitHubRelease`].
#[derive(Debug)]
pub struct GitHubAsset {
    pub name: String,
    pub browser_download_url: String,
}

/// The release-list endpoint of `repo` under the GitHub API base `api_base`:
/// one page of up to 100 releases, newest first.
pub open spec fn github_releases_url_spec(api_base: Seq<char>, repo: Seq<char>) -> Seq<char> {
    trim_end_char(api_base, '/') + "/repos/"@ + repo + "/releases?per_page=100"@
}

/// The release-list endpoint of `repo`.
pub fn github_releases_url(api_base: &str, repo: &str) -> (r: String)
    ensures
        r@ == github_releases_url_spec(api_base@, repo@),
{
    let mut v = trim_end_matches_char(api_base, '/');
    extend_str(&mut v, "/repos/");
    extend_str(&mut v, repo);
    extend_str(&mut v, "/releases?per_page=100");
    string_of(v.as_slice())
}

/// The `LAST_CHANGE` file of a platform directory in the snapshot bucket.
pub open spec fn last_change_url_spec(snapshot_base: Seq<char>, platform_dir: Seq<char>) -> Seq<
    char,
> {
    trim_end_char(snapshot_base, '/') + "/"@ + platform_dir + "/LAST_CHANGE"@
}

/// The `LAST_CHANGE` file of a platform directory in the snapshot bucket.
pub fn last_change_url(snapshot_base: &str, platform_dir: &str) -> (r: String)
    ensures
        r@ == last_change_url_spec(snapshot_base@, platform_dir@),
{
    let mut v = trim_end_matches_char(snapshot_base, '/');
    extend_str(&mut v, "/");
    extend_str(&mut v, platform_dir);
    extend_str(&mut v, "/LAST_CHANGE");
    string_of(v.as_slice())
}

/// The revision a `LAST_CHANGE` body names: its trimmed text as a `u64`.
pub open spec fn last_change_revision_spec(text: Seq<char>) -> Option<nat> {
    parse_unsigned(trim_seq(text), 10, u64::MAX as nat)
}

/// Why a `LAST_CHANGE` body fetched from `url` was refused.
pub open spec fn last_change_refusal(url: Seq<char>, text: Seq<char>) -> Seq<char> {
    url + " returned "@ + debug_str(take_chars(text, 64)) + ", which is not a revision number"@
}

/// Read the revision number out of the `LAST_CHANGE` body `text` fetched from
/// `url`. A body that is not one is reported with its first 64 characters.
pub fn last_change_revision(url: &str, text: &str) -> (r: Result<u64, FetcherError>)
    ensures
        match last_change_revision_spec(text@) {
            Some(n) => r == Ok::<u64, FetcherError>(n as u64),
            None => r matches Err(FetcherError::VersionNotFound(m)) && m@ == last_change_refusal(
                url@,
                text@,
            ),
        },
{
    let cs = chars_of(text);
    let t = trim(cs.as_slice());
    match parse_radix(t.as_slice(), 10, u64::MAX) {
        Some(n) => Ok(n),
        None => {
            let n = if cs.len() <= 64 {
                cs.len()
            } else {
                64
            };
            let head = crate::text::slice_chars(cs.as_slice(), 0, n);
            let head_s = string_of(head.as_slice());
            let quoted = debug_quoted(head_s.as_str());
            let mut m = chars_of(url);
            extend_str(&mut m, " returned ");
            let qc = chars_of(quoted.as_str());
            extend_chars(&mut m, qc.as_slice());
            extend_str(&mut m, ", which is not a revision number");
            proof {
                assert(head@ == take_chars(text@, 64));
            }
            Err(FetcherError::VersionNotFound(string_of(m.as_slice())))
        },
    }
}

} // verus!
