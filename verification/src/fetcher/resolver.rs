//! Version + platform to download, per distribution.
//!
//! Everything after resolution (download, integrity check, unpack, cache) is
//! shared, so each distribution's contribution is a function from its
//! already-fetched index, a [`VersionSpec`] and a [`Platform`] to a
//! [`Resolved`] download.
//!
//! - Chrome for Testing publishes one manifest covering every version and
//!   platform; a lookup is a search of a list.
//! - ungoogled-chromium publishes three per-OS GitHub release lists, tagged
//!   `<chrome version>-<packaging>`, so an explicit version matches a tag
//!   prefix and availability is answered per platform.
//! - Chromium snapshots are keyed by revision with no version index at all,
//!   so an explicit version is refused rather than served the newest build.

use crate::fetcher::archive::{Archive, ArchiveView};
use crate::fetcher::cache::{
    cft_binary_subpath, cft_subpath, snapshot_binary_subpath, snapshot_subpath,
    ungoogled_binary_subpath, ungoogled_subpath, UNGOOGLED_APP_BUNDLE, UNGOOGLED_APPIMAGE_NAME,
};
use crate::fetcher::distribution::{title_of, Distribution};
use crate::fetcher::error::{result_view, FetcherError, FetcherErrorView};
use crate::fetcher::manifest::{
    channels_unique, ChannelEntry, ChannelsResponse, Download, GitHubAsset, GitHubRelease,
    KnownGoodVersionsResponse, VersionEntry,
};
use crate::fetcher::platform::{cft_key, cft_top, snapshot_dir, snapshot_stem, ungoogled_suffix, Platform};
use crate::fetcher::version::{channel_key, Channel, VersionSpec, VersionSpecView};
use crate::search::{
    filter_map_seq, first_where, is_first, lemma_filter_map_push, lemma_first_where_found,
    lemma_first_where_none, lemma_rev_filter_map_step, rev_filter_map_seq,
};
use crate::text::{
    chars_eq_str, chars_of, contains_char, debug_quoted, debug_str, decimal, ends_with_seq,
    ends_with_str, extend_chars, extend_str, find_char, first_index_of, str_eq, string_of,
    trim_end_char, trim_end_matches_char, u64_to_decimal,
};
use vstd::prelude::*;

verus! {

/// Canonical base of Chromium's continuous-build snapshot bucket.
pub const DEFAULT_SNAPSHOT_BASE: &'static str =
    "https://commondatastorage.googleapis.com/chromium-browser-snapshots";

/// Canonical base of GitHub's REST API.
pub const DEFAULT_GITHUB_API_BASE: &'static str = "https://api.github.com";

/// A download, fully pinned down.
#[derive(Debug, Clone, PartialEq, Eq)]
pub struct Resolved {
    /// Cache directory name and reported build identity: a Chrome version, or
    /// `r<revision>` for snapshots. Always a single plain directory name.
    pub build_id: String,
    /// Where to download it from.
    pub url: String,
    /// How the download is packaged.
    pub archive: Archive,
    /// Executable path relative to the build directory.
    pub binary_subpath: String,
}

/// A [`Resolved`] with its strings taken by value.
pub struct ResolvedView {
    pub build_id: Seq<char>,
    pub url: Seq<char>,
    pub archive: ArchiveView,
    pub binary_subpath: Seq<char>,
}

impl View for Resolved {
    type V = ResolvedView;

    open spec fn view(&self) -> ResolvedView {
        ResolvedView {
            build_id: self.build_id@,
            url: self.url@,
            archive: self.archive@,
            binary_subpath: self.binary_subpath@,
        }
    }
}

/// One selectable build, for menus and listings.
#[derive(Debug, Clone, PartialEq, Eq)]
pub struct Build {
    /// Selector that resolves exactly this build.
    pub spec: VersionSpec,
    /// One-line description, e.g. `151.0.7922.71  (tag 151.0.7922.71-1.1)`.
    pub label: String,
}

/// A [`Build`] taken by value.
pub struct BuildView {
    pub spec: VersionSpecView,
    pub label: Seq<char>,
}

impl View for Build {
    type V = BuildView;

    open spec fn view(&self) -> BuildView {
        BuildView { spec: self.spec@, label: self.label@ }
    }
}

/// The views of a list of builds.
pub open spec fn builds_view(bs: Seq<Build>) -> Seq<BuildView> {
    bs.map_values(|b: Build| b@)
}

// ---------------------------------------------------------------------------
// Names taken from an index
// ---------------------------------------------------------------------------

/// A single, ordinary filename: non-empty, not `.` or `..`, and free of `/`,
/// `\`, `:` and NUL. Index-supplied names end up in filesystem paths, and
/// only such a name cannot move a path out of the directory it is joined to.
pub open spec fn plain_name(n: Seq<char>) -> bool {
    &&& n.len() > 0
    &&& n != "."@
    &&& n != ".."@
    &&& !n.contains('/')
    &&& !n.contains('\\')
    &&& !n.contains(':')
    &&& !n.contains('\0')
}

/// Is `name` a single, ordinary filename?
pub fn is_plain_filename(name: &str) -> (r: bool)
    ensures
        r == plain_name(name@),
{
    let cs = chars_of(name);
    let c = cs.as_slice();
    c.len() > 0 && !chars_eq_str(c, ".") && !chars_eq_str(c, "..") && !contains_char(c, '/')
        && !contains_char(c, '\\') && !contains_char(c, ':') && !contains_char(c, '\0')
}

/// The build id an index offered, or the refusal when it is not a plain
/// directory name.
pub open spec fn checked_build_id_spec(id: Seq<char>, d: Distribution) -> Result<
    Seq<char>,
    FetcherErrorView,
> {
    if plain_name(id) {
        Ok(id)
    } else {
        Err(
            FetcherErrorView::VersionNotFound(
                "the "@ + title_of(d) + " index offered build id "@ + debug_str(id)
                    + ", which is not a plain directory name"@,
            ),
        )
    }
}

/// Accept an index-supplied build id only if it is a plain directory name:
/// it is joined onto the cache root, and the cache-hit check runs before any
/// download.
pub fn checked_build_id(build_id: &str, distribution: Distribution) -> (r: Result<
    String,
    FetcherError,
>)
    ensures
        result_view(r) == checked_build_id_spec(build_id@, distribution),
{
    if is_plain_filename(build_id) {
        Ok(String::from_str(build_id))
    } else {
        let mut m: Vec<char> = Vec::new();
        extend_str(&mut m, "the ");
        extend_str(&mut m, distribution.title());
        extend_str(&mut m, " index offered build id ");
        let q = debug_quoted(build_id);
        extend_str(&mut m, q.as_str());
        extend_str(&mut m, ", which is not a plain directory name");
        Err(FetcherError::VersionNotFound(string_of(m.as_slice())))
    }
}

/// The refusal of a revision selector by a version-indexed distribution.
pub open spec fn revision_unsupported_spec(distribution: Seq<char>, revision: u64) -> FetcherErrorView {
    FetcherErrorView::UnsupportedSelector {
        distribution,
        selector: "revision "@ + decimal(revision as nat),
        reason: "this distribution is indexed by version, not by Chromium revision; use --distribution snapshot to fetch by revision"@,
    }
}

/// The refusal of a revision selector by a version-indexed distribution.
pub fn revision_unsupported(distribution: &'static str, revision: u64) -> (e: FetcherError)
    ensures
        e@ == revision_unsupported_spec(distribution@, revision),
{
    let mut sel: Vec<char> = Vec::new();
    extend_str(&mut sel, "revision ");
    let d = u64_to_decimal(revision);
    extend_chars(&mut sel, d.as_slice());
    FetcherError::UnsupportedSelector {
        distribution,
        selector: string_of(sel.as_slice()),
        reason: String::from_str(
            "this distribution is indexed by version, not by Chromium revision; use --distribution snapshot to fetch by revision",
        ),
    }
}

/// `"the <Channel> channel"`.
pub open spec fn channel_phrase(c: Channel) -> Seq<char> {
    "the "@ + channel_key(c) + " channel"@
}

fn channel_phrase_exec(c: Channel) -> (r: String)
    ensures
        r@ == channel_phrase(c),
{
    let mut v: Vec<char> = Vec::new();
    extend_str(&mut v, "the ");
    extend_str(&mut v, c.as_cft_str());
    extend_str(&mut v, " channel");
    string_of(v.as_slice())
}

// ---------------------------------------------------------------------------
// Chrome for Testing
// ---------------------------------------------------------------------------

/// Selects the download whose platform key is `key`.
pub open spec fn download_for(key: Seq<char>) -> spec_fn(Download) -> bool {
    |d: Download| d.platform@ == key
}

/// Selects the manifest entry whose version is `want`.
pub open spec fn version_is(want: Seq<char>) -> spec_fn(VersionEntry) -> bool {
    |v: VersionEntry| v.version@ == want
}

/// Selects the channel entry keyed `key`.
pub open spec fn channel_keyed(key: Seq<char>) -> spec_fn((String, ChannelEntry)) -> bool {
    |e: (String, ChannelEntry)| e.0@ == key
}

/// A Chrome for Testing download of `version` from `url`.
pub open spec fn cft_resolved_spec(version: Seq<char>, url: Seq<char>, p: Platform) -> Result<
    ResolvedView,
    FetcherErrorView,
> {
    match checked_build_id_spec(version, Distribution::ChromeForTesting) {
        Err(e) => Err(e),
        Ok(id) => Ok(
            ResolvedView {
                build_id: id,
                url,
                archive: ArchiveView::Zip(cft_top(p)),
                binary_subpath: cft_subpath(p),
            },
        ),
    }
}

/// The download a manifest entry of `version` offers for `p`.
pub open spec fn cft_entry_spec(version: Seq<char>, downloads: Seq<Download>, p: Platform) -> Result<
    ResolvedView,
    FetcherErrorView,
> {
    match first_where(downloads, download_for(cft_key(p))) {
        None => Err(FetcherErrorView::UnsupportedPlatform),
        Some(j) => cft_resolved_spec(version, downloads[j].url@, p),
    }
}

/// What resolution against the flat Chrome for Testing manifest answers.
pub open spec fn resolve_cft_spec(vs: Seq<VersionEntry>, spec: VersionSpecView, p: Platform) -> Result<
    ResolvedView,
    FetcherErrorView,
> {
    match spec {
        VersionSpecView::Latest | VersionSpecView::Stable | VersionSpecView::Channel(
            Channel::Stable,
        ) => if vs.len() == 0 {
            Err(FetcherErrorView::VersionNotFound("manifest is empty"@))
        } else {
            cft_entry_spec(vs.last().version@, vs.last().downloads.chrome@, p)
        },
        VersionSpecView::Channel(c) => Err(
            FetcherErrorView::UnsupportedSelector {
                distribution: title_of(Distribution::ChromeForTesting),
                selector: channel_phrase(c),
                reason: "the flat known-good-versions manifest tracks stable only; the non-stable channels resolve through the per-channel manifest"@,
            },
        ),
        VersionSpecView::Revision(rev) => Err(
            revision_unsupported_spec(title_of(Distribution::ChromeForTesting), rev),
        ),
        VersionSpecView::Explicit(want) => match first_where(vs, version_is(want)) {
            None => Err(FetcherErrorView::VersionNotFound(want)),
            Some(i) => cft_entry_spec(vs[i].version@, vs[i].downloads.chrome@, p),
        },
    }
}

/// A Chrome for Testing download of `version` from `url`.
pub fn cft_resolved(version: &str, url: &str, platform: Platform) -> (r: Result<
    Resolved,
    FetcherError,
>)
    ensures
        result_view(r) == cft_resolved_spec(version@, url@, platform),
{
    let build_id = match checked_build_id(version, Distribution::ChromeForTesting) {
        Ok(id) => id,
        Err(e) => return Err(e),
    };
    Ok(
        Resolved {
            build_id,
            url: String::from_str(url),
            archive: Archive::Zip { top_dir: String::from_str(platform.cft_top_dir()) },
            binary_subpath: cft_binary_subpath(platform),
        },
    )
}

/// Position of the first download for platform key `key`.
fn find_download(ds: &Vec<Download>, key: &str) -> (r: Option<usize>)
    ensures
        match r {
            Some(j) => first_where(ds@, download_for(key@)) == Some(j as int),
            None => first_where(ds@, download_for(key@)) is None,
        },
{
    let mut j: usize = 0;
    while j < ds.len()
        invariant
            j <= ds@.len(),
            forall|k: int| 0 <= k < j ==> !(download_for(key@))(#[trigger] ds@[k]),
        decreases ds@.len() - j,
    {
        if str_eq(ds[j].platform.as_str(), key) {
            proof {
                assert(is_first(ds@, download_for(key@), j as int));
                lemma_first_where_found(ds@, download_for(key@), j as int);
            }
            return Some(j);
        }
        j = j + 1;
    }
    proof {
        lemma_first_where_none(ds@, download_for(key@));
    }
    None
}

/// The download a manifest entry offers for `platform`.
fn cft_entry(version: &String, downloads: &Vec<Download>, platform: Platform) -> (r: Result<
    Resolved,
    FetcherError,
>)
    ensures
        result_view(r) == cft_entry_spec(version@, downloads@, platform),
{
    match find_download(downloads, platform.as_cft_str()) {
        None => Err(FetcherError::UnsupportedPlatform),
        Some(j) => cft_resolved(version.as_str(), downloads[j].url.as_str(), platform),
    }
}

/// Position of the first manifest entry of version `want`.
fn find_version(vs: &Vec<VersionEntry>, want: &str) -> (r: Option<usize>)
    ensures
        match r {
            Some(i) => first_where(vs@, version_is(want@)) == Some(i as int),
            None => first_where(vs@, version_is(want@)) is None,
        },
{
    let mut i: usize = 0;
    while i < vs.len()
        invariant
            i <= vs@.len(),
            forall|k: int| 0 <= k < i ==> !(version_is(want@))(#[trigger] vs@[k]),
        decreases vs@.len() - i,
    {
        if str_eq(vs[i].version.as_str(), want) {
            proof {
                assert(is_first(vs@, version_is(want@), i as int));
                lemma_first_where_found(vs@, version_is(want@), i as int);
            }
            return Some(i);
        }
        i = i + 1;
    }
    proof {
        lemma_first_where_none(vs@, version_is(want@));
    }
    None
}

/// Resolve against Chrome for Testing's flat manifest (oldest entry first).
///
/// Latest, stable and `Channel(Stable)` take the newest entry; an explicit
/// version takes the first entry of that version. A non-stable channel and a
/// revision are refused: the flat manifest tracks stable only, and Chrome for
/// Testing is not indexed by revision.
pub fn resolve_cft(manifest: &KnownGoodVersionsResponse, spec: &VersionSpec, platform: Platform) -> (r: Result<
    Resolved,
    FetcherError,
>)
    ensures
        result_view(r) == resolve_cft_spec(manifest.versions@, spec@, platform),
{
    let vs = &manifest.versions;
    match spec {
        VersionSpec::Latest | VersionSpec::Stable | VersionSpec::Channel(Channel::Stable) => {
            if vs.len() == 0 {
                return Err(FetcherError::VersionNotFound(String::from_str("manifest is empty")));
            }
            let last = &vs[vs.len() - 1];
            cft_entry(&last.version, &last.downloads.chrome, platform)
        },
        VersionSpec::Channel(channel) => Err(
            FetcherError::UnsupportedSelector {
                distribution: Distribution::ChromeForTesting.title(),
                selector: channel_phrase_exec(*channel),
                reason: String::from_str(
                    "the flat known-good-versions manifest tracks stable only; the non-stable channels resolve through the per-channel manifest",
                ),
            },
        ),
        VersionSpec::Revision(rev) => Err(
            revision_unsupported(Distribution::ChromeForTesting.title(), *rev),
        ),
        VersionSpec::Explicit(want) => match find_version(vs, want.as_str()) {
            None => Err(FetcherError::VersionNotFound(want.clone())),
            Some(i) => cft_entry(&vs[i].version, &vs[i].downloads.chrome, platform),
        },
    }
}

/// What resolution of a channel against the per-channel manifest answers.
pub open spec fn resolve_cft_channel_spec(
    chs: Seq<(String, ChannelEntry)>,
    c: Channel,
    p: Platform,
) -> Result<ResolvedView, FetcherErrorView> {
    match first_where(chs, channel_keyed(channel_key(c))) {
        None => Err(
            FetcherErrorView::VersionNotFound(
                "channel "@ + channel_key(c) + " not present in manifest"@,
            ),
        ),
        Some(i) => cft_entry_spec(chs[i].1.version@, chs[i].1.downloads.chrome@, p),
    }
}

/// Resolve a release channel against Chrome for Testing's per-channel
/// manifest, whose channel names each occur once.
pub fn resolve_cft_channel(manifest: &ChannelsResponse, channel: Channel, platform: Platform) -> (r: Result<
    Resolved,
    FetcherError,
>)
    requires
        channels_unique(manifest.channels@),
    ensures
        result_view(r) == resolve_cft_channel_spec(manifest.channels@, channel, platform),
{
    let chs = &manifest.channels;
    let key = channel.as_cft_str();
    let mut i: usize = 0;
    while i < chs.len()
        invariant
            i <= chs@.len(),
            chs@ == manifest.channels@,
            key@ == channel_key(channel),
            forall|k: int| 0 <= k < i ==> !(channel_keyed(key@))(#[trigger] chs@[k]),
        decreases chs@.len() - i,
    {
        if str_eq(chs[i].0.as_str(), key) {
            proof {
                assert(is_first(chs@, channel_keyed(key@), i as int));
                lemma_first_where_found(chs@, channel_keyed(key@), i as int);
            }
            let entry = &chs[i].1;
            return cft_entry(&entry.version, &entry.downloads.chrome, platform);
        }
        i = i + 1;
    }
    proof {
        lemma_first_where_none(chs@, channel_keyed(key@));
    }
    let mut m: Vec<char> = Vec::new();
    extend_str(&mut m, "channel ");
    extend_str(&mut m, key);
    extend_str(&mut m, " not present in manifest");
    Err(FetcherError::VersionNotFound(string_of(m.as_slice())))
}

/// Does a manifest entry belong in the listing for platform key `key`?
pub open spec fn cft_listed(key: Seq<char>) -> spec_fn(VersionEntry) -> bool {
    |v: VersionEntry| plain_name(v.version@) && first_where(v.downloads.chrome@, download_for(key))
        is Some
}

/// The listing entry for a manifest entry.
pub open spec fn cft_build(v: VersionEntry) -> BuildView {
    BuildView { spec: VersionSpecView::Explicit(v.version@), label: v.version@ }
}

/// What listing the flat manifest for a platform answers: every entry with a
/// plain version and a download for the platform, newest first.
pub open spec fn list_cft_spec(vs: Seq<VersionEntry>, p: Platform) -> Seq<BuildView> {
    rev_filter_map_seq(vs, cft_listed(cft_key(p)), |v: VersionEntry| cft_build(v))
}

/// Versions the manifest publishes for `platform`, newest first. A version
/// that resolution would refuse is never offered.
pub fn list_cft(manifest: &KnownGoodVersionsResponse, platform: Platform) -> (r: Vec<Build>)
    ensures
        builds_view(r@) == list_cft_spec(manifest.versions@, platform),
{
    let vs = &manifest.versions;
    let key = platform.as_cft_str();
    let ghost pred = cft_listed(key@);
    let ghost f = |v: VersionEntry| cft_build(v);
    let mut out: Vec<Build> = Vec::new();
    let mut i: usize = vs.len();
    proof {
        assert(vs@.subrange(vs@.len() as int, vs@.len() as int) =~= Seq::<VersionEntry>::empty());
        assert(builds_view(out@) =~= Seq::<BuildView>::empty());
    }
    while i > 0
        invariant
            i <= vs@.len(),
            key@ == cft_key(platform),
            pred == cft_listed(key@),
            f == (|v: VersionEntry| cft_build(v)),
            builds_view(out@) == rev_filter_map_seq(vs@.subrange(i as int, vs@.len() as int), pred, f),
        decreases i,
    {
        proof {
            lemma_rev_filter_map_step(vs@, pred, f, i as int);
        }
        let v = &vs[i - 1];
        let listed = is_plain_filename(v.version.as_str()) && match find_download(
            &v.downloads.chrome,
            key,
        ) {
            Some(_) => true,
            None => false,
        };
        if listed {
            let b = Build {
                spec: VersionSpec::Explicit(v.version.clone()),
                label: v.version.clone(),
            };
            let ghost before = out@;
            out.push(b);
            proof {
                assert(builds_view(out@) =~= builds_view(before).push(b@));
            }
        }
        i = i - 1;
    }
    proof {
        assert(vs@.subrange(0, vs@.len() as int) =~= vs@);
    }
    out
}

// ---------------------------------------------------------------------------
// ungoogled-chromium
// ---------------------------------------------------------------------------

/// Neither a draft nor a prerelease.
pub open spec fn published(r: GitHubRelease) -> bool {
    !r.draft && !r.prerelease
}

/// Selects a usable asset for the platform whose asset suffix is `suffix`.
pub open spec fn asset_matches(suffix: Seq<char>) -> spec_fn(GitHubAsset) -> bool {
    |a: GitHubAsset| plain_name(a.name@) && ends_with_seq(a.name@, suffix)
}

/// Position of the release's asset for the platform with asset suffix
/// `suffix`, if it has one.
pub open spec fn asset_index(r: GitHubRelease, suffix: Seq<char>) -> Option<int> {
    first_where(r.assets@, asset_matches(suffix))
}

/// Does the ungoogled tag `tag` name Chrome version `want`? Tags are
/// `<chrome version>-<packaging>`, so either the tag is `want` or `want` is
/// followed in it by `-`.
pub open spec fn tag_matches(tag: Seq<char>, want: Seq<char>) -> bool {
    tag == want || (want.len() < tag.len() && tag.subrange(0, want.len() as int) == want
        && tag[want.len() as int] == '-')
}

/// The Chrome version of an ungoogled tag: everything before the first `-`.
pub open spec fn version_of_tag(tag: Seq<char>) -> Seq<char> {
    if exists|i: int| first_index_of(tag, '-', i) {
        tag.subrange(0, choose|i: int| first_index_of(tag, '-', i))
    } else {
        tag
    }
}

/// An asset name without its `.zip` extension (unchanged when it has none).
pub open spec fn strip_zip(n: Seq<char>) -> Seq<char> {
    if ends_with_seq(n, ".zip"@) {
        n.subrange(0, n.len() - ".zip"@.len())
    } else {
        n
    }
}

/// How a platform's ungoogled asset is packaged; `top` is the Windows zip's
/// top-level directory.
pub open spec fn ungoogled_archive_spec(p: Platform, top: Seq<char>) -> ArchiveView {
    match p {
        Platform::LinuxX64 => ArchiveView::Executable("chrome.AppImage"@),
        Platform::MacX64 | Platform::MacArm64 => ArchiveView::AppBundleDmg("Chromium.app"@),
        Platform::Win32 | Platform::Win64 => ArchiveView::Zip(top),
    }
}

/// Selects the newest usable release for the platform with asset suffix
/// `suffix`.
pub open spec fn latest_release(suffix: Seq<char>) -> spec_fn(GitHubRelease) -> bool {
    |r: GitHubRelease| published(r) && asset_index(r, suffix) is Some
}

/// Selects a published release of Chrome version `want`.
pub open spec fn release_of_version(want: Seq<char>) -> spec_fn(GitHubRelease) -> bool {
    |r: GitHubRelease| published(r) && tag_matches(r.tag_name@, want)
}

/// The download a chosen release offers for `p`.
pub open spec fn ungoogled_from_release(rel: GitHubRelease, p: Platform, repo: Seq<char>) -> Result<
    ResolvedView,
    FetcherErrorView,
> {
    match asset_index(rel, ungoogled_suffix(p)) {
        None => Err(
            FetcherErrorView::AssetNotFound {
                repo,
                tag: rel.tag_name@,
                platform: cft_key(p),
                suffix: ungoogled_suffix(p),
            },
        ),
        Some(k) => {
            let a = rel.assets@[k];
            let top = strip_zip(a.name@);
            match checked_build_id_spec(
                version_of_tag(rel.tag_name@),
                Distribution::UngoogledChromium,
            ) {
                Err(e) => Err(e),
                Ok(id) => Ok(
                    ResolvedView {
                        build_id: id,
                        url: a.browser_download_url@,
                        archive: ungoogled_archive_spec(p, top),
                        binary_subpath: ungoogled_subpath(p, top),
                    },
                ),
            }
        },
    }
}

/// What resolution against one ungoogled repo's release list (newest first)
/// answers.
pub open spec fn resolve_ungoogled_spec(
    rs: Seq<GitHubRelease>,
    spec: VersionSpecView,
    p: Platform,
    repo: Seq<char>,
) -> Result<ResolvedView, FetcherErrorView> {
    match spec {
        VersionSpecView::Latest | VersionSpecView::Stable | VersionSpecView::Channel(
            Channel::Stable,
        ) => match first_where(rs, latest_release(ungoogled_suffix(p))) {
            None => Err(
                FetcherErrorView::VersionNotFound(
                    repo + " publishes no release with a "@ + ungoogled_suffix(p) + " asset"@,
                ),
            ),
            Some(i) => ungoogled_from_release(rs[i], p, repo),
        },
        VersionSpecView::Channel(c) => Err(
            FetcherErrorView::UnsupportedSelector {
                distribution: title_of(Distribution::UngoogledChromium),
                selector: channel_phrase(c),
                reason: "ungoogled-chromium cuts a single release stream per platform and has no channels; use the latest release or pin an explicit version"@,
            },
        ),
        VersionSpecView::Revision(rev) => Err(
            revision_unsupported_spec(title_of(Distribution::UngoogledChromium), rev),
        ),
        VersionSpecView::Explicit(want) => match first_where(rs, release_of_version(want)) {
            None => Err(
                FetcherErrorView::VersionNotFound(want + " (searched "@ + repo + " releases)"@),
            ),
            Some(i) => ungoogled_from_release(rs[i], p, repo),
        },
    }
}

/// Is the release neither a draft nor a prerelease?
pub fn is_published(release: &GitHubRelease) -> (r: bool)
    ensures
        r == published(*release),
{
    !release.draft && !release.prerelease
}

/// Position of the release's asset ending in `suffix`, skipping any asset
/// whose name is not a plain filename.
pub fn asset_for(release: &GitHubRelease, suffix: &str) -> (r: Option<usize>)
    ensures
        match r {
            Some(k) => asset_index(*release, suffix@) == Some(k as int),
            None => asset_index(*release, suffix@) is None,
        },
{
    let assets = &release.assets;
    let mut k: usize = 0;
    while k < assets.len()
        invariant
            k <= assets@.len(),
            assets@ == release.assets@,
            forall|j: int| 0 <= j < k ==> !(asset_matches(suffix@))(#[trigger] assets@[j]),
        decreases assets@.len() - k,
    {
        let name = assets[k].name.as_str();
        let nc = chars_of(name);
        if is_plain_filename(name) && ends_with_str(nc.as_slice(), suffix) {
            proof {
                assert(is_first(assets@, asset_matches(suffix@), k as int));
                lemma_first_where_found(assets@, asset_matches(suffix@), k as int);
            }
            return Some(k);
        }
        k = k + 1;
    }
    proof {
        lemma_first_where_none(assets@, asset_matches(suffix@));
    }
    None
}

/// Does the ungoogled tag `tag` name Chrome version `want`?
pub fn tag_matches_version(tag: &str, want: &str) -> (r: bool)
    ensures
        r == tag_matches(tag@, want@),
{
    let t = chars_of(tag);
    let w = chars_of(want);
    if crate::text::chars_eq(t.as_slice(), w.as_slice()) {
        return true;
    }
    if w.len() < t.len() && crate::text::starts_with(t.as_slice(), w.as_slice()) {
        t[w.len()] == '-'
    } else {
        false
    }
}

/// The Chrome version carried by an ungoogled tag.
pub fn chrome_version_of_tag(tag: &str) -> (r: String)
    ensures
        r@ == version_of_tag(tag@),
{
    let t = chars_of(tag);
    match find_char(t.as_slice(), '-') {
        Some(i) => {
            proof {
                assert forall|k: int| first_index_of(tag@, '-', k) implies k == i by {
                    crate::text::lemma_first_index_unique(tag@, '-', i as int, k);
                }
            }
            let head = crate::text::slice_chars(t.as_slice(), 0, i);
            string_of(head.as_slice())
        },
        None => {
            proof {
                assert forall|k: int| !first_index_of(tag@, '-', k) by {
                    if first_index_of(tag@, '-', k) {
                        assert(tag@[k] == '-');
                    }
                }
            }
            String::from_str(tag)
        },
    }
}

/// An asset name without its `.zip` extension.
fn strip_zip_exec(name: &str) -> (r: String)
    ensures
        r@ == strip_zip(name@),
{
    let n = chars_of(name);
    if ends_with_str(n.as_slice(), ".zip") {
        let z = chars_of(".zip");
        let head = crate::text::slice_chars(n.as_slice(), 0, n.len() - z.len());
        string_of(head.as_slice())
    } else {
        String::from_str(name)
    }
}

/// How a platform's ungoogled asset is packaged.
pub fn ungoogled_archive(platform: Platform, archive_top: &str) -> (r: Archive)
    ensures
        r@ == ungoogled_archive_spec(platform, archive_top@),
{
    match platform {
        Platform::LinuxX64 => Archive::Executable {
            file_name: String::from_str(UNGOOGLED_APPIMAGE_NAME),
        },
        Platform::MacX64 | Platform::MacArm64 => Archive::AppBundleDmg {
            app_dir: String::from_str(UNGOOGLED_APP_BUNDLE),
        },
        Platform::Win32 | Platform::Win64 => Archive::Zip { top_dir: String::from_str(archive_top) },
    }
}

/// The download a chosen release offers for `platform`.
fn ungoogled_from(release: &GitHubRelease, platform: Platform, repo: &str) -> (r: Result<
    Resolved,
    FetcherError,
>)
    ensures
        result_view(r) == ungoogled_from_release(*release, platform, repo@),
{
    let suffix = platform.ungoogled_asset_suffix();
    let k = match asset_for(release, suffix) {
        Some(k) => k,
        None => {
            return Err(
                FetcherError::AssetNotFound {
                    repo: String::from_str(repo),
                    tag: release.tag_name.clone(),
                    platform: platform.as_cft_str(),
                    suffix,
                },
            );
        },
    };
    let asset = &release.assets[k];
    let top = strip_zip_exec(asset.name.as_str());
    let version = chrome_version_of_tag(release.tag_name.as_str());
    let build_id = match checked_build_id(version.as_str(), Distribution::UngoogledChromium) {
        Ok(id) => id,
        Err(e) => return Err(e),
    };
    Ok(
        Resolved {
            build_id,
            url: asset.browser_download_url.clone(),
            archive: ungoogled_archive(platform, top.as_str()),
            binary_subpath: ungoogled_binary_subpath(platform, top.as_str()),
        },
    )
}

/// Resolve against one per-OS ungoogled-chromium repo's release list, newest
/// first. Drafts and prereleases are skipped, and for latest a release only
/// counts if it carries an asset for `platform`. Channels and revisions are
/// refused: ungoogled-chromium publishes neither.
#[verifier::loop_isolation(false)]
pub fn resolve_ungoogled(
    releases: &[GitHubRelease],
    spec: &VersionSpec,
    platform: Platform,
    repo: &str,
) -> (r: Result<Resolved, FetcherError>)
    ensures
        result_view(r) == resolve_ungoogled_spec(releases@, spec@, platform, repo@),
{
    let suffix = platform.ungoogled_asset_suffix();
    match spec {
        VersionSpec::Latest | VersionSpec::Stable | VersionSpec::Channel(Channel::Stable) => {
            let mut i: usize = 0;
            while i < releases.len()
                invariant
                    i <= releases@.len(),
                    suffix@ == ungoogled_suffix(platform),
                    forall|j: int|
                        0 <= j < i ==> !(latest_release(suffix@))(#[trigger] releases@[j]),
                decreases releases@.len() - i,
            {
                let r = &releases[i];
                let ok = is_published(r) && match asset_for(r, suffix) {
                    Some(_) => true,
                    None => false,
                };
                if ok {
                    proof {
                        assert(is_first(releases@, latest_release(suffix@), i as int));
                        lemma_first_where_found(releases@, latest_release(suffix@), i as int);
                    }
                    return ungoogled_from(r, platform, repo);
                }
                i = i + 1;
            }
            proof {
                lemma_first_where_none(releases@, latest_release(suffix@));
            }
            let mut m = chars_of(repo);
            extend_str(&mut m, " publishes no release with a ");
            extend_str(&mut m, suffix);
            extend_str(&mut m, " asset");
            Err(FetcherError::VersionNotFound(string_of(m.as_slice())))
        },
        VersionSpec::Channel(channel) => Err(
            FetcherError::UnsupportedSelector {
                distribution: Distribution::UngoogledChromium.title(),
                selector: channel_phrase_exec(*channel),
                reason: String::from_str(
                    "ungoogled-chromium cuts a single release stream per platform and has no channels; use the latest release or pin an explicit version",
                ),
            },
        ),
        VersionSpec::Revision(rev) => Err(
            revision_unsupported(Distribution::UngoogledChromium.title(), *rev),
        ),
        VersionSpec::Explicit(want) => {
            let mut i: usize = 0;
            while i < releases.len()
                invariant
                    i <= releases@.len(),
                    forall|j: int|
                        0 <= j < i ==> !(release_of_version(want@))(#[trigger] releases@[j]),
                decreases releases@.len() - i,
            {
                let r = &releases[i];
                if is_published(r) && tag_matches_version(r.tag_name.as_str(), want.as_str()) {
                    proof {
                        assert(is_first(releases@, release_of_version(want@), i as int));
                        lemma_first_where_found(releases@, release_of_version(want@), i as int);
                    }
                    return ungoogled_from(r, platform, repo);
                }
                i = i + 1;
            }
            proof {
                lemma_first_where_none(releases@, release_of_version(want@));
            }
            let mut m = chars_of(want.as_str());
            extend_str(&mut m, " (searched ");
            extend_str(&mut m, repo);
            extend_str(&mut m, " releases)");
            Err(FetcherError::VersionNotFound(string_of(m.as_slice())))
        },
    }
}

/// Does a release belong in the listing for the platform with asset suffix
/// `suffix`?
pub open spec fn ungoogled_listed(suffix: Seq<char>) -> spec_fn(GitHubRelease) -> bool {
    |r: GitHubRelease|
        published(r) && plain_name(version_of_tag(r.tag_name@)) && asset_index(r, suffix) is Some
}

/// The listing entry for a release.
pub open spec fn ungoogled_build(r: GitHubRelease) -> BuildView {
    BuildView {
        spec: VersionSpecView::Explicit(version_of_tag(r.tag_name@)),
        label: version_of_tag(r.tag_name@) + "  (tag "@ + r.tag_name@ + ")"@,
    }
}

/// What listing a release list for a platform answers: every published
/// release with a plain version and an asset for the platform, in the list's
/// own (newest-first) order.
pub open spec fn list_ungoogled_spec(rs: Seq<GitHubRelease>, p: Platform) -> Seq<BuildView> {
    filter_map_seq(rs, ungoogled_listed(ungoogled_suffix(p)), |r: GitHubRelease| ungoogled_build(r))
}

/// Releases with a build for `platform`, newest first.
pub fn list_ungoogled(releases: &[GitHubRelease], platform: Platform) -> (r: Vec<Build>)
    ensures
        builds_view(r@) == list_ungoogled_spec(releases@, platform),
{
    let suffix = platform.ungoogled_asset_suffix();
    let ghost pred = ungoogled_listed(suffix@);
    let ghost f = |r: GitHubRelease| ungoogled_build(r);
    let mut out: Vec<Build> = Vec::new();
    let mut i: usize = 0;
    proof {
        assert(releases@.subrange(0, 0) =~= Seq::<GitHubRelease>::empty());
        assert(builds_view(out@) =~= Seq::<BuildView>::empty());
    }
    while i < releases.len()
        invariant
            i <= releases@.len(),
            suffix@ == ungoogled_suffix(platform),
            pred == ungoogled_listed(suffix@),
            f == (|r: GitHubRelease| ungoogled_build(r)),
            builds_view(out@) == filter_map_seq(releases@.subrange(0, i as int), pred, f),
        decreases releases@.len() - i,
    {
        proof {
            lemma_filter_map_push(releases@, pred, f, i as int);
        }
        let r = &releases[i];
        let version = chrome_version_of_tag(r.tag_name.as_str());
        let listed = is_published(r) && is_plain_filename(version.as_str()) && match asset_for(
            r,
            suffix,
        ) {
            Some(_) => true,
            None => false,
        };
        if listed {
            let mut label = chars_of(version.as_str());
            extend_str(&mut label, "  (tag ");
            extend_str(&mut label, r.tag_name.as_str());
            extend_str(&mut label, ")");
            let b = Build { spec: VersionSpec::Explicit(version), label: string_of(label.as_slice()) };
            let ghost before = out@;
            out.push(b);
            proof {
                assert(builds_view(out@) =~= builds_view(before).push(b@));
            }
        }
        i = i + 1;
    }
    proof {
        assert(releases@.subrange(0, releases@.len() as int) =~= releases@);
    }
    out
}

// ---------------------------------------------------------------------------
// Chromium snapshots
// ---------------------------------------------------------------------------

/// Which revision a selector picks from the snapshot bucket: `None` for
/// whatever `LAST_CHANGE` names, or the refusal of a selector the bucket
/// cannot answer.
pub open spec fn snapshot_revision_spec(spec: VersionSpecView) -> Result<
    Option<u64>,
    FetcherErrorView,
> {
    match spec {
        VersionSpecView::Latest | VersionSpecView::Stable | VersionSpecView::Channel(
            Channel::Stable,
        ) => Ok(None),
        VersionSpecView::Revision(rev) => Ok(Some(rev)),
        VersionSpecView::Channel(c) => Err(
            FetcherErrorView::UnsupportedSelector {
                distribution: title_of(Distribution::ChromiumSnapshot),
                selector: channel_phrase(c),
                reason: "the snapshot bucket is a continuous per-commit build with no channels; use the latest snapshot or pin a revision"@,
            },
        ),
        VersionSpecView::Explicit(v) => Err(
            FetcherErrorView::UnsupportedSelector {
                distribution: title_of(Distribution::ChromiumSnapshot),
                selector: "version "@ + v,
                reason: "snapshots are keyed by revision, not version, and the bucket publishes no version index \u{2014} there is nothing to look "@
                    + v
                    + " up in. Pin a revision instead (VersionSpec::Revision / --revision), or take the newest snapshot with --version latest"@,
            },
        ),
    }
}

/// Which revision a selector picks from the snapshot bucket. An explicit
/// version and a release channel are refused: the bucket publishes neither a
/// version index nor channels, and answering with the newest snapshot would
/// hand back a different browser than the one asked for.
pub fn snapshot_revision_for(spec: &VersionSpec) -> (r: Result<Option<u64>, FetcherError>)
    ensures
        result_view(r) == snapshot_revision_spec(spec@),
{
    match spec {
        VersionSpec::Latest | VersionSpec::Stable | VersionSpec::Channel(Channel::Stable) => Ok(
            None,
        ),
        VersionSpec::Revision(rev) => Ok(Some(*rev)),
        VersionSpec::Channel(channel) => Err(
            FetcherError::UnsupportedSelector {
                distribution: Distribution::ChromiumSnapshot.title(),
                selector: channel_phrase_exec(*channel),
                reason: String::from_str(
                    "the snapshot bucket is a continuous per-commit build with no channels; use the latest snapshot or pin a revision",
                ),
            },
        ),
        VersionSpec::Explicit(version) => {
            let mut sel: Vec<char> = Vec::new();
            extend_str(&mut sel, "version ");
            extend_str(&mut sel, version.as_str());
            let mut reason: Vec<char> = Vec::new();
            extend_str(
                &mut reason,
                "snapshots are keyed by revision, not version, and the bucket publishes no version index \u{2014} there is nothing to look ",
            );
            extend_str(&mut reason, version.as_str());
            extend_str(
                &mut reason,
                " up in. Pin a revision instead (VersionSpec::Revision / --revision), or take the newest snapshot with --version latest",
            );
            Err(
                FetcherError::UnsupportedSelector {
                    distribution: Distribution::ChromiumSnapshot.title(),
                    selector: string_of(sel.as_slice()),
                    reason: string_of(reason.as_slice()),
                },
            )
        },
    }
}

/// The download of snapshot `revision` for `p` from the bucket at `base`:
/// `<base>/<platform dir>/<revision>/<stem>.zip`, unpacking to `<stem>/`.
pub open spec fn resolve_snapshot_spec(base: Seq<char>, revision: u64, p: Platform) -> ResolvedView {
    ResolvedView {
        build_id: "r"@ + decimal(revision as nat),
        url: trim_end_char(base, '/') + "/"@ + snapshot_dir(p) + "/"@ + decimal(revision as nat)
            + "/"@ + snapshot_stem(p) + ".zip"@,
        archive: ArchiveView::Zip(snapshot_stem(p)),
        binary_subpath: snapshot_subpath(p),
    }
}

/// The download of a known snapshot revision. The build id carries an `r`
/// prefix so a revision can never collide with a version directory.
pub fn resolve_snapshot(base: &str, revision: u64, platform: Platform) -> (r: Resolved)
    ensures
        r@ == resolve_snapshot_spec(base@, revision, platform),
{
    let dir = platform.as_snapshot_str();
    let stem = platform.snapshot_archive_stem();
    let digits = u64_to_decimal(revision);
    let mut id: Vec<char> = Vec::new();
    extend_str(&mut id, "r");
    extend_chars(&mut id, digits.as_slice());
    let mut url = trim_end_matches_char(base, '/');
    extend_str(&mut url, "/");
    extend_str(&mut url, dir);
    extend_str(&mut url, "/");
    extend_chars(&mut url, digits.as_slice());
    extend_str(&mut url, "/");
    extend_str(&mut url, stem);
    extend_str(&mut url, ".zip");
    Resolved {
        build_id: string_of(id.as_slice()),
        url: string_of(url.as_slice()),
        archive: Archive::Zip { top_dir: String::from_str(stem) },
        binary_subpath: snapshot_binary_subpath(platform),
    }
}

} // verus!
