//! The [`Fetcher`] entry point: configuration, and the decisions of a fetch.
//!
//! A fetch resolves a `(distribution, version, platform)` triple against the
//! distribution's index, downloads the archive beside its build directory,
//! optionally checks its SHA256, unpacks it into a per-fetch staging
//! directory, promotes that with one rename and hands back the path of the
//! executable; a build already cached and runnable is returned at once.
//!
//! The waiting (network, filesystem) is done by the program around the
//! library. Every decision is [`Fetcher::step`]: from the fetch's state and
//! what just happened, to its next state, the progress phase to report and the
//! next piece of outside work.

use crate::fetcher::archive::{tmp_ext, Archive};
use crate::fetcher::cache::{build_dir, build_dir_spec, join_path, join_spec, with_suffix};
use crate::fetcher::distribution::{ungoogled_repo_of, Distribution};
use crate::fetcher::error::{result_view, FetcherError, FetcherErrorView};
use crate::fetcher::manifest::{
    channels_unique, github_releases_url, github_releases_url_spec, last_change_revision,
    last_change_revision_spec, last_change_url, last_change_url_spec, ChannelsResponse,
    GitHubRelease, KnownGoodVersionsResponse,
};
use crate::fetcher::platform::{snapshot_dir, Platform};
use crate::fetcher::resolver::{
    resolve_cft, resolve_cft_channel, resolve_cft_channel_spec, resolve_cft_spec,
    resolve_snapshot, resolve_snapshot_spec, resolve_ungoogled, resolve_ungoogled_spec,
    snapshot_revision_for, snapshot_revision_spec, Resolved, ResolvedView,
    DEFAULT_GITHUB_API_BASE, DEFAULT_SNAPSHOT_BASE,
};
use crate::fetcher::version::{Channel, VersionSpec, VersionSpecView};
use crate::text::{opt_chars, chars_of, eq_ignore_ascii_case, eq_ignore_case_seq, extend_str, string_of};
use vstd::prelude::*;

verus! {

/// Chrome for Testing's flat version manifest (stable history).
pub const DEFAULT_CFT_URL: &'static str =
    "https://googlechromelabs.github.io/chrome-for-testing/known-good-versions-with-downloads.json";

/// Chrome for Testing's per-channel manifest (Beta, Dev, Canary).
pub const DEFAULT_CFT_CHANNELS_URL: &'static str =
    "https://googlechromelabs.github.io/chrome-for-testing/last-known-good-versions-with-downloads.json";

/// Lifecycle phase of an in-flight fetch.
#[derive(Debug, Clone, Copy, PartialEq, Eq, Hash, Structural)]
pub enum FetcherPhase {
    /// Resolving version + platform against the index.
    Resolving,
    /// Streaming the archive.
    Downloading,
    /// Unpacking the downloaded archive.
    Extracting,
    /// Verifying integrity (SHA256, executable bit).
    Verifying,
    /// All work complete; the binary is available.
    Done,
}

/// Progress snapshot emitted by an in-flight fetch.
#[derive(Debug, Clone, Copy, PartialEq, Eq, Structural)]
pub struct FetcherProgress {
    /// Bytes written so far for the current phase.
    pub downloaded: u64,
    /// Total bytes expected for the current phase, when known.
    pub total: Option<u64>,
    /// Current phase.
    pub phase: FetcherPhase,
}

/// Chromium binary downloader configuration.
///
/// Defaults to Chrome for Testing, the latest version, the host platform and
/// the OS cache directory.
#[derive(Debug)]
pub struct Fetcher {
    /// Cache root; `None` for the OS default.
    pub cache_dir: Option<String>,
    /// Which distribution to fetch.
    pub distribution: Distribution,
    /// Which build to fetch.
    pub version: VersionSpec,
    /// Target platform; `None` for the host's.
    pub platform: Option<Platform>,
    /// Override of the selected distribution's index endpoint.
    pub manifest_url: Option<String>,
    /// SHA256 (hex, either case) the downloaded archive must match.
    pub expected_sha256: Option<String>,
}

impl Fetcher {
    /// A fetcher with the default options: Chrome for Testing, latest
    /// version, default cache directory, host platform, no index override, no
    /// integrity pin.
    pub fn new() -> (r: Self)
        ensures
            r.cache_dir is None,
            r.distribution == Distribution::ChromeForTesting,
            r.version@ == VersionSpecView::Latest,
            r.platform is None,
            r.manifest_url is None,
            r.expected_sha256 is None,
    {
        Fetcher {
            cache_dir: None,
            distribution: Distribution::ChromeForTesting,
            version: VersionSpec::Latest,
            platform: None,
            manifest_url: None,
            expected_sha256: None,
        }
    }

    /// Pick which Chromium build to fetch.
    pub fn distribution(self, distribution: Distribution) -> (r: Self)
        ensures
            r == (Fetcher { distribution, ..self }),
    {
        Fetcher { distribution, ..self }
    }

    /// Override the cache directory root.
    pub fn cache_dir(self, dir: String) -> (r: Self)
        ensures
            r == (Fetcher { cache_dir: Some(dir), ..self }),
    {
        Fetcher { cache_dir: Some(dir), ..self }
    }

    /// Pick a version selector.
    pub fn version(self, spec: VersionSpec) -> (r: Self)
        ensures
            r == (Fetcher { version: spec, ..self }),
    {
        Fetcher { version: spec, ..self }
    }

    /// Override the target platform.
    pub fn platform(self, p: Platform) -> (r: Self)
        ensures
            r == (Fetcher { platform: Some(p), ..self }),
    {
        Fetcher { platform: Some(p), ..self }
    }

    /// Override the index endpoint of the selected distribution: the manifest
    /// URL for Chrome for Testing, the API base for ungoogled-chromium, the
    /// bucket base for snapshots.
    pub fn manifest_url(self, url: String) -> (r: Self)
        ensures
            r == (Fetcher { manifest_url: Some(url), ..self }),
    {
        Fetcher { manifest_url: Some(url), ..self }
    }

    /// Require the downloaded archive to have this SHA256 before unpacking.
    pub fn expected_sha256(self, sha256: String) -> (r: Self)
        ensures
            r == (Fetcher { expected_sha256: Some(sha256), ..self }),
    {
        Fetcher { expected_sha256: Some(sha256), ..self }
    }
}

/// A fetcher whose progress goes to a callback.
pub struct ProgressFetcher<F: Fn(FetcherProgress)> {
    /// The fetch's configuration.
    pub fetcher: Fetcher,
    /// Receives each progress snapshot.
    pub callback: F,
}

impl Fetcher {
    /// Register a callback that receives a snapshot at each phase change and
    /// during the download.
    pub fn on_progress<F: Fn(FetcherProgress)>(self, cb: F) -> (r: ProgressFetcher<F>)
        ensures
            r.fetcher == self,
            r.callback == cb,
    {
        ProgressFetcher { fetcher: self, callback: cb }
    }
}

impl<F: Fn(FetcherProgress)> ProgressFetcher<F> {
    /// Hand the callback a snapshot: `phase`, with `downloaded` of `total`
    /// bytes.
    pub fn emit(&self, phase: FetcherPhase, downloaded: u64, total: Option<u64>)
        requires
            forall|p: FetcherProgress| self.callback.requires((p,)),
        ensures
            self.callback.ensures((FetcherProgress { downloaded, total, phase },), ()),
    {
        (self.callback)(FetcherProgress { downloaded, total, phase })
    }
}

impl Default for Fetcher {
    fn default() -> (r: Self)
        ensures
            r.cache_dir is None,
            r.distribution == Distribution::ChromeForTesting,
            r.version@ == VersionSpecView::Latest,
            r.platform is None,
            r.manifest_url is None,
            r.expected_sha256 is None,
    {
        Fetcher::new()
    }
}

// ---------------------------------------------------------------------------
// Which index to ask
// ---------------------------------------------------------------------------

/// The index a fetch consults, and where it lives.
#[derive(Debug)]
pub enum IndexRequest {
    /// Chrome for Testing's flat manifest.
    CftManifest { url: String },
    /// Chrome for Testing's per-channel manifest, for a non-stable channel.
    CftChannels { url: String, channel: Channel },
    /// One ungoogled-chromium repo's release list.
    GitHubReleases { url: String, repo: &'static str },
    /// The snapshot bucket's `LAST_CHANGE` for the platform.
    SnapshotLastChange { url: String, base: String },
    /// A pinned snapshot revision: nothing to fetch.
    SnapshotRevision { base: String, revision: u64 },
}

/// An [`IndexRequest`] taken by value.
pub enum IndexRequestView {
    CftManifest { url: Seq<char> },
    CftChannels { url: Seq<char>, channel: Channel },
    GitHubReleases { url: Seq<char>, repo: Seq<char> },
    SnapshotLastChange { url: Seq<char>, base: Seq<char> },
    SnapshotRevision { base: Seq<char>, revision: u64 },
}

impl View for IndexRequest {
    type V = IndexRequestView;

    open spec fn view(&self) -> IndexRequestView {
        match self {
            IndexRequest::CftManifest { url } => IndexRequestView::CftManifest { url: url@ },
            IndexRequest::CftChannels { url, channel } => IndexRequestView::CftChannels {
                url: url@,
                channel: *channel,
            },
            IndexRequest::GitHubReleases { url, repo } => IndexRequestView::GitHubReleases {
                url: url@,
                repo: repo@,
            },
            IndexRequest::SnapshotLastChange { url, base } => IndexRequestView::SnapshotLastChange {
                url: url@,
                base: base@,
            },
            IndexRequest::SnapshotRevision { base, revision } =>
                IndexRequestView::SnapshotRevision { base: base@, revision: *revision },
        }
    }
}

/// The configured index endpoint, or `default` when none is set.
pub open spec fn index_base_spec(f: Fetcher, default: Seq<char>) -> Seq<char> {
    match f.manifest_url {
        Some(u) => u@,
        None => default,
    }
}

/// Is `c` one of the channels the flat manifest does not track?
pub open spec fn non_stable(c: Channel) -> bool {
    c != Channel::Stable
}

/// Which index a fetch for `p` consults; a snapshot selector the bucket
/// cannot answer is refused here, before any network call.
pub open spec fn index_request_spec(f: Fetcher, p: Platform) -> Result<
    IndexRequestView,
    FetcherErrorView,
> {
    match f.distribution {
        Distribution::ChromeForTesting => match f.version@ {
            VersionSpecView::Channel(c) => if non_stable(c) {
                Ok(
                    IndexRequestView::CftChannels {
                        url: index_base_spec(f, DEFAULT_CFT_CHANNELS_URL@),
                        channel: c,
                    },
                )
            } else {
                Ok(IndexRequestView::CftManifest { url: index_base_spec(f, DEFAULT_CFT_URL@) })
            },
            _ => Ok(IndexRequestView::CftManifest { url: index_base_spec(f, DEFAULT_CFT_URL@) }),
        },
        Distribution::UngoogledChromium => Ok(
            IndexRequestView::GitHubReleases {
                url: github_releases_url_spec(
                    index_base_spec(f, DEFAULT_GITHUB_API_BASE@),
                    ungoogled_repo_of(p),
                ),
                repo: ungoogled_repo_of(p),
            },
        ),
        Distribution::ChromiumSnapshot => {
            let base = index_base_spec(f, DEFAULT_SNAPSHOT_BASE@);
            match snapshot_revision_spec(f.version@) {
                Err(e) => Err(e),
                Ok(Some(rev)) => Ok(IndexRequestView::SnapshotRevision { base, revision: rev }),
                Ok(None) => Ok(
                    IndexRequestView::SnapshotLastChange {
                        url: last_change_url_spec(base, snapshot_dir(p)),
                        base,
                    },
                ),
            }
        },
    }
}

/// What an index answered, as decoded around the library.
#[derive(Debug)]
pub enum IndexPayload {
    /// Chrome for Testing's flat manifest.
    Cft(KnownGoodVersionsResponse),
    /// Chrome for Testing's per-channel manifest.
    Channels(ChannelsResponse),
    /// A GitHub release list.
    Releases(Vec<GitHubRelease>),
    /// A plain-text body (`LAST_CHANGE`).
    Text(String),
}

/// Is `payload` the kind of answer `request` asks for?
pub open spec fn payload_fits(request: IndexRequestView, payload: IndexPayload) -> bool {
    match request {
        IndexRequestView::CftManifest { .. } => payload is Cft,
        IndexRequestView::CftChannels { .. } => payload matches IndexPayload::Channels(m)
            && channels_unique(m.channels@),
        IndexRequestView::GitHubReleases { .. } => payload is Releases,
        IndexRequestView::SnapshotLastChange { .. } => payload is Text,
        IndexRequestView::SnapshotRevision { .. } => true,
    }
}

/// The download an index answer resolves to.
pub open spec fn resolve_index_spec(
    f: Fetcher,
    request: IndexRequestView,
    payload: IndexPayload,
    p: Platform,
) -> Result<ResolvedView, FetcherErrorView> {
    match request {
        IndexRequestView::CftManifest { .. } => match payload {
            IndexPayload::Cft(m) => resolve_cft_spec(m.versions@, f.version@, p),
            _ => Err(FetcherErrorView::UnsupportedPlatform),
        },
        IndexRequestView::CftChannels { channel, .. } => match payload {
            IndexPayload::Channels(m) => resolve_cft_channel_spec(m.channels@, channel, p),
            _ => Err(FetcherErrorView::UnsupportedPlatform),
        },
        IndexRequestView::GitHubReleases { repo, .. } => match payload {
            IndexPayload::Releases(rs) => resolve_ungoogled_spec(rs@, f.version@, p, repo),
            _ => Err(FetcherErrorView::UnsupportedPlatform),
        },
        IndexRequestView::SnapshotLastChange { url, base } => match payload {
            IndexPayload::Text(t) => match last_change_revision_spec(t@) {
                Some(rev) => Ok(resolve_snapshot_spec(base, rev as u64, p)),
                None => Err(
                    FetcherErrorView::VersionNotFound(
                        crate::fetcher::manifest::last_change_refusal(url, t@),
                    ),
                ),
            },
            _ => Err(FetcherErrorView::UnsupportedPlatform),
        },
        IndexRequestView::SnapshotRevision { base, revision } => Ok(
            resolve_snapshot_spec(base, revision, p),
        ),
    }
}

impl Fetcher {
    /// The configured index endpoint, or `default` when none was set.
    pub fn index_base(&self, default: &str) -> (r: String)
        ensures
            r@ == index_base_spec(*self, default@),
    {
        match &self.manifest_url {
            Some(u) => u.clone(),
            None => String::from_str(default),
        }
    }

    /// Which index a fetch for `platform` consults.
    pub fn index_request(&self, platform: Platform) -> (r: Result<IndexRequest, FetcherError>)
        ensures
            result_view(r) == index_request_spec(*self, platform),
    {
        match self.distribution {
            Distribution::ChromeForTesting => match &self.version {
                VersionSpec::Channel(c) => {
                    if *c != Channel::Stable {
                        Ok(
                            IndexRequest::CftChannels {
                                url: self.index_base(DEFAULT_CFT_CHANNELS_URL),
                                channel: *c,
                            },
                        )
                    } else {
                        Ok(IndexRequest::CftManifest { url: self.index_base(DEFAULT_CFT_URL) })
                    }
                },
                _ => Ok(IndexRequest::CftManifest { url: self.index_base(DEFAULT_CFT_URL) }),
            },
            Distribution::UngoogledChromium => {
                let repo = Distribution::ungoogled_repo(platform);
                let api_base = self.index_base(DEFAULT_GITHUB_API_BASE);
                Ok(
                    IndexRequest::GitHubReleases {
                        url: github_releases_url(api_base.as_str(), repo),
                        repo,
                    },
                )
            },
            Distribution::ChromiumSnapshot => {
                let base = self.index_base(DEFAULT_SNAPSHOT_BASE);
                match snapshot_revision_for(&self.version) {
                    Err(e) => Err(e),
                    Ok(Some(rev)) => Ok(IndexRequest::SnapshotRevision { base, revision: rev }),
                    Ok(None) => {
                        let url = last_change_url(base.as_str(), platform.as_snapshot_str());
                        Ok(IndexRequest::SnapshotLastChange { url, base })
                    },
                }
            },
        }
    }

    /// The download an index answer resolves to.
    pub fn resolve_index(&self, request: &IndexRequest, payload: &IndexPayload, platform: Platform) -> (r: Result<
        Resolved,
        FetcherError,
    >)
        requires
            payload_fits(request@, *payload),
        ensures
            result_view(r) == resolve_index_spec(*self, request@, *payload, platform),
    {
        match request {
            IndexRequest::CftManifest { .. } => match payload {
                IndexPayload::Cft(m) => resolve_cft(m, &self.version, platform),
                _ => Err(FetcherError::UnsupportedPlatform),
            },
            IndexRequest::CftChannels { channel, .. } => match payload {
                IndexPayload::Channels(m) => resolve_cft_channel(m, *channel, platform),
                _ => Err(FetcherError::UnsupportedPlatform),
            },
            IndexRequest::GitHubReleases { repo, .. } => match payload {
                IndexPayload::Releases(rs) => resolve_ungoogled(
                    rs.as_slice(),
                    &self.version,
                    platform,
                    repo,
                ),
                _ => Err(FetcherError::UnsupportedPlatform),
            },
            IndexRequest::SnapshotLastChange { url, base } => match payload {
                IndexPayload::Text(t) => match last_change_revision(url.as_str(), t.as_str()) {
                    Ok(rev) => Ok(resolve_snapshot(base.as_str(), rev, platform)),
                    Err(e) => Err(e),
                },
                _ => Err(FetcherError::UnsupportedPlatform),
            },
            IndexRequest::SnapshotRevision { base, revision } => Ok(
                resolve_snapshot(base.as_str(), *revision, platform),
            ),
        }
    }
}

// ---------------------------------------------------------------------------
// Integrity
// ---------------------------------------------------------------------------

/// Lowercase hex digit of a value below 16.
pub open spec fn hex_digit(v: nat) -> char {
    if v < 10 {
        (v + 0x30) as char
    } else {
        (v - 10 + 0x61) as char
    }
}

/// Lowercase hex of `bytes`, two digits per byte, high nibble first.
pub open spec fn hex_spec(bytes: Seq<u8>) -> Seq<char>
    decreases bytes.len(),
{
    if bytes.len() == 0 {
        Seq::empty()
    } else {
        let b = bytes.last();
        hex_spec(bytes.drop_last()).push(hex_digit((b / 16) as nat)).push(
            hex_digit((b % 16) as nat),
        )
    }
}

fn hex_char(v: u8) -> (c: char)
    requires
        v < 16,
    ensures
        c == hex_digit(v as nat),
{
    if v < 10 {
        (v + 0x30) as char
    } else {
        (v - 10 + 0x61) as char
    }
}

/// Encode bytes as lowercase hex.
pub fn hex_encode(bytes: &[u8]) -> (r: String)
    ensures
        r@ == hex_spec(bytes@),
{
    let mut out: Vec<char> = Vec::new();
    let mut i: usize = 0;
    while i < bytes.len()
        invariant
            i <= bytes@.len(),
            out@ == hex_spec(bytes@.subrange(0, i as int)),
        decreases bytes@.len() - i,
    {
        let b = bytes[i];
        out.push(hex_char(b / 16));
        out.push(hex_char(b % 16));
        proof {
            let t = bytes@.subrange(0, i + 1);
            assert(t.drop_last() =~= bytes@.subrange(0, i as int));
            assert(t.last() == b);
        }
        i = i + 1;
    }
    proof {
        assert(bytes@.subrange(0, bytes@.len() as int) =~= bytes@);
    }
    string_of(out.as_slice())
}

/// The SHA-256 digest of `data`, as the `sha2` crate computes it.
pub uninterp spec fn sha256_of(data: Seq<u8>) -> Seq<u8>;

/// `<sha2::Sha256 as sha2::Digest>::digest`: the 32-byte SHA-256 digest of
/// `data`.
#[verifier::external_body]
fn sha256_digest(data: &[u8]) -> (r: Vec<u8>)
    ensures
        r@ == sha256_of(data@),
        r@.len() == 32,
{
    <sha2::Sha256 as sha2::Digest>::digest(data).to_vec()
}

/// Lowercase-hex SHA-256 of `data`.
pub fn sha256_hex(data: &[u8]) -> (r: String)
    ensures
        r@ == hex_spec(sha256_of(data@)),
{
    let d = sha256_digest(data);
    hex_encode(d.as_slice())
}

/// Does the computed hash `actual` match the pinned `expected`, in either
/// case?
pub fn sha256_eq(expected: &str, actual: &str) -> (r: bool)
    ensures
        r == eq_ignore_case_seq(expected@, actual@),
{
    let e = chars_of(expected);
    let a = chars_of(actual);
    eq_ignore_ascii_case(e.as_slice(), a.as_slice())
}

// ---------------------------------------------------------------------------
// The decisions of a fetch
// ---------------------------------------------------------------------------

/// Where one fetch puts things: the build directory, the executable in it,
/// and the per-fetch staging paths beside it.
#[derive(Debug)]
pub struct Layout {
    /// The resolved download.
    pub resolved: Resolved,
    /// `<cache>/[<slug>/]<build id>`.
    pub final_dir: String,
    /// The executable inside `final_dir`.
    pub target_bin: String,
    /// `<final_dir>.tmp.<stamp>.<ext>`: the download.
    pub tmp_archive: String,
    /// `<final_dir>.tmp.<stamp>`: the staging directory.
    pub tmp_dir: String,
    /// The executable inside `tmp_dir`.
    pub tmp_bin: String,
}

/// `l` is the layout of its download in cache root `cache` for distribution
/// `d`, staged under `stamp`.
pub open spec fn layout_spec(l: Layout, cache: Seq<char>, d: Distribution, stamp: Seq<char>) -> bool {
    let r = l.resolved@;
    &&& l.final_dir@ == build_dir_spec(cache, d, r.build_id)
    &&& l.target_bin@ == join_spec(l.final_dir@, r.binary_subpath)
    &&& l.tmp_archive@ == l.final_dir@ + ".tmp."@ + stamp + "."@ + tmp_ext(r.archive)
    &&& l.tmp_dir@ == l.final_dir@ + ".tmp."@ + stamp
    &&& l.tmp_bin@ == join_spec(l.tmp_dir@, r.binary_subpath)
}

/// Lay a resolved download out in the cache.
pub fn make_layout(resolved: Resolved, cache_dir: &str, distribution: Distribution, stamp: &str) -> (l: Layout)
    ensures
        l.resolved == resolved,
        layout_spec(l, cache_dir@, distribution, stamp@),
{
    let final_dir = build_dir(cache_dir, distribution, resolved.build_id.as_str());
    let target_bin = join_path(final_dir.as_str(), resolved.binary_subpath.as_str());
    let mut dir_suffix: Vec<char> = Vec::new();
    extend_str(&mut dir_suffix, ".tmp.");
    extend_str(&mut dir_suffix, stamp);
    let mut arch_suffix: Vec<char> = Vec::new();
    extend_str(&mut arch_suffix, ".tmp.");
    extend_str(&mut arch_suffix, stamp);
    extend_str(&mut arch_suffix, ".");
    extend_str(&mut arch_suffix, resolved.archive.tmp_extension());
    let ds = string_of(dir_suffix.as_slice());
    let as_ = string_of(arch_suffix.as_slice());
    let tmp_dir = with_suffix(final_dir.as_str(), ds.as_str());
    let tmp_archive = with_suffix(final_dir.as_str(), as_.as_str());
    let tmp_bin = join_path(tmp_dir.as_str(), resolved.binary_subpath.as_str());
    proof {
        assert(tmp_dir@ =~= final_dir@ + ".tmp."@ + stamp@);
        assert(tmp_archive@ =~= final_dir@ + ".tmp."@ + stamp@ + "."@ + tmp_ext(
            resolved.archive@,
        ));
    }
    Layout { resolved, final_dir, target_bin, tmp_archive, tmp_dir, tmp_bin }
}

/// Which kind of index answer a fetch waits for.
#[derive(Debug, Clone, Copy, PartialEq, Eq, Structural)]
pub enum IndexKind {
    /// Chrome for Testing's flat manifest (JSON).
    CftManifest,
    /// Chrome for Testing's per-channel manifest (JSON).
    CftChannels,
    /// A GitHub release list (JSON, through the GitHub API).
    GitHubReleases,
    /// A plain-text `LAST_CHANGE` body.
    LastChange,
}

/// Outcome of promoting the staging directory to the build directory.
#[derive(Debug)]
pub enum PromoteOutcome {
    /// The rename succeeded.
    Renamed,
    /// The rename failed because another fetch already published the build.
    LostRace,
    /// The rename failed for another reason.
    Failed(String),
}

/// Where a fetch stands.
#[derive(Debug)]
pub enum EnsureState {
    /// Nothing done yet.
    Start,
    /// Waiting for the index.
    Resolving { request: IndexRequest, platform: Platform, cache_dir: String, stamp: String },
    /// Waiting to learn whether the build is cached and runnable.
    Probing { layout: Layout },
    /// Waiting for the download.
    Downloading { layout: Layout },
    /// Waiting for the download's SHA-256.
    Hashing { layout: Layout, expected: String },
    /// Waiting for the archive to be unpacked into the staging directory.
    Unpacking { layout: Layout },
    /// Waiting for the staged executable to be marked executable.
    Marking { layout: Layout },
    /// Waiting for the staging directory to be promoted.
    Promoting { layout: Layout },
    /// Waiting to learn whether the executable still lies inside its build
    /// directory.
    Checking { layout: Layout },
    /// Done; nothing more to do.
    Finished,
}

/// What happened since the last step.
#[derive(Debug)]
pub enum EnsureEvent {
    /// The fetch starts: the OS default cache root, the host platform, and a
    /// token unique to this fetch.
    Begin { default_cache_dir: String, detected_platform: Option<Platform>, stamp: String },
    /// The index was fetched and decoded, or could not be.
    IndexFetched(Result<IndexPayload, FetcherError>),
    /// Whether the cached executable exists, is runnable and lies inside its
    /// build directory.
    CacheProbed { runnable_inside: bool },
    /// A download, unpack or permission change finished, or the parent of the
    /// build directory could not be created.
    WorkDone(Result<(), FetcherError>),
    /// The download's SHA-256 (lowercase hex), or why it could not be read.
    Hashed(Result<String, FetcherError>),
    /// How promotion went.
    Promoted(PromoteOutcome),
    /// Whether the executable, with symlinks followed, lies inside its build
    /// directory.
    CheckedInside { inside: bool },
}

/// The next piece of outside work.
#[derive(Debug)]
pub enum Command {
    /// GET `url` and decode it as `kind`.
    FetchIndex { url: String, kind: IndexKind },
    /// Create the parent of `final_dir` (reporting a failure as `WorkDone`),
    /// then report whether `target_bin` is runnable and lies inside
    /// `final_dir`.
    ProbeCache { target_bin: String, final_dir: String },
    /// Stream `url` into the file `to`.
    Download { url: String, to: String },
    /// Compute the SHA-256 of the file at `path`.
    Hash { path: String },
    /// Create `into`, unpack `from` into it as `archive` says, then remove
    /// `from` whatever the outcome.
    Unpack { archive: Archive, from: String, into: String },
    /// Add the executable bits to `path` when it exists and lies inside `root`.
    MakeExecutable { path: String, root: String },
    /// Rename the directory `from` to `to`.
    Promote { from: String, to: String },
    /// Remove the directory `discard` when given, then report whether `path`
    /// lies inside `root`.
    CheckInside { path: String, root: String, discard: Option<String> },
    /// Remove the file `discard` when given, then end the fetch with `result`:
    /// the executable's path, or the error.
    Finish { result: Result<String, FetcherError>, discard: Option<String> },
}

/// One decision: the next state, the phase to report (if any), and the next
/// command.
#[derive(Debug)]
pub struct Step {
    pub state: EnsureState,
    pub phase: Option<FetcherPhase>,
    pub command: Command,
}

/// Does `event` answer what `state` waits for?
pub open spec fn event_fits(state: EnsureState, event: EnsureEvent) -> bool {
    match state {
        EnsureState::Start => event is Begin,
        EnsureState::Resolving { request, .. } => match event {
            EnsureEvent::IndexFetched(Ok(p)) => payload_fits(request@, p),
            EnsureEvent::IndexFetched(Err(_)) => true,
            _ => false,
        },
        EnsureState::Probing { .. } => event is CacheProbed || event matches EnsureEvent::WorkDone(
            Err(_),
        ),
        EnsureState::Downloading { .. } => event is WorkDone,
        EnsureState::Hashing { .. } => event is Hashed,
        EnsureState::Unpacking { .. } => event is WorkDone,
        EnsureState::Marking { .. } => event is WorkDone,
        EnsureState::Promoting { .. } => event is Promoted,
        EnsureState::Checking { .. } => event is CheckedInside,
        EnsureState::Finished => false,
    }
}

/// The URL a request fetches (empty for a pinned revision, which fetches
/// nothing).
pub open spec fn request_url(r: IndexRequestView) -> Seq<char> {
    match r {
        IndexRequestView::CftManifest { url } => url,
        IndexRequestView::CftChannels { url, .. } => url,
        IndexRequestView::GitHubReleases { url, .. } => url,
        IndexRequestView::SnapshotLastChange { url, .. } => url,
        IndexRequestView::SnapshotRevision { .. } => Seq::empty(),
    }
}

/// How the answer to a request is decoded.
pub open spec fn request_kind(r: IndexRequestView) -> IndexKind {
    match r {
        IndexRequestView::CftManifest { .. } => IndexKind::CftManifest,
        IndexRequestView::CftChannels { .. } => IndexKind::CftChannels,
        IndexRequestView::GitHubReleases { .. } => IndexKind::GitHubReleases,
        _ => IndexKind::LastChange,
    }
}

/// The fetch ends with the error `e`.
pub open spec fn ends_with_error(s: Step, e: FetcherErrorView) -> bool {
    &&& s.state is Finished
    &&& s.phase is None
    &&& s.command matches Command::Finish { result: Err(x), discard: None } && x@ == e
}

/// The fetch goes on to probe the cache for the download `rv`.
pub open spec fn goes_probing(
    s: Step,
    rv: ResolvedView,
    cache: Seq<char>,
    d: Distribution,
    stamp: Seq<char>,
) -> bool {
    s.state matches EnsureState::Probing { layout } && (layout.resolved@ == rv && layout_spec(
        layout,
        cache,
        d,
        stamp,
    ) && (s.command matches Command::ProbeCache { target_bin, final_dir } && target_bin@
        == layout.target_bin@ && final_dir@ == layout.final_dir@))
}

/// The fetch goes on to unpack the download laid out as `l`.
pub open spec fn goes_unpacking(s: Step, l: Layout) -> bool {
    &&& s.state == EnsureState::Unpacking { layout: l }
    &&& s.phase == Some(FetcherPhase::Extracting)
    &&& s.command matches Command::Unpack { archive, from, into } && archive@
        == l.resolved.archive@ && from@ == l.tmp_archive@ && into@ == l.tmp_dir@
}

/// The fetch goes on to check that the executable of `l` lies inside its
/// build directory, first discarding `discard`.
pub open spec fn goes_checking(s: Step, l: Layout, discard: Option<Seq<char>>) -> bool {
    &&& s.state == EnsureState::Checking { layout: l }
    &&& s.phase is None
    &&& s.command matches Command::CheckInside { path, root, discard: d } && path@
        == l.target_bin@ && root@ == l.final_dir@ && opt_chars(d) == discard
}

/// The fetch ends successfully with the executable of `l`.
pub open spec fn ends_with_binary(s: Step, l: Layout) -> bool {
    &&& s.state is Finished
    &&& s.phase == Some(FetcherPhase::Done)
    &&& s.command matches Command::Finish { result: Ok(p), discard: None } && p@ == l.target_bin@
}

/// The decision a fetch configured as `f` takes in `state` on `event`.
pub open spec fn step_spec(f: Fetcher, state: EnsureState, event: EnsureEvent, s: Step) -> bool {
    match state {
        EnsureState::Start => match event {
            EnsureEvent::Begin { default_cache_dir, detected_platform, stamp } => {
                let cache = match f.cache_dir {
                    Some(c) => c@,
                    None => default_cache_dir@,
                };
                let plat = match f.platform {
                    Some(p) => Some(p),
                    None => detected_platform,
                };
                match plat {
                    None => ends_with_error(s, FetcherErrorView::UnsupportedPlatform),
                    Some(p) => match index_request_spec(f, p) {
                        Err(e) => {
                            &&& s.state is Finished
                            &&& s.phase == Some(FetcherPhase::Resolving)
                            &&& s.command matches Command::Finish { result: Err(x), discard: None }
                                && x@ == e
                        },
                        Ok(IndexRequestView::SnapshotRevision { base, revision }) => goes_probing(
                            s,
                            resolve_snapshot_spec(base, revision, p),
                            cache,
                            f.distribution,
                            stamp@,
                        ) && s.phase == Some(FetcherPhase::Resolving),
                        Ok(req) => {
                            &&& s.phase == Some(FetcherPhase::Resolving)
                            &&& s.state matches EnsureState::Resolving {
                                request,
                                platform,
                                cache_dir,
                                stamp: st,
                            } && request@ == req && platform == p && cache_dir@ == cache && st@
                                == stamp@
                            &&& s.command matches Command::FetchIndex { url, kind } && url@
                                == request_url(req) && kind == request_kind(req)
                        },
                    },
                }
            },
            _ => true,
        },
        EnsureState::Resolving { request, platform, cache_dir, stamp } => match event {
            EnsureEvent::IndexFetched(Err(e)) => ends_with_error(s, e@),
            EnsureEvent::IndexFetched(Ok(payload)) => match resolve_index_spec(
                f,
                request@,
                payload,
                platform,
            ) {
                Err(e) => ends_with_error(s, e),
                Ok(rv) => goes_probing(s, rv, cache_dir@, f.distribution, stamp@) && s.phase is None,
            },
            _ => true,
        },
        EnsureState::Probing { layout } => match event {
            EnsureEvent::CacheProbed { runnable_inside } => if runnable_inside {
                ends_with_binary(s, layout)
            } else {
                &&& s.state == EnsureState::Downloading { layout }
                &&& s.phase == Some(FetcherPhase::Downloading)
                &&& s.command matches Command::Download { url, to } && url@ == layout.resolved.url@
                    && to@ == layout.tmp_archive@
            },
            _ => true,
        },
        EnsureState::Downloading { layout } => match event {
            EnsureEvent::WorkDone(Err(e)) => ends_with_error(s, e@),
            EnsureEvent::WorkDone(Ok(())) => match f.expected_sha256 {
                Some(x) => {
                    &&& s.state matches EnsureState::Hashing { layout: l, expected } && l == layout
                        && expected@ == x@
                    &&& s.phase == Some(FetcherPhase::Verifying)
                    &&& s.command matches Command::Hash { path } && path@ == layout.tmp_archive@
                },
                None => goes_unpacking(s, layout),
            },
            _ => true,
        },
        EnsureState::Hashing { layout, expected } => match event {
            EnsureEvent::Hashed(Err(e)) => ends_with_error(s, e@),
            EnsureEvent::Hashed(Ok(actual)) => if eq_ignore_case_seq(expected@, actual@) {
                goes_unpacking(s, layout)
            } else {
                &&& s.state is Finished
                &&& s.phase is None
                &&& s.command matches Command::Finish { result: Err(e), discard: Some(d) } && e@
                    == (FetcherErrorView::IntegrityFailed { expected: expected@, actual: actual@ })
                    && d@ == layout.tmp_archive@
            },
            _ => true,
        },
        EnsureState::Unpacking { layout } => match event {
            EnsureEvent::WorkDone(Err(e)) => ends_with_error(s, e@),
            EnsureEvent::WorkDone(Ok(())) => {
                &&& s.state == EnsureState::Marking { layout }
                &&& s.phase == Some(FetcherPhase::Verifying)
                &&& s.command matches Command::MakeExecutable { path, root } && path@
                    == layout.tmp_bin@ && root@ == layout.tmp_dir@
            },
            _ => true,
        },
        EnsureState::Marking { layout } => match event {
            EnsureEvent::WorkDone(Err(e)) => ends_with_error(s, e@),
            EnsureEvent::WorkDone(Ok(())) => {
                &&& s.state == EnsureState::Promoting { layout }
                &&& s.phase is None
                &&& s.command matches Command::Promote { from, to } && from@ == layout.tmp_dir@
                    && to@ == layout.final_dir@
            },
            _ => true,
        },
        EnsureState::Promoting { layout } => match event {
            EnsureEvent::Promoted(PromoteOutcome::Renamed) => goes_checking(s, layout, None),
            EnsureEvent::Promoted(PromoteOutcome::LostRace) => goes_checking(
                s,
                layout,
                Some(layout.tmp_dir@),
            ),
            EnsureEvent::Promoted(PromoteOutcome::Failed(m)) => ends_with_error(
                s,
                FetcherErrorView::Io(m@),
            ),
            _ => true,
        },
        EnsureState::Checking { layout } => match event {
            EnsureEvent::CheckedInside { inside } => if inside {
                ends_with_binary(s, layout)
            } else {
                ends_with_error(
                    s,
                    FetcherErrorView::Extraction(
                        "resolved browser path "@ + layout.target_bin@ + " does not lie inside "@
                            + layout.final_dir@ + "; refusing to return it"@,
                    ),
                )
            },
            _ => true,
        },
        EnsureState::Finished => true,
    }
}

fn finish_err(e: FetcherError) -> (s: Step)
    ensures
        ends_with_error(s, e@),
{
    Step {
        state: EnsureState::Finished,
        phase: None,
        command: Command::Finish { result: Err(e), discard: None },
    }
}

fn probe(layout: Layout) -> (s: Step)
    ensures
        s.state == (EnsureState::Probing { layout }),
        s.phase is None,
        s.command matches Command::ProbeCache { target_bin, final_dir } && target_bin@
            == layout.target_bin@ && final_dir@ == layout.final_dir@,
{
    let target_bin = layout.target_bin.clone();
    let final_dir = layout.final_dir.clone();
    Step {
        state: EnsureState::Probing { layout },
        phase: None,
        command: Command::ProbeCache { target_bin, final_dir },
    }
}

fn unpack(layout: Layout) -> (s: Step)
    ensures
        goes_unpacking(s, layout),
{
    let archive = layout.resolved.archive.duplicate();
    let from = layout.tmp_archive.clone();
    let into = layout.tmp_dir.clone();
    Step {
        state: EnsureState::Unpacking { layout },
        phase: Some(FetcherPhase::Extracting),
        command: Command::Unpack { archive, from, into },
    }
}

fn check(layout: Layout, discard: Option<String>) -> (s: Step)
    ensures
        goes_checking(s, layout, opt_chars(discard)),
{
    let path = layout.target_bin.clone();
    let root = layout.final_dir.clone();
    Step {
        state: EnsureState::Checking { layout },
        phase: None,
        command: Command::CheckInside { path, root, discard },
    }
}

fn finish_ok(layout: Layout) -> (s: Step)
    ensures
        ends_with_binary(s, layout),
{
    let p = layout.target_bin.clone();
    Step {
        state: EnsureState::Finished,
        phase: Some(FetcherPhase::Done),
        command: Command::Finish { result: Ok(p), discard: None },
    }
}

impl IndexRequest {
    /// The URL this request fetches and how its answer is decoded.
    pub fn fetch_target(&self) -> (r: (String, IndexKind))
        ensures
            r.0@ == request_url(self@),
            r.1 == request_kind(self@),
    {
        match self {
            IndexRequest::CftManifest { url } => (url.clone(), IndexKind::CftManifest),
            IndexRequest::CftChannels { url, .. } => (url.clone(), IndexKind::CftChannels),
            IndexRequest::GitHubReleases { url, .. } => (url.clone(), IndexKind::GitHubReleases),
            IndexRequest::SnapshotLastChange { url, .. } => (url.clone(), IndexKind::LastChange),
            IndexRequest::SnapshotRevision { .. } => (String::new(), IndexKind::LastChange),
        }
    }
}

impl Fetcher {
    /// The next decision of a fetch: given where it stands and what just
    /// happened, where it goes, which phase it reports and what to do next.
    ///
    /// Start by resolving (a missing platform and a selector the index
    /// cannot answer end the fetch); a cached, runnable build inside its
    /// directory ends it at once; otherwise download beside the build
    /// directory, check the pinned SHA-256 if any (a mismatch discards the
    /// download and ends the fetch), unpack into the staging directory, mark
    /// the executable, promote with one rename (losing a race to another
    /// fetch of the same build keeps theirs), and return the executable only
    /// if it still lies inside the build directory.
    pub fn step(&self, state: EnsureState, event: EnsureEvent) -> (s: Step)
        requires
            event_fits(state, event),
        ensures
            step_spec(*self, state, event, s),
    {
        match state {
            EnsureState::Start => match event {
                EnsureEvent::Begin { default_cache_dir, detected_platform, stamp } => {
                    let cache = match &self.cache_dir {
                        Some(c) => c.clone(),
                        None => default_cache_dir,
                    };
                    let plat = match self.platform {
                        Some(p) => Some(p),
                        None => detected_platform,
                    };
                    let p = match plat {
                        None => return finish_err(FetcherError::UnsupportedPlatform),
                        Some(p) => p,
                    };
                    match self.index_request(p) {
                        Err(e) => Step {
                            state: EnsureState::Finished,
                            phase: Some(FetcherPhase::Resolving),
                            command: Command::Finish { result: Err(e), discard: None },
                        },
                        Ok(IndexRequest::SnapshotRevision { base, revision }) => {
                            let resolved = resolve_snapshot(base.as_str(), revision, p);
                            let layout = make_layout(
                                resolved,
                                cache.as_str(),
                                self.distribution,
                                stamp.as_str(),
                            );
                            let mut s = probe(layout);
                            s.phase = Some(FetcherPhase::Resolving);
                            s
                        },
                        Ok(request) => {
                            let (url, kind) = request.fetch_target();
                            Step {
                                state: EnsureState::Resolving {
                                    request,
                                    platform: p,
                                    cache_dir: cache,
                                    stamp,
                                },
                                phase: Some(FetcherPhase::Resolving),
                                command: Command::FetchIndex { url, kind },
                            }
                        },
                    }
                },
                _ => finish_err(FetcherError::UnsupportedPlatform),
            },
            EnsureState::Resolving { request, platform, cache_dir, stamp } => match event {
                EnsureEvent::IndexFetched(Err(e)) => finish_err(e),
                EnsureEvent::IndexFetched(Ok(payload)) => match self.resolve_index(
                    &request,
                    &payload,
                    platform,
                ) {
                    Err(e) => finish_err(e),
                    Ok(resolved) => {
                        let layout = make_layout(
                            resolved,
                            cache_dir.as_str(),
                            self.distribution,
                            stamp.as_str(),
                        );
                        probe(layout)
                    },
                },
                _ => finish_err(FetcherError::UnsupportedPlatform),
            },
            EnsureState::Probing { layout } => match event {
                EnsureEvent::CacheProbed { runnable_inside } => {
                    if runnable_inside {
                        finish_ok(layout)
                    } else {
                        let url = layout.resolved.url.clone();
                        let to = layout.tmp_archive.clone();
                        Step {
                            state: EnsureState::Downloading { layout },
                            phase: Some(FetcherPhase::Downloading),
                            command: Command::Download { url, to },
                        }
                    }
                },
                EnsureEvent::WorkDone(Err(e)) => finish_err(e),
                _ => finish_err(FetcherError::UnsupportedPlatform),
            },
            EnsureState::Downloading { layout } => match event {
                EnsureEvent::WorkDone(Err(e)) => finish_err(e),
                EnsureEvent::WorkDone(Ok(())) => match &self.expected_sha256 {
                    Some(x) => {
                        let path = layout.tmp_archive.clone();
                        Step {
                            state: EnsureState::Hashing { layout, expected: x.clone() },
                            phase: Some(FetcherPhase::Verifying),
                            command: Command::Hash { path },
                        }
                    },
                    None => unpack(layout),
                },
                _ => finish_err(FetcherError::UnsupportedPlatform),
            },
            EnsureState::Hashing { layout, expected } => match event {
                EnsureEvent::Hashed(Err(e)) => finish_err(e),
                EnsureEvent::Hashed(Ok(actual)) => {
                    if sha256_eq(expected.as_str(), actual.as_str()) {
                        unpack(layout)
                    } else {
                        let d = layout.tmp_archive.clone();
                        Step {
                            state: EnsureState::Finished,
                            phase: None,
                            command: Command::Finish {
                                result: Err(FetcherError::IntegrityFailed { expected, actual }),
                                discard: Some(d),
                            },
                        }
                    }
                },
                _ => finish_err(FetcherError::UnsupportedPlatform),
            },
            EnsureState::Unpacking { layout } => match event {
                EnsureEvent::WorkDone(Err(e)) => finish_err(e),
                EnsureEvent::WorkDone(Ok(())) => {
                    let path = layout.tmp_bin.clone();
                    let root = layout.tmp_dir.clone();
                    Step {
                        state: EnsureState::Marking { layout },
                        phase: Some(FetcherPhase::Verifying),
                        command: Command::MakeExecutable { path, root },
                    }
                },
                _ => finish_err(FetcherError::UnsupportedPlatform),
            },
            EnsureState::Marking { layout } => match event {
                EnsureEvent::WorkDone(Err(e)) => finish_err(e),
                EnsureEvent::WorkDone(Ok(())) => {
                    let from = layout.tmp_dir.clone();
                    let to = layout.final_dir.clone();
                    Step {
                        state: EnsureState::Promoting { layout },
                        phase: None,
                        command: Command::Promote { from, to },
                    }
                },
                _ => finish_err(FetcherError::UnsupportedPlatform),
            },
            EnsureState::Promoting { layout } => match event {
                EnsureEvent::Promoted(PromoteOutcome::Renamed) => check(layout, None),
                EnsureEvent::Promoted(PromoteOutcome::LostRace) => {
                    let d = layout.tmp_dir.clone();
                    check(layout, Some(d))
                },
                EnsureEvent::Promoted(PromoteOutcome::Failed(m)) => finish_err(FetcherError::Io(m)),
                _ => finish_err(FetcherError::UnsupportedPlatform),
            },
            EnsureState::Checking { layout } => match event {
                EnsureEvent::CheckedInside { inside } => {
                    if inside {
                        finish_ok(layout)
                    } else {
                        let mut m: Vec<char> = Vec::new();
                        extend_str(&mut m, "resolved browser path ");
                        extend_str(&mut m, layout.target_bin.as_str());
                        extend_str(&mut m, " does not lie inside ");
                        extend_str(&mut m, layout.final_dir.as_str());
                        extend_str(&mut m, "; refusing to return it");
                        finish_err(FetcherError::Extraction(string_of(m.as_slice())))
                    }
                },
                _ => finish_err(FetcherError::UnsupportedPlatform),
            },
            EnsureState::Finished => finish_err(FetcherError::UnsupportedPlatform),
        }
    }
}

/// Hex encoding writes two lowercase hex digits per byte.
pub proof fn hex_is_two_lowercase_digits_per_byte(bytes: Seq<u8>)
    ensures
        hex_spec(bytes).len() == 2 * bytes.len(),
        forall|i: int|
            0 <= i < hex_spec(bytes).len() ==> ('0' <= #[trigger] hex_spec(bytes)[i] <= '9' || 'a'
                <= hex_spec(bytes)[i] <= 'f'),
    decreases bytes.len(),
{
    if bytes.len() > 0 {
        hex_is_two_lowercase_digits_per_byte(bytes.drop_last());
        let b = bytes.last();
        assert(b / 16 < 16);
        assert(b % 16 < 16);
    }
}

} // verus!
