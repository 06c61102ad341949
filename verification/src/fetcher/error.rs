//! Fetcher-layer errors.

use crate::text::{extend_str, string_of};
use vstd::prelude::*;

verus! {

/// Errors surfaced while resolving, downloading, unpacking or verifying a
/// build.
///
/// The transport, filesystem and JSON failures carry the underlying error's
/// message; the program around the library converts the outside error into
/// it where the failure happens.
#[derive(Debug)]
pub enum FetcherError {
    /// HTTP request failed (network down, 4xx/5xx response, ...).
    Http(String),
    /// Local filesystem I/O failed (cache write, file permission, ...).
    Io(String),
    /// An index could not be parsed.
    Manifest(String),
    /// The requested version is not present in the index.
    VersionNotFound(String),
    /// The target platform is not covered by the index.
    UnsupportedPlatform,
    /// SHA256 checksum mismatch on the downloaded archive.
    IntegrityFailed {
        /// The SHA256 the caller pinned.
        expected: String,
        /// SHA256 computed from the downloaded bytes.
        actual: String,
    },
    /// The downloaded archive could not be unpacked.
    Extraction(String),
    /// The requested selector cannot be honoured by the distribution.
    UnsupportedSelector {
        /// Distribution that refused the selector.
        distribution: &'static str,
        /// The selector, as a short human-readable phrase.
        selector: String,
        /// Why it cannot be honoured, and what to use instead.
        reason: String,
    },
    /// The release exists but publishes no asset for the target platform.
    AssetNotFound {
        /// `owner/name` of the repo searched.
        repo: String,
        /// Release tag searched.
        tag: String,
        /// Platform whose asset is missing.
        platform: &'static str,
        /// Asset filename suffix that was looked for.
        suffix: &'static str,
    },
    /// GitHub's API refused the request for rate-limiting reasons.
    GitHubRateLimited {
        /// `", resets at <unix timestamp>"` when GitHub said when, else empty.
        reset_hint: String,
    },
    /// The downloaded archive is in a format this host cannot unpack.
    UnsupportedArchive(String),
}

/// A [`FetcherError`] with its strings taken by value.
pub enum FetcherErrorView {
    Http(Seq<char>),
    Io(Seq<char>),
    Manifest(Seq<char>),
    VersionNotFound(Seq<char>),
    UnsupportedPlatform,
    IntegrityFailed { expected: Seq<char>, actual: Seq<char> },
    Extraction(Seq<char>),
    UnsupportedSelector { distribution: Seq<char>, selector: Seq<char>, reason: Seq<char> },
    AssetNotFound { repo: Seq<char>, tag: Seq<char>, platform: Seq<char>, suffix: Seq<char> },
    GitHubRateLimited { reset_hint: Seq<char> },
    UnsupportedArchive(Seq<char>),
}

impl View for FetcherError {
    type V = FetcherErrorView;

    open spec fn view(&self) -> FetcherErrorView {
        match self {
            FetcherError::Http(s) => FetcherErrorView::Http(s@),
            FetcherError::Io(s) => FetcherErrorView::Io(s@),
            FetcherError::Manifest(s) => FetcherErrorView::Manifest(s@),
            FetcherError::VersionNotFound(s) => FetcherErrorView::VersionNotFound(s@),
            FetcherError::UnsupportedPlatform => FetcherErrorView::UnsupportedPlatform,
            FetcherError::IntegrityFailed { expected, actual } => FetcherErrorView::IntegrityFailed {
                expected: expected@,
                actual: actual@,
            },
            FetcherError::Extraction(s) => FetcherErrorView::Extraction(s@),
            FetcherError::UnsupportedSelector { distribution, selector, reason } =>
                FetcherErrorView::UnsupportedSelector {
                distribution: distribution@,
                selector: selector@,
                reason: reason@,
            },
            FetcherError::AssetNotFound { repo, tag, platform, suffix } =>
                FetcherErrorView::AssetNotFound {
                repo: repo@,
                tag: tag@,
                platform: platform@,
                suffix: suffix@,
            },
            FetcherError::GitHubRateLimited { reset_hint } => FetcherErrorView::GitHubRateLimited {
                reset_hint: reset_hint@,
            },
            FetcherError::UnsupportedArchive(s) => FetcherErrorView::UnsupportedArchive(s@),
        }
    }
}

/// A result with both sides taken by view.
pub open spec fn result_view<T: View>(r: Result<T, FetcherError>) -> Result<T::V, FetcherErrorView> {
    match r {
        Ok(v) => Ok(v@),
        Err(e) => Err(e@),
    }
}

/// The human-readable message of an error.
pub open spec fn error_message(e: FetcherError) -> Seq<char> {
    match e {
        FetcherError::Http(s) => "http: "@ + s@,
        FetcherError::Io(s) => "io: "@ + s@,
        FetcherError::Manifest(s) => "manifest: "@ + s@,
        FetcherError::VersionNotFound(s) => "version not found: "@ + s@,
        FetcherError::UnsupportedPlatform => "unsupported platform"@,
        FetcherError::IntegrityFailed { expected, actual } => "integrity check failed: expected "@
            + expected@ + ", got "@ + actual@,
        FetcherError::Extraction(s) => "extraction: "@ + s@,
        FetcherError::UnsupportedSelector { distribution, selector, reason } => distribution@
            + " cannot resolve "@ + selector@ + ": "@ + reason@,
        FetcherError::AssetNotFound { repo, tag, platform, suffix } => repo@ + " release "@ + tag@
            + " has no asset for "@ + platform@ + " (expected one ending in "@ + suffix@ + ")"@,
        FetcherError::GitHubRateLimited { reset_hint } =>
            "github api rate limit reached (unauthenticated limit is 60 requests/hour"@
            + reset_hint@ + "); set GITHUB_TOKEN to raise it to 5000/hour"@,
        FetcherError::UnsupportedArchive(s) => "unsupported archive: "@ + s@,
    }
}

impl FetcherError {
    /// The error's message, as its `Display` would print it.
    pub fn to_string(&self) -> (r: String)
        ensures
            r@ == error_message(*self),
    {
        let mut v: Vec<char> = Vec::new();
        match self {
            FetcherError::Http(s) => {
                extend_str(&mut v, "http: ");
                extend_str(&mut v, s.as_str());
            },
            FetcherError::Io(s) => {
                extend_str(&mut v, "io: ");
                extend_str(&mut v, s.as_str());
            },
            FetcherError::Manifest(s) => {
                extend_str(&mut v, "manifest: ");
                extend_str(&mut v, s.as_str());
            },
            FetcherError::VersionNotFound(s) => {
                extend_str(&mut v, "version not found: ");
                extend_str(&mut v, s.as_str());
            },
            FetcherError::UnsupportedPlatform => {
                extend_str(&mut v, "unsupported platform");
            },
            FetcherError::IntegrityFailed { expected, actual } => {
                extend_str(&mut v, "integrity check failed: expected ");
                extend_str(&mut v, expected.as_str());
                extend_str(&mut v, ", got ");
                extend_str(&mut v, actual.as_str());
            },
            FetcherError::Extraction(s) => {
                extend_str(&mut v, "extraction: ");
                extend_str(&mut v, s.as_str());
            },
            FetcherError::UnsupportedSelector { distribution, selector, reason } => {
                extend_str(&mut v, distribution);
                extend_str(&mut v, " cannot resolve ");
                extend_str(&mut v, selector.as_str());
                extend_str(&mut v, ": ");
                extend_str(&mut v, reason.as_str());
            },
            FetcherError::AssetNotFound { repo, tag, platform, suffix } => {
                extend_str(&mut v, repo.as_str());
                extend_str(&mut v, " release ");
                extend_str(&mut v, tag.as_str());
                extend_str(&mut v, " has no asset for ");
                extend_str(&mut v, platform);
                extend_str(&mut v, " (expected one ending in ");
                extend_str(&mut v, suffix);
                extend_str(&mut v, ")");
            },
            FetcherError::GitHubRateLimited { reset_hint } => {
                extend_str(
                    &mut v,
                    "github api rate limit reached (unauthenticated limit is 60 requests/hour",
                );
                extend_str(&mut v, reset_hint.as_str());
                extend_str(&mut v, "); set GITHUB_TOKEN to raise it to 5000/hour");
            },
            FetcherError::UnsupportedArchive(s) => {
                extend_str(&mut v, "unsupported archive: ");
                extend_str(&mut v, s.as_str());
            },
        }
        string_of(v.as_slice())
    }
}

} // verus!
