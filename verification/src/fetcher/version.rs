//! Version selectors.

use vstd::prelude::*;

verus! {

/// Release channel.
#[derive(Debug, Clone, Copy, PartialEq, Eq, Hash, Structural)]
pub enum Channel {
    /// Chrome's stable channel.
    Stable,
    /// Beta channel.
    Beta,
    /// Dev channel.
    Dev,
    /// Canary channel.
    Canary,
}

/// Channel name as Chrome for Testing's per-channel manifest keys it.
pub open spec fn channel_key(c: Channel) -> Seq<char> {
    match c {
        Channel::Stable => "Stable"@,
        Channel::Beta => "Beta"@,
        Channel::Dev => "Dev"@,
        Channel::Canary => "Canary"@,
    }
}

impl Channel {
    /// Channel name as used by Chrome for Testing's per-channel manifest.
    pub fn as_cft_str(self) -> (r: &'static str)
        ensures
            r@ == channel_key(self),
    {
        match self {
            Channel::Stable => "Stable",
            Channel::Beta => "Beta",
            Channel::Dev => "Dev",
            Channel::Canary => "Canary",
        }
    }
}

/// Which build to resolve.
#[derive(Debug, Clone, PartialEq, Eq, Hash)]
pub enum VersionSpec {
    /// Newest build the distribution publishes for the target platform.
    Latest,
    /// Alias for the stable channel.
    Stable,
    /// A specific release channel (Chrome for Testing only).
    Channel(Channel),
    /// Exact version string, e.g. `"126.0.6478.182"`.
    Explicit(String),
    /// Exact Chromium revision (commit position), e.g. `1674890`.
    Revision(u64),
}

/// A [`VersionSpec`] with its version string taken by value.
pub enum VersionSpecView {
    Latest,
    Stable,
    Channel(Channel),
    Explicit(Seq<char>),
    Revision(u64),
}

impl View for VersionSpec {
    type V = VersionSpecView;

    open spec fn view(&self) -> VersionSpecView {
        match self {
            VersionSpec::Latest => VersionSpecView::Latest,
            VersionSpec::Stable => VersionSpecView::Stable,
            VersionSpec::Channel(c) => VersionSpecView::Channel(*c),
            VersionSpec::Explicit(s) => VersionSpecView::Explicit(s@),
            VersionSpec::Revision(r) => VersionSpecView::Revision(*r),
        }
    }
}

impl VersionSpec {
    /// A copy of this selector.
    pub fn duplicate(&self) -> (r: VersionSpec)
        ensures
            r@ == self@,
    {
        match self {
            VersionSpec::Latest => VersionSpec::Latest,
            VersionSpec::Stable => VersionSpec::Stable,
            VersionSpec::Channel(c) => VersionSpec::Channel(*c),
            VersionSpec::Explicit(s) => VersionSpec::Explicit(s.clone()),
            VersionSpec::Revision(r) => VersionSpec::Revision(*r),
        }
    }
}

} // verus!
