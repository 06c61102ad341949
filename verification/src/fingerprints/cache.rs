//! Freshness policy of a download-on-first-use cache file.

use vstd::prelude::*;
use std::time::Duration;

verus! {

/// Freshness policy for a download-on-first-use cache file. The default,
/// equal to [`CachePolicy::permanent`], uses any readable cache file forever.
#[derive(Debug, Clone, Copy, PartialEq, Eq)]
pub struct CachePolicy {
    /// Re-download when the cached file is older than this; `None` means a
    /// permanent cache.
    pub ttl: Option<Duration>,
    /// Always re-download, ignoring any cache hit (and `ttl`).
    pub force_refresh: bool,
}

impl CachePolicy {
    /// Permanent cache: identical to `CachePolicy::default()`.
    pub fn permanent() -> (r: Self)
        ensures
            r.ttl is None,
            !r.force_refresh,
    {
        CachePolicy { ttl: None, force_refresh: false }
    }

    /// Re-download when the cached file is older than `ttl`.
    pub fn with_ttl(ttl: Duration) -> (r: Self)
        ensures
            r.ttl == Some(ttl),
            !r.force_refresh,
    {
        CachePolicy { ttl: Some(ttl), force_refresh: false }
    }

    /// Always re-download, ignoring any cache hit.
    pub fn force_refresh() -> (r: Self)
        ensures
            r.ttl is None,
            r.force_refresh,
    {
        CachePolicy { ttl: None, force_refresh: true }
    }
}

impl Default for CachePolicy {
    fn default() -> (r: Self)
        ensures
            r.ttl is None,
            !r.force_refresh,
    {
        CachePolicy { ttl: None, force_refresh: false }
    }
}

/// Is a cache file modified at `mtime`, observed at `now` (both in
/// nanoseconds since the Unix epoch), stale under `ttl` (in nanoseconds)?
/// No ttl is never stale; an age of at least the ttl is stale (so a zero ttl
/// always is); a modification time after `now` (clock skew) fails closed to
/// stale.
pub open spec fn stale(mtime: i128, now: i128, ttl: Option<u128>) -> bool {
    match ttl {
        None => false,
        Some(t) => if now >= mtime {
            now - mtime >= t
        } else {
            true
        },
    }
}

/// Is a cache file stale? See [`stale`].
pub fn is_stale(mtime: i128, now: i128, ttl: Option<u128>) -> (r: bool)
    ensures
        r == stale(mtime, now, ttl),
{
    match ttl {
        None => false,
        Some(t) => {
            if now >= mtime {
                let age: u128 = if mtime >= 0 || now < 0 {
                    (now - mtime) as u128
                } else {
                    now as u128 + (-(mtime + 1)) as u128 + 1
                };
                age >= t
            } else {
                true
            }
        },
    }
}

/// A permanent cache is never stale; a zero ttl is always stale; a
/// modification time in the future is stale under any ttl; and a file
/// already stale stays stale as time goes on.
pub proof fn staleness_laws(mtime: i128, now: i128, later: i128, ttl: u128)
    requires
        now <= later,
    ensures
        !stale(mtime, now, None),
        stale(mtime, now, Some(0)),
        mtime > now ==> stale(mtime, now, Some(ttl)),
        mtime <= now && stale(mtime, now, Some(ttl)) ==> stale(mtime, later, Some(ttl)),
{
}

} // verus!
