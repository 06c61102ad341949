//! Decisions about HTTP responses and download progress.

use crate::text::{chars_of, extend_chars, extend_str, parse_radix, parse_unsigned, string_of, trim, trim_seq};
use vstd::prelude::*;

verus! {

/// HTTP 429 Too Many Requests.
pub const TOO_MANY_REQUESTS: u16 = 429;

/// HTTP 403 Forbidden.
pub const FORBIDDEN: u16 = 403;

/// Is a GitHub response a rate-limit rejection? GitHub signals the primary
/// limit with `403` and `x-ratelimit-remaining: 0`, and secondary limits with
/// `429`. A `403` with budget left (a bad token, say) is something else.
/// `remaining` is the `x-ratelimit-remaining` header, when present and
/// visible ASCII.
pub open spec fn rate_limited(status: u16, remaining: Option<Seq<char>>) -> bool {
    if status == TOO_MANY_REQUESTS {
        true
    } else if status != FORBIDDEN {
        false
    } else {
        match remaining {
            Some(r) => parse_unsigned(trim_seq(r), 10, u64::MAX as nat) == Some(0nat),
            None => false,
        }
    }
}

/// Is a GitHub response a rate-limit rejection?
pub fn is_rate_limited(status: u16, remaining: Option<&str>) -> (r: bool)
    ensures
        r == rate_limited(
            status,
            match remaining {
                Some(s) => Some(s@),
                None => None,
            },
        ),
{
    if status == TOO_MANY_REQUESTS {
        return true;
    }
    if status != FORBIDDEN {
        return false;
    }
    match remaining {
        Some(v) => {
            let cs = chars_of(v);
            let t = trim(cs.as_slice());
            match parse_radix(t.as_slice(), 10, u64::MAX) {
                Some(n) => n == 0,
                None => false,
            }
        },
        None => false,
    }
}

/// `", resets at <timestamp>"` when GitHub said when the window rolls over
/// (the trimmed `x-ratelimit-reset` header), otherwise empty.
pub open spec fn reset_hint_spec(reset: Option<Seq<char>>) -> Seq<char> {
    match reset {
        Some(ts) => ", resets at "@ + trim_seq(ts),
        None => Seq::empty(),
    }
}

/// The reset hint of a rate-limit rejection.
pub fn reset_hint(reset: Option<&str>) -> (r: String)
    ensures
        r@ == reset_hint_spec(
            match reset {
                Some(s) => Some(s@),
                None => None,
            },
        ),
{
    match reset {
        Some(ts) => {
            let mut v: Vec<char> = Vec::new();
            extend_str(&mut v, ", resets at ");
            let cs = chars_of(ts);
            let t = trim(cs.as_slice());
            extend_chars(&mut v, t.as_slice());
            string_of(v.as_slice())
        },
        None => String::new(),
    }
}

/// Bytes between forced progress reports during a download.
pub const PROGRESS_BYTES_INTERVAL: u64 = 102400;

/// Nanoseconds between forced progress reports during a download.
pub const PROGRESS_NANOS_INTERVAL: u128 = 100000000;

/// Is a progress report due, `downloaded` bytes in, the last report having
/// been at `last_emit_bytes` and `elapsed_nanos` ago? At most one report per
/// 100 KiB or per 100 ms, whichever comes first.
pub fn progress_due(downloaded: u64, last_emit_bytes: u64, elapsed_nanos: u128) -> (r: bool)
    requires
        last_emit_bytes <= downloaded,
    ensures
        r == (downloaded - last_emit_bytes >= PROGRESS_BYTES_INTERVAL || elapsed_nanos
            >= PROGRESS_NANOS_INTERVAL),
{
    downloaded - last_emit_bytes >= PROGRESS_BYTES_INTERVAL || elapsed_nanos >= PROGRESS_NANOS_INTERVAL
}

} // verus!
