//! Decoding of sampled Bayesian-network attribute strings.

use crate::text::{
    chars_of, contains_seq, contains_str, slice_chars, starts_with_seq, starts_with_str,
    string_of, str_eq,
};
use vstd::prelude::*;

verus! {

/// The prefix browserforge puts on stringified (non-string) leaf values.
pub const STRINGIFIED: &'static str = "*STRINGIFIED*";

/// `raw` without the stringified-value prefix (unchanged when it has none).
pub open spec fn destringify_spec(raw: Seq<char>) -> Seq<char> {
    if starts_with_seq(raw, STRINGIFIED@) {
        raw.subrange(STRINGIFIED@.len() as int, raw.len() as int)
    } else {
        raw
    }
}

/// Strip the stringified-value prefix of a scalar (`*STRINGIFIED*16` gives
/// `16`).
pub fn destringify_scalar(raw: &str) -> (r: String)
    ensures
        r@ == destringify_spec(raw@),
{
    let cs = chars_of(raw);
    if starts_with_str(cs.as_slice(), STRINGIFIED) {
        let p = chars_of(STRINGIFIED);
        let rest = slice_chars(cs.as_slice(), p.len(), cs.len());
        string_of(rest.as_slice())
    } else {
        String::from_str(raw)
    }
}

/// A user agent is a desktop one when it carries none of the mobile markers.
pub open spec fn desktop_ua(ua: Seq<char>) -> bool {
    !contains_seq(ua, "Mobile"@) && !contains_seq(ua, "Android"@) && !contains_seq(ua, "iPhone"@)
        && !contains_seq(ua, "iPad"@)
}

/// Is `ua` a desktop user agent?
pub fn is_desktop_ua(ua: &str) -> (r: bool)
    ensures
        r == desktop_ua(ua@),
{
    let cs = chars_of(ua);
    let c = cs.as_slice();
    !contains_str(c, "Mobile") && !contains_str(c, "Android") && !contains_str(c, "iPhone")
        && !contains_str(c, "iPad")
}

/// The desktop platforms a persona can claim.
#[derive(Debug, Clone, Copy, PartialEq, Eq, Hash, Structural)]
pub enum PersonaPlatform {
    Win32,
    MacIntel,
    LinuxX86_64,
}

/// The desktop platform a sampled `platform` value names.
pub open spec fn platform_of(v: Seq<char>) -> Option<PersonaPlatform> {
    if v == "Win32"@ {
        Some(PersonaPlatform::Win32)
    } else if v == "MacIntel"@ {
        Some(PersonaPlatform::MacIntel)
    } else if starts_with_seq(v, "Linux"@) {
        Some(PersonaPlatform::LinuxX86_64)
    } else {
        None
    }
}

/// Map a sampled `platform` value onto the desktop platforms.
pub fn map_platform(v: &str) -> (r: Option<PersonaPlatform>)
    ensures
        r == platform_of(v@),
{
    let cs = chars_of(v);
    if str_eq(v, "Win32") {
        Some(PersonaPlatform::Win32)
    } else if str_eq(v, "MacIntel") {
        Some(PersonaPlatform::MacIntel)
    } else if starts_with_str(cs.as_slice(), "Linux") {
        Some(PersonaPlatform::LinuxX86_64)
    } else {
        None
    }
}

} // verus!
