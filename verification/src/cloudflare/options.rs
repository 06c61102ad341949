//! Caller-supplied markers that identify a Turnstile widget.

use vstd::prelude::*;

verus! {

/// The page markers that identify a Cloudflare Turnstile widget. Every
/// injected evaluator is built from these, so overriding one changes the
/// detector, the poll loop and the scroll-and-measure step together.
#[derive(Debug, Clone, PartialEq, Eq)]
pub struct TurnstileSelectors {
    /// Substring an `<iframe>`'s `src` must contain for that iframe to be the
    /// challenge widget. Empty disables the iframe signal.
    pub iframe_src_contains: String,
    /// CSS selector of the challenge container, a presence signal only.
    /// Empty disables the container signal.
    pub container: String,
    /// CSS selectors of the hidden input receiving the token, in preference
    /// order. Empty entries are skipped; an empty list disables token
    /// detection.
    pub token_inputs: Vec<String>,
}

impl Default for TurnstileSelectors {
    fn default() -> (r: Self)
        ensures
            r.iframe_src_contains@ == "challenges.cloudflare.com"@,
            r.container@ == ".cf-turnstile, .turnstile, [data-sitekey]"@,
            r.token_inputs@.len() == 2,
            r.token_inputs@[0]@ == "[name=\"cf-turnstile-response\"]"@,
            r.token_inputs@[1]@ == "[name=\"cf_challenge_response\"]"@,
    {
        let mut token_inputs: Vec<String> = Vec::new();
        token_inputs.push(String::from_str("[name=\"cf-turnstile-response\"]"));
        token_inputs.push(String::from_str("[name=\"cf_challenge_response\"]"));
        TurnstileSelectors {
            iframe_src_contains: String::from_str("challenges.cloudflare.com"),
            container: String::from_str(".cf-turnstile, .turnstile, [data-sitekey]"),
            token_inputs,
        }
    }
}

} // verus!
