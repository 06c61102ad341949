//! The challenge handed to a caller-supplied solver, and the scope of the
//! solved cookie.

use crate::datadome::detection::{DdConfig, DetectionSnapshot};
use crate::text::{
    chars_of, extend_str, find_char, first_index_of, lemma_first_index_unique, opt_chars,
    slice_chars, split_once, split_once_spec, string_of,
};
use vstd::prelude::*;

verus! {

/// CAPTCHA escalation handed to a caller-supplied solver.
#[derive(Debug, Clone)]
pub struct DataDomeChallenge {
    /// captcha-delivery iframe URL.
    pub captcha_url: String,
    /// URL of the page presenting the CAPTCHA.
    pub site_url: String,
    /// Browser user agent; must match the page's.
    pub user_agent: String,
    /// `dd.cid`, else the datadome cookie, when known.
    pub cid: Option<String>,
    /// `dd.hsh`, when known.
    pub hash: Option<String>,
}

/// What a solver returns: the solved `datadome` cookie value.
#[derive(Debug, Clone)]
pub struct DataDomeSolution {
    pub datadome_cookie: String,
}

/// The challenge id: `dd.cid` when the descriptor carries one, else the
/// datadome cookie.
pub open spec fn challenge_cid(snap: DetectionSnapshot) -> Option<Seq<char>> {
    match snap.dd {
        Some(d) if d.cid is Some => opt_chars(d.cid),
        _ => opt_chars(snap.datadome),
    }
}

/// Build the challenge for a CAPTCHA surface from the probe and the page's
/// URL and user agent.
pub fn challenge_from(snap: &DetectionSnapshot, site_url: String, user_agent: String) -> (r:
    DataDomeChallenge)
    ensures
        r.captcha_url@ == (match snap.captcha_url {
            Some(u) => u@,
            None => Seq::<char>::empty(),
        }),
        r.site_url == site_url,
        r.user_agent == user_agent,
        opt_chars(r.cid) == challenge_cid(*snap),
        opt_chars(r.hash) == (match snap.dd {
            Some(d) => opt_chars(d.hsh),
            None => None,
        }),
{
    let captcha_url = match &snap.captcha_url {
        Some(u) => u.clone(),
        None => String::new(),
    };
    let dd_cid = match &snap.dd {
        Some(d) => match &d.cid {
            Some(c) => Some(c.clone()),
            None => None,
        },
        None => None,
    };
    let cid = match dd_cid {
        Some(c) => Some(c),
        None => match &snap.datadome {
            Some(c) => Some(c.clone()),
            None => None,
        },
    };
    let hash = match &snap.dd {
        Some(d) => match &d.hsh {
            Some(h) => Some(h.clone()),
            None => None,
        },
        None => None,
    };
    DataDomeChallenge { captcha_url, site_url, user_agent, cid, hash }
}

/// The part of `s` before the first `c` (all of it when there is none).
pub open spec fn before_char(s: Seq<char>, c: char) -> Seq<char> {
    if exists|i: int| first_index_of(s, c, i) {
        s.subrange(0, choose|i: int| first_index_of(s, c, i))
    } else {
        s
    }
}

/// The host of a URL as the cookie scoping reads it: the text between the
/// first and second `://` (the whole URL when it has none), cut at the first
/// `/`, then at the first `:`.
pub open spec fn url_host(url: Seq<char>) -> Seq<char> {
    let after = match split_once_spec(url, "://"@) {
        Some((_, rest)) => match split_once_spec(rest, "://"@) {
            Some((seg, _)) => seg,
            None => rest,
        },
        None => url,
    };
    before_char(before_char(after, '/'), ':')
}

fn before_char_exec(s: &[char], c: char) -> (r: Vec<char>)
    ensures
        r@ == before_char(s@, c),
{
    match find_char(s, c) {
        Some(i) => {
            proof {
                assert forall|k: int| first_index_of(s@, c, k) implies k == i by {
                    lemma_first_index_unique(s@, c, i as int, k);
                }
            }
            slice_chars(s, 0, i)
        },
        None => {
            proof {
                assert forall|k: int| !first_index_of(s@, c, k) by {
                    if first_index_of(s@, c, k) {
                        assert(s@[k] == c);
                    }
                }
                assert(s@.subrange(0, s@.len() as int) =~= s@);
            }
            slice_chars(s, 0, s.len())
        },
    }
}

/// The host of a URL, as the cookie scoping reads it.
pub fn cookie_host(site_url: &str) -> (r: String)
    ensures
        r@ == url_host(site_url@),
{
    let u = chars_of(site_url);
    let sep = chars_of("://");
    let after = match split_once(u.as_slice(), sep.as_slice()) {
        Some((_, rest)) => match split_once(rest.as_slice(), sep.as_slice()) {
            Some((seg, _)) => seg,
            None => rest,
        },
        None => u,
    };
    let a = before_char_exec(after.as_slice(), '/');
    let b = before_char_exec(a.as_slice(), ':');
    string_of(b.as_slice())
}

/// The registrable domain (public suffix plus one label) the compiled-in
/// Public Suffix List gives for a host, if any.
pub uninterp spec fn registrable_domain(host: Seq<char>) -> Option<Seq<char>>;

/// `psl::domain_str`: the registrable domain of `host` by the Public Suffix
/// List, or none (single-label hosts such as `localhost`, hosts without a
/// registrable domain). The value is named [`registrable_domain`].
#[verifier::external_body]
fn psl_domain(host: &str) -> (r: Option<String>)
    ensures
        opt_chars(r) == registrable_domain(host@),
{
    match psl::domain_str(host) {
        Some(d) => Some(d.to_string()),
        None => None,
    }
}

/// The cookie domain for a host: the host itself when it is an IP address
/// or has no registrable domain, else `.` and its registrable domain.
pub open spec fn cookie_domain_spec(host: Seq<char>, host_is_ip: bool) -> Seq<char> {
    if host_is_ip {
        host
    } else {
        match registrable_domain(host) {
            Some(d) => "."@ + d,
            None => host,
        }
    }
}

/// The domain a solved cookie is scoped to: DataDome sets it on the eTLD+1 so
/// that it covers subdomains. `host_is_ip` tells whether the host parses as
/// an IP address, for which the Public Suffix List has nothing to say.
pub fn cookie_domain(host: &str, host_is_ip: bool) -> (r: String)
    ensures
        r@ == cookie_domain_spec(host@, host_is_ip),
{
    if host_is_ip {
        return String::from_str(host);
    }
    match psl_domain(host) {
        Some(d) => {
            let mut v: Vec<char> = Vec::new();
            extend_str(&mut v, ".");
            extend_str(&mut v, d.as_str());
            string_of(v.as_slice())
        },
        None => String::from_str(host),
    }
}

} // verus!
