//! In-page evaluators, built from the caller's [`TurnstileSelectors`].
//!
//! Each script is composed as one IIFE, so the walker's helpers stay locals
//! instead of becoming properties of the page's global object. Injected code
//! declares with `var` and iterates with indexed loops.

use crate::cloudflare::options::TurnstileSelectors;
use crate::json::{js_string, js_string_array, json_str, json_str_array};
use crate::text::{
    chars_of, contains_seq, extend_chars, extend_str, lemma_occurs_in_context, occurs_at, string_of,
};
use vstd::prelude::*;

verus! {

/// The shared prelude of every evaluator: `findChallengeIframe(root)`, the
/// first iframe reachable from `root` (through open shadow roots) whose `src`
/// contains the marker, or null for an empty marker; and `clickableRect(el)`,
/// the element's rect only when it is a real click target.
pub open spec fn walker_spec(sel: TurnstileSelectors) -> Seq<char> {
    "\n"@ + "var IFRAME_MARKER = "@ + json_str(sel.iframe_src_contains@) + ";"@ + walker_scan_open()
        + "if (f.src && f.src.includes(IFRAME_MARKER)) return f;"@ + walker_scan_rest()
}

/// The walker's text from the start of `findChallengeIframe` to its `src`
/// test.
pub open spec fn walker_scan_open() -> Seq<char> {
    r#"
function findChallengeIframe(root) {
    if (!IFRAME_MARKER) return null;
    var iframes = root.querySelectorAll ? root.querySelectorAll("iframe") : [];
    for (var i = 0; i < iframes.length; i++) {
        var f = iframes[i];
        "#@
}

/// The walker's text after the `src` test: the descent into open shadow
/// roots, and `clickableRect`.
pub open spec fn walker_scan_rest() -> Seq<char> {
    r#"
    }
    var all = root.querySelectorAll ? root.querySelectorAll("*") : [];
    for (var j = 0; j < all.length; j++) {
        if (all[j].shadowRoot) {
            var sub = findChallengeIframe(all[j].shadowRoot);
            if (sub) return sub;
        }
    }
    return null;
}
function clickableRect(el) {
    if (!el) return null;
    var r = el.getBoundingClientRect();
    if (!(r.width > 0 && r.height > 0)) return null;
    var view = el.ownerDocument && el.ownerDocument.defaultView;
    var style = view && view.getComputedStyle ? view.getComputedStyle(el) : null;
    if (style && (style.visibility === "hidden" || style.display === "none" || style.opacity === "0")) {
        return null;
    }
    return { x: r.left, y: r.top, width: r.width, height: r.height };
}
"#@
}

/// The walker prelude for `selectors`.
pub fn walker_js(selectors: &TurnstileSelectors) -> (r: String)
    ensures
        r@ == walker_spec(*selectors),
{
    let marker = js_string(selectors.iframe_src_contains.as_str());
    let mut v: Vec<char> = Vec::new();
    extend_str(&mut v, "\n");
    extend_str(&mut v, "var IFRAME_MARKER = ");
    extend_str(&mut v, marker.as_str());
    extend_str(&mut v, ";");
    extend_str(&mut v, r#"
function findChallengeIframe(root) {
    if (!IFRAME_MARKER) return null;
    var iframes = root.querySelectorAll ? root.querySelectorAll("iframe") : [];
    for (var i = 0; i < iframes.length; i++) {
        var f = iframes[i];
        "#);
    extend_str(&mut v, "if (f.src && f.src.includes(IFRAME_MARKER)) return f;");
    extend_str(&mut v, r#"
    }
    var all = root.querySelectorAll ? root.querySelectorAll("*") : [];
    for (var j = 0; j < all.length; j++) {
        if (all[j].shadowRoot) {
            var sub = findChallengeIframe(all[j].shadowRoot);
            if (sub) return sub;
        }
    }
    return null;
}
function clickableRect(el) {
    if (!el) return null;
    var r = el.getBoundingClientRect();
    if (!(r.width > 0 && r.height > 0)) return null;
    var view = el.ownerDocument && el.ownerDocument.defaultView;
    var style = view && view.getComputedStyle ? view.getComputedStyle(el) : null;
    if (style && (style.visibility === "hidden" || style.display === "none" || style.opacity === "0")) {
        return null;
    }
    return { x: r.left, y: r.top, width: r.width, height: r.height };
}
"#);
    string_of(v.as_slice())
}

/// The walker and `body` together inside one IIFE, whose completion value is
/// whatever `body` returns.
pub open spec fn main_world_spec(sel: TurnstileSelectors, body: Seq<char>) -> Seq<char> {
    "(function(){"@ + walker_spec(sel) + body + "})()"@
}

/// Compose the in-page source for `body`.
pub fn main_world_expr(selectors: &TurnstileSelectors, body: &str) -> (r: String)
    ensures
        r@ == main_world_spec(*selectors, body@),
{
    let walker = walker_js(selectors);
    let mut v: Vec<char> = Vec::new();
    extend_str(&mut v, "(function(){");
    extend_str(&mut v, walker.as_str());
    extend_str(&mut v, body);
    extend_str(&mut v, "})()");
    string_of(v.as_slice())
}

/// The body of the poll evaluator: the token of the first configured input
/// holding one, the clickable rect of the challenge iframe, and whether any
/// marker is present (the container check guarded against an empty
/// selector).
pub open spec fn poll_body_spec(sel: TurnstileSelectors) -> Seq<char> {
    r#"
    var iframe = findChallengeIframe(document);
    var bbox = clickableRect(iframe);
    var tokenSelectors = "#@ + json_str_array(sel.token_inputs@.map_values(|v: String| v@)) + r#";
    var input = null;
    for (var k = 0; k < tokenSelectors.length && !input; k++) {
        if (tokenSelectors[k]) input = document.querySelector(tokenSelectors[k]);
    }
    var token = (input && input.value) ? input.value : null;
    var containerSelector = "#@ + json_str(
        sel.container@,
    ) + r#";
    var hasContainer = containerSelector ? !!document.querySelector(containerSelector) : false;
    var hasMarkers = hasContainer || !!input || !!iframe;
    return { token: token, bbox: bbox, hasMarkers: hasMarkers };
"#@
}

/// The unified poll evaluator.
pub open spec fn poll_spec(sel: TurnstileSelectors) -> Seq<char> {
    main_world_spec(sel, poll_body_spec(sel))
}

/// The unified poll evaluator: token, clickable rect and marker presence in
/// one round-trip.
pub fn poll_expr(selectors: &TurnstileSelectors) -> (r: String)
    ensures
        r@ == poll_spec(*selectors),
{
    let container = js_string(selectors.container.as_str());
    let token_selectors = js_string_array(selectors.token_inputs.as_slice());
    let mut v: Vec<char> = Vec::new();
    extend_str(&mut v, r#"
    var iframe = findChallengeIframe(document);
    var bbox = clickableRect(iframe);
    var tokenSelectors = "#);
    extend_str(&mut v, token_selectors.as_str());
    extend_str(&mut v, r#";
    var input = null;
    for (var k = 0; k < tokenSelectors.length && !input; k++) {
        if (tokenSelectors[k]) input = document.querySelector(tokenSelectors[k]);
    }
    var token = (input && input.value) ? input.value : null;
    var containerSelector = "#);
    extend_str(&mut v, container.as_str());
    extend_str(&mut v, r#";
    var hasContainer = containerSelector ? !!document.querySelector(containerSelector) : false;
    var hasMarkers = hasContainer || !!input || !!iframe;
    return { token: token, bbox: bbox, hasMarkers: hasMarkers };
"#);
    let body = string_of(v.as_slice());
    main_world_expr(selectors, body.as_str())
}

/// Text found in the walker is found in every evaluator built on it.
proof fn lemma_evaluator_carries_walker(sel: TurnstileSelectors, body: Seq<char>, p: Seq<char>, j: int)
    requires
        occurs_at(walker_spec(sel), p, j),
    ensures
        occurs_at(main_world_spec(sel, body), p, "(function(){"@.len() + j),
{
    let w = walker_spec(sel);
    lemma_occurs_in_context("(function(){"@, w, body, p, j);
    lemma_occurs_in_context(Seq::empty(), "(function(){"@ + w + body, "})()"@, p, "(function(){"@.len() + j);
    assert(Seq::<char>::empty() + ("(function(){"@ + w + body) =~= "(function(){"@ + w + body);
}

/// The walker selects an iframe whose `src` contains the configured marker
/// anywhere in it (a substring test, so an `https://` URL that names the
/// challenge host matches), with the marker bound to `IFRAME_MARKER` as a
/// JavaScript string literal; every evaluator built on the walker, the poll
/// evaluator among them, carries both.
pub proof fn walker_matches_marker_anywhere_in_src(sel: TurnstileSelectors, body: Seq<char>)
    ensures
        contains_seq(walker_spec(sel), "if (f.src && f.src.includes(IFRAME_MARKER)) return f;"@),
        contains_seq(walker_spec(sel), "var IFRAME_MARKER = "@ + json_str(sel.iframe_src_contains@) + ";"@),
        contains_seq(main_world_spec(sel, body), "if (f.src && f.src.includes(IFRAME_MARKER)) return f;"@),
        contains_seq(poll_spec(sel), "if (f.src && f.src.includes(IFRAME_MARKER)) return f;"@),
{
    let test = "if (f.src && f.src.includes(IFRAME_MARKER)) return f;"@;
    let decl = "var IFRAME_MARKER = "@ + json_str(sel.iframe_src_contains@) + ";"@;
    let before = "\n"@ + decl + walker_scan_open();
    let after = walker_scan_rest();
    let w = walker_spec(sel);
    assert(w =~= before + test + after);
    assert(w.subrange(before.len() as int, before.len() + test.len() as int) =~= test);
    reveal_strlit("\n");
    assert(w.subrange(1, 1int + decl.len()) =~= decl);
    assert(occurs_at(w, decl, 1));
    lemma_evaluator_carries_walker(sel, body, test, before.len() as int);
    lemma_evaluator_carries_walker(sel, poll_body_spec(sel), test, before.len() as int);
}

/// The body of the scroll-and-measure evaluator: bring the iframe fully into
/// the viewport with an instant scroll, then return its post-scroll
/// clickable rect.
pub open spec fn scroll_body() -> Seq<char> {
    r#"
    var iframe = findChallengeIframe(document);
    if (!iframe) return null;
    var r = iframe.getBoundingClientRect();
    var vw = window.innerWidth || document.documentElement.clientWidth;
    var vh = window.innerHeight || document.documentElement.clientHeight;
    var fullyVisible = r.top >= 0 && r.left >= 0 && r.bottom <= vh && r.right <= vw;
    if (!fullyVisible && iframe.scrollIntoView) {
        iframe.scrollIntoView({ block: "center", inline: "center", behavior: "instant" });
    }
    return clickableRect(iframe);
"#@
}

/// The scroll-and-measure evaluator.
pub fn scroll_expr(selectors: &TurnstileSelectors) -> (r: String)
    ensures
        r@ == main_world_spec(*selectors, scroll_body()),
{
    main_world_expr(selectors, r#"
    var iframe = findChallengeIframe(document);
    if (!iframe) return null;
    var r = iframe.getBoundingClientRect();
    var vw = window.innerWidth || document.documentElement.clientWidth;
    var vh = window.innerHeight || document.documentElement.clientHeight;
    var fullyVisible = r.top >= 0 && r.left >= 0 && r.bottom <= vh && r.right <= vw;
    if (!fullyVisible && iframe.scrollIntoView) {
        iframe.scrollIntoView({ block: "center", inline: "center", behavior: "instant" });
    }
    return clickableRect(iframe);
"#)
}

/// The body of the presence detector: the raw rect of a mounted challenge
/// iframe, clickable or not.
pub open spec fn detect_body() -> Seq<char> {
    r#"
    var iframe = findChallengeIframe(document);
    if (!iframe) return null;
    var r = iframe.getBoundingClientRect();
    return { x: r.left, y: r.top, width: r.width, height: r.height };
"#@
}

/// The presence detector.
pub fn detect_expr(selectors: &TurnstileSelectors) -> (r: String)
    ensures
        r@ == main_world_spec(*selectors, detect_body()),
{
    main_world_expr(selectors, r#"
    var iframe = findChallengeIframe(document);
    if (!iframe) return null;
    var r = iframe.getBoundingClientRect();
    return { x: r.left, y: r.top, width: r.width, height: r.height };
"#)
}

/// Every evaluator is exactly one IIFE: it starts with `(function(){` and
/// ends with `})()`, so nothing it declares becomes a page global.
pub proof fn evaluators_are_single_iifes(sel: TurnstileSelectors, body: Seq<char>)
    ensures
        main_world_spec(sel, body).subrange(0, "(function(){"@.len() as int) == "(function(){"@,
        main_world_spec(sel, body).subrange(
            main_world_spec(sel, body).len() - "})()"@.len(),
            main_world_spec(sel, body).len() as int,
        ) == "})()"@,
{
    let m = main_world_spec(sel, body);
    let head = "(function(){"@;
    let mid = walker_spec(sel) + body;
    let tail = "})()"@;
    assert(m == head + mid + tail) by {
        assert(head + walker_spec(sel) + body + tail =~= head + mid + tail);
    }
    assert((head + mid + tail).subrange(0, head.len() as int) =~= head);
    assert((head + mid + tail).subrange(
        (head + mid + tail).len() - tail.len(),
        (head + mid + tail).len() as int,
    ) =~= tail);
}

} // verus!
