use std::time::Duration;

use zendriver::cloudflare::clearance::{ClearanceOutcome, ClearanceState, PollDecision};
use zendriver::cloudflare::error::CloudflareError;
use zendriver::cloudflare::js::{detect_expr, main_world_expr, poll_expr, scroll_expr};
use zendriver::cloudflare::options::TurnstileSelectors;
use zendriver::datadome::captcha::{challenge_from, cookie_domain, cookie_host, DataDomeSolution};
use zendriver::datadome::clearance::{
    is_already_clear, poll_step as dd_poll_step, ClearanceOutcome as DdOutcome, PollStep as DdStep,
};
use zendriver::datadome::detection::{surface_from_str, DataDomeSurface, DdConfig, DetectionSnapshot};
use zendriver::datadome::error::DataDomeError;
use zendriver::imperva::captcha::{escape_field_name, inject_script, site_key_for, CaptchaSolution};
use zendriver::imperva::clearance::{
    first_probe, poll_step as imp_poll_step, ClearanceOutcome as ImpOutcome, FirstProbe,
    PollState, PollStep as ImpStep,
};
use zendriver::imperva::error::ImpervaError;
use zendriver::imperva::detection::{
    is_challenge, surface_from, CaptchaKind, CookieSnapshot, DetectionSnapshot as ImpSnapshot,
    ImpervaSurface,
};
use zendriver::json::js_string;

// -- Cloudflare: injected evaluators --------------------------------------------

fn alien() -> TurnstileSelectors {
    TurnstileSelectors {
        iframe_src_contains: "gate.alien.invalid".into(),
        container: ".alien-widget".into(),
        token_inputs: vec!["[name=\"alien-token\"]".into()],
    }
}

#[test]
fn custom_markers_template_into_every_injected_script() {
    let sel = alien();
    for (name, src) in [
        ("poll", poll_expr(&sel)),
        ("scroll", scroll_expr(&sel)),
        ("detect", detect_expr(&sel)),
    ] {
        assert!(
            src.contains("gate.alien.invalid"),
            "{name} evaluator ignored iframe_src_contains"
        );
        for default in [
            "challenges.cloudflare.com",
            ".cf-turnstile",
            "cf-turnstile-response",
        ] {
            assert!(
                !src.contains(default),
                "{name} evaluator still carries the hardcoded {default:?}"
            );
        }
    }
    let poll = poll_expr(&sel);
    assert!(poll.contains(".alien-widget"), "container marker missing");
    assert!(poll.contains("alien-token"), "token marker missing");
}

#[test]
fn an_empty_iframe_marker_matches_no_iframe_rather_than_every_one() {
    const GUARD: &str = "if (!IFRAME_MARKER) return null;";
    let src = poll_expr(&TurnstileSelectors {
        iframe_src_contains: String::new(),
        ..TurnstileSelectors::default()
    });
    let guard = src
        .find(GUARD)
        .expect("an empty marker must short-circuit the walk");
    let walk = src
        .find(r#"querySelectorAll("iframe")"#)
        .expect("the walk itself went missing");
    assert!(guard < walk, "the empty-marker guard must precede the walk it guards");
}

#[test]
fn an_empty_container_marker_disables_the_signal_rather_than_raising() {
    let src = poll_expr(&TurnstileSelectors {
        container: String::new(),
        ..TurnstileSelectors::default()
    });
    let guard = src
        .find("containerSelector ?")
        .expect("an empty container must short-circuit before querySelector");
    let call = src
        .find("querySelector(containerSelector)")
        .expect("the container lookup itself went missing");
    assert!(guard < call, "the empty-container guard must precede the lookup it guards");
}

#[test]
fn selector_strings_are_escaped_into_js_literals() {
    let sel = TurnstileSelectors {
        iframe_src_contains: "a\"b\\c".into(),
        container: "[data-x=\"quote\"]".into(),
        token_inputs: vec!["[name=\"tok\"]".into(), "[name=\"legacy-tok\"]".into()],
    };
    let src = poll_expr(&sel);
    assert!(src.contains(r#"["[name=\"tok\"]","[name=\"legacy-tok\"]"]"#));
    for (raw, escaped) in [
        (&sel.iframe_src_contains, r#""a\"b\\c""#),
        (&sel.container, r#""[data-x=\"quote\"]""#),
    ] {
        assert_eq!(js_string(raw), escaped);
        assert!(src.contains(escaped), "{raw:?} was not emitted as {escaped}");
        assert!(!src.contains(&format!("\"{raw}\"")), "{raw:?} was interpolated raw");
    }
}

fn top_level_page_globals(src: &str) -> Vec<String> {
    let is_ident = |c: char| c.is_alphanumeric() || c == '_' || c == '$';
    let mut found = Vec::new();
    let mut depth = 0i32;
    for (i, ch) in src.char_indices() {
        match ch {
            '{' => depth += 1,
            '}' => depth -= 1,
            _ => {}
        }
        if depth != 0 {
            continue;
        }
        if src[..i].chars().next_back().is_some_and(is_ident) {
            continue;
        }
        for keyword in ["function", "var"] {
            let Some(rest) = src[i..].strip_prefix(keyword) else {
                continue;
            };
            if keyword == "var" && !rest.starts_with(char::is_whitespace) {
                break;
            }
            let name: String = rest
                .trim_start()
                .chars()
                .take_while(|c| is_ident(*c))
                .collect();
            if !name.is_empty() {
                found.push(name);
            }
            break;
        }
    }
    found
}

#[test]
fn top_level_scan_catches_every_leaked_page_global() {
    assert_eq!(
        top_level_page_globals(
            "function findChallengeIframe(root) { return null; }\n(function(){ return 1; })()"
        ),
        vec!["findChallengeIframe".to_string()],
    );
    assert_eq!(
        top_level_page_globals("var iframes = document.querySelectorAll('iframe');"),
        vec!["iframes".to_string()],
        "a top-level `var` is a `window` property too"
    );
    assert!(
        top_level_page_globals("(function(){ function nested(){} var local = 1; })()").is_empty(),
        "a declaration inside the wrapper is a local, not a global"
    );
    assert!(
        top_level_page_globals("let a = 1; const b = 2; class C {}\nvarnish.myvar = 3;")
            .is_empty(),
    );
}

#[test]
fn injected_sources_declare_no_page_globals() {
    let sel = TurnstileSelectors::default();
    for (name, src) in [
        ("poll evaluator", poll_expr(&sel)),
        ("scroll evaluator", scroll_expr(&sel)),
        ("detect evaluator", detect_expr(&sel)),
    ] {
        let leaked = top_level_page_globals(&src);
        assert!(leaked.is_empty(), "{name} publishes {leaked:?} onto the page's global object");
        assert!(src.contains("function findChallengeIframe("));
        assert!(src.contains("function clickableRect("));
        assert!(
            src.starts_with("(function(){") && src.ends_with("})()"),
            "{name} must be exactly one IIFE"
        );
    }
    assert!(main_world_expr(&sel, "return 1;").ends_with("return 1;})()"));
}

#[test]
fn scroll_evaluator_pins_instant_scroll_behavior() {
    const CALL: &str = "scrollIntoView(";
    let src = scroll_expr(&TurnstileSelectors::default());
    let mut calls = 0;
    for (idx, _) in src.match_indices(CALL) {
        let after = &src[idx + CALL.len()..];
        let end = after.find(')').expect("unterminated scrollIntoView call");
        let args = &after[..end];
        assert!(
            args.contains(r#"behavior: "instant""#),
            "scrollIntoView({args}) leaves behavior to the page's computed scroll-behavior"
        );
        calls += 1;
    }
    assert_eq!(calls, 1, "expected one scrollIntoView call to guard");
}

#[test]
fn default_selectors_are_cloudflares_markers() {
    let d = TurnstileSelectors::default();
    assert_eq!(d.iframe_src_contains, "challenges.cloudflare.com");
    assert_eq!(d.container, ".cf-turnstile, .turnstile, [data-sitekey]");
    assert_eq!(
        d.token_inputs,
        vec![
            "[name=\"cf-turnstile-response\"]".to_string(),
            "[name=\"cf_challenge_response\"]".to_string()
        ]
    );
}

// -- Cloudflare: clearance loop --------------------------------------------------

#[test]
fn a_token_ends_the_run_at_once() {
    let mut s = ClearanceState::new();
    let d = s.on_poll(3, 4, Some("TOKEN".into()), true, true);
    assert_eq!(d, PollDecision::Acquired("TOKEN".into()));
    assert!(s.ever_seen_markers);
}

#[test]
fn clicks_are_spaced_and_capped() {
    let mut s = ClearanceState::new();
    let mut clicks = 0;
    for _ in 0..40 {
        let d = s.on_poll(3, 4, None, true, true);
        let clicked = d == PollDecision::Click;
        if clicked {
            clicks += 1;
        }
        let (_, outcome) = s.end_tick(3, clicked, false);
        assert_eq!(outcome, None);
    }
    assert_eq!(clicks, 3);
    assert_eq!(s.clicks, 3);
}

#[test]
fn the_second_click_waits_retry_ticks() {
    let mut s = ClearanceState::new();
    assert_eq!(s.on_poll(3, 4, None, true, true), PollDecision::Click);
    s.end_tick(3, true, false);
    for _ in 0..3 {
        assert_eq!(s.on_poll(3, 4, None, true, true), PollDecision::Wait);
        s.end_tick(3, false, false);
    }
    assert_eq!(s.on_poll(3, 4, None, true, true), PollDecision::Click);
}

#[test]
fn markers_vanishing_after_being_seen_is_challenge_gone() {
    let mut s = ClearanceState::new();
    assert_eq!(s.on_poll(0, 4, None, false, true), PollDecision::Wait);
    s.end_tick(0, false, false);
    assert_eq!(s.on_poll(0, 4, None, false, false), PollDecision::Gone);
}

#[test]
fn the_stall_hint_fires_once_and_never_in_watch_only_runs() {
    let mut s = ClearanceState::new();
    let mut warnings = 0;
    for _ in 0..30 {
        s.on_poll(3, 4, None, false, true);
        let (warn, _) = s.end_tick(3, false, false);
        if warn {
            warnings += 1;
        }
    }
    assert_eq!(warnings, 1);

    let mut s = ClearanceState::new();
    for _ in 0..30 {
        s.on_poll(0, 4, None, false, true);
        let (warn, _) = s.end_tick(0, false, false);
        assert!(!warn);
    }
}

#[test]
fn the_deadline_reports_whether_markers_were_seen() {
    let mut s = ClearanceState::new();
    s.on_poll(3, 4, None, false, false);
    let (_, outcome) = s.end_tick(3, false, true);
    assert_eq!(outcome, Some(ClearanceOutcome::TimedOut { saw_challenge: false }));
}

// -- DataDome ---------------------------------------------------------------------

fn dd_snap(
    surface: DataDomeSurface,
    cookie: Option<&str>,
    body_clean: bool,
) -> DetectionSnapshot {
    DetectionSnapshot {
        surface,
        datadome: cookie.map(String::from),
        dd: Some(DdConfig {
            cid: Some("C".into()),
            hsh: Some("H".into()),
            t: Some("fe".into()),
            host: Some("geo.captcha-delivery.com".into()),
        }),
        captcha_url: Some("https://geo.captcha-delivery.com/captcha/?cid=C".into()),
        body_clean,
    }
}

#[test]
fn detect_surface_classifies_each_surface() {
    assert_eq!(surface_from_str("device_check"), DataDomeSurface::DeviceCheck);
    assert_eq!(surface_from_str("captcha"), DataDomeSurface::Captcha);
    assert_eq!(surface_from_str("block"), DataDomeSurface::Block);
    assert_eq!(surface_from_str("none"), DataDomeSurface::Absent);
}

#[test]
fn already_clear_on_clean_page() {
    assert!(is_already_clear(&dd_snap(DataDomeSurface::Absent, Some("DD"), true)));
    assert!(!is_already_clear(&dd_snap(DataDomeSurface::DeviceCheck, None, true)));
}

#[test]
fn block_is_immediate_terminal() {
    let mut last = None;
    assert_eq!(
        dd_poll_step(&dd_snap(DataDomeSurface::Block, None, false), &mut last),
        DdStep::Finish(DdOutcome::Blocked)
    );
}

#[test]
fn device_check_clears_when_cookie_lands_and_body_clean() {
    let mut last = None;
    assert_eq!(
        dd_poll_step(&dd_snap(DataDomeSurface::DeviceCheck, None, false), &mut last),
        DdStep::Continue
    );
    assert_eq!(last, Some(DataDomeSurface::DeviceCheck));
    assert_eq!(
        dd_poll_step(&dd_snap(DataDomeSurface::DeviceCheck, Some(""), true), &mut last),
        DdStep::Continue
    );
    assert_eq!(
        dd_poll_step(&dd_snap(DataDomeSurface::Absent, Some("COOKIE_OK"), true), &mut last),
        DdStep::Finish(DdOutcome::Cleared { datadome: "COOKIE_OK".into() })
    );
    assert_eq!(
        dd_poll_step(&dd_snap(DataDomeSurface::Absent, None, true), &mut last),
        DdStep::Finish(DdOutcome::ChallengeGone)
    );
}

#[test]
fn captcha_escalates_to_the_solver() {
    let mut last = None;
    assert_eq!(
        dd_poll_step(&dd_snap(DataDomeSurface::Captcha, None, false), &mut last),
        DdStep::SolveCaptcha
    );
    assert_eq!(last, Some(DataDomeSurface::Captcha));
    let c = challenge_from(
        &dd_snap(DataDomeSurface::Captcha, Some("DD"), false),
        "https://shop.example.com/".into(),
        "UA".into(),
    );
    assert_eq!(c.cid.as_deref(), Some("C"));
    assert_eq!(c.hash.as_deref(), Some("H"));
    assert_eq!(c.captcha_url, "https://geo.captcha-delivery.com/captcha/?cid=C");
    let mut s = dd_snap(DataDomeSurface::Captcha, Some("DD"), false);
    s.dd = None;
    s.captcha_url = None;
    let c = challenge_from(&s, String::new(), String::new());
    assert_eq!(c.cid.as_deref(), Some("DD"));
    assert_eq!(c.hash, None);
    assert_eq!(c.captcha_url, "");
    let _ = DataDomeSolution { datadome_cookie: "X".into() };
}

#[test]
fn cookie_domain_derives_etld_plus_one() {
    let domain = |url: &str| cookie_domain(&cookie_host(url), false);
    assert_eq!(domain("https://shop.example.com/x"), ".example.com");
    assert_eq!(domain("https://example.com/"), ".example.com");
    assert_eq!(domain("https://a.b.example.com/p?q=1"), ".example.com");
    assert_eq!(domain("http://localhost:8080/"), "localhost");
    assert_eq!(domain("https://shop.example.co.uk/"), ".example.co.uk");
    assert_eq!(cookie_host("http://127.0.0.1:8080/x"), "127.0.0.1");
    assert_eq!(cookie_domain("127.0.0.1", true), "127.0.0.1");
}

#[test]
fn cookie_domain_handles_multi_label_public_suffixes() {
    let domain = |url: &str| cookie_domain(&cookie_host(url), false);
    assert_eq!(domain("https://shop.example.co.uk/"), ".example.co.uk");
    assert_eq!(domain("https://a.b.shop.example.co.uk/p?q=1"), ".example.co.uk");
    assert_eq!(domain("https://a.example.uk.com/"), ".example.uk.com");
}

#[test]
fn cookie_domain_falls_back_to_exact_host_for_ip_addresses() {
    let host = cookie_host("http://127.0.0.1:8080/");
    assert_eq!(host, "127.0.0.1");
    assert_eq!(cookie_domain(&host, true), "127.0.0.1");
}

// -- Imperva ----------------------------------------------------------------------

fn imp_snap(surface: ImpervaSurface, token: Option<&str>, body_clean: bool) -> ImpSnapshot {
    ImpSnapshot {
        surface,
        reese84: token.map(String::from),
        body_clean,
        sessions: vec![CookieSnapshot {
            name: "reese84".into(),
            value: "TOKEN_XYZ".into(),
        }],
    }
}

#[test]
fn surfaces_and_captcha_kinds_are_read_from_the_probe() {
    assert_eq!(surface_from("Reese84", None), ImpervaSurface::Reese84);
    assert_eq!(surface_from("Legacy", None), ImpervaSurface::Legacy);
    assert_eq!(
        surface_from("Captcha", Some("HCaptcha")),
        ImpervaSurface::Captcha(CaptchaKind::HCaptcha)
    );
    assert_eq!(
        surface_from("Captcha", Some("Recaptcha")),
        ImpervaSurface::Captcha(CaptchaKind::Recaptcha)
    );
    assert_eq!(
        surface_from("Captcha", Some("ImpervaNative")),
        ImpervaSurface::Captcha(CaptchaKind::ImpervaNative)
    );
    assert_eq!(
        surface_from("Captcha", None),
        ImpervaSurface::Captcha(CaptchaKind::Unknown)
    );
    assert_eq!(surface_from("whatever", None), ImpervaSurface::Absent);
    assert!(is_challenge(ImpervaSurface::Legacy));
    assert!(!is_challenge(ImpervaSurface::Absent));
}

#[test]
fn wait_for_clearance_returns_already_clear_on_clean_page() {
    assert_eq!(
        first_probe(&imp_snap(ImpervaSurface::Absent, None, true)),
        FirstProbe::AlreadyClear
    );
    assert_eq!(
        first_probe(&imp_snap(ImpervaSurface::Captcha(CaptchaKind::HCaptcha), None, false)),
        FirstProbe::Solve(CaptchaKind::HCaptcha)
    );
    assert_eq!(first_probe(&imp_snap(ImpervaSurface::Reese84, None, false)), FirstProbe::Poll);
}

#[test]
fn wait_for_clearance_returns_token_when_both_signals_hit() {
    let mut st = PollState::new();
    let step = imp_poll_step(&mut st, imp_snap(ImpervaSurface::Reese84, Some("TOKEN_XYZ"), true));
    match step {
        ImpStep::Finish(ImpOutcome::TokenAcquired { reese84, sessions }) => {
            assert_eq!(reese84, "TOKEN_XYZ");
            assert_eq!(sessions.len(), 1);
        }
        other => panic!("{other:?}"),
    }
}

#[test]
fn wait_for_clearance_holds_when_cookie_only_no_body_clean() {
    let mut st = PollState::new();
    let step = imp_poll_step(&mut st, imp_snap(ImpervaSurface::Reese84, Some("T"), false));
    assert_eq!(step, ImpStep::Continue { warn_stall: false });
    assert_eq!(st.last_surface, Some(ImpervaSurface::Reese84));
}

#[test]
fn wait_for_clearance_returns_challenge_gone_when_body_clean_no_token() {
    let mut st = PollState::new();
    assert_eq!(
        imp_poll_step(&mut st, imp_snap(ImpervaSurface::Absent, None, true)),
        ImpStep::Finish(ImpOutcome::ChallengeGone)
    );
    assert_eq!(
        imp_poll_step(&mut st, imp_snap(ImpervaSurface::Legacy, None, true)),
        ImpStep::Continue { warn_stall: false }
    );
}

#[test]
fn wait_for_clearance_treats_empty_reese84_as_unset() {
    let mut st = PollState::new();
    assert_eq!(
        imp_poll_step(&mut st, imp_snap(ImpervaSurface::Absent, Some(""), true)),
        ImpStep::Finish(ImpOutcome::ChallengeGone)
    );
}

#[test]
fn the_imperva_stall_hint_fires_once_per_run() {
    let mut st = PollState::new();
    let mut warnings = 0;
    for _ in 0..30 {
        if let ImpStep::Continue { warn_stall: true } =
            imp_poll_step(&mut st, imp_snap(ImpervaSurface::Legacy, None, false))
        {
            warnings += 1;
        }
    }
    assert_eq!(warnings, 1);
}

#[test]
fn site_keys_follow_the_captcha_kind() {
    let h = Some("H".to_string());
    let r = Some("R".to_string());
    assert_eq!(site_key_for(CaptchaKind::HCaptcha, h.clone(), r.clone()), h);
    assert_eq!(site_key_for(CaptchaKind::Recaptcha, h.clone(), r.clone()), r);
    assert_eq!(site_key_for(CaptchaKind::ImpervaNative, h.clone(), r.clone()), None);
    assert_eq!(site_key_for(CaptchaKind::Unknown, h, r), None);
}

#[test]
fn injected_solution_escapes_the_field_name() {
    assert_eq!(
        escape_field_name("a\\b\"c").into_iter().collect::<String>(),
        "a\\\\b\\\"c"
    );
    let script = inject_script(&CaptchaSolution {
        token: "t\"ok".into(),
        form_field: "g-recaptcha-response".into(),
    });
    assert!(script.contains("document.querySelector('[name=\"g-recaptcha-response\"]')"));
    assert!(script.contains("field.value = \"t\\\"ok\";"));
    assert!(script.contains("t.id = \"g-recaptcha-response\";"));
}

// -- faults ----------------------------------------------------------------------

#[test]
fn display_js_error_passthrough() {
    let e = CloudflareError::JsError("bad payload".into());
    assert_eq!(e.to_string(), "JS error: bad payload");
}

#[test]
fn cloudflare_call_failures_name_the_call_error() {
    let e = CloudflareError::Call("connection closed".into());
    assert_eq!(e.to_string(), "call failed: connection closed");
}

#[test]
fn display_captcha_required() {
    assert_eq!(
        DataDomeError::CaptchaRequired.to_string(),
        "CAPTCHA surface detected but no solver registered"
    );
}

#[test]
fn error_display_js_error_passthrough() {
    assert_eq!(
        DataDomeError::JsError("bad payload".into()).to_string(),
        "JS error: bad payload"
    );
}

#[test]
fn datadome_faults_carry_their_cause() {
    assert_eq!(
        DataDomeError::CaptchaSolver("quota".into()).to_string(),
        "CAPTCHA solver failed: quota"
    );
    assert_eq!(
        DataDomeError::Interception("no fetch domain".into()).to_string(),
        "interception hook error: no fetch domain"
    );
    assert_eq!(DataDomeError::Call("gone".into()).to_string(), "call failed: gone");
}

#[test]
fn display_timeout_includes_duration() {
    let e = ImpervaError::Timeout {
        timeout: Duration::from_secs(30),
        last_surface: Some(ImpervaSurface::Reese84),
    };
    assert_eq!(e.to_string(), "clearance not achieved within 30s");
}

#[test]
fn imperva_timeouts_print_sub_second_durations() {
    let e = ImpervaError::Timeout { timeout: Duration::from_millis(1500), last_surface: None };
    assert_eq!(e.to_string(), "clearance not achieved within 1.5s");
}

#[test]
fn display_captcha_required_includes_kind() {
    let e = ImpervaError::CaptchaRequired {
        kind: CaptchaKind::HCaptcha,
    };
    assert_eq!(
        e.to_string(),
        "CAPTCHA required but no solver registered: HCaptcha"
    );
}

#[test]
fn imperva_display_js_error_passthrough() {
    let e = ImpervaError::JsError("bad payload".into());
    assert_eq!(e.to_string(), "JS error: bad payload");
}

#[test]
fn a_captcha_appearing_mid_run_is_escalated() {
    let mut st = PollState::new();
    assert_eq!(
        imp_poll_step(&mut st, imp_snap(ImpervaSurface::Reese84, None, false)),
        ImpStep::Continue { warn_stall: false }
    );
    let before = st;
    assert_eq!(
        imp_poll_step(&mut st, imp_snap(ImpervaSurface::Captcha(CaptchaKind::HCaptcha), None, false)),
        ImpStep::Solve(CaptchaKind::HCaptcha)
    );
    assert_eq!(st.last_surface, Some(ImpervaSurface::Captcha(CaptchaKind::HCaptcha)));
    assert_eq!(st.prev_surface, before.prev_surface);
    assert_eq!(st.stall_ticks, before.stall_ticks);
    // A live token on a clean body still wins over the surface.
    assert!(matches!(
        imp_poll_step(&mut st, imp_snap(ImpervaSurface::Captcha(CaptchaKind::Recaptcha), Some("T"), true)),
        ImpStep::Finish(ImpOutcome::TokenAcquired { .. })
    ));
}

/// A run over probes, as the clearance loop takes them in: the outcome, or
/// the last surface when the probes run out.
fn dd_run(snaps: &[zendriver::datadome::detection::DetectionSnapshot], solver: bool) -> Result<DdOutcome, &'static str> {
    let mut last = None;
    for s in snaps {
        match dd_poll_step(s, &mut last) {
            DdStep::Finish(o) => return Ok(o),
            DdStep::SolveCaptcha if !solver => return Err("captcha required"),
            _ => {}
        }
    }
    Ok(DdOutcome::TimedOut { last_surface: last })
}

#[test]
fn a_datadome_run_ends_at_its_first_deciding_probe() {
    let probes = [
        dd_snap(DataDomeSurface::DeviceCheck, None, false),
        dd_snap(DataDomeSurface::Captcha, None, false),
        dd_snap(DataDomeSurface::Absent, Some(""), false),
        dd_snap(DataDomeSurface::Absent, Some("CK"), true),
        dd_snap(DataDomeSurface::Block, None, false),
    ];
    assert_eq!(dd_run(&probes, true), Ok(DdOutcome::Cleared { datadome: "CK".into() }));
    assert_eq!(dd_run(&probes, false), Err("captcha required"));
    assert_eq!(
        dd_run(&probes[..3], true),
        Ok(DdOutcome::TimedOut { last_surface: Some(DataDomeSurface::Absent) })
    );
}

#[test]
fn an_imperva_run_ends_at_its_first_deciding_probe() {
    let probes = [
        imp_snap(ImpervaSurface::Reese84, Some(""), true),
        imp_snap(ImpervaSurface::Legacy, None, false),
        imp_snap(ImpervaSurface::Reese84, Some("TOK"), true),
    ];
    let mut st = PollState::new();
    let mut end = None;
    for p in probes.iter().cloned() {
        match imp_poll_step(&mut st, p) {
            ImpStep::Finish(o) => {
                end = Some(o);
                break;
            }
            _ => {}
        }
    }
    assert!(matches!(end, Some(ImpOutcome::TokenAcquired { ref reese84, .. }) if reese84 == "TOK"));
    let mut st = PollState::new();
    for p in probes[..2].iter().cloned() {
        assert!(matches!(imp_poll_step(&mut st, p), ImpStep::Continue { .. }));
    }
    assert_eq!(st.last_surface, Some(ImpervaSurface::Legacy));
}

#[test]
fn a_turnstile_run_times_out_reporting_markers_seen() {
    let mut s = ClearanceState::new();
    let ticks = [(None, false, true), (None, false, true)];
    let mut outcome = None;
    for (i, (token, clickable, markers)) in ticks.iter().cloned().enumerate() {
        let d = s.on_poll(3, 4, token, clickable, markers);
        assert_eq!(d, PollDecision::Wait);
        let (_, o) = s.end_tick(3, false, i == ticks.len() - 1);
        outcome = o;
    }
    assert_eq!(outcome, Some(ClearanceOutcome::TimedOut { saw_challenge: true }));
}
