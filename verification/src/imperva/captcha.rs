//! The CAPTCHA escalation: what a solver is handed and returns, which site
//! key a CAPTCHA kind uses, and the script that puts the solution into the
//! page.

use crate::imperva::detection::CaptchaKind;
use crate::json::{js_string, json_str};
use crate::text::{chars_of, extend_chars, extend_str, string_of};
use vstd::prelude::*;

verus! {

/// CAPTCHA escalation handed to a caller-supplied solver.
#[derive(Debug, Clone)]
pub struct CaptchaChallenge {
    pub kind: CaptchaKind,
    pub site_key: Option<String>,
    pub url: String,
}

/// What a solver returns: the token and the form field it goes into.
#[derive(Debug, Clone)]
pub struct CaptchaSolution {
    pub token: String,
    pub form_field: String,
}

/// The site key a CAPTCHA kind is solved with: the hCaptcha key for hCaptcha,
/// the reCAPTCHA key for reCAPTCHA, none otherwise.
pub fn site_key_for(kind: CaptchaKind, hcap: Option<String>, rcap: Option<String>) -> (r: Option<
    String,
>)
    ensures
        r == (match kind {
            CaptchaKind::HCaptcha => hcap,
            CaptchaKind::Recaptcha => rcap,
            _ => None,
        }),
{
    match kind {
        CaptchaKind::HCaptcha => hcap,
        CaptchaKind::Recaptcha => rcap,
        CaptchaKind::ImpervaNative | CaptchaKind::Unknown => None,
    }
}

/// One character of a field name inside a double-quoted JavaScript string:
/// backslash and double quote are escaped with a backslash.
pub open spec fn escape_char(c: char) -> Seq<char> {
    if c == '\\' {
        seq!['\\', '\\']
    } else if c == '"' {
        seq!['\\', '"']
    } else {
        seq![c]
    }
}

/// A field name escaped for a double-quoted JavaScript string.
pub open spec fn escape_name(s: Seq<char>) -> Seq<char>
    decreases s.len(),
{
    if s.len() == 0 {
        Seq::empty()
    } else {
        escape_name(s.drop_last()) + escape_char(s.last())
    }
}

/// Escape a field name for a double-quoted JavaScript string (backslashes
/// first, then quotes, so the inserted backslashes are not escaped again).
pub fn escape_field_name(name: &str) -> (r: Vec<char>)
    ensures
        r@ == escape_name(name@),
{
    let cs = chars_of(name);
    let mut out: Vec<char> = Vec::new();
    let mut i: usize = 0;
    while i < cs.len()
        invariant
            i <= cs@.len(),
            cs@ == name@,
            out@ == escape_name(cs@.subrange(0, i as int)),
        decreases cs@.len() - i,
    {
        let c = cs[i];
        let ghost before = out@;
        if c == '\\' {
            out.push('\\');
            out.push('\\');
        } else if c == '"' {
            out.push('\\');
            out.push('"');
        } else {
            out.push(c);
        }
        proof {
            let t = cs@.subrange(0, i + 1);
            assert(t.drop_last() =~= cs@.subrange(0, i as int));
            assert(t.last() == c);
            assert(out@ =~= before + escape_char(c));
        }
        i = i + 1;
    }
    proof {
        assert(cs@.subrange(0, cs@.len() as int) =~= cs@);
    }
    out
}

/// The script that writes a solution's token into its form field (creating a
/// hidden textarea of that name when the page has none) and fires `change`.
pub open spec fn inject_script_spec(form_field: Seq<char>, token: Seq<char>) -> Seq<char> {
    let name = escape_name(form_field);
    r#"
        (function () {
            var field = document.querySelector('[name=""#@ + name + r#""]')
                || document.getElementById(""#@ + name + r#"");
            if (!field) {
                var t = document.createElement("textarea");
                t.name = ""#@ + name + r#"";
                t.id = ""#@ + name + r#"";
                t.style.display = "none";
                document.body.appendChild(t);
                field = t;
            }
            field.value = "#@ + json_str(token) + r#";
            field.dispatchEvent(new Event("change", { bubbles: true }));
            return true;
        })()
        "#@
}

/// The script that puts a solution into the page.
pub fn inject_script(solution: &CaptchaSolution) -> (r: String)
    ensures
        r@ == inject_script_spec(solution.form_field@, solution.token@),
{
    let name = escape_field_name(solution.form_field.as_str());
    let tok = js_string(solution.token.as_str());
    let mut v: Vec<char> = Vec::new();
    extend_str(&mut v, r#"
        (function () {
            var field = document.querySelector('[name=""#);
    extend_chars(&mut v, name.as_slice());
    extend_str(&mut v, r#""]')
                || document.getElementById(""#);
    extend_chars(&mut v, name.as_slice());
    extend_str(&mut v, r#"");
            if (!field) {
                var t = document.createElement("textarea");
                t.name = ""#);
    extend_chars(&mut v, name.as_slice());
    extend_str(&mut v, r#"";
                t.id = ""#);
    extend_chars(&mut v, name.as_slice());
    extend_str(&mut v, r#"";
                t.style.display = "none";
                document.body.appendChild(t);
                field = t;
            }
            field.value = "#);
    extend_str(&mut v, tok.as_str());
    extend_str(&mut v, r#";
            field.dispatchEvent(new Event("change", { bubbles: true }));
            return true;
        })()
        "#);
    string_of(v.as_slice())
}

} // verus!
