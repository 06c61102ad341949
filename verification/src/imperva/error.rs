//! Faults of the Imperva clearance loop, and the surface types as the error
//! side names them.

use crate::text::{extend_str, string_of};
use std::time::Duration;
use vstd::prelude::*;

pub use crate::imperva::detection::{CaptchaKind, ImpervaSurface};

verus! {

/// A fault of the Imperva clearance loop. The solver, interception and
/// transport failures carry the underlying error's message.
#[derive(Debug)]
pub enum ImpervaError {
    /// Clearance was not reached within `timeout`; `last_surface` is the most
    /// recent surface the poll loop observed.
    Timeout { timeout: Duration, last_surface: Option<ImpervaSurface> },
    /// A CAPTCHA was detected, but no solver is registered.
    CaptchaRequired { kind: CaptchaKind },
    /// The registered CAPTCHA solver failed.
    CaptchaSolver(String),
    /// The request-interception hook failed at startup.
    Interception(String),
    /// A protocol call failed.
    Call(String),
    /// An in-page evaluator raised or returned an unexpected payload shape.
    JsError(String),
}

/// What `{:?}` prints for a duration (`30s`, `1.5s`, `250ms`, ...).
pub uninterp spec fn duration_debug(d: Duration) -> Seq<char>;

/// `<Duration as Debug>::fmt`, through `format!("{:?}")`.
#[verifier::external_body]
fn debug_duration(d: Duration) -> (r: String)
    ensures
        r@ == duration_debug(d),
{
    format!("{:?}", d)
}

/// The name `{:?}` prints for a CAPTCHA kind.
pub open spec fn kind_name(k: CaptchaKind) -> Seq<char> {
    match k {
        CaptchaKind::HCaptcha => "HCaptcha"@,
        CaptchaKind::Recaptcha => "Recaptcha"@,
        CaptchaKind::ImpervaNative => "ImpervaNative"@,
        CaptchaKind::Unknown => "Unknown"@,
    }
}

/// The message of an [`ImpervaError`], as its `Display` prints it.
pub open spec fn imperva_message(e: ImpervaError) -> Seq<char> {
    match e {
        ImpervaError::Timeout { timeout, .. } => "clearance not achieved within "@
            + duration_debug(timeout),
        ImpervaError::CaptchaRequired { kind } => "CAPTCHA required but no solver registered: "@
            + kind_name(kind),
        ImpervaError::CaptchaSolver(m) => "CAPTCHA solver failed: "@ + m@,
        ImpervaError::Interception(m) => "interception hook error: "@ + m@,
        ImpervaError::Call(m) => "call failed: "@ + m@,
        ImpervaError::JsError(m) => "JS error: "@ + m@,
    }
}

impl ImpervaError {
    /// The error's message.
    pub fn to_string(&self) -> (r: String)
        ensures
            r@ == imperva_message(*self),
    {
        let mut v: Vec<char> = Vec::new();
        match self {
            ImpervaError::Timeout { timeout, .. } => {
                extend_str(&mut v, "clearance not achieved within ");
                let d = debug_duration(*timeout);
                extend_str(&mut v, d.as_str());
            },
            ImpervaError::CaptchaRequired { kind } => {
                extend_str(&mut v, "CAPTCHA required but no solver registered: ");
                extend_str(
                    &mut v,
                    match kind {
                        CaptchaKind::HCaptcha => "HCaptcha",
                        CaptchaKind::Recaptcha => "Recaptcha",
                        CaptchaKind::ImpervaNative => "ImpervaNative",
                        CaptchaKind::Unknown => "Unknown",
                    },
                );
            },
            ImpervaError::CaptchaSolver(m) => {
                extend_str(&mut v, "CAPTCHA solver failed: ");
                extend_str(&mut v, m.as_str());
            },
            ImpervaError::Interception(m) => {
                extend_str(&mut v, "interception hook error: ");
                extend_str(&mut v, m.as_str());
            },
            ImpervaError::Call(m) => {
                extend_str(&mut v, "call failed: ");
                extend_str(&mut v, m.as_str());
            },
            ImpervaError::JsError(m) => {
                extend_str(&mut v, "JS error: ");
                extend_str(&mut v, m.as_str());
            },
        }
        string_of(v.as_slice())
    }
}

} // verus!
