//! Faults of the DataDome clearance loop. Flow terminals (cleared, blocked,
//! timed out, already clear) are clearance outcomes, not errors.

use crate::text::{extend_str, string_of};
use vstd::prelude::*;

verus! {

/// A fault of the DataDome clearance loop. The solver, interception and
/// transport failures carry the underlying error's message.
#[derive(Debug)]
pub enum DataDomeError {
    /// A CAPTCHA surface was detected, but no solver is registered.
    CaptchaRequired,
    /// The registered CAPTCHA solver failed.
    CaptchaSolver(String),
    /// The request-interception hook failed at startup.
    Interception(String),
    /// A protocol call failed.
    Call(String),
    /// An in-page evaluator raised or returned an unexpected payload shape.
    JsError(String),
}

/// The message of a [`DataDomeError`], as its `Display` prints it.
pub open spec fn datadome_message(e: DataDomeError) -> Seq<char> {
    match e {
        DataDomeError::CaptchaRequired => "CAPTCHA surface detected but no solver registered"@,
        DataDomeError::CaptchaSolver(m) => "CAPTCHA solver failed: "@ + m@,
        DataDomeError::Interception(m) => "interception hook error: "@ + m@,
        DataDomeError::Call(m) => "call failed: "@ + m@,
        DataDomeError::JsError(m) => "JS error: "@ + m@,
    }
}

impl DataDomeError {
    /// The error's message.
    pub fn to_string(&self) -> (r: String)
        ensures
            r@ == datadome_message(*self),
    {
        let mut v: Vec<char> = Vec::new();
        match self {
            DataDomeError::CaptchaRequired => {
                extend_str(&mut v, "CAPTCHA surface detected but no solver registered");
            },
            DataDomeError::CaptchaSolver(m) => {
                extend_str(&mut v, "CAPTCHA solver failed: ");
                extend_str(&mut v, m.as_str());
            },
            DataDomeError::Interception(m) => {
                extend_str(&mut v, "interception hook error: ");
                extend_str(&mut v, m.as_str());
            },
            DataDomeError::Call(m) => {
                extend_str(&mut v, "call failed: ");
                extend_str(&mut v, m.as_str());
            },
            DataDomeError::JsError(m) => {
                extend_str(&mut v, "JS error: ");
                extend_str(&mut v, m.as_str());
            },
        }
        string_of(v.as_slice())
    }
}

} // verus!
