//! Faults of the Cloudflare clearance loop.

use crate::text::{extend_str, string_of};
use vstd::prelude::*;

verus! {

/// A fault of the Cloudflare clearance loop. The transport failure carries
/// the underlying call error's message.
#[derive(Debug)]
pub enum CloudflareError {
    /// A protocol call failed.
    Call(String),
    /// An in-page evaluator raised or returned an unexpected payload shape.
    JsError(String),
}

/// The message of a [`CloudflareError`], as its `Display` prints it.
pub open spec fn cloudflare_message(e: CloudflareError) -> Seq<char> {
    match e {
        CloudflareError::Call(m) => "call failed: "@ + m@,
        CloudflareError::JsError(m) => "JS error: "@ + m@,
    }
}

impl CloudflareError {
    /// The error's message.
    pub fn to_string(&self) -> (r: String)
        ensures
            r@ == cloudflare_message(*self),
    {
        let mut v: Vec<char> = Vec::new();
        match self {
            CloudflareError::Call(m) => {
                extend_str(&mut v, "call failed: ");
                extend_str(&mut v, m.as_str());
            },
            CloudflareError::JsError(m) => {
                extend_str(&mut v, "JS error: ");
                extend_str(&mut v, m.as_str());
            },
        }
        string_of(v.as_slice())
    }
}

} // verus!
