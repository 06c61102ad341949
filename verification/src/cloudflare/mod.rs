//! Cloudflare Turnstile: the markers that identify the widget, the in-page
//! evaluators built from them, and the decisions of the clearance loop.

pub mod clearance;
pub mod error;
pub mod js;
pub mod options;
