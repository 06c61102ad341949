//! Verified core of a browser-automation toolkit: Chromium build resolution
//! and caching, challenge-page decision logic, and the code generators'
//! parsers.

pub mod cloudflare;
pub mod datadome;
pub mod fetcher;
pub mod fingerprints;
pub mod gpu;
pub mod imperva;
pub mod json;
pub mod locale;
pub mod search;
pub mod strmap;
pub mod text;
