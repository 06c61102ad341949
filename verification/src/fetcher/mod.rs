//! Chromium binary downloader: which build to fetch, where it lives in the
//! cache, and how each distribution's index answers for it.

pub mod distribution;
pub mod archive;
pub mod cache;
pub mod cli;
pub mod error;
pub mod extract;
pub mod fetcher;
pub mod laws;
pub mod manifest;
pub mod net;
pub mod platform;
pub mod resolver;
pub mod version;
