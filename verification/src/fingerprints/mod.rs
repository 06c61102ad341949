//! The verified parts of the fingerprint crate: cache freshness, decoding of
//! sampled attribute strings, and the deterministic random stream.

pub mod cache;
pub mod mapping;
pub mod rng;
