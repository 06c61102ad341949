//! Imperva: the surfaces a probe reports, the CAPTCHA escalation, and the
//! decisions of the clearance loop.

pub mod captcha;
pub mod clearance;
pub mod detection;
pub mod error;
