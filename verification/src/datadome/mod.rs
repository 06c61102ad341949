//! DataDome: the surfaces a probe reports, the challenge handed to a solver,
//! where a solved cookie is scoped, and the decisions of the clearance loop.

pub mod captcha;
pub mod clearance;
pub mod detection;
pub mod error;
