//! What one DataDome probe reports.

use crate::text::str_eq;
use vstd::prelude::*;

verus! {

/// Which DataDome surface a tab is showing.
#[derive(Debug, Clone, Copy, PartialEq, Eq, Structural)]
pub enum DataDomeSurface {
    /// `window.dd.t == 'fe'`: the device check / interstitial.
    DeviceCheck,
    /// A captcha-delivery iframe is present.
    Captcha,
    /// `window.dd.t == 'bv'`: the IP is banned.
    Block,
    /// No DataDome surface.
    Absent,
}

/// The parsed `window.dd` challenge descriptor.
#[derive(Debug, Clone, PartialEq, Eq)]
pub struct DdConfig {
    pub cid: Option<String>,
    pub hsh: Option<String>,
    pub t: Option<String>,
    pub host: Option<String>,
}

/// One probe's report.
#[derive(Debug, Clone, PartialEq, Eq)]
pub struct DetectionSnapshot {
    pub surface: DataDomeSurface,
    pub datadome: Option<String>,
    pub dd: Option<DdConfig>,
    pub captcha_url: Option<String>,
    pub body_clean: bool,
}

/// The surface a probe's `surface` field names; anything unknown is none.
pub open spec fn surface_of(name: Seq<char>) -> DataDomeSurface {
    if name == "device_check"@ {
        DataDomeSurface::DeviceCheck
    } else if name == "captcha"@ {
        DataDomeSurface::Captcha
    } else if name == "block"@ {
        DataDomeSurface::Block
    } else {
        DataDomeSurface::Absent
    }
}

/// The surface a probe's `surface` field names.
pub fn surface_from_str(name: &str) -> (r: DataDomeSurface)
    ensures
        r == surface_of(name@),
{
    if str_eq(name, "device_check") {
        DataDomeSurface::DeviceCheck
    } else if str_eq(name, "captcha") {
        DataDomeSurface::Captcha
    } else if str_eq(name, "block") {
        DataDomeSurface::Block
    } else {
        DataDomeSurface::Absent
    }
}

} // verus!
