//! What one Imperva probe reports.

use crate::text::str_eq;
use vstd::prelude::*;

verus! {

/// Kind of CAPTCHA escalation Imperva is presenting.
#[derive(Debug, Clone, Copy, PartialEq, Eq, Structural)]
pub enum CaptchaKind {
    HCaptcha,
    Recaptcha,
    ImpervaNative,
    Unknown,
}

/// Which Imperva surface a tab is showing.
#[derive(Debug, Clone, Copy, PartialEq, Eq, Structural)]
pub enum ImpervaSurface {
    /// Modern reese84-based bot management.
    Reese84,
    /// Legacy Incapsula (`___utmvc` / `incap_ses_*` / `visid_incap_*`).
    Legacy,
    /// Visual or invisible CAPTCHA challenge.
    Captcha(CaptchaKind),
    /// No Imperva surface.
    Absent,
}

/// One probe's report.
#[derive(Debug, Clone, PartialEq, Eq)]
pub struct DetectionSnapshot {
    pub surface: ImpervaSurface,
    pub reese84: Option<String>,
    pub body_clean: bool,
    pub sessions: Vec<CookieSnapshot>,
}

/// Cookie name and value as observed at probe time.
#[derive(Debug, Clone, PartialEq, Eq)]
pub struct CookieSnapshot {
    pub name: String,
    pub value: String,
}

/// The surface a probe's `kind` and `captcha` fields name.
pub open spec fn surface_of(kind: Seq<char>, captcha: Option<Seq<char>>) -> ImpervaSurface {
    if kind == "Reese84"@ {
        ImpervaSurface::Reese84
    } else if kind == "Legacy"@ {
        ImpervaSurface::Legacy
    } else if kind == "Captcha"@ {
        ImpervaSurface::Captcha(
            match captcha {
                Some(c) => if c == "HCaptcha"@ {
                    CaptchaKind::HCaptcha
                } else if c == "Recaptcha"@ {
                    CaptchaKind::Recaptcha
                } else if c == "ImpervaNative"@ {
                    CaptchaKind::ImpervaNative
                } else {
                    CaptchaKind::Unknown
                },
                None => CaptchaKind::Unknown,
            },
        )
    } else {
        ImpervaSurface::Absent
    }
}

/// The surface a probe's `kind` and `captcha` fields name.
pub fn surface_from(kind: &str, captcha: Option<&str>) -> (r: ImpervaSurface)
    ensures
        r == surface_of(
            kind@,
            match captcha {
                Some(c) => Some(c@),
                None => None,
            },
        ),
{
    if str_eq(kind, "Reese84") {
        ImpervaSurface::Reese84
    } else if str_eq(kind, "Legacy") {
        ImpervaSurface::Legacy
    } else if str_eq(kind, "Captcha") {
        let k = match captcha {
            Some(c) => if str_eq(c, "HCaptcha") {
                CaptchaKind::HCaptcha
            } else if str_eq(c, "Recaptcha") {
                CaptchaKind::Recaptcha
            } else if str_eq(c, "ImpervaNative") {
                CaptchaKind::ImpervaNative
            } else {
                CaptchaKind::Unknown
            },
            None => CaptchaKind::Unknown,
        };
        ImpervaSurface::Captcha(k)
    } else {
        ImpervaSurface::Absent
    }
}

/// Is any challenge surface showing?
pub fn is_challenge(surface: ImpervaSurface) -> (r: bool)
    ensures
        r == (surface != ImpervaSurface::Absent),
{
    !matches!(surface, ImpervaSurface::Absent)
}

} // verus!
