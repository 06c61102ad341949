//! Target platforms, and how each distribution spells them.

use crate::text::{ascii_lowercase, chars_eq_str, lower_seq, trim, trim_seq};
use vstd::prelude::*;

verus! {

/// Supported host platforms, one per Chrome for Testing platform key.
#[derive(Debug, Clone, Copy, PartialEq, Eq, Hash, Structural)]
pub enum Platform {
    /// Linux on x86_64.
    LinuxX64,
    /// macOS on Intel.
    MacX64,
    /// macOS on Apple Silicon.
    MacArm64,
    /// 32-bit Windows.
    Win32,
    /// 64-bit Windows.
    Win64,
}

/// Chrome for Testing platform key.
pub open spec fn cft_key(p: Platform) -> Seq<char> {
    match p {
        Platform::LinuxX64 => "linux64"@,
        Platform::MacX64 => "mac-x64"@,
        Platform::MacArm64 => "mac-arm64"@,
        Platform::Win32 => "win32"@,
        Platform::Win64 => "win64"@,
    }
}

/// Top-level directory of a Chrome for Testing zip.
pub open spec fn cft_top(p: Platform) -> Seq<char> {
    match p {
        Platform::LinuxX64 => "chrome-linux64"@,
        Platform::MacX64 => "chrome-mac-x64"@,
        Platform::MacArm64 => "chrome-mac-arm64"@,
        Platform::Win32 => "chrome-win32"@,
        Platform::Win64 => "chrome-win64"@,
    }
}

/// Directory name in Chromium's snapshot bucket.
pub open spec fn snapshot_dir(p: Platform) -> Seq<char> {
    match p {
        Platform::LinuxX64 => "Linux_x64"@,
        Platform::MacX64 => "Mac"@,
        Platform::MacArm64 => "Mac_Arm"@,
        Platform::Win32 => "Win"@,
        Platform::Win64 => "Win_x64"@,
    }
}

/// Archive stem inside a snapshot revision directory (named after the OS).
pub open spec fn snapshot_stem(p: Platform) -> Seq<char> {
    match p {
        Platform::LinuxX64 => "chrome-linux"@,
        Platform::MacX64 | Platform::MacArm64 => "chrome-mac"@,
        Platform::Win32 | Platform::Win64 => "chrome-win"@,
    }
}

/// Filename suffix of this platform's ungoogled-chromium release asset.
pub open spec fn ungoogled_suffix(p: Platform) -> Seq<char> {
    match p {
        Platform::LinuxX64 => "-x86_64.AppImage"@,
        Platform::MacX64 => "_x86_64-macos.dmg"@,
        Platform::MacArm64 => "_arm64-macos.dmg"@,
        Platform::Win32 => "_windows_x86.zip"@,
        Platform::Win64 => "_windows_x64.zip"@,
    }
}

/// What `Platform::parse` answers: the platform whose Chrome for Testing key
/// equals the trimmed, ASCII-lowercased input.
pub open spec fn parse_platform(s: Seq<char>) -> Option<Platform> {
    let t = lower_seq(trim_seq(s));
    if t == cft_key(Platform::LinuxX64) {
        Some(Platform::LinuxX64)
    } else if t == cft_key(Platform::MacX64) {
        Some(Platform::MacX64)
    } else if t == cft_key(Platform::MacArm64) {
        Some(Platform::MacArm64)
    } else if t == cft_key(Platform::Win32) {
        Some(Platform::Win32)
    } else if t == cft_key(Platform::Win64) {
        Some(Platform::Win64)
    } else {
        None
    }
}

/// The platform a host with this OS name, CPU architecture and pointer width
/// runs, as Rust's `target_os` / `target_arch` / `target_pointer_width` spell
/// them.
pub open spec fn host_platform(os: Seq<char>, arch: Seq<char>, pointer_width: u32) -> Option<
    Platform,
> {
    if os == "linux"@ && arch == "x86_64"@ {
        Some(Platform::LinuxX64)
    } else if os == "macos"@ && arch == "x86_64"@ {
        Some(Platform::MacX64)
    } else if os == "macos"@ && arch == "aarch64"@ {
        Some(Platform::MacArm64)
    } else if os == "windows"@ && pointer_width == 32 {
        Some(Platform::Win32)
    } else if os == "windows"@ && pointer_width == 64 {
        Some(Platform::Win64)
    } else {
        None
    }
}

impl Platform {
    /// Every supported platform.
    pub const ALL: [Platform; 5] = [
        Platform::LinuxX64,
        Platform::MacX64,
        Platform::MacArm64,
        Platform::Win32,
        Platform::Win64,
    ];

    /// Parse a Chrome for Testing platform key (`"mac-arm64"`, `"linux64"`, ...),
    /// ignoring surrounding whitespace and ASCII case.
    pub fn parse(s: &str) -> (r: Option<Platform>)
        ensures
            r == parse_platform(s@),
    {
        let cs = crate::text::chars_of(s);
        let t = trim(cs.as_slice());
        let l = ascii_lowercase(t.as_slice());
        let l = l.as_slice();
        if chars_eq_str(l, "linux64") {
            Some(Platform::LinuxX64)
        } else if chars_eq_str(l, "mac-x64") {
            Some(Platform::MacX64)
        } else if chars_eq_str(l, "mac-arm64") {
            Some(Platform::MacArm64)
        } else if chars_eq_str(l, "win32") {
            Some(Platform::Win32)
        } else if chars_eq_str(l, "win64") {
            Some(Platform::Win64)
        } else {
            None
        }
    }

    /// The platform of a host, given its `target_os`, `target_arch` and
    /// `target_pointer_width`; `None` for hosts Chrome for Testing does not
    /// cover (Linux on aarch64, the BSDs, ...).
    pub fn auto_detect(os: &str, arch: &str, pointer_width: u32) -> (r: Option<Platform>)
        ensures
            r == host_platform(os@, arch@, pointer_width),
    {
        let o = crate::text::chars_of(os);
        let a = crate::text::chars_of(arch);
        let o = o.as_slice();
        let a = a.as_slice();
        if chars_eq_str(o, "linux") && chars_eq_str(a, "x86_64") {
            Some(Platform::LinuxX64)
        } else if chars_eq_str(o, "macos") && chars_eq_str(a, "x86_64") {
            Some(Platform::MacX64)
        } else if chars_eq_str(o, "macos") && chars_eq_str(a, "aarch64") {
            Some(Platform::MacArm64)
        } else if chars_eq_str(o, "windows") && pointer_width == 32 {
            Some(Platform::Win32)
        } else if chars_eq_str(o, "windows") && pointer_width == 64 {
            Some(Platform::Win64)
        } else {
            None
        }
    }

    /// Platform key used in the Chrome for Testing manifest.
    pub fn as_cft_str(&self) -> (r: &'static str)
        ensures
            r@ == cft_key(*self),
    {
        match self {
            Platform::LinuxX64 => "linux64",
            Platform::MacX64 => "mac-x64",
            Platform::MacArm64 => "mac-arm64",
            Platform::Win32 => "win32",
            Platform::Win64 => "win64",
        }
    }

    /// Top-level directory inside a Chrome for Testing zip for this platform.
    pub fn cft_top_dir(&self) -> (r: &'static str)
        ensures
            r@ == cft_top(*self),
    {
        match self {
            Platform::LinuxX64 => "chrome-linux64",
            Platform::MacX64 => "chrome-mac-x64",
            Platform::MacArm64 => "chrome-mac-arm64",
            Platform::Win32 => "chrome-win32",
            Platform::Win64 => "chrome-win64",
        }
    }

    /// Directory name for this platform in Chromium's snapshot bucket.
    pub fn as_snapshot_str(&self) -> (r: &'static str)
        ensures
            r@ == snapshot_dir(*self),
    {
        match self {
            Platform::LinuxX64 => "Linux_x64",
            Platform::MacX64 => "Mac",
            Platform::MacArm64 => "Mac_Arm",
            Platform::Win32 => "Win",
            Platform::Win64 => "Win_x64",
        }
    }

    /// Archive stem inside a snapshot revision directory.
    pub fn snapshot_archive_stem(&self) -> (r: &'static str)
        ensures
            r@ == snapshot_stem(*self),
    {
        match self {
            Platform::LinuxX64 => "chrome-linux",
            Platform::MacX64 | Platform::MacArm64 => "chrome-mac",
            Platform::Win32 | Platform::Win64 => "chrome-win",
        }
    }

    /// Filename suffix identifying this platform's ungoogled-chromium asset.
    pub fn ungoogled_asset_suffix(&self) -> (r: &'static str)
        ensures
            r@ == ungoogled_suffix(*self),
    {
        match self {
            Platform::LinuxX64 => "-x86_64.AppImage",
            Platform::MacX64 => "_x86_64-macos.dmg",
            Platform::MacArm64 => "_arm64-macos.dmg",
            Platform::Win32 => "_windows_x86.zip",
            Platform::Win64 => "_windows_x64.zip",
        }
    }
}

} // verus!
