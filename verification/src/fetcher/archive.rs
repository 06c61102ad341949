//! What a downloaded file is, and so how it becomes a runnable tree.
//!
//! Chrome for Testing and the snapshot bucket ship a zip on every platform;
//! ungoogled-chromium ships a zip on Windows, an AppImage on Linux and a disk
//! image on macOS.

use vstd::prelude::*;

verus! {

/// Packaging of a resolved download, and the instructions for unpacking it.
#[derive(Debug, Clone, PartialEq, Eq)]
pub enum Archive {
    /// A zip in which every entry lives under one top-level directory.
    Zip {
        /// Required top-level directory, e.g. `chrome-linux64`.
        top_dir: String,
    },
    /// A single self-contained executable (an AppImage).
    Executable {
        /// Filename to store it under inside the build directory.
        file_name: String,
    },
    /// A macOS disk image containing one `.app` bundle.
    AppBundleDmg {
        /// Bundle directory expected on the mounted volume.
        app_dir: String,
    },
}

/// An [`Archive`] with its name taken by value.
pub enum ArchiveView {
    Zip(Seq<char>),
    Executable(Seq<char>),
    AppBundleDmg(Seq<char>),
}

impl View for Archive {
    type V = ArchiveView;

    open spec fn view(&self) -> ArchiveView {
        match self {
            Archive::Zip { top_dir } => ArchiveView::Zip(top_dir@),
            Archive::Executable { file_name } => ArchiveView::Executable(file_name@),
            Archive::AppBundleDmg { app_dir } => ArchiveView::AppBundleDmg(app_dir@),
        }
    }
}

/// Extension of the temporary download file for each packaging.
pub open spec fn tmp_ext(a: ArchiveView) -> Seq<char> {
    match a {
        ArchiveView::Zip(_) => "zip"@,
        ArchiveView::Executable(_) => "AppImage"@,
        ArchiveView::AppBundleDmg(_) => "dmg"@,
    }
}

impl Archive {
    /// A copy of this archive description.
    pub fn duplicate(&self) -> (r: Archive)
        ensures
            r == *self,
    {
        match self {
            Archive::Zip { top_dir } => Archive::Zip { top_dir: top_dir.clone() },
            Archive::Executable { file_name } => Archive::Executable { file_name: file_name.clone() },
            Archive::AppBundleDmg { app_dir } => Archive::AppBundleDmg { app_dir: app_dir.clone() },
        }
    }

    /// Extension for the temporary download file.
    pub fn tmp_extension(&self) -> (r: &'static str)
        ensures
            r@ == tmp_ext(self@),
    {
        match self {
            Archive::Zip { .. } => "zip",
            Archive::Executable { .. } => "AppImage",
            Archive::AppBundleDmg { .. } => "dmg",
        }
    }
}

} // verus!
