//! Plain records exchanged with the user interface.

use vstd::prelude::*;

verus! {

/// One media file that can be shown as a wallpaper.
#[derive(Debug, Clone)]
pub struct WallpaperInfo {
    pub path: String,
    pub name: String,
    pub file_type: String,
    pub size: u64,
}

/// What a [`WallpaperInfo`] holds, as plain values.
pub struct WallpaperRecord {
    pub path: Seq<char>,
    pub name: Seq<char>,
    pub file_type: Seq<char>,
    pub size: u64,
}

impl View for WallpaperInfo {
    type V = WallpaperRecord;

    open spec fn view(&self) -> WallpaperRecord {
        WallpaperRecord {
            path: self.path@,
            name: self.name@,
            file_type: self.file_type@,
            size: self.size,
        }
    }
}

/// How wallpapers rotate.
#[derive(Debug, Clone)]
pub struct WallpaperSettings {
    pub auto_change: bool,
    pub interval: u32,
    pub random_order: bool,
    pub pause_on_fullscreen: bool,
}

} // verus!
