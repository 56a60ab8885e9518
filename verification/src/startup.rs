//! What the application restores when it starts.

use vstd::prelude::*;
use vstd::string::*;
use crate::commands::wallpaper::{asset_url, asset_url_of};
use crate::utils::file_utils::{media_kind, media_kind_of, MediaKind};
use crate::utils::text::lowercase_of;

verus! {

/// How the wallpaper of the last session comes back.
#[derive(Debug)]
pub enum Restore {
    /// There was none.
    Nothing,
    /// As a still image.
    Static { path: String },
    /// In a window that plays it; the page reaches the file under
    /// `converted_path`.
    Video { path: String, converted_path: String },
}

/// Whether a file of the given type, in any letter case, is played rather
/// than shown: videos and GIFs are.
pub open spec fn is_played(file_type: Seq<char>) -> bool {
    media_kind_of(lowercase_of(file_type)) == MediaKind::Video || media_kind_of(
        lowercase_of(file_type),
    ) == MediaKind::Gif
}

/// Decides how the wallpaper of the last session comes back, from its path
/// and file type as they were saved. Without both nothing is restored.
pub fn restore_wallpaper(last_path: Option<&str>, last_file_type: Option<&str>) -> (restore:
    Restore)
    ensures
        match restore {
            Restore::Nothing => last_path is None || last_file_type is None,
            Restore::Static { path } => {
                &&& last_path is Some && last_file_type is Some
                &&& !is_played(last_file_type->0@)
                &&& path@ == last_path->0@
            },
            Restore::Video { path, converted_path } => {
                &&& last_path is Some && last_file_type is Some
                &&& is_played(last_file_type->0@)
                &&& path@ == last_path->0@
                &&& converted_path@ == asset_url_of(last_path->0@)
            },
        },
{
    match (last_path, last_file_type) {
        (Some(path), Some(file_type)) => {
            let lowered = file_type.to_lowercase();
            let kind = media_kind(lowered.as_str());
            if kind == MediaKind::Video || kind == MediaKind::Gif {
                Restore::Video { path: String::from_str(path), converted_path: asset_url(path) }
            } else {
                Restore::Static { path: String::from_str(path) }
            }
        },
        _ => Restore::Nothing,
    }
}

/// Whether the command line asks for a start without the main window: it
/// does if one of the arguments is `--minimized`.
pub fn starts_minimized(arguments: &Vec<String>) -> (minimized: bool)
    ensures
        minimized <==> exists|i: int|
            0 <= i < arguments@.len() && (#[trigger] arguments@[i])@ == "--minimized"@,
{
    let mut i: usize = 0;
    while i < arguments.len()
        invariant
            i <= arguments.len(),
            forall|j: int| 0 <= j < i ==> (#[trigger] arguments@[j])@ != "--minimized"@,
        decreases arguments.len() - i,
    {
        if str::eq(arguments[i].as_str(), "--minimized") {
            return true;
        }
        i += 1;
    }
    false
}

} // verus!
