//! Static and video wallpapers.

use vstd::prelude::*;
use vstd::string::*;
use vstd::utf8::encode_utf8;
use crate::state::{clear_current, replace_current, AppState};
use crate::utils::file_utils::{
    ends_in_plain_name, lowercase_extension, lowercase_extension_fits, mime_type_for_extension,
    mime_type_of, text_of,
};
use crate::utils::text::{
    decimal, decimal_of, joined, lowercase_of, percent_encode, percent_encoded,
};

verus! {

/// The address of the page that plays a wallpaper: the place of the media
/// file and its MIME type, both percent-encoded, as query parameters.
pub open spec fn wallpaper_url_of(converted_path: Seq<char>, mime: Seq<char>) -> Seq<char> {
    "wallpaper.html?path="@ + percent_encoded(encode_utf8(converted_path)) + "&type="@
        + percent_encoded(encode_utf8(mime))
}

/// The address of the page that plays a wallpaper.
pub fn wallpaper_url(converted_path: &str, mime: &str) -> (url: String)
    ensures
        url@ == wallpaper_url_of(converted_path@, mime@),
{
    let path = percent_encode(converted_path);
    let kind = percent_encode(mime);
    let mut url = joined("wallpaper.html?path=", path.as_str());
    url.append("&type=");
    url.append(kind.as_str());
    url
}

/// The address under which the application's pages reach a local file.
pub open spec fn asset_url_of(file_path: Seq<char>) -> Seq<char> {
    "asset://localhost/"@ + percent_encoded(encode_utf8(file_path))
}

/// The address under which the application's pages reach a local file.
pub fn asset_url(file_path: &str) -> (url: String)
    ensures
        url@ == asset_url_of(file_path@),
{
    let path = percent_encode(file_path);
    joined("asset://localhost/", path.as_str())
}

/// The label of a wallpaper window created at `seconds` after the epoch.
pub open spec fn window_label_of(seconds: nat) -> Seq<char> {
    "wallpaper-"@ + decimal_of(seconds)
}

/// The label of a wallpaper window created at `seconds` after the epoch.
pub fn window_label(seconds: u64) -> (label: String)
    ensures
        label@ == window_label_of(seconds as nat),
{
    let number = decimal(seconds);
    joined("wallpaper-", number.as_str())
}

/// What is needed to put up a video wallpaper.
#[derive(Debug)]
pub struct VideoWallpaperPlan {
    /// The label of the window to create.
    pub window_label: String,
    /// The window that showed the wallpaper so far and is to be closed.
    pub replaced: Option<String>,
    /// The page that the new window shows.
    pub url: String,
    /// What the command reports once the window is up.
    pub message: String,
}

/// Plans a video wallpaper for the file at `file_path`, which the page
/// reaches under `converted_path`. `exists` tells whether the file is there,
/// `seconds` the time since the epoch. A missing file is refused and the
/// state left alone; otherwise the new window takes the current slot, and the
/// plan names the window that held it.
pub fn create_video_wallpaper(
    state: &mut AppState,
    file_path: &str,
    converted_path: &str,
    exists: bool,
    seconds: u64,
) -> (result: Result<VideoWallpaperPlan, String>)
    ensures
        exists <==> result is Ok,
        match result {
            Err(reason) => reason@ == "Video file does not exist"@ && *final(state) == *old(
                state,
            ),
            Ok(plan) => {
                &&& plan.window_label@ == window_label_of(seconds as nat)
                &&& match plan.replaced {
                    Some(label) => old(state).video_of() == Some(label@),
                    None => old(state).video_of() is None,
                }
                &&& exists|lowered: Seq<char>| #[trigger]
                    lowercase_extension_fits(file_path@, lowered) && plan.url@
                        == wallpaper_url_of(converted_path@, mime_type_of(lowered))
                &&& !file_path@.contains('.') ==> plan.url@ == wallpaper_url_of(
                    converted_path@,
                    mime_type_of(lowercase_of(Seq::empty())),
                )
                &&& forall|stem: Seq<char>, plain: Seq<char>| #[trigger]
                    ends_in_plain_name(file_path@, stem, plain) ==> plan.url@
                        == wallpaper_url_of(
                        converted_path@,
                        mime_type_of(lowercase_of(plain)),
                    )
                &&& plan.message@ == "Video wallpaper created successfully: "@ + file_path@
                &&& final(state).video_windows@ == old(state).video_windows@.insert(
                    "current"@,
                    plan.window_label,
                )
                &&& final(state).video_of() == Some(plan.window_label@)
                &&& final(state).date_widgets == old(state).date_widgets
            },
        },
{
    if !exists {
        return Err(String::from_str("Video file does not exist"));
    }
    let label = window_label(seconds);
    let replaced = replace_current(&mut state.video_windows, label.clone());
    let lowered = lowercase_extension(file_path);
    let mime = mime_type_for_extension(lowered.as_str());
    let url = wallpaper_url(converted_path, mime.as_str());
    let message = joined("Video wallpaper created successfully: ", file_path);
    Ok(VideoWallpaperPlan { window_label: label, replaced, url, message })
}

/// Ends the video wallpaper once its window has been dealt with.
/// `close_failure` is the reason why the window could not be closed, if it
/// could not. Without an open wallpaper there is nothing to do; with one, a
/// failure to close is reported and the slot kept, else the slot is emptied.
pub fn stop_video_wallpaper(state: &mut AppState, close_failure: Option<&str>) -> (result: Result<
    String,
    String,
>)
    ensures
        final(state).date_widgets == old(state).date_widgets,
        result is Err <==> old(state).video_of() is Some && close_failure is Some,
        match result {
            Err(reason) => {
                &&& reason@ == "Failed to close video window: "@ + close_failure->0@
                &&& *final(state) == *old(state)
            },
            Ok(message) => {
                &&& message@ == "Video wallpaper stopped and cleaned up"@
                &&& final(state).video_windows@ == old(state).video_windows@.remove("current"@)
                &&& final(state).video_of() is None
            },
        },
{
    let current = state.current_video();
    if current.is_some() {
        match close_failure {
            Some(reason) => {
                return Err(joined("Failed to close video window: ", reason));
            },
            None => {},
        }
    }
    clear_current(&mut state.video_windows);
    Ok(String::from_str("Video wallpaper stopped and cleaned up"))
}

/// What the command reports for a static wallpaper. `exists` tells whether
/// the file is there, `failure` why the desktop refused it, if it did.
pub fn set_static_wallpaper(file_path: &str, exists: bool, failure: Option<&str>) -> (result:
    Result<String, String>)
    ensures
        result is Ok <==> exists && failure is None,
        match result {
            Ok(message) => message@ == "Wallpaper set successfully: "@ + file_path@,
            Err(reason) => reason@ == (if !exists {
                "File does not exist"@
            } else {
                failure->0@
            }),
        },
{
    if !exists {
        Err(String::from_str("File does not exist"))
    } else {
        match failure {
            Some(reason) => Err(String::from_str(reason)),
            None => Ok(joined("Wallpaper set successfully: ", file_path)),
        }
    }
}

/// Why Windows did not take the image as the desktop wallpaper, if it did
/// not. `has_nul` tells whether the path holds a NUL character, with which
/// it cannot be handed to the system; `result` is what the system call
/// returned, zero for failure.
pub fn windows_wallpaper_failure(has_nul: bool, result: i32) -> (failure: Option<String>)
    ensures
        text_of(failure) == (if has_nul {
            Some("Invalid file path"@)
        } else if result == 0 {
            Some("Failed to set wallpaper"@)
        } else {
            None
        }),
{
    if has_nul {
        Some(String::from_str("Invalid file path"))
    } else if result == 0 {
        Some(String::from_str("Failed to set wallpaper"))
    } else {
        None
    }
}

} // verus!
