//! Setting the wallpaper on macOS, through the Finder's scripting interface.

use vstd::prelude::*;
use vstd::string::*;
use crate::utils::text::joined;

verus! {

/// The script that tells the Finder to show `file_path` as the desktop picture.
pub open spec fn finder_script_of(file_path: Seq<char>) -> Seq<char> {
    "tell application \"Finder\" to set desktop picture to POSIX file \""@ + file_path + "\""@
}

/// The script that tells the Finder to show `file_path` as the desktop
/// picture. It is run with `osascript -e`.
pub fn finder_script(file_path: &str) -> (script: String)
    ensures
        script@ == finder_script_of(file_path@),
{
    let mut script = joined(
        "tell application \"Finder\" to set desktop picture to POSIX file \"",
        file_path,
    );
    script.append("\"");
    script
}

/// How running the script ended.
#[derive(Debug)]
pub enum ScriptRun {
    /// The interpreter could not be started; the reason in words.
    NotStarted(String),
    /// The interpreter ran and reported success or failure.
    Exited { success: bool },
}

/// Judges a run of the Finder script: the wallpaper is set if the interpreter
/// ran and reported success.
pub fn set_macos_wallpaper(run: &ScriptRun) -> (result: Result<(), String>)
    ensures
        match *run {
            ScriptRun::NotStarted(reason) => result matches Err(text) && text@
                == "Failed to execute osascript: "@ + reason@,
            ScriptRun::Exited { success: false } => result matches Err(text) && text@
                == "Failed to set wallpaper on macOS"@,
            ScriptRun::Exited { success: true } => result is Ok,
        },
{
    match run {
        ScriptRun::NotStarted(reason) => Err(
            joined("Failed to execute osascript: ", reason.as_str()),
        ),
        ScriptRun::Exited { success } => {
            if *success {
                Ok(())
            } else {
                Err(String::from_str("Failed to set wallpaper on macOS"))
            }
        },
    }
}

} // verus!
