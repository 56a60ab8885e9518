//! Setting the wallpaper on Linux, where each desktop environment has its own
//! tool. The tools are tried in a fixed order and the first one that can be
//! launched is taken.

use vstd::prelude::*;
use vstd::string::*;
use crate::utils::text::joined;

verus! {

/// A program to launch, with its arguments.
#[derive(Debug)]
pub struct DesktopCommand {
    pub program: String,
    pub arguments: Vec<String>,
}

/// The texts of a list of strings.
pub open spec fn texts_of(list: Seq<String>) -> Seq<Seq<char>> {
    list.map_values(|text: String| text@)
}

impl DesktopCommand {
    /// The program's name.
    pub open spec fn program_of(&self) -> Seq<char> {
        self.program@
    }

    /// The arguments, in order.
    pub open spec fn arguments_of(&self) -> Seq<Seq<char>> {
        texts_of(self.arguments@)
    }
}

/// The arguments with which each tool sets `file_path` as the wallpaper, in
/// the order in which the tools are tried: GNOME's settings tool, `feh`,
/// `nitrogen`, Xfce's settings tool.
pub open spec fn desktop_arguments_of(file_path: Seq<char>) -> Seq<Seq<Seq<char>>> {
    seq![
        seq!["set"@, "org.gnome.desktop.background"@, "picture-uri"@, "file://"@ + file_path],
        seq!["--bg-fill"@, file_path],
        seq!["--set-scaled"@, file_path],
        seq![
            "-c"@,
            "xfce4-desktop"@,
            "-p"@,
            "/backdrop/screen0/monitor0/workspace0/last-image"@,
            "-s"@,
            file_path,
        ],
    ]
}

/// The names of the tools, in the order in which they are tried.
pub open spec fn desktop_programs() -> Seq<Seq<char>> {
    seq!["gsettings"@, "feh"@, "nitrogen"@, "xfconf-query"@]
}

/// How many tools there are to try.
pub const DESKTOP_TOOLS: usize = 4;

fn command(program: &str, arguments: Vec<String>) -> (command: DesktopCommand)
    ensures
        command.program_of() == program@,
        command.arguments == arguments,
{
    DesktopCommand { program: String::from_str(program), arguments }
}

/// The commands that set `file_path` as the wallpaper, in the order in which
/// they are tried.
pub fn desktop_commands(file_path: &str) -> (commands: Vec<DesktopCommand>)
    ensures
        commands@.len() == DESKTOP_TOOLS,
        forall|i: int|
            0 <= i < DESKTOP_TOOLS ==> (#[trigger] commands@[i]).program_of()
                == desktop_programs()[i],
        forall|i: int|
            0 <= i < DESKTOP_TOOLS ==> (#[trigger] commands@[i]).arguments_of()
                == desktop_arguments_of(file_path@)[i],
{
    let mut gnome: Vec<String> = Vec::new();
    gnome.push(String::from_str("set"));
    gnome.push(String::from_str("org.gnome.desktop.background"));
    gnome.push(String::from_str("picture-uri"));
    gnome.push(joined("file://", file_path));
    assert(texts_of(gnome@) =~= desktop_arguments_of(file_path@)[0]);

    let mut feh: Vec<String> = Vec::new();
    feh.push(String::from_str("--bg-fill"));
    feh.push(String::from_str(file_path));
    assert(texts_of(feh@) =~= desktop_arguments_of(file_path@)[1]);

    let mut nitrogen: Vec<String> = Vec::new();
    nitrogen.push(String::from_str("--set-scaled"));
    nitrogen.push(String::from_str(file_path));
    assert(texts_of(nitrogen@) =~= desktop_arguments_of(file_path@)[2]);

    let mut xfce: Vec<String> = Vec::new();
    xfce.push(String::from_str("-c"));
    xfce.push(String::from_str("xfce4-desktop"));
    xfce.push(String::from_str("-p"));
    xfce.push(String::from_str("/backdrop/screen0/monitor0/workspace0/last-image"));
    xfce.push(String::from_str("-s"));
    xfce.push(String::from_str(file_path));
    assert(texts_of(xfce@) =~= desktop_arguments_of(file_path@)[3]);

    let mut commands: Vec<DesktopCommand> = Vec::new();
    commands.push(command("gsettings", gnome));
    commands.push(command("feh", feh));
    commands.push(command("nitrogen", nitrogen));
    commands.push(command("xfconf-query", xfce));
    commands
}

/// What to do next while the tools are tried.
#[derive(Debug, PartialEq, Eq)]
pub enum LinuxStep {
    /// Launch the command with this index.
    Launch(usize),
    /// A tool was launched: the wallpaper counts as set.
    Done,
    /// No tool could be launched.
    Failed(String),
}

/// Decides what follows after `tried` of the commands were tried in order,
/// `launched` telling whether the last of them could be launched: the first
/// tool that launches ends the search, and when none is left the search fails.
pub fn set_linux_wallpaper(tried: usize, launched: bool) -> (step: LinuxStep)
    ensures
        tried > 0 && launched <==> step == LinuxStep::Done,
        !(tried > 0 && launched) && tried < DESKTOP_TOOLS <==> step == LinuxStep::Launch(tried),
        !(tried > 0 && launched) && tried >= DESKTOP_TOOLS <==> (step matches LinuxStep::Failed(
            reason,
        ) && reason@ == "Failed to set wallpaper on Linux"@),
{
    if tried > 0 && launched {
        LinuxStep::Done
    } else if tried < DESKTOP_TOOLS {
        LinuxStep::Launch(tried)
    } else {
        LinuxStep::Failed(String::from_str("Failed to set wallpaper on Linux"))
    }
}

} // verus!
