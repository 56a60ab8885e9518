//! The icon in the system tray and its menu.

use vstd::prelude::*;
use vstd::string::*;

verus! {

/// What a choice in the tray menu asks for.
#[derive(Debug, Clone, Copy, PartialEq, Eq, Structural)]
pub enum TrayAction {
    /// Show the main window and give it the focus.
    ShowMain,
    /// Hide the main window.
    HideMain,
    /// Stop the video wallpaper.
    StopVideo,
    /// Put up the date widget.
    ToggleDateWidget,
    /// Leave the application.
    Quit,
    /// The choice is not one of the menu's.
    Nothing,
}

/// One line of the tray menu.
#[derive(Debug)]
pub struct MenuEntry {
    pub id: String,
    pub label: String,
}

/// The identifiers of the menu's lines, from top to bottom.
pub open spec fn menu_ids() -> Seq<Seq<char>> {
    seq!["show"@, "hide"@, "stop_video"@, "date_widget"@, "quit"@]
}

/// The texts of the menu's lines, from top to bottom.
pub open spec fn menu_labels() -> Seq<Seq<char>> {
    seq![
        "Show Settings"@,
        "Hide Settings"@,
        "Stop Video Wallpaper"@,
        "Toggle Date Widget"@,
        "Quit"@,
    ]
}

fn entry(id: &str, label: &str) -> (entry: MenuEntry)
    ensures
        entry.id@ == id@,
        entry.label@ == label@,
{
    MenuEntry { id: String::from_str(id), label: String::from_str(label) }
}

/// The lines of the tray menu, from top to bottom.
pub fn create_tray_menu() -> (entries: Vec<MenuEntry>)
    ensures
        entries@.len() == 5,
        forall|i: int| 0 <= i < 5 ==> (#[trigger] entries@[i]).id@ == menu_ids()[i],
        forall|i: int| 0 <= i < 5 ==> (#[trigger] entries@[i]).label@ == menu_labels()[i],
{
    let mut entries: Vec<MenuEntry> = Vec::new();
    entries.push(entry("show", "Show Settings"));
    entries.push(entry("hide", "Hide Settings"));
    entries.push(entry("stop_video", "Stop Video Wallpaper"));
    entries.push(entry("date_widget", "Toggle Date Widget"));
    entries.push(entry("quit", "Quit"));
    entries
}

/// What the menu line with the identifier `id` asks for.
pub open spec fn tray_action_of(id: Seq<char>) -> TrayAction {
    if id == "show"@ {
        TrayAction::ShowMain
    } else if id == "hide"@ {
        TrayAction::HideMain
    } else if id == "stop_video"@ {
        TrayAction::StopVideo
    } else if id == "date_widget"@ {
        TrayAction::ToggleDateWidget
    } else if id == "quit"@ {
        TrayAction::Quit
    } else {
        TrayAction::Nothing
    }
}

/// What the menu line with the identifier `event_id` asks for.
pub fn handle_tray_menu_event(event_id: &str) -> (action: TrayAction)
    ensures
        action == tray_action_of(event_id@),
{
    if str::eq(event_id, "show") {
        TrayAction::ShowMain
    } else if str::eq(event_id, "hide") {
        TrayAction::HideMain
    } else if str::eq(event_id, "stop_video") {
        TrayAction::StopVideo
    } else if str::eq(event_id, "date_widget") {
        TrayAction::ToggleDateWidget
    } else if str::eq(event_id, "quit") {
        TrayAction::Quit
    } else {
        TrayAction::Nothing
    }
}

/// Every line of the menu asks for something.
pub proof fn law_every_menu_line_acts(i: int)
    requires
        0 <= i < menu_ids().len(),
    ensures
        tray_action_of(menu_ids()[i]) != TrayAction::Nothing,
{
}

/// A mouse button.
#[derive(Debug, Clone, Copy, PartialEq, Eq, Structural)]
pub enum MouseButton {
    Left,
    Right,
    Middle,
}

/// Whether a button went down or came up.
#[derive(Debug, Clone, Copy, PartialEq, Eq, Structural)]
pub enum MouseButtonState {
    Up,
    Down,
}

/// What happened to the tray icon.
#[derive(Debug, Clone, Copy, PartialEq, Eq, Structural)]
pub enum TrayIconEvent {
    /// A button was pressed or released over the icon.
    Click { button: MouseButton, button_state: MouseButtonState },
    /// Anything else: the pointer came, moved or left, or a double click.
    Other,
}

/// What to do with the main window.
#[derive(Debug, Clone, Copy, PartialEq, Eq, Structural)]
pub enum MainWindowAction {
    /// Hide it.
    Hide,
    /// Show it and give it the focus.
    ShowAndFocus,
    /// Leave it alone.
    Nothing,
}

/// What an event on the tray icon does to the main window. `visible` is
/// `None` where there is no main window, else whether it can be seen.
/// Releasing the left button toggles the window; nothing else does anything.
pub fn handle_tray_icon_event(event: TrayIconEvent, visible: Option<bool>) -> (action:
    MainWindowAction)
    ensures
        action == (if event == (TrayIconEvent::Click {
            button: MouseButton::Left,
            button_state: MouseButtonState::Up,
        }) {
            match visible {
                Some(true) => MainWindowAction::Hide,
                Some(false) => MainWindowAction::ShowAndFocus,
                None => MainWindowAction::Nothing,
            }
        } else {
            MainWindowAction::Nothing
        }),
{
    match event {
        TrayIconEvent::Click { button: MouseButton::Left, button_state: MouseButtonState::Up } => {
            match visible {
                Some(true) => MainWindowAction::Hide,
                Some(false) => MainWindowAction::ShowAndFocus,
                None => MainWindowAction::Nothing,
            }
        },
        _ => MainWindowAction::Nothing,
    }
}

} // verus!
