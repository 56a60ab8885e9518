//! The windows that the application has open on the desktop.

use vstd::prelude::*;
use vstd::hash_map::StringHashMap;
use vstd::string::*;

verus! {

/// The labels of the windows that the application has put on the desktop,
/// by slot. Each kind of window has one slot, named `"current"`.
pub struct AppState {
    pub video_windows: StringHashMap<String>,
    pub date_widgets: StringHashMap<String>,
}

/// The label that `slots` holds for the current window, if any.
pub open spec fn current_of(slots: Map<Seq<char>, String>) -> Option<Seq<char>> {
    if slots.contains_key("current"@) {
        Some(slots["current"@]@)
    } else {
        None
    }
}

/// The label in the current slot of `slots`, if any.
pub fn current_label(slots: &StringHashMap<String>) -> (label: Option<String>)
    ensures
        match label {
            Some(text) => current_of(slots@) == Some(text@),
            None => current_of(slots@) is None,
        },
{
    match slots.get("current") {
        Some(label) => Some(label.clone()),
        None => None,
    }
}

/// Puts `label` in the current slot of `slots` and hands out the label that
/// was there before.
pub fn replace_current(slots: &mut StringHashMap<String>, label: String) -> (previous: Option<
    String,
>)
    ensures
        match previous {
            Some(text) => current_of(old(slots)@) == Some(text@),
            None => current_of(old(slots)@) is None,
        },
        final(slots)@ == old(slots)@.insert("current"@, label),
        current_of(final(slots)@) == Some(label@),
{
    let previous = current_label(slots);
    slots.insert(String::from_str("current"), label);
    previous
}

/// Empties the current slot of `slots`.
pub fn clear_current(slots: &mut StringHashMap<String>)
    ensures
        final(slots)@ == old(slots)@.remove("current"@),
        current_of(final(slots)@) is None,
{
    slots.remove("current");
}

impl Default for AppState {
    /// No window is open.
    fn default() -> (state: AppState)
        ensures
            state.video_windows@ == Map::<Seq<char>, String>::empty(),
            state.date_widgets@ == Map::<Seq<char>, String>::empty(),
    {
        AppState { video_windows: StringHashMap::new(), date_widgets: StringHashMap::new() }
    }
}

impl AppState {
    /// The label of the video wallpaper window, if one is open.
    pub open spec fn video_of(&self) -> Option<Seq<char>> {
        current_of(self.video_windows@)
    }

    /// The label of the date widget window, if one is open.
    pub open spec fn widget_of(&self) -> Option<Seq<char>> {
        current_of(self.date_widgets@)
    }

    /// The label of the video wallpaper window, if one is open.
    pub fn current_video(&self) -> (label: Option<String>)
        ensures
            match label {
                Some(text) => self.video_of() == Some(text@),
                None => self.video_of() is None,
            },
    {
        current_label(&self.video_windows)
    }

    /// The label of the date widget window, if one is open.
    pub fn current_widget(&self) -> (label: Option<String>)
        ensures
            match label {
                Some(text) => self.widget_of() == Some(text@),
                None => self.widget_of() is None,
            },
    {
        current_label(&self.date_widgets)
    }
}

} // verus!
