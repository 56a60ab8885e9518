//! The date widget: a small window pinned to the desktop.

use vstd::prelude::*;
use vstd::string::*;
use vstd::utf8::encode_utf8;
use crate::state::{clear_current, replace_current, AppState};
use crate::utils::text::{joined, percent_encode, percent_encoded};

verus! {

/// The label of the widget's window.
pub open spec fn widget_label() -> Seq<char> {
    "date-widget"@
}

/// The address of the widget's page, with its settings as a query parameter.
pub open spec fn widget_url_of(settings_json: Seq<char>) -> Seq<char> {
    "date-widget.html?settings="@ + percent_encoded(encode_utf8(settings_json))
}

/// The address of the widget's page, with its settings as a query parameter.
pub fn widget_url(settings_json: &str) -> (url: String)
    ensures
        url@ == widget_url_of(settings_json@),
{
    let settings = percent_encode(settings_json);
    joined("date-widget.html?settings=", settings.as_str())
}

/// What is needed to put up the date widget.
#[derive(Debug)]
pub struct DateWidgetPlan {
    /// The label of the window to create.
    pub window_label: String,
    /// The window that showed the widget so far and is to be closed.
    pub replaced: Option<String>,
    /// The page that the new window shows.
    pub url: String,
    /// What the command reports once the window is up.
    pub message: String,
}

/// Plans the date widget with the given settings, written as JSON. The new
/// window takes the current slot, and the plan names the window that held it.
pub fn create_date_widget(state: &mut AppState, settings_json: &str) -> (plan: DateWidgetPlan)
    ensures
        plan.window_label@ == widget_label(),
        match plan.replaced {
            Some(label) => old(state).widget_of() == Some(label@),
            None => old(state).widget_of() is None,
        },
        plan.url@ == widget_url_of(settings_json@),
        plan.message@ == "Date widget created successfully"@,
        final(state).date_widgets@ == old(state).date_widgets@.insert(
            "current"@,
            plan.window_label,
        ),
        final(state).widget_of() == Some(widget_label()),
        final(state).video_windows == old(state).video_windows,
{
    let label = String::from_str("date-widget");
    let replaced = replace_current(&mut state.date_widgets, label.clone());
    let url = widget_url(settings_json);
    DateWidgetPlan {
        window_label: label,
        replaced,
        url,
        message: String::from_str("Date widget created successfully"),
    }
}

/// What a command on the widget's window reports: `done` if nothing went
/// wrong, else `complaint` followed by the reason.
pub open spec fn report_of(failure: Option<Seq<char>>, done: Seq<char>, complaint: Seq<char>)
    -> Result<Seq<char>, Seq<char>> {
    match failure {
        None => Ok(done),
        Some(reason) => Err(complaint + reason),
    }
}

/// The texts of a command's report.
pub open spec fn report_texts(report: Result<String, String>) -> Result<Seq<char>, Seq<char>> {
    match report {
        Ok(message) => Ok(message@),
        Err(reason) => Err(reason@),
    }
}

/// The texts of a failure, if there is one.
pub open spec fn failure_text(failure: Option<&str>) -> Option<Seq<char>> {
    match failure {
        Some(reason) => Some(reason@),
        None => None,
    }
}

fn report(failure: Option<&str>, done: &str, complaint: &str) -> (result: Result<String, String>)
    ensures
        report_texts(result) == report_of(failure_text(failure), done@, complaint@),
{
    match failure {
        None => Ok(String::from_str(done)),
        Some(reason) => Err(joined(complaint, reason)),
    }
}

/// What hiding the widget reports. `failure` is the reason why the window
/// could not be hidden, if there was a window and it could not.
pub fn hide_date_widget(failure: Option<&str>) -> (result: Result<String, String>)
    ensures
        report_texts(result) == report_of(
            failure_text(failure),
            "Date widget hidden"@,
            "Failed to hide date widget: "@,
        ),
{
    report(failure, "Date widget hidden", "Failed to hide date widget: ")
}

/// What showing the widget reports. `failure` is the reason why the window
/// could not be shown, if there was a window and it could not.
pub fn show_date_widget(failure: Option<&str>) -> (result: Result<String, String>)
    ensures
        report_texts(result) == report_of(
            failure_text(failure),
            "Date widget shown"@,
            "Failed to show date widget: "@,
        ),
{
    report(failure, "Date widget shown", "Failed to show date widget: ")
}

/// Closes the widget once its window has been dealt with. `close_failure` is
/// the reason why the window could not be closed, if it could not. Without a
/// widget there is nothing to do; with one, a failure to close is reported and
/// the slot kept, else the slot is emptied.
pub fn close_date_widget(state: &mut AppState, close_failure: Option<&str>) -> (result: Result<
    String,
    String,
>)
    ensures
        final(state).video_windows == old(state).video_windows,
        result is Err <==> old(state).widget_of() is Some && close_failure is Some,
        match result {
            Err(reason) => {
                &&& reason@ == "Failed to close date widget: "@ + close_failure->0@
                &&& *final(state) == *old(state)
            },
            Ok(message) => {
                &&& message@ == "Date widget closed"@
                &&& final(state).date_widgets@ == old(state).date_widgets@.remove("current"@)
                &&& final(state).widget_of() is None
            },
        },
{
    let current = state.current_widget();
    if current.is_some() {
        match close_failure {
            Some(reason) => {
                return Err(joined("Failed to close date widget: ", reason));
            },
            None => {},
        }
    }
    clear_current(&mut state.date_widgets);
    Ok(String::from_str("Date widget closed"))
}

/// Whether a setting is written into the script as it stands: numbers and
/// truth values are, everything else is quoted.
pub open spec fn is_bare_setting(key: Seq<char>) -> bool {
    key == "scale"@ || key == "bold_text"@ || key == "locked"@ || key == "show_time"@
}

/// The script that sets one of the widget's settings and applies it.
pub open spec fn property_script_of(key: Seq<char>, value: Seq<char>) -> Seq<char> {
    let shown = if is_bare_setting(key) {
        value
    } else {
        "\""@ + value + "\""@
    };
    "settings['"@ + key + "'] = "@ + shown
        + "; if (window.applySettings) window.applySettings();"@
}

/// The script that sets one of the widget's settings and applies it.
pub fn property_script(key: &str, value: &str) -> (script: String)
    ensures
        script@ == property_script_of(key@, value@),
{
    let bare = str::eq(key, "scale") || str::eq(key, "bold_text") || str::eq(key, "locked")
        || str::eq(key, "show_time");
    let mut script = joined("settings['", key);
    script.append("'] = ");
    if bare {
        script.append(value);
    } else {
        script.append("\"");
        script.append(value);
        script.append("\"");
    }
    script.append("; if (window.applySettings) window.applySettings();");
    assert(script@ =~= property_script_of(key@, value@));
    script
}

/// What became of the script that updates a setting.
#[derive(Debug)]
pub enum Evaluation {
    /// No widget is open: nothing was run.
    NoWidget,
    /// A widget is registered, but its window is gone.
    WindowMissing,
    /// The widget's window ran the script.
    Evaluated,
    /// The widget's window refused the script; the reason in words.
    Refused(String),
}

/// What updating a setting reports.
pub fn update_widget_property(evaluation: &Evaluation) -> (result: Result<String, String>)
    ensures
        report_texts(result) == (match *evaluation {
            Evaluation::NoWidget => Ok("Updated"@),
            Evaluation::Evaluated => Ok("Updated"@),
            Evaluation::WindowMissing => Err("Date widget window not found"@),
            Evaluation::Refused(reason) => Err("Failed: "@ + reason@),
        }),
{
    match evaluation {
        Evaluation::NoWidget => Ok(String::from_str("Updated")),
        Evaluation::Evaluated => Ok(String::from_str("Updated")),
        Evaluation::WindowMissing => Err(String::from_str("Date widget window not found")),
        Evaluation::Refused(reason) => Err(joined("Failed: ", reason.as_str())),
    }
}

} // verus!
