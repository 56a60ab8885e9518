//! Settings that outlive the session.

use vstd::prelude::*;
use vstd::string::*;
use crate::commands::date_widget::{failure_text, report_texts};
use crate::utils::text::joined;

verus! {

/// What switching the start with the session on or off reports.
pub open spec fn autostart_report_of(enable: bool, failure: Option<Seq<char>>) -> Result<
    Seq<char>,
    Seq<char>,
> {
    match failure {
        Some(reason) => if enable {
            Err("Failed to enable autostart: "@ + reason)
        } else {
            Err("Failed to disable autostart: "@ + reason)
        },
        None => if enable {
            Ok("Autostart enabled"@)
        } else {
            Ok("Autostart disabled"@)
        },
    }
}

/// What switching the start with the session on or off reports. `failure` is
/// the reason why the operating system refused, if it did.
pub fn set_autostart(enable: bool, failure: Option<&str>) -> (result: Result<String, String>)
    ensures
        report_texts(result) == autostart_report_of(enable, failure_text(failure)),
{
    match failure {
        Some(reason) => if enable {
            Err(joined("Failed to enable autostart: ", reason))
        } else {
            Err(joined("Failed to disable autostart: ", reason))
        },
        None => if enable {
            Ok(String::from_str("Autostart enabled"))
        } else {
            Ok(String::from_str("Autostart disabled"))
        },
    }
}

} // verus!
