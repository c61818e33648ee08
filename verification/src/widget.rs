//! The text that is written for the home-screen widget.

use vstd::prelude::*;
use vstd::string::*;

verus! {

/// The widget's data: one object that holds the task list, as the JSON it
/// was given in, and whether somebody is logged in.
pub open spec fn widget_text(todos_json: Seq<char>, is_logged_in: bool) -> Seq<char> {
    "{\"todos\":"@ + todos_json + ",\"is_logged_in\":"@ + (if is_logged_in {
        "true"@
    } else {
        "false"@
    }) + "}"@
}

/// Writes the widget's data for a task list and a login state. The task
/// list is taken as it is, and is not looked into.
pub fn widget_payload(todos_json: &str, is_logged_in: bool) -> (text: String)
    ensures
        text@ == widget_text(todos_json@, is_logged_in),
{
    let mut text = String::from_str("{\"todos\":");
    text.append(todos_json);
    text.append(",\"is_logged_in\":");
    if is_logged_in {
        text.append("true");
    } else {
        text.append("false");
    }
    text.append("}");
    text
}

} // verus!
