//! What the global shortcut does to the quick-add window.

use vstd::prelude::*;

verus! {

/// What is to be done with the quick-add window.
#[derive(Debug, Clone, Copy, PartialEq, Eq, Structural)]
pub enum QuickAddAction {
    /// Leave everything as it is.
    Nothing,
    /// The window is open: show it and give it the focus.
    FocusExisting,
    /// No such window is open: create one, show it and give it the focus.
    OpenNew,
}

/// The action for a shortcut event: what counts is the press of the
/// quick-add shortcut, and it opens the window only where none is open.
pub open spec fn action_for(is_quick_add: bool, pressed: bool, window_open: bool) -> QuickAddAction {
    if !is_quick_add || !pressed {
        QuickAddAction::Nothing
    } else if window_open {
        QuickAddAction::FocusExisting
    } else {
        QuickAddAction::OpenNew
    }
}

/// Decides what a shortcut event does: `is_quick_add` says whether the
/// shortcut is the quick-add one, `pressed` whether it was pressed rather
/// than released, `window_open` whether the quick-add window exists.
pub fn on_shortcut(is_quick_add: bool, pressed: bool, window_open: bool) -> (action: QuickAddAction)
    ensures
        action == action_for(is_quick_add, pressed, window_open),
        window_open ==> action != QuickAddAction::OpenNew,
{
    if is_quick_add && pressed {
        if window_open {
            QuickAddAction::FocusExisting
        } else {
            QuickAddAction::OpenNew
        }
    } else {
        QuickAddAction::Nothing
    }
}

} // verus!
