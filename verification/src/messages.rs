//! Input events the shell reacts to and the effects it asks for in return.

use vstd::prelude::*;

verus! {

/// Address of StackExchange content, e.g. `stackexchange://stackoverflow/42`.
pub type Uri = String;

/// One user input event, as the window's controls translate it.
#[derive(Debug, Clone)]
pub enum AppInput {
    /// Fetch the questions the URI names and open one tab per question.
    RequestPagesByUri(Uri),
    /// The search button was toggled.
    ToggleSearchEntry,
    /// The about dialog was requested from the menu.
    ShowAboutWindow,
    /// Quit was requested from the menu.
    Quit,
    /// Pin the selected tab, or unpin it if it is pinned.
    ToggleSelectedTabPin,
    /// Close the selected tab; a pinned one only asks for confirmation.
    CloseTab,
    /// Close the selected tab even if pinned; sent once the user confirms.
    ClosePinnedTab,
}

/// What the surrounding window code must carry out after a step of the
/// shell.  Each step returns exactly one effect; widget bookkeeping that
/// mirrors the model (moving pages, flipping flags) rides along with it.
#[derive(Debug, Clone, PartialEq, Eq)]
pub enum Effect {
    /// Fetch questions for this URI, then hand their titles back to the
    /// shell and show one rendered question per new tab.
    FetchQuestions(Uri),
    /// Put the search entry in the header and focus it.
    ShowSearchEntry,
    /// Hide the search entry and show the window title again.
    ShowTitleWidget,
    /// Present the about dialog.
    ShowAboutWindow,
    /// Quit the application.
    Quit,
    /// Pin the selected page in the tab view.
    PinSelectedTab,
    /// Unpin the selected page in the tab view.
    UnpinSelectedTab,
    /// Close the selected page in the tab view.
    CloseSelectedTab,
    /// Ask the user to confirm closing the selected, pinned tab.
    AskClosePinnedTab,
    /// Unpin the selected page, then close it.
    UnpinAndCloseSelectedTab,
}

} // verus!
