//! The closed set of requests that the user interface can make.

use vstd::prelude::*;

verus! {

/// A request produced by a key binding, the palette or a click, consumed once
/// by the dispatcher.
#[derive(Debug, PartialEq, Eq)]
pub enum Action {
    /// Send text to the focused terminal's input.
    Write(String),
    NewTab,
    CloseTab,
    /// Close the tab at the given position.
    CloseTabAt(usize),
    Quit,
    OpenSettings,
    OpenPluginMenu,
    ToggleCommandPalette,
    OpenDevTools,
    PasteText,
    CopyText,
    ClearBuffer,
    NextTab,
    PreviousTab,
    CloseOtherTabs,
    NoAction,
    ScrollUp,
    ScrollUpPage,
    ScrollDown,
    ScrollDownPage,
    ScrollToBottom,
    ScrollToTop,
}

impl Action {
    /// A copy of this action.
    pub fn duplicate(&self) -> (copy: Action)
        ensures
            copy == *self,
    {
        match self {
            Action::Write(text) => Action::Write(text.clone()),
            Action::NewTab => Action::NewTab,
            Action::CloseTab => Action::CloseTab,
            Action::CloseTabAt(index) => Action::CloseTabAt(*index),
            Action::Quit => Action::Quit,
            Action::OpenSettings => Action::OpenSettings,
            Action::OpenPluginMenu => Action::OpenPluginMenu,
            Action::ToggleCommandPalette => Action::ToggleCommandPalette,
            Action::OpenDevTools => Action::OpenDevTools,
            Action::PasteText => Action::PasteText,
            Action::CopyText => Action::CopyText,
            Action::ClearBuffer => Action::ClearBuffer,
            Action::NextTab => Action::NextTab,
            Action::PreviousTab => Action::PreviousTab,
            Action::CloseOtherTabs => Action::CloseOtherTabs,
            Action::NoAction => Action::NoAction,
            Action::ScrollUp => Action::ScrollUp,
            Action::ScrollUpPage => Action::ScrollUpPage,
            Action::ScrollDown => Action::ScrollDown,
            Action::ScrollDownPage => Action::ScrollDownPage,
            Action::ScrollToBottom => Action::ScrollToBottom,
            Action::ScrollToTop => Action::ScrollToTop,
        }
    }

    /// Whether the dispatcher gives this action an effect of its own. The
    /// others are accepted and reported as not implemented.
    pub open spec fn is_wired(self) -> bool {
        match self {
            Action::Write(_) => true,
            Action::NewTab => true,
            Action::CloseTab => true,
            Action::CloseTabAt(_) => true,
            Action::Quit => true,
            Action::OpenSettings => true,
            Action::OpenPluginMenu => true,
            Action::ToggleCommandPalette => true,
            Action::OpenDevTools => true,
            Action::NextTab => true,
            Action::PreviousTab => true,
            Action::NoAction => true,
            _ => false,
        }
    }
}

impl Clone for Action {
    fn clone(&self) -> (copy: Action)
        ensures
            copy == *self,
    {
        self.duplicate()
    }
}

} // verus!
