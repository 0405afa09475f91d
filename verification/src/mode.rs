//! Application modes and the transitions they allow.

use vstd::prelude::*;

verus! {

/// The mode the application is in, after the modes of a vi-like editor.
#[derive(Debug, Clone, Copy, PartialEq, Eq, Structural)]
pub enum AppMode {
    /// Browsing and operating on files.
    Normal,
    /// Typing a command after the `:` prompt.
    Command,
    /// Typing a file-name search after the `/` prompt.
    Search,
    /// The full-screen help page.
    Help,
    /// A modal dialog is shown.
    Dialog,
}

impl AppMode {
    /// Command mode can only be entered from normal mode.
    pub fn can_enter_command(&self) -> (r: bool)
        ensures
            r == (*self == AppMode::Normal),
    {
        matches!(self, AppMode::Normal)
    }

    /// Help can be entered from normal and command mode.
    pub fn can_enter_help(&self) -> (r: bool)
        ensures
            r == (*self == AppMode::Normal || *self == AppMode::Command),
    {
        matches!(self, AppMode::Normal | AppMode::Command)
    }

    /// A dialog can only be opened from normal mode.
    pub fn can_enter_dialog(&self) -> (r: bool)
        ensures
            r == (*self == AppMode::Normal),
    {
        matches!(self, AppMode::Normal)
    }
}

} // verus!
