//! From key presses and mouse clicks to actions, by mode.
//!
//! Besides the vi-style letters, physical keys (arrows, Home/End,
//! function keys) and the characters a Japanese input method sends for the
//! same key positions (kana input, and the vowels of romaji input) lead to
//! the same actions.

use vstd::prelude::*;
use crate::app::{is_branch_list, Action, App, DialogState, PaneSide};
use crate::mode::AppMode;
use crate::text::{is_blank, trim};
use crate::ui::dialog::{branch_rows, filter_branches_display, filtered_rows};

verus! {

/// A key as the terminal reports it.
#[derive(Debug, Clone, Copy, PartialEq, Eq, Structural)]
pub enum KeyCode {
    Char(char),
    F(u8),
    Backspace,
    Enter,
    Left,
    Right,
    Up,
    Down,
    Home,
    End,
    PageUp,
    PageDown,
    Tab,
    BackTab,
    Delete,
    Insert,
    Esc,
    Other,
}

/// What the mouse did.
#[derive(Debug, Clone, Copy, PartialEq, Eq, Structural)]
pub enum MouseKind {
    LeftDown,
    RightDown,
    ScrollUp,
    ScrollDown,
    Other,
}

/// A scroll far enough up to reach the top (half of `i32::MIN`).
pub const TO_TOP: i32 = -1073741824;

/// A scroll far enough down to reach the bottom (half of `i32::MAX`).
pub const TO_BOTTOM: i32 = 1073741823;

/// Two clicks at one place within this many milliseconds are a double click.
pub const DOUBLE_CLICK_THRESHOLD_MS: u64 = 400;

/// The normal-mode action of a character sent by a Japanese input method
/// for a key position (kana input, or the vowels of romaji input).
pub open spec fn kana_normal(c: char) -> Action {
    if c == 'く' {
        Action::ParentDirectory
    } else if c == 'ま' {
        Action::MoveCursor(1i32)
    } else if c == 'の' {
        Action::MoveCursor(-1i32)
    } else if c == 'り' {
        Action::Enter
    } else if c == 'き' {
        Action::JumpTop
    } else if c == 'へ' || c == '〜' {
        Action::GoHome
    } else if c == 'そ' {
        Action::CopyFiles
    } else if c == 'も' {
        Action::MoveFiles
    } else if c == 'し' {
        Action::RequestDelete
    } else if c == 'す' {
        Action::RequestRename
    } else if c == 'み' {
        Action::RequestCreateDir
    } else if c == 'か' {
        Action::RequestCreateFile
    } else if c == 'さ' {
        Action::RequestChmod
    } else if c == 'ん' {
        Action::GitPull
    } else if c == 'な' {
        Action::GitCheckout
    } else if c == 'こ' {
        Action::GitBranchList
    } else if c == 'ら' {
        Action::FindPrev
    } else if c == 'せ' {
        Action::FindNext
    } else if c == 'ち' || c == 'あ' {
        Action::ToggleMarkAll
    } else if c == 'と' {
        Action::ShowSortMenu
    } else if c == 'つ' || c == 'る' || c == '。' {
        Action::ToggleHidden
    } else if c == 'に' || c == 'い' {
        Action::ShowFileInfo
    } else if c == 'け' || c == '：' {
        Action::EnterCommandMode
    } else if c == 'た' {
        Action::Quit
    } else {
        Action::Noop
    }
}

/// The normal-mode action of a character sent by a Japanese input method.
pub fn kana_to_normal_action(c: char) -> (a: Action)
    ensures
        a == kana_normal(c),
{
    if c == 'く' {
        Action::ParentDirectory
    } else if c == 'ま' {
        Action::MoveCursor(1i32)
    } else if c == 'の' {
        Action::MoveCursor(-1i32)
    } else if c == 'り' {
        Action::Enter
    } else if c == 'き' {
        Action::JumpTop
    } else if c == 'へ' || c == '〜' {
        Action::GoHome
    } else if c == 'そ' {
        Action::CopyFiles
    } else if c == 'も' {
        Action::MoveFiles
    } else if c == 'し' {
        Action::RequestDelete
    } else if c == 'す' {
        Action::RequestRename
    } else if c == 'み' {
        Action::RequestCreateDir
    } else if c == 'か' {
        Action::RequestCreateFile
    } else if c == 'さ' {
        Action::RequestChmod
    } else if c == 'ん' {
        Action::GitPull
    } else if c == 'な' {
        Action::GitCheckout
    } else if c == 'こ' {
        Action::GitBranchList
    } else if c == 'ら' {
        Action::FindPrev
    } else if c == 'せ' {
        Action::FindNext
    } else if c == 'ち' || c == 'あ' {
        Action::ToggleMarkAll
    } else if c == 'と' {
        Action::ShowSortMenu
    } else if c == 'つ' || c == 'る' || c == '。' {
        Action::ToggleHidden
    } else if c == 'に' || c == 'い' {
        Action::ShowFileInfo
    } else if c == 'け' || c == '：' {
        Action::EnterCommandMode
    } else if c == 'た' {
        Action::Quit
    } else {
        Action::Noop
    }
}

/// The help-screen action of a character sent by a Japanese input method.
pub open spec fn kana_help(c: char) -> Action {
    if c == 'た' {
        Action::ExitHelp
    } else if c == 'ま' {
        Action::HelpScroll(1i32)
    } else if c == 'の' {
        Action::HelpScroll(-1i32)
    } else if c == 'し' {
        Action::HelpScroll(20i32)
    } else if c == 'な' || c == 'う' {
        Action::HelpScroll(-20i32)
    } else if c == 'き' {
        Action::HelpScroll(TO_TOP)
    } else {
        Action::Noop
    }
}

/// The help-screen action of a character sent by a Japanese input method.
pub fn kana_to_help_action(c: char) -> (a: Action)
    ensures
        a == kana_help(c),
{
    if c == 'た' {
        Action::ExitHelp
    } else if c == 'ま' {
        Action::HelpScroll(1i32)
    } else if c == 'の' {
        Action::HelpScroll(-1i32)
    } else if c == 'し' {
        Action::HelpScroll(20i32)
    } else if c == 'な' || c == 'う' {
        Action::HelpScroll(-20i32)
    } else if c == 'き' {
        Action::HelpScroll(TO_TOP)
    } else {
        Action::Noop
    }
}

/// The normal-mode action of a key.
pub open spec fn normal_key(k: KeyCode) -> Action {
    match k {
        KeyCode::Char(c) => if c == 'h' {
            Action::ParentDirectory
        } else if c == 'j' {
            Action::MoveCursor(1i32)
        } else if c == 'k' {
            Action::MoveCursor(-1i32)
        } else if c == 'l' {
            Action::Enter
        } else if c == 'g' {
            Action::JumpTop
        } else if c == 'G' {
            Action::JumpBottom
        } else if c == '~' {
            Action::GoHome
        } else if c == 'c' {
            Action::CopyFiles
        } else if c == 'm' {
            Action::MoveFiles
        } else if c == 'd' {
            Action::RequestDelete
        } else if c == 'r' {
            Action::RequestRename
        } else if c == 'n' {
            Action::RequestCreateDir
        } else if c == 't' {
            Action::RequestCreateFile
        } else if c == 'x' {
            Action::RequestChmod
        } else if c == 'y' {
            Action::GitPull
        } else if c == 'u' {
            Action::GitCheckout
        } else if c == 'b' {
            Action::GitBranchList
        } else if c == ' ' {
            Action::ToggleMark
        } else if c == 'a' {
            Action::ToggleMarkAll
        } else if c == 'o' {
            Action::FindPrev
        } else if c == 'p' {
            Action::FindNext
        } else if c == 's' {
            Action::ShowSortMenu
        } else if c == 'z' || c == '.' {
            Action::ToggleHidden
        } else if c == 'i' {
            Action::ShowFileInfo
        } else if c == ':' {
            Action::EnterCommandMode
        } else if c == 'q' {
            Action::Quit
        } else {
            kana_normal(c)
        },
        KeyCode::Backspace | KeyCode::Left => Action::ParentDirectory,
        KeyCode::Down => Action::MoveCursor(1i32),
        KeyCode::Up => Action::MoveCursor(-1i32),
        KeyCode::Enter | KeyCode::Right => Action::Enter,
        KeyCode::Home => Action::JumpTop,
        KeyCode::End => Action::JumpBottom,
        KeyCode::PageUp => Action::MoveCursor(-20i32),
        KeyCode::PageDown => Action::MoveCursor(20i32),
        KeyCode::Tab | KeyCode::BackTab => Action::SwitchPane,
        KeyCode::F(n) => if n == 5 {
            Action::CopyFiles
        } else if n == 6 {
            Action::MoveFiles
        } else if n == 8 {
            Action::RequestDelete
        } else if n == 2 {
            Action::RequestRename
        } else if n == 7 {
            Action::RequestCreateDir
        } else if n == 4 {
            Action::RequestCreateFile
        } else {
            Action::Noop
        },
        KeyCode::Delete => Action::RequestDelete,
        KeyCode::Insert => Action::ToggleMark,
        KeyCode::Esc => Action::Quit,
        KeyCode::Other => Action::Noop,
    }
}

/// The normal-mode action of a key (vi keys, physical keys, kana).
pub fn handle_normal_key(k: KeyCode) -> (a: Action)
    ensures
        a == normal_key(k),
{
    match k {
        KeyCode::Char(c) => if c == 'h' {
            Action::ParentDirectory
        } else if c == 'j' {
            Action::MoveCursor(1i32)
        } else if c == 'k' {
            Action::MoveCursor(-1i32)
        } else if c == 'l' {
            Action::Enter
        } else if c == 'g' {
            Action::JumpTop
        } else if c == 'G' {
            Action::JumpBottom
        } else if c == '~' {
            Action::GoHome
        } else if c == 'c' {
            Action::CopyFiles
        } else if c == 'm' {
            Action::MoveFiles
        } else if c == 'd' {
            Action::RequestDelete
        } else if c == 'r' {
            Action::RequestRename
        } else if c == 'n' {
            Action::RequestCreateDir
        } else if c == 't' {
            Action::RequestCreateFile
        } else if c == 'x' {
            Action::RequestChmod
        } else if c == 'y' {
            Action::GitPull
        } else if c == 'u' {
            Action::GitCheckout
        } else if c == 'b' {
            Action::GitBranchList
        } else if c == ' ' {
            Action::ToggleMark
        } else if c == 'a' {
            Action::ToggleMarkAll
        } else if c == 'o' {
            Action::FindPrev
        } else if c == 'p' {
            Action::FindNext
        } else if c == 's' {
            Action::ShowSortMenu
        } else if c == 'z' || c == '.' {
            Action::ToggleHidden
        } else if c == 'i' {
            Action::ShowFileInfo
        } else if c == ':' {
            Action::EnterCommandMode
        } else if c == 'q' {
            Action::Quit
        } else {
            kana_to_normal_action(c)
        },
        KeyCode::Backspace | KeyCode::Left => Action::ParentDirectory,
        KeyCode::Down => Action::MoveCursor(1i32),
        KeyCode::Up => Action::MoveCursor(-1i32),
        KeyCode::Enter | KeyCode::Right => Action::Enter,
        KeyCode::Home => Action::JumpTop,
        KeyCode::End => Action::JumpBottom,
        KeyCode::PageUp => Action::MoveCursor(-20i32),
        KeyCode::PageDown => Action::MoveCursor(20i32),
        KeyCode::Tab | KeyCode::BackTab => Action::SwitchPane,
        KeyCode::F(n) => if n == 5 {
            Action::CopyFiles
        } else if n == 6 {
            Action::MoveFiles
        } else if n == 8 {
            Action::RequestDelete
        } else if n == 2 {
            Action::RequestRename
        } else if n == 7 {
            Action::RequestCreateDir
        } else if n == 4 {
            Action::RequestCreateFile
        } else {
            Action::Noop
        },
        KeyCode::Delete => Action::RequestDelete,
        KeyCode::Insert => Action::ToggleMark,
        KeyCode::Esc => Action::Quit,
        KeyCode::Other => Action::Noop,
    }
}

/// The command-line action of a key: every character is typed as is.
pub open spec fn command_key(k: KeyCode) -> Action {
    match k {
        KeyCode::Esc => Action::ExitCommandMode,
        KeyCode::Enter => Action::CommandExecute,
        KeyCode::Backspace => Action::CommandBackspace,
        KeyCode::Tab => Action::CommandComplete,
        KeyCode::Up => Action::CommandHistoryPrev,
        KeyCode::Down => Action::CommandHistoryNext,
        KeyCode::Char(c) => Action::CommandInput(c),
        _ => Action::Noop,
    }
}

/// The command-line action of a key.
pub fn handle_command_key(k: KeyCode) -> (a: Action)
    ensures
        a == command_key(k),
{
    match k {
        KeyCode::Esc => Action::ExitCommandMode,
        KeyCode::Enter => Action::CommandExecute,
        KeyCode::Backspace => Action::CommandBackspace,
        KeyCode::Tab => Action::CommandComplete,
        KeyCode::Up => Action::CommandHistoryPrev,
        KeyCode::Down => Action::CommandHistoryNext,
        KeyCode::Char(c) => Action::CommandInput(c),
        _ => Action::Noop,
    }
}

/// The help-screen action of a key.
pub open spec fn help_key(k: KeyCode) -> Action {
    match k {
        KeyCode::Char(c) => if c == 'q' {
            Action::ExitHelp
        } else if c == 'j' {
            Action::HelpScroll(1i32)
        } else if c == 'k' {
            Action::HelpScroll(-1i32)
        } else if c == 'd' {
            Action::HelpScroll(20i32)
        } else if c == 'u' {
            Action::HelpScroll(-20i32)
        } else if c == 'g' {
            Action::HelpScroll(TO_TOP)
        } else if c == 'G' {
            Action::HelpScroll(TO_BOTTOM)
        } else {
            kana_help(c)
        },
        KeyCode::Esc => Action::ExitHelp,
        KeyCode::Down => Action::HelpScroll(1i32),
        KeyCode::Up => Action::HelpScroll(-1i32),
        KeyCode::PageDown => Action::HelpScroll(20i32),
        KeyCode::PageUp => Action::HelpScroll(-20i32),
        KeyCode::Home => Action::HelpScroll(TO_TOP),
        KeyCode::End => Action::HelpScroll(TO_BOTTOM),
        _ => Action::Noop,
    }
}

/// The help-screen action of a key.
pub fn handle_help_key(k: KeyCode) -> (a: Action)
    ensures
        a == help_key(k),
{
    match k {
        KeyCode::Char(c) => if c == 'q' {
            Action::ExitHelp
        } else if c == 'j' {
            Action::HelpScroll(1i32)
        } else if c == 'k' {
            Action::HelpScroll(-1i32)
        } else if c == 'd' {
            Action::HelpScroll(20i32)
        } else if c == 'u' {
            Action::HelpScroll(-20i32)
        } else if c == 'g' {
            Action::HelpScroll(TO_TOP)
        } else if c == 'G' {
            Action::HelpScroll(TO_BOTTOM)
        } else {
            kana_to_help_action(c)
        },
        KeyCode::Esc => Action::ExitHelp,
        KeyCode::Down => Action::HelpScroll(1i32),
        KeyCode::Up => Action::HelpScroll(-1i32),
        KeyCode::PageDown => Action::HelpScroll(20i32),
        KeyCode::PageUp => Action::HelpScroll(-20i32),
        KeyCode::Home => Action::HelpScroll(TO_TOP),
        KeyCode::End => Action::HelpScroll(TO_BOTTOM),
        _ => Action::Noop,
    }
}

/// The dialog action of a key, by the kind of dialog shown.
pub open spec fn dialog_key(k: KeyCode, d: Option<DialogState>) -> Action {
    match d {
        Some(DialogState::Confirm { focus_yes, .. }) => match k {
            KeyCode::Char(c) => if c == 'y' {
                Action::DialogConfirm
            } else if c == 'n' {
                Action::DialogCancel
            } else {
                Action::Noop
            },
            KeyCode::Esc => Action::DialogCancel,
            KeyCode::Enter => if focus_yes {
                Action::DialogConfirm
            } else {
                Action::DialogCancel
            },
            _ => Action::Noop,
        },
        Some(DialogState::Input { .. }) => match k {
            KeyCode::Enter => Action::DialogConfirm,
            KeyCode::Esc => Action::DialogCancel,
            KeyCode::Backspace => Action::DialogBackspace,
            KeyCode::Left => Action::DialogCursorLeft,
            KeyCode::Right => Action::DialogCursorRight,
            KeyCode::Home => Action::DialogHome,
            KeyCode::End => Action::DialogEnd,
            KeyCode::Char(c) => Action::DialogInput(c),
            _ => Action::Noop,
        },
        Some(DialogState::Message { .. }) => match k {
            KeyCode::Esc | KeyCode::Enter => Action::DialogCancel,
            KeyCode::Char(c) => if c == 'q' {
                Action::DialogCancel
            } else {
                Action::Noop
            },
            _ => Action::Noop,
        },
        Some(DialogState::BranchList { search_input, .. }) => if search_input is Some {
            match k {
                KeyCode::Enter => Action::BranchListSearchEnter,
                KeyCode::Esc => Action::BranchListSearchCancel,
                KeyCode::Backspace => Action::BranchListSearchBackspace,
                KeyCode::Char(c) => Action::BranchListSearchInput(c),
                _ => Action::Noop,
            }
        } else {
            match k {
                KeyCode::Char(c) => if c == '/' {
                    Action::BranchListStartSearch
                } else if c == 'j' {
                    Action::BranchListMoveCursor(1i32)
                } else if c == 'k' {
                    Action::BranchListMoveCursor(-1i32)
                } else if c == 'g' {
                    Action::BranchListMoveCursor(TO_TOP)
                } else if c == 'G' {
                    Action::BranchListMoveCursor(TO_BOTTOM)
                } else if c == 'q' {
                    Action::DialogCancel
                } else {
                    Action::Noop
                },
                KeyCode::Down => Action::BranchListMoveCursor(1i32),
                KeyCode::Up => Action::BranchListMoveCursor(-1i32),
                KeyCode::Home => Action::BranchListMoveCursor(TO_TOP),
                KeyCode::End => Action::BranchListMoveCursor(TO_BOTTOM),
                KeyCode::PageDown => Action::BranchListMoveCursor(10i32),
                KeyCode::PageUp => Action::BranchListMoveCursor(-10i32),
                KeyCode::Enter => Action::DialogConfirm,
                KeyCode::Esc => Action::DialogCancel,
                _ => Action::Noop,
            }
        },
        None => Action::Noop,
    }
}

/// The dialog action of a key.
pub fn handle_dialog_key(k: KeyCode, app: &App) -> (a: Action)
    ensures
        a == dialog_key(k, app.dialog),
{
    match &app.dialog {
        Some(DialogState::Confirm { focus_yes, .. }) => match k {
            KeyCode::Char(c) => if c == 'y' {
                Action::DialogConfirm
            } else if c == 'n' {
                Action::DialogCancel
            } else {
                Action::Noop
            },
            KeyCode::Esc => Action::DialogCancel,
            KeyCode::Enter => if *focus_yes {
                Action::DialogConfirm
            } else {
                Action::DialogCancel
            },
            _ => Action::Noop,
        },
        Some(DialogState::Input { .. }) => match k {
            KeyCode::Enter => Action::DialogConfirm,
            KeyCode::Esc => Action::DialogCancel,
            KeyCode::Backspace => Action::DialogBackspace,
            KeyCode::Left => Action::DialogCursorLeft,
            KeyCode::Right => Action::DialogCursorRight,
            KeyCode::Home => Action::DialogHome,
            KeyCode::End => Action::DialogEnd,
            KeyCode::Char(c) => Action::DialogInput(c),
            _ => Action::Noop,
        },
        Some(DialogState::Message { .. }) => match k {
            KeyCode::Esc | KeyCode::Enter => Action::DialogCancel,
            KeyCode::Char(c) => if c == 'q' {
                Action::DialogCancel
            } else {
                Action::Noop
            },
            _ => Action::Noop,
        },
        Some(DialogState::BranchList { search_input, .. }) => if search_input.is_some() {
            match k {
                KeyCode::Enter => Action::BranchListSearchEnter,
                KeyCode::Esc => Action::BranchListSearchCancel,
                KeyCode::Backspace => Action::BranchListSearchBackspace,
                KeyCode::Char(c) => Action::BranchListSearchInput(c),
                _ => Action::Noop,
            }
        } else {
            match k {
                KeyCode::Char(c) => if c == '/' {
                    Action::BranchListStartSearch
                } else if c == 'j' {
                    Action::BranchListMoveCursor(1i32)
                } else if c == 'k' {
                    Action::BranchListMoveCursor(-1i32)
                } else if c == 'g' {
                    Action::BranchListMoveCursor(TO_TOP)
                } else if c == 'G' {
                    Action::BranchListMoveCursor(TO_BOTTOM)
                } else if c == 'q' {
                    Action::DialogCancel
                } else {
                    Action::Noop
                },
                KeyCode::Down => Action::BranchListMoveCursor(1i32),
                KeyCode::Up => Action::BranchListMoveCursor(-1i32),
                KeyCode::Home => Action::BranchListMoveCursor(TO_TOP),
                KeyCode::End => Action::BranchListMoveCursor(TO_BOTTOM),
                KeyCode::PageDown => Action::BranchListMoveCursor(10i32),
                KeyCode::PageUp => Action::BranchListMoveCursor(-10i32),
                KeyCode::Enter => Action::DialogConfirm,
                KeyCode::Esc => Action::DialogCancel,
                _ => Action::Noop,
            }
        },
        None => Action::Noop,
    }
}

/// The action of a key in the application's current mode; any key closes
/// the welcome screen.
pub open spec fn key_action(k: KeyCode, app: App) -> Action {
    if app.show_welcome {
        Action::DismissWelcome
    } else {
        match app.mode {
            AppMode::Normal => normal_key(k),
            AppMode::Command => command_key(k),
            AppMode::Help => help_key(k),
            AppMode::Dialog => dialog_key(k, app.dialog),
            AppMode::Search => Action::Noop,
        }
    }
}

/// The action of a key in the application's current mode.
pub fn handle_key(k: KeyCode, app: &App) -> (a: Action)
    ensures
        a == key_action(k, *app),
{
    if app.show_welcome {
        return Action::DismissWelcome;
    }
    match app.mode {
        AppMode::Normal => handle_normal_key(k),
        AppMode::Command => handle_command_key(k),
        AppMode::Help => handle_help_key(k),
        AppMode::Dialog => handle_dialog_key(k, app),
        AppMode::Search => Action::Noop,
    }
}


/// The action of a click on the function bar at column `x`. The buttons
/// take columns 1–15 (rename), 16–28 (copy), 29–39 (move), 40–50
/// (delete), 51–64 (help) and 65–76 (quit); then, after a search, 77–86
/// (previous) and from 87 (next); then, in a repository, pull (12
/// columns), checkout (16) and the branch list.
pub open spec fn function_bar_action(x: int, has_find: bool, has_git: bool) -> Action {
    if 1 <= x < 16 {
        Action::RequestRename
    } else if 16 <= x < 29 {
        Action::CopyFiles
    } else if 29 <= x < 40 {
        Action::MoveFiles
    } else if 40 <= x < 51 {
        Action::RequestDelete
    } else if 51 <= x < 65 {
        Action::EnterHelp(None)
    } else if 65 <= x < 77 {
        Action::Quit
    } else if has_find && 77 <= x < 87 {
        Action::FindPrev
    } else if has_find && x >= 87 && (!has_git || x < 97) {
        Action::FindNext
    } else if has_git {
        let start: int = if has_find { 97 } else { 77 };
        if start <= x < start + 12 {
            Action::GitPull
        } else if start + 12 <= x < start + 28 {
            Action::GitCheckout
        } else if x >= start + 28 {
            Action::GitBranchList
        } else {
            Action::Noop
        }
    } else {
        Action::Noop
    }
}

/// The action of a click on the function bar.
pub fn handle_function_bar_click(x: u16, has_find: bool, has_git: bool) -> (a: Action)
    ensures
        a == function_bar_action(x as int, has_find, has_git),
{
    let x = x as usize;
    if 1 <= x && x < 16 {
        Action::RequestRename
    } else if 16 <= x && x < 29 {
        Action::CopyFiles
    } else if 29 <= x && x < 40 {
        Action::MoveFiles
    } else if 40 <= x && x < 51 {
        Action::RequestDelete
    } else if 51 <= x && x < 65 {
        Action::EnterHelp(None)
    } else if 65 <= x && x < 77 {
        Action::Quit
    } else if has_find && 77 <= x && x < 87 {
        Action::FindPrev
    } else if has_find && x >= 87 && (!has_git || x < 97) {
        Action::FindNext
    } else if has_git {
        let git_start: usize = if has_find { 97 } else { 77 };
        let git_pull_end = git_start + 12;
        let git_checkout_end = git_pull_end + 16;
        if x >= git_start && x < git_pull_end {
            Action::GitPull
        } else if x >= git_pull_end && x < git_checkout_end {
            Action::GitCheckout
        } else if x >= git_checkout_end {
            Action::GitBranchList
        } else {
            Action::Noop
        }
    } else {
        Action::Noop
    }
}

/// Whether a click at (`x`, `y`) at time `now` repeats the last click at
/// the same place within the double-click time.
pub open spec fn double_click(last: Option<(u16, u16, u64)>, x: u16, y: u16, now: u64) -> bool {
    match last {
        Some((px, py, t)) => px == x && py == y && (if now >= t { now - t } else { 0 }) < DOUBLE_CLICK_THRESHOLD_MS,
        None => false,
    }
}

/// Whether a click repeats the last one.
pub fn is_double_click(app: &App, x: u16, y: u16, now: u64) -> (r: bool)
    ensures
        r == double_click(app.last_click, x, y, now),
{
    match app.last_click {
        Some((px, py, t)) => {
            let elapsed = if now >= t { now - t } else { 0 };
            px == x && py == y && elapsed < DOUBLE_CLICK_THRESHOLD_MS
        },
        None => false,
    }
}

/// `a - b`, or 0 when `b` is larger.
pub open spec fn sat(a: int, b: int) -> int {
    if a >= b {
        a - b
    } else {
        0
    }
}

/// The branch-list dialog's box for a terminal `w` by `h` and `rows`
/// listed rows: (x, y, width, height).
pub open spec fn branch_box(w: int, h: int, rows: int, searching: bool) -> (int, int, int, int) {
    let width0 = w * 3 / 4;
    let width1 = if width0 < 40 { 40 } else { width0 };
    let width = if width1 < sat(w, 4) { width1 } else { sat(w, 4) };
    let list = if rows < 20 { rows } else { 20 };
    let extra: int = if searching { 1 } else { 0 };
    let height = if list + 4 + extra < sat(h, 4) { list + 4 + extra } else { sat(h, 4) };
    (sat(w, width) / 2, sat(h, height) / 2, width, height)
}

/// The branch-list dialog's box on a terminal `w` by `h` with `rows` listed
/// rows, one more row when the search line is shown: (x, y, width, height).
pub fn branch_dialog_box(w: u16, h: u16, rows: usize, searching: bool) -> (r: (u16, u16, u16, u16))
    requires
        w <= 21845,
    ensures
        (r.0 as int, r.1 as int, r.2 as int, r.3 as int) == branch_box(w as int, h as int, rows as int, searching),
{
    let w3 = w * 3 / 4;
    let w1 = if w3 < 40 { 40 } else { w3 };
    let w4 = w.saturating_sub(4);
    let width = if w1 < w4 { w1 } else { w4 };
    let list: u16 = if rows < 20 { rows as u16 } else { 20 };
    let extra: u16 = if searching { 1 } else { 0 };
    let h4 = h.saturating_sub(4);
    let height = if list + 4 + extra < h4 { list + 4 + extra } else { h4 };
    (w.saturating_sub(width) / 2, h.saturating_sub(height) / 2, width, height)
}

/// The other dialogs' box for a terminal `w` by `h`: (x, y, width, height).
pub open spec fn plain_box(w: int, h: int) -> (int, int, int, int) {
    let width = if 44 < sat(w, 4) { 44 } else { sat(w, 4) };
    (sat(w, width) / 2, sat(h, 7) / 2, width, 7)
}

/// Whether (`x`, `y`) is inside a box.
pub open spec fn inside(b: (int, int, int, int), x: int, y: int) -> bool {
    b.0 <= x < b.0 + b.2 && b.1 <= y < b.1 + b.3
}

/// The dialog-click computation stays within its integer types.
pub open spec fn click_fits(app: App) -> bool {
    &&& app.terminal_size.0 <= 21845
    &&& (app.dialog matches Some(DialogState::BranchList { scroll_offset, .. }) ==> scroll_offset + 65536 <= usize::MAX)
}

impl App {
    /// Puts the branch list's cursor on row `idx`.
    fn set_branch_cursor(&mut self, idx: usize)
        requires
            old(self).wf(),
        ensures
            final(self).wf(),
            !is_branch_list(old(self).dialog) ==> *final(self) == *old(self),
            old(self).dialog matches Some(DialogState::BranchList { branches, filter_string, search_input, scroll_offset, .. }) ==>
                *final(self) == (App { dialog: Some(DialogState::BranchList { branches, filter_string, search_input, cursor: idx, scroll_offset }), ..*old(self) }),
    {
        match &mut self.dialog {
            Some(DialogState::BranchList { cursor, .. }) => *cursor = idx,
            _ => {},
        }
    }
}

/// What a click inside a dialog does: outside the box it cancels; on a
/// branch row it moves the cursor there (a double click also confirms);
/// on the confirm dialog's button row, left of the middle confirms and
/// right cancels.
pub open spec fn dialog_clicked(o: App, n: App, x: u16, y: u16, now: u64, a: Action) -> bool {
    let w = o.terminal_size.0 as int;
    let h = o.terminal_size.1 as int;
    match o.dialog {
        Some(DialogState::BranchList { branches, filter_string, search_input, scroll_offset, .. }) => {
            let rows = filtered_rows(branch_rows(branches@), filter_string@).len() as int;
            let b = branch_box(w, h, rows, search_input is Some);
            let top = b.1 + 1 + if search_input is Some { 1int } else { 0 };
            let bottom = b.1 + b.3 - 2;
            let idx = scroll_offset + (y - top);
            if !inside(b, x as int, y as int) {
                n == o && a == Action::DialogCancel
            } else if top <= y < bottom && idx < rows {
                let clicked = App { last_click: Some((x, y, now)), ..o };
                &&& n == (App { dialog: Some(DialogState::BranchList { branches, filter_string, search_input, cursor: idx as usize, scroll_offset }), ..clicked })
                &&& a == if double_click(o.last_click, x, y, now) { Action::DialogConfirm } else { Action::Noop }
            } else {
                n == o && a == Action::Noop
            }
        },
        _ => {
            let b = plain_box(w, h);
            &&& n == o
            &&& a == if !inside(b, x as int, y as int) {
                Action::DialogCancel
            } else if (o.dialog matches Some(DialogState::Confirm { .. })) && y == b.1 + 4 {
                if x < b.0 + b.2 / 2 {
                    Action::DialogConfirm
                } else {
                    Action::DialogCancel
                }
            } else {
                Action::Noop
            }
        },
    }
}

/// A click inside a dialog.
pub fn handle_dialog_click(x: u16, y: u16, app: &mut App, now: u64) -> (a: Action)
    requires
        old(app).wf(),
        click_fits(*old(app)),
    ensures
        final(app).wf(),
        dialog_clicked(*old(app), *final(app), x, y, now, a),
{
    let (w, h) = app.terminal_size;
    let info: Option<(usize, bool, usize)> = match &app.dialog {
        Some(DialogState::BranchList { branches, filter_string, search_input, scroll_offset, .. }) => {
            let shown = filter_branches_display(branches, filter_string.as_str());
            Some((shown.len(), search_input.is_some(), *scroll_offset))
        },
        _ => None,
    };
    match info {
        Some((filtered_len, searching, scroll_offset)) => {
            let (dialog_x, dialog_y, dialog_width, dialog_height) = branch_dialog_box(
                w,
                h,
                filtered_len,
                searching,
            );
            if x < dialog_x || x >= dialog_x + dialog_width || y < dialog_y || y >= dialog_y + dialog_height {
                return Action::DialogCancel;
            }
            let mut inner_y = dialog_y + 1;
            if searching {
                inner_y = inner_y + 1;
            }
            let inner_end_y = dialog_y + dialog_height - 2;
            if y >= inner_y && y < inner_end_y {
                let clicked_row = (y - inner_y) as usize;
                let clicked_idx = scroll_offset + clicked_row;
                if clicked_idx < filtered_len {
                    let double = is_double_click(app, x, y, now);
                    app.last_click = Some((x, y, now));
                    app.set_branch_cursor(clicked_idx);
                    return if double {
                        Action::DialogConfirm
                    } else {
                        Action::Noop
                    };
                }
            }
            Action::Noop
        },
        None => {
            let w4 = w.saturating_sub(4);
            let dialog_width: u16 = if 44 < w4 { 44 } else { w4 };
            let dialog_height: u16 = 7;
            let dialog_x = w.saturating_sub(dialog_width) / 2;
            let dialog_y = h.saturating_sub(dialog_height) / 2;
            if x < dialog_x || x >= dialog_x + dialog_width || y < dialog_y || y >= dialog_y + dialog_height {
                return Action::DialogCancel;
            }
            let is_confirm = match &app.dialog {
                Some(DialogState::Confirm { .. }) => true,
                _ => false,
            };
            if is_confirm && y == dialog_y + 4 {
                let center = dialog_x + dialog_width / 2;
                if x < center {
                    return Action::DialogConfirm;
                } else {
                    return Action::DialogCancel;
                }
            }
            Action::Noop
        },
    }
}


/// The side of a column, given the column where the right pane starts.
pub open spec fn side_of(x: u16, border_x: u16) -> PaneSide {
    if x < border_x {
        PaneSide::Left
    } else {
        PaneSide::Right
    }
}

/// Whether the pane-click computation stays within its integer types.
pub open spec fn pane_click_fits(app: App) -> bool {
    &&& app.left_pane.scroll_offset + 65536 <= i32::MAX
    &&& app.right_pane.scroll_offset + 65536 <= i32::MAX
    &&& app.left_pane.cursor <= i32::MAX
    &&& app.right_pane.cursor <= i32::MAX
}

/// Whether `handle_mouse` can take a click now: the terminal is at most
/// 21845 columns wide and the scroll offsets and cursors leave room for a
/// row index of the screen.
pub fn mouse_ready(app: &App) -> (r: bool)
    ensures
        r == (click_fits(*app) && pane_click_fits(*app)),
{
    if app.terminal_size.0 > 21845 {
        return false;
    }
    match &app.dialog {
        Some(DialogState::BranchList { scroll_offset, .. }) => {
            if *scroll_offset > usize::MAX - 65536 {
                return false;
            }
        },
        _ => {},
    }
    let limit = i32::MAX as usize - 65536;
    app.left_pane.scroll_offset <= limit && app.right_pane.scroll_offset <= limit
        && app.left_pane.cursor <= i32::MAX as usize && app.right_pane.cursor <= i32::MAX as usize
}

/// What a left click at (`x`, `y`) does, with the right pane starting at
/// column `border_x`: it closes the help screen; in a dialog, see
/// `dialog_clicked`; on the last row it presses the command line's back
/// button (right end) or a function-bar button; on a pane's entry it moves
/// the cursor there, makes that pane active, or (double click) enters it;
/// elsewhere on a pane or its path bar it makes that pane active.
pub open spec fn left_clicked(o: App, n: App, x: u16, y: u16, now: u64, border_x: u16, a: Action) -> bool {
    let w = o.terminal_size.0 as int;
    let h = o.terminal_size.1 as int;
    if o.mode == AppMode::Help {
        n == o && a == Action::ExitHelp
    } else if o.mode == AppMode::Dialog {
        dialog_clicked(o, n, x, y, now, a)
    } else if o.mode == AppMode::Command && y == sat(h, 1) && x >= sat(w, 10) {
        n == o && a == Action::ExitCommandMode
    } else if y == sat(h, 1) && o.mode == AppMode::Normal {
        n == o && a == function_bar_action(x as int, o.find_state is Some, o.pane(o.active_pane).git_branch is Some)
    } else if 2 <= y < sat(h, 2) {
        let side = side_of(x, border_x);
        let p = o.pane(side);
        let idx = p.scroll_offset + (y - 2);
        &&& n == (App { last_click: Some((x, y, now)), ..o })
        &&& a == if idx < p.entries@.len() {
            if double_click(o.last_click, x, y, now) && side == o.active_pane {
                Action::Enter
            } else if side != o.active_pane {
                Action::ActivatePane(side)
            } else {
                Action::MoveCursor((idx - p.cursor) as i32)
            }
        } else if side != o.active_pane {
            Action::ActivatePane(side)
        } else {
            Action::Noop
        }
    } else if y == 1 && side_of(x, border_x) != o.active_pane {
        n == o && a == Action::ActivatePane(side_of(x, border_x))
    } else {
        n == o && a == Action::Noop
    }
}

/// A left click.
pub fn handle_left_click(x: u16, y: u16, app: &mut App, now: u64, border_x: u16) -> (a: Action)
    requires
        old(app).wf(),
        click_fits(*old(app)),
        pane_click_fits(*old(app)),
    ensures
        final(app).wf(),
        left_clicked(*old(app), *final(app), x, y, now, border_x, a),
{
    let (w, h) = app.terminal_size;
    if app.mode == AppMode::Help {
        return Action::ExitHelp;
    }
    if app.mode == AppMode::Dialog {
        return handle_dialog_click(x, y, app, now);
    }
    if app.mode == AppMode::Command && y == h.saturating_sub(1) {
        if x >= w.saturating_sub(10) {
            return Action::ExitCommandMode;
        }
    }
    if y == h.saturating_sub(1) && app.mode == AppMode::Normal {
        let has_git = app.active_pane_ref().git_branch.is_some();
        return handle_function_bar_click(x, app.find_state.is_some(), has_git);
    }
    if y >= 2 && y < h.saturating_sub(2) {
        let double = is_double_click(app, x, y, now);
        app.last_click = Some((x, y, now));
        let side = if x < border_x {
            PaneSide::Left
        } else {
            PaneSide::Right
        };
        let (scroll, len, cursor) = match side {
            PaneSide::Left => (app.left_pane.scroll_offset, app.left_pane.entries.len(), app.left_pane.cursor),
            PaneSide::Right => (app.right_pane.scroll_offset, app.right_pane.entries.len(), app.right_pane.cursor),
        };
        let clicked_index = scroll + (y - 2) as usize;
        if clicked_index < len {
            if double && side == app.active_pane {
                return Action::Enter;
            }
            if side != app.active_pane {
                return Action::ActivatePane(side);
            }
            let delta = clicked_index as i32 - cursor as i32;
            return Action::MoveCursor(delta);
        }
        if side != app.active_pane {
            return Action::ActivatePane(side);
        }
        return Action::Noop;
    }
    if y == 1 {
        let side = if x < border_x {
            PaneSide::Left
        } else {
            PaneSide::Right
        };
        if side != app.active_pane {
            return Action::ActivatePane(side);
        }
    }
    Action::Noop
}

/// What a mouse event does: any closes the welcome screen; in a dialog,
/// a left click is handled there and the wheel moves the branch list's
/// cursor by three rows; elsewhere the wheel moves the file cursor by
/// three entries.
pub open spec fn mouse_handled(o: App, n: App, kind: MouseKind, x: u16, y: u16, now: u64, border_x: u16, a: Action) -> bool {
    if o.show_welcome {
        n == o && a == Action::DismissWelcome
    } else if o.mode == AppMode::Dialog {
        match kind {
            MouseKind::LeftDown => left_clicked(o, n, x, y, now, border_x, a),
            MouseKind::ScrollUp => n == o && a == if is_branch_list(o.dialog) { Action::BranchListMoveCursor(-3i32) } else { Action::Noop },
            MouseKind::ScrollDown => n == o && a == if is_branch_list(o.dialog) { Action::BranchListMoveCursor(3i32) } else { Action::Noop },
            _ => n == o && a == Action::Noop,
        }
    } else {
        match kind {
            MouseKind::LeftDown => left_clicked(o, n, x, y, now, border_x, a),
            MouseKind::ScrollUp => n == o && a == Action::MoveCursor(-3i32),
            MouseKind::ScrollDown => n == o && a == Action::MoveCursor(3i32),
            _ => n == o && a == Action::Noop,
        }
    }
}

/// A mouse event at (`x`, `y`).
pub fn handle_mouse(kind: MouseKind, x: u16, y: u16, app: &mut App, now: u64, border_x: u16) -> (a: Action)
    requires
        old(app).wf(),
        click_fits(*old(app)),
        pane_click_fits(*old(app)),
    ensures
        final(app).wf(),
        mouse_handled(*old(app), *final(app), kind, x, y, now, border_x, a),
{
    if app.show_welcome {
        return Action::DismissWelcome;
    }
    if app.mode == AppMode::Dialog {
        return match kind {
            MouseKind::LeftDown => handle_left_click(x, y, app, now, border_x),
            MouseKind::ScrollUp => {
                let bl = match &app.dialog {
                    Some(DialogState::BranchList { .. }) => true,
                    _ => false,
                };
                if bl {
                    Action::BranchListMoveCursor(-3)
                } else {
                    Action::Noop
                }
            },
            MouseKind::ScrollDown => {
                let bl = match &app.dialog {
                    Some(DialogState::BranchList { .. }) => true,
                    _ => false,
                };
                if bl {
                    Action::BranchListMoveCursor(3)
                } else {
                    Action::Noop
                }
            },
            _ => Action::Noop,
        };
    }
    match kind {
        MouseKind::LeftDown => handle_left_click(x, y, app, now, border_x),
        MouseKind::RightDown => Action::Noop,
        MouseKind::ScrollUp => Action::MoveCursor(-3),
        MouseKind::ScrollDown => Action::MoveCursor(3),
        MouseKind::Other => Action::Noop,
    }
}

/// A mouse event keeps each pane's cursor on one of its entries, and the
/// positions of a search on entries of the active pane.
pub proof fn lemma_mouse_keeps_cursors(
    o: App,
    n: App,
    kind: MouseKind,
    x: u16,
    y: u16,
    now: u64,
    border_x: u16,
    a: Action,
)
    requires
        o.wf(),
        crate::app::cursors_in_range(o),
        crate::app::find_in_range(o),
        mouse_handled(o, n, kind, x, y, now, border_x, a),
    ensures
        crate::app::cursors_in_range(n),
        crate::app::find_in_range(n),
{
}

/// In normal mode the vi letters and the physical keys do the same: `h`,
/// Left and Backspace go up; `j`/Down and `k`/Up move by one; `l`, Right
/// and Enter enter; `g`/Home jump to the first entry and `G`/End to the
/// last; `c`/F5 copy, `m`/F6 move, `d`/F8/Delete delete, `r`/F2 rename,
/// `n`/F7 and `t`/F4 create; Space and Insert mark; `q` and Esc quit.
pub proof fn lemma_keys_agree()
    ensures
        normal_key(KeyCode::Char('h')) == normal_key(KeyCode::Left),
        normal_key(KeyCode::Left) == normal_key(KeyCode::Backspace),
        normal_key(KeyCode::Char('j')) == normal_key(KeyCode::Down),
        normal_key(KeyCode::Char('k')) == normal_key(KeyCode::Up),
        normal_key(KeyCode::Char('l')) == normal_key(KeyCode::Right),
        normal_key(KeyCode::Right) == normal_key(KeyCode::Enter),
        normal_key(KeyCode::Char('g')) == normal_key(KeyCode::Home),
        normal_key(KeyCode::Char('G')) == normal_key(KeyCode::End),
        normal_key(KeyCode::Char('c')) == normal_key(KeyCode::F(5)),
        normal_key(KeyCode::Char('m')) == normal_key(KeyCode::F(6)),
        normal_key(KeyCode::Char('d')) == normal_key(KeyCode::F(8)),
        normal_key(KeyCode::F(8)) == normal_key(KeyCode::Delete),
        normal_key(KeyCode::Char('r')) == normal_key(KeyCode::F(2)),
        normal_key(KeyCode::Char('n')) == normal_key(KeyCode::F(7)),
        normal_key(KeyCode::Char('t')) == normal_key(KeyCode::F(4)),
        normal_key(KeyCode::Char(' ')) == normal_key(KeyCode::Insert),
        normal_key(KeyCode::Char('q')) == normal_key(KeyCode::Esc),
{
}

/// A kana typed with a Japanese input method on the key of a letter does
/// what that letter does.
pub proof fn lemma_kana_keys()
    ensures
        normal_key(KeyCode::Char('く')) == normal_key(KeyCode::Char('h')),
        normal_key(KeyCode::Char('ま')) == normal_key(KeyCode::Char('j')),
        normal_key(KeyCode::Char('の')) == normal_key(KeyCode::Char('k')),
        normal_key(KeyCode::Char('り')) == normal_key(KeyCode::Char('l')),
        normal_key(KeyCode::Char('き')) == normal_key(KeyCode::Char('g')),
        normal_key(KeyCode::Char('へ')) == normal_key(KeyCode::Char('~')),
        normal_key(KeyCode::Char('そ')) == normal_key(KeyCode::Char('c')),
        normal_key(KeyCode::Char('も')) == normal_key(KeyCode::Char('m')),
        normal_key(KeyCode::Char('し')) == normal_key(KeyCode::Char('d')),
        normal_key(KeyCode::Char('す')) == normal_key(KeyCode::Char('r')),
        normal_key(KeyCode::Char('み')) == normal_key(KeyCode::Char('n')),
        normal_key(KeyCode::Char('か')) == normal_key(KeyCode::Char('t')),
        normal_key(KeyCode::Char('さ')) == normal_key(KeyCode::Char('x')),
        normal_key(KeyCode::Char('ん')) == normal_key(KeyCode::Char('y')),
        normal_key(KeyCode::Char('な')) == normal_key(KeyCode::Char('u')),
        normal_key(KeyCode::Char('こ')) == normal_key(KeyCode::Char('b')),
        normal_key(KeyCode::Char('ら')) == normal_key(KeyCode::Char('o')),
        normal_key(KeyCode::Char('せ')) == normal_key(KeyCode::Char('p')),
        normal_key(KeyCode::Char('ち')) == normal_key(KeyCode::Char('a')),
        normal_key(KeyCode::Char('と')) == normal_key(KeyCode::Char('s')),
        normal_key(KeyCode::Char('つ')) == normal_key(KeyCode::Char('z')),
        normal_key(KeyCode::Char('る')) == normal_key(KeyCode::Char('.')),
        normal_key(KeyCode::Char('に')) == normal_key(KeyCode::Char('i')),
        normal_key(KeyCode::Char('け')) == normal_key(KeyCode::Char(':')),
        normal_key(KeyCode::Char('た')) == normal_key(KeyCode::Char('q')),
{
}

/// Exactly these keys reach each end of the listing: `g`, Home and the
/// kana on the `g` key go to the first entry; `G` and End to the last.
/// Exactly these keys copy (`c`, F5, kana on `c`), move (`m`, F6, kana on
/// `m`) and delete (`d`, F8, Delete, kana on `d`).
pub proof fn lemma_key_actions(k: KeyCode)
    ensures
        normal_key(k) == Action::JumpTop <==> (k == KeyCode::Char('g') || k == KeyCode::Home || k
            == KeyCode::Char('き')),
        normal_key(k) == Action::JumpBottom <==> (k == KeyCode::Char('G') || k == KeyCode::End),
        normal_key(k) == Action::CopyFiles <==> (k == KeyCode::Char('c') || k == KeyCode::F(5) || k
            == KeyCode::Char('そ')),
        normal_key(k) == Action::MoveFiles <==> (k == KeyCode::Char('m') || k == KeyCode::F(6) || k
            == KeyCode::Char('も')),
        normal_key(k) == Action::RequestDelete <==> (k == KeyCode::Char('d') || k == KeyCode::F(8) || k
            == KeyCode::Delete || k == KeyCode::Char('し')),
{
}

/// Each function-bar button does what the key written on it does: Rename
/// (`r`), Copy (`c`), Move (`m`), Delete (`d`), Quit (`q`), the search
/// buttons (`o`, `p`) and Git Pull (`y`); the help button opens the help
/// screen; left of the first button nothing happens.
pub proof fn lemma_function_bar_buttons(x: int, has_find: bool, has_git: bool)
    ensures
        x < 1 ==> function_bar_action(x, has_find, has_git) == Action::Noop,
        1 <= x < 16 ==> function_bar_action(x, has_find, has_git) == normal_key(KeyCode::Char('r')),
        16 <= x < 29 ==> function_bar_action(x, has_find, has_git) == normal_key(KeyCode::Char('c')),
        29 <= x < 40 ==> function_bar_action(x, has_find, has_git) == normal_key(KeyCode::Char('m')),
        40 <= x < 51 ==> function_bar_action(x, has_find, has_git) == normal_key(KeyCode::Char('d')),
        51 <= x < 65 ==> function_bar_action(x, has_find, has_git) == Action::EnterHelp(None),
        65 <= x < 77 ==> function_bar_action(x, has_find, has_git) == normal_key(KeyCode::Char('q')),
        has_find && 77 <= x < 87 ==> function_bar_action(x, has_find, has_git) == normal_key(KeyCode::Char('o')),
        has_find && 87 <= x < 97 ==> function_bar_action(x, has_find, has_git) == normal_key(KeyCode::Char('p')),
        !has_find && has_git && 77 <= x < 89 ==> function_bar_action(x, has_find, has_git) == normal_key(
            KeyCode::Char('y'),
        ),
        has_find && has_git && 97 <= x < 109 ==> function_bar_action(x, has_find, has_git) == normal_key(
            KeyCode::Char('y'),
        ),
{
}

} // verus!
