//! The application state and how actions change it.
//!
//! Key and mouse handlers turn events into an `Action`; `App::apply_action`
//! changes the state and answers with a `Request` for work outside the
//! library (reading directories, file operations, Git, saving the history).
//! The caller does that work and hands the outcome back to the matching
//! method (`operation_done`, `refreshed`, `entered`, ...), which may ask
//! for more.

use vstd::prelude::*;
use crate::command::CommandState;
use crate::command::completer::{complete, complete_from_dir, completion_of, entry_views, listed, string_views, Completion, CompletionSpec};
use crate::command::executor::{execute, execution_result, needs_home, result_view, ActionSpec, CommandAction};
use crate::command::history::pushed;
use crate::command::parser::{parse, parse_spec};
use crate::error::ErrorSpec;
use crate::text::{has_infix, lowercase};
use crate::command::history::CommandHistory;
use crate::edit::{byte_len, byte_length, char_index, char_len, insert_at, is_boundary, lemma_end_boundary, lemma_start_boundary, next_boundary, prev_boundary, remove_before};
use crate::error::AppError;
use crate::fs::entry::{FileEntry, SortCriteria};
use crate::fs::{is_dot, is_dot_name, texts, PaneState};
use crate::paths::{file_name_of, home_dir, parent_of, path_file_name};
use crate::mode::AppMode;
use crate::text::{decimal, octal, push_char, push_decimal, push_octal, push_str, trim};
use crate::ui::dialog::{branch_rows, filter_branches_display, filtered_rows};
use crate::utils::git::{branch_views, GitBranchItem, GitCheckoutResult};

verus! {

/// Which pane.
#[derive(Debug, Clone, Copy, PartialEq, Eq, Structural)]
pub enum PaneSide {
    Left,
    Right,
}

/// The other pane.
pub open spec fn other_side(s: PaneSide) -> PaneSide {
    match s {
        PaneSide::Left => PaneSide::Right,
        PaneSide::Right => PaneSide::Left,
    }
}

/// How a message is shown.
#[derive(Debug, Clone, Copy, PartialEq, Eq, Structural)]
pub enum MessageLevel {
    Info,
    Success,
    Warning,
    Error,
}

/// How long a message stays, in milliseconds.
pub const MESSAGE_LIFETIME_MS: u64 = 2000;

/// A message shown in the status line for a while. Times are milliseconds
/// on a clock the caller keeps.
#[derive(Debug)]
pub struct TimedMessage {
    pub text: String,
    pub level: MessageLevel,
    pub created_at: u64,
}

impl TimedMessage {
    /// A message shown from `now` on.
    pub fn new(text: String, level: MessageLevel, now: u64) -> (m: TimedMessage)
        ensures
            m.text == text,
            m.level == level,
            m.created_at == now,
    {
        TimedMessage { text, level, created_at: now }
    }

    /// Whether the message has been shown for two seconds at `now`.
    pub fn is_expired(&self, now: u64) -> (r: bool)
        ensures
            r == (now >= self.created_at && now - self.created_at >= MESSAGE_LIFETIME_MS),
    {
        now >= self.created_at && now - self.created_at >= MESSAGE_LIFETIME_MS
    }
}

/// What a confirmed yes/no dialog does.
#[derive(Debug)]
pub enum PendingAction {
    /// Move these paths to the trash.
    Delete(Vec<String>),
}

/// What a confirmed input dialog does with the typed text.
#[derive(Debug)]
pub enum PendingInputAction {
    Rename(String),
    CreateDir,
    CreateFile,
    Chmod(Vec<String>),
    GitCheckout,
}

/// The dialog shown, and its state.
#[derive(Debug)]
pub enum DialogState {
    /// A yes/no question.
    Confirm { title: String, message: String, focus_yes: bool, pending: PendingAction },
    /// A one-line text input; the cursor is a byte offset into `value`.
    Input { title: String, value: String, cursor_pos: usize, pending: PendingInputAction },
    /// A read-only text.
    Message { title: String, content: String },
    /// The branches to check out (shown name, current, checkout argument),
    /// with a keyword filter and, while one is typed, the search text.
    BranchList {
        branches: Vec<(String, bool, String)>,
        filter_string: String,
        search_input: Option<String>,
        cursor: usize,
        scroll_offset: usize,
    },
}

/// The help screen.
#[derive(Debug)]
pub struct HelpState {
    pub scroll_offset: usize,
    pub topic: Option<String>,
}

/// The result of a `:find`: the indices of the matching entries and which
/// of them the cursor is on.
#[derive(Debug)]
pub struct FindState {
    pub query: String,
    pub matches: Vec<usize>,
    pub current: usize,
}

/// What to show once the panes are read again.
#[derive(Debug)]
pub enum Then {
    Nothing,
    Message(String, MessageLevel),
}

/// A file operation to run.
#[derive(Debug)]
pub enum FileOp {
    Copy { sources: Vec<String>, dest: String },
    Move { sources: Vec<String>, dest: String },
    Trash(Vec<String>),
    Rename { path: String, new_name: String },
    CreateDir { dir: String, name: String },
    CreateFile { dir: String, name: String },
    Chmod { paths: Vec<String>, mode: u32 },
}

/// Work outside the library that a step asks for.
#[derive(Debug)]
pub enum Request {
    /// Nothing more.
    Done,
    /// Read the directories of the marked panes again (`refreshed` then),
    /// and show `then`. A quiet refresh ignores read errors.
    Refresh { left: bool, right: bool, then: Then, quiet: bool },
    /// Enter `path` in a pane (`entered` then), putting the cursor on the
    /// entry named `focus` if given.
    Navigate { side: PaneSide, path: String, focus: Option<String> },
    /// Open a file with its default application (`open_failed` on error).
    Open(String),
    /// Run a file operation (`operation_done` then).
    Operate(FileOp),
    /// Run `git pull` in `dir` (`git_pulled` then).
    GitPull(String),
    /// Check that `dir` is a Git repository (`git_checkout_checked` then).
    GitCheckRepo(String),
    /// List the branches of `dir` (`git_branches_listed` then).
    GitBranches(String),
    /// Run `git checkout` with the typed arguments (`git_checked_out` then).
    GitCheckout { dir: String, args: String },
    /// List a directory for completion (`completion_listed` then).
    ListForCompletion { dir: String, prefix: String, dirs_only: bool },
    /// Save the command history (errors are ignored).
    SaveHistory,
}

/// What a key press or click asks the application to do.
#[derive(Debug)]
pub enum Action {
    MoveCursor(i32),
    Enter,
    ParentDirectory,
    GoHome,
    JumpTop,
    JumpBottom,
    SwitchPane,
    ActivatePane(PaneSide),
    CopyFiles,
    MoveFiles,
    RequestDelete,
    ExecuteDelete,
    RequestRename,
    ExecuteRename(String),
    RequestCreateDir,
    ExecuteCreateDir(String),
    RequestCreateFile,
    ExecuteCreateFile(String),
    RequestChmod,
    ToggleMark,
    ToggleMarkAll,
    ToggleHidden,
    ShowSortMenu,
    SetSort(SortCriteria),
    ShowFileInfo,
    Refresh,
    EnterCommandMode,
    ExitCommandMode,
    EnterHelp(Option<String>),
    ExitHelp,
    CommandInput(char),
    CommandBackspace,
    CommandExecute,
    CommandComplete,
    CommandHistoryPrev,
    CommandHistoryNext,
    HelpScroll(i32),
    ShowConfirmDialog { title: String, message: String },
    DialogConfirm,
    DialogCancel,
    DialogInput(char),
    DialogBackspace,
    DialogCursorLeft,
    DialogCursorRight,
    DialogHome,
    DialogEnd,
    GitPull,
    GitCheckout,
    GitBranchList,
    BranchListMoveCursor(i32),
    BranchListStartSearch,
    BranchListSearchInput(char),
    BranchListSearchBackspace,
    BranchListSearchEnter,
    BranchListSearchCancel,
    FindNext,
    FindPrev,
    Quit,
    ShowMessage(String, MessageLevel),
    DismissWelcome,
    Noop,
}

/// The whole state of the application.
pub struct App {
    pub mode: AppMode,
    pub left_pane: PaneState,
    pub right_pane: PaneState,
    pub active_pane: PaneSide,
    pub command_state: CommandState,
    pub dialog: Option<DialogState>,
    pub help_state: HelpState,
    pub message: Option<TimedMessage>,
    pub should_quit: bool,
    pub show_welcome: bool,
    /// The terminal's width and height.
    pub terminal_size: (u16, u16),
    /// The last click (column, row, time), to detect double clicks.
    pub last_click: Option<(u16, u16, u64)>,
    pub find_state: Option<FindState>,
}

/// Whether the command line and an input dialog keep their cursors on
/// character boundaries.
pub open spec fn cursors_ok(cs: CommandState, dialog: Option<DialogState>) -> bool {
    &&& is_boundary(cs.input@, cs.cursor_pos as int)
    &&& (cs.history_index matches Some(i) ==> i < cs.history@.len())
    &&& (cs.completion_index matches Some(i) ==> i < cs.completions@.len())
    &&& (dialog matches Some(DialogState::Input { value, cursor_pos, .. }) ==> is_boundary(
        value@,
        cursor_pos as int,
    ))
}

impl App {
    /// The pane on one side.
    pub open spec fn pane(&self, side: PaneSide) -> PaneState {
        match side {
            PaneSide::Left => self.left_pane,
            PaneSide::Right => self.right_pane,
        }
    }

    /// The state is consistent: marks are held once per pane and the text
    /// cursors are on character boundaries.
    pub open spec fn wf(&self) -> bool {
        &&& self.left_pane.wf()
        &&& self.right_pane.wf()
        &&& cursors_ok(self.command_state, self.dialog)
        &&& (self.find_state matches Some(f) ==> f.current < f.matches@.len())
    }

    /// The texts being typed leave room for one more character.
    pub open spec fn room(&self) -> bool {
        &&& byte_len(self.command_state.input@) + 4 <= usize::MAX
        &&& (self.dialog matches Some(DialogState::Input { value, .. }) ==> byte_len(value@) + 4
            <= usize::MAX)
    }

    /// A new application on two panes, in normal mode.
    pub fn new(left: PaneState, right: PaneState, history: CommandHistory, show_welcome: bool) -> (app: App)
        requires
            left.wf(),
            right.wf(),
        ensures
            app.wf(),
            app.mode == AppMode::Normal,
            app.left_pane == left,
            app.right_pane == right,
            app.active_pane == PaneSide::Left,
            app.command_state.input@ == Seq::<char>::empty(),
            app.command_state.history@ == history@,
            app.dialog is None,
            app.help_state.scroll_offset == 0,
            app.help_state.topic is None,
            app.message is None,
            !app.should_quit,
            app.show_welcome == show_welcome,
            app.terminal_size == (80u16, 24u16),
            app.last_click is None,
            app.find_state is None,
    {
        let command_state = CommandState::new(history);
        proof {
            lemma_start_boundary(command_state.input@);
        }
        App {
            mode: AppMode::Normal,
            left_pane: left,
            right_pane: right,
            active_pane: PaneSide::Left,
            command_state,
            dialog: None,
            help_state: HelpState { scroll_offset: 0, topic: None },
            message: None,
            should_quit: false,
            show_welcome,
            terminal_size: (80, 24),
            last_click: None,
            find_state: None,
        }
    }

    /// The active pane.
    pub fn active_pane_ref(&self) -> (r: &PaneState)
        ensures
            *r == self.pane(self.active_pane),
    {
        match self.active_pane {
            PaneSide::Left => &self.left_pane,
            PaneSide::Right => &self.right_pane,
        }
    }

    /// The pane that is not active.
    pub fn opposite_pane_ref(&self) -> (r: &PaneState)
        ensures
            *r == self.pane(other_side(self.active_pane)),
    {
        match self.active_pane {
            PaneSide::Left => &self.right_pane,
            PaneSide::Right => &self.left_pane,
        }
    }

    /// Shows a message from `now` on.
    pub fn show_message(&mut self, text: String, level: MessageLevel, now: u64)
        ensures
            show_message_effect(*old(self), *final(self), text, level, now),

    {
        self.message = Some(TimedMessage::new(text, level, now));
    }

    /// Drops the message once it has been shown for two seconds.
    pub fn cleanup_expired_messages(&mut self, now: u64)
        ensures
            (old(self).message matches Some(m) && now >= m.created_at && now - m.created_at
                >= MESSAGE_LIFETIME_MS) ==> final(self).message is None,
            !(old(self).message matches Some(m) && now >= m.created_at && now - m.created_at
                >= MESSAGE_LIFETIME_MS) ==> final(self).message == old(self).message,
            final(self).mode == old(self).mode,
            final(self).left_pane == old(self).left_pane,
            final(self).right_pane == old(self).right_pane,
            final(self).active_pane == old(self).active_pane,
            final(self).command_state == old(self).command_state,
            final(self).dialog == old(self).dialog,
            final(self).find_state == old(self).find_state,
            final(self).should_quit == old(self).should_quit,
    {
        let expired = match &self.message {
            Some(m) => m.is_expired(now),
            None => false,
        };
        if expired {
            self.message = None;
        }
    }
}

/// Whether a mode takes typed text (the command line or an input dialog).
pub open spec fn takes_text(m: AppMode) -> bool {
    m == AppMode::Command || m == AppMode::Dialog
}

/// Whether a step left the text-taking modes, after which the input method
/// goes back to ASCII.
pub fn left_text_input(before: AppMode, after: AppMode) -> (r: bool)
    ensures
        r == (takes_text(before) && !takes_text(after)),
{
    let was = before == AppMode::Command || before == AppMode::Dialog;
    let is = after == AppMode::Command || after == AppMode::Dialog;
    was && !is
}


/// Everything but the two panes is unchanged.
pub open spec fn same_besides_panes(o: App, n: App) -> bool {
    &&& n.mode == o.mode
    &&& n.active_pane == o.active_pane
    &&& n.command_state == o.command_state
    &&& n.dialog == o.dialog
    &&& n.help_state == o.help_state
    &&& n.message == o.message
    &&& n.should_quit == o.should_quit
    &&& n.show_welcome == o.show_welcome
    &&& n.terminal_size == o.terminal_size
    &&& n.last_click == o.last_click
    &&& n.find_state == o.find_state
}

/// Only the pane on `side` changed, by `f`.
pub open spec fn only_pane(o: App, n: App, side: PaneSide) -> bool {
    &&& same_besides_panes(o, n)
    &&& n.pane(other_side(side)) == o.pane(other_side(side))
}

/// A pane after its cursor moved by `delta` within its entries.
pub open spec fn moved_pane(p: PaneState, delta: i32) -> PaneState {
    PaneState {
        cursor: crate::fs::clamp(p.cursor + delta, 0, p.spec_max_cursor() as int) as usize,
        ..p
    }
}

/// Whether moving a pane's cursor by `delta` stays within `i32`, as the
/// computation does.
pub open spec fn move_fits(p: PaneState, delta: i32) -> bool {
    &&& p.cursor <= i32::MAX
    &&& i32::MIN <= p.cursor + delta <= i32::MAX
    &&& p.spec_max_cursor() <= i32::MAX
}

/// What `App::move_cursor` does.
pub open spec fn move_cursor_effect(o: App, n: App, delta: i32) -> bool {
    &&& (only_pane(o, n, o.active_pane))
    &&& (n.pane(o.active_pane) == moved_pane(o.pane(o.active_pane), delta))
}

/// What `App::jump_top` does.
pub open spec fn jump_top_effect(o: App, n: App) -> bool {
    &&& (only_pane(o, n, o.active_pane))
    &&& (n.pane(o.active_pane) == (PaneState { cursor: 0, ..o.pane(o.active_pane) }))
}

/// What `App::jump_bottom` does.
pub open spec fn jump_bottom_effect(o: App, n: App) -> bool {
    &&& (only_pane(o, n, o.active_pane))
    &&& (n.pane(o.active_pane) == (PaneState {
        cursor: o.pane(o.active_pane).spec_max_cursor() as usize,
        ..o.pane(o.active_pane)
    }))
}

/// What `App::toggle_mark_and_move` does.
pub open spec fn toggle_mark_and_move_effect(o: App, n: App) -> bool {
    &&& (only_pane(o, n, o.active_pane))
    &&& (({
        let p = o.pane(o.active_pane);
        let q = n.pane(o.active_pane);
        &&& q.marked_set() == p.toggled_marks()
        &&& q.cursor == crate::fs::clamp(p.cursor + 1, 0, p.spec_max_cursor() as int)
        &&& q.entries == p.entries
        &&& q.current_dir == p.current_dir
        &&& q.scroll_offset == p.scroll_offset
        &&& q.sort_order == p.sort_order
        &&& q.show_hidden == p.show_hidden
        &&& q.git_branch == p.git_branch
    }))
}

/// What `App::toggle_mark_all` does.
pub open spec fn toggle_mark_all_effect(o: App, n: App) -> bool {
    &&& (only_pane(o, n, o.active_pane))
    &&& (({
        let p = o.pane(o.active_pane);
        let q = n.pane(o.active_pane);
        &&& q.marked_set() == p.all_toggled_marks()
        &&& q.cursor == p.cursor
        &&& q.entries == p.entries
        &&& q.current_dir == p.current_dir
        &&& q.scroll_offset == p.scroll_offset
        &&& q.sort_order == p.sort_order
        &&& q.show_hidden == p.show_hidden
        &&& q.git_branch == p.git_branch
    }))
}

/// What `App::switch_pane` does.
pub open spec fn switch_pane_effect(o: App, n: App) -> bool {
    &&& (n == (App { active_pane: other_side(o.active_pane), find_state: None, ..o }))
}

/// What `App::activate_pane` does.
pub open spec fn activate_pane_effect(o: App, n: App, side: PaneSide) -> bool {
    &&& (n == (App { active_pane: side, find_state: None, ..o }))
}

/// What `App::enter_command_mode` does.
pub open spec fn enter_command_mode_effect(o: App, n: App) -> bool {
    &&& (o.mode != AppMode::Normal ==> n == o)
    &&& (o.mode == AppMode::Normal ==> {
        &&& n.mode == AppMode::Command
        &&& n.command_state.input@ == Seq::<char>::empty()
        &&& n.command_state.cursor_pos == 0
        &&& n.command_state.history == o.command_state.history
        &&& n.command_state.history_index is None
        &&& n.command_state.completions@.len() == 0
        &&& n.command_state.completion_index is None
        &&& n.command_state.saved_input is None
        &&& same_besides_panes(App { mode: AppMode::Command, command_state: n.command_state, ..o }, n)
        &&& n.left_pane == o.left_pane
        &&& n.right_pane == o.right_pane
    })
}

/// What `App::exit_to_normal` does.
pub open spec fn exit_to_normal_effect(o: App, n: App) -> bool {
    &&& (n == (App { mode: AppMode::Normal, ..o }))
}

/// What `App::enter_help` does.
pub open spec fn enter_help_effect(o: App, n: App, topic: Option<String>) -> bool {
    &&& (n == (App { mode: AppMode::Help, help_state: HelpState { scroll_offset: 0, topic }, ..o }))
}

/// What `App::help_scroll` does.
pub open spec fn help_scroll_effect(o: App, n: App, delta: i32) -> bool {
    &&& (n == (App {
        help_state: HelpState {
            scroll_offset: if o.help_state.scroll_offset + delta < 0 {
                0usize
            } else {
                (o.help_state.scroll_offset + delta) as usize
            },
            ..o.help_state
        },
        ..o
    }))
}

/// What `App::command_input` does.
pub open spec fn command_input_effect(o: App, n: App, c: char) -> bool {
    &&& (n.command_state.input@ == o.command_state.input@.insert(
        char_index(o.command_state.input@, o.command_state.cursor_pos as int),
        c,
    ))
    &&& (char_index(n.command_state.input@, n.command_state.cursor_pos as int)
        == char_index(o.command_state.input@, o.command_state.cursor_pos as int) + 1)
    &&& (n.command_state.history == o.command_state.history)
    &&& (n.command_state.history_index == o.command_state.history_index)
    &&& (n.command_state.saved_input == o.command_state.saved_input)
    &&& (n.command_state.completions@.len() == 0)
    &&& (n.command_state.completion_index is None)
    &&& (same_besides_panes(App { command_state: n.command_state, ..o }, n))
    &&& (n.left_pane == o.left_pane)
    &&& (n.right_pane == o.right_pane)
}

/// What `App::command_backspace` does.
pub open spec fn command_backspace_effect(o: App, n: App) -> bool {
    &&& (o.command_state.input@.len() == 0 ==> n == (App { mode: AppMode::Normal, ..o }))
    &&& (o.command_state.input@.len() > 0 && o.command_state.cursor_pos == 0 ==> n == o)
    &&& (o.command_state.input@.len() > 0 && o.command_state.cursor_pos > 0 ==> {
        &&& n.command_state.input@ == o.command_state.input@.remove(
            char_index(o.command_state.input@, o.command_state.cursor_pos as int) - 1,
        )
        &&& char_index(n.command_state.input@, n.command_state.cursor_pos as int)
            == char_index(o.command_state.input@, o.command_state.cursor_pos as int) - 1
        &&& n.command_state.history == o.command_state.history
        &&& n.command_state.history_index == o.command_state.history_index
        &&& n.command_state.saved_input == o.command_state.saved_input
        &&& n.command_state.completions@.len() == 0
        &&& n.command_state.completion_index is None
        &&& same_besides_panes(App { command_state: n.command_state, ..o }, n)
        &&& n.left_pane == o.left_pane
        &&& n.right_pane == o.right_pane
    })
}

/// What `App::command_history_prev` does.
pub open spec fn command_history_prev_effect(o: App, n: App) -> bool {
    &&& (same_besides_panes(App { command_state: n.command_state, ..o }, n))
    &&& (n.left_pane == o.left_pane)
    &&& (n.right_pane == o.right_pane)
    &&& (({
        let o = o.command_state;
        let n = n.command_state;
        let next = match o.history_index {
            None => 0,
            Some(i) => i + 1,
        };
        &&& n.saved_input == (if o.history_index is None { Some(o.input) } else { o.saved_input })
        &&& n.history == o.history
        &&& n.completions == o.completions
        &&& n.completion_index == o.completion_index
        &&& if next < o.history@.len() {
            &&& n.input@ == o.history@[next]
            &&& n.cursor_pos == byte_len(n.input@)
            &&& n.history_index == Some(next as usize)
        } else {
            &&& n.input == o.input
            &&& n.cursor_pos == o.cursor_pos
            &&& n.history_index == o.history_index
        }
    }))
}

/// What `App::command_history_next` does.
pub open spec fn command_history_next_effect(o: App, n: App) -> bool {
    &&& (same_besides_panes(App { command_state: n.command_state, ..o }, n))
    &&& (n.left_pane == o.left_pane)
    &&& (n.right_pane == o.right_pane)
    &&& (({
        let o = o.command_state;
        let n = n.command_state;
        &&& n.history == o.history
        &&& n.completions == o.completions
        &&& n.completion_index == o.completion_index
        &&& match o.history_index {
            None => n == o,
            Some(i) => if i == 0 {
                &&& n.input@ == match o.saved_input {
                    Some(s) => s@,
                    None => Seq::<char>::empty(),
                }
                &&& n.cursor_pos == byte_len(n.input@)
                &&& n.history_index is None
                &&& n.saved_input is None
            } else {
                &&& n.input@ == o.history@[i - 1]
                &&& n.cursor_pos == byte_len(n.input@)
                &&& n.history_index == Some((i - 1) as usize)
                &&& n.saved_input == o.saved_input
            },
        }
    }))
}

/// What `App::dismiss_welcome` does.
pub open spec fn dismiss_welcome_effect(o: App, n: App) -> bool {
    &&& (n == (App { show_welcome: false, ..o }))
}

/// What `App::dialog_cancel` does.
pub open spec fn dialog_cancel_effect(o: App, n: App) -> bool {
    &&& (n == (App { dialog: None, mode: AppMode::Normal, ..o }))
}

/// What `App::show_confirm_dialog` does.
pub open spec fn show_confirm_dialog_effect(o: App, n: App, title: String, message: String) -> bool {
    &&& (n.mode == AppMode::Dialog)
    &&& (n.dialog matches Some(DialogState::Confirm { title: t, message: m, focus_yes, pending: PendingAction::Delete(paths) })
        && t == title && m == message && !focus_yes && paths@.len() == 0)
    &&& (same_besides_panes(App { mode: AppMode::Dialog, dialog: n.dialog, ..o }, n))
    &&& (n.left_pane == o.left_pane)
    &&& (n.right_pane == o.right_pane)
}

/// What `App::quit` does.
pub open spec fn quit_effect(o: App, n: App, r: Request) -> bool {
    &&& (n == (App { should_quit: true, ..o }))
    &&& (r is SaveHistory)
}

/// What `App::dialog_input` does.
pub open spec fn dialog_input_effect(o: App, n: App, c: char) -> bool {
    &&& (!is_input(o.dialog) ==> n == o)
    &&& (is_input(o.dialog) ==> {
        &&& input_edited(o.dialog, n.dialog,
            input_text(o.dialog).insert(input_cursor(o.dialog), c),
            input_cursor(o.dialog) + 1)
        &&& n == (App { dialog: n.dialog, ..o })
    })
}

/// What `App::dialog_backspace` does.
pub open spec fn dialog_backspace_effect(o: App, n: App) -> bool {
    &&& (!is_input(o.dialog) || input_cursor(o.dialog) == 0 ==> n == o)
    &&& (is_input(o.dialog) && input_cursor(o.dialog) > 0 ==> {
        &&& input_edited(o.dialog, n.dialog,
            input_text(o.dialog).remove(input_cursor(o.dialog) - 1),
            input_cursor(o.dialog) - 1)
        &&& n == (App { dialog: n.dialog, ..o })
    })
}

/// What `App::dialog_cursor_left` does.
pub open spec fn dialog_cursor_left_effect(o: App, n: App) -> bool {
    &&& (!is_input(o.dialog) || input_cursor(o.dialog) == 0 ==> n == o)
    &&& (is_input(o.dialog) && input_cursor(o.dialog) > 0 ==> {
        &&& input_edited(o.dialog, n.dialog, input_text(o.dialog),
            input_cursor(o.dialog) - 1)
        &&& n == (App { dialog: n.dialog, ..o })
    })
}

/// What `App::dialog_cursor_right` does.
pub open spec fn dialog_cursor_right_effect(o: App, n: App) -> bool {
    &&& (!is_input(o.dialog) || input_cursor(o.dialog) == input_text(o.dialog).len()
        ==> n == o)
    &&& (is_input(o.dialog) && input_cursor(o.dialog) < input_text(o.dialog).len() ==> {
        &&& input_edited(o.dialog, n.dialog, input_text(o.dialog),
            input_cursor(o.dialog) + 1)
        &&& n == (App { dialog: n.dialog, ..o })
    })
}

/// What `App::dialog_home` does.
pub open spec fn dialog_home_effect(o: App, n: App) -> bool {
    &&& (!is_input(o.dialog) ==> n == o)
    &&& (is_input(o.dialog) ==> {
        &&& input_edited(o.dialog, n.dialog, input_text(o.dialog), 0)
        &&& n == (App { dialog: n.dialog, ..o })
    })
}

/// What `App::dialog_end` does.
pub open spec fn dialog_end_effect(o: App, n: App) -> bool {
    &&& (!is_input(o.dialog) ==> n == o)
    &&& (is_input(o.dialog) ==> {
        &&& input_edited(o.dialog, n.dialog, input_text(o.dialog),
            input_text(o.dialog).len() as int)
        &&& n == (App { dialog: n.dialog, ..o })
    })
}

/// What `App::branch_list_move_cursor` does.
pub open spec fn branch_list_move_cursor_effect(o: App, n: App, delta: i32) -> bool {
    &&& (!(o.dialog matches Some(DialogState::BranchList { .. })) ==> n == o)
    &&& (o.dialog matches Some(DialogState::BranchList { branches, filter_string, search_input, cursor, scroll_offset }) ==> {
        let m = branch_cursor_moved(cursor as int, scroll_offset as int, delta as int, shown_rows(branches@, filter_string@) as int);
        &&& n.dialog == Some(DialogState::BranchList {
            branches, filter_string, search_input, cursor: m.0 as usize, scroll_offset: m.1 as usize,
        })
        &&& n == (App { dialog: n.dialog, ..o })
    })
}

/// What `App::branch_list_start_search` does.
pub open spec fn branch_list_start_search_effect(o: App, n: App) -> bool {
    &&& (!is_branch_list(o.dialog) ==> n == o)
    &&& (is_branch_list(o.dialog) ==> {
        &&& same_list(o.dialog, n.dialog)
        &&& with_search(n.dialog, Some(Seq::<char>::empty()))
        &&& n == (App { dialog: n.dialog, ..o })
    })
}

/// What `App::branch_list_search_input` does.
pub open spec fn branch_list_search_input_effect(o: App, n: App, c: char) -> bool {
    &&& (search_text(o.dialog) is None ==> n == o)
    &&& (search_text(o.dialog) matches Some(s) ==> {
        &&& same_list(o.dialog, n.dialog)
        &&& with_search(n.dialog, Some(s.push(c)))
        &&& n == (App { dialog: n.dialog, ..o })
    })
}

/// What `App::branch_list_search_backspace` does.
pub open spec fn branch_list_search_backspace_effect(o: App, n: App) -> bool {
    &&& ((search_text(o.dialog) is None || search_text(o.dialog) == Some(Seq::<char>::empty()))
        ==> n == o)
    &&& (match search_text(o.dialog) {
        Some(s) => s.len() > 0 ==> {
            &&& same_list(o.dialog, n.dialog)
            &&& with_search(n.dialog, Some(s.drop_last()))
            &&& n == (App { dialog: n.dialog, ..o })
        },
        None => true,
    })
}

/// What `App::branch_list_search_enter` does.
pub open spec fn branch_list_search_enter_effect(o: App, n: App) -> bool {
    &&& (!is_branch_list(o.dialog) ==> n == o)
    &&& (o.dialog matches Some(DialogState::BranchList { branches, search_input, .. }) ==> {
        &&& n.dialog matches Some(DialogState::BranchList { branches: b2, filter_string, search_input: None, cursor: 0, scroll_offset: 0 })
            && b2 == branches && filter_string@ == match search_input {
                Some(s) => s@,
                None => Seq::<char>::empty(),
            }
        &&& n == (App { dialog: n.dialog, ..o })
    })
}

/// What `App::branch_list_search_cancel` does.
pub open spec fn branch_list_search_cancel_effect(o: App, n: App) -> bool {
    &&& (!is_branch_list(o.dialog) ==> n == o)
    &&& (is_branch_list(o.dialog) ==> {
        &&& same_list(o.dialog, n.dialog)
        &&& with_search(n.dialog, None)
        &&& n == (App { dialog: n.dialog, ..o })
    })
}

/// What `App::find_step` does.
pub open spec fn find_step_effect(o: App, n: App, forward: bool, now: u64) -> bool {
    &&& (match o.find_state {
        None => n == o,
        Some(f) => f.matches@.len() == 0 ==> n == o,
    })
    &&& (match o.find_state {
        None => true,
        Some(f) => f.matches@.len() > 0 ==> {
        let cnt = f.matches@.len() as int;
        let c: int = if forward {
            (f.current + 1) % cnt
        } else if f.current == 0 {
            cnt - 1
        } else {
            f.current - 1
        };
        &&& n.find_state matches Some(g) && g.query == f.query && g.matches == f.matches && g.current == c
        &&& n.pane(o.active_pane) == (PaneState { cursor: f.matches@[c], ..o.pane(o.active_pane) })
        &&& n.pane(other_side(o.active_pane)) == o.pane(other_side(o.active_pane))
        &&& n.message matches Some(m) && m.text@ == find_position_text((c + 1) as nat, cnt as nat)
            && m.level == MessageLevel::Info && m.created_at == now
        &&& n == (App {
            find_state: n.find_state,
            message: n.message,
            left_pane: n.left_pane,
            right_pane: n.right_pane,
            ..o
        })
        },
    })
}

/// What `App::handle_enter` does.
pub open spec fn handle_enter_effect(o: App, n: App, r: Request) -> bool {
    &&& (({
        let side = o.active_pane;
        let p = o.pane(side);
        match current_of(p) {
            None => n == o && r is Done,
            Some(e) => if e.name@ == "."@ {
                n == (App { find_state: None, ..o })
                    && r == Request::Refresh { left: panes_of(side).0, right: panes_of(side).1, then: Then::Nothing, quiet: false }
            } else if e.name@ == ".."@ {
                &&& n == (App { find_state: None, ..o })
                &&& match parent_of(p.current_dir@) {
                    None => r is Done,
                    Some(parent) => r matches Request::Navigate { side: s, path, focus }
                        && s == side && path@ == parent && crate::command::executor::opt_view(focus) == file_name_of(p.current_dir@),
                }
            } else if e.spec_is_dir() {
                n == (App { find_state: None, ..o })
                    && r == Request::Navigate { side, path: e.path, focus: None }
            } else {
                n == o && r == Request::Open(e.path)
            },
        }
    }))
}

/// What `App::parent_directory` does.
pub open spec fn parent_directory_effect(o: App, n: App, r: Request) -> bool {
    &&& (n == (App { find_state: None, ..o }))
    &&& (({
        let p = o.pane(o.active_pane);
        match parent_of(p.current_dir@) {
            None => r is Done,
            Some(parent) => r matches Request::Navigate { side: s, path, focus }
                && s == o.active_pane && path@ == parent && crate::command::executor::opt_view(focus) == file_name_of(p.current_dir@),
        }
    }))
}

/// What `App::go_home` does.
pub open spec fn go_home_effect(o: App, n: App, now: u64, r: Request) -> bool {
    &&& (r is Done ==> (n.message matches Some(m) && m.level == MessageLevel::Error && m.created_at == now
        && m.text@ == AppError::HomeDirNotFound.spec_user_message()
        && n == (App { find_state: None, message: n.message, ..o })))
    &&& (!(r is Done) ==> (r matches Request::Navigate { side, focus: None, .. } && side == o.active_pane
        && n == (App { find_state: None, ..o })))
}

/// What `App::transfer` does.
pub open spec fn transfer_effect(o: App, n: App, moving: bool, r: Request) -> bool {
    &&& (n == o)
    &&& (({
        let src = selected_paths_of(o.pane(o.active_pane));
        let dest = o.pane(other_side(o.active_pane)).current_dir;
        if src.len() == 0 {
            r is Done
        } else if moving {
            r matches Request::Operate(FileOp::Move { sources, dest: d }) && texts(sources@) == src && d == dest
        } else {
            r matches Request::Operate(FileOp::Copy { sources, dest: d }) && texts(sources@) == src && d == dest
        }
    }))
}

/// What `App::request_delete` does.
pub open spec fn request_delete_effect(o: App, n: App, r: Request) -> bool {
    &&& (r is Done)
    &&& (({
        let paths = selected_paths_of(o.pane(o.active_pane));
        if paths.len() == 0 {
            n == o
        } else {
            &&& n.mode == AppMode::Dialog
            &&& n.dialog matches Some(DialogState::Confirm { title, message, focus_yes, pending: PendingAction::Delete(p) })
                && title@ == "削除"@ && message@ == delete_question(paths) && !focus_yes && texts(p@) == paths
            &&& n == (App { mode: AppMode::Dialog, dialog: n.dialog, ..o })
        }
    }))
}

/// What `App::execute_delete` does.
pub open spec fn execute_delete_effect(o: App, n: App, r: Request) -> bool {
    &&& (n == o)
    &&& (r matches Request::Operate(FileOp::Trash(paths)) && texts(paths@) == selected_paths_of(o.pane(o.active_pane)))
}

/// What `App::request_rename` does.
pub open spec fn request_rename_effect(o: App, n: App, r: Request) -> bool {
    &&& (r is Done)
    &&& (match current_of(o.pane(o.active_pane)) {
        None => n == o,
        Some(e) => if is_dot_name(e.name@) {
            n == o
        } else {
            &&& n.mode == AppMode::Dialog
            &&& n.dialog matches Some(DialogState::Input { title, value, cursor_pos, pending: PendingInputAction::Rename(path) })
                && title@ == "名前変更"@ && value == e.name && cursor_pos == byte_len(e.name@) && path == e.path
            &&& n == (App { mode: AppMode::Dialog, dialog: n.dialog, ..o })
        },
    })
}

/// What `App::execute_rename` does.
pub open spec fn execute_rename_effect(o: App, n: App, new_name: String, r: Request) -> bool {
    &&& (n == o)
    &&& (match current_of(o.pane(o.active_pane)) {
        None => r is Done,
        Some(e) => r == Request::Operate(FileOp::Rename { path: e.path, new_name }),
    })
}

/// What `App::request_create` does.
pub open spec fn request_create_effect(o: App, n: App, title: String, pending: PendingInputAction, r: Request) -> bool {
    &&& (r is Done)
    &&& (n == (App { mode: AppMode::Dialog, dialog: n.dialog, ..o }))
    &&& (n.dialog matches Some(DialogState::Input { title: t, value, cursor_pos: 0, pending: p })
        && t == title && p == pending && value@ == Seq::<char>::empty())
}

/// What `App::execute_create` does.
pub open spec fn execute_create_effect(o: App, n: App, name: String, dir: bool, r: Request) -> bool {
    &&& (n == o)
    &&& (dir ==> r == Request::Operate(FileOp::CreateDir { dir: o.pane(o.active_pane).current_dir, name }))
    &&& (!dir ==> r == Request::Operate(FileOp::CreateFile { dir: o.pane(o.active_pane).current_dir, name }))
}

/// What `App::request_chmod` does.
pub open spec fn request_chmod_effect(o: App, n: App, r: Request) -> bool {
    &&& (r is Done)
    &&& (({
        let p = o.pane(o.active_pane);
        let paths = selected_paths_of(p);
        match current_of(p) {
            None => n == o,
            Some(e) => if is_dot_name(e.name@) || paths.len() == 0 {
                n == o
            } else {
                &&& n.mode == AppMode::Dialog
                &&& n.dialog matches Some(DialogState::Input { title, value, cursor_pos, pending: PendingInputAction::Chmod(ps) })
                    && title@ == "パーミッション変更（8進数）"@ && value@ == octal((e.mode & 0o7777) as nat)
                    && cursor_pos == byte_len(value@) && texts(ps@) == paths
                &&& n == (App { mode: AppMode::Dialog, dialog: n.dialog, ..o })
            },
        }
    }))
}

/// What `App::toggle_hidden` does.
pub open spec fn toggle_hidden_effect(o: App, n: App, r: Request) -> bool {
    &&& (only_pane(App { find_state: None, ..o }, n, o.active_pane))
    &&& (n.find_state is None)
    &&& (n.pane(o.active_pane) == (PaneState {
        show_hidden: !o.pane(o.active_pane).show_hidden,
        ..o.pane(o.active_pane)
    }))
    &&& (r == (Request::Refresh { left: panes_of(o.active_pane).0, right: panes_of(o.active_pane).1, then: Then::Nothing, quiet: false }))
}

/// What `App::set_sort` does.
pub open spec fn set_sort_effect(o: App, n: App, criteria: SortCriteria, r: Request) -> bool {
    &&& (only_pane(App { find_state: None, ..o }, n, o.active_pane))
    &&& (n.find_state is None)
    &&& (n.pane(o.active_pane) == (PaneState {
        sort_order: crate::fs::entry::SortOrder { criteria, ..o.pane(o.active_pane).sort_order },
        ..o.pane(o.active_pane)
    }))
    &&& (r == (Request::Refresh { left: panes_of(o.active_pane).0, right: panes_of(o.active_pane).1, then: Then::Nothing, quiet: false }))
}

/// What `App::refresh_all` does.
pub open spec fn refresh_all_effect(o: App, n: App, r: Request) -> bool {
    &&& (n == (App { find_state: None, ..o }))
    &&& (r == (Request::Refresh { left: true, right: true, then: Then::Nothing, quiet: false }))
}

/// What `App::dialog_confirm` does.
pub open spec fn dialog_confirm_effect(o: App, n: App, now: u64, r: Request) -> bool {
    &&& (n.mode == AppMode::Normal)
    &&& (n.dialog is None)
    &&& (({
        let closed = App { mode: AppMode::Normal, dialog: None, ..o };
        let dir = o.pane(o.active_pane).current_dir;
        match o.dialog {
            None => n == closed && r is Done,
            Some(DialogState::Message { .. }) => n == closed && r is Done,
            Some(DialogState::Confirm { pending: PendingAction::Delete(paths), .. }) => n == closed
                && r == Request::Operate(FileOp::Trash(paths)),
            Some(DialogState::BranchList { branches, filter_string, cursor, .. }) => {
                let rows = filtered_rows(branch_rows(branches@), filter_string@);
                if cursor < rows.len() && rows[cursor as int].1 {
                    &&& r is Done
                    &&& n.message matches Some(m) && m.text@ == already_text(rows[cursor as int].0)
                        && m.level == MessageLevel::Info && m.created_at == now
                    &&& n == (App { message: n.message, ..closed })
                } else if cursor < rows.len() {
                    &&& n == closed
                    &&& r matches Request::GitCheckout { dir: d, args } && d == dir && args@ == rows[cursor as int].2
                } else {
                    n == closed && r is Done
                }
            },
            Some(DialogState::Input { value, pending, .. }) => if trim(value@).len() == 0 {
                n == closed && r is Done
            } else {
                match pending {
                    PendingInputAction::Rename(path) => n == closed
                        && r == Request::Operate(FileOp::Rename { path, new_name: value }),
                    PendingInputAction::CreateDir => n == closed
                        && r == Request::Operate(FileOp::CreateDir { dir, name: value }),
                    PendingInputAction::CreateFile => n == closed
                        && r == Request::Operate(FileOp::CreateFile { dir, name: value }),
                    PendingInputAction::GitCheckout => n == closed
                        && r == Request::GitCheckout { dir, args: value },
                    PendingInputAction::Chmod(paths) => match permission_value(value@) {
                        Some(m) => n == closed && r == Request::Operate(FileOp::Chmod { paths, mode: m as u32 }),
                        None => {
                            &&& r is Done
                            &&& n.message matches Some(msg) && msg.text@ == invalid_mode_text(value@)
                                && msg.level == MessageLevel::Error && msg.created_at == now
                            &&& n == (App { message: n.message, ..closed })
                        },
                    },
                }
            },
        }
    }))
}

/// What `App::command_execute` does.
pub open spec fn command_execute_effect(o: App, n: App, now: u64, r: Request) -> bool {
    &&& (({
        let input = o.command_state.input@;
        let cs = o.command_state;
        let pushed_state = App {
            mode: AppMode::Normal,
            command_state: crate::command::CommandState { history: n.command_state.history, ..cs },
            ..o
        };
        let dir = o.pane(o.active_pane).current_dir@;
        &&& n.command_state.history@ == pushed(cs.history@, input)
        &&& !needs_home(parse_spec(input)) ==> command_applied(pushed_state, n,
            execution_result(parse_spec(input), dir, None), r, now)
        &&& exists|h: Option<Seq<char>>| command_applied(pushed_state, n,
            #[trigger] execution_result(parse_spec(input), dir, h), r, now)
    }))
}

/// What `App::command_complete` does.
pub open spec fn command_complete_effect(o: App, n: App, r: Request) -> bool {
    &&& (o.command_state.completions@.len() > 0 ==> {
        &&& r is Done
        &&& completion_chosen(o.command_state, n.command_state)
        &&& n == (App { command_state: n.command_state, ..o })
    })
    &&& (o.command_state.completions@.len() == 0 ==> exists|h: Option<Seq<char>>| {
        let c = #[trigger] completion_of(o.command_state.input@,
            o.pane(o.active_pane).current_dir@, h);
        match c {
            CompletionSpec::ListDir { dir, prefix, dirs_only } => {
                &&& n == o
                &&& r matches Request::ListForCompletion { dir: d, prefix: p, dirs_only: o }
                    && d@ == dir && p@ == prefix && o == dirs_only
            },
            CompletionSpec::Candidates(v) => {
                &&& r is Done
                &&& v.len() == 0 ==> {
                    &&& n.command_state.completions@.len() == 0
                    &&& n.command_state.completion_index is None
                    &&& n == (App { command_state: n.command_state, ..o })
                    &&& n.command_state == (CommandState {
                        completions: n.command_state.completions,
                        completion_index: None,
                        ..o.command_state
                    })
                }
                &&& v.len() > 0 ==> {
                    let listed_state = CommandState {
                        completions: n.command_state.completions,
                        completion_index: None,
                        ..o.command_state
                    };
                    &&& string_views(n.command_state.completions@) == v
                    &&& completion_chosen(listed_state, n.command_state)
                    &&& n == (App { command_state: n.command_state, ..o })
                }
            },
        }
    })
}

/// What `App::show_message` does.
pub open spec fn show_message_effect(o: App, n: App, text: String, level: MessageLevel, now: u64) -> bool {
    &&& (n.message matches Some(m) && m.text == text && m.level == level
        && m.created_at == now)
    &&& (n.mode == o.mode)
    &&& (n.left_pane == o.left_pane)
    &&& (n.right_pane == o.right_pane)
    &&& (n.active_pane == o.active_pane)
    &&& (n.command_state == o.command_state)
    &&& (n.dialog == o.dialog)
    &&& (n.find_state == o.find_state)
    &&& (n.should_quit == o.should_quit)
    &&& (n.show_welcome == o.show_welcome)
    &&& (n.help_state == o.help_state)
    &&& (n.last_click == o.last_click)
    &&& (n.terminal_size == o.terminal_size)
}

impl App {
    /// Moves the active pane's cursor by `delta`.
    pub fn move_cursor(&mut self, delta: i32)
        requires
            old(self).wf(),
            move_fits(old(self).pane(old(self).active_pane), delta),
        ensures
            final(self).wf(),
            move_cursor_effect(*old(self), *final(self), delta),

    {
        match self.active_pane {
            PaneSide::Left => self.left_pane.move_cursor(delta),
            PaneSide::Right => self.right_pane.move_cursor(delta),
        }
    }

    /// Puts the active pane's cursor on its first entry.
    pub fn jump_top(&mut self)
        requires
            old(self).wf(),
        ensures
            final(self).wf(),
            jump_top_effect(*old(self), *final(self)),

    {
        match self.active_pane {
            PaneSide::Left => self.left_pane.jump_top(),
            PaneSide::Right => self.right_pane.jump_top(),
        }
    }

    /// Puts the active pane's cursor on its last entry.
    pub fn jump_bottom(&mut self)
        requires
            old(self).wf(),
        ensures
            final(self).wf(),
            jump_bottom_effect(*old(self), *final(self)),

    {
        match self.active_pane {
            PaneSide::Left => self.left_pane.jump_bottom(),
            PaneSide::Right => self.right_pane.jump_bottom(),
        }
    }

    /// Toggles the mark under the active pane's cursor and moves down.
    pub fn toggle_mark_and_move(&mut self)
        requires
            old(self).wf(),
            move_fits(old(self).pane(old(self).active_pane), 1),
        ensures
            final(self).wf(),
            toggle_mark_and_move_effect(*old(self), *final(self)),

    {
        match self.active_pane {
            PaneSide::Left => {
                self.left_pane.toggle_mark();
                self.left_pane.move_cursor(1);
            },
            PaneSide::Right => {
                self.right_pane.toggle_mark();
                self.right_pane.move_cursor(1);
            },
        }
    }

    /// Marks all or none in the active pane.
    pub fn toggle_mark_all(&mut self)
        requires
            old(self).wf(),
        ensures
            final(self).wf(),
            toggle_mark_all_effect(*old(self), *final(self)),

    {
        match self.active_pane {
            PaneSide::Left => self.left_pane.toggle_mark_all(),
            PaneSide::Right => self.right_pane.toggle_mark_all(),
        }
    }
}


impl App {
    /// Makes the other pane active and forgets the search.
    pub fn switch_pane(&mut self)
        ensures
            switch_pane_effect(*old(self), *final(self)),

    {
        self.find_state = None;
        self.active_pane = match self.active_pane {
            PaneSide::Left => PaneSide::Right,
            PaneSide::Right => PaneSide::Left,
        };
    }

    /// Makes `side` active and forgets the search.
    pub fn activate_pane(&mut self, side: PaneSide)
        ensures
            activate_pane_effect(*old(self), *final(self), side),

    {
        self.find_state = None;
        self.active_pane = side;
    }

    /// Opens the command line with an empty input, from normal mode only.
    pub fn enter_command_mode(&mut self)
        requires
            old(self).wf(),
        ensures
            final(self).wf(),
            enter_command_mode_effect(*old(self), *final(self)),

    {
        if self.mode.can_enter_command() {
            self.command_state.reset();
            proof {
                lemma_start_boundary(self.command_state.input@);
            }
            self.mode = AppMode::Command;
        }
    }

    /// Goes back to normal mode.
    pub fn exit_to_normal(&mut self)
        ensures
            exit_to_normal_effect(*old(self), *final(self)),

    {
        self.mode = AppMode::Normal;
    }

    /// Shows the help screen from its top, on a topic if given.
    pub fn enter_help(&mut self, topic: Option<String>)
        ensures
            enter_help_effect(*old(self), *final(self), topic),

    {
        self.help_state = HelpState { scroll_offset: 0, topic };
        self.mode = AppMode::Help;
    }

    /// Scrolls the help screen by `delta` lines, not above its top.
    pub fn help_scroll(&mut self, delta: i32)
        requires
            old(self).help_state.scroll_offset <= i32::MAX,
            old(self).help_state.scroll_offset + delta <= i32::MAX,
        ensures
            help_scroll_effect(*old(self), *final(self), delta),

    {
        let offset = self.help_state.scroll_offset as i32 + delta;
        self.help_state.scroll_offset = if offset < 0 {
            0
        } else {
            offset as usize
        };
    }

    /// Types a character on the command line.
    pub fn command_input(&mut self, c: char)
        requires
            old(self).wf(),
            old(self).room(),
        ensures
            final(self).wf(),
            command_input_effect(*old(self), *final(self), c),

    {
        self.command_state.insert_char(c);
    }

    /// Deletes before the cursor on the command line, or leaves the command
    /// line when it is empty.
    pub fn command_backspace(&mut self)
        requires
            old(self).wf(),
        ensures
            final(self).wf(),
            command_backspace_effect(*old(self), *final(self)),

    {
        if self.command_state.input.as_str().is_empty() {
            self.mode = AppMode::Normal;
        } else {
            self.command_state.backspace();
        }
    }

    /// Shows the next older command line of the history.
    pub fn command_history_prev(&mut self)
        requires
            old(self).wf(),
            old(self).room(),
        ensures
            final(self).wf(),
            command_history_prev_effect(*old(self), *final(self)),

    {
        let _count = self.command_state.history.len();
        self.command_state.history_prev();
        proof {
            let cs = self.command_state;
            let next: int = match old(self).command_state.history_index {
                None => 0,
                Some(i) => i + 1,
            };
            if next < old(self).command_state.history@.len() {
                lemma_end_boundary(cs.input@);
            }
        }
    }

    /// Shows the next newer command line of the history, or the text typed
    /// before browsing it.
    pub fn command_history_next(&mut self)
        requires
            old(self).wf(),
            old(self).room(),
        ensures
            final(self).wf(),
            command_history_next_effect(*old(self), *final(self)),

    {
        self.command_state.history_next();
        proof {
            let cs = self.command_state;
            if cs.input != old(self).command_state.input || cs.history_index != old(self).command_state.history_index {
                lemma_end_boundary(cs.input@);
            }
        }
    }

    /// Closes the welcome screen.
    pub fn dismiss_welcome(&mut self)
        ensures
            dismiss_welcome_effect(*old(self), *final(self)),

    {
        self.show_welcome = false;
    }

    /// Closes the dialog.
    pub fn dialog_cancel(&mut self)
        requires
            old(self).wf(),
        ensures
            final(self).wf(),
            dialog_cancel_effect(*old(self), *final(self)),

    {
        self.dialog = None;
        self.mode = AppMode::Normal;
    }

    /// Asks a yes/no question (the answer deletes nothing).
    pub fn show_confirm_dialog(&mut self, title: String, message: String)
        requires
            old(self).wf(),
        ensures
            final(self).wf(),
            show_confirm_dialog_effect(*old(self), *final(self), title, message),

    {
        self.mode = AppMode::Dialog;
        self.dialog = Some(DialogState::Confirm {
            title,
            message,
            focus_yes: false,
            pending: PendingAction::Delete(Vec::new()),
        });
    }

    /// Stops the application after saving the history.
    pub fn quit(&mut self) -> (r: Request)
        ensures
            quit_effect(*old(self), *final(self), r),

    {
        self.should_quit = true;
        Request::SaveHistory
    }
}


/// The input dialog after its text and cursor changed, with the same title
/// and pending action.
pub open spec fn input_edited(o: Option<DialogState>, n: Option<DialogState>, value: Seq<char>, ci: int) -> bool {
    o matches Some(DialogState::Input { title, pending, .. }) && n matches Some(
        DialogState::Input { title: t2, value: v2, cursor_pos: c2, pending: p2 },
    ) && t2 == title && p2 == pending && v2@ == value && is_boundary(v2@, c2 as int) && char_index(
        v2@,
        c2 as int,
    ) == ci
}

/// The character index of the input dialog's cursor.
pub open spec fn input_cursor(d: Option<DialogState>) -> int {
    match d {
        Some(DialogState::Input { value, cursor_pos, .. }) => char_index(value@, cursor_pos as int),
        _ => 0,
    }
}

/// The text of the input dialog.
pub open spec fn input_text(d: Option<DialogState>) -> Seq<char> {
    match d {
        Some(DialogState::Input { value, .. }) => value@,
        _ => Seq::empty(),
    }
}

/// Whether an input dialog is shown.
pub open spec fn is_input(d: Option<DialogState>) -> bool {
    d matches Some(DialogState::Input { .. })
}

impl App {
    /// Types a character into the input dialog.
    pub fn dialog_input(&mut self, c: char)
        requires
            old(self).wf(),
            old(self).room(),
        ensures
            final(self).wf(),
            dialog_input_effect(*old(self), *final(self), c),

    {
        match &mut self.dialog {
            Some(DialogState::Input { value, cursor_pos, .. }) => {
                let (s, p) = insert_at(value, *cursor_pos, c);
                *value = s;
                *cursor_pos = p;
            },
            _ => {},
        }
    }

    /// Deletes the character before the input dialog's cursor.
    pub fn dialog_backspace(&mut self)
        requires
            old(self).wf(),
        ensures
            final(self).wf(),
            dialog_backspace_effect(*old(self), *final(self)),

    {
        match &mut self.dialog {
            Some(DialogState::Input { value, cursor_pos, .. }) => {
                if *cursor_pos > 0 {
                    let (s, p) = remove_before(value, *cursor_pos);
                    *value = s;
                    *cursor_pos = p;
                } else {
                    proof {
                        lemma_start_boundary(value@);
                    }
                }
            },
            _ => {},
        }
    }

    /// Moves the input dialog's cursor one character left.
    pub fn dialog_cursor_left(&mut self)
        requires
            old(self).wf(),
        ensures
            final(self).wf(),
            dialog_cursor_left_effect(*old(self), *final(self)),

    {
        match &mut self.dialog {
            Some(DialogState::Input { value, cursor_pos, .. }) => {
                if *cursor_pos > 0 {
                    *cursor_pos = prev_boundary(value, *cursor_pos);
                } else {
                    proof {
                        lemma_start_boundary(value@);
                    }
                }
            },
            _ => {},
        }
    }

    /// Moves the input dialog's cursor one character right.
    pub fn dialog_cursor_right(&mut self)
        requires
            old(self).wf(),
            old(self).room(),
        ensures
            final(self).wf(),
            dialog_cursor_right_effect(*old(self), *final(self)),

    {
        match &mut self.dialog {
            Some(DialogState::Input { value, cursor_pos, .. }) => {
                if *cursor_pos < byte_length(value.as_str()) {
                    *cursor_pos = next_boundary(value, *cursor_pos);
                } else {
                    proof {
                        let ci = char_index(value@, *cursor_pos as int);
                        if ci < value@.len() {
                            crate::edit::lemma_byte_len_prefix(value@, ci, value@.len() as int);
                            assert(value@.take(value@.len() as int) =~= value@);
                        }
                    }
                }
            },
            _ => {},
        }
    }

    /// Moves the input dialog's cursor to the start.
    pub fn dialog_home(&mut self)
        requires
            old(self).wf(),
        ensures
            final(self).wf(),
            dialog_home_effect(*old(self), *final(self)),

    {
        match &mut self.dialog {
            Some(DialogState::Input { value, cursor_pos, .. }) => {
                *cursor_pos = 0;
                proof {
                    lemma_start_boundary(value@);
                }
            },
            _ => {},
        }
    }

    /// Moves the input dialog's cursor to the end.
    pub fn dialog_end(&mut self)
        requires
            old(self).wf(),
            old(self).room(),
        ensures
            final(self).wf(),
            dialog_end_effect(*old(self), *final(self)),

    {
        match &mut self.dialog {
            Some(DialogState::Input { value, cursor_pos, .. }) => {
                *cursor_pos = byte_length(value.as_str());
                proof {
                    lemma_end_boundary(value@);
                }
            },
            _ => {},
        }
    }
}


/// The number of branch rows a filter keeps.
pub open spec fn shown_rows(branches: Seq<(String, bool, String)>, filter: Seq<char>) -> nat {
    filtered_rows(branch_rows(branches), filter).len()
}

/// The branch list's cursor and first row after moving `delta` rows among
/// `len` rows, fifteen of which are shown.
pub open spec fn branch_cursor_moved(cursor: int, scroll: int, delta: int, len: int) -> (int, int) {
    let max = if len == 0 { 0 } else { len - 1 };
    let c = crate::fs::clamp(cursor + delta, 0, max);
    let s1 = if c < scroll { c } else { scroll };
    let s2 = if c >= s1 + 15 { c - 14 } else { s1 };
    (c, s2)
}

/// Whether moving the branch list's cursor stays within `i32`, as the
/// computation does.
pub open spec fn branch_move_fits(d: Option<DialogState>, delta: i32) -> bool {
    d matches Some(DialogState::BranchList { branches, filter_string, cursor, .. }) ==> {
        &&& cursor <= i32::MAX
        &&& i32::MIN <= cursor + delta <= i32::MAX
        &&& branches@.len() <= i32::MAX
    }
}

/// The text of a search position, `検索結果 (pos/total)`.
pub open spec fn find_position_text(pos: nat, total: nat) -> Seq<char> {
    "検索結果 ("@ + decimal(pos) + "/"@ + decimal(total) + ")"@
}

impl App {
    /// The branch rows a keyword keeps, ignoring case (all for a blank one).
    pub fn filter_branch_list(branches: &Vec<(String, bool, String)>, filter: &str) -> (r: Vec<(String, bool, String)>)
        ensures
            branch_rows(r@) == filtered_rows(branch_rows(branches@), filter@),
    {
        filter_branches_display(branches, filter)
    }

    /// Moves the branch list's cursor among the rows the filter keeps,
    /// scrolling to keep it among the fifteen shown.
    pub fn branch_list_move_cursor(&mut self, delta: i32)
        requires
            old(self).wf(),
            branch_move_fits(old(self).dialog, delta),
        ensures
            final(self).wf(),
            branch_list_move_cursor_effect(*old(self), *final(self), delta),

    {
        match &mut self.dialog {
            Some(DialogState::BranchList { branches, filter_string, cursor, scroll_offset, .. }) => {
                let filtered = filter_branches_display(branches, filter_string.as_str());
                let len = filtered.len();
                proof {
                    let rows = branch_rows(branches@);
                    assert(branch_rows(filtered@).len() == filtered@.len());
                    if !(trim(filter_string@).len() == 0) {
                        rows.filter_lemma(crate::ui::dialog::row_matches(crate::text::lowercase(filter_string@)));
                    }
                }
                let max = if len == 0 { 0 } else { len - 1 };
                let p = *cursor as i32 + delta;
                let c: usize = if p < 0 {
                    0
                } else if p > max as i32 {
                    max
                } else {
                    p as usize
                };
                *cursor = c;
                if *cursor < *scroll_offset {
                    *scroll_offset = *cursor;
                }
                if *cursor >= *scroll_offset + 15 {
                    *scroll_offset = *cursor - 14;
                }
            },
            _ => {},
        }
    }
}


/// The branch list with another search text and the rest unchanged.
pub open spec fn with_search(d: Option<DialogState>, s: Option<Seq<char>>) -> bool {
    d matches Some(DialogState::BranchList { search_input, .. }) && match (search_input, s) {
        (Some(a), Some(b)) => a@ == b,
        (None, None) => true,
        _ => false,
    }
}

/// The branch list's fields other than the search text are equal.
pub open spec fn same_list(a: Option<DialogState>, b: Option<DialogState>) -> bool {
    a matches Some(DialogState::BranchList { branches, filter_string, cursor, scroll_offset, .. })
        && b matches Some(DialogState::BranchList { branches: b2, filter_string: f2, cursor: c2, scroll_offset: s2, .. })
        && b2 == branches && f2 == filter_string && c2 == cursor && s2 == scroll_offset
}

/// The search text being typed in the branch list, if any.
pub open spec fn search_text(d: Option<DialogState>) -> Option<Seq<char>> {
    match d {
        Some(DialogState::BranchList { search_input: Some(s), .. }) => Some(s@),
        _ => None,
    }
}

/// Whether the branch list is shown.
pub open spec fn is_branch_list(d: Option<DialogState>) -> bool {
    d matches Some(DialogState::BranchList { .. })
}

impl App {
    /// Starts typing a search in the branch list.
    pub fn branch_list_start_search(&mut self)
        requires
            old(self).wf(),
        ensures
            final(self).wf(),
            branch_list_start_search_effect(*old(self), *final(self)),

    {
        match &mut self.dialog {
            Some(DialogState::BranchList { search_input, .. }) => {
                *search_input = Some(String::new());
            },
            _ => {},
        }
    }

    /// Types a character of the branch search.
    pub fn branch_list_search_input(&mut self, c: char)
        requires
            old(self).wf(),
        ensures
            final(self).wf(),
            branch_list_search_input_effect(*old(self), *final(self), c),

    {
        match &mut self.dialog {
            Some(DialogState::BranchList { search_input: Some(s), .. }) => {
                push_char(s, c);
            },
            _ => {},
        }
    }

    /// Deletes the last character of the branch search.
    pub fn branch_list_search_backspace(&mut self)
        requires
            old(self).wf(),
        ensures
            final(self).wf(),
            branch_list_search_backspace_effect(*old(self), *final(self)),

    {
        match &mut self.dialog {
            Some(DialogState::BranchList { search_input: Some(s), .. }) => {
                if !s.as_str().is_empty() {
                    let v = crate::text::chars_of(s.as_str());
                    let t = crate::text::string_of_range(&v, 0, v.len() - 1);
                    *s = t;
                }
            },
            _ => {},
        }
    }

    /// Applies the typed search as the branch filter, with the cursor on the
    /// first row.
    pub fn branch_list_search_enter(&mut self)
        requires
            old(self).wf(),
        ensures
            final(self).wf(),
            branch_list_search_enter_effect(*old(self), *final(self)),

    {
        match &mut self.dialog {
            Some(DialogState::BranchList { filter_string, search_input, cursor, scroll_offset, .. }) => {
                let new_filter = match search_input {
                    Some(s) => s.clone(),
                    None => String::new(),
                };
                *search_input = None;
                *filter_string = new_filter;
                *cursor = 0;
                *scroll_offset = 0;
            },
            _ => {},
        }
    }

    /// Stops typing the branch search.
    pub fn branch_list_search_cancel(&mut self)
        requires
            old(self).wf(),
        ensures
            final(self).wf(),
            branch_list_search_cancel_effect(*old(self), *final(self)),

    {
        match &mut self.dialog {
            Some(DialogState::BranchList { search_input, .. }) => {
                *search_input = None;
            },
            _ => {},
        }
    }

    /// Sets the active pane's cursor.
    fn set_active_cursor(&mut self, idx: usize)
        requires
            old(self).wf(),
        ensures
            final(self).wf(),
            only_pane(*old(self), *final(self), old(self).active_pane),
            final(self).pane(old(self).active_pane) == (PaneState { cursor: idx, ..old(self).pane(old(self).active_pane) }),
    {
        match self.active_pane {
            PaneSide::Left => self.left_pane.cursor = idx,
            PaneSide::Right => self.right_pane.cursor = idx,
        }
    }

    /// Moves to the next (`forward`) or previous search match, wrapping
    /// around, and tells which one it is.
    pub fn find_step(&mut self, forward: bool, now: u64)
        requires
            old(self).wf(),
        ensures
            final(self).wf(),
            find_step_effect(*old(self), *final(self), forward, now),

    {
        let info: Option<(usize, usize, usize)> = match &mut self.find_state {
            Some(fs) => {
                if fs.matches.len() == 0 {
                    None
                } else {
                    fs.current = if forward {
                        (fs.current + 1) % fs.matches.len()
                    } else if fs.current == 0 {
                        fs.matches.len() - 1
                    } else {
                        fs.current - 1
                    };
                    Some((fs.matches[fs.current], fs.current + 1, fs.matches.len()))
                }
            },
            None => None,
        };
        match info {
            Some((idx, pos, total)) => {
                self.set_active_cursor(idx);
                let mut s = String::new();
                push_str(&mut s, "検索結果 (");
                push_decimal(&mut s, pos as u64);
                push_str(&mut s, "/");
                push_decimal(&mut s, total as u64);
                push_str(&mut s, ")");
                self.show_message(s, MessageLevel::Info, now);
            },
            None => {},
        }
    }
}


/// The entry under a pane's cursor, if any.
pub open spec fn current_of(p: PaneState) -> Option<FileEntry> {
    if p.cursor < p.entries@.len() {
        Some(p.entries@[p.cursor as int])
    } else {
        None
    }
}

/// Which panes a refresh of `side` reads: (left, right).
pub open spec fn panes_of(side: PaneSide) -> (bool, bool) {
    match side {
        PaneSide::Left => (true, false),
        PaneSide::Right => (false, true),
    }
}

/// The paths of the entries a pane operates on.
pub open spec fn selected_paths_of(p: PaneState) -> Seq<Seq<char>> {
    p.selected().map_values(|e: FileEntry| e.path@)
}

/// The question asked before deleting `paths`.
pub open spec fn delete_question(paths: Seq<Seq<char>>) -> Seq<char> {
    if paths.len() == 1 {
        let name = match file_name_of(paths[0]) {
            Some(f) => f,
            None => Seq::empty(),
        };
        "「"@ + name + "」を削除しますか？（ゴミ箱へ移動）"@
    } else {
        decimal(paths.len()) + "件を削除しますか？（ゴミ箱へ移動）"@
    }
}

impl App {
    /// A refresh of one pane with nothing to show afterwards.
    fn refresh_request(side: PaneSide) -> (r: Request)
        ensures
            r == (Request::Refresh { left: panes_of(side).0, right: panes_of(side).1, then: Then::Nothing, quiet: false }),
    {
        match side {
            PaneSide::Left => Request::Refresh { left: true, right: false, then: Then::Nothing, quiet: false },
            PaneSide::Right => Request::Refresh { left: false, right: true, then: Then::Nothing, quiet: false },
        }
    }

    /// Enter on the entry under the cursor: `.` reads the directory again,
    /// `..` goes up, a directory is entered, a file is opened.
    pub fn handle_enter(&mut self) -> (r: Request)
        requires
            old(self).wf(),
        ensures
            final(self).wf(),
            handle_enter_effect(*old(self), *final(self), r),

    {
        let side = self.active_pane;
        let (name, path, dir) = match self.active_pane_ref().current_entry() {
            Some(e) => (e.name.clone(), e.path.clone(), e.is_dir()),
            None => return Request::Done,
        };
        if crate::text::str_eq(name.as_str(), ".") {
            self.find_state = None;
            return Self::refresh_request(side);
        }
        if crate::text::str_eq(name.as_str(), "..") {
            self.find_state = None;
            return match self.active_pane_ref().parent_target() {
                Some((parent, focus)) => Request::Navigate { side, path: parent, focus },
                None => Request::Done,
            };
        }
        if dir {
            self.find_state = None;
            Request::Navigate { side, path, focus: None }
        } else {
            Request::Open(path)
        }
    }

    /// Goes to the parent directory in the active pane, with the cursor on
    /// the directory left.
    pub fn parent_directory(&mut self) -> (r: Request)
        requires
            old(self).wf(),
        ensures
            final(self).wf(),
            parent_directory_effect(*old(self), *final(self), r),

    {
        self.find_state = None;
        let side = self.active_pane;
        match self.active_pane_ref().parent_target() {
            Some((parent, focus)) => Request::Navigate { side, path: parent, focus },
            None => Request::Done,
        }
    }

    /// Goes to the home directory in the active pane; without one, says so.
    pub fn go_home(&mut self, now: u64) -> (r: Request)
        requires
            old(self).wf(),
        ensures
            final(self).wf(),
            go_home_effect(*old(self), *final(self), now, r),

    {
        self.find_state = None;
        match home_dir() {
            Some(h) => Request::Navigate { side: self.active_pane, path: h, focus: None },
            None => {
                let e = AppError::HomeDirNotFound;
                let text = e.user_message();
                self.show_message(text, MessageLevel::Error, now);
                Request::Done
            },
        }
    }

    /// Copies (`moving` false) or moves the selected entries into the other
    /// pane's directory.
    pub fn transfer(&mut self, moving: bool) -> (r: Request)
        requires
            old(self).wf(),
        ensures
            transfer_effect(*old(self), *final(self), moving, r),

    {
        let sources = self.active_pane_ref().selected_paths();
        if sources.len() == 0 {
            return Request::Done;
        }
        let dest = self.opposite_pane_ref().current_dir.clone();
        if moving {
            Request::Operate(FileOp::Move { sources, dest })
        } else {
            Request::Operate(FileOp::Copy { sources, dest })
        }
    }

    /// Asks before moving the selected entries to the trash.
    pub fn request_delete(&mut self) -> (r: Request)
        requires
            old(self).wf(),
        ensures
            final(self).wf(),
            request_delete_effect(*old(self), *final(self), r),

    {
        let paths = self.active_pane_ref().selected_paths();
        if paths.len() == 0 {
            return Request::Done;
        }
        let mut msg = String::new();
        if paths.len() == 1 {
            let name = match path_file_name(paths[0].as_str()) {
                Some(f) => f,
                None => String::new(),
            };
            push_str(&mut msg, "「");
            push_str(&mut msg, name.as_str());
            push_str(&mut msg, "」を削除しますか？（ゴミ箱へ移動）");
        } else {
            push_decimal(&mut msg, paths.len() as u64);
            push_str(&mut msg, "件を削除しますか？（ゴミ箱へ移動）");
        }
        self.mode = AppMode::Dialog;
        self.dialog = Some(DialogState::Confirm {
            title: "削除".to_owned(),
            message: msg,
            focus_yes: false,
            pending: PendingAction::Delete(paths),
        });
        Request::Done
    }

    /// Moves the selected entries to the trash without asking.
    pub fn execute_delete(&mut self) -> (r: Request)
        requires
            old(self).wf(),
        ensures
            execute_delete_effect(*old(self), *final(self), r),

    {
        let paths = self.active_pane_ref().selected_paths();
        Request::Operate(FileOp::Trash(paths))
    }

    /// Asks for a new name for the entry under the cursor (not `.` or `..`).
    pub fn request_rename(&mut self) -> (r: Request)
        requires
            old(self).wf(),
            old(self).room(),
        ensures
            final(self).wf(),
            request_rename_effect(*old(self), *final(self), r),

    {
        let (name, path) = match self.active_pane_ref().current_entry() {
            Some(e) => (e.name.clone(), e.path.clone()),
            None => return Request::Done,
        };
        if is_dot(name.as_str()) {
            return Request::Done;
        }
        let len = byte_length(name.as_str());
        proof {
            lemma_end_boundary(name@);
        }
        self.mode = AppMode::Dialog;
        self.dialog = Some(DialogState::Input {
            title: "名前変更".to_owned(),
            value: name,
            cursor_pos: len,
            pending: PendingInputAction::Rename(path),
        });
        Request::Done
    }
}


/// The octal text of a mode's permission bits has at most four digits.
proof fn lemma_octal_len(n: nat)
    requires
        n < 4096,
    ensures
        octal(n).len() <= 4,
{
    reveal_with_fuel(octal, 5);
}

impl App {
    /// Renames the entry under the cursor to `new_name`.
    pub fn execute_rename(&mut self, new_name: String) -> (r: Request)
        requires
            old(self).wf(),
        ensures
            execute_rename_effect(*old(self), *final(self), new_name, r),

    {
        match self.active_pane_ref().current_entry() {
            Some(e) => Request::Operate(FileOp::Rename { path: e.path.clone(), new_name }),
            None => Request::Done,
        }
    }

    /// Asks for a name, with an empty input.
    pub fn request_create(&mut self, title: String, pending: PendingInputAction) -> (r: Request)
        requires
            old(self).wf(),
        ensures
            final(self).wf(),
            request_create_effect(*old(self), *final(self), title, pending, r),

    {
        let value = String::new();
        proof {
            lemma_start_boundary(value@);
        }
        self.mode = AppMode::Dialog;
        self.dialog = Some(DialogState::Input { title, value, cursor_pos: 0, pending });
        Request::Done
    }

    /// Creates a directory (`dir` true) or an empty file named `name` in the
    /// active pane's directory.
    pub fn execute_create(&mut self, name: String, dir: bool) -> (r: Request)
        requires
            old(self).wf(),
        ensures
            execute_create_effect(*old(self), *final(self), name, dir, r),

    {
        let d = self.active_pane_ref().current_dir.clone();
        if dir {
            Request::Operate(FileOp::CreateDir { dir: d, name })
        } else {
            Request::Operate(FileOp::CreateFile { dir: d, name })
        }
    }

    /// Asks for new permission bits for the selected entries, showing the
    /// current ones of the entry under the cursor in octal.
    pub fn request_chmod(&mut self) -> (r: Request)
        requires
            old(self).wf(),
        ensures
            final(self).wf(),
            request_chmod_effect(*old(self), *final(self), r),

    {
        let (name, mode) = match self.active_pane_ref().current_entry() {
            Some(e) => (e.name.clone(), e.mode),
            None => return Request::Done,
        };
        if is_dot(name.as_str()) {
            return Request::Done;
        }
        let paths = self.active_pane_ref().selected_paths();
        if paths.len() == 0 {
            return Request::Done;
        }
        let bits = mode & 0o7777;
        let mut value = String::new();
        push_octal(&mut value, bits);
        proof {
            assert(bits < 4096) by (bit_vector)
                requires
                    bits == mode & 0o7777,
            ;
            lemma_octal_len(bits as nat);
            crate::edit::lemma_byte_len_bound(value@);
            lemma_end_boundary(value@);
        }
        let cursor_pos = byte_length(value.as_str());
        self.mode = AppMode::Dialog;
        self.dialog = Some(DialogState::Input {
            title: "パーミッション変更（8進数）".to_owned(),
            value,
            cursor_pos,
            pending: PendingInputAction::Chmod(paths),
        });
        Request::Done
    }

    /// Shows or hides hidden files in the active pane.
    pub fn toggle_hidden(&mut self) -> (r: Request)
        requires
            old(self).wf(),
        ensures
            final(self).wf(),
            toggle_hidden_effect(*old(self), *final(self), r),

    {
        self.find_state = None;
        let side = self.active_pane;
        match side {
            PaneSide::Left => self.left_pane.show_hidden = !self.left_pane.show_hidden,
            PaneSide::Right => self.right_pane.show_hidden = !self.right_pane.show_hidden,
        }
        Self::refresh_request(side)
    }

    /// Sorts the active pane by another key.
    pub fn set_sort(&mut self, criteria: SortCriteria) -> (r: Request)
        requires
            old(self).wf(),
        ensures
            final(self).wf(),
            set_sort_effect(*old(self), *final(self), criteria, r),

    {
        self.find_state = None;
        let side = self.active_pane;
        match side {
            PaneSide::Left => self.left_pane.sort_order.criteria = criteria,
            PaneSide::Right => self.right_pane.sort_order.criteria = criteria,
        }
        Self::refresh_request(side)
    }

    /// Reads both panes again.
    pub fn refresh_all(&mut self) -> (r: Request)
        ensures
            refresh_all_effect(*old(self), *final(self), r),

    {
        self.find_state = None;
        Request::Refresh { left: true, right: true, then: Then::Nothing, quiet: false }
    }
}


/// How often the panes' directories are looked at for changes made by
/// other programs, in milliseconds.
pub const AUTO_REFRESH_INTERVAL_MS: u64 = 2000;

/// Whether it is time to look for outside changes again: at least the
/// interval has passed since the last look at `last` (a clock that went
/// back counts as not yet).
pub fn auto_refresh_due(last: u64, now: u64) -> (r: bool)
    ensures
        r == (now >= last && now - last >= AUTO_REFRESH_INTERVAL_MS),
{
    now >= last && now - last >= AUTO_REFRESH_INTERVAL_MS
}

impl App {
    /// What to do when a pane's directory (or its repository's `HEAD`)
    /// changed outside: in normal mode, read the changed panes again
    /// without reporting failures; in any other mode, nothing.
    pub fn external_changes(&self, left_changed: bool, right_changed: bool) -> (r: Request)
        ensures
            (self.mode == AppMode::Normal && (left_changed || right_changed)) ==> (r matches Request::Refresh {
                left,
                right,
                then: Then::Nothing,
                quiet: true,
            } && left == left_changed && right == right_changed),
            !(self.mode == AppMode::Normal && (left_changed || right_changed)) ==> r is Done,
    {
        if self.mode == AppMode::Normal && (left_changed || right_changed) {
            Request::Refresh { left: left_changed, right: right_changed, then: Then::Nothing, quiet: true }
        } else {
            Request::Done
        }
    }
}

/// The message after a file operation that succeeded on `count` entries
/// (or on the named one).
pub open spec fn done_text(op: FileOp, count: nat) -> Seq<char> {
    match op {
        FileOp::Copy { .. } => decimal(count) + "件コピーしました"@,
        FileOp::Move { .. } => decimal(count) + "件移動しました"@,
        FileOp::Trash(_) => decimal(count) + "件削除しました"@,
        FileOp::Rename { new_name, .. } => "名前変更: "@ + new_name@,
        FileOp::CreateDir { name, .. } => "作成: "@ + name@,
        FileOp::CreateFile { name, .. } => "作成: "@ + name@,
        FileOp::Chmod { .. } => decimal(count) + "件のパーミッションを変更しました"@,
    }
}

/// Which panes are read after a file operation from the `active` side:
/// the other one after a copy, both after a move, the active one else.
pub open spec fn panes_after(op: FileOp, active: PaneSide) -> (bool, bool) {
    match op {
        FileOp::Copy { .. } => panes_of(other_side(active)),
        FileOp::Move { .. } => (true, true),
        _ => panes_of(active),
    }
}

/// Whether an operation clears the active pane's marks when it succeeds.
pub open spec fn clears_marks(op: FileOp) -> bool {
    op is Copy || op is Move || op is Trash
}

/// The rows of a branch list built from `git branch -a`.
pub open spec fn item_rows(items: Seq<crate::utils::git::BranchSpec>) -> Seq<(Seq<char>, bool, Seq<char>)> {
    items.map_values(|b: crate::utils::git::BranchSpec| (b.display, b.is_current, b.checkout_arg))
}

/// The number of leading rows that are not the current branch.
pub open spec fn leading_not_current(rows: Seq<(Seq<char>, bool, Seq<char>)>) -> nat
    decreases rows.len(),
{
    if rows.len() > 0 && !rows[0].1 {
        1 + leading_not_current(rows.drop_first())
    } else {
        0
    }
}

/// The index of the first current branch, or 0.
pub open spec fn first_current(rows: Seq<(Seq<char>, bool, Seq<char>)>) -> nat {
    let k = leading_not_current(rows);
    if k < rows.len() {
        k
    } else {
        0
    }
}

impl App {
    /// Shows an error in the status line.
    pub fn report_error(&mut self, e: AppError, now: u64)
        ensures
            final(self).message matches Some(m) && m.text@ == e.spec_user_message() && m.level == MessageLevel::Error && m.created_at == now,
            *final(self) == (App { message: final(self).message, ..*old(self) }),
    {
        let text = e.user_message();
        self.show_message(text, MessageLevel::Error, now);
    }

    /// Shows a directory listing read again in one pane.
    pub fn apply_listing(
        &mut self,
        side: PaneSide,
        listing: Vec<FileEntry>,
        dot: FileEntry,
        dotdot: Option<FileEntry>,
        git_branch: Option<String>,
    )
        requires
            old(self).wf(),
        ensures
            final(self).wf(),
            only_pane(*old(self), *final(self), side),
            final(self).pane(side).shows_listing(listing@, dot, dotdot),
            final(self).pane(side).cursor == if old(self).pane(side).cursor < final(self).pane(side).entries@.len() {
                old(self).pane(side).cursor as int
            } else {
                final(self).pane(side).entries@.len() - 1
            },
            final(self).pane(side).git_branch == git_branch,
            final(self).pane(side).marked == old(self).pane(side).marked,
            final(self).pane(side).scroll_offset == old(self).pane(side).scroll_offset,
            final(self).pane(side).current_dir == old(self).pane(side).current_dir,
            final(self).pane(side).sort_order == old(self).pane(side).sort_order,
            final(self).pane(side).show_hidden == old(self).pane(side).show_hidden,
    {
        match side {
            PaneSide::Left => self.left_pane.apply_listing(listing, dot, dotdot, git_branch),
            PaneSide::Right => self.right_pane.apply_listing(listing, dot, dotdot, git_branch),
        }
    }

    /// Enters a checked directory in one pane with its listing, then puts
    /// the cursor on the entry named `focus` if given and listed.
    pub fn entered(
        &mut self,
        side: PaneSide,
        dir: String,
        listing: Vec<FileEntry>,
        dot: FileEntry,
        dotdot: Option<FileEntry>,
        git_branch: Option<String>,
        focus: Option<String>,
    )
        requires
            old(self).wf(),
        ensures
            final(self).wf(),
            only_pane(*old(self), *final(self), side),
            final(self).pane(side).current_dir == dir,
            final(self).pane(side).shows_listing(listing@, dot, dotdot),
            final(self).pane(side).scroll_offset == 0,
            final(self).pane(side).marked@.len() == 0,
            final(self).pane(side).git_branch == git_branch,
            final(self).pane(side).sort_order == old(self).pane(side).sort_order,
            final(self).pane(side).show_hidden == old(self).pane(side).show_hidden,
            ({
                let n = crate::fs::names(final(self).pane(side).entries@);
                let placed = crate::fs::entry_cursor(n);
                match focus {
                    Some(f) => {
                        let k = crate::fs::leading_unmatched(n, f@, true);
                        final(self).pane(side).cursor == if k < n.len() { k } else { placed }
                    },
                    None => final(self).pane(side).cursor == placed,
                }
            }),
    {
        match side {
            PaneSide::Left => {
                self.left_pane.enter_dir(dir, listing, dot, dotdot, git_branch);
                match &focus {
                    Some(f) => self.left_pane.focus_entry(f.as_str()),
                    None => {},
                }
            },
            PaneSide::Right => {
                self.right_pane.enter_dir(dir, listing, dot, dotdot, git_branch);
                match &focus {
                    Some(f) => self.right_pane.focus_entry(f.as_str()),
                    None => {},
                }
            },
        }
    }

    /// After reading the panes again: shows what was to be shown.
    pub fn refreshed(&mut self, then: Then, now: u64)
        ensures
            then is Nothing ==> *final(self) == *old(self),
            then matches Then::Message(text, level) ==> {
                &&& final(self).message matches Some(m) && m.text == text && m.level == level && m.created_at == now
                &&& *final(self) == (App { message: final(self).message, ..*old(self) })
            },
    {
        match then {
            Then::Nothing => {},
            Then::Message(text, level) => self.show_message(text, level, now),
        }
    }

    /// A file could not be opened: says so with the reason.
    pub fn open_failed(&mut self, reason: String, now: u64)
        ensures
            final(self).message matches Some(m) && m.text@ == "開けません: "@ + reason@ && m.level == MessageLevel::Error && m.created_at == now,
            *final(self) == (App { message: final(self).message, ..*old(self) }),
    {
        let mut s = String::new();
        push_str(&mut s, "開けません: ");
        push_str(&mut s, reason.as_str());
        self.show_message(s, MessageLevel::Error, now);
    }

    /// After a file operation: on success, clears the marks where the
    /// operation took them, reads the affected panes again and then says
    /// what was done; on failure, shows the error.
    pub fn operation_done(&mut self, op: FileOp, result: Result<usize, AppError>, now: u64) -> (r: Request)
        requires
            old(self).wf(),
        ensures
            final(self).wf(),
            match result {
                Err(e) => {
                    &&& r is Done
                    &&& final(self).message matches Some(m) && m.text@ == e.spec_user_message() && m.level == MessageLevel::Error
                        && m.created_at == now
                    &&& *final(self) == (App { message: final(self).message, ..*old(self) })
                },
                Ok(count) => {
                    let side = old(self).active_pane;
                    &&& r matches Request::Refresh { left, right, then: Then::Message(text, level), quiet: false }
                        && (left, right) == panes_after(op, side) && text@ == done_text(op, count as nat) && level == MessageLevel::Success
                    &&& clears_marks(op) ==> {
                        &&& only_pane(*old(self), *final(self), side)
                        &&& final(self).pane(side) == (PaneState { marked: final(self).pane(side).marked, ..old(self).pane(side) })
                        &&& final(self).pane(side).marked@.len() == 0
                    }
                    &&& !clears_marks(op) ==> *final(self) == *old(self)
                },
            },
    {
        let count = match result {
            Err(e) => {
                self.report_error(e, now);
                return Request::Done;
            },
            Ok(c) => c,
        };
        let side = self.active_pane;
        let mut text = String::new();
        let (left, right, clear) = match &op {
            FileOp::Copy { .. } => {
                push_decimal(&mut text, count as u64);
                push_str(&mut text, "件コピーしました");
                match side {
                    PaneSide::Left => (false, true, true),
                    PaneSide::Right => (true, false, true),
                }
            },
            FileOp::Move { .. } => {
                push_decimal(&mut text, count as u64);
                push_str(&mut text, "件移動しました");
                (true, true, true)
            },
            FileOp::Trash(_) => {
                push_decimal(&mut text, count as u64);
                push_str(&mut text, "件削除しました");
                match side {
                    PaneSide::Left => (true, false, true),
                    PaneSide::Right => (false, true, true),
                }
            },
            FileOp::Rename { new_name, .. } => {
                push_str(&mut text, "名前変更: ");
                push_str(&mut text, new_name.as_str());
                match side {
                    PaneSide::Left => (true, false, false),
                    PaneSide::Right => (false, true, false),
                }
            },
            FileOp::CreateDir { name, .. } => {
                push_str(&mut text, "作成: ");
                push_str(&mut text, name.as_str());
                match side {
                    PaneSide::Left => (true, false, false),
                    PaneSide::Right => (false, true, false),
                }
            },
            FileOp::CreateFile { name, .. } => {
                push_str(&mut text, "作成: ");
                push_str(&mut text, name.as_str());
                match side {
                    PaneSide::Left => (true, false, false),
                    PaneSide::Right => (false, true, false),
                }
            },
            FileOp::Chmod { .. } => {
                push_decimal(&mut text, count as u64);
                push_str(&mut text, "件のパーミッションを変更しました");
                match side {
                    PaneSide::Left => (true, false, false),
                    PaneSide::Right => (false, true, false),
                }
            },
        };
        if clear {
            match side {
                PaneSide::Left => self.left_pane.clear_marks(),
                PaneSide::Right => self.right_pane.clear_marks(),
            }
        }
        Request::Refresh { left, right, then: Then::Message(text, MessageLevel::Success), quiet: false }
    }

    /// After `git pull` ran (or the directory turned out to be no
    /// repository): shows its output and reads both panes again.
    pub fn git_pulled(&mut self, is_repo: bool, output: String, now: u64) -> (r: Request)
        requires
            old(self).wf(),
        ensures
            final(self).wf(),
            !is_repo ==> {
                &&& r is Done
                &&& final(self).message matches Some(m) && m.text@ == "Git リポジトリではありません"@ && m.level == MessageLevel::Warning
                    && m.created_at == now
                &&& *final(self) == (App { message: final(self).message, ..*old(self) })
            },
            is_repo ==> {
                &&& r == (Request::Refresh { left: true, right: true, then: Then::Nothing, quiet: true })
                &&& final(self).mode == AppMode::Dialog
                &&& final(self).dialog matches Some(DialogState::Message { title, content }) && title@ == "git pull"@ && content == output
                &&& *final(self) == (App { mode: AppMode::Dialog, dialog: final(self).dialog, ..*old(self) })
            },
    {
        if !is_repo {
            self.show_message("Git リポジトリではありません".to_owned(), MessageLevel::Warning, now);
            return Request::Done;
        }
        self.mode = AppMode::Dialog;
        self.dialog = Some(DialogState::Message { title: "git pull".to_owned(), content: output });
        Request::Refresh { left: true, right: true, then: Then::Nothing, quiet: true }
    }

    /// After checking for a repository: asks for what to check out.
    pub fn git_checkout_checked(&mut self, is_repo: bool, now: u64)
        requires
            old(self).wf(),
        ensures
            final(self).wf(),
            !is_repo ==> {
                &&& final(self).message matches Some(m) && m.text@ == "Git リポジトリではありません"@ && m.level == MessageLevel::Warning
                    && m.created_at == now
                &&& *final(self) == (App { message: final(self).message, ..*old(self) })
            },
            is_repo ==> {
                &&& final(self).mode == AppMode::Dialog
                &&& final(self).dialog matches Some(DialogState::Input { title, value, cursor_pos: 0, pending: PendingInputAction::GitCheckout })
                    && title@ == "git checkout（ブランチ名または -b 新ブランチ名）"@ && value@ == Seq::<char>::empty()
                &&& *final(self) == (App { mode: AppMode::Dialog, dialog: final(self).dialog, ..*old(self) })
            },
    {
        if !is_repo {
            self.show_message("Git リポジトリではありません".to_owned(), MessageLevel::Warning, now);
            return;
        }
        self.request_create("git checkout（ブランチ名または -b 新ブランチ名）".to_owned(), PendingInputAction::GitCheckout);
    }

    /// After listing the branches: shows them with the cursor on the current
    /// one, or says there are none.
    pub fn git_branches_listed(&mut self, is_repo: bool, items: Vec<GitBranchItem>, now: u64)
        requires
            old(self).wf(),
        ensures
            final(self).wf(),
            !is_repo ==> {
                &&& final(self).message matches Some(m) && m.text@ == "Git リポジトリではありません"@ && m.level == MessageLevel::Warning
                    && m.created_at == now
                &&& *final(self) == (App { message: final(self).message, ..*old(self) })
            },
            is_repo && items@.len() == 0 ==> {
                &&& final(self).message matches Some(m) && m.text@ == "ブランチが見つかりません"@ && m.level == MessageLevel::Warning
                    && m.created_at == now
                &&& *final(self) == (App { message: final(self).message, ..*old(self) })
            },
            is_repo && items@.len() > 0 ==> {
                &&& final(self).mode == AppMode::Dialog
                &&& final(self).dialog matches Some(DialogState::BranchList { branches, filter_string, search_input: None, cursor, scroll_offset: 0 })
                    && branch_rows(branches@) == item_rows(branch_views(items@)) && filter_string@ == Seq::<char>::empty()
                    && cursor == first_current(branch_rows(branches@))
                &&& *final(self) == (App { mode: AppMode::Dialog, dialog: final(self).dialog, ..*old(self) })
            },
    {
        if !is_repo {
            self.show_message("Git リポジトリではありません".to_owned(), MessageLevel::Warning, now);
            return;
        }
        if items.len() == 0 {
            self.show_message("ブランチが見つかりません".to_owned(), MessageLevel::Warning, now);
            return;
        }
        let mut rows: Vec<(String, bool, String)> = Vec::new();
        let mut i: usize = 0;
        while i < items.len()
            invariant
                i <= items@.len(),
                branch_rows(rows@) == item_rows(branch_views(items@)).take(i as int),
            decreases items@.len() - i,
        {
            let b = &items[i];
            let ghost before = rows@;
            rows.push((b.display.clone(), b.is_current, b.checkout_arg.clone()));
            let ghost row = (b.display@, b.is_current, b.checkout_arg@);
            assert(branch_rows(rows@) =~= branch_rows(before).push(row));
            assert(branch_views(items@)[i as int] == b@);
            assert(item_rows(branch_views(items@))[i as int] == row);
            assert(item_rows(branch_views(items@)).take(i + 1) =~= item_rows(branch_views(items@)).take(i as int).push(row));
            i += 1;
        }
        assert(item_rows(branch_views(items@)).take(items@.len() as int) =~= item_rows(branch_views(items@)));
        let cursor = first_current_index(&rows);
        self.mode = AppMode::Dialog;
        self.dialog = Some(DialogState::BranchList {
            branches: rows,
            filter_string: String::new(),
            search_input: None,
            cursor,
            scroll_offset: 0,
        });
    }

    /// After `git checkout` ran: on success reads both panes and says so;
    /// on failure shows the output in a dialog.
    pub fn git_checked_out(&mut self, result: GitCheckoutResult) -> (r: Request)
        requires
            old(self).wf(),
        ensures
            final(self).wf(),
            result.success ==> {
                &&& *final(self) == *old(self)
                &&& r matches Request::Refresh { left: true, right: true, then: Then::Message(text, level), quiet: true }
                    && text@ == "git checkout: "@ + result.message@ && level == MessageLevel::Success
            },
            !result.success ==> {
                &&& r is Done
                &&& final(self).mode == AppMode::Dialog
                &&& final(self).dialog matches Some(DialogState::Message { title, content }) && title@ == "git checkout エラー"@
                    && content == result.message
                &&& *final(self) == (App { mode: AppMode::Dialog, dialog: final(self).dialog, ..*old(self) })
            },
    {
        if result.success {
            let mut text = String::new();
            push_str(&mut text, "git checkout: ");
            push_str(&mut text, result.message.as_str());
            Request::Refresh { left: true, right: true, then: Then::Message(text, MessageLevel::Success), quiet: true }
        } else {
            self.mode = AppMode::Dialog;
            self.dialog = Some(DialogState::Message { title: "git checkout エラー".to_owned(), content: result.message });
            Request::Done
        }
    }
}

/// The index of the first current branch, or 0.
pub fn first_current_index(rows: &Vec<(String, bool, String)>) -> (k: usize)
    ensures
        k == first_current(branch_rows(rows@)),
{
    let ghost s = branch_rows(rows@);
    let mut i: usize = 0;
    while i < rows.len()
        invariant
            i <= rows@.len(),
            s == branch_rows(rows@),
            forall|j: int| 0 <= j < i ==> !(#[trigger] s[j]).1,
        decreases rows@.len() - i,
    {
        if rows[i].1 {
            proof {
                lemma_leading_not_current(s, i as int);
            }
            return i;
        }
        i += 1;
    }
    proof {
        lemma_leading_not_current(s, s.len() as int);
    }
    0
}

/// `leading_not_current` is the index of the first current row, or the
/// length.
proof fn lemma_leading_not_current(rows: Seq<(Seq<char>, bool, Seq<char>)>, k: int)
    requires
        0 <= k <= rows.len(),
        k < rows.len() ==> rows[k].1,
        forall|j: int| 0 <= j < k ==> !(#[trigger] rows[j]).1,
    ensures
        leading_not_current(rows) == k,
    decreases k,
{
    if k > 0 {
        let t = rows.drop_first();
        assert forall|j: int| 0 <= j < k - 1 implies !(#[trigger] t[j]).1 by {
            assert(t[j] == rows[j + 1]);
        }
        if k < rows.len() {
            assert(t[k - 1] == rows[k]);
        }
        lemma_leading_not_current(t, k - 1);
    }
}


/// Whether a character is an octal digit.
pub open spec fn is_octal_digit(c: char) -> bool {
    '0' <= c && c <= '7'
}

/// The value of a string of octal digits.
pub open spec fn octal_num(d: Seq<char>) -> nat
    decreases d.len(),
{
    if d.len() == 0 {
        0
    } else {
        octal_num(d.drop_last()) * 8 + (d.last() as nat - 48) as nat
    }
}

/// The digits of an octal text: without its leading `+`, if any.
pub open spec fn octal_part(s: Seq<char>) -> Seq<char> {
    if s.len() > 0 && s[0] == '+' {
        s.drop_first()
    } else {
        s
    }
}

/// The number an unsigned octal text stands for (`u32::from_str_radix`
/// with radix 8, before its range check): digits after an optional `+`.
pub open spec fn octal_value(s: Seq<char>) -> Option<nat> {
    let d = octal_part(s);
    if d.len() > 0 && forall|i: int| 0 <= i < d.len() ==> is_octal_digit(#[trigger] d[i]) {
        Some(octal_num(d))
    } else {
        None
    }
}

/// The permission bits a typed text gives: its octal value when it is at
/// most `7777`.
pub open spec fn permission_value(s: Seq<char>) -> Option<nat> {
    match octal_value(trim(s)) {
        Some(v) => if v <= 0o7777 {
            Some(v)
        } else {
            None
        },
        None => None,
    }
}

/// Reads permission bits typed in octal.
pub fn permission_bits(s: &str) -> (r: Option<u32>)
    ensures
        match permission_value(s@) {
            Some(v) => r == Some(v as u32),
            None => r is None,
        },
{
    let t = crate::text::trim_str(s);
    let v = crate::text::chars_of(t.as_str());
    let start: usize = if v.len() > 0 && v[0] == '+' {
        1
    } else {
        0
    };
    let ghost d = v@.skip(start as int);
    proof {
        if start == 1 {
            assert(d =~= v@.drop_first());
        } else {
            assert(d =~= v@);
        }
    }
    if start >= v.len() {
        return None;
    }
    let mut acc: u32 = 0;
    let mut i: usize = start;
    assert(d.take(0) =~= Seq::<char>::empty());
    while i < v.len()
        invariant
            start <= i <= v.len(),
            d == v@.skip(start as int),
            d == octal_part(trim(s@)),
            forall|k: int| 0 <= k < i - start ==> is_octal_digit(#[trigger] d[k]),
            acc as nat == if octal_num(d.take(i - start)) < 4096 { octal_num(d.take(i - start)) } else { 4096 },
        decreases v.len() - i,
    {
        let c = v[i];
        assert(d[i - start] == c);
        if !('0' <= c && c <= '7') {
            assert(!is_octal_digit(d[i - start]));
            return None;
        }
        let digit = (c as u32) - 48;
        let ghost p = d.take(i - start);
        assert(d.take(i - start + 1).drop_last() =~= p);
        assert(d.take(i - start + 1).last() == c);
        let next = acc * 8 + digit;
        acc = if next > 4096 { 4096 } else { next };
        i += 1;
    }
    assert(d.take(d.len() as int) =~= d);
    if acc <= 0o7777 {
        Some(acc)
    } else {
        None
    }
}

/// The message when the current branch is chosen again.
pub open spec fn already_text(display: Seq<char>) -> Seq<char> {
    "既に "@ + display + " ブランチにいます"@
}

/// The message for permission bits that cannot be read.
pub open spec fn invalid_mode_text(value: Seq<char>) -> Seq<char> {
    "無効なパーミッション: 「"@ + value + "」（例: 755, 644）"@
}

impl App {
    /// Confirms the dialog: runs what it was for and closes it.
    pub fn dialog_confirm(&mut self, now: u64) -> (r: Request)
        requires
            old(self).wf(),
        ensures
            final(self).wf(),
            dialog_confirm_effect(*old(self), *final(self), now, r),

    {
        let dialog = match self.dialog {
            Some(_) => {
                let mut d: Option<DialogState> = None;
                std::mem::swap(&mut d, &mut self.dialog);
                d
            },
            None => None,
        };
        self.mode = AppMode::Normal;
        let dir = self.active_pane_ref().current_dir.clone();
        match dialog {
            None => Request::Done,
            Some(DialogState::Message { .. }) => Request::Done,
            Some(DialogState::Confirm { pending: PendingAction::Delete(paths), .. }) => Request::Operate(FileOp::Trash(paths)),
            Some(DialogState::BranchList { branches, filter_string, cursor, .. }) => {
                let filtered = filter_branches_display(&branches, filter_string.as_str());
                if cursor < filtered.len() {
                    let row = &filtered[cursor];
                    proof {
                        assert(branch_rows(filtered@)[cursor as int] == (row.0@, row.1, row.2@));
                    }
                    if row.1 {
                        let mut s = String::new();
                        push_str(&mut s, "既に ");
                        push_str(&mut s, row.0.as_str());
                        push_str(&mut s, " ブランチにいます");
                        self.show_message(s, MessageLevel::Info, now);
                        Request::Done
                    } else {
                        Request::GitCheckout { dir, args: row.2.clone() }
                    }
                } else {
                    Request::Done
                }
            },
            Some(DialogState::Input { value, pending, .. }) => {
                if crate::text::is_blank(value.as_str()) {
                    return Request::Done;
                }
                match pending {
                    PendingInputAction::Rename(path) => Request::Operate(FileOp::Rename { path, new_name: value }),
                    PendingInputAction::CreateDir => Request::Operate(FileOp::CreateDir { dir, name: value }),
                    PendingInputAction::CreateFile => Request::Operate(FileOp::CreateFile { dir, name: value }),
                    PendingInputAction::GitCheckout => Request::GitCheckout { dir, args: value },
                    PendingInputAction::Chmod(paths) => match permission_bits(value.as_str()) {
                        Some(mode) => Request::Operate(FileOp::Chmod { paths, mode }),
                        None => {
                            let mut s = String::new();
                            push_str(&mut s, "無効なパーミッション: 「");
                            push_str(&mut s, value.as_str());
                            push_str(&mut s, "」（例: 755, 644）");
                            self.show_message(s, MessageLevel::Error, now);
                            Request::Done
                        },
                    },
                }
            },
        }
    }
}


/// Whether an entry is found by a lowercased query: a real entry whose
/// lowercased name contains it.
pub open spec fn found_by(e: FileEntry, lowered_query: Seq<char>) -> bool {
    !is_dot_name(e.name@) && has_infix(lowercase(e.name@), lowered_query)
}

/// The indices of the entries a lowercased query finds, in order.
pub open spec fn found_indices(s: Seq<FileEntry>, lowered_query: Seq<char>) -> Seq<usize>
    decreases s.len(),
{
    if s.len() == 0 {
        Seq::empty()
    } else {
        let prev = found_indices(s.drop_last(), lowered_query);
        if found_by(s.last(), lowered_query) {
            prev.push((s.len() - 1) as usize)
        } else {
            prev
        }
    }
}

/// The state after searching the active pane for `query`: with matches,
/// the cursor is on the first and the count is shown; without, the search
/// is forgotten and that is shown.
pub open spec fn find_applied(o: App, n: App, query: Seq<char>, now: u64) -> bool {
    let side = o.active_pane;
    let ms = found_indices(o.pane(side).entries@, lowercase(query));
    if ms.len() == 0 {
        &&& n.find_state is None
        &&& n.message matches Some(m) && m.text@ == "「"@ + query + "」は見つかりませんでした"@
            && m.level == MessageLevel::Warning && m.created_at == now
        &&& n == (App { find_state: None, message: n.message, ..o })
    } else {
        &&& n.find_state matches Some(f) && f.query@ == query && f.matches@ == ms && f.current == 0
        &&& n.pane(side) == (PaneState { cursor: ms[0], ..o.pane(side) })
        &&& n.pane(other_side(side)) == o.pane(other_side(side))
        &&& n.message matches Some(m) && m.text@ == decimal(ms.len()) + "件見つかりました (1/"@ + decimal(ms.len()) + ")"@
            && m.level == MessageLevel::Info && m.created_at == now
        &&& n == (App {
            find_state: n.find_state,
            message: n.message,
            left_pane: n.left_pane,
            right_pane: n.right_pane,
            ..o
        })
    }
}

/// What the outcome of an executed command line does to the state (after
/// the line went into the history and normal mode was set).
pub open spec fn command_applied(o: App, n: App, res: Result<ActionSpec, ErrorSpec>, r: Request, now: u64) -> bool {
    let side = o.active_pane;
    let p = o.pane(side);
    match res {
        Err(e) => {
            &&& r is Done
            &&& n.message matches Some(m) && m.text@ == crate::error::user_message_of(e)
                && m.level == MessageLevel::Error && m.created_at == now
            &&& n == (App { message: n.message, ..o })
        },
        Ok(a) => match a {
            ActionSpec::ShowHelp(topic) => {
                &&& r is Done
                &&& n.help_state.scroll_offset == 0
                &&& crate::command::executor::opt_view(n.help_state.topic) == topic
                &&& n == (App { mode: AppMode::Help, help_state: n.help_state, ..o })
            },
            ActionSpec::Quit => n == (App { should_quit: true, ..o }) && r is SaveHistory,
            ActionSpec::ChangeDir(path) => n == o && (r matches Request::Navigate { side: s, path: q, focus: None }
                && s == side && q@ == path),
            ActionSpec::SetSort(c) => {
                &&& only_pane(o, n, side)
                &&& n.pane(side) == (PaneState { sort_order: crate::fs::entry::SortOrder { criteria: c, ..p.sort_order }, ..p })
                &&& r == Request::Refresh { left: panes_of(side).0, right: panes_of(side).1, then: Then::Nothing, quiet: false }
            },
            ActionSpec::ToggleHidden => {
                &&& only_pane(o, n, side)
                &&& n.pane(side) == (PaneState { show_hidden: !p.show_hidden, ..p })
                &&& r == Request::Refresh { left: panes_of(side).0, right: panes_of(side).1, then: Then::Nothing, quiet: false }
            },
            ActionSpec::Shell(_) => n == o && r is Done,
            ActionSpec::CreateDir(name) => n == o && (r matches Request::Operate(FileOp::CreateDir { dir, name: m })
                && dir == p.current_dir && m@ == name),
            ActionSpec::CreateFile(name) => n == o && (r matches Request::Operate(FileOp::CreateFile { dir, name: m })
                && dir == p.current_dir && m@ == name),
            ActionSpec::Bookmark(_) => {
                &&& r is Done
                &&& n.message matches Some(m) && m.text@ == "ブックマーク追加"@ && m.level == MessageLevel::Info
                    && m.created_at == now
                &&& n == (App { message: n.message, ..o })
            },
            ActionSpec::Find(q) => r is Done && find_applied(o, n, q, now),
        },
    }
}

impl App {
    /// Searches the active pane's names for `query`, ignoring case.
    pub fn execute_find(&mut self, query: String, now: u64)
        requires
            old(self).wf(),
        ensures
            final(self).wf(),
            find_applied(*old(self), *final(self), query@, now),
    {
        let q = crate::text::to_lowercase(query.as_str());
        let mut matches: Vec<usize> = Vec::new();
        let mut i: usize = 0;
        let entries = &self.active_pane_ref().entries;
        assert(entries@.take(0) =~= Seq::<FileEntry>::empty());
        while i < entries.len()
            invariant
                i <= entries@.len(),
                matches@ == found_indices(entries@.take(i as int), q@),
                q@ == lowercase(query@),
                forall|k: int| 0 <= k < matches@.len() ==> matches@[k] < i,
            decreases entries@.len() - i,
        {
            let e = &entries[i];
            assert(entries@.take(i + 1).drop_last() =~= entries@.take(i as int));
            if !is_dot(e.name.as_str()) {
                let low = crate::text::to_lowercase(e.name.as_str());
                if crate::text::contains_str(low.as_str(), q.as_str()) {
                    matches.push(i);
                }
            }
            i += 1;
        }
        assert(entries@.take(entries@.len() as int) =~= entries@);
        if matches.len() == 0 {
            self.find_state = None;
            let mut s = String::new();
            push_str(&mut s, "「");
            push_str(&mut s, query.as_str());
            push_str(&mut s, "」は見つかりませんでした");
            self.show_message(s, MessageLevel::Warning, now);
        } else {
            let first = matches[0];
            let total = matches.len();
            self.find_state = Some(FindState { query, matches, current: 0 });
            self.set_active_cursor(first);
            let mut s = String::new();
            push_decimal(&mut s, total as u64);
            push_str(&mut s, "件見つかりました (1/");
            push_decimal(&mut s, total as u64);
            push_str(&mut s, ")");
            self.show_message(s, MessageLevel::Info, now);
        }
    }

    /// Carries out the outcome of an executed command line.
    pub fn apply_command_result(&mut self, result: Result<CommandAction, AppError>, now: u64) -> (r: Request)
        requires
            old(self).wf(),
        ensures
            final(self).wf(),
            command_applied(*old(self), *final(self), result_view(result), r, now),
    {
        let side = self.active_pane;
        match result {
            Err(e) => {
                self.report_error(e, now);
                Request::Done
            },
            Ok(CommandAction::ShowHelp(topic)) => {
                self.help_state = HelpState { scroll_offset: 0, topic };
                self.mode = AppMode::Help;
                Request::Done
            },
            Ok(CommandAction::Quit) => self.quit(),
            Ok(CommandAction::ChangeDir(path)) => Request::Navigate { side, path, focus: None },
            Ok(CommandAction::SetSort(c)) => {
                match side {
                    PaneSide::Left => self.left_pane.sort_order.criteria = c,
                    PaneSide::Right => self.right_pane.sort_order.criteria = c,
                }
                Self::refresh_request(side)
            },
            Ok(CommandAction::ToggleHidden) => {
                match side {
                    PaneSide::Left => self.left_pane.show_hidden = !self.left_pane.show_hidden,
                    PaneSide::Right => self.right_pane.show_hidden = !self.right_pane.show_hidden,
                }
                Self::refresh_request(side)
            },
            Ok(CommandAction::Shell(_)) => Request::Done,
            Ok(CommandAction::CreateDir(name)) => self.execute_create(name, true),
            Ok(CommandAction::CreateFile(name)) => self.execute_create(name, false),
            Ok(CommandAction::Bookmark(_)) => {
                self.show_message("ブックマーク追加".to_owned(), MessageLevel::Info, now);
                Request::Done
            },
            Ok(CommandAction::Find(q)) => {
                self.execute_find(q, now);
                Request::Done
            },
        }
    }

    /// Executes the command line: records it in the history, goes back to
    /// normal mode, and carries out what it asks for. The home directory
    /// is looked up only for a `cd ~...`; the outcome is then that of the
    /// command with whatever the lookup gave.
    pub fn command_execute(&mut self, now: u64) -> (r: Request)
        requires
            old(self).wf(),
        ensures
            final(self).wf(),
            command_execute_effect(*old(self), *final(self), now, r),

    {
        let input = self.command_state.input.clone();
        let _count = self.command_state.history.len();
        self.command_state.history.push(input.as_str());
        proof {
            lemma_pushed_len(old(self).command_state.history@, input@);
        }
        self.mode = AppMode::Normal;
        let parsed = parse(input.as_str());
        let dir = self.active_pane_ref().current_dir.clone();
        let result = execute(&parsed, dir.as_str());
        self.apply_command_result(result, now)
    }
}

/// Recording a command never shortens a history of at most the maximum
/// size.
pub proof fn lemma_pushed_len(h: Seq<Seq<char>>, command: Seq<char>)
    requires
        h.len() <= crate::command::history::MAX_HISTORY_SIZE,
    ensures
        pushed(h, command).len() >= h.len(),
{
}


/// The command line after choosing the next completion candidate: the
/// candidate replaces the argument (the text after the first space), or
/// the whole line when there is no space; the cursor goes to the end.
pub open spec fn completion_chosen(o: CommandState, n: CommandState) -> bool {
    let len = o.completions@.len();
    let idx: int = match o.completion_index {
        None => 0,
        Some(i) => (i + 1) % (len as int),
    };
    let c = o.completions@[idx]@;
    let k = crate::text::until_char(o.input@, ' ');
    let line = if k < o.input@.len() {
        o.input@.take(k as int) + " "@ + c
    } else {
        c
    };
    &&& n.completion_index == Some(idx as usize)
    &&& n.input@ == line
    &&& n.cursor_pos == byte_len(line)
    &&& n.completions == o.completions
    &&& n.history == o.history
    &&& n.history_index == o.history_index
    &&& n.saved_input == o.saved_input
}

impl App {
    /// Puts the next completion candidate on the command line.
    fn choose_completion(&mut self)
        requires
            old(self).wf(),
            old(self).command_state.completions@.len() > 0,
        ensures
            final(self).wf(),
            completion_chosen(old(self).command_state, final(self).command_state),
            *final(self) == (App { command_state: final(self).command_state, ..*old(self) }),
    {
        let len = self.command_state.completions.len();
        let idx = match self.command_state.completion_index {
            None => 0,
            Some(i) => (i + 1) % len,
        };
        self.command_state.completion_index = Some(idx);
        let completion = self.command_state.completions[idx].clone();
        let v = crate::text::chars_of(self.command_state.input.as_str());
        let k = crate::text::find_char(&v, ' ');
        let line = if k < v.len() {
            let mut s = crate::text::string_of_range(&v, 0, k);
            push_char(&mut s, ' ');
            push_str(&mut s, completion.as_str());
            proof {
                reveal_strlit(" ");
            }
            assert(s@ =~= self.command_state.input@.take(k as int) + " "@ + completion@);
            s
        } else {
            completion
        };
        let end = byte_length(line.as_str());
        proof {
            lemma_end_boundary(line@);
        }
        self.command_state.input = line;
        self.command_state.cursor_pos = end;
    }

    /// Tab on the command line: the next candidate, working the candidates
    /// out first when there are none; a path argument asks for a directory
    /// listing first.
    pub fn command_complete(&mut self) -> (r: Request)
        requires
            old(self).wf(),
        ensures
            final(self).wf(),
            command_complete_effect(*old(self), *final(self), r),

    {
        if self.command_state.completions.len() > 0 {
            self.choose_completion();
            return Request::Done;
        }
        let dir = self.active_pane_ref().current_dir.clone();
        match complete(self.command_state.input.as_str(), dir.as_str()) {
            Completion::ListDir { dir, prefix, dirs_only } => Request::ListForCompletion { dir, prefix, dirs_only },
            Completion::Candidates(v) => {
                self.command_state.completions = v;
                self.command_state.completion_index = None;
                if self.command_state.completions.len() > 0 {
                    self.choose_completion();
                }
                Request::Done
            },
        }
    }

    /// With the directory listed for completion: offers the names that fit
    /// and puts the first on the command line.
    pub fn completion_listed(&mut self, entries: Vec<(String, bool)>, prefix: String, dirs_only: bool)
        requires
            old(self).wf(),
        ensures
            final(self).wf(),
            *final(self) == (App { command_state: final(self).command_state, ..*old(self) }),
            ({
                let v = listed(entry_views(entries@), prefix@, dirs_only);
                let listed_state = CommandState {
                    completions: final(self).command_state.completions,
                    completion_index: None,
                    ..old(self).command_state
                };
                &&& string_views(final(self).command_state.completions@) == v
                &&& v.len() == 0 ==> final(self).command_state == listed_state
                &&& v.len() > 0 ==> completion_chosen(listed_state, final(self).command_state)
            }),
    {
        self.command_state.completions = complete_from_dir(&entries, prefix.as_str(), dirs_only);
        self.command_state.completion_index = None;
        if self.command_state.completions.len() > 0 {
            self.choose_completion();
        }
    }
}


/// Whether an action's arithmetic stays within its integer types in this
/// state, as the computations need.
pub open spec fn action_fits(o: App, a: Action) -> bool {
    match a {
        Action::MoveCursor(d) => move_fits(o.pane(o.active_pane), d),
        Action::ToggleMark => move_fits(o.pane(o.active_pane), 1),
        Action::HelpScroll(d) => o.help_state.scroll_offset <= i32::MAX && o.help_state.scroll_offset + d <= i32::MAX,
        Action::BranchListMoveCursor(d) => branch_move_fits(o.dialog, d),
        _ => true,
    }
}

/// Whether a cursor at `cursor` moved by `delta` stays within `i32`.
fn offset_fits(cursor: usize, delta: i32) -> (r: bool)
    ensures
        r == (cursor <= i32::MAX && i32::MIN <= cursor + delta <= i32::MAX),
{
    if cursor > i32::MAX as usize {
        return false;
    }
    let moved = cursor as i64 + delta as i64;
    i32::MIN as i64 <= moved && moved <= i32::MAX as i64
}

impl App {
    /// Whether `apply_action` can take `action` now: the command line and
    /// the dialog's input have room for another character, and a cursor
    /// or scroll move stays within the range of `i32`.
    pub fn accepts(&self, action: &Action) -> (r: bool)
        ensures
            r == (self.room() && action_fits(*self, *action)),
    {
        let input_len = byte_length(self.command_state.input.as_str());
        if input_len > usize::MAX - 4 {
            return false;
        }
        match &self.dialog {
            Some(DialogState::Input { value, .. }) => {
                if byte_length(value.as_str()) > usize::MAX - 4 {
                    return false;
                }
            },
            _ => {},
        }
        let pane = self.active_pane_ref();
        match action {
            Action::MoveCursor(d) => offset_fits(pane.cursor, *d) && pane.max_cursor() <= i32::MAX as usize,
            Action::ToggleMark => offset_fits(pane.cursor, 1) && pane.max_cursor() <= i32::MAX as usize,
            Action::HelpScroll(d) => {
                let o = self.help_state.scroll_offset;
                o <= i32::MAX as usize && (o as i64 + *d as i64) <= i32::MAX as i64
            },
            Action::BranchListMoveCursor(d) => match &self.dialog {
                Some(DialogState::BranchList { branches, cursor, .. }) => offset_fits(*cursor, *d)
                    && branches.len() <= i32::MAX as usize,
                _ => true,
            },
            _ => true,
        }
    }
}

/// What applying an action does: the effect of the step it stands for.
pub open spec fn stepped(o: App, n: App, a: Action, r: Request, now: u64) -> bool {
    let dir = o.pane(o.active_pane).current_dir;
    match a {
        Action::Noop | Action::ShowSortMenu | Action::ShowFileInfo => n == o && r is Done,
        Action::MoveCursor(d) => move_cursor_effect(o, n, d) && r is Done,
        Action::Enter => handle_enter_effect(o, n, r),
        Action::ParentDirectory => parent_directory_effect(o, n, r),
        Action::GoHome => go_home_effect(o, n, now, r),
        Action::JumpTop => jump_top_effect(o, n) && r is Done,
        Action::JumpBottom => jump_bottom_effect(o, n) && r is Done,
        Action::SwitchPane => switch_pane_effect(o, n) && r is Done,
        Action::ActivatePane(s) => activate_pane_effect(o, n, s) && r is Done,
        Action::CopyFiles => transfer_effect(o, n, false, r),
        Action::MoveFiles => transfer_effect(o, n, true, r),
        Action::RequestDelete => request_delete_effect(o, n, r),
        Action::ExecuteDelete => execute_delete_effect(o, n, r),
        Action::RequestRename => request_rename_effect(o, n, r),
        Action::ExecuteRename(name) => execute_rename_effect(o, n, name, r),
        Action::RequestCreateDir => exists|t: String| t@ == "新規フォルダ"@ && #[trigger] request_create_effect(o, n, t, PendingInputAction::CreateDir, r),
        Action::ExecuteCreateDir(name) => execute_create_effect(o, n, name, true, r),
        Action::RequestCreateFile => exists|t: String| t@ == "新規ファイル"@ && #[trigger] request_create_effect(o, n, t, PendingInputAction::CreateFile, r),
        Action::ExecuteCreateFile(name) => execute_create_effect(o, n, name, false, r),
        Action::RequestChmod => request_chmod_effect(o, n, r),
        Action::ToggleMark => toggle_mark_and_move_effect(o, n) && r is Done,
        Action::ToggleMarkAll => toggle_mark_all_effect(o, n) && r is Done,
        Action::ToggleHidden => toggle_hidden_effect(o, n, r),
        Action::SetSort(c) => set_sort_effect(o, n, c, r),
        Action::Refresh => refresh_all_effect(o, n, r),
        Action::EnterCommandMode => enter_command_mode_effect(o, n) && r is Done,
        Action::ExitCommandMode | Action::ExitHelp => exit_to_normal_effect(o, n) && r is Done,
        Action::EnterHelp(topic) => enter_help_effect(o, n, topic) && r is Done,
        Action::CommandInput(c) => command_input_effect(o, n, c) && r is Done,
        Action::CommandBackspace => command_backspace_effect(o, n) && r is Done,
        Action::CommandExecute => command_execute_effect(o, n, now, r),
        Action::CommandComplete => command_complete_effect(o, n, r),
        Action::CommandHistoryPrev => command_history_prev_effect(o, n) && r is Done,
        Action::CommandHistoryNext => command_history_next_effect(o, n) && r is Done,
        Action::HelpScroll(d) => help_scroll_effect(o, n, d) && r is Done,
        Action::ShowConfirmDialog { title, message } => show_confirm_dialog_effect(o, n, title, message) && r is Done,
        Action::DialogConfirm => dialog_confirm_effect(o, n, now, r),
        Action::DialogCancel => dialog_cancel_effect(o, n) && r is Done,
        Action::DialogInput(c) => dialog_input_effect(o, n, c) && r is Done,
        Action::DialogBackspace => dialog_backspace_effect(o, n) && r is Done,
        Action::DialogCursorLeft => dialog_cursor_left_effect(o, n) && r is Done,
        Action::DialogCursorRight => dialog_cursor_right_effect(o, n) && r is Done,
        Action::DialogHome => dialog_home_effect(o, n) && r is Done,
        Action::DialogEnd => dialog_end_effect(o, n) && r is Done,
        Action::GitPull => n == o && r == Request::GitPull(dir),
        Action::GitCheckout => n == o && r == Request::GitCheckRepo(dir),
        Action::GitBranchList => n == o && r == Request::GitBranches(dir),
        Action::BranchListMoveCursor(d) => branch_list_move_cursor_effect(o, n, d) && r is Done,
        Action::BranchListStartSearch => branch_list_start_search_effect(o, n) && r is Done,
        Action::BranchListSearchInput(c) => branch_list_search_input_effect(o, n, c) && r is Done,
        Action::BranchListSearchBackspace => branch_list_search_backspace_effect(o, n) && r is Done,
        Action::BranchListSearchEnter => branch_list_search_enter_effect(o, n) && r is Done,
        Action::BranchListSearchCancel => branch_list_search_cancel_effect(o, n) && r is Done,
        Action::FindNext => find_step_effect(o, n, true, now) && r is Done,
        Action::FindPrev => find_step_effect(o, n, false, now) && r is Done,
        Action::Quit => quit_effect(o, n, r),
        Action::ShowMessage(text, level) => show_message_effect(o, n, text, level, now) && r is Done,
        Action::DismissWelcome => dismiss_welcome_effect(o, n) && r is Done,
    }
}

impl App {
    /// Applies an action at time `now`, answering with the outside work it
    /// needs.
    pub fn apply_action(&mut self, action: Action, now: u64) -> (r: Request)
        requires
            old(self).wf(),
            old(self).room(),
            action_fits(*old(self), action),
        ensures
            final(self).wf(),
            stepped(*old(self), *final(self), action, r, now),
    {
        match action {
            Action::Noop | Action::ShowSortMenu | Action::ShowFileInfo => Request::Done,
            Action::MoveCursor(d) => {
                self.move_cursor(d);
                Request::Done
            },
            Action::Enter => self.handle_enter(),
            Action::ParentDirectory => self.parent_directory(),
            Action::GoHome => self.go_home(now),
            Action::JumpTop => {
                self.jump_top();
                Request::Done
            },
            Action::JumpBottom => {
                self.jump_bottom();
                Request::Done
            },
            Action::SwitchPane => {
                self.switch_pane();
                Request::Done
            },
            Action::ActivatePane(s) => {
                self.activate_pane(s);
                Request::Done
            },
            Action::CopyFiles => self.transfer(false),
            Action::MoveFiles => self.transfer(true),
            Action::RequestDelete => self.request_delete(),
            Action::ExecuteDelete => self.execute_delete(),
            Action::RequestRename => self.request_rename(),
            Action::ExecuteRename(name) => self.execute_rename(name),
            Action::RequestCreateDir => self.request_create("新規フォルダ".to_owned(), PendingInputAction::CreateDir),
            Action::ExecuteCreateDir(name) => self.execute_create(name, true),
            Action::RequestCreateFile => self.request_create("新規ファイル".to_owned(), PendingInputAction::CreateFile),
            Action::ExecuteCreateFile(name) => self.execute_create(name, false),
            Action::RequestChmod => self.request_chmod(),
            Action::ToggleMark => {
                self.toggle_mark_and_move();
                Request::Done
            },
            Action::ToggleMarkAll => {
                self.toggle_mark_all();
                Request::Done
            },
            Action::ToggleHidden => self.toggle_hidden(),
            Action::SetSort(c) => self.set_sort(c),
            Action::Refresh => self.refresh_all(),
            Action::EnterCommandMode => {
                self.enter_command_mode();
                Request::Done
            },
            Action::ExitCommandMode | Action::ExitHelp => {
                self.exit_to_normal();
                Request::Done
            },
            Action::EnterHelp(topic) => {
                self.enter_help(topic);
                Request::Done
            },
            Action::CommandInput(c) => {
                self.command_input(c);
                Request::Done
            },
            Action::CommandBackspace => {
                self.command_backspace();
                Request::Done
            },
            Action::CommandExecute => self.command_execute(now),
            Action::CommandComplete => self.command_complete(),
            Action::CommandHistoryPrev => {
                self.command_history_prev();
                Request::Done
            },
            Action::CommandHistoryNext => {
                self.command_history_next();
                Request::Done
            },
            Action::HelpScroll(d) => {
                self.help_scroll(d);
                Request::Done
            },
            Action::ShowConfirmDialog { title, message } => {
                self.show_confirm_dialog(title, message);
                Request::Done
            },
            Action::DialogConfirm => self.dialog_confirm(now),
            Action::DialogCancel => {
                self.dialog_cancel();
                Request::Done
            },
            Action::DialogInput(c) => {
                self.dialog_input(c);
                Request::Done
            },
            Action::DialogBackspace => {
                self.dialog_backspace();
                Request::Done
            },
            Action::DialogCursorLeft => {
                self.dialog_cursor_left();
                Request::Done
            },
            Action::DialogCursorRight => {
                self.dialog_cursor_right();
                Request::Done
            },
            Action::DialogHome => {
                self.dialog_home();
                Request::Done
            },
            Action::DialogEnd => {
                self.dialog_end();
                Request::Done
            },
            Action::GitPull => Request::GitPull(self.active_pane_ref().current_dir.clone()),
            Action::GitCheckout => Request::GitCheckRepo(self.active_pane_ref().current_dir.clone()),
            Action::GitBranchList => Request::GitBranches(self.active_pane_ref().current_dir.clone()),
            Action::BranchListMoveCursor(d) => {
                self.branch_list_move_cursor(d);
                Request::Done
            },
            Action::BranchListStartSearch => {
                self.branch_list_start_search();
                Request::Done
            },
            Action::BranchListSearchInput(c) => {
                self.branch_list_search_input(c);
                Request::Done
            },
            Action::BranchListSearchBackspace => {
                self.branch_list_search_backspace();
                Request::Done
            },
            Action::BranchListSearchEnter => {
                self.branch_list_search_enter();
                Request::Done
            },
            Action::BranchListSearchCancel => {
                self.branch_list_search_cancel();
                Request::Done
            },
            Action::FindNext => {
                self.find_step(true, now);
                Request::Done
            },
            Action::FindPrev => {
                self.find_step(false, now);
                Request::Done
            },
            Action::Quit => self.quit(),
            Action::ShowMessage(text, level) => {
                self.show_message(text, level, now);
                Request::Done
            },
            Action::DismissWelcome => {
                self.dismiss_welcome();
                Request::Done
            },
        }
    }
}


/// The character index of a boundary is within the text.
proof fn lemma_char_index_range(s: Seq<char>, pos: int)
    requires
        is_boundary(s, pos),
    ensures
        0 <= char_index(s, pos) <= s.len(),
        byte_len(s.take(char_index(s, pos))) == pos,
{
}

/// Each pane's cursor is on one of its entries (or at 0 when it has none).
pub open spec fn cursors_in_range(app: App) -> bool {
    &&& app.left_pane.cursor <= app.left_pane.spec_max_cursor()
    &&& app.right_pane.cursor <= app.right_pane.spec_max_cursor()
}

/// The positions a search found are entries of the active pane.
pub open spec fn find_in_range(app: App) -> bool {
    app.find_state matches Some(f) ==> forall|i: int|
        0 <= i < f.matches@.len() ==> #[trigger] f.matches@[i] < app.pane(app.active_pane).entries@.len()
}

/// Deleting a character of the branch search changes the dialog alone.
proof fn lemma_search_backspace_frame(o: App, n: App)
    requires
        branch_list_search_backspace_effect(o, n),
    ensures
        n == (App { dialog: n.dialog, ..o }),
{
    match search_text(o.dialog) {
        Some(t) => if t.len() > 0 {
            assert(n == (App { dialog: n.dialog, ..o }));
        } else {
            assert(t =~= Seq::<char>::empty());
            assert(n == o);
        },
        None => {
            assert(n == o);
        },
    }
}

/// The positions a search finds are positions of the entries searched.
proof fn lemma_found_indices_bound(s: Seq<FileEntry>, q: Seq<char>)
    requires
        s.len() <= usize::MAX,
    ensures
        forall|i: int| 0 <= i < found_indices(s, q).len() ==> #[trigger] found_indices(s, q)[i] < s.len(),
    decreases s.len(),
{
    if s.len() > 0 {
        let prev = found_indices(s.drop_last(), q);
        lemma_found_indices_bound(s.drop_last(), q);
        assert forall|i: int| 0 <= i < found_indices(s, q).len() implies #[trigger] found_indices(s, q)[i]
            < s.len() by {
            if i < prev.len() {
                assert(found_indices(s, q)[i] == prev[i]);
            }
        }
    }
}

/// Every action keeps each pane's cursor on one of its entries, and the
/// positions of a search on entries of the active pane. (A listing read
/// again while a search is active can leave its positions past the end;
/// that state is left out.)
pub proof fn lemma_actions_keep_cursors(o: App, n: App, a: Action, r: Request, now: u64)
    requires
        o.wf(),
        cursors_in_range(o),
        find_in_range(o),
        stepped(o, n, a, r, now),
    ensures
        cursors_in_range(n),
        find_in_range(n),
{
    match a {
        Action::CommandExecute => {
            let es = o.pane(o.active_pane).entries@;
            assert(es.len() <= usize::MAX) by {
                match o.active_pane {
                    PaneSide::Left => assert(o.left_pane.entries.len() <= usize::MAX),
                    PaneSide::Right => assert(o.right_pane.entries.len() <= usize::MAX),
                }
            }
            assert forall|q: Seq<char>| forall|i: int|
                0 <= i < #[trigger] found_indices(es, q).len() ==> found_indices(es, q)[i] < es.len() by {
                lemma_found_indices_bound(es, q);
            }
            assert(cursors_in_range(n));
            assert(find_in_range(n));
        },
        Action::BranchListSearchBackspace => {
            lemma_search_backspace_frame(o, n);
        },
        _ => {},
    }
}

/// The mode transitions: `:` in normal mode opens the command line; leaving
/// the command line or the help screen returns to normal mode; executing a
/// command line leads to normal mode or, for `:help`, the help screen;
/// confirming or cancelling a dialog closes it and returns to normal mode.
pub proof fn lemma_mode_transitions(o: App, n: App, a: Action, r: Request, now: u64)
    requires
        stepped(o, n, a, r, now),
    ensures
        (a is EnterCommandMode && o.mode == AppMode::Normal) ==> n.mode == AppMode::Command,
        (a is ExitCommandMode || a is ExitHelp) ==> n.mode == AppMode::Normal,
        a is CommandExecute ==> (n.mode == AppMode::Normal || n.mode == AppMode::Help),
        (a is DialogConfirm || a is DialogCancel) ==> (n.mode == AppMode::Normal && n.dialog is None),
{
}

/// Typing a character into the input dialog and deleting it again gives
/// back the text and the cursor.
pub proof fn lemma_dialog_type_then_delete(a: App, b: App, c: App, ch: char)
    requires
        a.wf(),
        is_input(a.dialog),
        dialog_input_effect(a, b, ch),
        dialog_backspace_effect(b, c),
    ensures
        is_input(c.dialog),
        input_text(c.dialog) == input_text(a.dialog),
        input_cursor(c.dialog) == input_cursor(a.dialog),
{
    let t = input_text(a.dialog);
    let i = input_cursor(a.dialog);
    match a.dialog {
        Some(DialogState::Input { value, cursor_pos, .. }) => {
            lemma_char_index_range(value@, cursor_pos as int);
        },
        _ => {},
    }
    assert(t.insert(i, ch).remove(i) =~= t);
}

/// Typing a character on the command line and deleting it again gives
/// back the text and the cursor.
pub proof fn lemma_command_type_then_delete(a: App, b: App, c: App, ch: char)
    requires
        a.wf(),
        command_input_effect(a, b, ch),
        command_backspace_effect(b, c),
    ensures
        c.command_state.input@ == a.command_state.input@,
        char_index(c.command_state.input@, c.command_state.cursor_pos as int)
            == char_index(a.command_state.input@, a.command_state.cursor_pos as int),
{
    let t = a.command_state.input@;
    let i = char_index(t, a.command_state.cursor_pos as int);
    lemma_char_index_range(t, a.command_state.cursor_pos as int);
    assert(b.command_state.input@ == t.insert(i, ch));
    assert(b.command_state.input@.len() > 0);
    let j = char_index(b.command_state.input@, b.command_state.cursor_pos as int);
    assert(j == i + 1);
    if b.command_state.cursor_pos == 0 {
        lemma_start_boundary(b.command_state.input@);
        assert(false);
    }
    assert(t.insert(i, ch).remove(i) =~= t);
}

/// Going one entry back in the history and one forward again, starting
/// from the typed line, gives back the typed line.
pub proof fn lemma_history_back_and_forth(a: App, b: App, c: App)
    requires
        a.command_state.history_index is None,
        a.command_state.history@.len() > 0,
        command_history_prev_effect(a, b),
        command_history_next_effect(b, c),
    ensures
        c.command_state.input@ == a.command_state.input@,
        c.command_state.history_index is None,
        c.command_state.saved_input is None,
{
}

/// Going to the next search match and back to the previous one returns to
/// the match and cursor position the search was on.
pub proof fn lemma_find_next_then_prev(a: App, b: App, c: App, t1: u64, t2: u64)
    requires
        a.wf(),
        a.find_state matches Some(f) && f.matches@.len() > 0,
        find_step_effect(a, b, true, t1),
        find_step_effect(b, c, false, t2),
    ensures
        c.find_state matches Some(g) && g.current == a.find_state->Some_0.current,
        c.pane(a.active_pane).cursor == a.find_state->Some_0.matches@[a.find_state->Some_0.current as int],
        c.active_pane == a.active_pane,
{
    let f = a.find_state->Some_0;
    let n = f.matches@.len() as int;
    let k = f.current as int;
    assert((k + 1) % n == if k + 1 < n { k + 1 } else { 0 }) by (nonlinear_arith)
        requires
            0 <= k < n,
    ;
}

/// The octal text of a number has only octal digits and reads back as the
/// number.
proof fn lemma_octal_reads_back(m: nat)
    ensures
        octal(m).len() > 0,
        forall|i: int| 0 <= i < octal(m).len() ==> is_octal_digit(#[trigger] octal(m)[i]),
        octal_num(octal(m)) == m,
    decreases m,
{
    let d = m % 8;
    assert(crate::text::digit_char(d) as nat == 48 + d);
    if m < 8 {
        let s = octal(m);
        assert(s.drop_last() =~= Seq::<char>::empty());
        assert(s.last() == crate::text::digit_char(m));
        assert(crate::text::digit_char(m) as nat == 48 + m);
        assert(octal_num(s) == octal_num(s.drop_last()) * 8 + (s.last() as nat - 48) as nat);
    } else {
        assert(m == (m / 8) * 8 + m % 8) by (nonlinear_arith);
        lemma_octal_reads_back(m / 8);
        let p = octal(m / 8);
        let s = octal(m);
        assert(s == p.push(crate::text::digit_char(m % 8)));
        assert(s.drop_last() =~= p);
        assert(s.last() == crate::text::digit_char(d));
        assert(octal_num(s) == octal_num(p) * 8 + (s.last() as nat - 48) as nat);
        assert forall|i: int| 0 <= i < s.len() implies is_octal_digit(#[trigger] s[i]) by {
            if i < p.len() {
                assert(s[i] == p[i]);
            }
        }
    }
}

/// Octal digits are no whitespace, so trimming keeps them.
proof fn lemma_trim_digits(s: Seq<char>)
    requires
        s.len() > 0,
        forall|i: int| 0 <= i < s.len() ==> is_octal_digit(#[trigger] s[i]),
    ensures
        trim(s) == s,
{
    crate::text::lemma_run_len(s, true, 0);
    assert(s.skip(0) =~= s);
    crate::text::lemma_tail_ws_len(s, 0);
    assert(s.take(s.len() as int) =~= s);
}

/// The permission text the chmod dialog starts with reads back as the
/// permission bits it shows.
pub proof fn lemma_permission_round_trip(m: nat)
    requires
        m <= 0o7777,
    ensures
        permission_value(octal(m)) == Some(m),
{
    lemma_octal_reads_back(m);
    lemma_trim_digits(octal(m));
    assert(octal(m)[0] != '+');
}

/// Moving the branch list's cursor keeps it on a row (when there are rows)
/// and among the fifteen rows shown.
pub proof fn lemma_branch_cursor_shown(cursor: int, scroll: int, delta: int, len: int)
    requires
        len > 0,
        0 <= scroll,
    ensures
        0 <= branch_cursor_moved(cursor, scroll, delta, len).0 < len,
        branch_cursor_moved(cursor, scroll, delta, len).1 <= branch_cursor_moved(cursor, scroll, delta, len).0,
        branch_cursor_moved(cursor, scroll, delta, len).0 < branch_cursor_moved(cursor, scroll, delta, len).1 + 15,
{
}

/// The positions a search finds are exactly those of the entries it
/// finds.
proof fn lemma_found_indices_exact(s: Seq<FileEntry>, q: Seq<char>)
    requires
        s.len() <= usize::MAX,
    ensures
        forall|i: int| 0 <= i < s.len() ==> (found_indices(s, q).contains(i as usize) <==> found_by(
            #[trigger] s[i],
            q,
        )),
    decreases s.len(),
{
    if s.len() > 0 {
        let prev = found_indices(s.drop_last(), q);
        lemma_found_indices_exact(s.drop_last(), q);
        lemma_found_indices_bound(s.drop_last(), q);
        assert forall|i: int| 0 <= i < s.len() implies (found_indices(s, q).contains(i as usize)
            <==> found_by(#[trigger] s[i], q)) by {
            if i < s.len() - 1 {
                assert(s.drop_last()[i] == s[i]);
                if found_by(s.last(), q) {
                    if found_indices(s, q).contains(i as usize) {
                        let k = choose|k: int| 0 <= k < found_indices(s, q).len() && found_indices(s, q)[k] == i as usize;
                        if k < prev.len() {
                            assert(prev.contains(i as usize));
                        }
                    }
                    if prev.contains(i as usize) {
                        let k = choose|k: int| 0 <= k < prev.len() && prev[k] == i as usize;
                        assert(found_indices(s, q)[k] == i as usize);
                    }
                }
            } else {
                if found_by(s.last(), q) {
                    assert(found_indices(s, q)[prev.len() as int] == i as usize);
                } else {
                    if prev.contains(i as usize) {
                        let k = choose|k: int| 0 <= k < prev.len() && prev[k] == i as usize;
                        assert(prev[k] < s.len() - 1);
                    }
                }
            }
        }
    }
}

/// Search ignores letter case on both sides: two entries whose names have
/// the same lowercase form are found or missed together, by any two
/// queries with the same lowercase form; an entry is found exactly when it
/// is not `.` or `..` and its lowercased name contains the lowercased
/// query.
pub proof fn lemma_find_ignores_case(e: FileEntry, f: FileEntry, q: Seq<char>, q2: Seq<char>)
    requires
        lowercase(e.name@) == lowercase(f.name@),
        is_dot_name(e.name@) == is_dot_name(f.name@),
        lowercase(q) == lowercase(q2),
    ensures
        found_by(e, lowercase(q)) == found_by(f, lowercase(q2)),
        found_by(e, lowercase(q)) <==> (!is_dot_name(e.name@) && has_infix(lowercase(e.name@), lowercase(q))),
{
}

/// After `:find q` the search holds exactly the positions of the entries
/// of the active pane found by `q` (with the cursor on the first), and the
/// search is forgotten exactly when none is found.
pub proof fn lemma_find_results(o: App, n: App, q: Seq<char>, now: u64)
    requires
        find_applied(o, n, q, now),
    ensures
        ({
            let es = o.pane(o.active_pane).entries@;
            &&& n.find_state is None <==> (forall|i: int| 0 <= i < es.len() ==> !found_by(#[trigger] es[i], lowercase(q)))
            &&& n.find_state matches Some(f) ==> {
                &&& forall|i: int| 0 <= i < es.len() ==> (f.matches@.contains(i as usize) <==> found_by(#[trigger] es[i], lowercase(q)))
                &&& n.pane(o.active_pane).cursor == f.matches@[0]
                &&& found_by(es[f.matches@[0] as int], lowercase(q))
            }
        }),
{
    let es = o.pane(o.active_pane).entries@;
    assert(es.len() <= usize::MAX) by {
        match o.active_pane {
            PaneSide::Left => assert(o.left_pane.entries.len() <= usize::MAX),
            PaneSide::Right => assert(o.right_pane.entries.len() <= usize::MAX),
        }
    }
    let lq = lowercase(q);
    lemma_found_indices_exact(es, lq);
    lemma_found_indices_bound(es, lq);
    let ms = found_indices(es, lq);
    if ms.len() > 0 {
        let i = ms[0] as int;
        assert(ms.contains(ms[0]));
        assert(found_by(es[i], lq));
    } else {
        assert forall|i: int| 0 <= i < es.len() implies !found_by(#[trigger] es[i], lq) by {
            if found_by(es[i], lq) {
                assert(ms.contains(i as usize));
            }
        }
    }
}

} // verus!
