use mdir::app::{Action, App, DialogState, FileOp, MessageLevel, PaneSide, Request, Then, TimedMessage, permission_bits};
use mdir::command::history::CommandHistory;
use mdir::error::AppError;
use mdir::event::{handle_function_bar_click, handle_key, handle_normal_key, kana_to_normal_action, KeyCode};
use mdir::fs::entry::{EntryMetadata, FileEntry};
use mdir::fs::PaneState;
use mdir::mode::AppMode;
use mdir::app::auto_refresh_due;

fn file(dir: &str, name: &str, is_dir: bool, mode: u32) -> FileEntry {
    FileEntry::from_dir_entry(EntryMetadata {
        name: name.to_string(),
        path: format!("{}/{}", dir, name),
        is_symlink: false,
        is_dir,
        mode,
        size: 10,
        modified: Some(0),
        created: None,
        symlink_target: None,
    })
}

fn dot(name: &str, path: &str) -> FileEntry {
    FileEntry::create_dot_entry(name, path.to_string(), None, None, Some(0o755))
}

fn setup() -> App {
    let left = PaneState::new("/home/u".to_string(), false, None);
    let right = PaneState::new("/tmp".to_string(), false, None);
    let mut app = App::new(left, right, CommandHistory::empty(), false);
    let listing = vec![
        file("/home/u", "b.txt", false, 0o644),
        file("/home/u", "docs", true, 0o755),
        file("/home/u", "a.txt", false, 0o644),
        file("/home/u", ".env", false, 0o600),
    ];
    app.entered(
        PaneSide::Left,
        "/home/u".to_string(),
        listing,
        dot(".", "/home/u"),
        Some(dot("..", "/home")),
        None,
        None,
    );
    app.entered(PaneSide::Right, "/tmp".to_string(), vec![], dot(".", "/tmp"), Some(dot("..", "/")), None, None);
    app
}

fn names(app: &App) -> Vec<String> {
    app.left_pane.entries.iter().map(|e| e.name.clone()).collect()
}

fn message(app: &App) -> (String, MessageLevel) {
    let m = app.message.as_ref().expect("a message");
    (m.text.clone(), m.level)
}

fn type_command(app: &mut App, line: &str) {
    app.apply_action(Action::EnterCommandMode, 0);
    for c in line.chars() {
        app.apply_action(Action::CommandInput(c), 0);
    }
}

#[test]
fn pane_lists_dot_entries_then_sorted_visible_entries() {
    let app = setup();
    assert_eq!(names(&app), vec![".", "..", "docs", "a.txt", "b.txt"]);
    assert_eq!(app.left_pane.cursor, 1);
    assert_eq!(app.mode, AppMode::Normal);
}

#[test]
fn enter_on_directory_asks_to_navigate() {
    let mut app = setup();
    app.apply_action(Action::MoveCursor(1), 0);
    match app.apply_action(Action::Enter, 0) {
        Request::Navigate { side, path, focus } => {
            assert_eq!(side, PaneSide::Left);
            assert_eq!(path, "/home/u/docs");
            assert!(focus.is_none());
        }
        r => panic!("unexpected {:?}", r),
    }
}

#[test]
fn enter_on_parent_entry_focuses_the_old_directory() {
    let mut app = setup();
    match app.apply_action(Action::Enter, 0) {
        Request::Navigate { path, focus, .. } => {
            assert_eq!(path, "/home");
            assert_eq!(focus, Some("u".to_string()));
        }
        r => panic!("unexpected {:?}", r),
    }
}

#[test]
fn enter_on_file_asks_to_open_it() {
    let mut app = setup();
    app.apply_action(Action::MoveCursor(2), 0);
    match app.apply_action(Action::Enter, 0) {
        Request::Open(p) => assert_eq!(p, "/home/u/a.txt"),
        r => panic!("unexpected {:?}", r),
    }
}

#[test]
fn cursor_stays_within_the_listing() {
    let mut app = setup();
    app.apply_action(Action::MoveCursor(100), 0);
    assert_eq!(app.left_pane.cursor, 4);
    app.apply_action(Action::MoveCursor(-100), 0);
    assert_eq!(app.left_pane.cursor, 0);
    app.apply_action(Action::JumpBottom, 0);
    assert_eq!(app.left_pane.cursor, 4);
    app.apply_action(Action::JumpTop, 0);
    assert_eq!(app.left_pane.cursor, 0);
}

#[test]
fn copy_sends_the_selection_to_the_other_pane() {
    let mut app = setup();
    app.apply_action(Action::MoveCursor(2), 0);
    let op = match app.apply_action(Action::CopyFiles, 0) {
        Request::Operate(op) => op,
        r => panic!("unexpected {:?}", r),
    };
    match &op {
        FileOp::Copy { sources, dest } => {
            assert_eq!(sources, &vec!["/home/u/a.txt".to_string()]);
            assert_eq!(dest, "/tmp");
        }
        o => panic!("unexpected {:?}", o),
    }
    match app.operation_done(op, Ok(1), 5) {
        Request::Refresh { left, right, then, quiet } => {
            assert!(!left);
            assert!(right);
            assert!(!quiet);
            app.refreshed(then, 6);
        }
        r => panic!("unexpected {:?}", r),
    }
    assert_eq!(message(&app), ("1件コピーしました".to_string(), MessageLevel::Success));
}

#[test]
fn copy_with_nothing_selected_does_nothing() {
    let mut app = setup();
    assert!(matches!(app.apply_action(Action::CopyFiles, 0), Request::Done));
    assert!(app.message.is_none());
}

#[test]
fn failed_operation_reports_the_error() {
    let mut app = setup();
    app.apply_action(Action::MoveCursor(2), 0);
    let op = match app.apply_action(Action::MoveFiles, 0) {
        Request::Operate(op) => op,
        r => panic!("unexpected {:?}", r),
    };
    app.operation_done(op, Err(AppError::PermissionDenied("/tmp".to_string())), 5);
    assert_eq!(message(&app), ("E: Permission denied: /tmp".to_string(), MessageLevel::Error));
}

#[test]
fn delete_asks_first_then_trashes() {
    let mut app = setup();
    app.apply_action(Action::MoveCursor(2), 0);
    app.apply_action(Action::RequestDelete, 0);
    assert_eq!(app.mode, AppMode::Dialog);
    match &app.dialog {
        Some(DialogState::Confirm { title, message, focus_yes, .. }) => {
            assert_eq!(title, "削除");
            assert_eq!(message, "「a.txt」を削除しますか？（ゴミ箱へ移動）");
            assert!(!focus_yes);
        }
        d => panic!("unexpected {:?}", d),
    }
    match app.apply_action(Action::DialogConfirm, 0) {
        Request::Operate(FileOp::Trash(paths)) => assert_eq!(paths, vec!["/home/u/a.txt".to_string()]),
        r => panic!("unexpected {:?}", r),
    }
    assert_eq!(app.mode, AppMode::Normal);
    assert!(app.dialog.is_none());
}

#[test]
fn delete_of_marked_entries_counts_them() {
    let mut app = setup();
    app.apply_action(Action::MoveCursor(2), 0);
    app.apply_action(Action::ToggleMark, 0);
    app.apply_action(Action::ToggleMark, 0);
    assert_eq!(app.left_pane.cursor, 4);
    app.apply_action(Action::RequestDelete, 0);
    match &app.dialog {
        Some(DialogState::Confirm { message, .. }) => {
            assert_eq!(message, "2件を削除しますか？（ゴミ箱へ移動）");
        }
        d => panic!("unexpected {:?}", d),
    }
}

#[test]
fn marking_everything_twice_clears_the_marks() {
    let mut app = setup();
    app.apply_action(Action::ToggleMarkAll, 0);
    assert_eq!(app.left_pane.marked.len(), 3);
    app.apply_action(Action::ToggleMarkAll, 0);
    assert_eq!(app.left_pane.marked.len(), 0);
}

#[test]
fn rename_edits_the_name_in_a_dialog() {
    let mut app = setup();
    app.apply_action(Action::MoveCursor(2), 0);
    app.apply_action(Action::RequestRename, 0);
    match &app.dialog {
        Some(DialogState::Input { title, value, cursor_pos, .. }) => {
            assert_eq!(title, "名前変更");
            assert_eq!(value, "a.txt");
            assert_eq!(*cursor_pos, 5);
        }
        d => panic!("unexpected {:?}", d),
    }
    app.apply_action(Action::DialogHome, 0);
    app.apply_action(Action::DialogInput('z'), 0);
    app.apply_action(Action::DialogEnd, 0);
    app.apply_action(Action::DialogBackspace, 0);
    match app.apply_action(Action::DialogConfirm, 0) {
        Request::Operate(FileOp::Rename { path, new_name }) => {
            assert_eq!(path, "/home/u/a.txt");
            assert_eq!(new_name, "za.tx");
        }
        r => panic!("unexpected {:?}", r),
    }
}

#[test]
fn rename_is_not_offered_for_dot_entries() {
    let mut app = setup();
    app.apply_action(Action::RequestRename, 0);
    assert!(app.dialog.is_none());
    assert_eq!(app.mode, AppMode::Normal);
}

#[test]
fn chmod_reads_octal_bits() {
    let mut app = setup();
    app.apply_action(Action::MoveCursor(2), 0);
    app.apply_action(Action::RequestChmod, 0);
    match &app.dialog {
        Some(DialogState::Input { value, .. }) => assert_eq!(value, "644"),
        d => panic!("unexpected {:?}", d),
    }
    for _ in 0..3 {
        app.apply_action(Action::DialogBackspace, 0);
    }
    for c in "755".chars() {
        app.apply_action(Action::DialogInput(c), 0);
    }
    match app.apply_action(Action::DialogConfirm, 0) {
        Request::Operate(FileOp::Chmod { paths, mode }) => {
            assert_eq!(paths, vec!["/home/u/a.txt".to_string()]);
            assert_eq!(mode, 0o755);
        }
        r => panic!("unexpected {:?}", r),
    }
}

#[test]
fn chmod_refuses_text_that_is_not_octal() {
    let mut app = setup();
    app.apply_action(Action::MoveCursor(2), 0);
    app.apply_action(Action::RequestChmod, 0);
    for _ in 0..3 {
        app.apply_action(Action::DialogBackspace, 0);
    }
    app.apply_action(Action::DialogInput('8'), 0);
    assert!(matches!(app.apply_action(Action::DialogConfirm, 7), Request::Done));
    assert_eq!(
        message(&app),
        ("無効なパーミッション: 「8」（例: 755, 644）".to_string(), MessageLevel::Error)
    );
}

#[test]
fn permission_bits_parse_like_octal_radix() {
    assert_eq!(permission_bits("755"), Some(0o755));
    assert_eq!(permission_bits(" +644 "), Some(0o644));
    assert_eq!(permission_bits("7777"), Some(0o7777));
    assert_eq!(permission_bits("10000"), None);
    assert_eq!(permission_bits("8"), None);
    assert_eq!(permission_bits(""), None);
    assert_eq!(permission_bits("+"), None);
    assert_eq!(permission_bits("-1"), None);
}

#[test]
fn create_dialog_then_create_request() {
    let mut app = setup();
    app.apply_action(Action::RequestCreateDir, 0);
    match &app.dialog {
        Some(DialogState::Input { title, value, cursor_pos, .. }) => {
            assert_eq!(title, "新規フォルダ");
            assert_eq!(value, "");
            assert_eq!(*cursor_pos, 0);
        }
        d => panic!("unexpected {:?}", d),
    }
    for c in "new".chars() {
        app.apply_action(Action::DialogInput(c), 0);
    }
    match app.apply_action(Action::DialogConfirm, 0) {
        Request::Operate(FileOp::CreateDir { dir, name }) => {
            assert_eq!(dir, "/home/u");
            assert_eq!(name, "new");
        }
        r => panic!("unexpected {:?}", r),
    }
}

#[test]
fn blank_dialog_input_does_nothing() {
    let mut app = setup();
    app.apply_action(Action::RequestCreateFile, 0);
    app.apply_action(Action::DialogInput(' '), 0);
    assert!(matches!(app.apply_action(Action::DialogConfirm, 0), Request::Done));
    assert_eq!(app.mode, AppMode::Normal);
    assert!(app.dialog.is_none());
}

#[test]
fn toggle_hidden_flips_and_asks_for_a_listing() {
    let mut app = setup();
    let r = app.apply_action(Action::ToggleHidden, 0);
    assert!(app.left_pane.show_hidden);
    assert!(!app.right_pane.show_hidden);
    assert!(matches!(r, Request::Refresh { .. }));
}

#[test]
fn command_cd_navigates_and_is_remembered() {
    let mut app = setup();
    type_command(&mut app, "cd /tmp");
    assert_eq!(app.mode, AppMode::Command);
    match app.apply_action(Action::CommandExecute, 0) {
        Request::Navigate { side, path, focus } => {
            assert_eq!(side, PaneSide::Left);
            assert_eq!(path, "/tmp");
            assert!(focus.is_none());
        }
        r => panic!("unexpected {:?}", r),
    }
    assert_eq!(app.mode, AppMode::Normal);
    assert_eq!(app.command_state.history.get(0), Some("cd /tmp"));
}

#[test]
fn command_relative_cd_joins_the_current_directory() {
    let mut app = setup();
    type_command(&mut app, "cd docs");
    match app.apply_action(Action::CommandExecute, 0) {
        Request::Navigate { path, .. } => assert_eq!(path, "/home/u/docs"),
        r => panic!("unexpected {:?}", r),
    }
}

#[test]
fn unknown_command_shows_an_error() {
    let mut app = setup();
    type_command(&mut app, "frob");
    assert!(matches!(app.apply_action(Action::CommandExecute, 3), Request::Done));
    assert_eq!(
        message(&app),
        ("E: Unknown command 'frob'. Type :help for available commands.".to_string(), MessageLevel::Error)
    );
}

#[test]
fn command_without_argument_shows_the_count() {
    let mut app = setup();
    type_command(&mut app, "mkdir");
    app.apply_action(Action::CommandExecute, 3);
    assert_eq!(
        message(&app),
        ("E: Invalid arguments for 'mkdir': expected 1, got 0".to_string(), MessageLevel::Error)
    );
}

#[test]
fn command_help_opens_the_help_screen() {
    let mut app = setup();
    type_command(&mut app, "help mouse");
    app.apply_action(Action::CommandExecute, 0);
    assert_eq!(app.mode, AppMode::Help);
    assert_eq!(app.help_state.topic, Some("mouse".to_string()));
    assert_eq!(app.help_state.scroll_offset, 0);
}

#[test]
fn command_quit_saves_history_and_quits() {
    let mut app = setup();
    type_command(&mut app, "q");
    let r = app.apply_action(Action::CommandExecute, 0);
    assert!(app.should_quit);
    assert!(matches!(r, Request::SaveHistory));
}

#[test]
fn find_moves_between_matches() {
    let mut app = setup();
    type_command(&mut app, "find TXT");
    app.apply_action(Action::CommandExecute, 0);
    assert_eq!(app.left_pane.cursor, 3);
    assert_eq!(message(&app).0, "2件見つかりました (1/2)");
    app.apply_action(Action::FindNext, 0);
    assert_eq!(app.left_pane.cursor, 4);
    assert_eq!(message(&app).0, "検索結果 (2/2)");
    app.apply_action(Action::FindNext, 0);
    assert_eq!(app.left_pane.cursor, 3);
    app.apply_action(Action::FindPrev, 0);
    assert_eq!(app.left_pane.cursor, 4);
}

#[test]
fn find_without_match_warns() {
    let mut app = setup();
    app.execute_find("zzz".to_string(), 1);
    assert!(app.find_state.is_none());
    assert_eq!(
        message(&app),
        ("「zzz」は見つかりませんでした".to_string(), MessageLevel::Warning)
    );
}

#[test]
fn command_history_walks_back_and_forth() {
    let mut app = setup();
    type_command(&mut app, "sort size");
    app.apply_action(Action::CommandExecute, 0);
    type_command(&mut app, "set hidden");
    app.apply_action(Action::CommandExecute, 0);
    app.apply_action(Action::EnterCommandMode, 0);
    app.apply_action(Action::CommandHistoryPrev, 0);
    assert_eq!(app.command_state.input, "set hidden");
    app.apply_action(Action::CommandHistoryPrev, 0);
    assert_eq!(app.command_state.input, "sort size");
    app.apply_action(Action::CommandHistoryNext, 0);
    assert_eq!(app.command_state.input, "set hidden");
    app.apply_action(Action::CommandHistoryNext, 0);
    assert_eq!(app.command_state.input, "");
}

#[test]
fn tab_completes_command_names_in_turn() {
    let mut app = setup();
    type_command(&mut app, "q");
    assert!(matches!(app.apply_action(Action::CommandComplete, 0), Request::Done));
    assert_eq!(app.command_state.input, "quit");
    app.apply_action(Action::CommandComplete, 0);
    assert_eq!(app.command_state.input, "q");
    app.apply_action(Action::CommandComplete, 0);
    assert_eq!(app.command_state.input, "quit");
}

#[test]
fn tab_on_a_path_lists_the_directory_first() {
    let mut app = setup();
    type_command(&mut app, "cd d");
    match app.apply_action(Action::CommandComplete, 0) {
        Request::ListForCompletion { dir, prefix, dirs_only } => {
            assert_eq!(dir, "/home/u");
            assert_eq!(prefix, "d");
            assert!(dirs_only);
            app.completion_listed(
                vec![("data.txt".to_string(), false), ("docs".to_string(), true), ("x".to_string(), true)],
                prefix,
                dirs_only,
            );
        }
        r => panic!("unexpected {:?}", r),
    }
    assert_eq!(app.command_state.input, "cd docs");
}

#[test]
fn typing_then_deleting_restores_the_command_line() {
    let mut app = setup();
    type_command(&mut app, "cd ");
    app.apply_action(Action::CommandInput('日'), 0);
    app.apply_action(Action::CommandBackspace, 0);
    assert_eq!(app.command_state.input, "cd ");
    assert_eq!(app.command_state.cursor_pos, 3);
}

#[test]
fn messages_expire_after_two_seconds() {
    let m = TimedMessage::new("x".to_string(), MessageLevel::Info, 1000);
    assert!(!m.is_expired(2999));
    assert!(m.is_expired(3000));
    let mut app = setup();
    app.show_message("hello".to_string(), MessageLevel::Info, 100);
    app.cleanup_expired_messages(500);
    assert!(app.message.is_some());
    app.cleanup_expired_messages(2100);
    assert!(app.message.is_none());
}

#[test]
fn refreshed_shows_the_pending_message() {
    let mut app = setup();
    app.refreshed(Then::Message("done".to_string(), MessageLevel::Success), 9);
    assert_eq!(message(&app), ("done".to_string(), MessageLevel::Success));
}

#[test]
fn dot_key_toggles_hidden_files() {
    assert!(matches!(handle_normal_key(KeyCode::Char('.')), Action::ToggleHidden));
    assert!(matches!(handle_normal_key(KeyCode::Char('j')), Action::MoveCursor(1)));
    assert!(matches!(handle_normal_key(KeyCode::Char('k')), Action::MoveCursor(-1)));
    assert!(matches!(handle_normal_key(KeyCode::Enter), Action::Enter));
    let app = setup();
    assert!(matches!(handle_key(KeyCode::Char(':'), &app), Action::EnterCommandMode));
}

#[test]
fn switching_panes_changes_the_active_side() {
    let mut app = setup();
    app.apply_action(Action::SwitchPane, 0);
    assert_eq!(app.active_pane, PaneSide::Right);
    assert_eq!(app.active_pane_ref().current_dir, "/tmp");
    assert_eq!(app.opposite_pane_ref().current_dir, "/home/u");
}

#[test]
fn outside_changes_refresh_quietly_in_normal_mode() {
    assert!(!auto_refresh_due(1000, 2999));
    assert!(auto_refresh_due(1000, 3000));
    assert!(!auto_refresh_due(5000, 10));
    let mut app = setup();
    match app.external_changes(false, true) {
        Request::Refresh { left, right, then, quiet } => {
            assert!(!left);
            assert!(right);
            assert!(quiet);
            assert!(matches!(then, Then::Nothing));
        }
        r => panic!("unexpected {:?}", r),
    }
    assert!(matches!(app.external_changes(false, false), Request::Done));
    app.apply_action(Action::EnterCommandMode, 0);
    assert!(matches!(app.external_changes(true, true), Request::Done));
}

#[test]
fn accepts_refuses_moves_out_of_range() {
    let app = setup();
    assert!(app.accepts(&Action::MoveCursor(1)));
    assert!(app.accepts(&Action::MoveCursor(i32::MIN)));
    assert!(app.accepts(&Action::Quit));
}

#[test]
fn kana_keys_act_like_their_keyboard_positions() {
    assert!(matches!(kana_to_normal_action('ま'), Action::MoveCursor(1)));
    assert!(matches!(kana_to_normal_action('の'), Action::MoveCursor(-1)));
    assert!(matches!(kana_to_normal_action('け'), Action::EnterCommandMode));
    assert!(matches!(kana_to_normal_action('。'), Action::ToggleHidden));
    assert!(matches!(kana_to_normal_action('ぬ'), Action::Noop));
    assert!(matches!(handle_normal_key(KeyCode::Char('ま')), Action::MoveCursor(1)));
}

#[test]
fn function_bar_buttons() {
    assert!(matches!(handle_function_bar_click(0, false, false), Action::Noop));
    assert!(matches!(handle_function_bar_click(1, false, false), Action::RequestRename));
    assert!(matches!(handle_function_bar_click(16, false, false), Action::CopyFiles));
    assert!(matches!(handle_function_bar_click(45, false, false), Action::RequestDelete));
    assert!(matches!(handle_function_bar_click(51, false, false), Action::EnterHelp(None)));
    assert!(matches!(handle_function_bar_click(70, false, false), Action::Quit));
    assert!(matches!(handle_function_bar_click(80, false, false), Action::Noop));
    assert!(matches!(handle_function_bar_click(80, true, false), Action::FindPrev));
    assert!(matches!(handle_function_bar_click(90, true, false), Action::FindNext));
    assert!(matches!(handle_function_bar_click(80, false, true), Action::GitPull));
    assert!(matches!(handle_function_bar_click(90, false, true), Action::GitCheckout));
    assert!(matches!(handle_function_bar_click(200, true, true), Action::GitBranchList));
}
