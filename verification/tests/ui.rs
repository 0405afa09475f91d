use mdir::fs::entry::{EntryMetadata, FileEntry};
use mdir::ui::dialog::{branch_window, byte_offset_to_display_width, centered_rect, filter_branches_display, input_view, Rect};
use mdir::ui::pane::{name_cell, size_cell, truncate_to_width};
use mdir::ui::help::{help_lines, help_position, help_scroll, key_column, HelpLine, HELP_LINE_COUNT};
use mdir::config::{config_dir, config_file, GeneralConfig};
use mdir::event::branch_dialog_box;

#[test]
fn display_width_of_a_byte_prefix() {
    assert_eq!(byte_offset_to_display_width("abc", 2), 2);
    assert_eq!(byte_offset_to_display_width("日本語", 3), 2);
    assert_eq!(byte_offset_to_display_width("日本語", 9), 6);
}

#[test]
fn centered_rect_fits_the_area() {
    let r = centered_rect(20, 10, Rect::new(0, 0, 80, 24));
    assert_eq!((r.x, r.y, r.width, r.height), (30, 7, 20, 10));
    let big = centered_rect(200, 10, Rect::new(0, 0, 80, 24));
    assert_eq!(big.x, 0);
}

#[test]
fn branch_filter_ignores_case() {
    let branches = vec![
        ("main".to_string(), true, "main".to_string()),
        ("Feature-A".to_string(), false, "Feature-A".to_string()),
        ("origin/feature-b".to_string(), false, "feature-b".to_string()),
    ];
    let shown = filter_branches_display(&branches, "FEATURE");
    let names: Vec<&str> = shown.iter().map(|b| b.0.as_str()).collect();
    assert_eq!(names, vec!["Feature-A", "origin/feature-b"]);
    assert_eq!(filter_branches_display(&branches, "").len(), 3);
}

#[test]
fn input_view_scrolls_to_show_the_cursor() {
    let v = input_view("hello", 5, 10);
    assert_eq!(v.text, "hello");
    assert_eq!(v.cursor_col, 5);
    assert_eq!(v.scroll, 0);
    assert!(!v.more_left);
    let w = input_view("abcdefghij", 10, 4);
    assert_eq!(w.scroll, 6);
    assert_eq!(w.text, "ghij");
    assert_eq!(w.cursor_col, 4);
    assert!(w.more_left);
}

#[test]
fn branch_window_keeps_within_the_list() {
    assert_eq!(branch_window(10, 8, 5), (5, 10));
    assert_eq!(branch_window(10, 2, 5), (2, 7));
    assert_eq!(branch_window(3, 2, 5), (0, 3));
}

fn entry(name: &str, is_dir: bool, size: u64) -> FileEntry {
    FileEntry::from_dir_entry(EntryMetadata {
        name: name.to_string(),
        path: format!("/x/{}", name),
        is_symlink: false,
        is_dir,
        mode: 0o644,
        size,
        modified: Some(0),
        created: None,
        symlink_target: None,
    })
}

#[test]
fn pane_cells() {
    assert_eq!(truncate_to_width("abcdef", 4), "abc~");
    assert_eq!(truncate_to_width("abc", 4), "abc");
    assert_eq!(truncate_to_width("日本語", 4), "日~");
    assert_eq!(size_cell(&entry("a", false, 2048)), "   2.0KB");
    assert_eq!(size_cell(&entry("d", true, 4096)), "   --");
    assert_eq!(name_cell(&entry("d", true, 0), 30), ("d/".to_string(), 7));
    assert_eq!(name_cell(&entry("abcdefghijk", false, 0), 30), ("abcdefgh~".to_string(), 0));
}

#[test]
fn help_screen_lines_and_scrolling() {
    let lines = help_lines();
    assert_eq!(lines.len(), HELP_LINE_COUNT);
    assert!(matches!(lines[0], HelpLine::Blank));
    match &lines[3] {
        HelpLine::Binding { key, desc } => {
            assert_eq!(key, "h / ← / BS");
            assert_eq!(desc, "親ディレクトリへ移動");
        }
        l => panic!("unexpected {:?}", l),
    }
    assert_eq!(key_column("g / Home"), "g / Home      ");
    assert_eq!(key_column("l / → / Enter"), "l / → / Enter ");
    assert_eq!(key_column("a very long key name"), "a very long key name");
    assert_eq!(help_scroll(65, 100, 20), 45);
    assert_eq!(help_scroll(65, 10, 20), 10);
    assert_eq!(help_scroll(10, 5, 20), 0);
    assert_eq!(help_position(0, 65), "1/65 行");
}

#[test]
fn settings_live_in_an_mdir_directory() {
    assert!(config_dir().ends_with("/mdir"));
    assert_eq!(config_file("/home/u/.config/mdir"), "/home/u/.config/mdir/config.toml");
    let g = GeneralConfig::default();
    assert!(!g.show_hidden);
    assert_eq!(g.default_sort, "name");
    assert!(g.sort_ascending && g.dirs_first && g.confirm_delete && g.use_trash);
}

#[test]
fn help_lines_come_in_order() {
    let lines = help_lines();
    match (&lines[4], &lines[5]) {
        (HelpLine::Binding { key: k1, desc: d1 }, HelpLine::Binding { key: k2, desc: d2 }) => {
            assert_eq!(k1, "j / ↓");
            assert_eq!(d1, "カーソルを下に移動");
            assert_eq!(k2, "k / ↑");
            assert_eq!(d2, "カーソルを上に移動");
        }
        _ => panic!("unexpected lines"),
    }
    match &lines[63] {
        HelpLine::Setting { label, value } => {
            assert_eq!(label, "設定ファイル: ");
            assert_eq!(value, "~/.config/mdir/config.toml");
        }
        l => panic!("unexpected {:?}", l),
    }
}

#[test]
fn branch_dialog_box_is_centred() {
    assert_eq!(branch_dialog_box(80, 24, 3, false), (10, 8, 60, 7));
    assert_eq!(branch_dialog_box(80, 24, 3, true), (10, 8, 60, 8));
    assert_eq!(branch_dialog_box(40, 10, 50, false), (2, 2, 36, 6));
}
