use mdir::command::history::CommandHistory;

#[test]
fn test_push_and_get() {
    let mut h = CommandHistory::empty();
    h.push("help");
    h.push("cd /tmp");
    assert_eq!(h.get(0), Some("cd /tmp"));
    assert_eq!(h.get(1), Some("help"));
    assert_eq!(h.len(), 2);
}

#[test]
fn test_skip_duplicate() {
    let mut h = CommandHistory::empty();
    h.push("help");
    h.push("help");
    assert_eq!(h.len(), 1);
}

#[test]
fn test_skip_empty() {
    let mut h = CommandHistory::empty();
    h.push("");
    h.push("   ");
    assert_eq!(h.len(), 0);
}

#[test]
fn history_drops_only_a_repeat_of_the_newest() {
    let mut h = CommandHistory::empty();
    h.push("ls");
    h.push("cd /tmp");
    h.push("  ls ");
    assert_eq!(h.len(), 3);
    assert_eq!(h.get(0), Some("ls"));
    assert_eq!(h.get(1), Some("cd /tmp"));
    assert_eq!(h.get(2), Some("ls"));
    assert_eq!(h.get(3), None);
}

#[test]
fn history_saves_and_loads_back() {
    let mut h = CommandHistory::empty();
    h.push("first");
    h.push("second");
    let saved = h.content();
    let loaded = CommandHistory::from_content(&saved, String::from("/x/history"));
    assert_eq!(loaded.len(), 2);
    assert_eq!(loaded.get(0), Some("second"));
    assert_eq!(loaded.get(1), Some("first"));
    assert_eq!(loaded.file_path(), "/x/history");
}

#[test]
fn history_load_reads_lines_newest_first() {
    let loaded = CommandHistory::from_content("a\n\n  \nb\n", String::new());
    assert_eq!(loaded.len(), 4);
    assert_eq!(loaded.get(0), Some("b"));
    assert_eq!(loaded.get(1), Some("  "));
    assert_eq!(loaded.get(2), Some(""));
    assert_eq!(loaded.get(3), Some("a"));
}

#[test]
fn history_is_capped() {
    let mut h = CommandHistory::empty();
    for i in 0..510 {
        h.push(&format!("cmd{}", i));
    }
    assert_eq!(h.len(), 500);
    assert_eq!(h.get(0), Some("cmd509"));
    assert_eq!(h.get(499), Some("cmd10"));
}
