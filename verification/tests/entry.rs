use mdir::fs::entry::{EntryMetadata, EntryType, FileEntry, SortCriteria, SortOrder};

fn make_entry(name: &str, entry_type: EntryType, size: u64) -> FileEntry {
    FileEntry {
        name: name.to_string(),
        path: name.to_string(),
        entry_type,
        size,
        modified: 0,
        created: None,
        mode: 0o644,
        is_hidden: name.starts_with('.'),
        is_symlink: false,
        symlink_target: None,
        extension: std::path::Path::new(name)
            .extension()
            .map(|e| e.to_string_lossy().to_lowercase()),
    }
}

#[test]
fn test_sort_by_name() {
    let mut entries = vec![
        make_entry("charlie.txt", EntryType::File, 100),
        make_entry("alpha.txt", EntryType::File, 200),
        make_entry("bravo.txt", EntryType::File, 50),
    ];
    let order = SortOrder {
        criteria: SortCriteria::Name,
        ascending: true,
        dirs_first: false,
    };
    order.sort(&mut entries);
    let names: Vec<&str> = entries.iter().map(|e| e.name.as_str()).collect();
    assert_eq!(names, vec!["alpha.txt", "bravo.txt", "charlie.txt"]);
}

#[test]
fn test_sort_dirs_first() {
    let mut entries = vec![
        make_entry("file_b", EntryType::File, 0),
        make_entry("dir_a", EntryType::Directory, 0),
        make_entry("file_a", EntryType::File, 0),
    ];
    SortOrder::default().sort(&mut entries);
    assert_eq!(entries[0].name, "dir_a");
}

#[test]
fn test_sort_by_size() {
    let mut entries = vec![
        make_entry("small", EntryType::File, 10),
        make_entry("big", EntryType::File, 1000),
        make_entry("medium", EntryType::File, 500),
    ];
    let order = SortOrder {
        criteria: SortCriteria::Size,
        ascending: true,
        dirs_first: false,
    };
    order.sort(&mut entries);
    assert_eq!(entries[0].name, "small");
    assert_eq!(entries[2].name, "big");
}

#[test]
fn test_sort_descending() {
    let mut entries = vec![
        make_entry("a", EntryType::File, 0),
        make_entry("c", EntryType::File, 0),
        make_entry("b", EntryType::File, 0),
    ];
    let order = SortOrder {
        criteria: SortCriteria::Name,
        ascending: false,
        dirs_first: false,
    };
    order.sort(&mut entries);
    assert_eq!(entries[0].name, "c");
}

fn names(entries: &[FileEntry]) -> Vec<String> {
    entries.iter().map(|e| e.name.clone()).collect()
}

#[test]
fn sort_names_ignore_case() {
    let mut entries = vec![
        make_entry("b.txt", EntryType::File, 0),
        make_entry("A.txt", EntryType::File, 0),
        make_entry("C.txt", EntryType::File, 0),
    ];
    SortOrder::default().sort(&mut entries);
    assert_eq!(names(&entries), vec!["A.txt", "b.txt", "C.txt"]);
}

#[test]
fn sort_keeps_equal_entries_in_their_order() {
    let mut entries = vec![
        make_entry("x1", EntryType::File, 5),
        make_entry("x2", EntryType::File, 1),
        make_entry("x3", EntryType::File, 5),
        make_entry("x4", EntryType::File, 1),
    ];
    let order = SortOrder { criteria: SortCriteria::Size, ascending: true, dirs_first: false };
    order.sort(&mut entries);
    assert_eq!(names(&entries), vec!["x2", "x4", "x1", "x3"]);
}

#[test]
fn sort_descending_keeps_directories_first() {
    let mut entries = vec![
        make_entry("a.txt", EntryType::File, 0),
        make_entry("zdir", EntryType::Directory, 0),
        make_entry("b.txt", EntryType::File, 0),
        make_entry("adir", EntryType::Directory, 0),
    ];
    let order = SortOrder { criteria: SortCriteria::Name, ascending: false, dirs_first: true };
    order.sort(&mut entries);
    assert_eq!(names(&entries), vec!["zdir", "adir", "b.txt", "a.txt"]);
}

#[test]
fn sort_by_extension_then_entries_without_one_first() {
    let mut entries = vec![
        make_entry("z.rs", EntryType::File, 0),
        make_entry("noext", EntryType::File, 0),
        make_entry("a.TXT", EntryType::File, 0),
        make_entry("b.md", EntryType::File, 0),
    ];
    let order = SortOrder { criteria: SortCriteria::Extension, ascending: true, dirs_first: false };
    order.sort(&mut entries);
    assert_eq!(names(&entries), vec!["noext", "b.md", "z.rs", "a.TXT"]);
}

#[test]
fn sort_by_date_uses_modification_time() {
    let mut a = make_entry("old", EntryType::File, 0);
    a.modified = -5;
    let mut b = make_entry("new", EntryType::File, 0);
    b.modified = 100;
    let mut entries = vec![b, a];
    let order = SortOrder { criteria: SortCriteria::Date, ascending: true, dirs_first: false };
    order.sort(&mut entries);
    assert_eq!(names(&entries), vec!["old", "new"]);
}

#[test]
fn entry_from_metadata_classifies() {
    let m = EntryMetadata {
        name: String::from(".script.SH"),
        path: String::from("/x/.script.SH"),
        is_symlink: false,
        is_dir: false,
        mode: 0o755,
        size: 42,
        modified: Some(7),
        created: None,
        symlink_target: None,
    };
    let e = FileEntry::from_dir_entry(m);
    assert_eq!(e.entry_type, EntryType::Executable);
    assert!(e.is_hidden);
    assert_eq!(e.extension, Some(String::from("sh")));
    assert_eq!(e.size, 42);
    assert_eq!(e.modified, 7);
    assert_eq!(e.permission_string(), "-rwxr-xr-x");
}

#[test]
fn entry_from_metadata_directory_and_link() {
    let d = FileEntry::from_dir_entry(EntryMetadata {
        name: String::from("src"),
        path: String::from("/x/src"),
        is_symlink: false,
        is_dir: true,
        mode: 0o755,
        size: 4096,
        modified: None,
        created: None,
        symlink_target: None,
    });
    assert_eq!(d.entry_type, EntryType::Directory);
    assert!(d.is_dir());
    assert!(!d.is_hidden);
    assert_eq!(d.modified, 0);
    let l = FileEntry::from_dir_entry(EntryMetadata {
        name: String::from("link"),
        path: String::from("/x/link"),
        is_symlink: true,
        is_dir: false,
        mode: 0o777,
        size: 3,
        modified: Some(1),
        created: None,
        symlink_target: Some(String::from("target")),
    });
    assert_eq!(l.entry_type, EntryType::Symlink);
    assert_eq!(l.permission_string(), "lrwxrwxrwx");
}

#[test]
fn criteria_labels() {
    assert_eq!(SortOrder::default().criteria_label(), "Name");
}

#[test]
fn sorting_a_sorted_listing_changes_nothing() {
    let mut entries = vec![
        make_entry("b.txt", EntryType::File, 3),
        make_entry("a", EntryType::Directory, 3),
        make_entry("c.txt", EntryType::File, 1),
        make_entry("a.txt", EntryType::File, 3),
    ];
    let order = SortOrder { criteria: SortCriteria::Size, ascending: false, dirs_first: true };
    order.sort(&mut entries);
    let once = names(&entries);
    assert_eq!(once, vec!["a", "b.txt", "a.txt", "c.txt"]);
    order.sort(&mut entries);
    assert_eq!(names(&entries), once);
}
