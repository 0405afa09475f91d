use mdir::command::completer::{complete_from_dir, complete_from_list, complete_with_home, Completion};
use mdir::command::executor::{execute_with_home, expand_path, parse_sort_criteria, resolve_alias, CommandAction};
use mdir::command::parser::{parse, ParseResult};
use mdir::error::AppError;
use mdir::fs::entry::SortCriteria;

fn run(line: &str, home: Option<&str>) -> Result<CommandAction, AppError> {
    execute_with_home(&parse(line), "/work", home.map(|h| h.to_string()))
}

#[test]
fn cd_expands_absolute_relative_and_home_paths() {
    assert!(matches!(run("cd /tmp", None), Ok(CommandAction::ChangeDir(p)) if p == "/tmp"));
    assert!(matches!(run("cd src", None), Ok(CommandAction::ChangeDir(p)) if p == "/work/src"));
    assert!(matches!(run("cd ~/x", Some("/home/u")), Ok(CommandAction::ChangeDir(p)) if p == "/home/u/x"));
    assert!(matches!(run("cd ~", Some("/home/u")), Ok(CommandAction::ChangeDir(p)) if p == "/home/u/"));
    assert!(matches!(run("cd ~/x", None), Err(AppError::HomeDirNotFound)));
}

#[test]
fn expand_path_keeps_absolute_paths() {
    assert_eq!(expand_path("/a/b", "/c", None).ok(), Some("/a/b".to_string()));
    assert_eq!(expand_path("b", "/c", None).ok(), Some("/c/b".to_string()));
}

#[test]
fn commands_without_their_argument_are_refused() {
    for name in ["cd", "sort", "mkdir", "touch", "find"] {
        match run(name, None) {
            Err(AppError::InvalidArguments { command, expected, got }) => {
                assert_eq!(command, name);
                assert_eq!(expected, "1");
                assert_eq!(got, 0);
            }
            r => panic!("unexpected {:?}", r),
        }
    }
    match run("set", None) {
        Err(AppError::InvalidArguments { expected, .. }) => assert_eq!(expected, "1-2"),
        r => panic!("unexpected {:?}", r),
    }
}

#[test]
fn sort_set_and_aliases() {
    assert!(matches!(run("sort SIZE", None), Ok(CommandAction::SetSort(SortCriteria::Size))));
    assert!(matches!(run("sort modified", None), Ok(CommandAction::SetSort(SortCriteria::Date))));
    assert!(matches!(run("sort e", None), Ok(CommandAction::SetSort(SortCriteria::Extension))));
    assert!(matches!(run("sort zz", None), Err(AppError::InvalidSortCriteria(s)) if s == "zz"));
    assert!(matches!(run("set hidden", None), Ok(CommandAction::ToggleHidden)));
    assert!(matches!(run("set wrap", None), Err(AppError::UnknownOption(s)) if s == "wrap"));
    assert!(matches!(run("q", None), Ok(CommandAction::Quit)));
    assert!(matches!(run("bm", None), Ok(CommandAction::Bookmark(None))));
    assert!(matches!(run("bookmark top", None), Ok(CommandAction::Bookmark(Some(s))) if s == "top"));
    assert_eq!(resolve_alias("q"), "quit");
    assert_eq!(resolve_alias("bm"), "bookmark");
    assert_eq!(resolve_alias("cd"), "cd");
    assert!(matches!(parse_sort_criteria("N"), Ok(SortCriteria::Name)));
    assert!(matches!(parse_sort_criteria("time"), Ok(SortCriteria::Date)));
}

#[test]
fn other_commands() {
    assert!(matches!(run("find a  b", None), Ok(CommandAction::Find(q)) if q == "a b"));
    assert!(matches!(run("mkdir new", None), Ok(CommandAction::CreateDir(n)) if n == "new"));
    assert!(matches!(run("touch f", None), Ok(CommandAction::CreateFile(n)) if n == "f"));
    assert!(matches!(run("help", None), Ok(CommandAction::ShowHelp(None))));
    assert!(matches!(run("!ls -l", None), Ok(CommandAction::Shell(s)) if s == "ls -l"));
    assert!(matches!(run("zap", None), Err(AppError::UnknownCommand(s)) if s == "zap"));
    assert!(matches!(run("   ", None), Err(AppError::UnknownCommand(s)) if s.is_empty()));
    assert!(matches!(parse("   "), ParseResult::Empty));
}

fn candidates(c: Completion) -> Vec<String> {
    match c {
        Completion::Candidates(v) => v,
        other => panic!("unexpected {:?}", other),
    }
}

#[test]
fn completes_command_names_and_fixed_arguments() {
    assert_eq!(candidates(complete_with_home("he", "/w", None)), vec!["help"]);
    assert_eq!(candidates(complete_with_home("q", "/w", None)), vec!["quit", "q"]);
    assert_eq!(candidates(complete_with_home("", "/w", None)).len(), 10);
    assert_eq!(candidates(complete_with_home("sort s", "/w", None)), vec!["size"]);
    assert_eq!(candidates(complete_with_home("set ", "/w", None)), vec!["hidden"]);
    assert_eq!(candidates(complete_with_home("help ke", "/w", None)), vec!["keybindings"]);
    assert!(candidates(complete_with_home("zap x", "/w", None)).is_empty());
    assert_eq!(complete_from_list("b", &["a", "bb", "b", "cb"]), vec!["bb", "b"]);
}

#[test]
fn completes_paths_by_listing_a_directory() {
    match complete_with_home("cd sr", "/w", None) {
        Completion::ListDir { dir, prefix, dirs_only } => {
            assert_eq!(dir, "/w");
            assert_eq!(prefix, "sr");
            assert!(dirs_only);
        }
        c => panic!("unexpected {:?}", c),
    }
    match complete_with_home("touch a/b", "/w", None) {
        Completion::ListDir { dir, prefix, dirs_only } => {
            assert_eq!(dir, "/w/a");
            assert_eq!(prefix, "b");
            assert!(!dirs_only);
        }
        c => panic!("unexpected {:?}", c),
    }
    match complete_with_home("cd ~/pro", "/w", Some("/home/u".to_string())) {
        Completion::ListDir { dir, prefix, .. } => {
            assert_eq!(dir, "/home/u/");
            assert_eq!(prefix, "pro");
        }
        c => panic!("unexpected {:?}", c),
    }
    match complete_with_home("mkdir /usr/lo", "/w", None) {
        Completion::ListDir { dir, prefix, .. } => {
            assert_eq!(dir, "/usr");
            assert_eq!(prefix, "lo");
        }
        c => panic!("unexpected {:?}", c),
    }
}

#[test]
fn directory_listing_is_filtered_for_completion() {
    let entries = vec![
        ("src".to_string(), true),
        ("sx".to_string(), false),
        ("a".to_string(), true),
        ("scripts".to_string(), true),
    ];
    assert_eq!(complete_from_dir(&entries, "s", true), vec!["src", "scripts"]);
    assert_eq!(complete_from_dir(&entries, "s", false), vec!["src", "sx", "scripts"]);
    assert!(complete_from_dir(&entries, "zz", false).is_empty());
}

#[test]
fn error_messages() {
    assert_eq!(
        AppError::UnknownCommand("x".to_string()).message(),
        "Unknown command: 'x'. Type :help for available commands."
    );
    assert_eq!(
        AppError::InvalidSortCriteria("y".to_string()).user_message(),
        "E: Invalid sort criteria: 'y'. Use: name, size, date, ext"
    );
    assert_eq!(AppError::HomeDirNotFound.user_message(), "E: Home directory not found");
    assert_eq!(AppError::UnknownOption("o".to_string()).user_message(), "E: Unknown option: 'o'");
    assert_eq!(
        AppError::UnknownCommand("foo".to_string()).user_message(),
        "E: Unknown command 'foo'. Type :help for available commands."
    );
    assert_eq!(AppError::PathNotFound("/x".to_string()).user_message(), "E: Path not found: /x");
    assert_eq!(AppError::FileAlreadyExists("/x".to_string()).user_message(), "E: Already exists: /x");
    assert_eq!(AppError::Io("disk full".to_string()).user_message(), "E: I/O error: disk full");
    assert_eq!(
        AppError::TerminalTooSmall { min_w: 60, min_h: 10, actual_w: 40, actual_h: 5 }.message(),
        "Terminal too small: minimum 60x10, got 40x5"
    );
}

#[test]
fn paths_join_like_unix_paths() {
    assert_eq!(expand_path("b", "/c/", None).ok(), Some("/c/b".to_string()));
    assert_eq!(expand_path("b", "", None).ok(), Some("b".to_string()));
    assert_eq!(expand_path("b/", "/c", None).ok(), Some("/c/b/".to_string()));
    assert_eq!(mdir::config::config_file(""), "config.toml");
    assert_eq!(mdir::config::config_file("/x/"), "/x/config.toml");
}
