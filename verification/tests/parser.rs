use mdir::command::parser::{parse, ParseResult};

#[test]
fn test_parse_empty() {
    assert!(matches!(parse(""), ParseResult::Empty));
    assert!(matches!(parse("   "), ParseResult::Empty));
}

#[test]
fn test_parse_help() {
    match parse("help") {
        ParseResult::Builtin(cmd) => {
            assert_eq!(cmd.name, "help");
            assert!(cmd.args.is_empty());
        }
        _ => panic!("Expected Builtin"),
    }
}

#[test]
fn test_parse_help_with_topic() {
    match parse("help keybindings") {
        ParseResult::Builtin(cmd) => {
            assert_eq!(cmd.name, "help");
            assert_eq!(cmd.args, vec!["keybindings"]);
        }
        _ => panic!("Expected Builtin"),
    }
}

#[test]
fn test_parse_cd() {
    match parse("cd ~/projects") {
        ParseResult::Builtin(cmd) => {
            assert_eq!(cmd.name, "cd");
            assert_eq!(cmd.args, vec!["~/projects"]);
        }
        _ => panic!("Expected Builtin"),
    }
}

#[test]
fn test_parse_shell_command() {
    match parse("!ls -la") {
        ParseResult::Shell(cmd) => assert_eq!(cmd, "ls -la"),
        _ => panic!("Expected Shell"),
    }
}

#[test]
fn test_parse_case_insensitive() {
    match parse("HELP") {
        ParseResult::Builtin(cmd) => assert_eq!(cmd.name, "help"),
        _ => panic!("Expected Builtin"),
    }
}

#[test]
fn parse_keeps_argument_case_and_skips_extra_spaces() {
    match parse("  MkDir   New\tDir  ") {
        ParseResult::Builtin(cmd) => {
            assert_eq!(cmd.name, "mkdir");
            assert_eq!(cmd.args, vec!["New", "Dir"]);
        }
        _ => panic!("Expected Builtin"),
    }
}

#[test]
fn parse_shell_trims_after_bang() {
    match parse("  !   echo hi  ") {
        ParseResult::Shell(cmd) => assert_eq!(cmd, "echo hi"),
        _ => panic!("Expected Shell"),
    }
}
