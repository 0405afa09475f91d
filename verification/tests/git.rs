use mdir::utils::git::{branch_from_head, checkout_args, checkout_result, gitdir_from_file, output_text, parse_branch_line, parse_branch_list};

#[test]
fn head_names_the_branch_or_a_short_commit() {
    assert_eq!(branch_from_head("ref: refs/heads/main\n"), Some("main".to_string()));
    assert_eq!(branch_from_head("ref: refs/heads/feature/x"), Some("feature/x".to_string()));
    assert_eq!(branch_from_head("0123456789abcdef0123456789abcdef01234567\n"), Some("(0123456)".to_string()));
    assert_eq!(branch_from_head("abc"), None);
    assert_eq!(branch_from_head("not a ref at all"), None);
}

#[test]
fn git_file_points_to_the_git_directory() {
    assert_eq!(gitdir_from_file("/w/sub", "gitdir: /w/.git/modules/sub\n"), Some("/w/.git/modules/sub".to_string()));
    assert_eq!(gitdir_from_file("/w/sub", "gitdir: ../.git/modules/sub"), Some("/w/sub/../.git/modules/sub".to_string()));
    assert_eq!(gitdir_from_file("/w", "something else"), None);
}

#[test]
fn branch_list_drops_the_remote_head_and_names_remotes() {
    let out = "* main\n  dev\n  remotes/origin/HEAD -> origin/main\n  remotes/origin/feat\n\n  remotes/upstream/x\n";
    let items = parse_branch_list(out);
    let got: Vec<(String, bool, String)> =
        items.into_iter().map(|i| (i.display, i.is_current, i.checkout_arg)).collect();
    assert_eq!(
        got,
        vec![
            ("main".to_string(), true, "main".to_string()),
            ("dev".to_string(), false, "dev".to_string()),
            ("origin/feat".to_string(), false, "feat".to_string()),
            ("remotes/upstream/x".to_string(), false, "remotes/upstream/x".to_string()),
        ]
    );
    assert!(parse_branch_line("   ").is_none());
}

#[test]
fn git_output_joins_trimmed_streams() {
    assert_eq!(output_text(" out \n", "\nerr\n"), "out\nerr");
    assert_eq!(output_text("", "  "), "完了");
    assert_eq!(output_text("", "e"), "e");
    let r = checkout_result(false, "", "error: pathspec");
    assert!(!r.success);
    assert_eq!(r.message, "error: pathspec");
}

#[test]
fn checkout_arguments_are_the_typed_words() {
    assert_eq!(checkout_args(" -b  new "), vec!["checkout", "-b", "new"]);
    assert_eq!(checkout_args(""), vec!["checkout"]);
}
