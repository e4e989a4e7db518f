use gitflow::branch::{branch_name_from_commit_message, branch_name_from_lowercase};

#[test]
fn branch_name_from_conventional_message() {
    assert_eq!(
        branch_name_from_commit_message("feat(cli): Add `--dry-run` to v1.2"),
        "feat-cli-add---dry-run-to-v1-2"
    );
}

#[test]
fn branch_name_trims_and_lowercases() {
    assert_eq!(branch_name_from_commit_message("  Fix \"Quoted\" Bug  "), "fix-quoted-bug");
}

#[test]
fn branch_name_after_lowercase_only_dashes_spaces() {
    assert_eq!(branch_name_from_lowercase("a b  c"), "a-b--c");
    assert_eq!(branch_name_from_lowercase(""), "");
}
