use gitflow::cmd::{CmdOutput, ExitStatus};
use gitflow::commit::{
    build_commit_prompt, check_commit_message, commit_message_size_rule, copilot_commit_command,
    diff_with_untracked, gemini_commit_command, is_commit_message_valid, process_model_output,
    untracked_context, untracked_from_status, ModelOutputError,
};

#[test]
fn test_valid_message() {
    assert!(is_commit_message_valid("Fix bug"));
}

#[test]
fn test_empty_message_invalid() {
    assert!(!is_commit_message_valid(""));
}

#[test]
fn test_message_at_max_length() {
    let msg = "a".repeat(70);
    assert!(is_commit_message_valid(&msg));
}

#[test]
fn test_message_over_max_length() {
    let msg = "a".repeat(71);
    assert!(!is_commit_message_valid(&msg));
}

#[test]
fn test_single_char_valid() {
    assert!(is_commit_message_valid("a"));
}

#[test]
fn test_check_commit_message_valid() {
    assert!(check_commit_message("Valid message").is_ok());
}

#[test]
fn test_check_commit_message_empty() {
    assert!(check_commit_message("").is_err());
}

#[test]
fn test_check_commit_message_too_long() {
    let msg = "a".repeat(71);
    assert!(check_commit_message(&msg).is_err());
}

#[test]
fn test_commit_message_size_rule() {
    assert_eq!(
        commit_message_size_rule("abc"),
        "Commit message size should be between 1 and 70 characters. Current size: 3"
    );
}

#[test]
fn size_counts_bytes_not_characters() {
    let msg = "é".repeat(36);
    assert!(!is_commit_message_valid(&msg));
    assert_eq!(
        check_commit_message(&msg),
        Err("Commit message size should be between 1 and 70 characters. Current size: 72".to_string())
    );
    assert!(is_commit_message_valid(&"é".repeat(35)));
}

#[test]
fn size_rule_for_empty_message() {
    assert_eq!(
        commit_message_size_rule(""),
        "Commit message size should be between 1 and 70 characters. Current size: 0"
    );
}

#[test]
fn commit_prompt_joins_lines() {
    let prompt = build_commit_prompt("a\r\nb\n\nc\n");
    assert_eq!(
        prompt,
        "Don't ask me questions or confirmation. Write a git commit message (max 70 characters) for these changes in one line: a\nb\n\nc"
    );
}

#[test]
fn model_output_message_is_trimmed() {
    let out = CmdOutput::new(ExitStatus::Exited { code: 0 }, "  Add parser \n".to_string(), String::new());
    let g = process_model_output(&out).unwrap();
    assert_eq!(g.message, "Add parser");
    assert_eq!(g.warning, None);
}

#[test]
fn model_output_long_message_warns() {
    let long = "b".repeat(80);
    let out = CmdOutput::new(ExitStatus::Exited { code: 0 }, long.clone(), String::new());
    let g = process_model_output(&out).unwrap();
    assert_eq!(g.message, long);
    assert_eq!(
        g.warning,
        Some("Commit message size should be between 1 and 70 characters. Current size: 80".to_string())
    );
}

#[test]
fn model_output_empty_is_error() {
    let out = CmdOutput::new(ExitStatus::Exited { code: 0 }, " \n\t".to_string(), String::new());
    assert!(matches!(process_model_output(&out), Err(ModelOutputError::EmptyMessage)));
}

#[test]
fn model_output_failure_keeps_stderr() {
    let out = CmdOutput::new(ExitStatus::Exited { code: 2 }, "x".to_string(), " quota exceeded\n".to_string());
    match process_model_output(&out) {
        Err(ModelOutputError::Failed { stderr }) => assert_eq!(stderr, "quota exceeded"),
        other => panic!("unexpected {:?}", other),
    }
}

#[test]
fn untracked_entries_from_porcelain_status() {
    let status = "?? new.rs\0 M changed.rs\0?? ?? odd name\0A  added.rs";
    assert_eq!(untracked_from_status(status), vec!["new.rs", "odd name"]);
    assert!(untracked_from_status("").is_empty());
}

#[test]
fn untracked_context_sections() {
    assert_eq!(untracked_context(&vec![]), "");
    let files = vec![
        ("a.txt".to_string(), "hello".to_string()),
        ("b.bin".to_string(), "<binary file>".to_string()),
    ];
    assert_eq!(
        untracked_context(&files),
        "\n\n# Untracked files\n\n## a.txt\nhello\n\n## b.bin\n<binary file>\n"
    );
}

#[test]
fn diff_with_untracked_context() {
    assert_eq!(diff_with_untracked("", ""), None);
    assert_eq!(diff_with_untracked(" \n", "\t"), None);
    assert_eq!(diff_with_untracked("d", "\nc"), Some("d\nc".to_string()));
    assert_eq!(diff_with_untracked("", "\nc"), Some("\nc".to_string()));
}

#[test]
fn copilot_commit_invocation() {
    let cmd = copilot_commit_command("/repo", "the prompt", None);
    assert_eq!(cmd.name(), "copilot");
    assert_eq!(*cmd.args(), vec!["--silent", "--model", "gpt-5-mini", "--prompt", "the prompt"]);
    assert_eq!(cmd.current_dir(), Some("/repo"));
    assert_eq!(
        cmd.build_command_description(),
        "🚀 copilot --silent --model gpt-5-mini --prompt ... 👉 /repo"
    );
}

#[test]
fn gemini_commit_invocation_with_model() {
    let cmd = gemini_commit_command("/r", "p", Some("m1"));
    assert_eq!(cmd.name(), "gemini");
    assert_eq!(
        *cmd.args(),
        vec!["--model", "m1", "--sandbox", "--output-format", "text", "--prompt", "p"]
    );
    assert_eq!(
        cmd.build_command_description(),
        "🚀 gemini --model m1 --sandbox --output-format text --prompt ... 👉 /r"
    );
}
