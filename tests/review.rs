use gitflow::review::{build_review_prompt, copilot_review_command, gemini_review_command};

#[test]
fn review_prompt_holds_metadata_and_diff() {
    let p = build_review_prompt("{\"title\":\"T\"}", "diff --git a b");
    assert!(p.starts_with("You are an expert at reviewing code. Review this GitHub pull request"));
    assert!(p.ends_with("PR METADATA (JSON):\n{\"title\":\"T\"}\n\nPR DIFF:\ndiff --git a b\n"));
}

#[test]
fn copilot_review_invocation() {
    let cmd = copilot_review_command("/repo", "p", None);
    assert_eq!(*cmd.args(), vec!["--silent", "--model", "gpt-5.2-codex", "--prompt", "p"]);
    assert_eq!(
        cmd.build_command_description(),
        "🚀 copilot --silent --model gpt-5.2-codex --prompt ... 👉 /repo"
    );
}

#[test]
fn gemini_review_invocation() {
    let cmd = gemini_review_command("/repo", "p", None);
    assert_eq!(cmd.name(), "gemini");
    assert_eq!(*cmd.args(), vec!["--model", "gemini-3-pro-preview", "--sandbox", "p"]);
    assert_eq!(
        cmd.build_command_description(),
        "🚀 gemini --model gemini-3-pro-preview --sandbox ... 👉 /repo"
    );
}
