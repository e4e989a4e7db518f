//! Pull-request reviews asked of a model.

use crate::cmd::{model_invocation, model_or, Cmd};
use vstd::prelude::*;

verus! {

pub open spec fn review_prompt(metadata: Seq<char>, diff: Seq<char>) -> Seq<char> {
    "You are an expert at reviewing code. Review this GitHub pull request and write your review in Markdown.\n\nRules:\n- Do not ask questions unless information is missing.\n- Be concise but specific.\n- Include a short summary, then a list of issues (if any) with severity labels (BLOCKER, MAJOR, MINOR), and then suggestions.\n- If there are no issues, say so explicitly.\n- Refer to files, line numbers and code hunks where possible.\n\nPR METADATA (JSON):\n"@
        + metadata + "\n\nPR DIFF:\n"@ + diff + "\n"@
}

/// The request that asks a model to review a pull request, given its
/// metadata as JSON and its diff.
pub fn build_review_prompt(metadata: &str, diff: &str) -> (r: String)
    ensures
        r@ == review_prompt(metadata@, diff@),
{
    let mut r = String::from_str(
        "You are an expert at reviewing code. Review this GitHub pull request and write your review in Markdown.\n\nRules:\n- Do not ask questions unless information is missing.\n- Be concise but specific.\n- Include a short summary, then a list of issues (if any) with severity labels (BLOCKER, MAJOR, MINOR), and then suggestions.\n- If there are no issues, say so explicitly.\n- Refer to files, line numbers and code hunks where possible.\n\nPR METADATA (JSON):\n",
    );
    r.append(metadata);
    r.append("\n\nPR DIFF:\n");
    r.append(diff);
    r.append("\n");
    r
}

/// The Copilot invocation that asks for a review; `gpt-5.2-codex` unless
/// another model is named.
pub fn copilot_review_command(repo_root: &str, prompt: &str, model: Option<&str>) -> (r: Cmd)
    ensures
        ({
            let m = model_or(model, "gpt-5.2-codex"@);
            r@ == model_invocation(
                "copilot"@,
                seq!["--silent"@, "--model"@, m, "--prompt"@, prompt@],
                repo_root@,
                "🚀 copilot --silent --model "@ + m + " --prompt ..."@,
            )
        }),
{
    let m = match model {
        Some(m) => m,
        None => "gpt-5.2-codex",
    };
    let mut title = String::from_str("🚀 copilot --silent --model ");
    title.append(m);
    title.append(" --prompt ...");
    let args: &[&str] = &["--silent", "--model", m, "--prompt", prompt];
    assert(args@.map_values(|a: &str| a@) =~= seq!["--silent"@, "--model"@, m@, "--prompt"@, prompt@]);
    let mut cmd = Cmd::new("copilot", args);
    cmd.hide_stdout();
    cmd.with_title(title.as_str());
    cmd.with_current_dir(repo_root);
    cmd
}

/// The Gemini invocation that asks for a review; `gemini-3-pro-preview`
/// unless another model is named.
pub fn gemini_review_command(repo_root: &str, prompt: &str, model: Option<&str>) -> (r: Cmd)
    ensures
        ({
            let m = model_or(model, "gemini-3-pro-preview"@);
            r@ == model_invocation(
                "gemini"@,
                seq!["--model"@, m, "--sandbox"@, prompt@],
                repo_root@,
                "🚀 gemini --model "@ + m + " --sandbox ..."@,
            )
        }),
{
    let m = match model {
        Some(m) => m,
        None => "gemini-3-pro-preview",
    };
    let mut title = String::from_str("🚀 gemini --model ");
    title.append(m);
    title.append(" --sandbox ...");
    let args: &[&str] = &["--model", m, "--sandbox", prompt];
    assert(args@.map_values(|a: &str| a@) =~= seq!["--model"@, m@, "--sandbox"@, prompt@]);
    let mut cmd = Cmd::new("gemini", args);
    cmd.hide_stdout();
    cmd.with_title(title.as_str());
    cmd.with_current_dir(repo_root);
    cmd
}

} // verus!
