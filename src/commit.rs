//! Commit messages: their size rule, the prompt that asks a model for one,
//! and how a model's answer is read.

use crate::cmd::{model_invocation, model_or, Cmd, CmdOutput, ExitStatus};
use crate::text::{
    append_joined, cut_prefix, decimal, decimal_text, join, segments, split_lines, split_segments,
    strip_prefix, text_lines, trim, trimmed, views,
};
use vstd::prelude::*;
use vstd::utf8::encode_utf8;

verus! {

/// The longest commit message, in bytes.
pub const MAX_COMMIT_MESSAGE_LEN: usize = 70;

/// The size of `m` in bytes, as `str::len` gives it: the length of its UTF-8
/// encoding.
pub open spec fn byte_len(m: Seq<char>) -> usize {
    encode_utf8(m).len() as usize
}

/// A commit message is valid when it is not empty and its UTF-8 encoding
/// fits in the limit.
pub open spec fn commit_message_ok(m: Seq<char>) -> bool {
    m.len() > 0 && byte_len(m) <= MAX_COMMIT_MESSAGE_LEN
}

/// The explanation shown for a message of `m`, with its size in bytes.
pub open spec fn size_rule_text(m: Seq<char>) -> Seq<char> {
    "Commit message size should be between 1 and 70 characters. Current size: "@ + decimal(byte_len(m) as nat)
}

pub fn is_commit_message_valid(message: &str) -> (r: bool)
    ensures
        r == commit_message_ok(message@),
{
    !message.is_empty() && message.len() <= MAX_COMMIT_MESSAGE_LEN
}

pub fn commit_message_size_rule(message: &str) -> (r: String)
    ensures
        r@ == size_rule_text(message@),
{
    let mut r = String::from_str(
        "Commit message size should be between 1 and 70 characters. Current size: ",
    );
    let size = decimal_text(message.len());
    r.append(size.as_str());
    r
}

/// Accepts a valid message; otherwise the error explains the size rule.
pub fn check_commit_message(message: &str) -> (r: Result<(), String>)
    ensures
        r is Ok <==> commit_message_ok(message@),
        r matches Err(e) ==> e@ == size_rule_text(message@),
{
    if is_commit_message_valid(message) {
        Ok(())
    } else {
        Err(commit_message_size_rule(message))
    }
}

pub open spec fn commit_prompt(diff: Seq<char>) -> Seq<char> {
    "Don't ask me questions or confirmation. Write a git commit message (max 70 characters) for these changes in one line: "@
        + join(text_lines(diff), "\n"@)
}

/// The request that asks a model for a one-line message for `diff`.
pub fn build_commit_prompt(diff: &str) -> (r: String)
    ensures
        r@ == commit_prompt(diff@),
{
    let mut r = String::from_str(
        "Don't ask me questions or confirmation. Write a git commit message (max 70 characters) for these changes in one line: ",
    );
    let lines = split_lines(diff);
    append_joined(&mut r, &lines, "\n");
    r
}

/// A message proposed by a model, with the size rule when it breaks it.
#[derive(Debug)]
pub struct GeneratedMessage {
    pub message: String,
    pub warning: Option<String>,
}

/// Why a model's answer gave no message.
#[derive(Debug)]
pub enum ModelOutputError {
    /// The model answered with nothing but whitespace.
    EmptyMessage,
    /// The model's command failed; this is what it wrote to standard error.
    Failed { stderr: String },
}

/// Reads the answer of a model's command: on success its trimmed standard
/// output is the message.
pub fn process_model_output(output: &CmdOutput) -> (r: Result<GeneratedMessage, ModelOutputError>)
    ensures
        output@.status != (ExitStatus::Exited { code: 0 }) ==> match r {
            Err(ModelOutputError::Failed { stderr }) => stderr@ == trimmed(output@.stderr),
            _ => false,
        },
        output@.status == (ExitStatus::Exited { code: 0 }) && trimmed(output@.stdout).len() == 0
            ==> r matches Err(ModelOutputError::EmptyMessage),
        output@.status == (ExitStatus::Exited { code: 0 }) && trimmed(output@.stdout).len() > 0
            ==> match r {
            Ok(g) => {
                &&& g.message@ == trimmed(output@.stdout)
                &&& match g.warning {
                    None => commit_message_ok(g.message@),
                    Some(w) => !commit_message_ok(g.message@) && w@ == size_rule_text(g.message@),
                }
            },
            _ => false,
        },
{
    if !output.status().success() {
        return Err(ModelOutputError::Failed { stderr: output.stderr().to_owned() });
    }
    let msg = output.stdout();
    if msg.is_empty() {
        return Err(ModelOutputError::EmptyMessage);
    }
    let warning = if is_commit_message_valid(msg) {
        None
    } else {
        Some(commit_message_size_rule(msg))
    };
    Ok(GeneratedMessage { message: msg.to_owned(), warning })
}

/// `s` without every leading repetition of `p`.
pub open spec fn strip_repeated(s: Seq<char>, p: Seq<char>) -> Seq<char>
    decreases s.len(),
{
    if p.len() > 0 && strip_prefix(s, p) is Some {
        strip_repeated(strip_prefix(s, p)->Some_0, p)
    } else {
        s
    }
}

fn cut_repeated<'a>(s: &'a str, p: &str) -> (r: &'a str)
    ensures
        r@ == strip_repeated(s@, p@),
{
    if p.unicode_len() == 0 {
        return s;
    }
    let mut rest = s;
    loop
        invariant
            p@.len() > 0,
            strip_repeated(s@, p@) == strip_repeated(rest@, p@),
        decreases rest@.len(),
    {
        match cut_prefix(rest, p) {
            Some(next) => {
                rest = next;
            },
            None => {
                return rest;
            },
        }
    }
}

/// The paths of the untracked files among the NUL-separated entries that
/// `git status --porcelain -z` printed: the entries marked `?? `, without
/// that mark.
pub open spec fn untracked_in(entries: Seq<Seq<char>>) -> Seq<Seq<char>>
    decreases entries.len(),
{
    if entries.len() == 0 {
        Seq::empty()
    } else {
        let earlier = untracked_in(entries.drop_last());
        if strip_prefix(entries.last(), "?? "@) is Some {
            earlier.push(strip_repeated(entries.last(), "?? "@))
        } else {
            earlier
        }
    }
}

pub fn untracked_from_status(status: &str) -> (r: Vec<String>)
    ensures
        views(r@) == untracked_in(segments(status@, '\0')),
{
    let entries = split_segments(status, '\0');
    let ghost all = views(entries@);
    let mut out: Vec<String> = Vec::new();
    let mut i: usize = 0;
    while i < entries.len()
        invariant
            i <= entries@.len(),
            all == views(entries@),
            views(out@) == untracked_in(all.take(i as int)),
        decreases entries.len() - i,
    {
        assert(all.take(i + 1).drop_last() =~= all.take(i as int));
        assert(all[i as int] == entries@[i as int]@);
        let entry = entries[i].as_str();
        if cut_prefix(entry, "?? ").is_some() {
            out.push(String::from_str(cut_repeated(entry, "?? ")));
            assert(views(out@) =~= views(out@).drop_last().push(out@.last()@));
        }
        i += 1;
    }
    assert(all.take(entries.len() as int) =~= all);
    out
}

/// One section per untracked file: its path, then its content.
pub open spec fn file_sections(files: Seq<(Seq<char>, Seq<char>)>) -> Seq<char>
    decreases files.len(),
{
    if files.len() == 0 {
        Seq::empty()
    } else {
        file_sections(files.drop_last()) + "\n## "@ + files.last().0 + "\n"@ + files.last().1
            + "\n"@
    }
}

/// What the commit prompt shows of untracked files: nothing when there are
/// none, otherwise a heading and a section per file.
pub open spec fn untracked_context_text(files: Seq<(Seq<char>, Seq<char>)>) -> Seq<char> {
    if files.len() == 0 {
        Seq::empty()
    } else {
        "\n\n# Untracked files\n"@ + file_sections(files)
    }
}

pub open spec fn file_views(files: Seq<(String, String)>) -> Seq<(Seq<char>, Seq<char>)> {
    files.map_values(|f: (String, String)| (f.0@, f.1@))
}

/// The untracked files, given as (path, content) pairs, as the commit
/// prompt shows them.
pub fn untracked_context(files: &Vec<(String, String)>) -> (r: String)
    ensures
        r@ == untracked_context_text(file_views(files@)),
{
    if files.len() == 0 {
        return String::new();
    }
    let ghost all = file_views(files@);
    let mut sections = String::new();
    let mut i: usize = 0;
    while i < files.len()
        invariant
            i <= files@.len(),
            all == file_views(files@),
            sections@ == file_sections(all.take(i as int)),
        decreases files.len() - i,
    {
        assert(all.take(i + 1).drop_last() =~= all.take(i as int));
        sections.append("\n## ");
        sections.append(files[i].0.as_str());
        sections.append("\n");
        sections.append(files[i].1.as_str());
        sections.append("\n");
        i += 1;
    }
    assert(all.take(files.len() as int) =~= all);
    let mut r = String::from_str("\n\n# Untracked files\n");
    r.append(sections.as_str());
    r
}

/// The changes to describe: the diff followed by the untracked files'
/// context, or nothing when that is only whitespace.
pub fn diff_with_untracked(diff: &str, context: &str) -> (r: Option<String>)
    ensures
        trimmed(diff@ + context@).len() == 0 ==> r is None,
        trimmed(diff@ + context@).len() > 0 ==> r is Some && r->Some_0@ == diff@ + context@,
{
    let mut all = String::from_str(diff);
    all.append(context);
    if trim(all.as_str()).is_empty() {
        None
    } else {
        Some(all)
    }
}

/// The Copilot invocation that asks for a commit message; `gpt-5-mini`
/// unless another model is named.
pub fn copilot_commit_command(repo_root: &str, prompt: &str, model: Option<&str>) -> (r: Cmd)
    ensures
        ({
            let m = model_or(model, "gpt-5-mini"@);
            r@ == model_invocation(
                "copilot"@,
                seq!["--silent"@, "--model"@, m, "--prompt"@, prompt@],
                repo_root@,
                "🚀 copilot --silent --model "@ + m + " --prompt ..."@,
            )
        }),
{
    let m = match model {
        Some(m) => m,
        None => "gpt-5-mini",
    };
    let mut title = String::from_str("🚀 copilot --silent --model ");
    title.append(m);
    title.append(" --prompt ...");
    let args: &[&str] = &["--silent", "--model", m, "--prompt", prompt];
    assert(args@.map_values(|a: &str| a@) =~= seq!["--silent"@, "--model"@, m@, "--prompt"@, prompt@]);
    let mut cmd = Cmd::new("copilot", args);
    cmd.hide_stdout();
    cmd.with_title(title.as_str());
    cmd.with_current_dir(repo_root);
    cmd
}

/// The Gemini invocation that asks for a commit message as plain text;
/// `gemini-3-flash-preview` unless another model is named.
pub fn gemini_commit_command(repo_root: &str, prompt: &str, model: Option<&str>) -> (r: Cmd)
    ensures
        ({
            let m = model_or(model, "gemini-3-flash-preview"@);
            r@ == model_invocation(
                "gemini"@,
                seq![
                    "--model"@,
                    m,
                    "--sandbox"@,
                    "--output-format"@,
                    "text"@,
                    "--prompt"@,
                    prompt@,
                ],
                repo_root@,
                "🚀 gemini --model "@ + m + " --sandbox --output-format text --prompt ..."@,
            )
        }),
{
    let m = match model {
        Some(m) => m,
        None => "gemini-3-flash-preview",
    };
    let mut title = String::from_str("🚀 gemini --model ");
    title.append(m);
    title.append(" --sandbox --output-format text --prompt ...");
    let args: &[&str] = &["--model", m, "--sandbox", "--output-format", "text", "--prompt", prompt];
    assert(args@.map_values(|a: &str| a@) =~= seq![
        "--model"@,
        m@,
        "--sandbox"@,
        "--output-format"@,
        "text"@,
        "--prompt"@,
        prompt@,
    ]);
    let mut cmd = Cmd::new("gemini", args);
    cmd.hide_stdout();
    cmd.with_title(title.as_str());
    cmd.with_current_dir(repo_root);
    cmd
}

} // verus!
