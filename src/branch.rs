//! Branch names derived from commit messages.

use crate::text::{push_char, trim, trimmed};
use vstd::prelude::*;

verus! {

/// The lowercase form of `s`, as `str::to_lowercase` gives it.
pub uninterp spec fn lower_of(s: Seq<char>) -> Seq<char>;

/// Relies on str::to_lowercase: the lowercase form depends on the characters
/// alone, and an empty text stays empty.
#[verifier::external_body]
fn lowercase(s: &str) -> (r: String)
    ensures
        r@ == lower_of(s@),
        s@.len() == 0 ==> r@.len() == 0,
{
    s.to_lowercase()
}

/// What a character of a commit message becomes in a branch name:
/// backquotes, colons, closing parentheses and double quotes go; opening
/// parentheses, slashes and dots become dashes.
pub open spec fn branch_piece(c: char) -> Seq<char> {
    if c == '`' || c == ':' || c == ')' || c == '"' {
        Seq::empty()
    } else if c == '(' || c == '/' || c == '.' {
        seq!['-']
    } else {
        seq![c]
    }
}

pub open spec fn sanitized(s: Seq<char>) -> Seq<char>
    decreases s.len(),
{
    if s.len() == 0 {
        Seq::empty()
    } else {
        sanitized(s.drop_last()) + branch_piece(s.last())
    }
}

/// `s` with each space replaced by a dash.
pub open spec fn dashed(s: Seq<char>) -> Seq<char> {
    s.map_values(|c: char| if c == ' ' { '-' } else { c })
}

fn sanitize(s: &str) -> (r: String)
    ensures
        r@ == sanitized(s@),
{
    let n = s.unicode_len();
    let mut r = String::new();
    let mut i: usize = 0;
    while i < n
        invariant
            i <= n,
            n == s@.len(),
            r@ == sanitized(s@.take(i as int)),
        decreases n - i,
    {
        let c = s.get_char(i);
        assert(s@.take(i + 1).drop_last() =~= s@.take(i as int));
        let ghost before = r@;
        if c == '`' || c == ':' || c == ')' || c == '"' {
            assert(before + branch_piece(c) =~= before);
        } else if c == '(' || c == '/' || c == '.' {
            push_char(&mut r, '-');
            assert(before + branch_piece(c) =~= before.push('-'));
        } else {
            push_char(&mut r, c);
            assert(before + branch_piece(c) =~= before.push(c));
        }
        i += 1;
    }
    assert(s@.take(n as int) =~= s@);
    r
}

/// `lowered` with each space replaced by a dash: the last step of making a
/// branch name, after lowercasing.
pub fn branch_name_from_lowercase(lowered: &str) -> (r: String)
    ensures
        r@ == dashed(lowered@),
{
    let n = lowered.unicode_len();
    let mut r = String::new();
    let mut i: usize = 0;
    while i < n
        invariant
            i <= n,
            n == lowered@.len(),
            r@ == dashed(lowered@.take(i as int)),
        decreases n - i,
    {
        let c = lowered.get_char(i);
        if c == ' ' {
            push_char(&mut r, '-');
        } else {
            push_char(&mut r, c);
        }
        assert(dashed(lowered@.take(i + 1)) =~= dashed(lowered@.take(i as int)).push(
            if c == ' ' {
                '-'
            } else {
                c
            },
        ));
        i += 1;
    }
    assert(lowered@.take(n as int) =~= lowered@);
    r
}

/// The branch name for a commit message: punctuation dropped or turned into
/// dashes, surrounding whitespace removed, lowercased, spaces turned into
/// dashes.
pub fn branch_name_from_commit_message(commit_message: &str) -> (r: String)
    ensures
        r@ == dashed(lower_of(trimmed(sanitized(commit_message@)))),
{
    let cleaned = sanitize(commit_message);
    let lowered = lowercase(trim(cleaned.as_str()));
    branch_name_from_lowercase(lowered.as_str())
}

} // verus!
