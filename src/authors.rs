//! Commit authors: co-author trailers and the commits of a branch, read from
//! the output of `git log`.

use crate::text::{split_lines, split_once, split_once_char, text_lines, trim, trimmed, views};
use vstd::prelude::*;

verus! {

/// One `Co-authored-by` line for each author, each after a newline.
pub open spec fn trailer_lines(authors: Seq<Seq<char>>) -> Seq<char>
    decreases authors.len(),
{
    if authors.len() == 0 {
        Seq::empty()
    } else {
        trailer_lines(authors.drop_last()) + "\nCo-authored-by: "@ + authors.last()
    }
}

/// The trailer appended to a commit message: empty without co-authors,
/// otherwise a blank line and then one line per co-author.
pub open spec fn co_author_trailer(authors: Seq<Seq<char>>) -> Seq<char> {
    if authors.len() == 0 {
        Seq::empty()
    } else {
        "\n"@ + trailer_lines(authors)
    }
}

pub fn format_co_authors(co_authors: &[String]) -> (r: String)
    ensures
        r@ == co_author_trailer(co_authors@.map_values(|a: String| a@)),
{
    let ghost names = co_authors@.map_values(|a: String| a@);
    if co_authors.len() == 0 {
        return String::new();
    }
    let mut lines = String::new();
    let mut i: usize = 0;
    while i < co_authors.len()
        invariant
            i <= co_authors@.len(),
            names == co_authors@.map_values(|a: String| a@),
            lines@ == trailer_lines(names.take(i as int)),
        decreases co_authors.len() - i,
    {
        lines.append("\nCo-authored-by: ");
        lines.append(co_authors[i].as_str());
        assert(names.take(i + 1).drop_last() =~= names.take(i as int));
        i += 1;
    }
    assert(names.take(co_authors.len() as int) =~= names);
    let mut r = String::from_str("\n");
    r.append(lines.as_str());
    r
}

/// `name <email>`, each part without surrounding whitespace.
pub open spec fn author_identity(name: Seq<char>, email: Seq<char>) -> Seq<char> {
    trimmed(name) + " <"@ + trimmed(email) + ">"@
}

/// The identity that `git log --format='%an <%ae>'` prints for the user whose
/// configured name and email are given.
pub fn current_author(name: &str, email: &str) -> (r: String)
    ensures
        r@ == author_identity(name@, email@),
{
    let mut r = String::from_str(trim(name));
    r.append(" <");
    r.append(trim(email));
    r.append(">");
    r
}

/// The co-authors among `lines`: each trimmed line that is not empty and is
/// not `me`, once, in the order of first appearance.
pub open spec fn co_authors_in(lines: Seq<Seq<char>>, me: Seq<char>) -> Seq<Seq<char>>
    decreases lines.len(),
{
    if lines.len() == 0 {
        Seq::empty()
    } else {
        let earlier = co_authors_in(lines.drop_last(), me);
        let a = trimmed(lines.last());
        if a.len() > 0 && a != me && !earlier.contains(a) {
            earlier.push(a)
        } else {
            earlier
        }
    }
}

fn contains_text(v: &Vec<String>, t: &String) -> (r: bool)
    ensures
        r == views(v@).contains(t@),
{
    let mut i: usize = 0;
    while i < v.len()
        invariant
            i <= v@.len(),
            forall|k: int| 0 <= k < i ==> v@[k]@ != t@,
        decreases v.len() - i,
    {
        if v[i] == *t {
            assert(views(v@)[i as int] == t@);
            return true;
        }
        i += 1;
    }
    assert forall|k: int| 0 <= k < views(v@).len() implies views(v@)[k] != t@ by {
        assert(views(v@)[k] == v@[k]@);
    }
    false
}

/// The co-authors of a branch, from the author lines that `git log` printed
/// and the current user's identity. Each appears once, in the order of its
/// first line.
pub fn co_authors_from_log(log: &str, me: &str) -> (r: Vec<String>)
    ensures
        views(r@) == co_authors_in(text_lines(log@), me@),
{
    let lines = split_lines(log);
    let me_text = String::from_str(me);
    let ghost all = views(lines@);
    let mut out: Vec<String> = Vec::new();
    let mut i: usize = 0;
    while i < lines.len()
        invariant
            i <= lines@.len(),
            all == views(lines@),
            me_text@ == me@,
            views(out@) == co_authors_in(all.take(i as int), me@),
        decreases lines.len() - i,
    {
        assert(all.take(i + 1).drop_last() =~= all.take(i as int));
        assert(all[i as int] == lines@[i as int]@);
        let author = String::from_str(trim(lines[i].as_str()));
        if !author.as_str().is_empty() && author != me_text && !contains_text(&out, &author) {
            out.push(author);
            assert(views(out@) =~= views(out@).drop_last().push(author@));
        }
        i += 1;
    }
    assert(all.take(lines.len() as int) =~= all);
    out
}

/// A commit of a branch, as listed before squashing it.
#[derive(Debug)]
pub struct CommitInfo {
    /// The first eight characters of the commit's hash.
    pub hash: String,
    pub message: String,
    pub author: String,
}

pub open spec fn commit_view(c: CommitInfo) -> (Seq<char>, Seq<char>, Seq<char>) {
    (c.hash@, c.message@, c.author@)
}

/// The first eight characters of `h`; all of it when it is shorter.
pub open spec fn short_hash(h: Seq<char>) -> Seq<char> {
    if h.len() <= 8 {
        h
    } else {
        h.take(8)
    }
}

/// The hash, subject and author of a `git log --format='%H|%s|%an <%ae>'`
/// line: the text before the first `|`, between it and the second, and
/// after the second; nothing when the line holds fewer than two `|`.
pub open spec fn commit_fields(line: Seq<char>) -> Option<(Seq<char>, Seq<char>, Seq<char>)> {
    match split_once(line, '|') {
        None => None,
        Some((hash, rest)) => match split_once(rest, '|') {
            None => None,
            Some((subject, author)) => Some((short_hash(hash), subject, author)),
        },
    }
}

/// The commits that `lines` list, in the order of the lines.
pub open spec fn commits_in(lines: Seq<Seq<char>>) -> Seq<(Seq<char>, Seq<char>, Seq<char>)>
    decreases lines.len(),
{
    if lines.len() == 0 {
        Seq::empty()
    } else {
        let later = commits_in(lines.drop_first());
        match commit_fields(trimmed(lines[0])) {
            Some(c) => seq![c] + later,
            None => later,
        }
    }
}

fn commit_of_line(line: &str) -> (r: Option<CommitInfo>)
    ensures
        match r {
            Some(c) => commit_fields(line@) == Some(commit_view(c)),
            None => commit_fields(line@) is None,
        },
{
    match split_once_char(line, '|') {
        None => None,
        Some((hash, rest)) => match split_once_char(rest, '|') {
            None => None,
            Some((subject, author)) => {
                let n = hash.unicode_len();
                let short = if n <= 8 {
                    hash
                } else {
                    hash.substring_char(0, 8)
                };
                Some(
                    CommitInfo {
                        hash: String::from_str(short),
                        message: String::from_str(subject),
                        author: String::from_str(author),
                    },
                )
            },
        },
    }
}

/// The commits that `git log --format='%H|%s|%an <%ae>'` printed, oldest
/// first: `git log` lists the newest first. Lines without two `|` are
/// skipped.
pub fn parse_commit_log(log: &str) -> (r: Vec<CommitInfo>)
    ensures
        r@.map_values(|c: CommitInfo| commit_view(c)) == commits_in(text_lines(log@)).reverse(),
{
    let lines = split_lines(log);
    let ghost all = views(lines@);
    let mut out: Vec<CommitInfo> = Vec::new();
    let mut i: usize = lines.len();
    assert(all.subrange(i as int, i as int) =~= Seq::<Seq<char>>::empty());
    while i > 0
        invariant
            i <= lines@.len(),
            all == views(lines@),
            out@.map_values(|c: CommitInfo| commit_view(c)) == commits_in(
                all.subrange(i as int, all.len() as int),
            ).reverse(),
        decreases i,
    {
        i -= 1;
        let ghost suffix = all.subrange(i as int, all.len() as int);
        let ghost later = commits_in(all.subrange(i + 1, all.len() as int));
        assert(suffix.drop_first() =~= all.subrange(i + 1, all.len() as int));
        assert(suffix[0] == lines@[i as int]@);
        let ghost before = out@.map_values(|c: CommitInfo| commit_view(c));
        match commit_of_line(trim(lines[i].as_str())) {
            Some(c) => {
                let ghost v = commit_view(c);
                out.push(c);
                assert(out@.map_values(|c: CommitInfo| commit_view(c)) =~= before.push(v));
                assert((seq![v] + later).reverse() =~= later.reverse().push(v));
            },
            None => {},
        }
    }
    assert(all.subrange(0, all.len() as int) =~= all);
    out
}

} // verus!
